//! Runtime targets: the sinks that mappings drive.
//!
//! A target can report a current value, accept a hit, and say whether it is
//! available. Project state (here: the track table) is an explicitly passed
//! context, never a hidden global. A hit distinguishes being ignored,
//! processed without observable effect, processed with effect, and handing
//! back a deferred instruction for batch effects.

use vstd::prelude::*;

use crate::units::{ControlValue, UnitValue};

verus! {

/// The project state that targets resolve against and act on: one
/// normalised volume per track.
pub struct TargetContext {
    pub track_volumes: Vec<UnitValue>,
}

impl TargetContext {
    pub fn new(track_volumes: Vec<UnitValue>) -> (r: TargetContext)
        ensures
            r.track_volumes@ == track_volumes@,
    {
        TargetContext { track_volumes }
    }
}

/// What a hit did, so that the caller knows whether feedback is due.
#[derive(Clone, Copy, PartialEq, Eq, Structural, Debug)]
pub enum HitResponse {
    /// The value did not warrant any action.
    Ignored,
    /// The hit was processed but nothing observable changed.
    ProcessedNoEffect,
    /// The hit changed something observable; feedback should refresh.
    ProcessedWithEffect,
}

/// A deferred batch effect that a hit hands back instead of acting at once.
#[derive(Clone, Copy, PartialEq, Eq, Structural, Debug)]
pub enum HitInstruction {
    /// Load the initial-value snapshot into the matching mappings.
    LoadMappingSnapshot { active_mappings_only: bool },
}

/// A target that maintains an artificial value, for basic toggle and
/// relative control without touching the project.
#[derive(Clone, Copy, PartialEq, Eq, Structural, Debug)]
pub struct DummyTarget {
    pub artificial_value: UnitValue,
}

impl DummyTarget {
    pub fn new() -> (r: DummyTarget)
        ensures
            r.artificial_value.spec_raw() == 0,
            r == (DummyTarget { artificial_value: UnitValue::spec_from_raw(0) }),
    {
        DummyTarget { artificial_value: UnitValue::min_value() }
    }

    /// Stores an absolute hit as the new artificial value; relative values
    /// are ignored here because the mode resolves them first.
    pub fn hit(&mut self, value: ControlValue)
        ensures
            (match value {
                ControlValue::AbsoluteContinuous(v) => final (self).artificial_value == v,
                ControlValue::Relative(_) => *final (self) == *old(self),
            }),
    {
        match value {
            ControlValue::AbsoluteContinuous(v) => {
                self.artificial_value = v;
            },
            ControlValue::Relative(_) => {},
        }
    }

    pub fn current_value(&self) -> (r: UnitValue)
        ensures
            r == self.artificial_value,
    {
        self.artificial_value
    }
}

/// An unresolved dummy target; resolution always succeeds and never needs
/// to be refreshed by change events.
#[derive(Clone, Copy, PartialEq, Eq, Structural, Debug)]
pub struct UnresolvedDummyTarget;

impl UnresolvedDummyTarget {
    pub fn resolve(&self) -> (r: ReaperTarget)
        ensures
            r matches ReaperTarget::Dummy(d) && d.artificial_value.spec_raw() == 0,
    {
        ReaperTarget::Dummy(DummyTarget::new())
    }
}

/// A target that loads a mapping snapshot: a trigger whose effect touches
/// many mappings transactionally, so the hit defers to an instruction.
#[derive(Clone, Copy, PartialEq, Eq, Structural, Debug)]
pub struct LoadMappingSnapshotTarget {
    pub active_mappings_only: bool,
}

/// The unresolved form of [`LoadMappingSnapshotTarget`].
#[derive(Clone, Copy, PartialEq, Eq, Structural, Debug)]
pub struct UnresolvedLoadMappingSnapshotTarget {
    pub active_mappings_only: bool,
}

impl UnresolvedLoadMappingSnapshotTarget {
    pub fn resolve(&self) -> (r: ReaperTarget)
        ensures
            r == ReaperTarget::LoadMappingSnapshot(
                LoadMappingSnapshotTarget { active_mappings_only: self.active_mappings_only },
            ),
    {
        ReaperTarget::LoadMappingSnapshot(
            LoadMappingSnapshotTarget { active_mappings_only: self.active_mappings_only },
        )
    }
}

/// A resolved target.
#[derive(Clone, Copy, PartialEq, Eq, Structural, Debug)]
pub enum ReaperTarget {
    /// The normalised volume of one track.
    TrackVolume { track_index: usize },
    Dummy(DummyTarget),
    LoadMappingSnapshot(LoadMappingSnapshotTarget),
}

impl ReaperTarget {
    /// The current value the target reports, cheap and without side
    /// effects; `None` when the target cannot report one.
    pub fn current_value(&self, context: &TargetContext) -> (r: Option<UnitValue>)
        ensures
            (match *self {
                ReaperTarget::TrackVolume { track_index } => {
                    if track_index < context.track_volumes@.len() {
                        r == Some(context.track_volumes@[track_index as int])
                    } else {
                        r is None
                    }
                },
                ReaperTarget::Dummy(d) => r == Some(d.artificial_value),
                ReaperTarget::LoadMappingSnapshot(_) => r is None,
            }),
    {
        match self {
            ReaperTarget::TrackVolume { track_index } => {
                if *track_index < context.track_volumes.len() {
                    Some(context.track_volumes[*track_index])
                } else {
                    None
                }
            },
            ReaperTarget::Dummy(d) => Some(d.current_value()),
            ReaperTarget::LoadMappingSnapshot(_) => None,
        }
    }

    pub fn is_available(&self, context: &TargetContext) -> (r: bool)
        ensures
            r == (match *self {
                ReaperTarget::TrackVolume { track_index } => track_index
                    < context.track_volumes@.len(),
                _ => true,
            }),
    {
        match self {
            ReaperTarget::TrackVolume { track_index } => *track_index
                < context.track_volumes.len(),
            _ => true,
        }
    }

    /// Applies a value to the target.
    ///
    /// A track-volume hit fails with a static message exactly when the
    /// track is gone; otherwise it reports whether the value changed
    /// anything. A snapshot-load hit is ignored for the zero value and
    /// otherwise defers to an instruction; it never touches the context.
    pub fn hit(&mut self, value: UnitValue, context: &mut TargetContext) -> (r: Result<
        (HitResponse, Option<HitInstruction>),
        &'static str,
    >)
        ensures
            (match *old(self) {
                ReaperTarget::TrackVolume { track_index } => {
                    &&& *final (self) == *old(self)
                    &&& if track_index < old(context).track_volumes@.len() {
                        &&& final (context).track_volumes@ == old(context).track_volumes@.update(
                            track_index as int,
                            value,
                        )
                        &&& if old(context).track_volumes@[track_index as int] == value {
                            r == Ok::<_, &'static str>((HitResponse::ProcessedNoEffect, Option::<
                                HitInstruction,
                            >::None))
                        } else {
                            r == Ok::<_, &'static str>((HitResponse::ProcessedWithEffect, Option::<
                                HitInstruction,
                            >::None))
                        }
                    } else {
                        &&& r matches Err(e) && e@ == "track not available"@
                        &&& final (context).track_volumes@ == old(context).track_volumes@
                    }
                },
                ReaperTarget::Dummy(d) => {
                    &&& final (context).track_volumes@ == old(context).track_volumes@
                    &&& *final (self) matches ReaperTarget::Dummy(d2) && d2.artificial_value
                        == value
                    &&& if d.artificial_value == value {
                        r == Ok::<_, &'static str>((HitResponse::ProcessedNoEffect, Option::<
                            HitInstruction,
                        >::None))
                    } else {
                        r == Ok::<_, &'static str>((HitResponse::ProcessedWithEffect, Option::<
                            HitInstruction,
                        >::None))
                    }
                },
                ReaperTarget::LoadMappingSnapshot(t) => {
                    &&& *final (self) == *old(self)
                    &&& final (context).track_volumes@ == old(context).track_volumes@
                    &&& if value.spec_raw() == 0 {
                        r == Ok::<_, &'static str>((HitResponse::Ignored, Option::<
                            HitInstruction,
                        >::None))
                    } else {
                        r == Ok::<_, &'static str>(
                            (
                                HitResponse::ProcessedWithEffect,
                                Some(
                                    HitInstruction::LoadMappingSnapshot {
                                        active_mappings_only: t.active_mappings_only,
                                    },
                                ),
                            ),
                        )
                    }
                },
            }),
    {
        match self {
            ReaperTarget::TrackVolume { track_index } => {
                let i = *track_index;
                if i < context.track_volumes.len() {
                    let changed = !(context.track_volumes[i] == value);
                    context.track_volumes.set(i, value);
                    proof {
                        assert(context.track_volumes@ == old(context).track_volumes@.update(
                            i as int,
                            value,
                        ));
                    }
                    if changed {
                        Ok((HitResponse::ProcessedWithEffect, None))
                    } else {
                        Ok((HitResponse::ProcessedNoEffect, None))
                    }
                } else {
                    Err("track not available")
                }
            },
            ReaperTarget::Dummy(d) => {
                let changed = !(d.artificial_value == value);
                d.artificial_value = value;
                if changed {
                    Ok((HitResponse::ProcessedWithEffect, None))
                } else {
                    Ok((HitResponse::ProcessedNoEffect, None))
                }
            },
            ReaperTarget::LoadMappingSnapshot(t) => {
                if value.is_zero() {
                    Ok((HitResponse::Ignored, None))
                } else {
                    Ok(
                        (
                            HitResponse::ProcessedWithEffect,
                            Some(
                                HitInstruction::LoadMappingSnapshot {
                                    active_mappings_only: t.active_mappings_only,
                                },
                            ),
                        ),
                    )
                }
            },
        }
    }
}

/// The target a persistent description resolves to under the given
/// project state, or `None` when it cannot resolve: the spec counterpart
/// of [`resolve_target`].
pub open spec fn spec_resolved_target(
    target: &crate::target_api::Target,
    context: &TargetContext,
) -> Option<ReaperTarget> {
    match *target {
        crate::target_api::Target::Dummy(_) => Some(
            ReaperTarget::Dummy(DummyTarget { artificial_value: UnitValue::spec_from_raw(0) }),
        ),
        crate::target_api::Target::LoadMappingSnapshot(desc) => Some(
            ReaperTarget::LoadMappingSnapshot(
                LoadMappingSnapshotTarget {
                    active_mappings_only: desc.active_mappings_only == Some(true),
                },
            ),
        ),
        crate::target_api::Target::TrackVolume(desc) => match desc.track {
            Some(crate::target_api::TrackDescriptor::ByIndex { index, .. }) => {
                if index < context.track_volumes@.len() {
                    Some(ReaperTarget::TrackVolume { track_index: index as usize })
                } else {
                    None
                }
            },
            _ => None,
        },
        _ => None,
    }
}

/// Resolves a persistent target description against the current project
/// state. Resolution is lazy and can fail without destroying the mapping:
/// a track that is gone reports "track not available" and the mapping
/// stays configured. Target kinds that need host collaborators beyond the
/// track table report "target kind not resolvable here".
pub fn resolve_target(
    target: &crate::target_api::Target,
    context: &TargetContext,
) -> (r: Result<ReaperTarget, &'static str>)
    ensures
        (match r {
            Ok(t) => spec_resolved_target(target, context) == Some(t),
            Err(_) => spec_resolved_target(target, context) is None,
        }),
        (match *target {
            crate::target_api::Target::Dummy(_) => r matches Ok(t) && t matches
                ReaperTarget::Dummy(d) && d.artificial_value.spec_raw() == 0,
            crate::target_api::Target::LoadMappingSnapshot(desc) => r == Ok::<_, &'static str>(
                ReaperTarget::LoadMappingSnapshot(
                    LoadMappingSnapshotTarget {
                        active_mappings_only: desc.active_mappings_only == Some(true),
                    },
                ),
            ),
            crate::target_api::Target::TrackVolume(desc) => (match desc.track {
                Some(crate::target_api::TrackDescriptor::ByIndex { index, .. }) => {
                    if index < context.track_volumes@.len() {
                        r == Ok::<_, &'static str>(
                            ReaperTarget::TrackVolume { track_index: index as usize },
                        )
                    } else {
                        r matches Err(e) && e@ == "track not available"@
                    }
                },
                _ => r matches Err(e) && e@ == "target kind not resolvable here"@,
            }),
            _ => r matches Err(e) && e@ == "target kind not resolvable here"@,
        }),
{
    match target {
        crate::target_api::Target::Dummy(_) => Ok(ReaperTarget::Dummy(DummyTarget::new())),
        crate::target_api::Target::LoadMappingSnapshot(desc) => Ok(
            ReaperTarget::LoadMappingSnapshot(
                LoadMappingSnapshotTarget {
                    active_mappings_only: desc.active_mappings_only == Some(true),
                },
            ),
        ),
        crate::target_api::Target::TrackVolume(desc) => {
            match &desc.track {
                Some(crate::target_api::TrackDescriptor::ByIndex { index, .. }) => {
                    if (*index as usize) < context.track_volumes.len() {
                        Ok(ReaperTarget::TrackVolume { track_index: *index as usize })
                    } else {
                        Err("track not available")
                    }
                },
                _ => Err("target kind not resolvable here"),
            }
        },
        _ => Err("target kind not resolvable here"),
    }
}

} // verus!
