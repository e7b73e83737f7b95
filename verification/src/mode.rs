//! Mode: the transformation between raw control values and target values.
//!
//! A mode scales a source range onto a target range, optionally reversed,
//! and accumulates relative increments onto the target's current value. The
//! feedback direction applies the inverse mapping so that a control surface
//! shows what the target holds. One mode instance belongs to one mapping
//! and is never shared.

use vstd::prelude::*;

use crate::units::{ControlValue, UnitValue, UNIT_DENOM};

verus! {

/// Clamps a value into a closed range.
pub open spec fn spec_clamp(v: int, lo: int, hi: int) -> int {
    if v < lo {
        lo
    } else if v > hi {
        hi
    } else {
        v
    }
}

/// Normalises a value within `[lo, hi]` to the unit range; an empty range
/// normalises to 0.
pub open spec fn spec_normalize(v: int, lo: int, hi: int) -> int {
    if hi <= lo {
        0
    } else {
        (spec_clamp(v, lo, hi) - lo) * (UNIT_DENOM as int) / (hi - lo)
    }
}

/// Maps a unit-range value onto `[lo, hi]`.
pub open spec fn spec_denormalize(t: int, lo: int, hi: int) -> int {
    lo + t * (hi - lo) / (UNIT_DENOM as int)
}

/// Settings of a mode. The source range says which span of incoming
/// absolute values is meaningful; the target range says which span of the
/// target the mode drives.
pub struct Mode {
    source_min: UnitValue,
    source_max: UnitValue,
    target_min: UnitValue,
    target_max: UnitValue,
    reverse: bool,
    /// Size of one relative step, as a unit value.
    step_size: UnitValue,
}

impl Mode {
    /// Ranges are ordered: the minimum never exceeds the maximum.
    #[verifier::type_invariant]
    pub closed spec fn inv(self) -> bool {
        &&& self.source_min.spec_raw() <= self.source_max.spec_raw()
        &&& self.target_min.spec_raw() <= self.target_max.spec_raw()
    }

    pub closed spec fn spec_source_min(self) -> int {
        self.source_min.spec_raw()
    }

    pub closed spec fn spec_source_max(self) -> int {
        self.source_max.spec_raw()
    }

    pub closed spec fn spec_target_min(self) -> int {
        self.target_min.spec_raw()
    }

    pub closed spec fn spec_target_max(self) -> int {
        self.target_max.spec_raw()
    }

    pub closed spec fn spec_reverse(self) -> bool {
        self.reverse
    }

    pub closed spec fn spec_step_size(self) -> int {
        self.step_size.spec_raw()
    }

    /// The identity configuration: full ranges, no reversal.
    pub open spec fn spec_is_default(self) -> bool {
        &&& self.spec_source_min() == 0
        &&& self.spec_source_max() == UNIT_DENOM
        &&& self.spec_target_min() == 0
        &&& self.spec_target_max() == UNIT_DENOM
        &&& !self.spec_reverse()
    }

    /// What an absolute control value becomes: normalised within the source
    /// range, optionally reversed, then mapped onto the target range.
    pub open spec fn spec_absolute_control(self, v: int) -> int {
        let t = spec_normalize(v, self.spec_source_min(), self.spec_source_max());
        let t2 = if self.spec_reverse() {
            (UNIT_DENOM as int) - t
        } else {
            t
        };
        spec_denormalize(t2, self.spec_target_min(), self.spec_target_max())
    }

    /// What a target value feeds back as: normalised within the target
    /// range, optionally reversed, then mapped onto the source range.
    pub open spec fn spec_feedback(self, v: int) -> int {
        let t = spec_normalize(v, self.spec_target_min(), self.spec_target_max());
        let t2 = if self.spec_reverse() {
            (UNIT_DENOM as int) - t
        } else {
            t
        };
        spec_denormalize(t2, self.spec_source_min(), self.spec_source_max())
    }

    /// The identity mode: full ranges, no reversal, a step size of 1%.
    pub fn default_mode() -> (r: Mode)
        ensures
            r.spec_is_default(),
            r.spec_step_size() == 10_000,
    {
        Mode {
            source_min: UnitValue::min_value(),
            source_max: UnitValue::max_value(),
            target_min: UnitValue::min_value(),
            target_max: UnitValue::max_value(),
            reverse: false,
            step_size: UnitValue::new_clamped(10_000),
        }
    }

    /// Builds a mode from explicit settings.
    pub fn new(
        source_min: UnitValue,
        source_max: UnitValue,
        target_min: UnitValue,
        target_max: UnitValue,
        reverse: bool,
        step_size: UnitValue,
    ) -> (r: Mode)
        requires
            source_min.spec_raw() <= source_max.spec_raw(),
            target_min.spec_raw() <= target_max.spec_raw(),
        ensures
            r.spec_source_min() == source_min.spec_raw(),
            r.spec_source_max() == source_max.spec_raw(),
            r.spec_target_min() == target_min.spec_raw(),
            r.spec_target_max() == target_max.spec_raw(),
            r.spec_reverse() == reverse,
            r.spec_step_size() == step_size.spec_raw(),
    {
        Mode { source_min, source_max, target_min, target_max, reverse, step_size }
    }

    /// Transforms an incoming control value into the value to apply to the
    /// target.
    ///
    /// An absolute value always produces a result, following
    /// [`Self::spec_absolute_control`]. A relative value accumulates onto
    /// the target's current value in steps of the step size, clamped into
    /// the target range; a relative zero, and a relative value without a
    /// known target value, is consumed without producing anything.
    pub fn control(&self, value: ControlValue, target_value: Option<UnitValue>) -> (r: Option<
        UnitValue,
    >)
        ensures
            (match value {
                ControlValue::AbsoluteContinuous(v) => r matches Some(out) && out.spec_raw()
                    == self.spec_absolute_control(v.spec_raw()),
                ControlValue::Relative(d) => {
                    if d == 0 {
                        r is None
                    } else {
                        match target_value {
                            None => r is None,
                            Some(cur) => r matches Some(out) && out.spec_raw() == spec_clamp(
                                cur.spec_raw() + d * self.spec_step_size(),
                                self.spec_target_min(),
                                self.spec_target_max(),
                            ),
                        }
                    }
                },
            }),
    {
        proof {
            use_type_invariant(&*self);
        }
        match value {
            ControlValue::AbsoluteContinuous(v) => Some(self.absolute_control(v)),
            ControlValue::Relative(d) => {
                if d == 0 {
                    return None;
                }
                match target_value {
                    None => None,
                    Some(cur) => {
                        let step = self.step_size.get() as i64;
                        proof {
                            assert(-0x8000_0000i64 * 1_000_000 <= (d as int) * (step as int)
                                <= 0x7fff_ffffi64 * 1_000_000) by (nonlinear_arith)
                                requires
                                    -0x8000_0000 <= d <= 0x7fff_ffff,
                                    0 <= step <= 1_000_000,
                            ;
                        }
                        let delta: i64 = (d as i64) * step;
                        let cur_raw = cur.get() as i64;
                        let sum: i64 = cur_raw + delta;
                        let lo = self.target_min.get() as i64;
                        let hi = self.target_max.get() as i64;
                        let clamped: i64 = if sum < lo {
                            lo
                        } else if sum > hi {
                            hi
                        } else {
                            sum
                        };
                        Some(UnitValue::new_clamped(clamped as u32))
                    },
                }
            },
        }
    }

    /// Applies the absolute transformation.
    pub fn absolute_control(&self, v: UnitValue) -> (r: UnitValue)
        ensures
            r.spec_raw() == self.spec_absolute_control(v.spec_raw()),
    {
        proof {
            use_type_invariant(&*self);
        }
        let t = normalize(v.get(), self.source_min.get(), self.source_max.get());
        let t2: u32 = if self.reverse {
            UNIT_DENOM - t
        } else {
            t
        };
        let out = denormalize(t2, self.target_min.get(), self.target_max.get());
        out
    }

    /// Applies the inverse transformation for feedback.
    pub fn feedback(&self, target_value: UnitValue) -> (r: UnitValue)
        ensures
            r.spec_raw() == self.spec_feedback(target_value.spec_raw()),
    {
        proof {
            use_type_invariant(&*self);
        }
        let t = normalize(target_value.get(), self.target_min.get(), self.target_max.get());
        let t2: u32 = if self.reverse {
            UNIT_DENOM - t
        } else {
            t
        };
        let out = denormalize(t2, self.source_min.get(), self.source_max.get());
        out
    }
}

/// Normalises `v` within `[lo, hi]` to the unit range.
fn normalize(v: u32, lo: u32, hi: u32) -> (r: u32)
    requires
        v <= UNIT_DENOM,
        lo <= UNIT_DENOM,
        hi <= UNIT_DENOM,
    ensures
        r == spec_normalize(v as int, lo as int, hi as int),
        r <= UNIT_DENOM,
{
    if hi <= lo {
        return 0;
    }
    let clamped: u32 = if v < lo {
        lo
    } else if v > hi {
        hi
    } else {
        v
    };
    let span: u32 = hi - lo;
    let wide: u64 = ((clamped - lo) as u64) * 1_000_000u64;
    let r_wide: u64 = wide / (span as u64);
    proof {
        vstd::arithmetic::mul::lemma_mul_inequality(
            (clamped - lo) as int,
            span as int,
            1_000_000,
        );
        assert(wide <= (span as int) * 1_000_000);
        vstd::arithmetic::div_mod::lemma_div_is_ordered(
            wide as int,
            (span as int) * 1_000_000,
            span as int,
        );
        vstd::arithmetic::div_mod::lemma_div_multiples_vanish(1_000_000, span as int);
        assert((span as int) * 1_000_000 == (span as int) * 1_000_000int);
        assert(((span as int) * 1_000_000) / (span as int) == 1_000_000);
    }
    assert(r_wide <= 1_000_000u64);
    r_wide as u32
}

/// Maps a unit-range value onto `[lo, hi]`.
fn denormalize(t: u32, lo: u32, hi: u32) -> (r: UnitValue)
    requires
        t <= UNIT_DENOM,
        lo <= hi,
        hi <= UNIT_DENOM,
    ensures
        r.spec_raw() == spec_denormalize(t as int, lo as int, hi as int),
{
    let span: u32 = hi - lo;
    assert((t as u64) * (span as u64) <= 1_000_000u64 * 1_000_000u64) by (nonlinear_arith)
        requires
            t <= 1_000_000,
            span <= 1_000_000,
    ;
    let wide: u64 = (t as u64) * (span as u64);
    let part: u64 = wide / (UNIT_DENOM as u64);
    assert(part <= span) by (nonlinear_arith)
        requires
            part == wide / 1_000_000u64,
            wide == (t as u64) * (span as u64),
            t <= 1_000_000,
            span <= 1_000_000,
    ;
    let out: u32 = lo + (part as u32);
    UnitValue::new_clamped(out)
}

/// Feeding a target value through the identity mode's feedback direction
/// and the result back through its control direction returns the original
/// value exactly: with full ranges and no reversal both directions are the
/// identity on the unit range.
pub proof fn lemma_default_mode_round_trip(m: Mode, v: int)
    requires
        m.spec_is_default(),
        0 <= v <= UNIT_DENOM,
    ensures
        m.spec_feedback(v) == v,
        m.spec_absolute_control(m.spec_feedback(v)) == v,
{
    lemma_identity_transform(v);
    lemma_identity_transform(m.spec_feedback(v));
}

/// With full ranges, both normalisation and denormalisation are the
/// identity on the unit range.
proof fn lemma_identity_transform(v: int)
    requires
        0 <= v <= UNIT_DENOM,
    ensures
        spec_normalize(v, 0, UNIT_DENOM as int) == v,
        spec_denormalize(v, 0, UNIT_DENOM as int) == v,
{
    assert(spec_clamp(v, 0, UNIT_DENOM as int) == v);
    assert(v * 1_000_000 / 1_000_000 == v) by (nonlinear_arith)
        requires
            0 <= v,
    ;
}

} // verus!
