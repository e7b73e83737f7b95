//! The persistent target model: the tagged-union description of what a
//! mapping controls, as it is written to and read from storage. Field
//! defaults live here as `Default` impls so that readers and writers agree
//! on what an absent field means.

use vstd::prelude::*;

verus! {

/// A filter dimension of the preset browser.
#[derive(Clone, Copy, PartialEq, Eq, Structural, Debug, Hash)]
pub enum PotFilterKind {
    Database,
    /// Is available or not.
    IsAvailable,
    /// Is supported or not.
    IsSupported,
    /// Is user preset or factory preset.
    IsUser,
    /// Instrument, effect, loop, one-shot.
    ProductKind,
    /// Is favorite or not.
    IsFavorite,
    Project,
    Bank,
    SubBank,
    Category,
    SubCategory,
    Mode,
    HasPreview,
}

/// Number of filter dimensions.
pub const POT_FILTER_KIND_COUNT: usize = 13;

impl PotFilterKind {
    /// A stable index of the kind, for table lookups.
    pub open spec fn spec_index(self) -> int {
        match self {
            PotFilterKind::Database => 0,
            PotFilterKind::IsAvailable => 1,
            PotFilterKind::IsSupported => 2,
            PotFilterKind::IsUser => 3,
            PotFilterKind::ProductKind => 4,
            PotFilterKind::IsFavorite => 5,
            PotFilterKind::Project => 6,
            PotFilterKind::Bank => 7,
            PotFilterKind::SubBank => 8,
            PotFilterKind::Category => 9,
            PotFilterKind::SubCategory => 10,
            PotFilterKind::Mode => 11,
            PotFilterKind::HasPreview => 12,
        }
    }

    /// A stable index of the kind, for table lookups.
    pub fn index(self) -> (r: usize)
        ensures
            r == self.spec_index(),
            r < POT_FILTER_KIND_COUNT,
    {
        match self {
            PotFilterKind::Database => 0,
            PotFilterKind::IsAvailable => 1,
            PotFilterKind::IsSupported => 2,
            PotFilterKind::IsUser => 3,
            PotFilterKind::ProductKind => 4,
            PotFilterKind::IsFavorite => 5,
            PotFilterKind::Project => 6,
            PotFilterKind::Bank => 7,
            PotFilterKind::SubBank => 8,
            PotFilterKind::Category => 9,
            PotFilterKind::SubCategory => 10,
            PotFilterKind::Mode => 11,
            PotFilterKind::HasPreview => 12,
        }
    }

    /// All kinds, in index order.
    pub fn all() -> (r: Vec<PotFilterKind>)
        ensures
            r@.len() == POT_FILTER_KIND_COUNT,
            forall|i: int| 0 <= i < r@.len() ==> #[trigger] r@[i].spec_index() == i,
    {
        let mut out: Vec<PotFilterKind> = Vec::new();
        out.push(PotFilterKind::Database);
        out.push(PotFilterKind::IsAvailable);
        out.push(PotFilterKind::IsSupported);
        out.push(PotFilterKind::IsUser);
        out.push(PotFilterKind::ProductKind);
        out.push(PotFilterKind::IsFavorite);
        out.push(PotFilterKind::Project);
        out.push(PotFilterKind::Bank);
        out.push(PotFilterKind::SubBank);
        out.push(PotFilterKind::Category);
        out.push(PotFilterKind::SubCategory);
        out.push(PotFilterKind::Mode);
        out.push(PotFilterKind::HasPreview);
        proof {
            assert forall|i: int| 0 <= i < out@.len() implies #[trigger] out@[i].spec_index()
                == i by {
            }
        }
        out
    }

    /// Whether items of this kind can be put on an exclude list.
    pub fn allows_excludes(&self) -> (r: bool)
        ensures
            r == (*self is Database || *self is Bank || *self is SubBank),
    {
        match self {
            PotFilterKind::Database | PotFilterKind::Bank | PotFilterKind::SubBank => true,
            _ => false,
        }
    }

    /// Whether items of this kind are shown sorted.
    pub fn wants_sorting(&self) -> (r: bool)
        ensures
            r == (*self is Database || *self is Project || *self is Bank || *self is SubBank
                || *self is Category || *self is SubCategory || *self is Mode),
    {
        match self {
            PotFilterKind::Database
            | PotFilterKind::Project
            | PotFilterKind::Bank
            | PotFilterKind::SubBank
            | PotFilterKind::Category
            | PotFilterKind::SubCategory
            | PotFilterKind::Mode => true,
            _ => false,
        }
    }

    /// The parent dimension of a sub-dimension.
    pub fn parent(&self) -> (r: Option<PotFilterKind>)
        ensures
            (*self is SubBank) ==> r == Some(PotFilterKind::Bank),
            (*self is SubCategory) ==> r == Some(PotFilterKind::Category),
            !(*self is SubBank || *self is SubCategory) ==> r is None,
    {
        match self {
            PotFilterKind::SubBank => Some(PotFilterKind::Bank),
            PotFilterKind::SubCategory => Some(PotFilterKind::Category),
            _ => None,
        }
    }

    /// Kinds with lower dependency positions affect kinds with higher
    /// positions: changing a filter can invalidate the item sets of every
    /// kind behind it, never of one before it.
    pub open spec fn spec_dependency_position(self) -> int {
        match self {
            PotFilterKind::Database | PotFilterKind::IsAvailable | PotFilterKind::IsSupported
                | PotFilterKind::IsUser | PotFilterKind::ProductKind
                | PotFilterKind::IsFavorite => 0,
            PotFilterKind::Project => 1,
            PotFilterKind::Bank => 2,
            PotFilterKind::SubBank => 3,
            PotFilterKind::Category => 4,
            PotFilterKind::SubCategory => 5,
            PotFilterKind::Mode => 6,
            PotFilterKind::HasPreview => 7,
        }
    }

    pub fn dependency_position(&self) -> (r: u32)
        ensures
            r == self.spec_dependency_position(),
    {
        match self {
            PotFilterKind::Database
            | PotFilterKind::IsAvailable
            | PotFilterKind::IsSupported
            | PotFilterKind::IsUser
            | PotFilterKind::ProductKind
            | PotFilterKind::IsFavorite => 0,
            PotFilterKind::Project => 1,
            PotFilterKind::Bank => 2,
            PotFilterKind::SubBank => 3,
            PotFilterKind::Category => 4,
            PotFilterKind::SubCategory => 5,
            PotFilterKind::Mode => 6,
            PotFilterKind::HasPreview => 7,
        }
    }

    /// The kinds whose item sets a change of this kind can affect: those
    /// with a strictly higher dependency position.
    pub fn dependent_kinds(&self) -> (r: Vec<PotFilterKind>)
        ensures
            forall|i: int|
                0 <= i < r@.len() ==> #[trigger] r@[i].spec_dependency_position()
                    > self.spec_dependency_position(),
            forall|k: PotFilterKind|
                k.spec_dependency_position() > self.spec_dependency_position() ==> #[trigger] r@.contains(
                    k,
                ),
    {
        let all = PotFilterKind::all();
        let my_pos = self.dependency_position();
        let mut out: Vec<PotFilterKind> = Vec::new();
        let mut i: usize = 0;
        while i < all.len()
            invariant
                i <= all@.len(),
                all@.len() == POT_FILTER_KIND_COUNT,
                forall|j: int| 0 <= j < all@.len() ==> #[trigger] all@[j].spec_index() == j,
                my_pos == self.spec_dependency_position(),
                forall|j: int|
                    0 <= j < out@.len() ==> #[trigger] out@[j].spec_dependency_position() > my_pos,
                forall|j: int|
                    0 <= j < i && all@[j].spec_dependency_position() > my_pos
                        ==> out@.contains(#[trigger] all@[j]),
            decreases all@.len() - i,
        {
            let k = all[i];
            if k.dependency_position() > my_pos {
                let ghost before = out@;
                out.push(k);
                proof {
                    assert(out@[out@.len() - 1] == k);
                    assert forall|j: int|
                        0 <= j < i + 1 && all@[j].spec_dependency_position() > my_pos
                            implies out@.contains(#[trigger] all@[j]) by {
                        if j < i {
                            let w = choose|w: int|
                                0 <= w < before.len() && before[w] == all@[j];
                            assert(out@[w] == all@[j]);
                        } else {
                            assert(out@[out@.len() - 1] == all@[j]);
                        }
                    }
                }
            } else {
                proof {
                    assert forall|j: int|
                        0 <= j < i + 1 && all@[j].spec_dependency_position() > my_pos
                            implies out@.contains(#[trigger] all@[j]) by {
                    }
                }
            }
            i += 1;
        }
        proof {
            assert forall|k: PotFilterKind|
                k.spec_dependency_position() > self.spec_dependency_position()
                    implies #[trigger] out@.contains(k) by {
                lemma_pot_filter_kind_index_injective(all@[k.spec_index()], k);
                assert(all@[k.spec_index()] == k);
            }
        }
        out
    }

    /// Whether this kind is supported regardless of the database; the
    /// other kinds are "advanced" and database-specific.
    pub fn is_core_kind(&self) -> (r: bool)
        ensures
            r == (*self is Database || *self is IsAvailable || *self is IsSupported
                || *self is IsUser || *self is ProductKind || *self is IsFavorite
                || *self is HasPreview),
    {
        match self {
            PotFilterKind::Database
            | PotFilterKind::IsAvailable
            | PotFilterKind::IsSupported
            | PotFilterKind::IsUser
            | PotFilterKind::ProductKind
            | PotFilterKind::IsFavorite
            | PotFilterKind::HasPreview => true,
            _ => false,
        }
    }
}

/// Two kinds with the same index are the same kind.
pub proof fn lemma_pot_filter_kind_index_injective(a: PotFilterKind, b: PotFilterKind)
    requires
        a.spec_index() == b.spec_index(),
    ensures
        a == b,
{
}

impl Default for PotFilterKind {
    fn default() -> (r: Self)
        ensures
            r is Database,
    {
        PotFilterKind::Database
    }
}

/// Target kinds that the learn flows can capture.
#[derive(Clone, Copy, PartialEq, Eq, Structural, Debug, Hash)]
pub enum LearnableTargetKind {
    TrackVolume,
    TrackPan,
    RouteVolume,
    RoutePan,
    TrackArmState,
    TrackMuteState,
    TrackSoloState,
    TrackSelectionState,
    FxOnOffState,
    FxParameterValue,
    BrowseFxPresets,
    PlayRate,
    Tempo,
    TrackAutomationMode,
    TrackMonitoringMode,
    AutomationModeOverride,
    ReaperAction,
    TransportAction,
}

/// Which target invocations to observe, by causality.
#[derive(Clone, Copy, PartialEq, Eq, Structural, Debug, Hash)]
pub enum TargetTouchCause {
    Any,
    Realearn,
    Reaper,
}

impl Default for TargetTouchCause {
    fn default() -> (r: Self)
        ensures
            r is Any,
    {
        TargetTouchCause::Any
    }
}

/// The unit in which a target's values are expressed.
#[derive(Clone, Copy, PartialEq, Eq, Structural, Debug, Hash)]
pub enum TargetUnit {
    Native,
    Percent,
}

impl Default for TargetUnit {
    fn default() -> (r: Self)
        ensures
            r is Native,
    {
        TargetUnit::Native
    }
}

/// What a track-tool target does on invocation.
#[derive(Clone, Copy, PartialEq, Eq, Structural, Debug, Hash)]
pub enum TrackToolAction {
    DoNothing,
    SetAsInstanceTrack,
    PinAsInstanceTrack,
}

impl Default for TrackToolAction {
    fn default() -> (r: Self)
        ensures
            r is DoNothing,
    {
        TrackToolAction::DoNothing
    }
}

/// A screen axis.
#[derive(Clone, Copy, PartialEq, Eq, Structural, Debug, Hash)]
pub enum Axis {
    X,
    Y,
}

impl Default for Axis {
    fn default() -> (r: Self)
        ensures
            r is Y,
    {
        Axis::Y
    }
}

/// A mouse button.
#[derive(Clone, Copy, PartialEq, Eq, Structural, Debug, Hash)]
pub enum MouseButton {
    Left,
    Middle,
    Right,
}

impl Default for MouseButton {
    fn default() -> (r: Self)
        ensures
            r is Left,
    {
        MouseButton::Left
    }
}

/// What an FX-tool target does on invocation.
#[derive(Clone, Copy, PartialEq, Eq, Structural, Debug, Hash)]
pub enum FxToolAction {
    DoNothing,
    SetAsInstanceFx,
    PinAsInstanceFx,
}

impl Default for FxToolAction {
    fn default() -> (r: Self)
        ensures
            r is DoNothing,
    {
        FxToolAction::DoNothing
    }
}

/// The kind of a mapping modification.
#[derive(Clone, Copy, PartialEq, Eq, Structural, Debug, Hash)]
pub enum MappingModificationKind {
    LearnTarget,
    SetTargetToLastTouched,
}

impl Default for MappingModificationKind {
    fn default() -> (r: Self)
        ensures
            r is LearnTarget,
    {
        MappingModificationKind::LearnTarget
    }
}

/// An automation mode of a track.
#[derive(Clone, Copy, PartialEq, Eq, Structural, Debug, Hash)]
pub enum AutomationMode {
    TrimRead,
    Read,
    Touch,
    Write,
    Latch,
    LatchPreview,
}

/// An input monitoring mode of a track.
#[derive(Clone, Copy, PartialEq, Eq, Structural, Debug, Hash)]
pub enum MonitoringMode {
    Off,
    Normal,
    TapeStyle,
}

impl Default for MonitoringMode {
    fn default() -> (r: Self)
        ensures
            r is Off,
    {
        MonitoringMode::Off
    }
}

/// A transport action of the host.
#[derive(Clone, Copy, PartialEq, Eq, Structural, Debug, Hash)]
pub enum TransportAction {
    PlayStop,
    PlayPause,
    Stop,
    Pause,
    Record,
    Repeat,
}

/// A transport action on a clip slot.
#[derive(Clone, Copy, PartialEq, Eq, Structural, Debug, Hash)]
pub enum ClipTransportAction {
    PlayStop,
    PlayPause,
    Stop,
    Pause,
    RecordStop,
    RecordPlayStop,
    Looped,
}

impl Default for ClipTransportAction {
    fn default() -> (r: Self)
        ensures
            r is PlayStop,
    {
        ClipTransportAction::PlayStop
    }
}

/// An action on a clip column.
#[derive(Clone, Copy, PartialEq, Eq, Structural, Debug, Hash)]
pub enum ClipColumnAction {
    Stop,
}

impl Default for ClipColumnAction {
    fn default() -> (r: Self)
        ensures
            r is Stop,
    {
        ClipColumnAction::Stop
    }
}

/// An action on a clip row.
#[derive(Clone, Copy, PartialEq, Eq, Structural, Debug, Hash)]
pub enum ClipRowAction {
    PlayScene,
    BuildScene,
    ClearScene,
    CopyOrPasteScene,
}

impl Default for ClipRowAction {
    fn default() -> (r: Self)
        ensures
            r is PlayScene,
    {
        ClipRowAction::PlayScene
    }
}

/// An action on the clip matrix.
#[derive(Clone, Copy, PartialEq, Eq, Structural, Debug, Hash)]
pub enum ClipMatrixAction {
    Stop,
    Undo,
    Redo,
    BuildScene,
    SetRecordDurationToOpenEnd,
    SetRecordDurationToOneBar,
    SetRecordDurationToTwoBars,
    SetRecordDurationToFourBars,
    SetRecordDurationToEightBars,
}

impl Default for ClipMatrixAction {
    fn default() -> (r: Self)
        ensures
            r is Stop,
    {
        ClipMatrixAction::Stop
    }
}

/// The track property an any-on target watches.
#[derive(Clone, Copy, PartialEq, Eq, Structural, Debug, Hash)]
pub enum AnyOnParameter {
    TrackSolo,
    TrackMute,
    TrackArm,
    TrackSelection,
}

/// How an action target invokes its action.
#[derive(Clone, Copy, PartialEq, Eq, Structural, Debug, Hash)]
pub enum ActionInvocationKind {
    Trigger,
    Absolute14Bit,
    Absolute7Bit,
    Relative,
}

impl Default for ActionInvocationKind {
    fn default() -> (r: Self)
        ensures
            r is Absolute14Bit,
    {
        ActionInvocationKind::Absolute14Bit
    }
}

/// How often feedback for a position is refreshed.
#[derive(Clone, Copy, PartialEq, Eq, Structural, Debug, Hash)]
pub enum FeedbackResolution {
    Beat,
    High,
}

impl Default for FeedbackResolution {
    fn default() -> (r: Self)
        ensures
            r is Beat,
    {
        FeedbackResolution::Beat
    }
}

/// How a track state change spreads exclusively.
#[derive(Clone, Copy, PartialEq, Eq, Structural, Debug, Hash)]
pub enum TrackExclusivity {
    WithinProject,
    WithinFolder,
    WithinProjectOnOnly,
    WithinFolderOnOnly,
}

/// Exclusivity of an enable-instances target.
#[derive(Clone, Copy, PartialEq, Eq, Structural, Debug, Hash)]
pub enum InstanceExclusivity {
    Exclusive,
    ExclusiveOnOnly,
}

/// Exclusivity of an enable-mappings target.
#[derive(Clone, Copy, PartialEq, Eq, Structural, Debug, Hash)]
pub enum MappingExclusivity {
    Exclusive,
    ExclusiveOnOnly,
}

/// Exclusivity of browsing group mappings.
#[derive(Clone, Copy, PartialEq, Eq, Structural, Debug, Hash)]
pub enum GroupMappingExclusivity {
    Exclusive,
}

/// The track parameter whose touch state is driven.
#[derive(Clone, Copy, PartialEq, Eq, Structural, Debug, Hash)]
pub enum TouchedTrackParameter {
    Volume,
    Pan,
    Width,
}

/// The route parameter whose touch state is driven.
#[derive(Clone, Copy, PartialEq, Eq, Structural, Debug, Hash)]
pub enum TouchedRouteParameter {
    Volume,
    Pan,
}

/// An area of the host window that shows tracks.
#[derive(Clone, Copy, PartialEq, Eq, Structural, Debug, Hash)]
pub enum TrackArea {
    Tcp,
    Mcp,
}

/// How soloing behaves.
#[derive(Clone, Copy, PartialEq, Eq, Structural, Debug, Hash)]
pub enum SoloBehavior {
    InPlace,
    IgnoreRouting,
    ReaperPreference,
}

impl Default for SoloBehavior {
    fn default() -> (r: Self)
        ensures
            r is InPlace,
    {
        SoloBehavior::InPlace
    }
}

/// How a seek moves the play cursor.
#[derive(Clone, Copy, PartialEq, Eq, Structural, Debug, Hash)]
pub enum SeekBehavior {
    Immediate,
    Smooth,
    ReaperPreference,
}

impl Default for SeekBehavior {
    fn default() -> (r: Self)
        ensures
            r is Immediate,
    {
        SeekBehavior::Immediate
    }
}

/// How an FX is shown when made visible.
#[derive(Clone, Copy, PartialEq, Eq, Structural, Debug, Hash)]
pub enum FxDisplayKind {
    FloatingWindow,
    Chain,
}

impl Default for FxDisplayKind {
    fn default() -> (r: Self)
        ensures
            r is FloatingWindow,
    {
        FxDisplayKind::FloatingWindow
    }
}

/// The kind of a track route.
#[derive(Clone, Copy, PartialEq, Eq, Structural, Debug, Hash)]
pub enum TrackRouteKind {
    Send,
    Receive,
    HardwareOutput,
}

impl Default for TrackRouteKind {
    fn default() -> (r: Self)
        ensures
            r is Send,
    {
        TrackRouteKind::Send
    }
}

/// Which tracks a browse or index refers to.
#[derive(Clone, Copy, PartialEq, Eq, Structural, Debug, Hash)]
pub enum TrackScope {
    AllTracks,
    TracksVisibleInTcp,
    TracksVisibleInMcp,
}

impl Default for TrackScope {
    fn default() -> (r: Self)
        ensures
            r is AllTracks,
    {
        TrackScope::AllTracks
    }
}

/// Which track of a clip column a descriptor means.
#[derive(Clone, Copy, PartialEq, Eq, Structural, Debug, Hash)]
pub enum ClipColumnTrackContext {
    Playback,
    Recording,
}

impl Default for ClipColumnTrackContext {
    fn default() -> (r: Self)
        ensures
            r is Playback,
    {
        ClipColumnTrackContext::Playback
    }
}

/// The character of a virtual control element.
#[derive(Clone, Copy, PartialEq, Eq, Structural, Debug, Hash)]
pub enum VirtualControlElementCharacter {
    Multi,
    Button,
}

impl Default for VirtualControlElementCharacter {
    fn default() -> (r: Self)
        ensures
            r is Multi,
    {
        VirtualControlElementCharacter::Multi
    }
}

/// When clip playback starts after the command.
#[derive(Clone, Copy, PartialEq, Eq, Structural, Debug, Hash)]
pub enum ClipPlayStartTiming {
    Immediately,
    NextBar,
}

impl Default for ClipPlayStartTiming {
    fn default() -> (r: Self)
        ensures
            r is Immediately,
    {
        ClipPlayStartTiming::Immediately
    }
}

/// When clip playback stops after the command.
#[derive(Clone, Copy, PartialEq, Eq, Structural, Debug, Hash)]
pub enum ClipPlayStopTiming {
    Immediately,
    NextBar,
}

impl Default for ClipPlayStopTiming {
    fn default() -> (r: Self)
        ensures
            r is Immediately,
    {
        ClipPlayStopTiming::Immediately
    }
}

/// Identifier of a virtual control element: an index or a name.
#[derive(Clone, PartialEq, Eq, Debug)]
pub enum VirtualControlElementId {
    Indexed(u32),
    Named(String),
}

impl Default for VirtualControlElementId {
    fn default() -> (r: Self)
        ensures
            r == VirtualControlElementId::Indexed(0),
    {
        VirtualControlElementId::Indexed(0)
    }
}


/// A typed argument sent with an OSC feedback message.
#[derive(Clone, PartialEq, Eq, Debug)]
pub enum OscArgument {
    Int(i32),
    Str(String),
    Bool(bool),
}

impl Default for OscArgument {
    fn default() -> (r: Self)
        ensures
            r == OscArgument::Int(0),
    {
        OscArgument::Int(0)
    }
}


/// A target value in persistent form: a unit fraction numerator or a discrete value.
#[derive(Clone, PartialEq, Eq, Debug)]
pub enum TargetValue {
    Unit { numerator: u32 },
    Discrete { value: u32 },
}

impl Default for TargetValue {
    fn default() -> (r: Self)
        ensures
            r == (TargetValue::Unit { numerator: 0 }),
    {
        (TargetValue::Unit { numerator: 0 })
    }
}


/// What a mouse target does: move on an axis, press or release a button, or scroll.
#[derive(Clone, PartialEq, Eq, Debug)]
pub enum MouseAction {
    MoveTo { axis: Option<Axis> },
    MoveBy { axis: Option<Axis> },
    PressOrRelease { button: Option<MouseButton> },
    Scroll { axis: Option<Axis> },
}

impl Default for MouseAction {
    fn default() -> (r: Self)
        ensures
            r == (MouseAction::MoveTo { axis: None }),
    {
        (MouseAction::MoveTo { axis: None })
    }
}


/// Properties shared by all targets.
#[derive(Clone, PartialEq, Eq, Debug)]
pub struct TargetCommons {
    pub unit: Option<TargetUnit>,
}

impl Default for TargetCommons {
    fn default() -> (r: Self)
        ensures
            r == (TargetCommons { unit: None }),
    {
        (TargetCommons { unit: None })
    }
}


/// Properties shared by all track descriptors.
#[derive(Clone, PartialEq, Eq, Debug)]
pub struct TrackDescriptorCommons {
    pub track_must_be_selected: Option<bool>,
}

impl Default for TrackDescriptorCommons {
    fn default() -> (r: Self)
        ensures
            r == (TrackDescriptorCommons { track_must_be_selected: None }),
    {
        (TrackDescriptorCommons { track_must_be_selected: None })
    }
}


/// Properties shared by all FX descriptors.
#[derive(Clone, PartialEq, Eq, Debug)]
pub struct FxDescriptorCommons {
    pub fx_must_have_focus: Option<bool>,
}

impl Default for FxDescriptorCommons {
    fn default() -> (r: Self)
        ensures
            r == (FxDescriptorCommons { fx_must_have_focus: None }),
    {
        (FxDescriptorCommons { fx_must_have_focus: None })
    }
}


/// How a clip column is addressed.
#[derive(Clone, PartialEq, Eq, Debug)]
pub enum ClipColumnDescriptor {
    Selected,
    ByIndex { index: usize },
    Dynamic { expression: String },
}

impl Default for ClipColumnDescriptor {
    fn default() -> (r: Self)
        ensures
            r == ClipColumnDescriptor::Selected,
    {
        ClipColumnDescriptor::Selected
    }
}


/// How a clip row is addressed.
#[derive(Clone, PartialEq, Eq, Debug)]
pub enum ClipRowDescriptor {
    Selected,
    ByIndex { index: usize },
    Dynamic { expression: String },
}

impl Default for ClipRowDescriptor {
    fn default() -> (r: Self)
        ensures
            r == ClipRowDescriptor::Selected,
    {
        ClipRowDescriptor::Selected
    }
}


/// How a clip slot is addressed.
#[derive(Clone, PartialEq, Eq, Debug)]
pub enum ClipSlotDescriptor {
    Selected,
    ByIndex { column_index: usize, row_index: usize },
    Dynamic { column_expression: String, row_expression: String },
}

impl Default for ClipSlotDescriptor {
    fn default() -> (r: Self)
        ensures
            r == ClipSlotDescriptor::Selected,
    {
        ClipSlotDescriptor::Selected
    }
}


/// How a track is addressed; resolution happens lazily against the project.
#[derive(Clone, PartialEq, Eq, Debug)]
pub enum TrackDescriptor {
    This { commons: TrackDescriptorCommons },
    Master { commons: TrackDescriptorCommons },
    Instance { commons: TrackDescriptorCommons },
    Selected { allow_multiple: Option<bool> },
    Dynamic { commons: TrackDescriptorCommons, expression: String, scope: Option<TrackScope> },
    ById { commons: TrackDescriptorCommons, id: Option<String> },
    ByIndex { commons: TrackDescriptorCommons, index: u32, scope: Option<TrackScope> },
    ByName { commons: TrackDescriptorCommons, name: String, allow_multiple: Option<bool> },
    FromClipColumn {
        commons: TrackDescriptorCommons,
        column: ClipColumnDescriptor,
        context: ClipColumnTrackContext,
    },
}

impl Default for TrackDescriptor {
    fn default() -> (r: Self)
        ensures
            r == (TrackDescriptor::This { commons: TrackDescriptorCommons { track_must_be_selected: None } }),
    {
        (TrackDescriptor::This { commons: TrackDescriptorCommons { track_must_be_selected: None } })
    }
}


/// Which FX chain of a track is meant.
#[derive(Clone, PartialEq, Eq, Debug)]
pub enum TrackFxChain {
    Normal,
    Input,
}

impl Default for TrackFxChain {
    fn default() -> (r: Self)
        ensures
            r == TrackFxChain::Normal,
    {
        TrackFxChain::Normal
    }
}

impl TrackFxChain {
    /// Whether this is the input FX chain.
    pub fn is_input_fx(&self) -> (r: bool)
        ensures
            r == (*self is Input),
    {
        match self {
            TrackFxChain::Input => true,
            TrackFxChain::Normal => false,
        }
    }
}


/// How an FX chain is addressed.
#[derive(Clone, PartialEq, Eq, Debug)]
pub enum FxChainDescriptor {
    Track { track: Option<TrackDescriptor>, chain: Option<TrackFxChain> },
}


/// How an FX is addressed; resolution happens lazily.
#[derive(Clone, PartialEq, Eq, Debug)]
pub enum FxDescriptor {
    This { commons: FxDescriptorCommons },
    Focused,
    Instance { commons: FxDescriptorCommons },
    Dynamic { commons: FxDescriptorCommons, chain: FxChainDescriptor, expression: String },
    ById { commons: FxDescriptorCommons, chain: FxChainDescriptor, id: Option<String> },
    ByIndex { commons: FxDescriptorCommons, chain: FxChainDescriptor, index: u32 },
    ByName {
        commons: FxDescriptorCommons,
        chain: FxChainDescriptor,
        name: String,
        allow_multiple: Option<bool>,
    },
}

impl Default for FxDescriptor {
    fn default() -> (r: Self)
        ensures
            r == (FxDescriptor::This { commons: FxDescriptorCommons { fx_must_have_focus: None } }),
    {
        (FxDescriptor::This { commons: FxDescriptorCommons { fx_must_have_focus: None } })
    }
}


/// How an FX parameter is addressed.
#[derive(Clone, PartialEq, Eq, Debug)]
pub enum FxParameterDescriptor {
    Dynamic { fx: Option<FxDescriptor>, expression: String },
    ById { fx: Option<FxDescriptor>, index: u32 },
    ByIndex { fx: Option<FxDescriptor>, index: u32 },
    ByName { fx: Option<FxDescriptor>, name: String },
}


/// Properties shared by all route descriptors.
#[derive(Clone, PartialEq, Eq, Debug)]
pub struct RouteDescriptorCommons {
    pub track: Option<TrackDescriptor>,
    pub route_kind: Option<TrackRouteKind>,
}

impl Default for RouteDescriptorCommons {
    fn default() -> (r: Self)
        ensures
            r == (RouteDescriptorCommons { track: None, route_kind: None }),
    {
        (RouteDescriptorCommons { track: None, route_kind: None })
    }
}


/// How a track route is addressed.
#[derive(Clone, PartialEq, Eq, Debug)]
pub enum RouteDescriptor {
    Dynamic { commons: RouteDescriptorCommons, expression: String },
    ById { commons: RouteDescriptorCommons, id: Option<String> },
    ByIndex { commons: RouteDescriptorCommons, index: u32 },
    ByName { commons: RouteDescriptorCommons, name: String },
}


/// A bookmark, by id or by index.
#[derive(Clone, PartialEq, Eq, Debug)]
pub enum BookmarkRef {
    ById { id: u32 },
    ByIndex { index: u32 },
}


/// A marker or region bookmark.
#[derive(Clone, PartialEq, Eq, Debug)]
pub enum BookmarkDescriptor {
    Marker(BookmarkRef),
    Region(BookmarkRef),
}


/// A global automation mode override: bypass all, or one fixed mode.
#[derive(Clone, PartialEq, Eq, Debug)]
pub enum AutomationModeOverride {
    Bypass,
    Mode { mode: AutomationMode },
}


/// A host command, by numeric id or by name.
#[derive(Clone, PartialEq, Eq, Debug)]
pub enum ReaperCommand {
    Id(u32),
    Name(String),
}


/// The content of an FX snapshot.
#[derive(Clone, PartialEq, Eq, Debug)]
pub enum FxSnapshotContent {
    Chunk { chunk: String },
}


/// A stored FX state snapshot.
#[derive(Clone, PartialEq, Eq, Debug)]
pub struct FxSnapshot {
    pub fx_kind: Option<String>,
    pub fx_name: Option<String>,
    pub preset_name: Option<String>,
    pub content: FxSnapshotContent,
}


/// Where MIDI feedback messages are sent.
#[derive(Clone, PartialEq, Eq, Debug)]
pub enum MidiDestination {
    FxOutput,
    FeedbackOutput,
}

impl Default for MidiDestination {
    fn default() -> (r: Self)
        ensures
            r == MidiDestination::FeedbackOutput,
    {
        MidiDestination::FeedbackOutput
    }
}


/// Where OSC feedback messages are sent.
#[derive(Clone, PartialEq, Eq, Debug)]
pub enum OscDestination {
    FeedbackOutput,
    Device { id: String },
}

impl Default for OscDestination {
    fn default() -> (r: Self)
        ensures
            r == OscDestination::FeedbackOutput,
    {
        OscDestination::FeedbackOutput
    }
}


/// Which tracks a browse-tracks target cycles through.
#[derive(Clone, PartialEq, Eq, Debug)]
pub enum BrowseTracksMode {
    AllTracks,
    TracksVisibleInTcp,
    TracksVisibleInTcpAllowTwoSelections,
    TracksVisibleInMcp,
    TracksVisibleInMcpAllowTwoSelections,
}

impl Default for BrowseTracksMode {
    fn default() -> (r: Self)
        ensures
            r == BrowseTracksMode::AllTracks,
    {
        BrowseTracksMode::AllTracks
    }
}

impl BrowseTracksMode {
    /// The track scope this mode browses within.
    pub fn scope(&self) -> (r: TrackScope)
        ensures
            (*self is AllTracks) ==> r is AllTracks,
            (*self is TracksVisibleInTcp || *self is TracksVisibleInTcpAllowTwoSelections)
                ==> r is TracksVisibleInTcp,
            (*self is TracksVisibleInMcp || *self is TracksVisibleInMcpAllowTwoSelections)
                ==> r is TracksVisibleInMcp,
    {
        match self {
            BrowseTracksMode::AllTracks => TrackScope::AllTracks,
            BrowseTracksMode::TracksVisibleInTcp
            | BrowseTracksMode::TracksVisibleInTcpAllowTwoSelections => {
                TrackScope::TracksVisibleInTcp
            },
            BrowseTracksMode::TracksVisibleInMcp
            | BrowseTracksMode::TracksVisibleInMcpAllowTwoSelections => {
                TrackScope::TracksVisibleInMcp
            },
        }
    }
}


/// A modification that makes a mapping learn its target.
#[derive(Clone, PartialEq, Eq, Debug)]
pub struct LearnTargetMappingModification {
    pub included_targets: Option<Vec<LearnableTargetKind>>,
    pub touch_cause: Option<TargetTouchCause>,
}

impl Default for LearnTargetMappingModification {
    fn default() -> (r: Self)
        ensures
            r == (LearnTargetMappingModification { included_targets: None, touch_cause: None }),
    {
        (LearnTargetMappingModification { included_targets: None, touch_cause: None })
    }
}


/// A modification that points a mapping at the last touched target.
#[derive(Clone, PartialEq, Eq, Debug)]
pub struct SetTargetToLastTouchedMappingModification {
    pub included_targets: Option<Vec<LearnableTargetKind>>,
    pub touch_cause: Option<TargetTouchCause>,
}

impl Default for SetTargetToLastTouchedMappingModification {
    fn default() -> (r: Self)
        ensures
            r == (SetTargetToLastTouchedMappingModification { included_targets: None, touch_cause: None }),
    {
        (SetTargetToLastTouchedMappingModification { included_targets: None, touch_cause: None })
    }
}


/// A modification applied to another mapping.
#[derive(Clone, PartialEq, Eq, Debug)]
pub enum MappingModification {
    LearnTarget(LearnTargetMappingModification),
    SetTargetToLastTouched(SetTargetToLastTouchedMappingModification),
}

impl MappingModification {
    /// The kind tag of this modification.
    pub fn kind(&self) -> (r: MappingModificationKind)
        ensures
            (*self is LearnTarget) == (r is LearnTarget),
            (*self is SetTargetToLastTouched) == (r is SetTargetToLastTouched),
    {
        match self {
            MappingModification::LearnTarget(_) => MappingModificationKind::LearnTarget,
            MappingModification::SetTargetToLastTouched(_) => {
                MappingModificationKind::SetTargetToLastTouched
            },
        }
    }
}


/// Which snapshot a load-snapshot target loads.
#[derive(Clone, PartialEq, Eq, Debug)]
pub enum MappingSnapshotDescForLoad {
    Initial,
    ById { id: String },
}

impl Default for MappingSnapshotDescForLoad {
    fn default() -> (r: Self)
        ensures
            r == MappingSnapshotDescForLoad::Initial,
    {
        MappingSnapshotDescForLoad::Initial
    }
}

impl MappingSnapshotDescForLoad {
    /// The id, when the snapshot is addressed by id.
    pub fn id(&self) -> (r: Option<&str>)
        ensures
            (match *self {
                MappingSnapshotDescForLoad::Initial => r is None,
                MappingSnapshotDescForLoad::ById { id } => r matches Some(s) && s@ == id@,
            }),
    {
        match self {
            MappingSnapshotDescForLoad::Initial => None,
            MappingSnapshotDescForLoad::ById { id } => Some(id.as_str()),
        }
    }
}


/// Which snapshot a take-snapshot target writes.
#[derive(Clone, PartialEq, Eq, Debug)]
pub enum MappingSnapshotDescForTake {
    LastLoaded,
    ById { id: String },
}

impl Default for MappingSnapshotDescForTake {
    fn default() -> (r: Self)
        ensures
            r == MappingSnapshotDescForTake::LastLoaded,
    {
        MappingSnapshotDescForTake::LastLoaded
    }
}

impl MappingSnapshotDescForTake {
    /// The id, when the snapshot is addressed by id.
    pub fn id(&self) -> (r: Option<&str>)
        ensures
            (match *self {
                MappingSnapshotDescForTake::LastLoaded => r is None,
                MappingSnapshotDescForTake::ById { id } => r matches Some(s) && s@ == id@,
            }),
    {
        match self {
            MappingSnapshotDescForTake::LastLoaded => None,
            MappingSnapshotDescForTake::ById { id } => Some(id.as_str()),
        }
    }
}


/// The take-snapshot description, accepting the old plain-string form on read.
#[derive(Clone, PartialEq, Eq, Debug)]
pub enum BackwardCompatibleMappingSnapshotDescForTake {
    Old(String),
    New(MappingSnapshotDescForTake),
}

impl Default for BackwardCompatibleMappingSnapshotDescForTake {
    fn default() -> (r: Self)
        ensures
            r == BackwardCompatibleMappingSnapshotDescForTake::New(MappingSnapshotDescForTake::LastLoaded),
    {
        BackwardCompatibleMappingSnapshotDescForTake::New(MappingSnapshotDescForTake::LastLoaded)
    }
}


/// Adjusts the clip section length by a per-mille factor.
#[derive(Clone, PartialEq, Eq, Debug)]
pub struct AdjustClipSectionLengthAction {
    pub factor_per_mille: u32,
}


/// A management action on a clip slot.
#[derive(Clone, PartialEq, Eq, Debug)]
pub enum ClipManagementAction {
    ClearSlot,
    FillSlotWithSelectedItem,
    EditClip,
    CopyOrPasteClip,
    AdjustClipSectionLength(AdjustClipSectionLengthAction),
}

impl Default for ClipManagementAction {
    fn default() -> (r: Self)
        ensures
            r == ClipManagementAction::ClearSlot,
    {
        ClipManagementAction::ClearSlot
    }
}


/// A virtual target: a control element of the virtual surface.
#[derive(Clone, PartialEq, Eq, Debug)]
pub struct VirtualTarget {
    pub id: VirtualControlElementId,
    pub character: Option<VirtualControlElementCharacter>,
}

/// Drives the mouse pointer or buttons.
#[derive(Clone, PartialEq, Eq, Debug)]
pub struct MouseTarget {
    pub commons: TargetCommons,
    pub action: MouseAction,
}

/// Follows whatever target was last touched.
#[derive(Clone, PartialEq, Eq, Debug)]
pub struct LastTouchedTarget {
    pub commons: TargetCommons,
    pub included_targets: Option<Vec<LearnableTargetKind>>,
    pub touch_cause: Option<TargetTouchCause>,
}

impl Default for LastTouchedTarget {
    fn default() -> (r: Self)
        ensures
            r == (LastTouchedTarget { commons: TargetCommons { unit: None }, included_targets: None, touch_cause: None }),
    {
        LastTouchedTarget { commons: TargetCommons { unit: None }, included_targets: None, touch_cause: None }
    }
}

/// Sets or clears the global automation mode override.
#[derive(Clone, PartialEq, Eq, Debug)]
pub struct AutomationModeOverrideTarget {
    pub commons: TargetCommons,
    pub override_value: Option<AutomationModeOverride>,
}

impl Default for AutomationModeOverrideTarget {
    fn default() -> (r: Self)
        ensures
            r == (AutomationModeOverrideTarget { commons: TargetCommons { unit: None }, override_value: None }),
    {
        AutomationModeOverrideTarget { commons: TargetCommons { unit: None }, override_value: None }
    }
}

/// Invokes a host action.
#[derive(Clone, PartialEq, Eq, Debug)]
pub struct ReaperActionTarget {
    pub commons: TargetCommons,
    pub command: Option<ReaperCommand>,
    pub invocation: Option<ActionInvocationKind>,
    pub track: Option<TrackDescriptor>,
}

impl Default for ReaperActionTarget {
    fn default() -> (r: Self)
        ensures
            r == (ReaperActionTarget { commons: TargetCommons { unit: None }, command: None, invocation: None, track: None }),
    {
        ReaperActionTarget { commons: TargetCommons { unit: None }, command: None, invocation: None, track: None }
    }
}

/// Invokes a transport action.
#[derive(Clone, PartialEq, Eq, Debug)]
pub struct TransportActionTarget {
    pub commons: TargetCommons,
    pub action: TransportAction,
}

/// Reports whether any track has a property on.
#[derive(Clone, PartialEq, Eq, Debug)]
pub struct AnyOnTarget {
    pub commons: TargetCommons,
    pub parameter: AnyOnParameter,
}

/// Cycles through tracks.
#[derive(Clone, PartialEq, Eq, Debug)]
pub struct BrowseTracksTarget {
    pub commons: TargetCommons,
    pub scroll_arrange_view: Option<bool>,
    pub scroll_mixer: Option<bool>,
    pub mode: Option<BrowseTracksMode>,
}

impl Default for BrowseTracksTarget {
    fn default() -> (r: Self)
        ensures
            r == (BrowseTracksTarget { commons: TargetCommons { unit: None }, scroll_arrange_view: None, scroll_mixer: None, mode: None }),
    {
        BrowseTracksTarget { commons: TargetCommons { unit: None }, scroll_arrange_view: None, scroll_mixer: None, mode: None }
    }
}

/// Seeks within the project.
#[derive(Clone, PartialEq, Eq, Debug)]
pub struct SeekTarget {
    pub commons: TargetCommons,
    pub use_time_selection: Option<bool>,
    pub use_loop_points: Option<bool>,
    pub use_regions: Option<bool>,
    pub use_project: Option<bool>,
    pub move_view: Option<bool>,
    pub seek_play: Option<bool>,
    pub feedback_resolution: Option<FeedbackResolution>,
    pub behavior: Option<SeekBehavior>,
}

impl Default for SeekTarget {
    fn default() -> (r: Self)
        ensures
            r == (SeekTarget { commons: TargetCommons { unit: None }, use_time_selection: None, use_loop_points: None, use_regions: None, use_project: None, move_view: None, seek_play: None, feedback_resolution: None, behavior: None }),
    {
        SeekTarget { commons: TargetCommons { unit: None }, use_time_selection: None, use_loop_points: None, use_regions: None, use_project: None, move_view: None, seek_play: None, feedback_resolution: None, behavior: None }
    }
}

/// Drives the play rate.
#[derive(Clone, PartialEq, Eq, Debug)]
pub struct PlayRateTarget {
    pub commons: TargetCommons,
}

impl Default for PlayRateTarget {
    fn default() -> (r: Self)
        ensures
            r == (PlayRateTarget { commons: TargetCommons { unit: None } }),
    {
        PlayRateTarget { commons: TargetCommons { unit: None } }
    }
}

/// Drives the project tempo.
#[derive(Clone, PartialEq, Eq, Debug)]
pub struct TempoTarget {
    pub commons: TargetCommons,
}

impl Default for TempoTarget {
    fn default() -> (r: Self)
        ensures
            r == (TempoTarget { commons: TargetCommons { unit: None } }),
    {
        TempoTarget { commons: TargetCommons { unit: None } }
    }
}

/// Jumps to a bookmark.
#[derive(Clone, PartialEq, Eq, Debug)]
pub struct GoToBookmarkTarget {
    pub commons: TargetCommons,
    pub bookmark: BookmarkDescriptor,
    pub set_time_selection: Option<bool>,
    pub set_loop_points: Option<bool>,
    pub seek_behavior: Option<SeekBehavior>,
}

/// Drives a track's record-arm state.
#[derive(Clone, PartialEq, Eq, Debug)]
pub struct TrackArmStateTarget {
    pub commons: TargetCommons,
    pub track: Option<TrackDescriptor>,
    pub exclusivity: Option<TrackExclusivity>,
    pub use_track_grouping: Option<bool>,
    pub use_selection_ganging: Option<bool>,
}

impl Default for TrackArmStateTarget {
    fn default() -> (r: Self)
        ensures
            r == (TrackArmStateTarget { commons: TargetCommons { unit: None }, track: None, exclusivity: None, use_track_grouping: None, use_selection_ganging: None }),
    {
        TrackArmStateTarget { commons: TargetCommons { unit: None }, track: None, exclusivity: None, use_track_grouping: None, use_selection_ganging: None }
    }
}

/// Drives a track's parent-send state.
#[derive(Clone, PartialEq, Eq, Debug)]
pub struct TrackParentSendStateTarget {
    pub commons: TargetCommons,
    pub track: Option<TrackDescriptor>,
    pub exclusivity: Option<TrackExclusivity>,
}

impl Default for TrackParentSendStateTarget {
    fn default() -> (r: Self)
        ensures
            r == (TrackParentSendStateTarget { commons: TargetCommons { unit: None }, track: None, exclusivity: None }),
    {
        TrackParentSendStateTarget { commons: TargetCommons { unit: None }, track: None, exclusivity: None }
    }
}

/// Drives the on/off state of all FX of a track.
#[derive(Clone, PartialEq, Eq, Debug)]
pub struct AllTrackFxOnOffStateTarget {
    pub commons: TargetCommons,
    pub track: Option<TrackDescriptor>,
    pub exclusivity: Option<TrackExclusivity>,
    pub poll_for_feedback: Option<bool>,
}

impl Default for AllTrackFxOnOffStateTarget {
    fn default() -> (r: Self)
        ensures
            r == (AllTrackFxOnOffStateTarget { commons: TargetCommons { unit: None }, track: None, exclusivity: None, poll_for_feedback: None }),
    {
        AllTrackFxOnOffStateTarget { commons: TargetCommons { unit: None }, track: None, exclusivity: None, poll_for_feedback: None }
    }
}

/// Drives a track's mute state.
#[derive(Clone, PartialEq, Eq, Debug)]
pub struct TrackMuteStateTarget {
    pub commons: TargetCommons,
    pub track: Option<TrackDescriptor>,
    pub exclusivity: Option<TrackExclusivity>,
    pub use_track_grouping: Option<bool>,
    pub use_selection_ganging: Option<bool>,
}

impl Default for TrackMuteStateTarget {
    fn default() -> (r: Self)
        ensures
            r == (TrackMuteStateTarget { commons: TargetCommons { unit: None }, track: None, exclusivity: None, use_track_grouping: None, use_selection_ganging: None }),
    {
        TrackMuteStateTarget { commons: TargetCommons { unit: None }, track: None, exclusivity: None, use_track_grouping: None, use_selection_ganging: None }
    }
}

/// Reports a track's peak level.
#[derive(Clone, PartialEq, Eq, Debug)]
pub struct TrackPeakTarget {
    pub commons: TargetCommons,
    pub track: Option<TrackDescriptor>,
}

impl Default for TrackPeakTarget {
    fn default() -> (r: Self)
        ensures
            r == (TrackPeakTarget { commons: TargetCommons { unit: None }, track: None }),
    {
        TrackPeakTarget { commons: TargetCommons { unit: None }, track: None }
    }
}

/// Drives a track's phase inversion.
#[derive(Clone, PartialEq, Eq, Debug)]
pub struct TrackPhaseTarget {
    pub commons: TargetCommons,
    pub track: Option<TrackDescriptor>,
    pub exclusivity: Option<TrackExclusivity>,
    pub poll_for_feedback: Option<bool>,
    pub use_track_grouping: Option<bool>,
    pub use_selection_ganging: Option<bool>,
}

impl Default for TrackPhaseTarget {
    fn default() -> (r: Self)
        ensures
            r == (TrackPhaseTarget { commons: TargetCommons { unit: None }, track: None, exclusivity: None, poll_for_feedback: None, use_track_grouping: None, use_selection_ganging: None }),
    {
        TrackPhaseTarget { commons: TargetCommons { unit: None }, track: None, exclusivity: None, poll_for_feedback: None, use_track_grouping: None, use_selection_ganging: None }
    }
}

/// Drives a track's selection state.
#[derive(Clone, PartialEq, Eq, Debug)]
pub struct TrackSelectionStateTarget {
    pub commons: TargetCommons,
    pub track: Option<TrackDescriptor>,
    pub exclusivity: Option<TrackExclusivity>,
    pub scroll_arrange_view: Option<bool>,
    pub scroll_mixer: Option<bool>,
}

impl Default for TrackSelectionStateTarget {
    fn default() -> (r: Self)
        ensures
            r == (TrackSelectionStateTarget { commons: TargetCommons { unit: None }, track: None, exclusivity: None, scroll_arrange_view: None, scroll_mixer: None }),
    {
        TrackSelectionStateTarget { commons: TargetCommons { unit: None }, track: None, exclusivity: None, scroll_arrange_view: None, scroll_mixer: None }
    }
}

/// Drives a track's automation mode.
#[derive(Clone, PartialEq, Eq, Debug)]
pub struct TrackAutomationModeTarget {
    pub commons: TargetCommons,
    pub track: Option<TrackDescriptor>,
    pub exclusivity: Option<TrackExclusivity>,
    pub mode: AutomationMode,
}

/// Drives a track's input monitoring mode.
#[derive(Clone, PartialEq, Eq, Debug)]
pub struct TrackMonitoringModeTarget {
    pub commons: TargetCommons,
    pub track: Option<TrackDescriptor>,
    pub exclusivity: Option<TrackExclusivity>,
    pub mode: MonitoringMode,
    pub use_selection_ganging: Option<bool>,
}

/// Drives a track parameter's automation touch state.
#[derive(Clone, PartialEq, Eq, Debug)]
pub struct TrackAutomationTouchStateTarget {
    pub commons: TargetCommons,
    pub track: Option<TrackDescriptor>,
    pub exclusivity: Option<TrackExclusivity>,
    pub touched_parameter: TouchedTrackParameter,
}

/// Drives a track's pan.
#[derive(Clone, PartialEq, Eq, Debug)]
pub struct TrackPanTarget {
    pub commons: TargetCommons,
    pub track: Option<TrackDescriptor>,
    pub use_track_grouping: Option<bool>,
    pub use_selection_ganging: Option<bool>,
}

impl Default for TrackPanTarget {
    fn default() -> (r: Self)
        ensures
            r == (TrackPanTarget { commons: TargetCommons { unit: None }, track: None, use_track_grouping: None, use_selection_ganging: None }),
    {
        TrackPanTarget { commons: TargetCommons { unit: None }, track: None, use_track_grouping: None, use_selection_ganging: None }
    }
}

/// Drives a track's stereo width.
#[derive(Clone, PartialEq, Eq, Debug)]
pub struct TrackWidthTarget {
    pub commons: TargetCommons,
    pub track: Option<TrackDescriptor>,
    pub use_track_grouping: Option<bool>,
    pub use_selection_ganging: Option<bool>,
}

impl Default for TrackWidthTarget {
    fn default() -> (r: Self)
        ensures
            r == (TrackWidthTarget { commons: TargetCommons { unit: None }, track: None, use_track_grouping: None, use_selection_ganging: None }),
    {
        TrackWidthTarget { commons: TargetCommons { unit: None }, track: None, use_track_grouping: None, use_selection_ganging: None }
    }
}

/// Drives a track's volume.
#[derive(Clone, PartialEq, Eq, Debug)]
pub struct TrackVolumeTarget {
    pub commons: TargetCommons,
    pub track: Option<TrackDescriptor>,
    pub use_track_grouping: Option<bool>,
    pub use_selection_ganging: Option<bool>,
}

impl Default for TrackVolumeTarget {
    fn default() -> (r: Self)
        ensures
            r == (TrackVolumeTarget { commons: TargetCommons { unit: None }, track: None, use_track_grouping: None, use_selection_ganging: None }),
    {
        TrackVolumeTarget { commons: TargetCommons { unit: None }, track: None, use_track_grouping: None, use_selection_ganging: None }
    }
}

/// Selects or pins a track as the instance track.
#[derive(Clone, PartialEq, Eq, Debug)]
pub struct TrackToolTarget {
    pub commons: TargetCommons,
    pub track: Option<TrackDescriptor>,
    pub action: Option<TrackToolAction>,
    pub instance_tags: Option<Vec<String>>,
}

impl Default for TrackToolTarget {
    fn default() -> (r: Self)
        ensures
            r == (TrackToolTarget { commons: TargetCommons { unit: None }, track: None, action: None, instance_tags: None }),
    {
        TrackToolTarget { commons: TargetCommons { unit: None }, track: None, action: None, instance_tags: None }
    }
}

/// Drives a track's visibility in an area.
#[derive(Clone, PartialEq, Eq, Debug)]
pub struct TrackVisibilityTarget {
    pub commons: TargetCommons,
    pub track: Option<TrackDescriptor>,
    pub exclusivity: Option<TrackExclusivity>,
    pub poll_for_feedback: Option<bool>,
    pub area: TrackArea,
}

/// Drives a track's solo state.
#[derive(Clone, PartialEq, Eq, Debug)]
pub struct TrackSoloStateTarget {
    pub commons: TargetCommons,
    pub track: Option<TrackDescriptor>,
    pub exclusivity: Option<TrackExclusivity>,
    pub behavior: Option<SoloBehavior>,
    pub use_track_grouping: Option<bool>,
    pub use_selection_ganging: Option<bool>,
}

impl Default for TrackSoloStateTarget {
    fn default() -> (r: Self)
        ensures
            r == (TrackSoloStateTarget { commons: TargetCommons { unit: None }, track: None, exclusivity: None, behavior: None, use_track_grouping: None, use_selection_ganging: None }),
    {
        TrackSoloStateTarget { commons: TargetCommons { unit: None }, track: None, exclusivity: None, behavior: None, use_track_grouping: None, use_selection_ganging: None }
    }
}

/// Cycles through the FX of a chain.
#[derive(Clone, PartialEq, Eq, Debug)]
pub struct BrowseFxChainTarget {
    pub commons: TargetCommons,
    pub chain: FxChainDescriptor,
    pub display_kind: Option<FxDisplayKind>,
}

/// Drives an FX's on/off state.
#[derive(Clone, PartialEq, Eq, Debug)]
pub struct FxOnOffStateTarget {
    pub commons: TargetCommons,
    pub fx: Option<FxDescriptor>,
}

impl Default for FxOnOffStateTarget {
    fn default() -> (r: Self)
        ensures
            r == (FxOnOffStateTarget { commons: TargetCommons { unit: None }, fx: None }),
    {
        FxOnOffStateTarget { commons: TargetCommons { unit: None }, fx: None }
    }
}

/// Drives an FX's online/offline state.
#[derive(Clone, PartialEq, Eq, Debug)]
pub struct FxOnlineOfflineStateTarget {
    pub commons: TargetCommons,
    pub fx: Option<FxDescriptor>,
}

impl Default for FxOnlineOfflineStateTarget {
    fn default() -> (r: Self)
        ensures
            r == (FxOnlineOfflineStateTarget { commons: TargetCommons { unit: None }, fx: None }),
    {
        FxOnlineOfflineStateTarget { commons: TargetCommons { unit: None }, fx: None }
    }
}

/// Loads a stored FX state snapshot.
#[derive(Clone, PartialEq, Eq, Debug)]
pub struct LoadFxSnapshotTarget {
    pub commons: TargetCommons,
    pub fx: Option<FxDescriptor>,
    pub snapshot: Option<FxSnapshot>,
}

impl Default for LoadFxSnapshotTarget {
    fn default() -> (r: Self)
        ensures
            r == (LoadFxSnapshotTarget { commons: TargetCommons { unit: None }, fx: None, snapshot: None }),
    {
        LoadFxSnapshotTarget { commons: TargetCommons { unit: None }, fx: None, snapshot: None }
    }
}

/// Cycles through an FX's presets.
#[derive(Clone, PartialEq, Eq, Debug)]
pub struct BrowseFxPresetsTarget {
    pub commons: TargetCommons,
    pub fx: Option<FxDescriptor>,
}

impl Default for BrowseFxPresetsTarget {
    fn default() -> (r: Self)
        ensures
            r == (BrowseFxPresetsTarget { commons: TargetCommons { unit: None }, fx: None }),
    {
        BrowseFxPresetsTarget { commons: TargetCommons { unit: None }, fx: None }
    }
}

/// Selects or pins an FX as the instance FX.
#[derive(Clone, PartialEq, Eq, Debug)]
pub struct FxToolTarget {
    pub commons: TargetCommons,
    pub fx: Option<FxDescriptor>,
    pub action: Option<FxToolAction>,
    pub instance_tags: Option<Vec<String>>,
}

impl Default for FxToolTarget {
    fn default() -> (r: Self)
        ensures
            r == (FxToolTarget { commons: TargetCommons { unit: None }, fx: None, action: None, instance_tags: None }),
    {
        FxToolTarget { commons: TargetCommons { unit: None }, fx: None, action: None, instance_tags: None }
    }
}

/// Drives an FX window's visibility.
#[derive(Clone, PartialEq, Eq, Debug)]
pub struct FxVisibilityTarget {
    pub commons: TargetCommons,
    pub fx: Option<FxDescriptor>,
    pub display_kind: Option<FxDisplayKind>,
}

impl Default for FxVisibilityTarget {
    fn default() -> (r: Self)
        ensures
            r == (FxVisibilityTarget { commons: TargetCommons { unit: None }, fx: None, display_kind: None }),
    {
        FxVisibilityTarget { commons: TargetCommons { unit: None }, fx: None, display_kind: None }
    }
}

/// Drives an FX parameter's value.
#[derive(Clone, PartialEq, Eq, Debug)]
pub struct FxParameterValueTarget {
    pub commons: TargetCommons,
    pub parameter: FxParameterDescriptor,
    pub poll_for_feedback: Option<bool>,
    pub retrigger: Option<bool>,
}

/// Drives an FX parameter's automation touch state.
#[derive(Clone, PartialEq, Eq, Debug)]
pub struct FxParameterAutomationTouchStateTarget {
    pub commons: TargetCommons,
    pub parameter: FxParameterDescriptor,
}

/// Drives a route's automation mode.
#[derive(Clone, PartialEq, Eq, Debug)]
pub struct RouteAutomationModeTarget {
    pub commons: TargetCommons,
    pub route: RouteDescriptor,
    pub mode: AutomationMode,
    pub poll_for_feedback: Option<bool>,
}

/// Drives a route's mono state.
#[derive(Clone, PartialEq, Eq, Debug)]
pub struct RouteMonoStateTarget {
    pub commons: TargetCommons,
    pub route: RouteDescriptor,
    pub poll_for_feedback: Option<bool>,
}

/// Drives a route's mute state.
#[derive(Clone, PartialEq, Eq, Debug)]
pub struct RouteMuteStateTarget {
    pub commons: TargetCommons,
    pub route: RouteDescriptor,
    pub poll_for_feedback: Option<bool>,
}

/// Drives a route's phase inversion.
#[derive(Clone, PartialEq, Eq, Debug)]
pub struct RoutePhaseTarget {
    pub commons: TargetCommons,
    pub route: RouteDescriptor,
    pub poll_for_feedback: Option<bool>,
}

/// Drives a route's pan.
#[derive(Clone, PartialEq, Eq, Debug)]
pub struct RoutePanTarget {
    pub commons: TargetCommons,
    pub route: RouteDescriptor,
}

/// Drives a route's volume.
#[derive(Clone, PartialEq, Eq, Debug)]
pub struct RouteVolumeTarget {
    pub commons: TargetCommons,
    pub route: RouteDescriptor,
}

/// Drives a route parameter's touch state.
#[derive(Clone, PartialEq, Eq, Debug)]
pub struct RouteTouchStateTarget {
    pub commons: TargetCommons,
    pub route: RouteDescriptor,
    pub touched_parameter: TouchedRouteParameter,
}

/// Invokes a transport action on a clip slot.
#[derive(Clone, PartialEq, Eq, Debug)]
pub struct ClipTransportActionTarget {
    pub commons: TargetCommons,
    pub slot: ClipSlotDescriptor,
    pub action: ClipTransportAction,
    pub record_only_if_track_armed: Option<bool>,
    pub stop_column_if_slot_empty: Option<bool>,
    pub play_start_timing: Option<ClipPlayStartTiming>,
    pub play_stop_timing: Option<ClipPlayStopTiming>,
}

/// Invokes an action on a clip column.
#[derive(Clone, PartialEq, Eq, Debug)]
pub struct ClipColumnTarget {
    pub commons: TargetCommons,
    pub column: ClipColumnDescriptor,
    pub action: ClipColumnAction,
}

/// Invokes an action on a clip row.
#[derive(Clone, PartialEq, Eq, Debug)]
pub struct ClipRowTarget {
    pub commons: TargetCommons,
    pub row: ClipRowDescriptor,
    pub action: ClipRowAction,
}

/// Invokes an action on the clip matrix.
#[derive(Clone, PartialEq, Eq, Debug)]
pub struct ClipMatrixTarget {
    pub commons: TargetCommons,
    pub action: ClipMatrixAction,
}

/// Seeks within a clip.
#[derive(Clone, PartialEq, Eq, Debug)]
pub struct ClipSeekTarget {
    pub commons: TargetCommons,
    pub slot: ClipSlotDescriptor,
    pub feedback_resolution: Option<FeedbackResolution>,
}

/// Drives a clip's volume.
#[derive(Clone, PartialEq, Eq, Debug)]
pub struct ClipVolumeTarget {
    pub commons: TargetCommons,
    pub slot: ClipSlotDescriptor,
}

/// Invokes a management action on a clip slot.
#[derive(Clone, PartialEq, Eq, Debug)]
pub struct ClipManagementTarget {
    pub commons: TargetCommons,
    pub slot: ClipSlotDescriptor,
    pub action: ClipManagementAction,
}

/// Sends a raw MIDI message.
#[derive(Clone, PartialEq, Eq, Debug)]
pub struct SendMidiTarget {
    pub commons: TargetCommons,
    pub message: Option<String>,
    pub destination: Option<MidiDestination>,
}

impl Default for SendMidiTarget {
    fn default() -> (r: Self)
        ensures
            r == (SendMidiTarget { commons: TargetCommons { unit: None }, message: None, destination: None }),
    {
        SendMidiTarget { commons: TargetCommons { unit: None }, message: None, destination: None }
    }
}

/// Does nothing but keep an artificial value.
#[derive(Clone, PartialEq, Eq, Debug)]
pub struct DummyTarget {
    pub commons: TargetCommons,
}

impl Default for DummyTarget {
    fn default() -> (r: Self)
        ensures
            r == (DummyTarget { commons: TargetCommons { unit: None } }),
    {
        DummyTarget { commons: TargetCommons { unit: None } }
    }
}

/// Sends an OSC message.
#[derive(Clone, PartialEq, Eq, Debug)]
pub struct SendOscTarget {
    pub commons: TargetCommons,
    pub address: Option<String>,
    pub argument: Option<OscArgument>,
    pub destination: Option<OscDestination>,
}

impl Default for SendOscTarget {
    fn default() -> (r: Self)
        ensures
            r == (SendOscTarget { commons: TargetCommons { unit: None }, address: None, argument: None, destination: None }),
    {
        SendOscTarget { commons: TargetCommons { unit: None }, address: None, argument: None, destination: None }
    }
}

/// Enables or disables instances by tag.
#[derive(Clone, PartialEq, Eq, Debug)]
pub struct EnableInstancesTarget {
    pub commons: TargetCommons,
    pub tags: Option<Vec<String>>,
    pub exclusivity: Option<InstanceExclusivity>,
}

impl Default for EnableInstancesTarget {
    fn default() -> (r: Self)
        ensures
            r == (EnableInstancesTarget { commons: TargetCommons { unit: None }, tags: None, exclusivity: None }),
    {
        EnableInstancesTarget { commons: TargetCommons { unit: None }, tags: None, exclusivity: None }
    }
}

/// Enables or disables mappings by tag.
#[derive(Clone, PartialEq, Eq, Debug)]
pub struct EnableMappingsTarget {
    pub commons: TargetCommons,
    pub tags: Option<Vec<String>>,
    pub exclusivity: Option<MappingExclusivity>,
}

impl Default for EnableMappingsTarget {
    fn default() -> (r: Self)
        ensures
            r == (EnableMappingsTarget { commons: TargetCommons { unit: None }, tags: None, exclusivity: None }),
    {
        EnableMappingsTarget { commons: TargetCommons { unit: None }, tags: None, exclusivity: None }
    }
}

/// Applies a modification to another mapping.
#[derive(Clone, PartialEq, Eq, Debug)]
pub struct ModifyMappingTarget {
    pub commons: TargetCommons,
    pub session: Option<String>,
    pub mapping: Option<String>,
    pub modification: MappingModification,
}

/// Loads a mapping snapshot.
#[derive(Clone, PartialEq, Eq, Debug)]
pub struct LoadMappingSnapshotTarget {
    pub commons: TargetCommons,
    pub tags: Option<Vec<String>>,
    pub active_mappings_only: Option<bool>,
    pub snapshot: Option<MappingSnapshotDescForLoad>,
    pub default_value: Option<TargetValue>,
}

impl Default for LoadMappingSnapshotTarget {
    fn default() -> (r: Self)
        ensures
            r == (LoadMappingSnapshotTarget { commons: TargetCommons { unit: None }, tags: None, active_mappings_only: None, snapshot: None, default_value: None }),
    {
        LoadMappingSnapshotTarget { commons: TargetCommons { unit: None }, tags: None, active_mappings_only: None, snapshot: None, default_value: None }
    }
}

/// Takes a mapping snapshot.
#[derive(Clone, PartialEq, Eq, Debug)]
pub struct TakeMappingSnapshotTarget {
    pub commons: TargetCommons,
    pub tags: Option<Vec<String>>,
    pub active_mappings_only: Option<bool>,
    pub snapshot: BackwardCompatibleMappingSnapshotDescForTake,
}

impl Default for TakeMappingSnapshotTarget {
    fn default() -> (r: Self)
        ensures
            r == (TakeMappingSnapshotTarget { commons: TargetCommons { unit: None }, tags: None, active_mappings_only: None, snapshot: BackwardCompatibleMappingSnapshotDescForTake::New(MappingSnapshotDescForTake::LastLoaded) }),
    {
        TakeMappingSnapshotTarget { commons: TargetCommons { unit: None }, tags: None, active_mappings_only: None, snapshot: BackwardCompatibleMappingSnapshotDescForTake::New(MappingSnapshotDescForTake::LastLoaded) }
    }
}

/// Cycles through the mappings of a group.
#[derive(Clone, PartialEq, Eq, Debug)]
pub struct BrowseGroupMappingsTarget {
    pub commons: TargetCommons,
    pub exclusivity: Option<GroupMappingExclusivity>,
    pub group: Option<String>,
}

impl Default for BrowseGroupMappingsTarget {
    fn default() -> (r: Self)
        ensures
            r == (BrowseGroupMappingsTarget { commons: TargetCommons { unit: None }, exclusivity: None, group: None }),
    {
        BrowseGroupMappingsTarget { commons: TargetCommons { unit: None }, exclusivity: None, group: None }
    }
}

/// Cycles through preset-browser filter items.
#[derive(Clone, PartialEq, Eq, Debug)]
pub struct BrowsePotFilterItemsTarget {
    pub commons: TargetCommons,
    pub item_kind: Option<PotFilterKind>,
}

impl Default for BrowsePotFilterItemsTarget {
    fn default() -> (r: Self)
        ensures
            r == (BrowsePotFilterItemsTarget { commons: TargetCommons { unit: None }, item_kind: None }),
    {
        BrowsePotFilterItemsTarget { commons: TargetCommons { unit: None }, item_kind: None }
    }
}

/// Cycles through preset-browser presets.
#[derive(Clone, PartialEq, Eq, Debug)]
pub struct BrowsePotPresetsTarget {
    pub commons: TargetCommons,
}

impl Default for BrowsePotPresetsTarget {
    fn default() -> (r: Self)
        ensures
            r == (BrowsePotPresetsTarget { commons: TargetCommons { unit: None } }),
    {
        BrowsePotPresetsTarget { commons: TargetCommons { unit: None } }
    }
}

/// Previews the selected preset.
#[derive(Clone, PartialEq, Eq, Debug)]
pub struct PreviewPotPresetTarget {
    pub commons: TargetCommons,
}

impl Default for PreviewPotPresetTarget {
    fn default() -> (r: Self)
        ensures
            r == (PreviewPotPresetTarget { commons: TargetCommons { unit: None } }),
    {
        PreviewPotPresetTarget { commons: TargetCommons { unit: None } }
    }
}

/// Loads the selected preset into an FX.
#[derive(Clone, PartialEq, Eq, Debug)]
pub struct LoadPotPresetTarget {
    pub commons: TargetCommons,
    pub fx: Option<FxDescriptor>,
}

impl Default for LoadPotPresetTarget {
    fn default() -> (r: Self)
        ensures
            r == (LoadPotPresetTarget { commons: TargetCommons { unit: None }, fx: None }),
    {
        LoadPotPresetTarget { commons: TargetCommons { unit: None }, fx: None }
    }
}

/// The persistent description of a target: one case per target kind.
#[derive(Clone, PartialEq, Eq, Debug)]
pub enum Target {
    Mouse(MouseTarget),
    LastTouched(LastTouchedTarget),
    AutomationModeOverride(AutomationModeOverrideTarget),
    ReaperAction(ReaperActionTarget),
    TransportAction(TransportActionTarget),
    AnyOn(AnyOnTarget),
    BrowseTracks(BrowseTracksTarget),
    Seek(SeekTarget),
    PlayRate(PlayRateTarget),
    Tempo(TempoTarget),
    GoToBookmark(GoToBookmarkTarget),
    TrackArmState(TrackArmStateTarget),
    TrackParentSendState(TrackParentSendStateTarget),
    AllTrackFxOnOffState(AllTrackFxOnOffStateTarget),
    TrackMuteState(TrackMuteStateTarget),
    TrackPeak(TrackPeakTarget),
    TrackPhase(TrackPhaseTarget),
    TrackSelectionState(TrackSelectionStateTarget),
    TrackAutomationMode(TrackAutomationModeTarget),
    TrackMonitoringMode(TrackMonitoringModeTarget),
    TrackAutomationTouchState(TrackAutomationTouchStateTarget),
    TrackPan(TrackPanTarget),
    TrackWidth(TrackWidthTarget),
    TrackVolume(TrackVolumeTarget),
    TrackTool(TrackToolTarget),
    TrackVisibility(TrackVisibilityTarget),
    TrackSoloState(TrackSoloStateTarget),
    BrowseFxChain(BrowseFxChainTarget),
    FxOnOffState(FxOnOffStateTarget),
    FxOnlineOfflineState(FxOnlineOfflineStateTarget),
    LoadFxSnapshot(LoadFxSnapshotTarget),
    BrowseFxPresets(BrowseFxPresetsTarget),
    FxTool(FxToolTarget),
    FxVisibility(FxVisibilityTarget),
    FxParameterValue(FxParameterValueTarget),
    FxParameterAutomationTouchState(FxParameterAutomationTouchStateTarget),
    RouteAutomationMode(RouteAutomationModeTarget),
    RouteMonoState(RouteMonoStateTarget),
    RouteMuteState(RouteMuteStateTarget),
    RoutePhase(RoutePhaseTarget),
    RoutePan(RoutePanTarget),
    RouteVolume(RouteVolumeTarget),
    RouteTouchState(RouteTouchStateTarget),
    ClipTransportAction(ClipTransportActionTarget),
    ClipColumnAction(ClipColumnTarget),
    ClipRowAction(ClipRowTarget),
    ClipMatrixAction(ClipMatrixTarget),
    ClipSeek(ClipSeekTarget),
    ClipVolume(ClipVolumeTarget),
    ClipManagement(ClipManagementTarget),
    SendMidi(SendMidiTarget),
    SendOsc(SendOscTarget),
    Dummy(DummyTarget),
    EnableInstances(EnableInstancesTarget),
    EnableMappings(EnableMappingsTarget),
    ModifyMapping(ModifyMappingTarget),
    LoadMappingSnapshot(LoadMappingSnapshotTarget),
    TakeMappingSnapshot(TakeMappingSnapshotTarget),
    BrowseGroupMappings(BrowseGroupMappingsTarget),
    BrowsePotFilterItems(BrowsePotFilterItemsTarget),
    BrowsePotPresets(BrowsePotPresetsTarget),
    PreviewPotPreset(PreviewPotPresetTarget),
    LoadPotPreset(LoadPotPresetTarget),
    Virtual(VirtualTarget),
}

impl Default for Target {
    fn default() -> (r: Self)
        ensures
            r == Target::LastTouched(
                LastTouchedTarget {
                    commons: TargetCommons { unit: None },
                    included_targets: None,
                    touch_cause: None,
                },
            ),
    {
        Target::LastTouched(
            LastTouchedTarget {
                commons: TargetCommons { unit: None },
                included_targets: None,
                touch_cause: None,
            },
        )
    }
}

} // verus!
