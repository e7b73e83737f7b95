//! Main processor: mapping lifecycle, control dispatch and feedback.
//!
//! The main processor owns the full mapping set per compartment, resolves
//! control tasks against it, recomputes activation on parameter changes
//! with a read-then-write split, and manages feedback: per batch update the
//! subscription set is rebuilt from scratch, sources that fell out of use
//! get exactly one reset message each, and fresh feedback goes out for the
//! mappings that remain. Structural tasks are processed before control and
//! feedback tasks so that control is never dispatched against a stale set.

use vstd::prelude::*;

use crate::mapping::{
    spec_affected_by_parameter, spec_control_transition, spec_mapping_feedback,
    spec_refreshed_against, Compartment, MainProcessorMapping, MappingId,
};
use crate::midi::RawMidiMessage;
use crate::realtime::ControlMainTask;
use crate::source::{spec_feedback_msg, MidiSource};
use crate::targets::{HitInstruction, TargetContext};

verus! {

/// Whether some mapping of the list takes part in feedback with the given
/// source.
pub open spec fn spec_has_feedback_source(
    mappings: Seq<MainProcessorMapping>,
    s: MidiSource,
) -> bool {
    exists|i: int|
        0 <= i < mappings.len() && #[trigger] mappings[i].spec_feedback_is_effectively_on()
            && mappings[i].spec_source() == s
}

/// Like [`spec_has_feedback_source`], over the first `n` mappings only.
pub open spec fn spec_has_feedback_source_prefix(
    mappings: Seq<MainProcessorMapping>,
    s: MidiSource,
    n: int,
) -> bool {
    exists|i: int|
        0 <= i < n && i < mappings.len() && #[trigger] mappings[i].spec_feedback_is_effectively_on()
            && mappings[i].spec_source() == s
}

/// The contract of the unused-source computation: a source stands in the
/// list exactly when the old mapping set fed it back and the new one does
/// not any more, and it stands there exactly once.
pub open spec fn spec_unused_sources_ok(
    old_mappings: Seq<MainProcessorMapping>,
    new_mappings: Seq<MainProcessorMapping>,
    unused: Seq<MidiSource>,
) -> bool {
    &&& forall|s: MidiSource|
        #[trigger] unused.contains(s) <==> (spec_has_feedback_source(old_mappings, s)
            && !spec_has_feedback_source(new_mappings, s))
    &&& forall|i: int, j: int| 0 <= i < j < unused.len() ==> unused[i] != unused[j]
}

/// Whether the list contains the source.
fn vec_contains_source(v: &Vec<MidiSource>, s: &MidiSource) -> (r: bool)
    ensures
        r == v@.contains(*s),
{
    let mut i: usize = 0;
    while i < v.len()
        invariant
            i <= v@.len(),
            forall|k: int| 0 <= k < i ==> v@[k] != *s,
        decreases v@.len() - i,
    {
        if v[i] == *s {
            return true;
        }
        i += 1;
    }
    false
}

/// Whether some mapping of the list takes part in feedback with the source.
fn mappings_have_feedback_source(mappings: &Vec<MainProcessorMapping>, s: &MidiSource) -> (r:
    bool)
    ensures
        r == spec_has_feedback_source(mappings@, *s),
{
    let mut i: usize = 0;
    while i < mappings.len()
        invariant
            i <= mappings@.len(),
            !spec_has_feedback_source_prefix(mappings@, *s, i as int),
        decreases mappings@.len() - i,
    {
        let m = &mappings[i];
        if m.feedback_is_effectively_on() && *m.source() == *s {
            return true;
        }
        i += 1;
    }
    proof {
        assert(!spec_has_feedback_source(mappings@, *s));
    }
    false
}

/// Computes the sources that fall out of feedback use when the old mapping
/// set is replaced by the new one: each such source once, none that any
/// new mapping still feeds back.
pub fn compute_unused_sources(
    old_mappings: &Vec<MainProcessorMapping>,
    new_mappings: &Vec<MainProcessorMapping>,
) -> (unused: Vec<MidiSource>)
    ensures
        spec_unused_sources_ok(old_mappings@, new_mappings@, unused@),
{
    let mut unused: Vec<MidiSource> = Vec::new();
    let mut i: usize = 0;
    while i < old_mappings.len()
        invariant
            i <= old_mappings@.len(),
            forall|a: int, b: int| 0 <= a < b < unused@.len() ==> unused@[a] != unused@[b],
            forall|s: MidiSource|
                #[trigger] unused@.contains(s) ==> (spec_has_feedback_source(old_mappings@, s)
                    && !spec_has_feedback_source(new_mappings@, s)),
            forall|k: int|
                0 <= k < i && #[trigger] old_mappings@[k].spec_feedback_is_effectively_on()
                    && !spec_has_feedback_source(new_mappings@, old_mappings@[k].spec_source())
                    ==> unused@.contains(old_mappings@[k].spec_source()),
        decreases old_mappings@.len() - i,
    {
        let m = &old_mappings[i];
        if m.feedback_is_effectively_on() {
            let s = *m.source();
            let already = vec_contains_source(&unused, &s);
            let still_used = mappings_have_feedback_source(new_mappings, &s);
            if !already && !still_used {
                let ghost before = unused@;
                unused.push(s);
                proof {
                    assert(unused@ == before.push(s));
                    assert(unused@[unused@.len() - 1] == s);
                    assert(unused@.contains(s));
                    assert forall|t: MidiSource| #[trigger] unused@.contains(t) implies (
                    spec_has_feedback_source(old_mappings@, t) && !spec_has_feedback_source(
                        new_mappings@,
                        t,
                    )) by {
                        if t == s {
                            assert(old_mappings@[i as int].spec_feedback_is_effectively_on()
                                && old_mappings@[i as int].spec_source() == s);
                            assert(spec_has_feedback_source(old_mappings@, s));
                        } else {
                            let w = choose|w: int| 0 <= w < unused@.len() && unused@[w] == t;
                            assert(w < before.len());
                            assert(before[w] == t);
                            assert(before.contains(t));
                        }
                    }
                    assert forall|k: int|
                        0 <= k < i + 1 && #[trigger] old_mappings@[
                            k
                        ].spec_feedback_is_effectively_on() && !spec_has_feedback_source(
                        new_mappings@,
                        old_mappings@[k].spec_source(),
                    ) implies unused@.contains(old_mappings@[k].spec_source()) by {
                        if k < i {
                            assert(before.contains(old_mappings@[k].spec_source()));
                            let w = choose|w: int|
                                0 <= w < before.len() && before[w] == old_mappings@[
                                    k
                                ].spec_source();
                            assert(unused@[w] == old_mappings@[k].spec_source());
                        } else {
                            assert(old_mappings@[k].spec_source() == s);
                        }
                    }
                }
            } else {
                proof {
                    assert forall|k: int|
                        0 <= k < i + 1 && #[trigger] old_mappings@[
                            k
                        ].spec_feedback_is_effectively_on() && !spec_has_feedback_source(
                        new_mappings@,
                        old_mappings@[k].spec_source(),
                    ) implies unused@.contains(old_mappings@[k].spec_source()) by {
                        if k == i {
                            assert(old_mappings@[k].spec_source() == s);
                            assert(!still_used);
                            assert(already);
                        }
                    }
                }
            }
        }
        i += 1;
    }
    proof {
        assert forall|s: MidiSource|
            #[trigger] unused@.contains(s) <==> (spec_has_feedback_source(old_mappings@, s)
                && !spec_has_feedback_source(new_mappings@, s)) by {
            if spec_has_feedback_source(old_mappings@, s) && !spec_has_feedback_source(
                new_mappings@,
                s,
            ) {
                let w = choose|w: int|
                    0 <= w < old_mappings@.len() && #[trigger] old_mappings@[
                        w
                    ].spec_feedback_is_effectively_on() && old_mappings@[w].spec_source() == s;
                assert(unused@.contains(old_mappings@[w].spec_source()));
            }
        }
    }
    unused
}

/// Toggling a mapping's feedback off in a batch update emits exactly one
/// source-reset for its source, unless another mapping that still takes
/// part in feedback shares that source. The reset list is the one that
/// [`compute_unused_sources`] answers.
pub proof fn lemma_single_reset_per_toggled_source(
    old_mappings: Seq<MainProcessorMapping>,
    new_mappings: Seq<MainProcessorMapping>,
    unused: Seq<MidiSource>,
    k: int,
)
    requires
        spec_unused_sources_ok(old_mappings, new_mappings, unused),
        0 <= k < old_mappings.len(),
        old_mappings[k].spec_feedback_is_effectively_on(),
        !spec_has_feedback_source(new_mappings, old_mappings[k].spec_source()),
    ensures
        exists|i: int|
            0 <= i < unused.len() && unused[i] == old_mappings[k].spec_source() && (forall|j: int|
                0 <= j < unused.len() && unused[j] == old_mappings[k].spec_source() ==> j == i),
{
    let s = old_mappings[k].spec_source();
    assert(spec_has_feedback_source(old_mappings, s));
    assert(unused.contains(s));
    let i = choose|i: int| 0 <= i < unused.len() && unused[i] == s;
    assert forall|j: int| 0 <= j < unused.len() && unused[j] == s implies j == i by {
        if j < i {
            assert(unused[j] != unused[i]);
        } else if i < j {
            assert(unused[i] != unused[j]);
        }
    }
}

/// No source reset goes out for a source that another mapping with
/// feedback still uses after the update.
pub proof fn lemma_no_reset_for_shared_source(
    old_mappings: Seq<MainProcessorMapping>,
    new_mappings: Seq<MainProcessorMapping>,
    unused: Seq<MidiSource>,
    s: MidiSource,
)
    requires
        spec_unused_sources_ok(old_mappings, new_mappings, unused),
        spec_has_feedback_source(new_mappings, s),
    ensures
        !unused.contains(s),
{
}

/// How one control task changes the whole processor and the track table:
/// the per-compartment relation of [`spec_control_task_applied`] plus the
/// frame conditions of [`MainProcessor::process_control_task`].
pub open spec fn spec_control_step(
    pre: MainProcessor,
    post: MainProcessor,
    task: ControlMainTask,
    now_millis: u64,
    pre_volumes: Seq<crate::units::UnitValue>,
    post_volumes: Seq<crate::units::UnitValue>,
    r: Option<crate::targets::HitInstruction>,
) -> bool {
    &&& spec_control_task_applied(
        pre.spec_mappings(task.compartment),
        post.spec_mappings(task.compartment),
        task,
        now_millis,
        pre_volumes,
        post_volumes,
        r,
    )
    &&& post.spec_parameters() == pre.spec_parameters()
    &&& post.spec_feedback_out() == pre.spec_feedback_out()
    &&& (match task.compartment {
        Compartment::Controller => post.spec_mappings(Compartment::Main) == pre.spec_mappings(
            Compartment::Main,
        ),
        Compartment::Main => post.spec_mappings(Compartment::Controller) == pre.spec_mappings(
            Compartment::Controller,
        ),
    })
}

/// The instruction sequence one control step contributes: the deferred
/// instruction, if the step produced one.
pub open spec fn spec_step_instructions(r: Option<crate::targets::HitInstruction>) -> Seq<
    crate::targets::HitInstruction,
> {
    match r {
        Some(instruction) => seq![instruction],
        None => Seq::empty(),
    }
}

/// Trigger carrier for the chain's intermediate-state witnesses.
pub open spec fn spec_chain_witness(
    mid: MainProcessor,
    mid_volumes: Seq<crate::units::UnitValue>,
    r: Option<crate::targets::HitInstruction>,
    rest: Seq<crate::targets::HitInstruction>,
) -> bool {
    true
}

/// How a batch of control tasks, applied in order, relates the processor
/// states, the track tables and the collected deferred instructions.
pub open spec fn spec_control_chain(
    pre: MainProcessor,
    post: MainProcessor,
    tasks: Seq<ControlMainTask>,
    now_millis: u64,
    pre_volumes: Seq<crate::units::UnitValue>,
    post_volumes: Seq<crate::units::UnitValue>,
    instructions: Seq<crate::targets::HitInstruction>,
) -> bool
    decreases tasks.len(),
{
    if tasks.len() == 0 {
        &&& post == pre
        &&& post_volumes == pre_volumes
        &&& instructions.len() == 0
    } else {
        exists|
            mid: MainProcessor,
            mid_volumes: Seq<crate::units::UnitValue>,
            r: Option<crate::targets::HitInstruction>,
            rest: Seq<crate::targets::HitInstruction>,
        |
            #![trigger spec_chain_witness(mid, mid_volumes, r, rest)]
            {
                &&& spec_chain_witness(mid, mid_volumes, r, rest)
                &&& spec_control_chain(
                    pre,
                    mid,
                    tasks.drop_last(),
                    now_millis,
                    pre_volumes,
                    mid_volumes,
                    rest,
                )
                &&& spec_control_step(
                    mid,
                    post,
                    tasks.last(),
                    now_millis,
                    mid_volumes,
                    post_volumes,
                    r,
                )
                &&& instructions == rest + spec_step_instructions(r)
            }
    }
}

/// Trigger carrier for a single intermediate-state witness.
pub open spec fn spec_state_witness(m: MainProcessor) -> bool {
    true
}

/// Trigger carrier for two intermediate states and a source list.
pub open spec fn spec_reset_witness(
    a: MainProcessor,
    b: MainProcessor,
    sources: Seq<MidiSource>,
) -> bool {
    true
}

/// What installing a whole mapping set does, as
/// [`MainProcessor::update_all_mappings`] ensures it.
pub open spec fn spec_update_all_applied(
    pre: MainProcessor,
    post: MainProcessor,
    compartment: Compartment,
    new_mappings: Seq<MainProcessorMapping>,
    unused: Seq<MidiSource>,
) -> bool {
    &&& spec_unused_sources_ok(
        pre.spec_mappings(compartment),
        post.spec_mappings(compartment),
        unused,
    )
    &&& post.spec_mappings(compartment).len() == new_mappings.len()
    &&& (forall|i: int|
        0 <= i < new_mappings.len() ==> spec_refreshed_against(
            new_mappings[i],
            #[trigger] post.spec_mappings(compartment)[i],
            pre.spec_parameters(),
        ))
    &&& (match compartment {
        Compartment::Controller => post.spec_mappings(Compartment::Main) == pre.spec_mappings(
            Compartment::Main,
        ),
        Compartment::Main => post.spec_mappings(Compartment::Controller) == pre.spec_mappings(
            Compartment::Controller,
        ),
    })
    &&& post.spec_parameters() == pre.spec_parameters()
    &&& post.spec_feedback_out() == pre.spec_feedback_out()
    &&& post.spec_feedback_is_globally_enabled() == pre.spec_feedback_is_globally_enabled()
    &&& post.spec_pending_feedback().len() == 0
}

/// What replacing or inserting one mapping does, as
/// [`MainProcessor::update_single_mapping`] ensures it.
pub open spec fn spec_update_single_applied(
    pre: MainProcessor,
    post: MainProcessor,
    compartment: Compartment,
    unused: Seq<MidiSource>,
) -> bool {
    &&& spec_unused_sources_ok(
        pre.spec_mappings(compartment),
        post.spec_mappings(compartment),
        unused,
    )
    &&& (match compartment {
        Compartment::Controller => post.spec_mappings(Compartment::Main) == pre.spec_mappings(
            Compartment::Main,
        ),
        Compartment::Main => post.spec_mappings(Compartment::Controller) == pre.spec_mappings(
            Compartment::Controller,
        ),
    })
    &&& post.spec_parameters() == pre.spec_parameters()
    &&& post.spec_feedback_out() == pre.spec_feedback_out()
    &&& post.spec_feedback_is_globally_enabled() == pre.spec_feedback_is_globally_enabled()
    &&& post.spec_pending_feedback() == pre.spec_pending_feedback()
}

/// What sending the reset messages for a source list does, as
/// [`MainProcessor::send_source_resets`] ensures it: one minimum-value
/// message per listed source that has one, appended in order.
pub open spec fn spec_resets_appended(
    pre: MainProcessor,
    post: MainProcessor,
    sources: Seq<MidiSource>,
) -> bool {
    &&& post.spec_mappings(Compartment::Controller) == pre.spec_mappings(Compartment::Controller)
    &&& post.spec_mappings(Compartment::Main) == pre.spec_mappings(Compartment::Main)
    &&& post.spec_feedback_is_globally_enabled() == pre.spec_feedback_is_globally_enabled()
    &&& post.spec_parameters() == pre.spec_parameters()
    &&& post.spec_pending_feedback() == pre.spec_pending_feedback()
    &&& post.spec_feedback_out().len() >= pre.spec_feedback_out().len()
    &&& post.spec_feedback_out().len() <= pre.spec_feedback_out().len() + sources.len()
    &&& (forall|k: int|
        0 <= k < pre.spec_feedback_out().len() ==> #[trigger] post.spec_feedback_out()[k]
            == pre.spec_feedback_out()[k])
    &&& (forall|si: int|
        0 <= si < sources.len() ==> (match #[trigger] spec_feedback_msg(sources[si], 0) {
            Some(m) => exists|k: int|
                pre.spec_feedback_out().len() <= k < post.spec_feedback_out().len()
                    && post.spec_feedback_out()[k] == m,
            None => true,
        }))
}

/// What sending the full feedback does, as
/// [`MainProcessor::send_feedback_all`] ensures it.
pub open spec fn spec_feedback_all_appended(
    pre: MainProcessor,
    post: MainProcessor,
    now_millis: u64,
    volumes: Seq<crate::units::UnitValue>,
) -> bool {
    &&& post.spec_mappings(Compartment::Controller) == pre.spec_mappings(Compartment::Controller)
    &&& post.spec_mappings(Compartment::Main) == pre.spec_mappings(Compartment::Main)
    &&& post.spec_parameters() == pre.spec_parameters()
    &&& post.spec_feedback_is_globally_enabled() == pre.spec_feedback_is_globally_enabled()
    &&& post.spec_pending_feedback() == pre.spec_pending_feedback()
    &&& post.spec_feedback_out() == pre.spec_feedback_out() + spec_feedback_batch(
        pre.spec_mappings(Compartment::Controller),
        now_millis,
        volumes,
    ) + spec_feedback_batch(pre.spec_mappings(Compartment::Main), now_millis, volumes)
}

/// What one structural task does to the processor: the composition of the
/// helper contracts that handle it, with the intermediate states
/// existential.
pub open spec fn spec_normal_step(
    pre: MainProcessor,
    post: MainProcessor,
    task: NormalMainTask,
    now_millis: u64,
    volumes: Seq<crate::units::UnitValue>,
) -> bool {
    match task {
        NormalMainTask::UpdateAllMappings { compartment, mappings } => exists|
            s1: MainProcessor,
            s2: MainProcessor,
            unused: Seq<MidiSource>,
        |
            #![trigger spec_reset_witness(s1, s2, unused)]
            {
                &&& spec_reset_witness(s1, s2, unused)
                &&& spec_update_all_applied(pre, s1, compartment, mappings@, unused)
                &&& if pre.spec_feedback_is_globally_enabled() {
                    &&& spec_resets_appended(s1, s2, unused)
                    &&& spec_feedback_all_appended(s2, post, now_millis, volumes)
                } else {
                    post == s1
                }
            },
        NormalMainTask::UpdateSingleMapping { compartment, mapping } => exists|
            s1: MainProcessor,
            s2: MainProcessor,
            unused: Seq<MidiSource>,
        |
            #![trigger spec_reset_witness(s1, s2, unused)]
            {
                &&& spec_reset_witness(s1, s2, unused)
                &&& spec_update_single_applied(pre, s1, compartment, unused)
                &&& if pre.spec_feedback_is_globally_enabled() {
                    &&& spec_resets_appended(s1, post, unused)
                    &&& s2 == post
                } else {
                    post == s1 && s2 == s1
                }
            },
        NormalMainTask::UpdateFeedbackIsGloballyEnabled { enabled } => exists|
            s1: MainProcessor,
            s2: MainProcessor,
            unused: Seq<MidiSource>,
        |
            #![trigger spec_reset_witness(s1, s2, unused)]
            {
                &&& spec_reset_witness(s1, s2, unused)
                &&& s1.spec_feedback_is_globally_enabled() == enabled
                &&& s1.spec_mappings(Compartment::Controller) == pre.spec_mappings(
                    Compartment::Controller,
                )
                &&& s1.spec_mappings(Compartment::Main) == pre.spec_mappings(Compartment::Main)
                &&& s1.spec_feedback_out() == pre.spec_feedback_out()
                &&& s1.spec_parameters() == pre.spec_parameters()
                &&& s1.spec_pending_feedback() == pre.spec_pending_feedback()
                &&& if enabled {
                    &&& spec_feedback_all_appended(s1, post, now_millis, volumes)
                    &&& s2 == post
                    &&& unused.len() == 0
                } else {
                    &&& unused == spec_feedback_sources(
                        pre.spec_mappings(Compartment::Controller),
                    ) + spec_feedback_sources(pre.spec_mappings(Compartment::Main))
                    &&& spec_resets_appended(s1, s2, unused)
                    &&& post.spec_mappings(Compartment::Controller) == s2.spec_mappings(
                        Compartment::Controller,
                    )
                    &&& post.spec_mappings(Compartment::Main) == s2.spec_mappings(
                        Compartment::Main,
                    )
                    &&& post.spec_feedback_out() == s2.spec_feedback_out()
                    &&& post.spec_parameters() == s2.spec_parameters()
                    &&& post.spec_feedback_is_globally_enabled()
                        == s2.spec_feedback_is_globally_enabled()
                    &&& post.spec_pending_feedback().len() == 0
                }
            },
        NormalMainTask::FeedbackAll => {
            if pre.spec_feedback_is_globally_enabled() {
                spec_feedback_all_appended(pre, post, now_millis, volumes)
            } else {
                post == pre
            }
        },
    }
}

/// How a batch of structural tasks, applied in order, relates the
/// processor states.
pub open spec fn spec_normal_chain(
    pre: MainProcessor,
    post: MainProcessor,
    tasks: Seq<NormalMainTask>,
    now_millis: u64,
    volumes: Seq<crate::units::UnitValue>,
) -> bool
    decreases tasks.len(),
{
    if tasks.len() == 0 {
        post == pre
    } else {
        exists|mid: MainProcessor|
            #![trigger spec_state_witness(mid)]
            {
                &&& spec_state_witness(mid)
                &&& spec_normal_chain(pre, mid, tasks.drop_last(), now_millis, volumes)
                &&& spec_normal_step(mid, post, tasks.last(), now_millis, volumes)
            }
    }
}

/// Extending a structural chain by one applied task keeps it a chain.
proof fn lemma_normal_chain_extend(
    pre: MainProcessor,
    mid: MainProcessor,
    post: MainProcessor,
    tasks: Seq<NormalMainTask>,
    task: NormalMainTask,
    now_millis: u64,
    volumes: Seq<crate::units::UnitValue>,
)
    requires
        spec_normal_chain(pre, mid, tasks, now_millis, volumes),
        spec_normal_step(mid, post, task, now_millis, volumes),
    ensures
        spec_normal_chain(pre, post, tasks.push(task), now_millis, volumes),
{
    let extended = tasks.push(task);
    assert(extended.drop_last() =~= tasks);
    assert(extended.last() == task);
    assert(spec_normal_chain(pre, mid, extended.drop_last(), now_millis, volumes));
    assert(spec_normal_step(mid, post, extended.last(), now_millis, volumes));
    assert(spec_state_witness(mid));
}

/// What one parameter task does to the processor.
pub open spec fn spec_parameter_applied(
    pre: MainProcessor,
    post: MainProcessor,
    index: int,
    value: u32,
) -> bool {
    &&& (index < pre.spec_parameters().len() ==> post.spec_parameters()
        == pre.spec_parameters().update(index, value))
    &&& (index >= pre.spec_parameters().len() ==> post == pre)
    &&& post.spec_mappings(Compartment::Controller) == pre.spec_mappings(Compartment::Controller)
    &&& post.spec_mappings(Compartment::Main).len() == pre.spec_mappings(Compartment::Main).len()
    &&& post.spec_feedback_out() == pre.spec_feedback_out()
    &&& post.spec_feedback_is_globally_enabled() == pre.spec_feedback_is_globally_enabled()
    &&& post.spec_pending_feedback() == pre.spec_pending_feedback()
    &&& (index < pre.spec_parameters().len() ==> forall|i: int|
        0 <= i < pre.spec_mappings(Compartment::Main).len() ==> {
            let old_m = #[trigger] pre.spec_mappings(Compartment::Main)[i];
            let new_m = post.spec_mappings(Compartment::Main)[i];
            if spec_affected_by_parameter(old_m.spec_activation_condition(), index) {
                spec_refreshed_against(old_m, new_m, post.spec_parameters())
            } else {
                new_m == old_m
            }
        })
}

/// The first `k` values of a bulk parameter update, applied in order.
pub open spec fn spec_parameters_bulk_applied(
    pre: MainProcessor,
    post: MainProcessor,
    values: Seq<u32>,
    k: int,
) -> bool
    decreases k,
{
    if k <= 0 {
        post == pre
    } else {
        exists|mid: MainProcessor|
            #![trigger spec_state_witness(mid)]
            {
                &&& spec_state_witness(mid)
                &&& spec_parameters_bulk_applied(pre, mid, values, k - 1)
                &&& spec_parameter_applied(mid, post, k - 1, values[k - 1])
            }
    }
}

/// What one task of the parameter queue does.
pub open spec fn spec_parameter_step(
    pre: MainProcessor,
    post: MainProcessor,
    task: ParameterMainTask,
) -> bool {
    match task {
        ParameterMainTask::UpdateParameter { index, value } => spec_parameter_applied(
            pre,
            post,
            index as int,
            value,
        ),
        ParameterMainTask::UpdateAllParameters { values } => spec_parameters_bulk_applied(
            pre,
            post,
            values@,
            values@.len() as int,
        ),
    }
}

/// How a batch of parameter tasks, applied in order, relates the
/// processor states.
pub open spec fn spec_parameter_chain(
    pre: MainProcessor,
    post: MainProcessor,
    tasks: Seq<ParameterMainTask>,
) -> bool
    decreases tasks.len(),
{
    if tasks.len() == 0 {
        post == pre
    } else {
        exists|mid: MainProcessor|
            #![trigger spec_state_witness(mid)]
            {
                &&& spec_state_witness(mid)
                &&& spec_parameter_chain(pre, mid, tasks.drop_last())
                &&& spec_parameter_step(mid, post, tasks.last())
            }
    }
}

/// Extending a parameter chain by one applied task keeps it a chain.
proof fn lemma_parameter_chain_extend(
    pre: MainProcessor,
    mid: MainProcessor,
    post: MainProcessor,
    tasks: Seq<ParameterMainTask>,
    task: ParameterMainTask,
)
    requires
        spec_parameter_chain(pre, mid, tasks),
        spec_parameter_step(mid, post, task),
    ensures
        spec_parameter_chain(pre, post, tasks.push(task)),
{
    let extended = tasks.push(task);
    assert(extended.drop_last() =~= tasks);
    assert(extended.last() == task);
    assert(spec_parameter_chain(pre, mid, extended.drop_last()));
    assert(spec_parameter_step(mid, post, extended.last()));
    assert(spec_state_witness(mid));
}

/// What buffering a batch of feedback tasks does: every buffered task is
/// pending afterwards, nothing already pending is lost, and everything
/// else stays.
pub open spec fn spec_feedback_tasks_buffered(
    pre: MainProcessor,
    post: MainProcessor,
    tasks: Seq<FeedbackMainTask>,
) -> bool {
    &&& post.spec_mappings(Compartment::Controller) == pre.spec_mappings(Compartment::Controller)
    &&& post.spec_mappings(Compartment::Main) == pre.spec_mappings(Compartment::Main)
    &&& post.spec_parameters() == pre.spec_parameters()
    &&& post.spec_feedback_out() == pre.spec_feedback_out()
    &&& post.spec_feedback_is_globally_enabled() == pre.spec_feedback_is_globally_enabled()
    &&& (forall|k: int|
        0 <= k < tasks.len() ==> post.spec_pending_feedback().contains(#[trigger] tasks[k]))
    &&& (forall|t: FeedbackMainTask|
        #[trigger] pre.spec_pending_feedback().contains(t) ==> post.spec_pending_feedback().contains(
            t,
        ))
}

/// What the buffer poll at the end of a pass does, as
/// [`MainProcessor::poll_feedback_buffer`] ensures it.
pub open spec fn spec_poll_applied(
    pre: MainProcessor,
    post: MainProcessor,
    now_millis: u64,
    volumes: Seq<crate::units::UnitValue>,
) -> bool {
    &&& (!pre.spec_feedback_is_globally_enabled() ==> post == pre)
    &&& ((pre.spec_feedback_is_globally_enabled() && !pre.spec_feedback_flush_due(now_millis))
        ==> post == pre)
    &&& ((pre.spec_feedback_is_globally_enabled() && pre.spec_feedback_flush_due(now_millis))
        ==> {
        &&& post.spec_pending_feedback().len() == 0
        &&& post.spec_feedback_out() == pre.spec_feedback_out() + spec_flush_batch(
            pre.spec_pending_feedback(),
            pre.spec_mappings(Compartment::Controller),
            pre.spec_mappings(Compartment::Main),
            now_millis,
            volumes,
        )
    })
    &&& post.spec_mappings(Compartment::Controller) == pre.spec_mappings(Compartment::Controller)
    &&& post.spec_mappings(Compartment::Main) == pre.spec_mappings(Compartment::Main)
    &&& post.spec_parameters() == pre.spec_parameters()
    &&& post.spec_feedback_is_globally_enabled() == pre.spec_feedback_is_globally_enabled()
}

/// What one essential pass does: the structural chain, then the parameter
/// chain, then buffering, then the buffer poll.
pub open spec fn spec_essential_pass(
    pre: MainProcessor,
    post: MainProcessor,
    normal_tasks: Seq<NormalMainTask>,
    parameter_tasks: Seq<ParameterMainTask>,
    feedback_tasks: Seq<FeedbackMainTask>,
    now_millis: u64,
    volumes: Seq<crate::units::UnitValue>,
) -> bool {
    exists|s1: MainProcessor, s2: MainProcessor, s3: MainProcessor|
        #![trigger spec_state_witness(s1), spec_state_witness(s2), spec_state_witness(s3)]
        {
            &&& spec_state_witness(s1)
            &&& spec_state_witness(s2)
            &&& spec_state_witness(s3)
            &&& spec_normal_chain(pre, s1, normal_tasks, now_millis, volumes)
            &&& spec_parameter_chain(s1, s2, parameter_tasks)
            &&& spec_feedback_tasks_buffered(s2, s3, feedback_tasks)
            &&& spec_poll_applied(s3, post, now_millis, volumes)
        }
}

/// Extending a control chain by one applied task keeps it a chain.
proof fn lemma_control_chain_extend(
    pre: MainProcessor,
    mid: MainProcessor,
    post: MainProcessor,
    tasks: Seq<ControlMainTask>,
    task: ControlMainTask,
    now_millis: u64,
    pre_volumes: Seq<crate::units::UnitValue>,
    mid_volumes: Seq<crate::units::UnitValue>,
    post_volumes: Seq<crate::units::UnitValue>,
    rest: Seq<crate::targets::HitInstruction>,
    r: Option<crate::targets::HitInstruction>,
)
    requires
        spec_control_chain(pre, mid, tasks, now_millis, pre_volumes, mid_volumes, rest),
        spec_control_step(mid, post, task, now_millis, mid_volumes, post_volumes, r),
    ensures
        spec_control_chain(
            pre,
            post,
            tasks.push(task),
            now_millis,
            pre_volumes,
            post_volumes,
            rest + spec_step_instructions(r),
        ),
{
    let extended = tasks.push(task);
    assert(extended.drop_last() =~= tasks);
    assert(extended.last() == task);
    assert(spec_control_chain(
        pre,
        mid,
        extended.drop_last(),
        now_millis,
        pre_volumes,
        mid_volumes,
        rest,
    ) && spec_control_step(
        mid,
        post,
        extended.last(),
        now_millis,
        mid_volumes,
        post_volumes,
        r,
    ) && rest + spec_step_instructions(r) == rest + spec_step_instructions(r));
    assert(spec_chain_witness(mid, mid_volumes, r, rest));
}

/// A structural task for the main processor.
pub enum NormalMainTask {
    /// Clears the compartment's mappings and installs the given ones.
    UpdateAllMappings { compartment: Compartment, mappings: Vec<MainProcessorMapping> },
    /// Replaces or inserts one mapping.
    UpdateSingleMapping { compartment: Compartment, mapping: MainProcessorMapping },
    /// Turns global feedback on or off.
    UpdateFeedbackIsGloballyEnabled { enabled: bool },
    /// Sends feedback for every mapping that takes part in it.
    FeedbackAll,
}

/// A parameter task, potentially sent very frequently.
pub enum ParameterMainTask {
    /// Updates one plugin parameter, given as a unit-value numerator.
    UpdateParameter { index: usize, value: u32 },
    /// Replaces all parameters.
    UpdateAllParameters { values: Vec<u32> },
}

/// A feedback task: a target value changed, feedback for the mapping is
/// due on the next buffer poll.
#[derive(Clone, Copy, PartialEq, Eq, Structural, Debug)]
pub struct FeedbackMainTask {
    pub compartment: Compartment,
    pub mapping_id: MappingId,
}

/// Coalesces feedback: pending mappings are collected and flushed at a
/// fixed interval rather than per event, so bursts cannot flood the
/// hardware.
pub struct FeedbackBuffer {
    pending: Vec<FeedbackMainTask>,
    last_flush_millis: u64,
    interval_millis: u64,
}

impl FeedbackBuffer {
    pub closed spec fn spec_pending(self) -> Seq<FeedbackMainTask> {
        self.pending@
    }

    pub closed spec fn spec_interval_millis(self) -> int {
        self.interval_millis as int
    }

    pub closed spec fn spec_last_flush_millis(self) -> int {
        self.last_flush_millis as int
    }

    /// Whether a poll at the given time flushes: the interval has passed
    /// since the last flush.
    pub open spec fn spec_due(self, now_millis: u64) -> bool {
        now_millis >= self.spec_last_flush_millis() && now_millis - self.spec_last_flush_millis()
            >= self.spec_interval_millis()
    }

    pub fn new(interval_millis: u64) -> (r: FeedbackBuffer)
        ensures
            r.spec_pending().len() == 0,
            r.spec_interval_millis() == interval_millis,
    {
        FeedbackBuffer { pending: Vec::new(), last_flush_millis: 0, interval_millis }
    }

    /// Notes that feedback for the mapping is due; duplicates coalesce.
    pub fn buffer_feedback_for_mapping(&mut self, task: FeedbackMainTask)
        ensures
            final (self).spec_pending().contains(task),
            forall|t: FeedbackMainTask|
                #[trigger] old(self).spec_pending().contains(t) ==> final (self).spec_pending().contains(t),
            final (self).spec_interval_millis() == old(self).spec_interval_millis(),
    {
        let mut i: usize = 0;
        while i < self.pending.len()
            invariant
                i <= self.pending@.len(),
                forall|k: int| 0 <= k < i ==> self.pending@[k] != task,
                self.pending@ == old(self).spec_pending(),
                self.interval_millis == old(self).spec_interval_millis(),
            decreases self.pending@.len() - i,
        {
            if self.pending[i] == task {
                proof {
                    assert(self.pending@[i as int] == task);
                    assert(self.pending@.contains(task));
                }
                return ;
            }
            i += 1;
        }
        let ghost before = self.pending@;
        self.pending.push(task);
        proof {
            assert(self.pending@[self.pending@.len() - 1] == task);
            assert(self.pending@.contains(task));
            assert forall|t: FeedbackMainTask| #[trigger] before.contains(t)
                implies self.pending@.contains(t) by {
                let w = choose|w: int| 0 <= w < before.len() && before[w] == t;
                assert(self.pending@[w] == t);
            }
        }
    }

    /// Returns the pending mappings exactly when the interval has passed,
    /// else nothing; flushing empties the buffer and restarts the
    /// interval.
    pub fn poll(&mut self, now_millis: u64) -> (r: Option<Vec<FeedbackMainTask>>)
        ensures
            final (self).spec_interval_millis() == old(self).spec_interval_millis(),
            r is Some <==> old(self).spec_due(now_millis),
            (match r {
                Some(tasks) => {
                    &&& tasks@ == old(self).spec_pending()
                    &&& final (self).spec_pending().len() == 0
                    &&& final (self).spec_last_flush_millis() == now_millis
                },
                None => *final (self) == *old(self),
            }),
    {
        if now_millis >= self.last_flush_millis && now_millis - self.last_flush_millis
            >= self.interval_millis {
            self.last_flush_millis = now_millis;
            let mut out: Vec<FeedbackMainTask> = Vec::new();
            core::mem::swap(&mut out, &mut self.pending);
            Some(out)
        } else {
            None
        }
    }

    pub fn reset(&mut self)
        ensures
            final (self).spec_pending().len() == 0,
            final (self).spec_interval_millis() == old(self).spec_interval_millis(),
    {
        self.pending = Vec::new();
    }
}

/// The feedback messages a mapping list owes, in list order: the owed
/// message of each mapping that has one.
pub open spec fn spec_feedback_batch(
    mappings: Seq<MainProcessorMapping>,
    now_millis: u64,
    volumes: Seq<crate::units::UnitValue>,
) -> Seq<RawMidiMessage>
    decreases mappings.len(),
{
    if mappings.len() == 0 {
        Seq::empty()
    } else {
        (match spec_mapping_feedback(mappings[0], now_millis, volumes) {
            Some(msg) => seq![msg],
            None => Seq::empty(),
        }) + spec_feedback_batch(mappings.subrange(1, mappings.len() as int), now_millis, volumes)
    }
}

/// Unfolding step of the feedback batch at the front.
proof fn lemma_feedback_batch_step(
    mappings: Seq<MainProcessorMapping>,
    now_millis: u64,
    volumes: Seq<crate::units::UnitValue>,
    i: int,
)
    requires
        0 <= i < mappings.len(),
    ensures
        spec_feedback_batch(mappings.subrange(i, mappings.len() as int), now_millis, volumes)
            == (match spec_mapping_feedback(mappings[i], now_millis, volumes) {
            Some(msg) => seq![msg],
            None => Seq::empty(),
        }) + spec_feedback_batch(
            mappings.subrange(i + 1, mappings.len() as int),
            now_millis,
            volumes,
        ),
{
    let tail = mappings.subrange(i, mappings.len() as int);
    assert(tail[0] == mappings[i]);
    assert(tail.subrange(1, tail.len() as int) =~= mappings.subrange(
        i + 1,
        mappings.len() as int,
    ));
}

/// The feedback owed for a mapping id within one list: that of the first
/// mapping carrying the id, or nothing when the id is stale.
pub open spec fn spec_task_feedback(
    mappings: Seq<MainProcessorMapping>,
    mapping_id: MappingId,
    now_millis: u64,
    volumes: Seq<crate::units::UnitValue>,
) -> Option<RawMidiMessage>
    decreases mappings.len(),
{
    if mappings.len() == 0 {
        None
    } else if mappings[0].spec_id() == mapping_id {
        spec_mapping_feedback(mappings[0], now_millis, volumes)
    } else {
        spec_task_feedback(
            mappings.subrange(1, mappings.len() as int),
            mapping_id,
            now_millis,
            volumes,
        )
    }
}

/// The messages a flushed buffer produces: per buffered task in order, the
/// feedback its mapping owes, if any.
pub open spec fn spec_flush_batch(
    tasks: Seq<FeedbackMainTask>,
    controller: Seq<MainProcessorMapping>,
    main: Seq<MainProcessorMapping>,
    now_millis: u64,
    volumes: Seq<crate::units::UnitValue>,
) -> Seq<RawMidiMessage>
    decreases tasks.len(),
{
    if tasks.len() == 0 {
        Seq::empty()
    } else {
        let mappings = match tasks[0].compartment {
            Compartment::Controller => controller,
            Compartment::Main => main,
        };
        (match spec_task_feedback(mappings, tasks[0].mapping_id, now_millis, volumes) {
            Some(msg) => seq![msg],
            None => Seq::empty(),
        }) + spec_flush_batch(
            tasks.subrange(1, tasks.len() as int),
            controller,
            main,
            now_millis,
            volumes,
        )
    }
}

/// Unfolding step of the flush batch at the front.
proof fn lemma_flush_batch_step(
    tasks: Seq<FeedbackMainTask>,
    controller: Seq<MainProcessorMapping>,
    main: Seq<MainProcessorMapping>,
    now_millis: u64,
    volumes: Seq<crate::units::UnitValue>,
    i: int,
)
    requires
        0 <= i < tasks.len(),
    ensures
        spec_flush_batch(
            tasks.subrange(i, tasks.len() as int),
            controller,
            main,
            now_millis,
            volumes,
        ) == (match spec_task_feedback(
            (match tasks[i].compartment {
                Compartment::Controller => controller,
                Compartment::Main => main,
            }),
            tasks[i].mapping_id,
            now_millis,
            volumes,
        ) {
            Some(msg) => seq![msg],
            None => Seq::empty(),
        }) + spec_flush_batch(
            tasks.subrange(i + 1, tasks.len() as int),
            controller,
            main,
            now_millis,
            volumes,
        ),
{
    let tail = tasks.subrange(i, tasks.len() as int);
    assert(tail[0] == tasks[i]);
    assert(tail.subrange(1, tail.len() as int) =~= tasks.subrange(i + 1, tasks.len() as int));
}

/// The sources of the mappings that take part in feedback, in list order.
pub open spec fn spec_feedback_sources(mappings: Seq<MainProcessorMapping>) -> Seq<MidiSource>
    decreases mappings.len(),
{
    if mappings.len() == 0 {
        Seq::empty()
    } else {
        (if mappings[0].spec_feedback_is_effectively_on() {
            seq![mappings[0].spec_source()]
        } else {
            Seq::empty()
        }) + spec_feedback_sources(mappings.subrange(1, mappings.len() as int))
    }
}

/// Unfolding step of the feedback-source list at the front.
proof fn lemma_feedback_sources_step(mappings: Seq<MainProcessorMapping>, i: int)
    requires
        0 <= i < mappings.len(),
    ensures
        spec_feedback_sources(mappings.subrange(i, mappings.len() as int)) == (if mappings[
            i
        ].spec_feedback_is_effectively_on() {
            seq![mappings[i].spec_source()]
        } else {
            Seq::empty()
        }) + spec_feedback_sources(mappings.subrange(i + 1, mappings.len() as int)),
{
    let tail = mappings.subrange(i, mappings.len() as int);
    assert(tail[0] == mappings[i]);
    assert(tail.subrange(1, tail.len() as int) =~= mappings.subrange(
        i + 1,
        mappings.len() as int,
    ));
}

/// The main processor.
pub struct MainProcessor {
    controller_mappings: Vec<MainProcessorMapping>,
    main_mappings: Vec<MainProcessorMapping>,
    parameters: Vec<u32>,
    feedback_is_globally_enabled: bool,
    feedback_buffer: FeedbackBuffer,
    feedback_subscriptions_controller: Vec<MappingId>,
    feedback_subscriptions_main: Vec<MappingId>,
    feedback_out: Vec<RawMidiMessage>,
}

impl MainProcessor {
    pub closed spec fn spec_mappings(self, compartment: Compartment) -> Seq<MainProcessorMapping> {
        match compartment {
            Compartment::Controller => self.controller_mappings@,
            Compartment::Main => self.main_mappings@,
        }
    }

    pub closed spec fn spec_parameters(self) -> Seq<u32> {
        self.parameters@
    }

    pub closed spec fn spec_feedback_is_globally_enabled(self) -> bool {
        self.feedback_is_globally_enabled
    }

    pub closed spec fn spec_feedback_out(self) -> Seq<RawMidiMessage> {
        self.feedback_out@
    }

    /// The mappings whose feedback waits in the coalescing buffer.
    pub closed spec fn spec_pending_feedback(self) -> Seq<FeedbackMainTask> {
        self.feedback_buffer.spec_pending()
    }

    /// Whether a buffer poll at the given time flushes.
    pub closed spec fn spec_feedback_flush_due(self, now_millis: u64) -> bool {
        self.feedback_buffer.spec_due(now_millis)
    }

    pub closed spec fn spec_subscriptions(self, compartment: Compartment) -> Seq<MappingId> {
        match compartment {
            Compartment::Controller => self.feedback_subscriptions_controller@,
            Compartment::Main => self.feedback_subscriptions_main@,
        }
    }

    pub fn new(parameter_count: usize, feedback_interval_millis: u64) -> (r: MainProcessor)
        ensures
            r.spec_mappings(Compartment::Controller).len() == 0,
            r.spec_mappings(Compartment::Main).len() == 0,
            r.spec_parameters().len() == parameter_count,
            forall|i: int| 0 <= i < parameter_count ==> r.spec_parameters()[i] == 0,
            r.spec_feedback_is_globally_enabled(),
            r.spec_feedback_out().len() == 0,
    {
        let mut parameters: Vec<u32> = Vec::new();
        let mut i: usize = 0;
        while i < parameter_count
            invariant
                i <= parameter_count,
                parameters@.len() == i,
                forall|k: int| 0 <= k < i ==> parameters@[k] == 0,
            decreases parameter_count - i,
        {
            parameters.push(0);
            i += 1;
        }
        MainProcessor {
            controller_mappings: Vec::new(),
            main_mappings: Vec::new(),
            parameters,
            feedback_is_globally_enabled: true,
            feedback_buffer: FeedbackBuffer::new(feedback_interval_millis),
            feedback_subscriptions_controller: Vec::new(),
            feedback_subscriptions_main: Vec::new(),
            feedback_out: Vec::new(),
        }
    }

    /// Hands the queued feedback messages out for delivery to the feedback
    /// output.
    pub fn take_feedback(&mut self) -> (r: Vec<RawMidiMessage>)
        ensures
            r@ == old(self).spec_feedback_out(),
            final (self).spec_feedback_out().len() == 0,
            final (self).spec_mappings(Compartment::Controller) == old(self).spec_mappings(
                Compartment::Controller,
            ),
            final (self).spec_mappings(Compartment::Main) == old(self).spec_mappings(
                Compartment::Main,
            ),
    {
        let mut out: Vec<RawMidiMessage> = Vec::new();
        core::mem::swap(&mut out, &mut self.feedback_out);
        out
    }

    /// Appends one source-reset message per listed source: the feedback of
    /// the source at the minimum value, which turns the control element
    /// off. Sources without a feedback message are passed over.
    #[verifier::rlimit(100)]
    #[verifier::spinoff_prover]
    pub fn send_source_resets(&mut self, sources: &Vec<MidiSource>)
        ensures
            final (self).spec_mappings(Compartment::Controller) == old(self).spec_mappings(
                Compartment::Controller,
            ),
            final (self).spec_mappings(Compartment::Main) == old(self).spec_mappings(
                Compartment::Main,
            ),
            final (self).spec_feedback_is_globally_enabled() == old(self).spec_feedback_is_globally_enabled(),
            final (self).spec_parameters() == old(self).spec_parameters(),
            final (self).spec_pending_feedback() == old(self).spec_pending_feedback(),
            final (self).spec_feedback_out().len() >= old(self).spec_feedback_out().len(),
            forall|k: int|
                0 <= k < old(self).spec_feedback_out().len() ==> final (self).spec_feedback_out()[
                    k
                ] == old(self).spec_feedback_out()[k],
            final (self).spec_feedback_out().len() <= old(self).spec_feedback_out().len()
                + sources@.len(),
            forall|s: int|
                0 <= s < sources@.len() ==> (match #[trigger] spec_feedback_msg(sources@[s], 0) {
                    Some(m) => exists|k: int|
                        old(self).spec_feedback_out().len() <= k < final (self).spec_feedback_out().len() && final (self).spec_feedback_out()[k] == m,
                    None => true,
                }),
    {
        let ghost out0 = self.feedback_out@;
        let mut i: usize = 0;
        while i < sources.len()
            invariant
                i <= sources@.len(),
                self.controller_mappings@ == old(self).spec_mappings(Compartment::Controller),
                self.main_mappings@ == old(self).spec_mappings(Compartment::Main),
                self.feedback_is_globally_enabled == old(self).spec_feedback_is_globally_enabled(),
                self.parameters@ == old(self).spec_parameters(),
                self.feedback_buffer.spec_pending() == old(self).spec_pending_feedback(),
                out0 == old(self).spec_feedback_out(),
                self.feedback_out@.len() >= out0.len(),
                self.feedback_out@.len() <= out0.len() + i,
                forall|k: int| 0 <= k < out0.len() ==> self.feedback_out@[k] == out0[k],
                forall|s: int|
                    0 <= s < i ==> (match #[trigger] spec_feedback_msg(sources@[s], 0) {
                        Some(m) => exists|k: int|
                            out0.len() <= k < self.feedback_out@.len() && self.feedback_out@[k]
                                == m,
                        None => true,
                    }),
            decreases sources@.len() - i,
        {
            let s = &sources[i];
            let msg = s.feedback(crate::units::UnitValue::min_value());
            match msg {
                Some(m) => {
                    let ghost before = self.feedback_out@;
                    self.feedback_out.push(m);
                    proof {
                        assert(self.feedback_out@[self.feedback_out@.len() - 1] == m);
                        assert(spec_feedback_msg(sources@[i as int], 0) == Some(m));
                        assert forall|t: int|
                            0 <= t < i + 1 implies (match #[trigger] spec_feedback_msg(
                            sources@[t],
                            0,
                        ) {
                            Some(m2) => exists|k: int|
                                out0.len() <= k < self.feedback_out@.len()
                                    && self.feedback_out@[k] == m2,
                            None => true,
                        }) by {
                            if t < i {
                                match spec_feedback_msg(sources@[t], 0) {
                                    Some(m2) => {
                                        let w = choose|w: int|
                                            out0.len() <= w < before.len() && before[w] == m2;
                                        assert(self.feedback_out@[w] == m2);
                                    },
                                    None => {},
                                }
                            } else {
                                assert(spec_feedback_msg(sources@[t], 0) == Some(m));
                            }
                        }
                    }
                },
                None => {},
            }
            i += 1;
        }
    }

    /// Installs a new mapping set for a compartment: activation is
    /// refreshed against the current parameters on the way in, the
    /// feedback subscription set of the compartment is rebuilt from
    /// scratch, and the sources that fell out of feedback use are answered
    /// back so that the caller can reset them — each exactly once, and
    /// none that the new set still feeds back, as
    /// [`spec_unused_sources_ok`] says.
    pub fn update_all_mappings(
        &mut self,
        compartment: Compartment,
        new_mappings: Vec<MainProcessorMapping>,
    ) -> (unused_sources: Vec<MidiSource>)
        ensures
            spec_unused_sources_ok(
                old(self).spec_mappings(compartment),
                final (self).spec_mappings(compartment),
                unused_sources@,
            ),
            final (self).spec_mappings(compartment).len() == new_mappings@.len(),
            forall|i: int|
                0 <= i < new_mappings@.len() ==> spec_refreshed_against(
                    new_mappings@[i],
                    #[trigger] final (self).spec_mappings(compartment)[i],
                    old(self).spec_parameters(),
                ),
            (match compartment {
                Compartment::Controller => final (self).spec_mappings(Compartment::Main) == old(self).spec_mappings(Compartment::Main),
                Compartment::Main => final (self).spec_mappings(Compartment::Controller) == old(self).spec_mappings(Compartment::Controller),
            }),
            final (self).spec_parameters() == old(self).spec_parameters(),
            final (self).spec_feedback_out() == old(self).spec_feedback_out(),
            final (self).spec_feedback_is_globally_enabled() == old(self).spec_feedback_is_globally_enabled(),
            final (self).spec_pending_feedback().len() == 0,
            forall|id: MappingId|
                #[trigger] final (self).spec_subscriptions(compartment).contains(id) <==> exists|
                    i: int,
                |
                    0 <= i < final (self).spec_mappings(compartment).len() && #[trigger] final (self).spec_mappings(compartment)[i].spec_feedback_is_effectively_on() && final (self).spec_mappings(compartment)[i].spec_id() == id,
    {
        let mut refreshed = new_mappings;
        let ghost originals = refreshed@;
        let ghost n_new = refreshed@.len();
        let mut i: usize = 0;
        while i < refreshed.len()
            invariant
                i <= refreshed@.len(),
                refreshed@.len() == n_new,
                originals.len() == n_new,
                self.parameters@ == old(self).spec_parameters(),
                forall|j: int|
                    0 <= j < i ==> spec_refreshed_against(
                        originals[j],
                        #[trigger] refreshed@[j],
                        old(self).spec_parameters(),
                    ),
                forall|j: int| i <= j < n_new ==> refreshed@[j] == originals[j],
            decreases refreshed@.len() - i,
        {
            let m = &mut refreshed[i];
            m.refresh_activation(&self.parameters);
            i += 1;
        }
        let unused_sources = match compartment {
            Compartment::Controller => compute_unused_sources(
                &self.controller_mappings,
                &refreshed,
            ),
            Compartment::Main => compute_unused_sources(&self.main_mappings, &refreshed),
        };
        let subscriptions = build_subscriptions(&refreshed);
        match compartment {
            Compartment::Controller => {
                self.controller_mappings = refreshed;
                self.feedback_subscriptions_controller = subscriptions;
            },
            Compartment::Main => {
                self.main_mappings = refreshed;
                self.feedback_subscriptions_main = subscriptions;
            },
        }
        self.feedback_buffer.reset();
        unused_sources
    }

    /// Looks a mapping up by id and routes one control task through it.
    /// A task whose mapping is gone is a recoverable no-op; a deferred
    /// instruction from the target is handed back.
    pub fn process_control_task(
        &mut self,
        task: ControlMainTask,
        now_millis: u64,
        context: &mut TargetContext,
    ) -> (r: Option<HitInstruction>)
        ensures
            final (self).spec_parameters() == old(self).spec_parameters(),
            final (self).spec_feedback_out() == old(self).spec_feedback_out(),
            spec_control_task_applied(
                old(self).spec_mappings(task.compartment),
                final (self).spec_mappings(task.compartment),
                task,
                now_millis,
                old(context).track_volumes@,
                final (context).track_volumes@,
                r,
            ),
            (match task.compartment {
                Compartment::Controller => final (self).spec_mappings(Compartment::Main) == old(self).spec_mappings(Compartment::Main),
                Compartment::Main => final (self).spec_mappings(Compartment::Controller) == old(self).spec_mappings(Compartment::Controller),
            }),
    {
        match task.compartment {
            Compartment::Controller => control_in_list(
                &mut self.controller_mappings,
                task,
                now_millis,
                context,
            ),
            Compartment::Main => control_in_list(
                &mut self.main_mappings,
                task,
                now_millis,
                context,
            ),
        }
    }

    /// The feedback currently due: for every mapping of both compartments
    /// that owes a message, that message, in mapping order with the
    /// controller compartment first.
    pub fn feedback_all(&self, now_millis: u64, context: &TargetContext) -> (r: Vec<
        RawMidiMessage,
    >)
        ensures
            r@ == spec_feedback_batch(
                self.spec_mappings(Compartment::Controller),
                now_millis,
                context.track_volumes@,
            ) + spec_feedback_batch(
                self.spec_mappings(Compartment::Main),
                now_millis,
                context.track_volumes@,
            ),
    {
        let ghost volumes = context.track_volumes@;
        let ghost ctrl = self.controller_mappings@;
        let ghost mains = self.main_mappings@;
        let mut out: Vec<RawMidiMessage> = Vec::new();
        let mut i: usize = 0;
        let n_controller = self.controller_mappings.len();
        proof {
            assert(ctrl.subrange(0, ctrl.len() as int) =~= ctrl);
        }
        while i < n_controller
            invariant
                i <= n_controller,
                n_controller == ctrl.len(),
                ctrl == self.controller_mappings@,
                mains == self.main_mappings@,
                volumes == context.track_volumes@,
                out@ + spec_feedback_batch(
                    ctrl.subrange(i as int, ctrl.len() as int),
                    now_millis,
                    volumes,
                ) == spec_feedback_batch(ctrl, now_millis, volumes),
            decreases n_controller - i,
        {
            let ghost before = out@;
            match self.controller_mappings[i].feedback_if_enabled(now_millis, context) {
                Some(m) => {
                    out.push(m);
                    proof {
                        assert(out@ =~= before + seq![m]);
                    }
                },
                None => {},
            }
            proof {
                lemma_feedback_batch_step(ctrl, now_millis, volumes, i as int);
                assert(out@ + spec_feedback_batch(
                    ctrl.subrange(i + 1, ctrl.len() as int),
                    now_millis,
                    volumes,
                ) =~= before + spec_feedback_batch(
                    ctrl.subrange(i as int, ctrl.len() as int),
                    now_millis,
                    volumes,
                ));
            }
            i += 1;
        }
        proof {
            assert(ctrl.subrange(n_controller as int, ctrl.len() as int)
                =~= Seq::<MainProcessorMapping>::empty());
            assert(out@ =~= spec_feedback_batch(ctrl, now_millis, volumes));
            assert(mains.subrange(0, mains.len() as int) =~= mains);
        }
        let ghost out_ctrl = out@;
        let mut j: usize = 0;
        let n_main = self.main_mappings.len();
        while j < n_main
            invariant
                j <= n_main,
                n_main == mains.len(),
                ctrl == self.controller_mappings@,
                mains == self.main_mappings@,
                volumes == context.track_volumes@,
                out_ctrl == spec_feedback_batch(ctrl, now_millis, volumes),
                out@ + spec_feedback_batch(
                    mains.subrange(j as int, mains.len() as int),
                    now_millis,
                    volumes,
                ) == out_ctrl + spec_feedback_batch(mains, now_millis, volumes),
            decreases n_main - j,
        {
            let ghost before = out@;
            match self.main_mappings[j].feedback_if_enabled(now_millis, context) {
                Some(m) => {
                    out.push(m);
                    proof {
                        assert(out@ =~= before + seq![m]);
                    }
                },
                None => {},
            }
            proof {
                lemma_feedback_batch_step(mains, now_millis, volumes, j as int);
                assert(out@ + spec_feedback_batch(
                    mains.subrange(j + 1, mains.len() as int),
                    now_millis,
                    volumes,
                ) =~= before + spec_feedback_batch(
                    mains.subrange(j as int, mains.len() as int),
                    now_millis,
                    volumes,
                ));
            }
            j += 1;
        }
        proof {
            assert(mains.subrange(n_main as int, mains.len() as int)
                =~= Seq::<MainProcessorMapping>::empty());
            assert(out@ =~= out_ctrl + spec_feedback_batch(mains, now_millis, volumes));
        }
        out
    }

    /// Appends the feedback currently due for both compartments to the
    /// outgoing feedback, in mapping order.
    pub fn send_feedback_all(&mut self, now_millis: u64, context: &TargetContext)
        ensures
            final (self).spec_mappings(Compartment::Controller) == old(self).spec_mappings(
                Compartment::Controller,
            ),
            final (self).spec_mappings(Compartment::Main) == old(self).spec_mappings(
                Compartment::Main,
            ),
            final (self).spec_parameters() == old(self).spec_parameters(),
            final (self).spec_feedback_is_globally_enabled() == old(self).spec_feedback_is_globally_enabled(),
            final (self).spec_pending_feedback() == old(self).spec_pending_feedback(),
            final (self).spec_feedback_out() == old(self).spec_feedback_out()
                + spec_feedback_batch(
                old(self).spec_mappings(Compartment::Controller),
                now_millis,
                context.track_volumes@,
            ) + spec_feedback_batch(
                old(self).spec_mappings(Compartment::Main),
                now_millis,
                context.track_volumes@,
            ),
    {
        let messages = self.feedback_all(now_millis, context);
        let ghost msgs = messages@;
        let mut i: usize = 0;
        let n = messages.len();
        let ghost out0 = self.feedback_out@;
        while i < n
            invariant
                i <= n,
                n == msgs.len(),
                msgs == messages@,
                self.controller_mappings@ == old(self).spec_mappings(Compartment::Controller),
                self.main_mappings@ == old(self).spec_mappings(Compartment::Main),
                self.parameters@ == old(self).spec_parameters(),
                self.feedback_is_globally_enabled == old(
                    self,
                ).spec_feedback_is_globally_enabled(),
                self.feedback_buffer.spec_pending() == old(self).spec_pending_feedback(),
                out0 == old(self).spec_feedback_out(),
                self.feedback_out@ == out0 + msgs.subrange(0, i as int),
            decreases n - i,
        {
            self.feedback_out.push(messages[i]);
            proof {
                assert(out0 + msgs.subrange(0, i + 1) =~= (out0 + msgs.subrange(0, i as int)).push(
                    msgs[i as int],
                ));
            }
            i += 1;
        }
        proof {
            assert(msgs.subrange(0, n as int) =~= msgs);
            assert(self.feedback_out@ =~= out0 + msgs);
        }
    }

    /// Updates one parameter and recomputes activation for the mappings of
    /// the main compartment that read it, with the read-then-write split:
    /// the affected mappings are gathered first, then updated. The
    /// returned pairs say which mappings changed activation and to what.
    pub fn update_parameter(&mut self, index: usize, value: u32) -> (updates: Vec<
        (MappingId, bool),
    >)
        ensures
            index < old(self).spec_parameters().len() ==> final (self).spec_parameters() == old(self).spec_parameters().update(index as int, value),
            index >= old(self).spec_parameters().len() ==> *final (self) == *old(self),
            final (self).spec_mappings(Compartment::Controller) == old(self).spec_mappings(
                Compartment::Controller,
            ),
            final (self).spec_mappings(Compartment::Main).len() == old(self).spec_mappings(
                Compartment::Main,
            ).len(),
            final (self).spec_feedback_out() == old(self).spec_feedback_out(),
            final (self).spec_feedback_is_globally_enabled() == old(self).spec_feedback_is_globally_enabled(),
            final (self).spec_pending_feedback() == old(self).spec_pending_feedback(),
            index < old(self).spec_parameters().len() ==> forall|i: int|
                0 <= i < old(self).spec_mappings(Compartment::Main).len() ==> {
                    let old_m = #[trigger] old(self).spec_mappings(Compartment::Main)[i];
                    let new_m = final (self).spec_mappings(Compartment::Main)[i];
                    if spec_affected_by_parameter(old_m.spec_activation_condition(), index as int) {
                        spec_refreshed_against(old_m, new_m, final (self).spec_parameters())
                    } else {
                        new_m == old_m
                    }
                },
    {
        if index >= self.parameters.len() {
            return Vec::new();
        }
        self.parameters.set(index, value);
        let ghost mains0 = self.main_mappings@;
        let ghost new_params = self.parameters@;
        // Read: gather which mappings a change of this parameter affects.
        let mut affected: Vec<usize> = Vec::new();
        let mut i: usize = 0;
        let n = self.main_mappings.len();
        while i < n
            invariant
                i <= n,
                n == self.main_mappings@.len(),
                self.main_mappings@ == mains0,
                self.parameters@ == new_params,
                self.controller_mappings@ == old(self).spec_mappings(Compartment::Controller),
                self.feedback_out@ == old(self).spec_feedback_out(),
                self.feedback_is_globally_enabled == old(
                    self,
                ).spec_feedback_is_globally_enabled(),
                self.feedback_buffer.spec_pending() == old(self).spec_pending_feedback(),
                forall|k: int|
                    0 <= k < affected@.len() ==> #[trigger] affected@[k] < n
                        && spec_affected_by_parameter(
                        mains0[affected@[k] as int].spec_activation_condition(),
                        index as int,
                    ),
                forall|j: int|
                    0 <= j < i && spec_affected_by_parameter(
                        mains0[j].spec_activation_condition(),
                        index as int,
                    ) ==> affected@.contains(j as usize),
                forall|a: int, b: int| 0 <= a < b < affected@.len() ==> affected@[a] < affected@[b],
                forall|k: int| 0 <= k < affected@.len() ==> i > affected@[k],
            decreases n - i,
        {
            if self.main_mappings[i].can_be_affected_by_parameter(index) {
                let ghost before = affected@;
                affected.push(i);
                proof {
                    assert(affected@[affected@.len() - 1] == i);
                    assert forall|j: int|
                        0 <= j < i + 1 && spec_affected_by_parameter(
                            mains0[j].spec_activation_condition(),
                            index as int,
                        ) implies affected@.contains(j as usize) by {
                        if j < i {
                            let w = choose|w: int|
                                0 <= w < before.len() && before[w] == j as usize;
                            assert(affected@[w] == j as usize);
                        } else {
                            assert(affected@[affected@.len() - 1] == j as usize);
                        }
                    }
                }
            } else {
                proof {
                    assert forall|j: int|
                        0 <= j < i + 1 && spec_affected_by_parameter(
                            mains0[j].spec_activation_condition(),
                            index as int,
                        ) implies affected@.contains(j as usize) by {
                    }
                }
            }
            i += 1;
        }
        // Write: refresh the gathered mappings and collect the updates.
        let mut updates: Vec<(MappingId, bool)> = Vec::new();
        let mut j: usize = 0;
        let n_affected = affected.len();
        while j < n_affected
            invariant
                j <= n_affected,
                n_affected == affected@.len(),
                self.main_mappings@.len() == n,
                n == mains0.len(),
                self.controller_mappings@ == old(self).spec_mappings(Compartment::Controller),
                self.parameters@ == new_params,
                self.feedback_out@ == old(self).spec_feedback_out(),
                self.feedback_is_globally_enabled == old(
                    self,
                ).spec_feedback_is_globally_enabled(),
                self.feedback_buffer.spec_pending() == old(self).spec_pending_feedback(),
                forall|k: int|
                    0 <= k < affected@.len() ==> #[trigger] affected@[k] < n
                        && spec_affected_by_parameter(
                        mains0[affected@[k] as int].spec_activation_condition(),
                        index as int,
                    ),
                forall|jj: int|
                    0 <= jj < n && spec_affected_by_parameter(
                        mains0[jj].spec_activation_condition(),
                        index as int,
                    ) ==> affected@.contains(jj as usize),
                forall|a: int, b: int| 0 <= a < b < affected@.len() ==> affected@[a] < affected@[b],
                forall|k: int|
                    0 <= k < j ==> spec_refreshed_against(
                        mains0[affected@[k] as int],
                        #[trigger] self.main_mappings@[affected@[k] as int],
                        new_params,
                    ),
                forall|idx: int|
                    0 <= idx < n && !affected@.contains(idx as usize)
                        ==> #[trigger] self.main_mappings@[idx] == mains0[idx],
                forall|k: int|
                    j <= k < affected@.len() ==> #[trigger] self.main_mappings@[affected@[
                        k
                    ] as int] == mains0[affected@[k] as int],
            decreases n_affected - j,
        {
            let idx = affected[j];
            let ghost before_list = self.main_mappings@;
            let m = &mut self.main_mappings[idx];
            let was_active = m.is_active();
            m.refresh_activation(&self.parameters);
            let is_active = m.is_active();
            if was_active != is_active {
                updates.push((m.id(), is_active));
            }
            proof {
                assert forall|k: int|
                    0 <= k < j + 1 implies spec_refreshed_against(
                    mains0[affected@[k] as int],
                    #[trigger] self.main_mappings@[affected@[k] as int],
                    new_params,
                ) by {
                    if k < j {
                        assert(affected@[k] < affected@[j as int]);
                        assert(self.main_mappings@[affected@[k] as int] == before_list[affected@[
                            k
                        ] as int]);
                    }
                }
            }
            j += 1;
        }
        proof {
            assert forall|i2: int|
                0 <= i2 < mains0.len() implies {
                let old_m = #[trigger] mains0[i2];
                let new_m = self.main_mappings@[i2];
                if spec_affected_by_parameter(old_m.spec_activation_condition(), index as int) {
                    spec_refreshed_against(old_m, new_m, new_params)
                } else {
                    new_m == old_m
                }
            } by {
                if spec_affected_by_parameter(mains0[i2].spec_activation_condition(), index as int)
                 {
                    assert(affected@.contains(i2 as usize));
                    let w = choose|w: int|
                        0 <= w < affected@.len() && affected@[w] == i2 as usize;
                    assert(spec_refreshed_against(
                        mains0[affected@[w] as int],
                        self.main_mappings@[affected@[w] as int],
                        new_params,
                    ));
                } else {
                    if affected@.contains(i2 as usize) {
                        let w = choose|w: int|
                            0 <= w < affected@.len() && affected@[w] == i2 as usize;
                    }
                }
            }
        }
        updates
    }

    pub fn set_feedback_is_globally_enabled(&mut self, enabled: bool)
        ensures
            final (self).spec_feedback_is_globally_enabled() == enabled,
            final (self).spec_mappings(Compartment::Controller) == old(self).spec_mappings(
                Compartment::Controller,
            ),
            final (self).spec_mappings(Compartment::Main) == old(self).spec_mappings(
                Compartment::Main,
            ),
            final (self).spec_feedback_out() == old(self).spec_feedback_out(),
            final (self).spec_parameters() == old(self).spec_parameters(),
            final (self).spec_pending_feedback() == old(self).spec_pending_feedback(),
    {
        self.feedback_is_globally_enabled = enabled;
    }

    pub fn feedback_is_globally_enabled(&self) -> (r: bool)
        ensures
            r == self.spec_feedback_is_globally_enabled(),
    {
        self.feedback_is_globally_enabled
    }

    /// Notes that feedback for a mapping is due; flushed on the next
    /// buffer poll.
    pub fn buffer_feedback(&mut self, task: FeedbackMainTask)
        ensures
            final (self).spec_mappings(Compartment::Controller) == old(self).spec_mappings(
                Compartment::Controller,
            ),
            final (self).spec_mappings(Compartment::Main) == old(self).spec_mappings(
                Compartment::Main,
            ),
            final (self).spec_feedback_out() == old(self).spec_feedback_out(),
            final (self).spec_parameters() == old(self).spec_parameters(),
            final (self).spec_feedback_is_globally_enabled() == old(self).spec_feedback_is_globally_enabled(),
            final (self).spec_pending_feedback().contains(task),
            forall|t: FeedbackMainTask|
                #[trigger] old(self).spec_pending_feedback().contains(t) ==> final (self).spec_pending_feedback().contains(t),
    {
        self.feedback_buffer.buffer_feedback_for_mapping(task);
    }

    /// Flushes the feedback buffer exactly when its interval has passed
    /// and feedback is globally on: the buffered mappings' due feedback
    /// goes to the outgoing queue in buffer order and the buffer empties.
    /// Nothing happens otherwise.
    pub fn poll_feedback_buffer(&mut self, now_millis: u64, context: &TargetContext)
        ensures
            !old(self).spec_feedback_is_globally_enabled() ==> *final (self) == *old(self),
            (old(self).spec_feedback_is_globally_enabled() && !old(self).spec_feedback_flush_due(
                now_millis,
            )) ==> *final (self) == *old(self),
            (old(self).spec_feedback_is_globally_enabled() && old(self).spec_feedback_flush_due(
                now_millis,
            )) ==> {
                &&& final (self).spec_pending_feedback().len() == 0
                &&& final (self).spec_feedback_out() == old(self).spec_feedback_out()
                    + spec_flush_batch(
                    old(self).spec_pending_feedback(),
                    old(self).spec_mappings(Compartment::Controller),
                    old(self).spec_mappings(Compartment::Main),
                    now_millis,
                    context.track_volumes@,
                )
            },
            final (self).spec_mappings(Compartment::Controller) == old(self).spec_mappings(
                Compartment::Controller,
            ),
            final (self).spec_mappings(Compartment::Main) == old(self).spec_mappings(
                Compartment::Main,
            ),
            final (self).spec_parameters() == old(self).spec_parameters(),
            final (self).spec_feedback_is_globally_enabled() == old(self).spec_feedback_is_globally_enabled(),
    {
        if !self.feedback_is_globally_enabled {
            return ;
        }
        let flushed = self.feedback_buffer.poll(now_millis);
        let tasks = match flushed {
            Some(tasks) => tasks,
            None => {
                return ;
            },
        };
        let ghost all = tasks@;
        let ghost out0 = self.feedback_out@;
        let ghost ctrl = self.controller_mappings@;
        let ghost mains = self.main_mappings@;
        let ghost volumes = context.track_volumes@;
        let mut i: usize = 0;
        let total = tasks.len();
        proof {
            assert(all.subrange(0, all.len() as int) =~= all);
        }
        while i < total
            invariant
                i <= total,
                total == all.len(),
                tasks@ == all,
                self.controller_mappings@ == ctrl,
                self.main_mappings@ == mains,
                ctrl == old(self).spec_mappings(Compartment::Controller),
                mains == old(self).spec_mappings(Compartment::Main),
                self.parameters@ == old(self).spec_parameters(),
                self.feedback_is_globally_enabled == old(self).spec_feedback_is_globally_enabled(),
                self.feedback_buffer.spec_pending().len() == 0,
                volumes == context.track_volumes@,
                out0 == old(self).spec_feedback_out(),
                self.feedback_out@ + spec_flush_batch(
                    all.subrange(i as int, all.len() as int),
                    ctrl,
                    mains,
                    now_millis,
                    volumes,
                ) == out0 + spec_flush_batch(all, ctrl, mains, now_millis, volumes),
            decreases total - i,
        {
            let task = tasks[i];
            let ghost before = self.feedback_out@;
            let message = self.feedback_for_mapping(task, now_millis, context);
            match message {
                Some(m) => {
                    self.feedback_out.push(m);
                },
                None => {},
            }
            proof {
                lemma_flush_batch_step(all, ctrl, mains, now_millis, volumes, i as int);
                match message {
                    Some(m) => {
                        assert(self.feedback_out@ =~= before + seq![m]);
                        assert(self.feedback_out@ + spec_flush_batch(
                            all.subrange(i + 1, all.len() as int),
                            ctrl,
                            mains,
                            now_millis,
                            volumes,
                        ) =~= before + spec_flush_batch(
                            all.subrange(i as int, all.len() as int),
                            ctrl,
                            mains,
                            now_millis,
                            volumes,
                        ));
                    },
                    None => {
                        assert(self.feedback_out@ + spec_flush_batch(
                            all.subrange(i + 1, all.len() as int),
                            ctrl,
                            mains,
                            now_millis,
                            volumes,
                        ) =~= before + spec_flush_batch(
                            all.subrange(i as int, all.len() as int),
                            ctrl,
                            mains,
                            now_millis,
                            volumes,
                        ));
                    },
                }
            }
            i += 1;
        }
        proof {
            assert(all.subrange(total as int, all.len() as int)
                =~= Seq::<FeedbackMainTask>::empty());
            assert(self.feedback_out@ =~= out0 + spec_flush_batch(
                all,
                ctrl,
                mains,
                now_millis,
                volumes,
            ));
        }
    }

    /// The feedback currently due for one mapping, by id: the first
    /// mapping with the task's id answers; a stale id owes nothing.
    fn feedback_for_mapping(
        &self,
        task: FeedbackMainTask,
        now_millis: u64,
        context: &TargetContext,
    ) -> (r: Option<RawMidiMessage>)
        ensures
            r == spec_task_feedback(
                self.spec_mappings(task.compartment),
                task.mapping_id,
                now_millis,
                context.track_volumes@,
            ),
    {
        let mappings = match task.compartment {
            Compartment::Controller => &self.controller_mappings,
            Compartment::Main => &self.main_mappings,
        };
        let ghost ms = mappings@;
        proof {
            assert(ms.subrange(0, ms.len() as int) =~= ms);
        }
        let mut i: usize = 0;
        while i < mappings.len()
            invariant
                i <= ms.len(),
                mappings@ == ms,
                ms == self.spec_mappings(task.compartment),
                spec_task_feedback(ms, task.mapping_id, now_millis, context.track_volumes@)
                    == spec_task_feedback(
                    ms.subrange(i as int, ms.len() as int),
                    task.mapping_id,
                    now_millis,
                    context.track_volumes@,
                ),
            decreases ms.len() - i,
        {
            let ghost tail = ms.subrange(i as int, ms.len() as int);
            proof {
                assert(tail[0] == ms[i as int]);
                assert(tail.subrange(1, tail.len() as int) =~= ms.subrange(
                    i + 1,
                    ms.len() as int,
                ));
            }
            if mappings[i].id() == task.mapping_id {
                return mappings[i].feedback_if_enabled(now_millis, context);
            }
            i += 1;
        }
        proof {
            assert(ms.subrange(ms.len() as int, ms.len() as int)
                =~= Seq::<MainProcessorMapping>::empty());
        }
        None
    }

    /// One full processing pass: the essential part and then control, as
    /// the regular cycle does it. During global target learning the caller
    /// runs only the essential part, so that controlling pauses.
    pub fn run_all(
        &mut self,
        normal_tasks: Vec<NormalMainTask>,
        parameter_tasks: Vec<ParameterMainTask>,
        control_tasks: Vec<ControlMainTask>,
        feedback_tasks: Vec<FeedbackMainTask>,
        now_millis: u64,
        context: &mut TargetContext,
    ) -> (instructions: Vec<HitInstruction>)
        ensures
            exists|mid: MainProcessor|
                #![trigger spec_state_witness(mid)]
                {
                    &&& spec_state_witness(mid)
                    &&& spec_essential_pass(
                        *old(self),
                        mid,
                        normal_tasks@,
                        parameter_tasks@,
                        feedback_tasks@,
                        now_millis,
                        old(context).track_volumes@,
                    )
                    &&& spec_control_chain(
                        mid,
                        *final (self),
                        control_tasks@,
                        now_millis,
                        old(context).track_volumes@,
                        final (context).track_volumes@,
                        instructions@,
                    )
                },
    {
        self.run_essential(normal_tasks, parameter_tasks, feedback_tasks, now_millis, context);
        let ghost mid = *self;
        let instructions = self.run_control(control_tasks, now_millis, context);
        proof {
            assert(spec_state_witness(mid));
        }
        instructions
    }

    /// The essential part of one processing pass: structural tasks first,
    /// then parameter tasks, then feedback buffering and the buffer poll —
    /// so that later work in the same pass never runs against a stale
    /// mapping set. Each batch is drained up to the bulk size by the
    /// caller, who owns the channel ends.
    pub fn run_essential(
        &mut self,
        normal_tasks: Vec<NormalMainTask>,
        parameter_tasks: Vec<ParameterMainTask>,
        feedback_tasks: Vec<FeedbackMainTask>,
        now_millis: u64,
        context: &mut TargetContext,
    )
        ensures
            spec_essential_pass(
                *old(self),
                *final (self),
                normal_tasks@,
                parameter_tasks@,
                feedback_tasks@,
                now_millis,
                old(context).track_volumes@,
            ),
            final (context).track_volumes@ == old(context).track_volumes@,
    {
        let ghost volumes = context.track_volumes@;
        let ghost norm = normal_tasks@;
        let mut normal_remaining = normal_tasks;
        let mut i: usize = 0;
        let n_normal = normal_remaining.len();
        proof {
            assert(norm.subrange(0, 0) =~= Seq::<NormalMainTask>::empty());
        }
        while i < n_normal
            invariant
                i <= n_normal,
                n_normal == norm.len(),
                normal_remaining@ == norm.subrange(i as int, norm.len() as int),
                volumes == context.track_volumes@,
                spec_normal_chain(*old(self), *self, norm.subrange(0, i as int), now_millis, volumes),
            decreases n_normal - i,
        {
            let ghost pre_iter = *self;
            let task = normal_remaining.remove(0);
            proof {
                assert(norm.subrange(i as int, norm.len() as int)[0] == norm[i as int]);
                assert(normal_remaining@ =~= norm.subrange(i + 1, norm.len() as int));
            }
            match task {
                NormalMainTask::UpdateAllMappings { compartment, mappings } => {
                    let ghost new_views = mappings@;
                    let unused = self.update_all_mappings(compartment, mappings);
                    let ghost s1 = *self;
                    if self.feedback_is_globally_enabled() {
                        self.send_source_resets(&unused);
                        let ghost s2 = *self;
                        self.send_feedback_all(now_millis, context);
                        proof {
                            assert(spec_reset_witness(s1, s2, unused@));
                            assert(spec_update_all_applied(
                                pre_iter,
                                s1,
                                compartment,
                                new_views,
                                unused@,
                            ));
                            assert(spec_resets_appended(s1, s2, unused@));
                            assert(spec_feedback_all_appended(s2, *self, now_millis, volumes));
                        }
                    } else {
                        proof {
                            assert(spec_reset_witness(s1, s1, unused@));
                            assert(spec_update_all_applied(
                                pre_iter,
                                s1,
                                compartment,
                                new_views,
                                unused@,
                            ));
                        }
                    }
                    proof {
                        assert(spec_normal_step(pre_iter, *self, norm[i as int], now_millis, volumes));
                    }
                },
                NormalMainTask::UpdateSingleMapping { compartment, mapping } => {
                    let unused = self.update_single_mapping(compartment, mapping);
                    let ghost s1 = *self;
                    if self.feedback_is_globally_enabled() {
                        self.send_source_resets(&unused);
                        proof {
                            assert(spec_reset_witness(s1, *self, unused@));
                            assert(spec_update_single_applied(pre_iter, s1, compartment, unused@));
                            assert(spec_resets_appended(s1, *self, unused@));
                        }
                    } else {
                        proof {
                            assert(spec_reset_witness(s1, s1, unused@));
                            assert(spec_update_single_applied(pre_iter, s1, compartment, unused@));
                        }
                    }
                    proof {
                        assert(spec_normal_step(pre_iter, *self, norm[i as int], now_millis, volumes));
                    }
                },
                NormalMainTask::UpdateFeedbackIsGloballyEnabled { enabled } => {
                    self.set_feedback_is_globally_enabled(enabled);
                    let ghost s1 = *self;
                    if enabled {
                        self.send_feedback_all(now_millis, context);
                        proof {
                            assert(spec_reset_witness(s1, *self, Seq::<MidiSource>::empty()));
                            assert(spec_feedback_all_appended(s1, *self, now_millis, volumes));
                        }
                    } else {
                        let resets = self.all_feedback_sources();
                        self.send_source_resets(&resets);
                        let ghost s2 = *self;
                        self.feedback_buffer.reset();
                        proof {
                            assert(spec_reset_witness(s1, s2, resets@));
                            assert(spec_resets_appended(s1, s2, resets@));
                        }
                    }
                    proof {
                        assert(spec_normal_step(pre_iter, *self, norm[i as int], now_millis, volumes));
                    }
                },
                NormalMainTask::FeedbackAll => {
                    if self.feedback_is_globally_enabled() {
                        self.send_feedback_all(now_millis, context);
                    }
                    proof {
                        assert(spec_normal_step(pre_iter, *self, norm[i as int], now_millis, volumes));
                    }
                },
            }
            proof {
                lemma_normal_chain_extend(
                    *old(self),
                    pre_iter,
                    *self,
                    norm.subrange(0, i as int),
                    norm[i as int],
                    now_millis,
                    volumes,
                );
                assert(norm.subrange(0, i as int).push(norm[i as int]) =~= norm.subrange(
                    0,
                    i + 1,
                ));
            }
            i += 1;
        }
        proof {
            assert(norm.subrange(0, n_normal as int) =~= norm);
        }
        let ghost s1_state = *self;
        let ghost params = parameter_tasks@;
        let mut parameter_remaining = parameter_tasks;
        let mut j: usize = 0;
        let n_param = parameter_remaining.len();
        proof {
            assert(params.subrange(0, 0) =~= Seq::<ParameterMainTask>::empty());
        }
        while j < n_param
            invariant
                j <= n_param,
                n_param == params.len(),
                parameter_remaining@ == params.subrange(j as int, params.len() as int),
                volumes == context.track_volumes@,
                spec_parameter_chain(s1_state, *self, params.subrange(0, j as int)),
            decreases n_param - j,
        {
            let ghost pre_iter = *self;
            let task = parameter_remaining.remove(0);
            proof {
                assert(params.subrange(j as int, params.len() as int)[0] == params[j as int]);
                assert(parameter_remaining@ =~= params.subrange(j + 1, params.len() as int));
            }
            match task {
                ParameterMainTask::UpdateParameter { index, value } => {
                    let _ = self.update_parameter(index, value);
                    proof {
                        assert(spec_parameter_applied(pre_iter, *self, index as int, value));
                        assert(spec_parameter_step(pre_iter, *self, params[j as int]));
                    }
                },
                ParameterMainTask::UpdateAllParameters { values } => {
                    let ghost vals = values@;
                    let mut idx: usize = 0;
                    let n = values.len();
                    while idx < n
                        invariant
                            idx <= n,
                            n == vals.len(),
                            values@ == vals,
                            volumes == context.track_volumes@,
                            spec_parameters_bulk_applied(pre_iter, *self, vals, idx as int),
                        decreases n - idx,
                    {
                        let ghost mid = *self;
                        let _ = self.update_parameter(idx, values[idx]);
                        proof {
                            assert(spec_state_witness(mid));
                            assert(spec_parameter_applied(mid, *self, idx as int, vals[idx as int]));
                            assert(spec_parameters_bulk_applied(pre_iter, *self, vals, idx + 1));
                        }
                        idx += 1;
                    }
                    proof {
                        assert(spec_parameter_step(pre_iter, *self, params[j as int]));
                    }
                },
            }
            proof {
                lemma_parameter_chain_extend(
                    s1_state,
                    pre_iter,
                    *self,
                    params.subrange(0, j as int),
                    params[j as int],
                );
                assert(params.subrange(0, j as int).push(params[j as int]) =~= params.subrange(
                    0,
                    j + 1,
                ));
            }
            j += 1;
        }
        proof {
            assert(params.subrange(0, n_param as int) =~= params);
        }
        let ghost s2_state = *self;
        let ghost fbs = feedback_tasks@;
        let mut feedback_remaining = feedback_tasks;
        let mut k: usize = 0;
        let n_fb = feedback_remaining.len();
        while k < n_fb
            invariant
                k <= n_fb,
                n_fb == fbs.len(),
                feedback_remaining@ == fbs.subrange(k as int, fbs.len() as int),
                volumes == context.track_volumes@,
                spec_feedback_tasks_buffered(s2_state, *self, fbs.subrange(0, k as int)),
            decreases n_fb - k,
        {
            let ghost pre_iter = *self;
            let task = feedback_remaining.remove(0);
            proof {
                assert(fbs.subrange(k as int, fbs.len() as int)[0] == fbs[k as int]);
                assert(feedback_remaining@ =~= fbs.subrange(k + 1, fbs.len() as int));
            }
            self.buffer_feedback(task);
            proof {
                assert forall|w: int|
                    0 <= w < k + 1 implies self.spec_pending_feedback().contains(
                    #[trigger] fbs.subrange(0, k + 1)[w],
                ) by {
                    if w < k {
                        assert(fbs.subrange(0, k as int)[w] == fbs.subrange(0, k + 1)[w]);
                        assert(pre_iter.spec_pending_feedback().contains(
                            fbs.subrange(0, k as int)[w],
                        ));
                    } else {
                        assert(fbs.subrange(0, k + 1)[w] == fbs[k as int]);
                    }
                }
            }
            k += 1;
        }
        proof {
            assert(fbs.subrange(0, n_fb as int) =~= fbs);
        }
        let ghost s3_state = *self;
        self.poll_feedback_buffer(now_millis, context);
        proof {
            assert(spec_state_witness(s1_state));
            assert(spec_state_witness(s2_state));
            assert(spec_state_witness(s3_state));
            assert(spec_poll_applied(s3_state, *self, now_millis, volumes));
        }
    }

    /// The control part of one processing pass: routes a batch of control
    /// tasks through their mappings and hands back any deferred
    /// instructions. Not run while targets are being learned globally,
    /// because controlling must pause then.
    pub fn run_control(
        &mut self,
        control_tasks: Vec<ControlMainTask>,
        now_millis: u64,
        context: &mut TargetContext,
    ) -> (instructions: Vec<HitInstruction>)
        ensures
            spec_control_chain(
                *old(self),
                *final (self),
                control_tasks@,
                now_millis,
                old(context).track_volumes@,
                final (context).track_volumes@,
                instructions@,
            ),
            final (self).spec_parameters() == old(self).spec_parameters(),
            final (self).spec_feedback_out() == old(self).spec_feedback_out(),
            final (self).spec_mappings(Compartment::Controller).len() == old(self).spec_mappings(
                Compartment::Controller,
            ).len(),
            final (self).spec_mappings(Compartment::Main).len() == old(self).spec_mappings(
                Compartment::Main,
            ).len(),
    {
        let ghost orig = control_tasks@;
        let mut instructions: Vec<HitInstruction> = Vec::new();
        let mut control_remaining = control_tasks;
        let mut i: usize = 0;
        let total = control_remaining.len();
        proof {
            assert(orig.subrange(0, 0) =~= Seq::<ControlMainTask>::empty());
        }
        while i < total
            invariant
                i <= total,
                total == orig.len(),
                control_remaining@ == orig.subrange(i as int, orig.len() as int),
                spec_control_chain(
                    *old(self),
                    *self,
                    orig.subrange(0, i as int),
                    now_millis,
                    old(context).track_volumes@,
                    context.track_volumes@,
                    instructions@,
                ),
                self.spec_parameters() == old(self).spec_parameters(),
                self.spec_feedback_out() == old(self).spec_feedback_out(),
                self.spec_mappings(Compartment::Controller).len() == old(self).spec_mappings(
                    Compartment::Controller,
                ).len(),
                self.spec_mappings(Compartment::Main).len() == old(self).spec_mappings(
                    Compartment::Main,
                ).len(),
            decreases total - i,
        {
            let ghost pre_iter = *self;
            let ghost vol_iter = context.track_volumes@;
            let ghost instr_iter = instructions@;
            let task = control_remaining.remove(0);
            proof {
                assert(orig.subrange(i as int, orig.len() as int)[0] == orig[i as int]);
                assert(control_remaining@ =~= orig.subrange(i + 1, orig.len() as int));
            }
            let r = self.process_control_task(task, now_millis, context);
            match r {
                Some(instruction) => {
                    instructions.push(instruction);
                },
                None => {},
            }
            proof {
                assert(spec_control_step(
                    pre_iter,
                    *self,
                    orig[i as int],
                    now_millis,
                    vol_iter,
                    context.track_volumes@,
                    r,
                ));
                lemma_control_chain_extend(
                    *old(self),
                    pre_iter,
                    *self,
                    orig.subrange(0, i as int),
                    orig[i as int],
                    now_millis,
                    old(context).track_volumes@,
                    vol_iter,
                    context.track_volumes@,
                    instr_iter,
                    r,
                );
                assert(orig.subrange(0, i as int).push(orig[i as int]) =~= orig.subrange(
                    0,
                    i + 1,
                ));
                assert(instructions@ =~= instr_iter + spec_step_instructions(r));
            }
            i += 1;
        }
        proof {
            assert(orig.subrange(0, total as int) =~= orig);
        }
        instructions
    }

    /// The sources of every mapping that takes part in feedback, in
    /// mapping order with the controller compartment first, for the
    /// all-off reset when global feedback turns off.
    fn all_feedback_sources(&self) -> (r: Vec<MidiSource>)
        ensures
            r@ == spec_feedback_sources(self.spec_mappings(Compartment::Controller))
                + spec_feedback_sources(self.spec_mappings(Compartment::Main)),
    {
        let ghost ctrl = self.controller_mappings@;
        let ghost mains = self.main_mappings@;
        let mut out: Vec<MidiSource> = Vec::new();
        let mut i: usize = 0;
        let n_controller = self.controller_mappings.len();
        proof {
            assert(ctrl.subrange(0, ctrl.len() as int) =~= ctrl);
        }
        while i < n_controller
            invariant
                i <= n_controller,
                n_controller == ctrl.len(),
                ctrl == self.controller_mappings@,
                mains == self.main_mappings@,
                out@ + spec_feedback_sources(ctrl.subrange(i as int, ctrl.len() as int))
                    == spec_feedback_sources(ctrl),
            decreases n_controller - i,
        {
            let ghost before = out@;
            if self.controller_mappings[i].feedback_is_effectively_on() {
                out.push(*self.controller_mappings[i].source());
                proof {
                    assert(out@ =~= before + seq![ctrl[i as int].spec_source()]);
                }
            }
            proof {
                lemma_feedback_sources_step(ctrl, i as int);
                assert(out@ + spec_feedback_sources(ctrl.subrange(i + 1, ctrl.len() as int))
                    =~= before + spec_feedback_sources(ctrl.subrange(i as int, ctrl.len() as int)));
            }
            i += 1;
        }
        proof {
            assert(ctrl.subrange(n_controller as int, ctrl.len() as int)
                =~= Seq::<MainProcessorMapping>::empty());
            assert(out@ =~= spec_feedback_sources(ctrl));
            assert(mains.subrange(0, mains.len() as int) =~= mains);
        }
        let ghost out_ctrl = out@;
        let mut j: usize = 0;
        let n_main = self.main_mappings.len();
        while j < n_main
            invariant
                j <= n_main,
                n_main == mains.len(),
                mains == self.main_mappings@,
                out_ctrl == spec_feedback_sources(ctrl),
                ctrl == self.controller_mappings@,
                out@ + spec_feedback_sources(mains.subrange(j as int, mains.len() as int))
                    == out_ctrl + spec_feedback_sources(mains),
            decreases n_main - j,
        {
            let ghost before = out@;
            if self.main_mappings[j].feedback_is_effectively_on() {
                out.push(*self.main_mappings[j].source());
                proof {
                    assert(out@ =~= before + seq![mains[j as int].spec_source()]);
                }
            }
            proof {
                lemma_feedback_sources_step(mains, j as int);
                assert(out@ + spec_feedback_sources(mains.subrange(j + 1, mains.len() as int))
                    =~= before + spec_feedback_sources(
                    mains.subrange(j as int, mains.len() as int),
                ));
            }
            j += 1;
        }
        proof {
            assert(mains.subrange(n_main as int, mains.len() as int)
                =~= Seq::<MainProcessorMapping>::empty());
            assert(out@ =~= out_ctrl + spec_feedback_sources(mains));
        }
        out
    }

    /// Replaces the mapping with the same id, or appends the mapping when
    /// none matches. The returned sources are the ones to reset: the
    /// replaced mapping's source when it took part in feedback before and
    /// no mapping does with that source afterwards.
    #[verifier::rlimit(60)]
    #[verifier::spinoff_prover]
    pub fn update_single_mapping(
        &mut self,
        compartment: Compartment,
        mapping: MainProcessorMapping,
    ) -> (unused_sources: Vec<MidiSource>)
        ensures
            spec_unused_sources_ok(
                old(self).spec_mappings(compartment),
                final (self).spec_mappings(compartment),
                unused_sources@,
            ),
            (match compartment {
                Compartment::Controller => final (self).spec_mappings(Compartment::Main) == old(self).spec_mappings(Compartment::Main),
                Compartment::Main => final (self).spec_mappings(Compartment::Controller) == old(self).spec_mappings(Compartment::Controller),
            }),
            final (self).spec_parameters() == old(self).spec_parameters(),
            final (self).spec_feedback_out() == old(self).spec_feedback_out(),
            final (self).spec_feedback_is_globally_enabled() == old(self).spec_feedback_is_globally_enabled(),
            final (self).spec_pending_feedback() == old(self).spec_pending_feedback(),
            forall|id: MappingId|
                #[trigger] final (self).spec_subscriptions(compartment).contains(id) <==> exists|
                    i: int,
                |
                    0 <= i < final (self).spec_mappings(compartment).len() && #[trigger] final (self).spec_mappings(compartment)[i].spec_feedback_is_effectively_on() && final (self).spec_mappings(compartment)[i].spec_id() == id,
    {
        let mut mapping = mapping;
        mapping.refresh_activation(&self.parameters);
        let mappings = match compartment {
            Compartment::Controller => &mut self.controller_mappings,
            Compartment::Main => &mut self.main_mappings,
        };
        let ghost before = mappings@;
        let target_id = mapping.id();
        let found = find_index_by_id(mappings, target_id);
        let mut unused: Vec<MidiSource> = Vec::new();
        match found {
            Some(idx) => {
                let old_was_on = mappings[idx].feedback_is_effectively_on();
                let old_source = *mappings[idx].source();
                mappings.set(idx, mapping);
                let still_used = mappings_have_feedback_source(mappings, &old_source);
                if old_was_on && !still_used {
                    unused.push(old_source);
                }
                proof {
                    let news = mappings@;
                    assert forall|t: MidiSource| #[trigger] unused@.contains(t) implies (
                    spec_has_feedback_source(before, t) && !spec_has_feedback_source(news, t)) by {
                        assert(t == old_source);
                        assert(before[idx as int].spec_feedback_is_effectively_on() && before[
                            idx as int
                        ].spec_source() == t);
                    }
                    assert forall|t: MidiSource|
                        (spec_has_feedback_source(before, t) && !spec_has_feedback_source(
                            news,
                            t,
                        )) implies #[trigger] unused@.contains(t) by {
                        let j = choose|j: int|
                            0 <= j < before.len() && #[trigger] before[
                                j
                            ].spec_feedback_is_effectively_on() && before[j].spec_source() == t;
                        if j != idx as int {
                            assert(news[j] == before[j]);
                            assert(spec_has_feedback_source(news, t));
                        } else {
                            assert(t == old_source && old_was_on);
                            assert(!still_used);
                            assert(unused@[0] == t);
                        }
                    }
                }
            },
            None => {
                mappings.push(mapping);
                proof {
                    let news = mappings@;
                    assert forall|t: MidiSource|
                        (spec_has_feedback_source(before, t) && !spec_has_feedback_source(
                            news,
                            t,
                        )) implies #[trigger] unused@.contains(t) by {
                        let j = choose|j: int|
                            0 <= j < before.len() && #[trigger] before[
                                j
                            ].spec_feedback_is_effectively_on() && before[j].spec_source() == t;
                        assert(news[j] == before[j]);
                        assert(spec_has_feedback_source(news, t));
                    }
                }
            },
        }
        let ghost installed = match compartment {
            Compartment::Controller => self.controller_mappings@,
            Compartment::Main => self.main_mappings@,
        };
        let subscriptions = match compartment {
            Compartment::Controller => build_subscriptions(&self.controller_mappings),
            Compartment::Main => build_subscriptions(&self.main_mappings),
        };
        let ghost subs = subscriptions@;
        proof {
            assert forall|id: MappingId|
                #[trigger] subs.contains(id) <==> exists|i: int|
                    0 <= i < installed.len() && #[trigger] installed[
                        i
                    ].spec_feedback_is_effectively_on() && installed[i].spec_id() == id by {
            }
        }
        match compartment {
            Compartment::Controller => {
                self.feedback_subscriptions_controller = subscriptions;
            },
            Compartment::Main => {
                self.feedback_subscriptions_main = subscriptions;
            },
        }
        proof {
            assert(self.spec_subscriptions(compartment) == subs);
            assert(self.spec_mappings(compartment) == installed);
        }
        unused
    }
}

/// How one control task changes a mapping list and the track table: a
/// stale id is a no-op; otherwise the first mapping with the task's id
/// goes through the control transition and every other mapping stays.
pub open spec fn spec_control_task_applied(
    old_list: Seq<MainProcessorMapping>,
    new_list: Seq<MainProcessorMapping>,
    task: ControlMainTask,
    now_millis: u64,
    old_volumes: Seq<crate::units::UnitValue>,
    new_volumes: Seq<crate::units::UnitValue>,
    r: Option<crate::targets::HitInstruction>,
) -> bool {
    &&& new_list.len() == old_list.len()
    &&& ((forall|i: int|
        0 <= i < old_list.len() ==> #[trigger] old_list[i].spec_id() != task.mapping_id) ==> {
        &&& new_list == old_list
        &&& new_volumes == old_volumes
        &&& r is None
    })
    &&& ((exists|i: int|
        0 <= i < old_list.len() && #[trigger] old_list[i].spec_id() == task.mapping_id) ==> (
    exists|i: int|
        {
            &&& 0 <= i < old_list.len()
            &&& #[trigger] old_list[i].spec_id() == task.mapping_id
            &&& (forall|j: int| 0 <= j < i ==> old_list[j].spec_id() != task.mapping_id)
            &&& spec_control_transition(
                old_list[i],
                new_list[i],
                task.value,
                now_millis,
                old_volumes,
                new_volumes,
                r,
            )
            &&& (forall|j: int| 0 <= j < old_list.len() && j != i ==> new_list[j] == old_list[j])
        }))
}

/// The index of the mapping with the given id, if any.
fn find_index_by_id(mappings: &Vec<MainProcessorMapping>, id: MappingId) -> (r: Option<usize>)
    ensures
        (match r {
            Some(i) => i < mappings@.len() && mappings@[i as int].spec_id() == id,
            None => true,
        }),
{
    let mut i: usize = 0;
    let n = mappings.len();
    while i < n
        invariant
            n == mappings@.len(),
            i <= n,
        decreases n - i,
    {
        if mappings[i].id() == id {
            return Some(i);
        }
        i += 1;
    }
    None
}

/// Looks the mapping up by id and routes the control task through it; a
/// stale id is a recoverable no-op.
fn control_in_list(
    mappings: &mut Vec<MainProcessorMapping>,
    task: ControlMainTask,
    now_millis: u64,
    context: &mut TargetContext,
) -> (r: Option<HitInstruction>)
    ensures
        spec_control_task_applied(
            old(mappings)@,
            final (mappings)@,
            task,
            now_millis,
            old(context).track_volumes@,
            final (context).track_volumes@,
            r,
        ),
{
    let mut i: usize = 0;
    let n = mappings.len();
    while i < n
        invariant
            i <= n,
            n == mappings@.len(),
            mappings@ == old(mappings)@,
            context.track_volumes@ == old(context).track_volumes@,
            forall|j: int| 0 <= j < i ==> #[trigger] mappings@[j].spec_id() != task.mapping_id,
        decreases n - i,
    {
        if mappings[i].id() == task.mapping_id {
            let ghost before = mappings@;
            let m = &mut mappings[i];
            let result = m.control_if_enabled(task.value, now_millis, context);
            proof {
                assert(mappings@[i as int].spec_id() == before[i as int].spec_id());
                assert(spec_control_transition(
                    before[i as int],
                    mappings@[i as int],
                    task.value,
                    now_millis,
                    old(context).track_volumes@,
                    context.track_volumes@,
                    result,
                ));
                assert forall|j: int|
                    0 <= j < before.len() && j != i implies mappings@[j] == before[j] by {
                }
            }
            return result;
        }
        i += 1;
    }
    None
}

/// Builds the feedback subscription set: the ids of the mappings that take
/// part in feedback. The set is rebuilt whole after every batch update
/// rather than patched incrementally.
fn build_subscriptions(mappings: &Vec<MainProcessorMapping>) -> (r: Vec<MappingId>)
    ensures
        forall|id: MappingId|
            #[trigger] r@.contains(id) <==> exists|i: int|
                0 <= i < mappings@.len()
                    && #[trigger] mappings@[i].spec_feedback_is_effectively_on() && mappings@[
                    i
                ].spec_id() == id,
{
    let mut out: Vec<MappingId> = Vec::new();
    let mut i: usize = 0;
    while i < mappings.len()
        invariant
            i <= mappings@.len(),
            forall|id: MappingId|
                #[trigger] out@.contains(id) ==> exists|k: int|
                    0 <= k < mappings@.len()
                        && #[trigger] mappings@[k].spec_feedback_is_effectively_on() && mappings@[
                        k
                    ].spec_id() == id,
            forall|k: int|
                0 <= k < i && #[trigger] mappings@[k].spec_feedback_is_effectively_on()
                    ==> out@.contains(mappings@[k].spec_id()),
        decreases mappings@.len() - i,
    {
        let m = &mappings[i];
        if m.feedback_is_effectively_on() {
            let ghost before = out@;
            out.push(m.id());
            proof {
                assert(out@ == before.push(mappings@[i as int].spec_id()));
                assert forall|id: MappingId| #[trigger] out@.contains(id) implies exists|k: int|
                    0 <= k < mappings@.len()
                        && #[trigger] mappings@[k].spec_feedback_is_effectively_on() && mappings@[
                        k
                    ].spec_id() == id by {
                    if id == mappings@[i as int].spec_id() {
                        assert(mappings@[i as int].spec_feedback_is_effectively_on()
                            && mappings@[i as int].spec_id() == id);
                    } else {
                        let w = choose|w: int| 0 <= w < out@.len() && out@[w] == id;
                        assert(before[w] == id);
                        assert(before.contains(id));
                    }
                }
                assert forall|k: int|
                    0 <= k < i + 1 && #[trigger] mappings@[k].spec_feedback_is_effectively_on()
                        implies out@.contains(mappings@[k].spec_id()) by {
                    if k < i {
                        assert(before.contains(mappings@[k].spec_id()));
                        let w = choose|w: int|
                            0 <= w < before.len() && before[w] == mappings@[k].spec_id();
                        assert(out@[w] == mappings@[k].spec_id());
                    } else {
                        assert(out@[out@.len() - 1] == mappings@[k].spec_id());
                    }
                }
            }
        }
        i += 1;
    }
    proof {
        assert forall|id: MappingId| #[trigger] out@.contains(id) <==> exists|i2: int|
            0 <= i2 < mappings@.len() && #[trigger] mappings@[
                i2
            ].spec_feedback_is_effectively_on() && mappings@[i2].spec_id() == id by {
            if exists|i2: int|
                0 <= i2 < mappings@.len() && #[trigger] mappings@[
                    i2
                ].spec_feedback_is_effectively_on() && mappings@[i2].spec_id() == id {
                let w = choose|i2: int|
                    0 <= i2 < mappings@.len() && #[trigger] mappings@[
                        i2
                    ].spec_feedback_is_effectively_on() && mappings@[i2].spec_id() == id;
                assert(out@.contains(mappings@[w].spec_id()));
            }
        }
    }
    out
}

} // verus!
