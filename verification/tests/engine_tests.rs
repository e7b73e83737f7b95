use realearn::mapping::{
    ActivationCondition, Compartment, MainProcessorMapping, MappingId, RealTimeProcessorMapping,
};
use realearn::midi::RawMidiMessage;
use realearn::mode::Mode;
use realearn::processor::{compute_unused_sources, FeedbackBuffer, FeedbackMainTask, MainProcessor};
use realearn::realtime::RealTimeProcessor;
use realearn::source::{MidiSource, SourceCharacter};
use realearn::target_api::{
    Target, TargetCommons, TrackDescriptor, TrackDescriptorCommons, TrackVolumeTarget,
};
use realearn::targets::{resolve_target, ReaperTarget, TargetContext};
use realearn::units::{
    unit_value_from_cc7, unit_value_to_cc7, ControlValue, UnitValue,
};

fn cc_source(channel: u8, controller: u8) -> MidiSource {
    MidiSource::ControlChangeValue {
        channel: Some(channel),
        controller_number: Some(controller),
        custom_character: SourceCharacter::Range,
    }
}

fn id(n: u64) -> MappingId {
    MappingId { hi: n, lo: n }
}

fn main_mapping(
    n: u64,
    source: MidiSource,
    target: Option<ReaperTarget>,
    feedback: bool,
) -> MainProcessorMapping {
    MainProcessorMapping::new(
        id(n),
        source,
        Mode::default_mode(),
        target,
        true,
        feedback,
        false,
        ActivationCondition::Always,
        20,
    )
}

#[test]
fn cc_control_reaches_track_volume_and_feeds_back() {
    // Scenario: source CC 1 on channel 0, identity mode, target track
    // volume of track 0. CC value 64 lands as roughly 0.504 of the unit
    // range and feeds back as CC value 64.
    let mut rt = RealTimeProcessor::new(100);
    rt.update_all_mappings(
        Compartment::Main,
        vec![RealTimeProcessorMapping::new(id(1), cc_source(0, 1), true)],
    );
    let incoming = RawMidiMessage {
        status: 0xb0,
        data1: 1,
        data2: 64,
    };
    rt.process_incoming_midi(incoming);
    let tasks = rt.take_tasks();
    assert_eq!(tasks.len(), 1);
    assert_eq!(tasks[0].mapping_id, id(1));
    assert_eq!(
        tasks[0].value,
        ControlValue::AbsoluteContinuous(unit_value_from_cc7(64))
    );

    let mut main = MainProcessor::new(10, 0);
    let _ = main.update_all_mappings(
        Compartment::Main,
        vec![main_mapping(
            1,
            cc_source(0, 1),
            Some(ReaperTarget::TrackVolume { track_index: 0 }),
            true,
        )],
    );
    let mut context = TargetContext::new(vec![UnitValue::min_value()]);
    for task in tasks {
        main.process_control_task(task, 0, &mut context);
    }
    // 64/127 of the unit range, rounded to the nearest representable value.
    assert_eq!(context.track_volumes[0].get(), 503_937);
    assert_eq!(unit_value_to_cc7(context.track_volumes[0]), 64);

    // The feedback for the resulting volume is a CC message with value 64.
    let feedback = main.feedback_all(100, &context);
    assert_eq!(feedback.len(), 1);
    assert_eq!(
        feedback[0],
        RawMidiMessage {
            status: 0xb0,
            data1: 1,
            data2: 64
        }
    );
}

#[test]
fn feedback_toggle_emits_single_reset() {
    // Toggling feedback off for a mapping frees its source: exactly one
    // reset is due for it.
    let old = vec![main_mapping(
        1,
        cc_source(0, 1),
        Some(ReaperTarget::TrackVolume { track_index: 0 }),
        true,
    )];
    let new = vec![main_mapping(
        1,
        cc_source(0, 1),
        Some(ReaperTarget::TrackVolume { track_index: 0 }),
        false,
    )];
    let unused = compute_unused_sources(&old, &new);
    assert_eq!(unused.len(), 1);
    assert_eq!(unused[0], cc_source(0, 1));
}

#[test]
fn feedback_toggle_with_shared_source_emits_nothing() {
    // Another mapping with feedback still uses the same source, so no
    // reset goes out.
    let old = vec![
        main_mapping(
            1,
            cc_source(0, 1),
            Some(ReaperTarget::TrackVolume { track_index: 0 }),
            true,
        ),
        main_mapping(
            2,
            cc_source(0, 1),
            Some(ReaperTarget::TrackVolume { track_index: 1 }),
            true,
        ),
    ];
    let new = vec![
        main_mapping(
            1,
            cc_source(0, 1),
            Some(ReaperTarget::TrackVolume { track_index: 0 }),
            false,
        ),
        main_mapping(
            2,
            cc_source(0, 1),
            Some(ReaperTarget::TrackVolume { track_index: 1 }),
            true,
        ),
    ];
    let unused = compute_unused_sources(&old, &new);
    assert_eq!(unused.len(), 0);
}

#[test]
fn mode_feedback_control_round_trip_is_identity() {
    // With default mode settings, feeding a target value through feedback
    // and the result back through control returns the value exactly.
    let mode = Mode::default_mode();
    let samples: [u32; 5] = [0, 1, 503_937, 999_999, 1_000_000];
    for raw in samples {
        let target_value = UnitValue::new_clamped(raw);
        let feedback = mode.feedback(target_value);
        let back = mode
            .control(ControlValue::AbsoluteContinuous(feedback), None)
            .unwrap();
        assert_eq!(back.get(), raw);
    }
}

#[test]
fn mode_range_scaling_and_reverse() {
    // Source range [0.25, 0.75] onto target range [0, 1]: the midpoint of
    // the source range lands in the middle.
    let mode = Mode::new(
        UnitValue::new_clamped(250_000),
        UnitValue::new_clamped(750_000),
        UnitValue::new_clamped(0),
        UnitValue::new_clamped(1_000_000),
        false,
        UnitValue::new_clamped(10_000),
    );
    let out = mode.absolute_control(UnitValue::new_clamped(500_000));
    assert_eq!(out.get(), 500_000);
    // Below the source range clamps to the target minimum.
    assert_eq!(mode.absolute_control(UnitValue::new_clamped(0)).get(), 0);

    let reversed = Mode::new(
        UnitValue::new_clamped(0),
        UnitValue::new_clamped(1_000_000),
        UnitValue::new_clamped(0),
        UnitValue::new_clamped(1_000_000),
        true,
        UnitValue::new_clamped(10_000),
    );
    assert_eq!(
        reversed.absolute_control(UnitValue::new_clamped(0)).get(),
        1_000_000
    );
}

#[test]
fn mode_relative_control_accumulates() {
    let mode = Mode::default_mode();
    let current = UnitValue::new_clamped(500_000);
    // Three steps up at 1% step size.
    let up = mode
        .control(ControlValue::Relative(3), Some(current))
        .unwrap();
    assert_eq!(up.get(), 530_000);
    // A relative zero is consumed without producing a change.
    assert!(mode.control(ControlValue::Relative(0), Some(current)).is_none());
    // Clamping at the range edge.
    let down = mode
        .control(ControlValue::Relative(-200), Some(current))
        .unwrap();
    assert_eq!(down.get(), 0);
}

#[test]
fn real_time_processor_drops_newest_on_overflow() {
    let mut rt = RealTimeProcessor::new(2);
    rt.update_all_mappings(
        Compartment::Main,
        vec![
            RealTimeProcessorMapping::new(id(1), cc_source(0, 1), true),
            RealTimeProcessorMapping::new(id(2), cc_source(0, 1), true),
            RealTimeProcessorMapping::new(id(3), cc_source(0, 1), true),
        ],
    );
    let incoming = RawMidiMessage {
        status: 0xb0,
        data1: 1,
        data2: 10,
    };
    rt.process_incoming_midi(incoming);
    let tasks = rt.take_tasks();
    // The channel holds two tasks; the newest was dropped and counted.
    assert_eq!(tasks.len(), 2);
    assert_eq!(tasks[0].mapping_id, id(1));
    assert_eq!(tasks[1].mapping_id, id(2));
    assert_eq!(rt.overflow_count(), 1);
}

#[test]
fn inactive_mapping_gets_no_control_and_no_feedback() {
    // A mapping whose bank condition is not fulfilled is inactive: control
    // does not reach the target and no feedback is produced.
    let mut main = MainProcessor::new(10, 0);
    let mapping = MainProcessorMapping::new(
        id(1),
        cc_source(0, 1),
        Mode::default_mode(),
        Some(ReaperTarget::TrackVolume { track_index: 0 }),
        true,
        true,
        false,
        ActivationCondition::Bank {
            param_index: 0,
            bank_index: 3,
        },
        20,
    );
    let _ = main.update_all_mappings(Compartment::Main, vec![mapping]);
    let mut context = TargetContext::new(vec![UnitValue::min_value()]);
    assert_eq!(main.feedback_all(0, &context).len(), 0);

    // Parameter 0 moves into bank 3 (raw 30000..=39999): the mapping
    // activates.
    let updates = main.update_parameter(0, 35_000);
    assert_eq!(updates, vec![(id(1), true)]);
    assert_eq!(main.feedback_all(0, &context).len(), 1);
}

#[test]
fn echo_suppression_holds_feedback_back() {
    let mut mapping = MainProcessorMapping::new(
        id(1),
        cc_source(0, 1),
        Mode::default_mode(),
        Some(ReaperTarget::TrackVolume { track_index: 0 }),
        true,
        true,
        true, // prevent echo feedback
        ActivationCondition::Always,
        20,
    );
    let mut context = TargetContext::new(vec![UnitValue::min_value()]);
    let value = ControlValue::AbsoluteContinuous(unit_value_from_cc7(100));
    mapping.control_if_enabled(value, 1000, &mut context);
    // Within the 20 ms window: no feedback, the control surface caused the
    // change itself.
    assert!(mapping.feedback_if_enabled(1010, &context).is_none());
    assert!(mapping.feedback_if_enabled(1020, &context).is_none());
    // After the window: feedback flows again.
    assert!(mapping.feedback_if_enabled(1021, &context).is_some());
}

#[test]
fn single_mapping_update_resets_freed_source() {
    // The single-mapping update path: replacing a mapping whose feedback
    // was on with a feedback-off copy frees the source once.
    let mut main = MainProcessor::new(10, 0);
    let _ = main.update_all_mappings(
        Compartment::Main,
        vec![main_mapping(
            1,
            cc_source(0, 1),
            Some(ReaperTarget::TrackVolume { track_index: 0 }),
            true,
        )],
    );
    let unused = main.update_single_mapping(
        Compartment::Main,
        main_mapping(
            1,
            cc_source(0, 1),
            Some(ReaperTarget::TrackVolume { track_index: 0 }),
            false,
        ),
    );
    assert_eq!(unused.len(), 1);
    assert_eq!(unused[0], cc_source(0, 1));
    // Sending the resets produces the source's minimum-value message.
    main.send_source_resets(&unused);
    let out = main.take_feedback();
    assert_eq!(
        out,
        vec![RawMidiMessage {
            status: 0xb0,
            data1: 1,
            data2: 0
        }]
    );
}

#[test]
fn feedback_buffer_coalesces_bursts() {
    let mut buffer = FeedbackBuffer::new(30);
    let task = FeedbackMainTask {
        compartment: Compartment::Main,
        mapping_id: id(1),
    };
    buffer.buffer_feedback_for_mapping(task);
    buffer.buffer_feedback_for_mapping(task);
    buffer.buffer_feedback_for_mapping(task);
    // Before the interval passes, nothing flushes.
    let flushed = buffer.poll(10);
    assert!(flushed.is_none());
    // After the interval, the burst has coalesced into one entry.
    let flushed = buffer.poll(31).unwrap();
    assert_eq!(flushed.len(), 1);
    assert_eq!(flushed[0], task);
}

#[test]
fn persistent_target_resolution() {
    let context = TargetContext::new(vec![UnitValue::min_value(); 2]);
    let volume_target = |index: u32| {
        Target::TrackVolume(TrackVolumeTarget {
            commons: TargetCommons { unit: None },
            track: Some(TrackDescriptor::ByIndex {
                commons: TrackDescriptorCommons {
                    track_must_be_selected: None,
                },
                index,
                scope: None,
            }),
            use_track_grouping: None,
            use_selection_ganging: None,
        })
    };
    assert_eq!(
        resolve_target(&volume_target(1), &context).unwrap(),
        ReaperTarget::TrackVolume { track_index: 1 }
    );
    // Resolution fails recoverably when the track is gone.
    assert_eq!(
        resolve_target(&volume_target(2), &context).unwrap_err(),
        "track not available"
    );
}

#[test]
fn cc7_conversion_round_trips_for_every_value() {
    // Every 7-bit value survives the trip into the unit range and back,
    // so the 128 MIDI steps stay distinguishable.
    for v in 0u8..=127 {
        assert_eq!(unit_value_to_cc7(unit_value_from_cc7(v)), v);
    }
}
