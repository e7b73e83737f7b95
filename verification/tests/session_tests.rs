use realearn::mapping::{Compartment, MappingId};
use realearn::midi::RawMidiMessage;
use realearn::model_data::MappingModelData;
use realearn::target_api::{
    Target, TargetCommons, TrackDescriptor, TrackDescriptorCommons, TrackVolumeTarget,
};
use realearn::session::{
    Affected, CompoundMappingSource, Group, GroupId, LearnState, MappingCommand, MappingModel,
    Session, SourceCategory, SourceModel, VirtualControlElement, VirtualControlElementType,
    VirtualSource,
};
use realearn::source::{MidiSource, SourceCharacter};
use realearn::ui_util::{format_tags_as_csv, parse_tags_from_csv, Tag};
use realearn::units::{ControlValue, UnitValue};

fn id(n: u64) -> MappingId {
    MappingId { hi: n, lo: n }
}

#[test]
fn create_source() {
    // Given
    let m = SourceModel::default();
    // When
    let s = m.create_source();
    // Then
    assert_eq!(
        s,
        CompoundMappingSource::Midi(MidiSource::ControlChangeValue {
            channel: None,
            controller_number: None,
            custom_character: SourceCharacter::Range,
        })
    );
}

#[test]
fn source_model_round_trip() {
    let mut model = SourceModel::default();
    let captured = CompoundMappingSource::Midi(MidiSource::NoteVelocity {
        channel: Some(5),
        key_number: Some(64),
    });
    model.apply_from_source(&captured);
    assert_eq!(model.create_source(), captured);

    let virtual_captured =
        CompoundMappingSource::Virtual(VirtualSource::new(VirtualControlElement::Button(7)));
    model.apply_from_source(&virtual_captured);
    assert_eq!(model.create_source(), virtual_captured);
    assert_eq!(model.category, SourceCategory::Virtual);
}

#[test]
fn add_remove_duplicate_mappings() {
    let mut session = Session::new();
    session.add_default_mapping(Compartment::Main, GroupId::default_group(), id(1));
    session.add_default_mapping(Compartment::Main, GroupId::default_group(), id(2));
    assert_eq!(session.mapping_count(Compartment::Main), 2);
    assert_eq!(session.index_of_mapping(Compartment::Main, id(2)), Some(1));

    session.duplicate_mapping(Compartment::Main, id(1), id(3)).unwrap();
    assert_eq!(session.mapping_count(Compartment::Main), 3);
    // The duplicate sits right after the original.
    assert_eq!(session.index_of_mapping(Compartment::Main, id(3)), Some(1));

    session.remove_mapping(Compartment::Main, id(1));
    assert_eq!(session.mapping_count(Compartment::Main), 2);
    assert_eq!(session.index_of_mapping(Compartment::Main, id(1)), None);
}

#[test]
fn move_mapping_within_list() {
    let mut session = Session::new();
    session.add_default_mapping(Compartment::Main, GroupId::default_group(), id(1));
    session.add_default_mapping(Compartment::Main, GroupId::default_group(), id(2));
    session.add_default_mapping(Compartment::Main, GroupId::default_group(), id(3));
    session
        .move_mapping_within_list(Compartment::Main, id(3), false, false)
        .unwrap();
    assert_eq!(session.index_of_mapping(Compartment::Main, id(3)), Some(1));
    // Moving the first mapping further up hits the boundary.
    let result = session.move_mapping_within_list(Compartment::Main, id(1), false, false);
    assert_eq!(
        result.unwrap_err(),
        "move not possible because boundary reached"
    );
}

#[test]
fn remove_group_reassigns_or_deletes() {
    let mut session = Session::new();
    let group = GroupId { raw: 9 };
    session
        .add_group(
            Compartment::Main,
            Group {
                id: group,
                name: "synths".to_string(),
            },
        )
        .unwrap();
    session.add_default_mapping(Compartment::Main, group, id(1));
    session.add_default_mapping(Compartment::Main, GroupId::default_group(), id(2));

    // Reassign: the mapping survives in the default group.
    session.remove_group(Compartment::Main, group, false).unwrap();
    assert_eq!(session.mapping_count(Compartment::Main), 2);

    // Delete: the group's mappings go away with it.
    let group2 = GroupId { raw: 10 };
    session
        .add_group(
            Compartment::Main,
            Group {
                id: group2,
                name: "drums".to_string(),
            },
        )
        .unwrap();
    session.add_default_mapping(Compartment::Main, group2, id(3));
    session.remove_group(Compartment::Main, group2, true).unwrap();
    assert_eq!(session.mapping_count(Compartment::Main), 2);
    assert_eq!(session.index_of_mapping(Compartment::Main, id(3)), None);

    // The default group cannot be removed.
    assert!(session
        .remove_group(Compartment::Main, GroupId::default_group(), false)
        .is_err());
}

#[test]
fn learn_source_state_machine() {
    let mut session = Session::new();
    session.add_default_mapping(Compartment::Main, GroupId::default_group(), id(1));
    session.start_learning_source(Compartment::Main, id(1));
    assert_eq!(
        session.learn_state(),
        LearnState::LearningSource {
            compartment: Compartment::Main,
            mapping_id: id(1)
        }
    );
    // A capture applies the source and ends the flow.
    let captured = CompoundMappingSource::Midi(MidiSource::ChannelPressureAmount {
        channel: Some(3),
    });
    session.incoming_source_captured(captured);
    assert_eq!(session.learn_state(), LearnState::Idle);
    // A capture outside a learn flow is dropped.
    session.incoming_source_captured(captured);
    assert_eq!(session.learn_state(), LearnState::Idle);

    // Cancelling by stopping returns to idle without applying anything.
    session.start_learning_source(Compartment::Main, id(1));
    session.stop_learning_source();
    assert_eq!(session.learn_state(), LearnState::Idle);
}

#[test]
fn next_control_element_index() {
    let mut session = Session::new();
    assert_eq!(
        session.get_next_control_element_index(VirtualControlElementType::Multi),
        0
    );
    let index =
        session.add_default_mapping(Compartment::Controller, GroupId::default_group(), id(1));
    assert_eq!(index, 0);
    session.incoming_source_captured(CompoundMappingSource::Virtual(VirtualSource::new(
        VirtualControlElement::Multi(4),
    )));
    // Make the first controller mapping virtual at index 4 via learning.
    session.start_learning_source(Compartment::Controller, id(1));
    session.incoming_source_captured(CompoundMappingSource::Virtual(VirtualSource::new(
        VirtualControlElement::Multi(4),
    )));
    assert_eq!(
        session.get_next_control_element_index(VirtualControlElementType::Multi),
        5
    );
    assert_eq!(
        session.get_next_control_element_index(VirtualControlElementType::Button),
        0
    );
}

#[test]
fn mapping_model_data_round_trip() {
    let mut model = MappingModel::new(Compartment::Main, GroupId::default_group(), id(1));
    model.name = "volume".to_string();
    model.source_model.channel = Some(3);
    model.feedback_is_enabled = false;
    let data = MappingModelData::from_model(&model);
    let restored = data.to_model(Compartment::Main, GroupId::default_group(), id(2));
    assert_eq!(restored.name, "volume");
    assert_eq!(restored.source_model, model.source_model);
    assert_eq!(restored.feedback_is_enabled, false);
    assert_eq!(restored.id, id(2));
}

#[test]
fn insert_mappings_in_the_middle_keeps_order() {
    let mut session = Session::new();
    session.add_default_mapping(Compartment::Main, GroupId::default_group(), id(1));
    session.add_default_mapping(Compartment::Main, GroupId::default_group(), id(4));
    let batch = vec![
        MappingModel::new(Compartment::Main, GroupId::default_group(), id(2)),
        MappingModel::new(Compartment::Main, GroupId::default_group(), id(3)),
    ];
    session.insert_mappings_at(Compartment::Main, 1, batch);
    assert_eq!(session.mapping_count(Compartment::Main), 4);
    assert_eq!(session.index_of_mapping(Compartment::Main, id(1)), Some(0));
    assert_eq!(session.index_of_mapping(Compartment::Main, id(2)), Some(1));
    assert_eq!(session.index_of_mapping(Compartment::Main, id(3)), Some(2));
    assert_eq!(session.index_of_mapping(Compartment::Main, id(4)), Some(3));
    // A position past the end appends.
    let tail = vec![MappingModel::new(
        Compartment::Main,
        GroupId::default_group(),
        id(5),
    )];
    session.insert_mappings_at(Compartment::Main, 99, tail);
    assert_eq!(session.mapping_count(Compartment::Main), 5);
    assert_eq!(session.index_of_mapping(Compartment::Main, id(5)), Some(4));
}

#[test]
fn tag_parsing_trims_surrounding_spaces() {
    let tag = Tag::from_str("  drums  ").unwrap();
    let name: String = tag.chars().iter().collect();
    assert_eq!(name, "drums");
    assert!(Tag::from_str("   ").is_err());
    assert!(Tag::from_str("bad tag").is_err());
}

#[test]
fn mapping_model_data_carries_target() {
    let data = MappingModelData {
        target: Target::TrackVolume(TrackVolumeTarget {
            commons: TargetCommons { unit: None },
            track: Some(TrackDescriptor::ByIndex {
                commons: TrackDescriptorCommons {
                    track_must_be_selected: None,
                },
                index: 3,
                scope: None,
            }),
            use_track_grouping: None,
            use_selection_ganging: None,
        }),
        ..MappingModelData::default()
    };
    let expected = data.target.clone();
    let model = data.to_model(Compartment::Main, GroupId::default_group(), id(7));
    assert_eq!(model.target_model, expected);
}

#[test]
fn tags_csv_round_trip() {
    let tags = parse_tags_from_csv("delay, drums , , bad tag,bass");
    // The item with a space inside and the empty item fall away.
    assert_eq!(tags.len(), 3);
    let formatted = format_tags_as_csv(&tags);
    assert_eq!(formatted, "delay, drums, bass");
}

#[test]
fn source_feedback_messages() {
    let max = UnitValue::max_value();
    let msg = |source: MidiSource, value: UnitValue| source.feedback(value).unwrap();
    // A CC source feeds back a control change with the scaled value.
    assert_eq!(
        msg(
            MidiSource::ControlChangeValue {
                channel: Some(0),
                controller_number: Some(1),
                custom_character: SourceCharacter::Range,
            },
            max,
        ),
        RawMidiMessage {
            status: 0xb0,
            data1: 1,
            data2: 127
        }
    );
    // A note-velocity source feeds back a note-on with the value as
    // velocity.
    assert_eq!(
        msg(
            MidiSource::NoteVelocity {
                channel: Some(5),
                key_number: Some(64),
            },
            max,
        ),
        RawMidiMessage {
            status: 0x95,
            data1: 64,
            data2: 127
        }
    );
    // Program change and channel pressure carry the value in the first
    // data byte.
    assert_eq!(
        msg(MidiSource::ProgramChangeNumber { channel: Some(2) }, max),
        RawMidiMessage {
            status: 0xc2,
            data1: 127,
            data2: 0
        }
    );
    assert_eq!(
        msg(MidiSource::ChannelPressureAmount { channel: Some(3) }, max),
        RawMidiMessage {
            status: 0xd3,
            data1: 127,
            data2: 0
        }
    );
    // Pitch bend splits the 14-bit value; the midpoint is data2 = 64.
    assert_eq!(
        msg(
            MidiSource::PitchBendChangeValue { channel: Some(1) },
            UnitValue::new_clamped(500_000),
        ),
        RawMidiMessage {
            status: 0xe1,
            data1: 0,
            data2: 64
        }
    );
    // A parameter-number source takes no feedback.
    assert!(MidiSource::ParameterNumberValue {
        channel: None,
        number: None,
        is_14_bit: None,
        is_registered: None,
    }
    .feedback(max)
    .is_none());
}

#[test]
fn source_matching_and_encoders() {
    let encoder = MidiSource::ControlChangeValue {
        channel: Some(0),
        controller_number: Some(7),
        custom_character: SourceCharacter::Encoder2,
    };
    let msg = |value: u8| RawMidiMessage {
        status: 0xb0,
        data1: 7,
        data2: value,
    };
    assert_eq!(encoder.control(msg(65)), Some(ControlValue::Relative(1)));
    assert_eq!(encoder.control(msg(61)), Some(ControlValue::Relative(-3)));
    // A message on another controller is a non-match.
    let other = RawMidiMessage {
        status: 0xb0,
        data1: 8,
        data2: 65,
    };
    assert_eq!(encoder.control(other), None);
    // A malformed message with a data byte out of range never matches.
    let malformed = RawMidiMessage {
        status: 0xb0,
        data1: 0x90,
        data2: 65,
    };
    assert_eq!(encoder.control(malformed), None);
}

#[test]
fn change_mapping_via_command() {
    let mut session = Session::new();
    session.add_default_mapping(Compartment::Main, GroupId::default_group(), id(1));
    let affected = session.change_mapping(
        Compartment::Main,
        id(1),
        MappingCommand::SetFeedbackIsEnabled(false),
    );
    assert_eq!(
        affected,
        Some(Affected::MappingChanged {
            compartment: Compartment::Main,
            mapping_id: id(1)
        })
    );
    // A stale id is a recoverable no-op.
    let affected = session.change_mapping(
        Compartment::Main,
        id(9),
        MappingCommand::SetControlIsEnabled(false),
    );
    assert_eq!(affected, None);
}

#[test]
fn find_mapping_with_source_scans_in_order() {
    let mut session = Session::new();
    session.add_default_mapping(Compartment::Main, GroupId::default_group(), id(1));
    session.add_default_mapping(Compartment::Main, GroupId::default_group(), id(2));
    // Narrow the second mapping's source to CC 7 on channel 2.
    session.start_learning_source(Compartment::Main, id(2));
    session.incoming_source_captured(CompoundMappingSource::Midi(
        MidiSource::ControlChangeValue {
            channel: Some(2),
            controller_number: Some(7),
            custom_character: SourceCharacter::Range,
        },
    ));
    let msg = RawMidiMessage {
        status: 0xb2,
        data1: 7,
        data2: 100,
    };
    // The first mapping's default source (any CC) matches first.
    assert_eq!(session.find_mapping_with_source(Compartment::Main, msg), Some(0));
    session.remove_mapping(Compartment::Main, id(1));
    assert_eq!(session.find_mapping_with_source(Compartment::Main, msg), Some(0));
    // A note message matches no CC source.
    let note = RawMidiMessage {
        status: 0x90,
        data1: 60,
        data2: 100,
    };
    assert_eq!(session.find_mapping_with_source(Compartment::Main, note), None);
}

#[test]
fn learn_many_mappings_in_a_row() {
    let mut session = Session::new();
    session.start_learning_many_mappings(
        Compartment::Controller,
        GroupId::default_group(),
        id(1),
    );
    assert_eq!(session.mapping_count(Compartment::Controller), 1);
    // Each captured source fills the current mapping and adds the next.
    session.incoming_source_captured(CompoundMappingSource::Midi(
        MidiSource::ControlChangeValue {
            channel: Some(0),
            controller_number: Some(20),
            custom_character: SourceCharacter::Range,
        },
    ));
    assert_eq!(session.mapping_count(Compartment::Controller), 2);
    session.incoming_source_captured(CompoundMappingSource::Midi(
        MidiSource::ControlChangeValue {
            channel: Some(0),
            controller_number: Some(21),
            custom_character: SourceCharacter::Range,
        },
    ));
    assert_eq!(session.mapping_count(Compartment::Controller), 3);
    // Stopping ends the flow; the last added mapping keeps its default
    // source.
    session.stop_learning_source();
    assert_eq!(session.learn_state(), LearnState::Idle);
    let msg = RawMidiMessage {
        status: 0xb0,
        data1: 20,
        data2: 1,
    };
    assert_eq!(
        session.find_mapping_with_source(Compartment::Controller, msg),
        Some(0)
    );
}
