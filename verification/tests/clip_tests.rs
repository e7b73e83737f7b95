use realearn::clip::{ApiClip, ClipPlayState, ClipTimeBase, Db, MaterialInfo};
use realearn::column::{Column, Matrix};
use realearn::rt_column::RtColumn;
use realearn::slot::{
    ClipChangeEvent, MidiClipRecordMode, NormalRecordingOutcome, RecordedClip, Slot,
    SlotRecordInstruction, SlotRuntimeData, SlotState,
};
use realearn::supplier::{SupplierChain, SupplyResponseStatus};

fn audio_clip(frames: Vec<i32>) -> ApiClip {
    ApiClip {
        frames,
        is_midi: false,
        frame_rate: 48000,
        channel_count: 2,
        time_base: ClipTimeBase::Time,
        looped: false,
        volume: Db::zero(),
    }
}

/// Moves queued commands into the real-time column and events back into
/// the main column, like the host does once per audio block.
fn pump(matrix: &mut Matrix, rt: &mut RtColumn) -> Vec<(usize, ClipChangeEvent)> {
    let commands = matrix.take_column_commands(0);
    for command in commands {
        rt.process_command(command);
    }
    let events = rt.take_events();
    matrix.poll_column(0, events, 12000)
}

#[test]
fn record_clip_rejected_while_recording() {
    let mut slot = Slot::new(5);
    let first = slot.record_clip(MidiClipRecordMode::Normal, false, 48000);
    assert!(first.is_ok());
    assert!(slot.is_recording());
    // The second request must fail fast and change nothing.
    let second = slot.record_clip(MidiClipRecordMode::Normal, false, 48000);
    assert_eq!(second.unwrap_err(), "recording already");
    assert!(slot.is_recording());
    assert_eq!(slot.state(), SlotState::RequestedRecording);
}

#[test]
fn recording_commit_and_cancel() {
    // Commit path: request, acknowledge, finish committed.
    let mut slot = Slot::new(5);
    let instruction = slot
        .record_clip(MidiClipRecordMode::Normal, false, 48000)
        .unwrap();
    assert_eq!(
        instruction,
        SlotRecordInstruction::NewClip {
            is_midi: false,
            frame_rate: 48000
        }
    );
    let runtime_data = SlotRuntimeData {
        play_state: ClipPlayState::Recording,
        pos: 0,
        material_info: MaterialInfo {
            is_midi: false,
            frame_count: 0,
            frame_rate: 48000,
            channel_count: 2,
        },
    };
    slot.notify_recording_request_acknowledged(true, Some(runtime_data))
        .unwrap();
    assert!(matches!(slot.state(), SlotState::Recording(_)));
    let recorded = RecordedClip {
        material_info: MaterialInfo {
            is_midi: false,
            frame_count: 1000,
            frame_rate: 48000,
            channel_count: 2,
        },
        looped: false,
        volume: Db::zero(),
        time_base: ClipTimeBase::Time,
    };
    let event = slot
        .notify_normal_recording_finished(NormalRecordingOutcome::Committed(recorded))
        .unwrap();
    assert_eq!(event, ClipChangeEvent::RecordingFinished);
    assert_eq!(slot.state(), SlotState::Normal);
    assert!(slot.clip().is_some());

    // Cancel path: the slot ends with no content and state back to normal.
    let mut slot2 = Slot::new(5);
    slot2
        .record_clip(MidiClipRecordMode::Normal, false, 48000)
        .unwrap();
    slot2
        .notify_recording_request_acknowledged(true, Some(runtime_data))
        .unwrap();
    let event = slot2
        .notify_normal_recording_finished(NormalRecordingOutcome::Canceled)
        .unwrap();
    assert_eq!(event, ClipChangeEvent::Removed);
    assert_eq!(slot2.state(), SlotState::Normal);
    assert!(slot2.clip().is_none());
}

#[test]
fn negative_acknowledgement_rolls_back() {
    let mut slot = Slot::new(0);
    slot.record_clip(MidiClipRecordMode::Normal, true, 48000)
        .unwrap();
    slot.notify_recording_request_acknowledged(false, None)
        .unwrap();
    assert_eq!(slot.state(), SlotState::Normal);
    assert!(slot.is_empty());
}

#[test]
fn fill_play_clear_cycle() {
    let mut matrix = Matrix::new();
    let column_index = matrix.add_column();
    assert_eq!(column_index, 0);
    let mut rt = RtColumn::new();

    // Fill slot 0 with an audio clip.
    matrix
        .fill_slot_with_clip(0, 0, audio_clip(vec![1, 2, 3, 4]))
        .unwrap();
    let _ = pump(&mut matrix, &mut rt);

    // Play it; after the next pump the main model reports playing.
    matrix.play_clip(0, 0).unwrap();
    let changes = pump(&mut matrix, &mut rt);
    assert!(changes.contains(&(0, ClipChangeEvent::PlayState(ClipPlayState::Playing))));
    assert_eq!(matrix.clip_play_state(0, 0).unwrap(), ClipPlayState::Playing);

    // Clearing during playback empties the slot.
    matrix.clear_slot(0, 0).unwrap();
    let changes = pump(&mut matrix, &mut rt);
    assert!(changes.contains(&(0, ClipChangeEvent::Removed)));
    let column: &Column = matrix.column(0).unwrap();
    assert!(column.slot_is_empty(0));
    assert!(matrix.clip_play_state(0, 0).is_err());
}

#[test]
fn filling_non_empty_slot_fails() {
    let mut matrix = Matrix::new();
    matrix.add_column();
    matrix
        .fill_slot_with_clip(0, 0, audio_clip(vec![1, 2]))
        .unwrap();
    let second = matrix.fill_slot_with_clip(0, 0, audio_clip(vec![3]));
    assert_eq!(second.unwrap_err(), "slot is not empty");
}

#[test]
fn record_through_matrix() {
    let mut matrix = Matrix::new();
    matrix.add_column();
    let mut rt = RtColumn::new();
    matrix
        .record_clip(0, 5, MidiClipRecordMode::Normal, false, 48000)
        .unwrap();
    // A second request while the first is in flight is rejected.
    let second = matrix.record_clip(0, 5, MidiClipRecordMode::Normal, false, 48000);
    assert_eq!(second.unwrap_err(), "recording already");
    let _ = pump(&mut matrix, &mut rt);

    // The real-time side gathers material, then a stop commits it.
    rt.write_record_block(5, &vec![10, 20, 30]);
    rt.stop_clip(5);
    let changes = pump(&mut matrix, &mut rt);
    assert!(changes.contains(&(5, ClipChangeEvent::RecordingFinished)));
    let column = matrix.column(0).unwrap();
    let slot = column.slot(5).unwrap();
    assert_eq!(slot.state(), SlotState::Normal);
    assert!(slot.clip().is_some());
}

#[test]
fn record_cancel_through_matrix() {
    let mut matrix = Matrix::new();
    matrix.add_column();
    let mut rt = RtColumn::new();
    matrix
        .record_clip(0, 5, MidiClipRecordMode::Normal, false, 48000)
        .unwrap();
    let _ = pump(&mut matrix, &mut rt);
    // Stopping before any material arrived cancels the recording.
    rt.stop_clip(5);
    let changes = pump(&mut matrix, &mut rt);
    assert!(changes.contains(&(5, ClipChangeEvent::Removed)));
    let column = matrix.column(0).unwrap();
    let slot = column.slot(5).unwrap();
    assert_eq!(slot.state(), SlotState::Normal);
    assert!(slot.clip().is_none());
}

#[test]
fn supplier_chain_delivers_every_frame_once() {
    // A supplier with 1000 frames, pulled in blocks of 128 at equal rates,
    // reports exactly 1000 written frames over the run.
    let frames: Vec<i32> = (0..1000).collect();
    let chain = SupplierChain::new(frames);
    assert_eq!(chain.play_through(128), 1000);
    // Also when the block size does not divide the total.
    let frames: Vec<i32> = (0..1000).collect();
    let chain = SupplierChain::new(frames);
    assert_eq!(chain.play_through(333), 1000);
}

#[test]
fn supplier_chain_copies_and_scales_material() {
    let chain = SupplierChain::new(vec![100, -200, 300]);
    let mut buffer = vec![0i32; 5];
    let response = chain.supply_audio(0, &mut buffer);
    assert_eq!(response.num_frames_consumed, 3);
    assert_eq!(
        response.status,
        SupplyResponseStatus::ReachedEnd {
            num_frames_written: 3
        }
    );
    assert_eq!(&buffer[..3], &[100, -200, 300]);

    // Half volume scales the samples, truncating toward zero.
    let mut chain = SupplierChain::new(vec![100, -201, 300]);
    chain.set_volume(1, 2);
    let mut buffer = vec![0i32; 3];
    let response = chain.supply_audio(0, &mut buffer);
    assert_eq!(response.num_frames_consumed, 3);
    assert_eq!(&buffer[..], &[50, -100, 150]);
}

#[test]
fn slot_position_reporting() {
    let mut slot = Slot::new(0);
    let api_clip = audio_clip(vec![0; 48000]);
    slot.fill_with(
        realearn::clip::Clip::load(&api_clip),
        MaterialInfo {
            is_midi: false,
            frame_count: 48000,
            frame_rate: 48000,
            channel_count: 2,
        },
    );
    slot.update_pos(12000).unwrap();
    // A quarter of the material.
    assert_eq!(slot.proportional_position().unwrap().get(), 250_000);
    // 12000 frames at 48 kHz are 250 ms; a time-based clip ignores tempo.
    assert_eq!(slot.position_in_millis(14000).unwrap(), 250);
}
