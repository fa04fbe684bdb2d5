use daq_recorder::entry::{record_entry, write_duration_attr_name};
use daq_recorder::errors::PipelineError;
use daq_recorder::layout::{ChannelSpec, RegisterLayout};
use daq_recorder::record::SampleRecord;
use daq_recorder::recorder::{Recorder, SessionPhase};
use std::collections::HashSet;

const MIDDAY: u64 = 1_705_320_000 * 1_000_000_000; // 2024-01-15 12:00:00 UTC
const NEXT_MIDNIGHT: u64 = 1_705_363_200 * 1_000_000_000; // 2024-01-16 00:00:00 UTC

fn one_channel_layout() -> RegisterLayout {
    RegisterLayout {
        active_pulse_offset: 0,
        total_pulse_offset: 8,
        state_offset: 16,
        samples_per_channel: 2,
        channels: vec![ChannelSpec { name: "cav_probe_pwr".to_string(), offset: 0 }],
    }
}

fn make_record(sequence: u64) -> SampleRecord {
    SampleRecord {
        sequence,
        captured_at_nanos: MIDDAY + sequence * 2_500_000,
        active_pulse: 17,
        total_pulse: 1_000 + sequence as u32,
        state: 3,
        waveforms: vec![vec![10, 20]],
    }
}

#[test]
fn session_names_and_rotation() {
    let mut recorder = Recorder::start(MIDDAY, 10);
    assert_eq!(recorder.session.path, "2024-01-15 12:00:00.h5");
    assert_eq!(recorder.session.day_boundary_nanos, NEXT_MIDNIGHT);
    assert!(!recorder.rotation_due(NEXT_MIDNIGHT - 1));
    assert!(recorder.rotation_due(NEXT_MIDNIGHT));

    let flush = recorder.commit(&make_record(0), true);
    assert!(!flush);
    assert_eq!(recorder.committed_total, 1);

    let closed = recorder.rotate(NEXT_MIDNIGHT + 5);
    assert_eq!(closed.path, "2024-01-15 12:00:00.h5");
    assert!(matches!(closed.phase, SessionPhase::Closing));
    assert_eq!(closed.record_count, 1);

    // The new session is fresh and the boundary was consumed: checking
    // again in the same window finds no rotation due.
    assert_eq!(recorder.session.path, "2024-01-16 00:00:00.h5");
    assert_eq!(recorder.session.record_count, 0);
    assert_eq!(recorder.sessions_opened, 2);
    assert!(!recorder.rotation_due(NEXT_MIDNIGHT + 5));
    assert!(!recorder.rotation_due(NEXT_MIDNIGHT + 60_000_000_000));
    // Nothing committed was lost across the rotation.
    assert_eq!(recorder.committed_total, 1);
}

#[test]
fn flush_pacing_every_n_commits() {
    let mut recorder = Recorder::start(MIDDAY, 10);
    let mut flushes = 0;
    for k in 0..25 {
        if recorder.commit(&make_record(k), true) {
            flushes += 1;
        }
    }
    assert_eq!(flushes, 2); // after the 10th and the 20th record
    assert_eq!(recorder.session.record_count, 25);
}

#[test]
fn entry_shape_of_one_record() {
    let layout = one_channel_layout();
    let rec = make_record(7);
    let entry = record_entry(&rec, &layout);
    assert_eq!(entry.group_name, "2024-01-15 12:00:00.017500000");
    let names: Vec<&str> = entry.attrs.iter().map(|a| a.0.as_str()).collect();
    assert_eq!(
        names,
        ["internal_count", "active_pulse", "total_pulse", "state", "datetime"]
    );
    assert_eq!(entry.attrs[0].1, 7);
    assert_eq!(entry.attrs[1].1, 17);
    assert_eq!(entry.attrs[2].1, 1_007);
    assert_eq!(entry.attrs[3].1, 3);
    assert_eq!(entry.attrs[4].1, rec.captured_at_nanos);
    assert_eq!(entry.datasets.len(), 1);
    assert_eq!(entry.datasets[0].0, "cav_probe_pwr");
    assert_eq!(entry.datasets[0].1, vec![10, 20]);
    // The auxiliary timing attribute is written after the datasets, under
    // this name.
    assert_eq!(write_duration_attr_name(), "write_duration");
}

#[test]
fn drain_commits_every_queued_record_once() {
    // Shutdown arrives while fifty records sit unprocessed in the channel:
    // the drain writes all fifty, each exactly once, then the recorder ends.
    let layout = one_channel_layout();
    let queued: Vec<SampleRecord> = (0..50).map(make_record).collect();
    let mut recorder = Recorder::start(MIDDAY, 10);
    recorder.begin_drain();

    let mut group_names = HashSet::new();
    let mut sequences = Vec::new();
    for rec in &queued {
        let entry = record_entry(rec, &layout);
        assert!(group_names.insert(entry.group_name.clone()), "a record was written twice");
        sequences.push(entry.attrs[0].1);
        recorder.commit(rec, true);
    }

    assert_eq!(recorder.committed_total, 50);
    assert_eq!(sequences, (0..50).collect::<Vec<u64>>());
    let closed = recorder.finish();
    assert_eq!(closed.record_count, 50);
    assert!(matches!(closed.phase, SessionPhase::Closing));
}

#[test]
fn empty_channel_at_shutdown_ends_immediately() {
    let mut recorder = Recorder::start(MIDDAY, 10);
    recorder.begin_drain();
    // Nothing was queued: the first non-blocking receive reports empty and
    // the recorder closes with nothing committed.
    let closed = recorder.finish();
    assert_eq!(closed.record_count, 0);
}

#[test]
fn one_failed_write_loses_exactly_one_record() {
    // One record's write raises a recoverable failure: the loop continues,
    // the next record's sequence is one past the failed one, and the
    // committed count is the produced count minus exactly one.
    let produced: Vec<SampleRecord> = (0..5).map(make_record).collect();
    let mut recorder = Recorder::start(MIDDAY, 10);
    for rec in &produced {
        let write_ok = rec.sequence != 2;
        recorder.commit(rec, write_ok);
    }
    assert_eq!(recorder.committed_total, produced.len() as u64 - 1);
    assert_eq!(produced[3].sequence, produced[2].sequence + 1);
}

#[test]
fn error_taxonomy() {
    assert!(PipelineError::SourceRead.is_fatal());
    assert!(PipelineError::SessionOpen.is_fatal());
    assert!(!PipelineError::RecordWrite.is_fatal());
    assert!(!PipelineError::Offload.is_fatal());
    assert!(!PipelineError::ChannelClosed.is_fatal());
    assert_eq!(PipelineError::SourceRead.describe(), "register source read failed");
    assert_eq!(PipelineError::SessionOpen.describe(), "archive session could not be opened");
    assert_eq!(PipelineError::RecordWrite.describe(), "one record's write failed");
    assert_eq!(PipelineError::Offload.describe(), "offload of a closed archive failed");
    assert_eq!(PipelineError::ChannelClosed.describe(), "record channel closed during shutdown");
}
