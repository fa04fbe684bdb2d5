use daq_recorder::clock::deadline_after_minutes;
use daq_recorder::layout::{ChannelSpec, RegisterLayout};
use daq_recorder::recorder::Recorder;
use daq_recorder::scheduler::Scheduler;

const MIDDAY: u64 = 1_705_320_000 * 1_000_000_000; // 2024-01-15 12:00:00 UTC
const PERIOD_NANOS: u64 = 2_500_000; // 2500 microseconds

fn tiny_layout() -> RegisterLayout {
    RegisterLayout {
        active_pulse_offset: 0,
        total_pulse_offset: 8,
        state_offset: 16,
        samples_per_channel: 2,
        channels: vec![ChannelSpec { name: "kly_fwd_pwr".to_string(), offset: 0 }],
    }
}

fn scalar_image() -> Vec<u8> {
    let mut image = Vec::new();
    image.extend_from_slice(&0x1_0000_0011u64.to_le_bytes()); // truncates to 0x11
    image.extend_from_slice(&42u64.to_le_bytes());
    image.extend_from_slice(&5u64.to_le_bytes());
    image
}

#[test]
fn tick_decodes_and_numbers_records() {
    let bar1 = scalar_image();
    let dma: Vec<u8> = vec![0x34, 0x12, 0x78, 0x56];
    let mut sched = Scheduler::new(tiny_layout(), MIDDAY + 10);
    let (rec, done) = sched.tick(MIDDAY, &bar1, &dma);
    assert!(!done);
    assert_eq!(rec.sequence, 0);
    assert_eq!(rec.captured_at_nanos, MIDDAY);
    assert_eq!(rec.active_pulse, 0x11); // only the low 32 bits are kept
    assert_eq!(rec.total_pulse, 42);
    assert_eq!(rec.state, 5);
    assert_eq!(rec.waveforms, vec![vec![0x1234, 0x5678]]);

    // The boundary tick, at the deadline itself, is still delivered.
    let (rec, done) = sched.tick(MIDDAY + 10, &bar1, &dma);
    assert!(done);
    assert_eq!(rec.sequence, 1);
}

#[test]
fn one_minute_run_at_2500_microseconds() {
    // Period 2500 us over a one-minute run: about 24000 records, sequence
    // numbers contiguous from zero, all committed, and a single session
    // because no midnight is crossed.
    let bar1 = scalar_image();
    let dma: Vec<u8> = vec![1, 0, 2, 0];
    let layout = tiny_layout();
    let deadline = deadline_after_minutes(MIDDAY, 1);
    let mut sched = Scheduler::new(layout, deadline);

    let capture_times: Vec<u64> =
        (0..30_000u64).map(|k| MIDDAY + k * PERIOD_NANOS).collect();
    let records = sched.run(&capture_times, &bar1, &dma);

    assert!(records.len() >= 24_000 && records.len() <= 24_001, "len = {}", records.len());
    for (k, rec) in records.iter().enumerate() {
        assert_eq!(rec.sequence, k as u64);
        assert_eq!(rec.captured_at_nanos, capture_times[k]);
    }
    // Every tick before the boundary tick lies before the deadline; the
    // boundary tick itself reached it.
    let last = records.last().unwrap();
    assert!(last.captured_at_nanos >= deadline);
    assert!(records[records.len() - 2].captured_at_nanos < deadline);

    let mut recorder = Recorder::start(MIDDAY, 10);
    for rec in &records {
        assert!(!recorder.rotation_due(rec.captured_at_nanos));
        recorder.commit(rec, true);
    }
    assert_eq!(recorder.committed_total, records.len() as u64);
    assert_eq!(recorder.sessions_opened, 1);
}

#[test]
fn rotation_mid_stream_loses_nothing() {
    // Records straddle a midnight: the ones written before the boundary go
    // to the first session, the rest to the second, and none is dropped.
    let bar1 = scalar_image();
    let dma: Vec<u8> = vec![1, 0, 2, 0];
    let layout = tiny_layout();
    let night = 1_705_363_200 * 1_000_000_000u64 - 5 * PERIOD_NANOS; // just before midnight
    let mut sched = Scheduler::new(layout, u64::MAX);

    let capture_times: Vec<u64> = (0..10u64).map(|k| night + k * PERIOD_NANOS).collect();
    let records = sched.run(&capture_times, &bar1, &dma);
    assert_eq!(records.len(), 10);

    let mut recorder = Recorder::start(night, 10);
    let mut closed_sessions = Vec::new();
    for rec in &records {
        if recorder.rotation_due(rec.captured_at_nanos) {
            closed_sessions.push(recorder.rotate(rec.captured_at_nanos));
        }
        recorder.commit(rec, true);
    }
    assert_eq!(closed_sessions.len(), 1); // exactly one boundary was crossed
    assert_eq!(closed_sessions[0].record_count, 5);
    assert_eq!(recorder.session.record_count, 5);
    assert_eq!(recorder.committed_total, 10);
    assert_eq!(recorder.sessions_opened, 2);
}
