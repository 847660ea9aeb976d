use peanut::heartbeat::{Heartbeat, Sample, Tick};

fn sample(count_before: u64, position: u64) -> Sample {
    Sample { count_before, position, stopped: false }
}

#[test]
fn natural_loop_detected_once() {
    let mut h = Heartbeat::new();
    let mut loops = 0;
    let mut last = None;
    for (i, pos) in [10_000u64, 11_000, 12_000, 2_000].iter().enumerate() {
        let t = h.tick(sample(h.seek_count(), *pos));
        if let Tick::Report { looped: true, .. } = t {
            loops += 1;
            last = Some(i);
        }
    }
    assert_eq!(loops, 1);
    assert_eq!(last, Some(3));
    assert_eq!(h.last_known_position(), 2_000);
}

#[test]
fn seek_between_samples_is_no_loop() {
    let mut h = Heartbeat::new();
    let mut loops = 0;
    for pos in [10_000u64, 11_000, 12_000] {
        if let Tick::Report { looped: true, .. } = h.tick(sample(h.seek_count(), pos)) {
            loops += 1;
        }
    }
    // A seek to 2 s is recorded before the fourth sample.
    assert!(!h.record_seek(12_050, 2_000));
    let t = h.tick(sample(h.seek_count(), 2_000));
    assert_eq!(t, Tick::Settled);
    if let Tick::Report { looped: true, .. } = t {
        loops += 1;
    }
    assert_eq!(loops, 0);
}

#[test]
fn report_forwards_changed_positions_only() {
    let mut h = Heartbeat::new();
    assert_eq!(
        h.tick(sample(0, 100)),
        Tick::Report { looped: false, progress: Some(100) }
    );
    assert_eq!(h.tick(sample(0, 100)), Tick::Report { looped: false, progress: None });
    // Going back within the tolerance is no loop.
    assert_eq!(
        h.tick(sample(0, 0)),
        Tick::Report { looped: false, progress: Some(0) }
    );
}

#[test]
fn discarded_sample_keeps_last_position() {
    let mut h = Heartbeat::new();
    h.tick(sample(0, 5_000));
    h.record_seek(5_000, 30_000);
    // The counter moved while the position was read: the sample is dropped.
    assert_eq!(h.tick(sample(0, 5_100)), Tick::Discarded);
    assert_eq!(h.last_known_position(), 30_000);
    // The next sample agrees with the seek and is taken.
    assert_eq!(h.tick(sample(1, 30_100)), Tick::Report { looped: false, progress: Some(30_100) });
}

#[test]
fn lagging_engine_after_seek_is_ignored() {
    let mut h = Heartbeat::new();
    h.tick(sample(0, 5_000));
    h.record_seek(5_000, 60_000);
    assert_eq!(h.tick(sample(1, 5_100)), Tick::Lagging);
    assert_eq!(h.last_known_position(), 60_000);
    assert_eq!(h.tick(sample(1, 60_200)), Tick::Settled);
    assert_eq!(h.last_known_position(), 60_200);
}

#[test]
fn stopped_track_ends_heartbeat() {
    let mut h = Heartbeat::new();
    assert_eq!(
        h.tick(Sample { count_before: 0, position: 9, stopped: true }),
        Tick::Stopped
    );
    assert_eq!(h.last_known_position(), 0);
}

#[test]
fn seek_reports_loop_it_hides() {
    let mut h = Heartbeat::new();
    h.tick(sample(0, 50_000));
    // The track looped to 1 s just before a seek that the heartbeat had not seen.
    assert!(h.record_seek(1_000, 20_000));
    assert_eq!(h.seek_count(), 1);
}
