use std::sync::Arc;

use peanut::download::{Control, DownloadAction, DownloadInput, DownloadSession, Verdict};
use peanut::id::{Id, MediaType, Platform};
use peanut::track::{Artist, Track, TrackList};

fn track(name: &str) -> Track {
    let id = Id::new(Platform::Youtube, MediaType::Track, name.to_string());
    Track {
        title: name.to_string(),
        duration_secs: 60,
        artist: Artist::Official(vec!["artist".to_string()]),
        album: None,
        source_id: id.clone(),
        dyn_id: id,
        url: String::new(),
    }
}

fn list(n: usize) -> TrackList {
    let names: Vec<String> = (0..n).map(|i| format!("t{i}")).collect();
    TrackList::from_tracks(Arc::new(names.iter().map(|n| track(n)).collect()))
}

/// Runs a session to its end: `downloaded` says which tracks are already
/// there, `updated` which downloads return a corrected record.
fn run(session: &mut DownloadSession, downloaded: &[usize], updated: &[usize]) -> Vec<DownloadAction> {
    let mut log = Vec::new();
    let mut action = session.resume(DownloadInput::Proceed);
    loop {
        log.push(action);
        let input = match action {
            DownloadAction::QueryStatus { track, .. } => DownloadInput::Status {
                downloaded: downloaded.contains(&track),
            },
            DownloadAction::Started { track, .. } => DownloadInput::Completed {
                success: true,
                updated: updated.contains(&track),
            },
            DownloadAction::Updated { .. } | DownloadAction::TrackFinished { .. } => {
                DownloadInput::Proceed
            }
            DownloadAction::PlaylistFinished { .. } | DownloadAction::Ignored => break,
        };
        action = session.resume(input);
    }
    log
}

fn events(log: &[DownloadAction]) -> Vec<DownloadAction> {
    log.iter()
        .filter(|a| !matches!(a, DownloadAction::QueryStatus { .. }))
        .cloned()
        .collect()
}

#[test]
fn downloaded_track_emits_nothing() {
    let l = list(3);
    let mut s = DownloadSession::new(&l);
    let log = run(&mut s, &[1], &[]);
    assert_eq!(
        events(&log),
        vec![
            DownloadAction::Started { position: 0, track: 0 },
            DownloadAction::TrackFinished { track: 0, success: true },
            DownloadAction::Started { position: 2, track: 2 },
            DownloadAction::TrackFinished { track: 2, success: true },
            DownloadAction::PlaylistFinished { verdict: Verdict::Finished },
        ]
    );
    assert!(s.is_over());
}

#[test]
fn updated_record_reported_before_finish() {
    let l = list(1);
    let mut s = DownloadSession::new(&l);
    let log = run(&mut s, &[], &[0]);
    assert_eq!(
        events(&log),
        vec![
            DownloadAction::Started { position: 0, track: 0 },
            DownloadAction::Updated { track: 0 },
            DownloadAction::TrackFinished { track: 0, success: true },
            DownloadAction::PlaylistFinished { verdict: Verdict::Finished },
        ]
    );
}

#[test]
fn stop_mid_download_finishes_current_only() {
    let l = list(3);
    let mut s = DownloadSession::new(&l);
    assert_eq!(
        s.resume(DownloadInput::Proceed),
        DownloadAction::QueryStatus { position: 0, track: 0 }
    );
    assert_eq!(
        s.resume(DownloadInput::Status { downloaded: false }),
        DownloadAction::Started { position: 0, track: 0 }
    );
    assert!(s.request_stop());
    assert_eq!(s.control(), Control::Stopping);
    assert_eq!(
        s.resume(DownloadInput::Completed { success: true, updated: false }),
        DownloadAction::TrackFinished { track: 0, success: true }
    );
    assert_eq!(
        s.resume(DownloadInput::Proceed),
        DownloadAction::PlaylistFinished { verdict: Verdict::Stopped }
    );
    assert!(s.is_over());
    // Calls on an ended session are no-ops.
    assert!(!s.request_stop());
    assert!(!s.request_cancel());
    assert_eq!(s.resume(DownloadInput::Proceed), DownloadAction::Ignored);
}

#[test]
fn cancel_abandons_in_flight_download() {
    let l = list(2);
    let mut s = DownloadSession::new(&l);
    s.resume(DownloadInput::Proceed);
    s.resume(DownloadInput::Status { downloaded: false });
    assert!(s.request_cancel());
    assert_eq!(
        s.resume(DownloadInput::Completed { success: true, updated: true }),
        DownloadAction::PlaylistFinished { verdict: Verdict::Cancelled }
    );
}

#[test]
fn failed_download_reported_and_walk_continues() {
    let l = list(2);
    let mut s = DownloadSession::new(&l);
    s.resume(DownloadInput::Proceed);
    s.resume(DownloadInput::Status { downloaded: false });
    assert_eq!(
        s.resume(DownloadInput::Completed { success: false, updated: false }),
        DownloadAction::TrackFinished { track: 0, success: false }
    );
    assert_eq!(
        s.resume(DownloadInput::Proceed),
        DownloadAction::QueryStatus { position: 1, track: 1 }
    );
}

#[test]
fn jump_restarts_at_index_and_rejects_past_end() {
    let l = list(4);
    let mut s = DownloadSession::new(&l);
    assert!(!s.jump_to_index(4));
    assert!(s.jump_to_index(2));
    assert_eq!(
        s.resume(DownloadInput::Proceed),
        DownloadAction::QueryStatus { position: 2, track: 2 }
    );
    // A restart mid-pass drops the stale status answer and starts the new order.
    let mut shuffled = list(4);
    shuffled.shuffle(&vec![0, 0, 0]);
    let first = shuffled.order().indices()[0];
    assert!(s.restart_with(&shuffled));
    assert_eq!(
        s.resume(DownloadInput::Status { downloaded: false }),
        DownloadAction::QueryStatus { position: 0, track: first }
    );
}

#[test]
fn restart_before_first_pass_is_fresh_start() {
    let l = list(2);
    let mut s = DownloadSession::new(&l);
    let mut other = list(2);
    other.shuffle(&vec![0]);
    assert!(s.restart_with(&other));
    let log = run(&mut s, &[], &[]);
    assert_eq!(log[0], DownloadAction::QueryStatus { position: 0, track: 1 });
    assert_eq!(
        *log.last().unwrap(),
        DownloadAction::PlaylistFinished { verdict: Verdict::Finished }
    );
}

#[test]
fn empty_playlist_finishes_at_once() {
    let l = list(0);
    let mut s = DownloadSession::new(&l);
    assert_eq!(
        s.resume(DownloadInput::Proceed),
        DownloadAction::PlaylistFinished { verdict: Verdict::Finished }
    );
}
