use std::sync::Arc;

use peanut::download::{DownloadAction, DownloadInput, Verdict};
use peanut::id::{Id, MediaType, Platform};
use peanut::playback::{PlaybackAction, PlaybackInput};
use peanut::service::{PlaybackRequest, PlaylistSessions};
use peanut::track::{Artist, Track, TrackList};

fn list(n: usize) -> TrackList {
    let tracks: Vec<Track> = (0..n)
        .map(|i| {
            let id = Id::new(Platform::Youtube, MediaType::Track, format!("id{i}"));
            Track {
                title: format!("t{i}"),
                duration_secs: 10,
                artist: Artist::Community("c".to_string()),
                album: None,
                source_id: id.clone(),
                dyn_id: id,
                url: String::new(),
            }
        })
        .collect();
    TrackList::from_tracks(Arc::new(tracks))
}

#[test]
fn second_start_is_rejected() {
    let l = list(2);
    let mut reg = PlaylistSessions::new();
    assert!(!reg.is_downloading(7));
    assert!(reg.start_download(7, &l));
    assert!(!reg.start_download(7, &l));
    assert!(reg.is_downloading(7));
    assert!(reg.start_playback(7, &l, true, 100));
    assert!(!reg.start_playback(7, &l, true, 100));
    assert!(reg.is_playing(7));
    assert!(!reg.is_downloading(8));
}

#[test]
fn ended_session_leaves_registry() {
    let l = list(1);
    let mut reg = PlaylistSessions::new();
    reg.start_download(1, &l);
    assert_eq!(
        reg.resume_download(1, DownloadInput::Proceed),
        Some(DownloadAction::QueryStatus { position: 0, track: 0 })
    );
    assert_eq!(
        reg.resume_download(1, DownloadInput::Status { downloaded: true }),
        Some(DownloadAction::PlaylistFinished { verdict: Verdict::Finished })
    );
    assert!(!reg.is_downloading(1));
    assert_eq!(reg.resume_download(1, DownloadInput::Proceed), None);
    assert!(!reg.stop_download(1));
    assert!(!reg.cancel_download(1));
}

#[test]
fn prioritize_moves_download_to_position() {
    let l = list(3);
    let mut reg = PlaylistSessions::new();
    reg.start_download(2, &l);
    assert!(!reg.prioritize(2, 3));
    assert!(reg.prioritize(2, 2));
    assert_eq!(
        reg.resume_download(2, DownloadInput::Proceed),
        Some(DownloadAction::QueryStatus { position: 2, track: 2 })
    );
    assert!(!reg.prioritize(9, 0));
}

#[test]
fn playback_controls_through_registry() {
    let l = list(3);
    let mut reg = PlaylistSessions::new();
    reg.start_playback(4, &l, false, 100);
    assert!(reg.control_playback(4, PlaybackRequest::Volume(30)));
    reg.resume_playback(4, PlaybackInput::Proceed);
    assert_eq!(
        reg.resume_playback(4, PlaybackInput::Status { downloaded: true }),
        Some(PlaybackAction::Started { position: 0, track: 0, start_paused: true, volume: 30 })
    );
    assert_eq!(reg.current_track(4), Some(0));
    assert!(!reg.control_playback(4, PlaybackRequest::Previous));
    assert!(reg.control_playback(4, PlaybackRequest::Cancel));
    assert_eq!(
        reg.resume_playback(4, PlaybackInput::Ended),
        Some(PlaybackAction::Cancelled)
    );
    assert!(!reg.is_playing(4));
    assert_eq!(reg.current_track(4), None);
}

#[test]
fn reorder_restarts_both_sessions() {
    let l = list(3);
    let mut reg = PlaylistSessions::new();
    reg.start_download(5, &l);
    reg.start_playback(5, &l, true, 100);
    let mut shuffled = list(3);
    shuffled.shuffle(&vec![0, 0]);
    assert_eq!(reg.reorder(5, &shuffled), (true, true));
    // order [1, 2, 0]
    assert_eq!(
        reg.resume_download(5, DownloadInput::Proceed),
        Some(DownloadAction::QueryStatus { position: 0, track: 1 })
    );
    assert_eq!(
        reg.resume_playback(5, PlaybackInput::Proceed),
        Some(PlaybackAction::QueryStatus { position: 0, track: 1 })
    );
    assert_eq!(reg.reorder(6, &shuffled), (false, false));
}
