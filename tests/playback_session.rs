use std::sync::Arc;

use peanut::download::{DownloadAction, DownloadInput, DownloadSession, Verdict};
use peanut::id::{Id, MediaType, Platform};
use peanut::playback::{PlaybackAction, PlaybackInput, PlaybackPhase, PlaybackSession};
use peanut::track::{Artist, Track, TrackList};

fn track(name: &str) -> Track {
    let id = Id::new(Platform::Youtube, MediaType::Track, name.to_string());
    Track {
        title: name.to_string(),
        duration_secs: 60,
        artist: Artist::Community("channel".to_string()),
        album: None,
        source_id: id.clone(),
        dyn_id: id,
        url: String::new(),
    }
}

fn list(n: usize) -> TrackList {
    let names: Vec<String> = (0..n).map(|i| format!("t{i}")).collect();
    TrackList::from_tracks(Arc::new(names.iter().map(|n| track(n)).collect()))
}

/// Starts `track` at `position` from a fresh or finished item, all downloaded.
fn play_to(s: &mut PlaybackSession, input: PlaybackInput, position: usize) -> PlaybackAction {
    assert_eq!(
        s.resume(input),
        PlaybackAction::QueryStatus { position, track: position }
    );
    s.resume(PlaybackInput::Status { downloaded: true })
}

#[test]
fn first_track_starts_paused_unless_autoplay() {
    let l = list(2);
    let mut s = PlaybackSession::new(&l, false, 80);
    assert_eq!(
        play_to(&mut s, PlaybackInput::Proceed, 0),
        PlaybackAction::Started { position: 0, track: 0, start_paused: true, volume: 80 }
    );
    assert_eq!(s.current_track(), Some(0));
    assert!(s.is_track_loaded());
    assert_eq!(s.resume(PlaybackInput::Ended), PlaybackAction::TrackEnded { track: 0 });
    s.set_volume(50);
    assert_eq!(
        play_to(&mut s, PlaybackInput::Proceed, 1),
        PlaybackAction::Started { position: 1, track: 1, start_paused: false, volume: 50 }
    );
    assert_eq!(s.resume(PlaybackInput::Ended), PlaybackAction::TrackEnded { track: 1 });
    assert_eq!(s.resume(PlaybackInput::Proceed), PlaybackAction::PlaybackFinished);
    assert!(s.is_over());

    let mut auto = PlaybackSession::new(&l, true, 100);
    assert_eq!(
        play_to(&mut auto, PlaybackInput::Proceed, 0),
        PlaybackAction::Started { position: 0, track: 0, start_paused: false, volume: 100 }
    );
}

#[test]
fn jump_to_length_finishes_session() {
    let l = list(3);
    let mut s = PlaybackSession::new(&l, true, 100);
    play_to(&mut s, PlaybackInput::Proceed, 0);
    assert!(s.jump_to_index(3));
    // The caller stops the playing track; its end arrives.
    assert_eq!(s.resume(PlaybackInput::Ended), PlaybackAction::TrackEnded { track: 0 });
    assert_eq!(s.resume(PlaybackInput::Proceed), PlaybackAction::PlaybackFinished);
    assert!(s.is_over());
    assert_eq!(s.resume(PlaybackInput::Proceed), PlaybackAction::Ignored);
}

#[test]
fn jump_plays_from_index() {
    let l = list(4);
    let mut s = PlaybackSession::new(&l, true, 100);
    play_to(&mut s, PlaybackInput::Proceed, 0);
    assert!(s.jump_to_index(2));
    s.resume(PlaybackInput::Ended);
    assert_eq!(
        play_to(&mut s, PlaybackInput::Proceed, 2),
        PlaybackAction::Started { position: 2, track: 2, start_paused: false, volume: 100 }
    );
}

#[test]
fn previous_at_start_is_noop() {
    let l = list(3);
    let mut s = PlaybackSession::new(&l, true, 100);
    assert!(!s.previous());
    play_to(&mut s, PlaybackInput::Proceed, 0);
    assert!(!s.previous());
    assert_eq!(s.position(), 0);
    assert_eq!(s.phase(), PlaybackPhase::Playing);
    // The track keeps playing; nothing new starts.
    assert_eq!(s.resume(PlaybackInput::Proceed), PlaybackAction::Ignored);
    assert_eq!(s.current_track(), Some(0));
}

#[test]
fn previous_steps_back_past_undownloaded() {
    let l = list(4);
    let mut s = PlaybackSession::new(&l, true, 100);
    s.jump_to_index(3);
    play_to(&mut s, PlaybackInput::Proceed, 3);
    assert!(s.previous());
    assert_eq!(s.resume(PlaybackInput::Ended), PlaybackAction::TrackEnded { track: 3 });
    assert_eq!(
        s.resume(PlaybackInput::Proceed),
        PlaybackAction::QueryStatus { position: 2, track: 2 }
    );
    assert_eq!(
        s.resume(PlaybackInput::Status { downloaded: false }),
        PlaybackAction::QueryStatus { position: 1, track: 1 }
    );
    assert_eq!(
        s.resume(PlaybackInput::Status { downloaded: true }),
        PlaybackAction::Started { position: 1, track: 1, start_paused: false, volume: 100 }
    );
}

#[test]
fn backward_search_gives_up_at_start() {
    let l = list(2);
    let mut s = PlaybackSession::new(&l, true, 100);
    s.jump_to_index(1);
    play_to(&mut s, PlaybackInput::Proceed, 1);
    assert!(s.previous());
    s.resume(PlaybackInput::Ended);
    s.resume(PlaybackInput::Proceed);
    assert_eq!(
        s.resume(PlaybackInput::Status { downloaded: false }),
        PlaybackAction::QueryDownloading { position: 0, track: 0 }
    );
}

#[test]
fn undownloaded_track_skipped_when_nothing_downloads() {
    let l = list(2);
    let mut s = PlaybackSession::new(&l, true, 100);
    s.resume(PlaybackInput::Proceed);
    assert_eq!(
        s.resume(PlaybackInput::Status { downloaded: false }),
        PlaybackAction::QueryDownloading { position: 0, track: 0 }
    );
    assert_eq!(
        s.resume(PlaybackInput::Downloading { active: false }),
        PlaybackAction::QueryStatus { position: 1, track: 1 }
    );
}

#[test]
fn interrupted_wait_skips_track_and_cancel_ends() {
    let l = list(2);
    let mut s = PlaybackSession::new(&l, true, 100);
    s.resume(PlaybackInput::Proceed);
    s.resume(PlaybackInput::Status { downloaded: false });
    assert_eq!(
        s.resume(PlaybackInput::Downloading { active: true }),
        PlaybackAction::Prioritize { position: 0, track: 0 }
    );
    assert_eq!(
        s.resume(PlaybackInput::Ready { ok: false }),
        PlaybackAction::QueryStatus { position: 1, track: 1 }
    );
    assert!(s.cancel());
    assert_eq!(
        s.resume(PlaybackInput::Status { downloaded: true }),
        PlaybackAction::Cancelled
    );
    assert!(!s.cancel());
}

#[test]
fn playback_waits_for_download_end_to_end() {
    let l = list(3);
    let mut downloaded: Vec<usize> = Vec::new();
    let mut play = PlaybackSession::new(&l, true, 100);
    let mut dl = DownloadSession::new(&l);

    // Playback finds A missing while the playlist downloads, and asks for it.
    assert_eq!(
        play.resume(PlaybackInput::Proceed),
        PlaybackAction::QueryStatus { position: 0, track: 0 }
    );
    assert_eq!(
        play.resume(PlaybackInput::Status { downloaded: downloaded.contains(&0) }),
        PlaybackAction::QueryDownloading { position: 0, track: 0 }
    );
    assert_eq!(
        play.resume(PlaybackInput::Downloading { active: true }),
        PlaybackAction::Prioritize { position: 0, track: 0 }
    );
    assert_eq!(play.phase(), PlaybackPhase::AwaitReady);

    // The download session takes A first.
    assert!(dl.jump_to_index(0));
    assert_eq!(
        dl.resume(DownloadInput::Proceed),
        DownloadAction::QueryStatus { position: 0, track: 0 }
    );
    assert_eq!(
        dl.resume(DownloadInput::Status { downloaded: false }),
        DownloadAction::Started { position: 0, track: 0 }
    );
    // Playback is still blocked on A.
    assert_eq!(play.phase(), PlaybackPhase::AwaitReady);
    assert_eq!(
        dl.resume(DownloadInput::Completed { success: true, updated: false }),
        DownloadAction::TrackFinished { track: 0, success: true }
    );
    downloaded.push(0);

    // A's "download finished" wakes playback, which starts A.
    assert_eq!(
        play.resume(PlaybackInput::Ready { ok: true }),
        PlaybackAction::Started { position: 0, track: 0, start_paused: false, volume: 100 }
    );

    // Downloads go on with B and C on their own.
    let mut rest = Vec::new();
    let mut a = dl.resume(DownloadInput::Proceed);
    loop {
        rest.push(a);
        let input = match a {
            DownloadAction::QueryStatus { track, .. } => DownloadInput::Status {
                downloaded: downloaded.contains(&track),
            },
            DownloadAction::Started { .. } => DownloadInput::Completed { success: true, updated: false },
            DownloadAction::TrackFinished { track, .. } => {
                downloaded.push(track);
                DownloadInput::Proceed
            }
            _ => break,
        };
        a = dl.resume(input);
    }
    assert!(rest.contains(&DownloadAction::Started { position: 1, track: 1 }));
    assert!(rest.contains(&DownloadAction::Started { position: 2, track: 2 }));
    assert_eq!(
        *rest.last().unwrap(),
        DownloadAction::PlaylistFinished { verdict: Verdict::Finished }
    );
    assert_eq!(play.current_track(), Some(0));
}
