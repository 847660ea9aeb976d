//! The owning playlist service's registry of sessions: at most one download
//! session and one playback session per playlist id.
//!
//! Sessions are only reached through the registry, so the two sessions of a
//! playlist never touch each other; the readiness handshake goes through
//! `is_downloading` and `prioritize`. A session that ends leaves the registry.
use std::collections::HashMap;
use vstd::prelude::*;

use crate::download::{
    download_walk, lemma_download_walks_to_end, DownloadAction, DownloadInput, DownloadModel,
    DownloadPhase, DownloadSession, Verdict,
};
use crate::playback::{
    PlaybackAction, PlaybackInput, PlaybackModel, PlaybackPhase, PlaybackSession,
};
use crate::track::TrackList;

verus! {

broadcast use vstd::std_specs::hash::group_hash_axioms;

/// Running sessions, keyed by playlist id.
pub struct PlaylistSessions {
    downloads: HashMap<u64, DownloadSession>,
    playbacks: HashMap<u64, PlaybackSession>,
}

impl PlaylistSessions {
    /// The running download sessions.
    pub closed spec fn downloads(&self) -> Map<u64, DownloadModel> {
        Map::new(|k: u64| self.downloads@.contains_key(k), |k: u64| self.downloads@[k]@)
    }

    /// The running playback sessions.
    pub closed spec fn playbacks(&self) -> Map<u64, PlaybackModel> {
        Map::new(|k: u64| self.playbacks@.contains_key(k), |k: u64| self.playbacks@[k]@)
    }

    /// Every registered session is well formed and has not ended.
    pub open spec fn wf(&self) -> bool {
        &&& forall|k: u64| #[trigger]
            self.downloads().contains_key(k) ==> self.downloads()[k].wf()
                && self.downloads()[k].phase != DownloadPhase::Over
        &&& forall|k: u64| #[trigger]
            self.playbacks().contains_key(k) ==> self.playbacks()[k].wf()
                && self.playbacks()[k].phase != PlaybackPhase::Over
    }

    pub fn new() -> (r: PlaylistSessions)
        ensures
            r.wf(),
            r.downloads() == Map::<u64, DownloadModel>::empty(),
            r.playbacks() == Map::<u64, PlaybackModel>::empty(),
    {
        let r = PlaylistSessions { downloads: HashMap::new(), playbacks: HashMap::new() };
        assert(r.downloads() =~= Map::<u64, DownloadModel>::empty());
        assert(r.playbacks() =~= Map::<u64, PlaybackModel>::empty());
        r
    }

    /// Whether playlist `id` is downloading: the query playback asks before it
    /// waits for a track.
    pub fn is_downloading(&self, id: u64) -> (r: bool)
        ensures
            r == self.downloads().contains_key(id),
    {
        self.downloads.contains_key(&id)
    }

    /// Whether playlist `id` is playing.
    pub fn is_playing(&self, id: u64) -> (r: bool)
        ensures
            r == self.playbacks().contains_key(id),
    {
        self.playbacks.contains_key(&id)
    }

    /// Registers a download session over `list` for playlist `id`; a second
    /// start while one runs is rejected.
    pub fn start_download(&mut self, id: u64, list: &TrackList) -> (started: bool)
        requires
            old(self).wf(),
            list.wf(),
        ensures
            final(self).wf(),
            started == !old(self).downloads().contains_key(id),
            final(self).playbacks() == old(self).playbacks(),
            started ==> final(self).downloads() == old(self).downloads().insert(
                id,
                DownloadSession::new_model(list.order_view()),
            ),
            !started ==> final(self).downloads() == old(self).downloads(),
    {
        if self.downloads.contains_key(&id) {
            return false;
        }
        let s = DownloadSession::new(list);
        self.downloads.insert(id, s);
        assert(self.downloads() =~= old(self).downloads().insert(
            id,
            DownloadSession::new_model(list.order_view()),
        ));
        true
    }

    /// Feeds `input` to playlist `id`'s download session; `None` when there is none.
    pub fn resume_download(&mut self, id: u64, input: DownloadInput) -> (r: Option<DownloadAction>)
        requires
            old(self).wf(),
        ensures
            final(self).wf(),
            final(self).playbacks() == old(self).playbacks(),
            !old(self).downloads().contains_key(id) ==> r is None && final(self).downloads()
                == old(self).downloads(),
            old(self).downloads().contains_key(id) ==> {
                let (m, a) = old(self).downloads()[id].step(input);
                &&& r == Some(a)
                &&& m.phase == DownloadPhase::Over ==> final(self).downloads() == old(self).downloads().remove(id)
                &&& m.phase != DownloadPhase::Over ==> final(self).downloads() == old(self).downloads().insert(id, m)
            },
    {
        match self.downloads.remove(&id) {
            None => {
                assert(self.downloads() =~= old(self).downloads());
                None
            },
            Some(mut s) => {
                assert(old(self).downloads().contains_key(id));
                let a = s.resume(input);
                if !s.is_over() {
                    self.downloads.insert(id, s);
                    assert(self.downloads() =~= old(self).downloads().insert(id, s@));
                } else {
                    assert(self.downloads() =~= old(self).downloads().remove(id));
                }
                Some(a)
            },
        }
    }

    /// Applies `request` to playlist `id`'s download session.
    pub fn control_download(&mut self, id: u64, request: DownloadRequest) -> (r: bool)
        requires
            old(self).wf(),
        ensures
            final(self).wf(),
            final(self).playbacks() == old(self).playbacks(),
            !old(self).downloads().contains_key(id) ==> !r && final(self).downloads() == old(self).downloads(),
            old(self).downloads().contains_key(id) ==> final(self).downloads().contains_key(id)
                && final(self).downloads() == old(self).downloads().insert(
                id,
                final(self).downloads()[id],
            ) && request.applied(old(self).downloads()[id], final(self).downloads()[id], r),
    {
        match self.downloads.remove(&id) {
            None => {
                assert(self.downloads() =~= old(self).downloads());
                false
            },
            Some(mut s) => {
                assert(old(self).downloads().contains_key(id));
                assert(s@ == old(self).downloads()[id]);
                let r = match request {
                    DownloadRequest::Stop => s.request_stop(),
                    DownloadRequest::Cancel => s.request_cancel(),
                    DownloadRequest::Jump(n) => s.jump_to_index(n),
                };
                self.downloads.insert(id, s);
                assert(self.downloads() =~= old(self).downloads().insert(id, s@));
                r
            },
        }
    }

    /// Asks playlist `id`'s download to end after the current track.
    pub fn stop_download(&mut self, id: u64) -> (r: bool)
        requires
            old(self).wf(),
        ensures
            final(self).wf(),
            final(self).playbacks() == old(self).playbacks(),
            r == old(self).downloads().contains_key(id),
            r ==> final(self).downloads() == old(self).downloads().insert(
                id,
                old(self).downloads()[id].stopped(),
            ),
            !r ==> final(self).downloads() == old(self).downloads(),
    {
        self.control_download(id, DownloadRequest::Stop)
    }

    /// Cancels playlist `id`'s download; its next input ends it.
    pub fn cancel_download(&mut self, id: u64) -> (r: bool)
        requires
            old(self).wf(),
        ensures
            final(self).wf(),
            final(self).playbacks() == old(self).playbacks(),
            r == old(self).downloads().contains_key(id),
            r ==> final(self).downloads() == old(self).downloads().insert(
                id,
                DownloadModel { control: crate::download::Control::Cancelled, ..old(self).downloads()[id] },
            ),
            !r ==> final(self).downloads() == old(self).downloads(),
    {
        self.control_download(id, DownloadRequest::Cancel)
    }

    /// Has playlist `id`'s download take position `n` next: the readiness
    /// handshake's "prioritize". False when no download runs or `n` is not a
    /// position of its order.
    pub fn prioritize(&mut self, id: u64, n: usize) -> (r: bool)
        requires
            old(self).wf(),
        ensures
            final(self).wf(),
            final(self).playbacks() == old(self).playbacks(),
            r == (old(self).downloads().contains_key(id) && n < old(self).downloads()[id].next_order().len()
                && old(self).downloads()[id].control != crate::download::Control::Cancelled),
            !old(self).downloads().contains_key(id) ==> final(self).downloads() == old(self).downloads(),
            old(self).downloads().contains_key(id) ==> final(self).downloads() == old(self).downloads().insert(
                id,
                if r {
                    DownloadModel {
                        start: n as nat,
                        control: crate::download::Control::Restarting,
                        ..old(self).downloads()[id]
                    }
                } else {
                    old(self).downloads()[id]
                },
            ),
    {
        self.control_download(id, DownloadRequest::Jump(n))
    }
    /// Registers a playback session over `list` for playlist `id`; a second
    /// start while one runs is rejected.
    pub fn start_playback(&mut self, id: u64, list: &TrackList, autoplay: bool, volume: u32) -> (started: bool)
        requires
            old(self).wf(),
            list.wf(),
        ensures
            final(self).wf(),
            started == !old(self).playbacks().contains_key(id),
            final(self).downloads() == old(self).downloads(),
            started ==> final(self).playbacks() == old(self).playbacks().insert(
                id,
                PlaybackSession::new_model(list.order_view(), autoplay, volume),
            ),
            !started ==> final(self).playbacks() == old(self).playbacks(),
    {
        if self.playbacks.contains_key(&id) {
            return false;
        }
        let s = PlaybackSession::new(list, autoplay, volume);
        self.playbacks.insert(id, s);
        assert(self.playbacks() =~= old(self).playbacks().insert(
            id,
            PlaybackSession::new_model(list.order_view(), autoplay, volume),
        ));
        true
    }

    /// Feeds `input` to playlist `id`'s playback session; `None` when there is none.
    pub fn resume_playback(&mut self, id: u64, input: PlaybackInput) -> (r: Option<PlaybackAction>)
        requires
            old(self).wf(),
        ensures
            final(self).wf(),
            final(self).downloads() == old(self).downloads(),
            !old(self).playbacks().contains_key(id) ==> r is None && final(self).playbacks()
                == old(self).playbacks(),
            old(self).playbacks().contains_key(id) ==> {
                let (m, a) = old(self).playbacks()[id].step(input);
                &&& r == Some(a)
                &&& m.phase == PlaybackPhase::Over ==> final(self).playbacks() == old(self).playbacks().remove(id)
                &&& m.phase != PlaybackPhase::Over ==> final(self).playbacks() == old(self).playbacks().insert(id, m)
            },
    {
        match self.playbacks.remove(&id) {
            None => {
                assert(self.playbacks() =~= old(self).playbacks());
                None
            },
            Some(mut s) => {
                assert(old(self).playbacks().contains_key(id));
                let a = s.resume(input);
                if !s.is_over() {
                    self.playbacks.insert(id, s);
                    assert(self.playbacks() =~= old(self).playbacks().insert(id, s@));
                } else {
                    assert(self.playbacks() =~= old(self).playbacks().remove(id));
                }
                Some(a)
            },
        }
    }

    /// The track playlist `id` has with the audio engine, if any: the target
    /// of pause, resume, seek and skip.
    pub fn current_track(&self, id: u64) -> (r: Option<usize>)
        requires
            self.wf(),
        ensures
            !self.playbacks().contains_key(id) ==> r is None,
            self.playbacks().contains_key(id) ==> {
                let m = self.playbacks()[id];
                &&& m.phase == PlaybackPhase::Playing ==> r == Some(m.current())
                &&& m.phase != PlaybackPhase::Playing ==> r is None
            },
    {
        match self.playbacks.get(&id) {
            None => None,
            Some(s) => {
                assert(self.playbacks().contains_key(id));
                s.current_track()
            },
        }
    }

    /// Applies `request` to playlist `id`'s playback session.
    pub fn control_playback(&mut self, id: u64, request: PlaybackRequest) -> (r: bool)
        requires
            old(self).wf(),
        ensures
            final(self).wf(),
            final(self).downloads() == old(self).downloads(),
            !old(self).playbacks().contains_key(id) ==> !r && final(self).playbacks() == old(self).playbacks(),
            old(self).playbacks().contains_key(id) ==> final(self).playbacks().contains_key(id)
                && final(self).playbacks() == old(self).playbacks().insert(
                id,
                final(self).playbacks()[id],
            ) && request.applied(old(self).playbacks()[id], final(self).playbacks()[id], r),
    {
        match self.playbacks.remove(&id) {
            None => {
                assert(self.playbacks() =~= old(self).playbacks());
                false
            },
            Some(mut s) => {
                assert(old(self).playbacks().contains_key(id));
                assert(s@ == old(self).playbacks()[id]);
                let r = match request {
                    PlaybackRequest::Cancel => s.cancel(),
                    PlaybackRequest::Jump(n) => s.jump_to_index(n),
                    PlaybackRequest::Previous => s.previous(),
                    PlaybackRequest::Volume(v) => {
                        s.set_volume(v);
                        true
                    },
                };
                self.playbacks.insert(id, s);
                assert(self.playbacks() =~= old(self).playbacks().insert(id, s@));
                r
            },
        }
    }

    /// Restarts both of playlist `id`'s sessions in place over `list`, after a
    /// shuffle or a sort. Returns whether each session took it. As with
    /// `PlaybackSession::restart_with`, the caller stops the track that is
    /// playing, if any, and interrupts a pending wait.
    pub fn reorder(&mut self, id: u64, list: &TrackList) -> (r: (bool, bool))
        requires
            old(self).wf(),
            list.wf(),
        ensures
            final(self).wf(),
            r.0 == (old(self).downloads().contains_key(id) && old(self).downloads()[id].control
                != crate::download::Control::Cancelled),
            r.1 == (old(self).playbacks().contains_key(id) && old(self).playbacks()[id].live()),
            final(self).downloads().dom() == old(self).downloads().dom(),
            final(self).playbacks().dom() == old(self).playbacks().dom(),
            r.0 ==> final(self).downloads()[id] == (DownloadModel {
                pending: Some(list.order_view()),
                start: 0,
                control: crate::download::Control::Restarting,
                ..old(self).downloads()[id]
            }),
            r.1 ==> final(self).playbacks()[id] == (PlaybackModel {
                pending: Some(list.order_view()),
                start: 0,
                control: crate::download::Control::Restarting,
                search_back: false,
                ..old(self).playbacks()[id]
            }),
            forall|k: u64| k != id && #[trigger] old(self).downloads().contains_key(k) ==> final(self).downloads()[k] == old(self).downloads()[k],
            forall|k: u64| k != id && #[trigger] old(self).playbacks().contains_key(k) ==> final(self).playbacks()[k] == old(self).playbacks()[k],
            !r.0 ==> final(self).downloads() == old(self).downloads(),
            !r.1 ==> final(self).playbacks() == old(self).playbacks(),
    {
        let d = match self.downloads.remove(&id) {
            None => {
                assert(self.downloads() =~= old(self).downloads());
                false
            },
            Some(mut s) => {
                assert(old(self).downloads().contains_key(id));
                let ok = s.restart_with(list);
                self.downloads.insert(id, s);
                assert(self.downloads() =~= old(self).downloads().insert(id, s@));
                ok
            },
        };
        let ghost mid = self.playbacks();
        assert(mid == old(self).playbacks());
        let p = match self.playbacks.remove(&id) {
            None => {
                assert(self.playbacks() =~= old(self).playbacks());
                false
            },
            Some(mut s) => {
                assert(old(self).playbacks().contains_key(id));
                let ok = s.restart_with(list);
                self.playbacks.insert(id, s);
                assert(self.playbacks() =~= old(self).playbacks().insert(id, s@));
                ok
            },
        };
        (d, p)
    }
}

/// A control request on a playback session.
#[derive(Debug, Clone, Copy, PartialEq, Eq, Structural)]
pub enum PlaybackRequest {
    Cancel,
    Jump(usize),
    Previous,
    Volume(u32),
}

impl PlaybackRequest {
    /// What the request does to a running session `m`, giving `m2` and the reply `r`.
    pub open spec fn applied(self, m: PlaybackModel, m2: PlaybackModel, r: bool) -> bool {
        match self {
            PlaybackRequest::Cancel => r && m2 == (PlaybackModel {
                control: crate::download::Control::Cancelled,
                ..m
            }),
            PlaybackRequest::Jump(n) => r == m.live() && m2 == m.jumped(n),
            PlaybackRequest::Previous => {
                &&& r == m.can_go_back()
                &&& r ==> m2 == (PlaybackModel {
                    start: (m.pos - 1) as nat,
                    control: crate::download::Control::Restarting,
                    search_back: true,
                    ..m
                })
                &&& !r ==> m2 == m
            },
            PlaybackRequest::Volume(v) => r && m2 == (PlaybackModel { volume: v, ..m }),
        }
    }
}

/// A control request on a download session.
#[derive(Debug, Clone, Copy, PartialEq, Eq, Structural)]
pub enum DownloadRequest {
    Stop,
    Cancel,
    Jump(usize),
}

impl DownloadRequest {
    /// What the request does to a running session `m`, giving `m2` and the reply `r`.
    pub open spec fn applied(self, m: DownloadModel, m2: DownloadModel, r: bool) -> bool {
        match self {
            DownloadRequest::Stop => r && m2 == m.stopped(),
            DownloadRequest::Cancel => r && m2 == (DownloadModel {
                control: crate::download::Control::Cancelled,
                ..m
            }),
            DownloadRequest::Jump(n) => {
                &&& r == (m.control != crate::download::Control::Cancelled && n < m.next_order().len())
                &&& r ==> m2 == (DownloadModel {
                    start: n as nat,
                    control: crate::download::Control::Restarting,
                    ..m
                })
                &&& !r ==> m2 == m
            },
        }
    }
}

/// The readiness handshake over a playlist none of whose tracks is
/// downloaded, with a download session started over the same order:
/// playback asks for the first track to be prioritised and blocks on it; the
/// download session, prioritised at position 0, downloads every track in
/// order, the first one first, with no step of playback in between; once the
/// first track's download finishes, playback starts it.
pub proof fn lemma_playback_waits_download_proceeds(
    order: Seq<usize>,
    autoplay: bool,
    volume: u32,
    success: bool,
)
    requires
        order.len() > 0,
    ensures
        ({
            let p = PlaybackSession::new_model(order, autoplay, volume);
            let (p1, a1) = p.step(PlaybackInput::Proceed);
            let (p2, a2) = p1.step(PlaybackInput::Status { downloaded: false });
            let (p3, a3) = p2.step(PlaybackInput::Downloading { active: true });
            let d = DownloadSession::new_model(order);
            let dj = DownloadModel { start: 0, control: crate::download::Control::Restarting, ..d };
            let (d1, b1) = dj.step(DownloadInput::Proceed);
            let w = download_walk(d1, success, order.len());
            &&& a1 == (PlaybackAction::QueryStatus { position: 0, track: order[0] })
            &&& a2 == (PlaybackAction::QueryDownloading { position: 0, track: order[0] })
            &&& a3 == (PlaybackAction::Prioritize { position: 0, track: order[0] })
            &&& p3.phase == PlaybackPhase::AwaitReady
            &&& b1 == (DownloadAction::QueryStatus { position: 0, track: order[0] })
            &&& forall|t: int| 0 <= t < order.len() ==> #[trigger] w[3 * t] == (
            DownloadAction::Started { position: t as usize, track: order[t] })
            &&& w[3 * order.len() - 1] == (DownloadAction::PlaylistFinished {
                verdict: Verdict::Finished,
            })
            &&& p3.step(PlaybackInput::Ready { ok: true }).1 == (PlaybackAction::Started {
                position: 0,
                track: order[0],
                start_paused: !autoplay,
                volume,
            })
        }),
{
    let d = DownloadSession::new_model(order);
    let dj = DownloadModel { start: 0, control: crate::download::Control::Restarting, ..d };
    let (d1, b1) = dj.step(DownloadInput::Proceed);
    assert(d1.pos == 0 && d1.order == order);
    lemma_download_walks_to_end(d1, success);
}

} // verus!
