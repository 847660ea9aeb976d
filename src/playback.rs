//! The playback session of one playlist: a state machine that walks an
//! ordering, makes sure each track is downloaded before it plays, and hands it
//! to the audio engine.
//!
//! The caller performs each action that `resume` hands out (a query to the
//! playlist service, an event, a call to the engine) and feeds the outcome back
//! as the next input. A wait for a download can be interrupted: the caller then
//! answers `Ready { ok: false }`.
use vstd::prelude::*;

use crate::download::Control;
use crate::track::TrackList;

verus! {

/// Where the session is within its current pass.
#[derive(Debug, Clone, Copy, PartialEq, Eq, Structural)]
pub enum PlaybackPhase {
    /// Created; nothing has played yet.
    Idle,
    /// Waiting to hear whether the current track is downloaded.
    AwaitStatus,
    /// Waiting to hear whether the playlist is downloading.
    AwaitDownloading,
    /// Blocked until the current track's download finishes.
    AwaitReady,
    /// The current track is with the audio engine.
    Playing,
    /// The current track ended; the next one is due.
    AfterTrack,
    /// The session has ended.
    Over,
}

/// What the caller hands back to the session.
#[derive(Debug, Clone, Copy, PartialEq, Eq, Structural)]
pub enum PlaybackInput {
    /// The last action was carried out; go on.
    Proceed,
    /// Answer to `QueryStatus`.
    Status { downloaded: bool },
    /// Answer to `QueryDownloading`.
    Downloading { active: bool },
    /// End of the wait after `Prioritize`: `ok` when the track's download
    /// finished with success, false when it failed or the wait was interrupted.
    Ready { ok: bool },
    /// The playing track completed, was skipped or was stopped.
    Ended,
}

/// What the session asks the caller to do next.
#[derive(Debug, Clone, Copy, PartialEq, Eq, Structural)]
pub enum PlaybackAction {
    /// Ask whether `track` is downloaded; answer with `Status`.
    QueryStatus { position: usize, track: usize },
    /// Ask whether the playlist is downloading; answer with `Downloading`.
    QueryDownloading { position: usize, track: usize },
    /// Ask the download session to take `position` next, then wait for
    /// `track`'s "download finished"; answer with `Ready`.
    Prioritize { position: usize, track: usize },
    /// Emit "track started" and hand `track` to the engine; answer with `Ended`.
    Started { position: usize, track: usize, start_paused: bool, volume: u32 },
    /// Emit "track ended"; answer with `Proceed`.
    TrackEnded { track: usize },
    /// Emit "playlist playback finished"; the session is over.
    PlaybackFinished,
    /// The session was cancelled and is over; nothing is emitted.
    Cancelled,
    /// The input did not fit the session's phase; nothing changed.
    Ignored,
}

/// The mathematical state of a playback session.
pub struct PlaybackModel {
    pub order: Seq<usize>,
    pub pending: Option<Seq<usize>>,
    pub start: nat,
    pub pos: nat,
    pub control: Control,
    pub phase: PlaybackPhase,
    /// Looking backward for a downloaded track, after `previous`.
    pub search_back: bool,
    /// No track has started yet in this session.
    pub first: bool,
    pub autoplay: bool,
    pub volume: u32,
}

impl PlaybackModel {
    /// Phases in which the session stands on a track of its order.
    pub open spec fn on_track(self) -> bool {
        self.phase !is Idle && self.phase !is Over
    }

    pub open spec fn wf(self) -> bool {
        &&& self.on_track() ==> self.pos < self.order.len()
        &&& self.control != Control::Stopping
        &&& self.pos <= usize::MAX
        &&& self.start <= usize::MAX
    }

    /// The order the next pass walks.
    pub open spec fn next_order(self) -> Seq<usize> {
        match self.pending {
            Some(p) => p,
            None => self.order,
        }
    }

    pub open spec fn current(self) -> usize {
        self.order[self.pos as int]
    }

    pub open spec fn with_phase(self, phase: PlaybackPhase) -> PlaybackModel {
        PlaybackModel { phase, ..self }
    }

    /// Look at the entry at the current position, or finish.
    pub open spec fn visit(self) -> (PlaybackModel, PlaybackAction) {
        if self.pos < self.order.len() {
            (
                self.with_phase(PlaybackPhase::AwaitStatus),
                PlaybackAction::QueryStatus { position: self.pos as usize, track: self.current() },
            )
        } else {
            (self.with_phase(PlaybackPhase::Over), PlaybackAction::PlaybackFinished)
        }
    }

    /// The top of the loop: check the control state, then visit.
    pub open spec fn advance(self) -> (PlaybackModel, PlaybackAction) {
        match self.control {
            Control::Cancelled => (self.with_phase(PlaybackPhase::Over), PlaybackAction::Cancelled),
            Control::Restarting => PlaybackModel {
                order: self.next_order(),
                pending: None,
                start: 0,
                pos: self.start,
                control: Control::Running,
                ..self
            }.visit(),
            _ => self.visit(),
        }
    }

    /// Go on with the entry after the current one.
    pub open spec fn skip(self) -> (PlaybackModel, PlaybackAction) {
        PlaybackModel { pos: self.pos + 1, ..self }.advance()
    }

    /// Hand the current track to the engine.
    pub open spec fn play(self) -> (PlaybackModel, PlaybackAction) {
        (
            PlaybackModel {
                phase: PlaybackPhase::Playing,
                first: false,
                search_back: false,
                ..self
            },
            PlaybackAction::Started {
                position: self.pos as usize,
                track: self.current(),
                start_paused: self.first && !self.autoplay,
                volume: self.volume,
            },
        )
    }

    /// The current track is not downloaded.
    pub open spec fn missing(self) -> (PlaybackModel, PlaybackAction) {
        if self.search_back && self.pos > 0 {
            PlaybackModel { pos: (self.pos - 1) as nat, ..self }.visit()
        } else {
            (
                PlaybackModel { phase: PlaybackPhase::AwaitDownloading, search_back: false, ..self },
                PlaybackAction::QueryDownloading { position: self.pos as usize, track: self.current() },
            )
        }
    }

    /// One transition of the session on `input`.
    pub open spec fn step(self, input: PlaybackInput) -> (PlaybackModel, PlaybackAction) {
        if self.phase == PlaybackPhase::Over {
            (self, PlaybackAction::Ignored)
        } else if self.control == Control::Cancelled {
            (self.with_phase(PlaybackPhase::Over), PlaybackAction::Cancelled)
        } else {
            match input {
                PlaybackInput::Proceed => match self.phase {
                    PlaybackPhase::Idle => self.advance(),
                    PlaybackPhase::AfterTrack => self.skip(),
                    _ => (self, PlaybackAction::Ignored),
                },
                PlaybackInput::Status { downloaded } => if self.phase != PlaybackPhase::AwaitStatus {
                    (self, PlaybackAction::Ignored)
                } else if self.control == Control::Restarting {
                    self.advance()
                } else if downloaded {
                    self.play()
                } else {
                    self.missing()
                },
                PlaybackInput::Downloading { active } => if self.phase
                    != PlaybackPhase::AwaitDownloading {
                    (self, PlaybackAction::Ignored)
                } else if self.control == Control::Restarting {
                    self.advance()
                } else if active {
                    (
                        self.with_phase(PlaybackPhase::AwaitReady),
                        PlaybackAction::Prioritize { position: self.pos as usize, track: self.current() },
                    )
                } else {
                    self.skip()
                },
                PlaybackInput::Ready { ok } => if self.phase != PlaybackPhase::AwaitReady {
                    (self, PlaybackAction::Ignored)
                } else if self.control == Control::Restarting {
                    self.advance()
                } else if ok {
                    self.play()
                } else {
                    self.skip()
                },
                PlaybackInput::Ended => if self.phase != PlaybackPhase::Playing {
                    (self, PlaybackAction::Ignored)
                } else {
                    (
                        self.with_phase(PlaybackPhase::AfterTrack),
                        PlaybackAction::TrackEnded { track: self.current() },
                    )
                },
            }
        }
    }

    /// Whether control requests are taken.
    pub open spec fn live(self) -> bool {
        self.phase != PlaybackPhase::Over && self.control != Control::Cancelled
    }

    /// `jump_to_index(n)` on this state.
    pub open spec fn jumped(self, n: usize) -> PlaybackModel {
        if self.live() {
            PlaybackModel {
                start: n as nat,
                control: Control::Restarting,
                search_back: false,
                ..self
            }
        } else {
            self
        }
    }

    /// Whether `previous` is taken: a live session, no restart pending, on a
    /// track past the first.
    pub open spec fn can_go_back(self) -> bool {
        self.live() && self.control == Control::Running && self.on_track() && self.pos > 0
    }
}

/// A running playback session over one playlist.
pub struct PlaybackSession {
    order: Vec<usize>,
    pending: Option<Vec<usize>>,
    start: usize,
    pos: usize,
    control: Control,
    phase: PlaybackPhase,
    search_back: bool,
    first: bool,
    autoplay: bool,
    volume: u32,
}

impl View for PlaybackSession {
    type V = PlaybackModel;

    closed spec fn view(&self) -> PlaybackModel {
        PlaybackModel {
            order: self.order@,
            pending: match self.pending {
                Some(p) => Some(p@),
                None => None,
            },
            start: self.start as nat,
            pos: self.pos as nat,
            control: self.control,
            phase: self.phase,
            search_back: self.search_back,
            first: self.first,
            autoplay: self.autoplay,
            volume: self.volume,
        }
    }
}

impl PlaybackSession {
    /// The state of a fresh session over `order`.
    pub open spec fn new_model(order: Seq<usize>, autoplay: bool, volume: u32) -> PlaybackModel {
        PlaybackModel {
            order,
            pending: None,
            start: 0,
            pos: 0,
            control: Control::Running,
            phase: PlaybackPhase::Idle,
            search_back: false,
            first: true,
            autoplay,
            volume,
        }
    }

    /// A session that will play `list` in its order, from the top. The first
    /// track starts paused unless `autoplay` is set.
    pub fn new(list: &TrackList, autoplay: bool, volume: u32) -> (r: PlaybackSession)
        requires
            list.wf(),
        ensures
            r@.wf(),
            r@ == PlaybackSession::new_model(list.order_view(), autoplay, volume),
    {
        PlaybackSession {
            order: list.order().indices(),
            pending: None,
            start: 0,
            pos: 0,
            control: Control::Running,
            phase: PlaybackPhase::Idle,
            search_back: false,
            first: true,
            autoplay,
            volume,
        }
    }

    pub fn phase(&self) -> (r: PlaybackPhase)
        ensures
            r == self@.phase,
    {
        self.phase
    }

    /// Whether the session has ended; calls on an ended session change nothing.
    pub fn is_over(&self) -> (r: bool)
        ensures
            r == (self@.phase == PlaybackPhase::Over),
    {
        self.phase == PlaybackPhase::Over
    }

    /// Whether a track is with the audio engine.
    pub fn is_track_loaded(&self) -> (r: bool)
        ensures
            r == (self@.phase == PlaybackPhase::Playing),
    {
        self.phase == PlaybackPhase::Playing
    }

    /// The track with the audio engine, if any: the target of pause, resume,
    /// seek and skip.
    pub fn current_track(&self) -> (r: Option<usize>)
        requires
            self@.wf(),
        ensures
            self@.phase == PlaybackPhase::Playing ==> r == Some(self@.current()),
            self@.phase != PlaybackPhase::Playing ==> r is None,
    {
        if self.phase == PlaybackPhase::Playing {
            Some(self.order[self.pos])
        } else {
            None
        }
    }

    /// The position in the order the session stands on.
    pub fn position(&self) -> (r: usize)
        ensures
            r == self@.pos,
    {
        self.pos
    }

    /// Sets the volume of the tracks that start from now on.
    pub fn set_volume(&mut self, volume: u32)
        ensures
            final(self)@ == (PlaybackModel { volume, ..old(self)@ }),
    {
        self.volume = volume;
    }

    fn visit(&mut self) -> (r: PlaybackAction)
        requires
            old(self)@.pos <= usize::MAX,
            old(self)@.start <= usize::MAX,
            old(self)@.control != Control::Stopping,
        ensures
            (final(self)@, r) == old(self)@.visit(),
            final(self)@.wf(),
    {
        if self.pos < self.order.len() {
            self.phase = PlaybackPhase::AwaitStatus;
            PlaybackAction::QueryStatus { position: self.pos, track: self.order[self.pos] }
        } else {
            self.phase = PlaybackPhase::Over;
            PlaybackAction::PlaybackFinished
        }
    }

    fn advance(&mut self) -> (r: PlaybackAction)
        requires
            old(self)@.pos <= usize::MAX,
            old(self)@.start <= usize::MAX,
            old(self)@.control != Control::Stopping,
        ensures
            (final(self)@, r) == old(self)@.advance(),
            final(self)@.wf(),
    {
        match self.control {
            Control::Cancelled => {
                self.phase = PlaybackPhase::Over;
                PlaybackAction::Cancelled
            },
            Control::Restarting => {
                match self.pending.take() {
                    Some(p) => {
                        self.order = p;
                    },
                    None => {},
                }
                self.pos = self.start;
                self.start = 0;
                self.control = Control::Running;
                self.visit()
            },
            _ => self.visit(),
        }
    }

    fn skip(&mut self) -> (r: PlaybackAction)
        requires
            old(self)@.wf(),
            old(self)@.on_track(),
        ensures
            (final(self)@, r) == old(self)@.skip(),
            final(self)@.wf(),
    {
        assert(self.pos < self.order.len());
        self.pos = self.pos + 1;
        self.advance()
    }

    fn play(&mut self) -> (r: PlaybackAction)
        requires
            old(self)@.wf(),
            old(self)@.on_track(),
        ensures
            (final(self)@, r) == old(self)@.play(),
            final(self)@.wf(),
    {
        let start_paused = self.first && !self.autoplay;
        self.phase = PlaybackPhase::Playing;
        self.first = false;
        self.search_back = false;
        PlaybackAction::Started {
            position: self.pos,
            track: self.order[self.pos],
            start_paused,
            volume: self.volume,
        }
    }

    fn missing(&mut self) -> (r: PlaybackAction)
        requires
            old(self)@.wf(),
            old(self)@.on_track(),
        ensures
            (final(self)@, r) == old(self)@.missing(),
            final(self)@.wf(),
    {
        if self.search_back && self.pos > 0 {
            self.pos = self.pos - 1;
            self.visit()
        } else {
            self.phase = PlaybackPhase::AwaitDownloading;
            self.search_back = false;
            PlaybackAction::QueryDownloading { position: self.pos, track: self.order[self.pos] }
        }
    }

    /// Carries the session one step on `input` and returns what to do next.
    pub fn resume(&mut self, input: PlaybackInput) -> (r: PlaybackAction)
        requires
            old(self)@.wf(),
        ensures
            final(self)@.wf(),
            (final(self)@, r) == old(self)@.step(input),
    {
        if self.phase == PlaybackPhase::Over {
            return PlaybackAction::Ignored;
        }
        if self.control == Control::Cancelled {
            self.phase = PlaybackPhase::Over;
            return PlaybackAction::Cancelled;
        }
        match input {
            PlaybackInput::Proceed => match self.phase {
                PlaybackPhase::Idle => self.advance(),
                PlaybackPhase::AfterTrack => self.skip(),
                _ => PlaybackAction::Ignored,
            },
            PlaybackInput::Status { downloaded } => {
                if self.phase != PlaybackPhase::AwaitStatus {
                    PlaybackAction::Ignored
                } else if self.control == Control::Restarting {
                    self.advance()
                } else if downloaded {
                    self.play()
                } else {
                    self.missing()
                }
            },
            PlaybackInput::Downloading { active } => {
                if self.phase != PlaybackPhase::AwaitDownloading {
                    PlaybackAction::Ignored
                } else if self.control == Control::Restarting {
                    self.advance()
                } else if active {
                    self.phase = PlaybackPhase::AwaitReady;
                    PlaybackAction::Prioritize { position: self.pos, track: self.order[self.pos] }
                } else {
                    self.skip()
                }
            },
            PlaybackInput::Ready { ok } => {
                if self.phase != PlaybackPhase::AwaitReady {
                    PlaybackAction::Ignored
                } else if self.control == Control::Restarting {
                    self.advance()
                } else if ok {
                    self.play()
                } else {
                    self.skip()
                }
            },
            PlaybackInput::Ended => {
                if self.phase != PlaybackPhase::Playing {
                    PlaybackAction::Ignored
                } else {
                    self.phase = PlaybackPhase::AfterTrack;
                    PlaybackAction::TrackEnded { track: self.order[self.pos] }
                }
            },
        }
    }

    /// Cancels the session: any input that follows ends it with `Cancelled`.
    /// Returns false, changing nothing, on an ended session.
    pub fn cancel(&mut self) -> (live: bool)
        requires
            old(self)@.wf(),
        ensures
            final(self)@.wf(),
            live == (old(self)@.phase != PlaybackPhase::Over),
            live ==> final(self)@ == (PlaybackModel { control: Control::Cancelled, ..old(self)@ }),
            !live ==> final(self)@ == old(self)@,
    {
        if self.phase == PlaybackPhase::Over {
            return false;
        }
        self.control = Control::Cancelled;
        true
    }

    /// Swaps in `list`'s order and plays it from the top once the current
    /// track is stopped. Returns false, changing nothing, on an ended or
    /// cancelled session.
    ///
    /// The session does not stop the playing track itself: when this is
    /// accepted while a track is with the engine (`current_track`), the
    /// caller stops that track, and the session moves on at the `Ended` that
    /// follows; a wait for a download is interrupted by answering
    /// `Ready { ok: false }`, and a pending query's answer is disregarded.
    pub fn restart_with(&mut self, list: &TrackList) -> (accepted: bool)
        requires
            old(self)@.wf(),
            list.wf(),
        ensures
            final(self)@.wf(),
            accepted == old(self)@.live(),
            accepted ==> final(self)@ == (PlaybackModel {
                pending: Some(list.order_view()),
                start: 0,
                control: Control::Restarting,
                search_back: false,
                ..old(self)@
            }),
            !accepted ==> final(self)@ == old(self)@,
    {
        if self.phase == PlaybackPhase::Over || self.control == Control::Cancelled {
            return false;
        }
        self.pending = Some(list.order().indices());
        self.start = 0;
        self.control = Control::Restarting;
        self.search_back = false;
        true
    }

    /// Continues at position `n` once the current track is stopped; a
    /// position past the end finishes the session. Returns false, changing
    /// nothing, on an ended or cancelled session.
    ///
    /// The session does not stop the playing track itself: when this is
    /// accepted while a track is with the engine (`current_track`), the
    /// caller stops that track, and the session moves on at the `Ended` that
    /// follows; a wait for a download is interrupted by answering
    /// `Ready { ok: false }`, and a pending query's answer is disregarded.
    pub fn jump_to_index(&mut self, n: usize) -> (accepted: bool)
        requires
            old(self)@.wf(),
        ensures
            final(self)@.wf(),
            accepted == old(self)@.live(),
            final(self)@ == old(self)@.jumped(n),
    {
        if self.phase == PlaybackPhase::Over || self.control == Control::Cancelled {
            return false;
        }
        self.start = n;
        self.control = Control::Restarting;
        self.search_back = false;
        true
    }

    /// Goes back to the track before the current one once the current track
    /// is stopped, stepping further back past tracks that are not
    /// downloaded. At the first position this changes nothing and returns false.
    ///
    /// The session does not stop the playing track itself: when this is
    /// accepted while a track is with the engine (`current_track`), the
    /// caller stops that track, and the session moves on at the `Ended` that
    /// follows; a wait for a download is interrupted by answering
    /// `Ready { ok: false }`, and a pending query's answer is disregarded.
    pub fn previous(&mut self) -> (accepted: bool)
        requires
            old(self)@.wf(),
        ensures
            final(self)@.wf(),
            accepted == old(self)@.can_go_back(),
            accepted ==> final(self)@ == (PlaybackModel {
                start: (old(self)@.pos - 1) as nat,
                control: Control::Restarting,
                search_back: true,
                ..old(self)@
            }),
            !accepted ==> final(self)@ == old(self)@,
    {
        if self.phase == PlaybackPhase::Over || self.phase == PlaybackPhase::Idle
            || self.control != Control::Running || self.pos == 0 {
            return false;
        }
        self.start = self.pos - 1;
        self.control = Control::Restarting;
        self.search_back = true;
        true
    }
}

/// After a jump to a position at or past the end of the order, no track
/// starts: the next input finishes the session, or ends the playing track
/// with the finish right after it, or is ignored.
pub proof fn lemma_jump_past_end_finishes(m: PlaybackModel, n: usize, input: PlaybackInput)
    requires
        m.wf(),
        m.live(),
        n >= m.next_order().len(),
    ensures
        ({
            let j = m.jumped(n);
            let (m1, a1) = j.step(input);
            ||| a1 == PlaybackAction::PlaybackFinished && m1.phase == PlaybackPhase::Over
            ||| j.phase == PlaybackPhase::Playing && a1 == (PlaybackAction::TrackEnded {
                track: j.current(),
            }) && m1.step(PlaybackInput::Proceed) == (
                PlaybackModel {
                    order: j.next_order(),
                    pending: None,
                    start: 0,
                    pos: n as nat,
                    control: Control::Running,
                    phase: PlaybackPhase::Over,
                    ..j
                },
                PlaybackAction::PlaybackFinished,
            )
            ||| a1 == PlaybackAction::Ignored && m1 == j
        }),
{
}

/// A track starts only on word that it is downloaded (a status answer, or
/// the end of a wait for its download), never while another track plays, and
/// the session is then playing it.
pub proof fn lemma_plays_only_downloaded(m: PlaybackModel, input: PlaybackInput)
    requires
        m.wf(),
    ensures
        ({
            let (m1, a1) = m.step(input);
            a1 is Started ==> {
                &&& a1 matches PlaybackAction::Started { track, .. } && track == m1.current()
                &&& input == PlaybackInput::Status { downloaded: true } || input
                    == PlaybackInput::Ready { ok: true }
                &&& m.phase != PlaybackPhase::Playing
                &&& m1.phase == PlaybackPhase::Playing
            }
        }),
{
}

/// While searching backward after `previous`, a track that is not
/// downloaded sends the session to the position before it, never forward.
pub proof fn lemma_search_steps_backward(m: PlaybackModel)
    requires
        m.wf(),
        m.phase == PlaybackPhase::AwaitStatus,
        m.control == Control::Running,
        m.search_back,
        m.pos > 0,
    ensures
        m.step(PlaybackInput::Status { downloaded: false }) == (
            PlaybackModel { pos: (m.pos - 1) as nat, phase: PlaybackPhase::AwaitStatus, ..m },
            PlaybackAction::QueryStatus { position: (m.pos - 1) as usize, track: m.order[m.pos - 1] },
        ),
{
}

} // verus!
