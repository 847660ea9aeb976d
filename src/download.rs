//! The download session of one playlist: a state machine that walks an
//! ordering, skips tracks that are already downloaded and downloads the rest,
//! one at a time.
//!
//! The caller performs each action that `resume` hands out (asks whether a
//! track is downloaded, emits an event, runs the download) and feeds the
//! outcome back as the next input.
use vstd::prelude::*;

use crate::track::TrackList;

verus! {

/// Cooperative control state of a session, checked before each track.
#[derive(Debug, Clone, Copy, PartialEq, Eq, Structural)]
pub enum Control {
    Running,
    /// Finish the current track's bookkeeping, then end.
    Stopping,
    /// Take up the pending ordering at the pending start index before the next track.
    Restarting,
    /// Abandon everything at once.
    Cancelled,
}

/// How a download session ended. Only `Finished` counts as a complete download.
#[derive(Debug, Clone, Copy, PartialEq, Eq, Structural)]
pub enum Verdict {
    Cancelled,
    Stopped,
    Finished,
}

/// Where the session is within its current pass.
#[derive(Debug, Clone, Copy, PartialEq, Eq, Structural)]
pub enum DownloadPhase {
    /// Created; no pass has begun.
    Idle,
    /// Waiting to hear whether the current track is downloaded.
    AwaitStatus,
    /// The current track is downloading.
    Downloading,
    /// The current track's record was corrected; its "finished" event is next.
    Reporting { success: bool },
    /// The current track is done; the next one is due.
    AfterTrack,
    /// The session has ended.
    Over,
}

/// What the caller hands back to the session.
#[derive(Debug, Clone, Copy, PartialEq, Eq, Structural)]
pub enum DownloadInput {
    /// The last action was carried out; go on.
    Proceed,
    /// Answer to `QueryStatus`.
    Status { downloaded: bool },
    /// The download of the current track completed.
    Completed { success: bool, updated: bool },
}

/// What the session asks the caller to do next.
#[derive(Debug, Clone, Copy, PartialEq, Eq, Structural)]
pub enum DownloadAction {
    /// Ask whether `track` is downloaded, and answer with `Status`.
    QueryStatus { position: usize, track: usize },
    /// Emit "download started" for `track` and download it; answer with `Completed`.
    Started { position: usize, track: usize },
    /// Emit "track updated" for `track`; answer with `Proceed`.
    Updated { track: usize },
    /// Emit "download finished" for `track`; answer with `Proceed`.
    TrackFinished { track: usize, success: bool },
    /// Emit "playlist download finished"; the session is over.
    PlaylistFinished { verdict: Verdict },
    /// The input did not fit the session's phase; nothing changed.
    Ignored,
}

/// The mathematical state of a download session.
pub struct DownloadModel {
    pub order: Seq<usize>,
    pub pending: Option<Seq<usize>>,
    pub start: nat,
    pub pos: nat,
    pub control: Control,
    pub phase: DownloadPhase,
}

impl DownloadModel {
    /// Phases in which the session stands on a track of its order.
    pub open spec fn on_track(self) -> bool {
        self.phase !is Idle && self.phase !is Over
    }

    pub open spec fn wf(self) -> bool {
        &&& self.pos <= self.order.len()
        &&& self.on_track() ==> self.pos < self.order.len()
        &&& self.start <= self.next_order().len()
    }

    /// The order the next pass walks.
    pub open spec fn next_order(self) -> Seq<usize> {
        match self.pending {
            Some(p) => p,
            None => self.order,
        }
    }

    /// The track at the current position.
    pub open spec fn current(self) -> usize {
        self.order[self.pos as int]
    }

    pub open spec fn with_phase(self, phase: DownloadPhase) -> DownloadModel {
        DownloadModel { phase, ..self }
    }

    pub open spec fn ended(self, verdict: Verdict) -> (DownloadModel, DownloadAction) {
        (self.with_phase(DownloadPhase::Over), DownloadAction::PlaylistFinished { verdict })
    }

    /// Look at the entry at the current position, or end the pass.
    pub open spec fn visit(self) -> (DownloadModel, DownloadAction) {
        if self.pos < self.order.len() {
            (
                self.with_phase(DownloadPhase::AwaitStatus),
                DownloadAction::QueryStatus {
                    position: self.pos as usize,
                    track: self.current(),
                },
            )
        } else {
            self.ended(Verdict::Finished)
        }
    }

    /// The top of the loop: check the control state, then visit.
    pub open spec fn advance(self) -> (DownloadModel, DownloadAction) {
        match self.control {
            Control::Cancelled => self.ended(Verdict::Cancelled),
            Control::Stopping => self.ended(Verdict::Stopped),
            Control::Restarting => DownloadModel {
                order: self.next_order(),
                pending: None,
                start: 0,
                pos: self.start,
                control: Control::Running,
                ..self
            }.visit(),
            Control::Running => self.visit(),
        }
    }

    /// One transition of the session on `input`.
    pub open spec fn step(self, input: DownloadInput) -> (DownloadModel, DownloadAction) {
        if self.phase == DownloadPhase::Over {
            (self, DownloadAction::Ignored)
        } else if self.control == Control::Cancelled {
            self.ended(Verdict::Cancelled)
        } else {
            match (self.phase, input) {
                (DownloadPhase::Idle, DownloadInput::Proceed) => self.advance(),
                (DownloadPhase::AfterTrack, DownloadInput::Proceed) => DownloadModel {
                    pos: self.pos + 1,
                    ..self
                }.advance(),
                (DownloadPhase::AwaitStatus, DownloadInput::Status { downloaded }) => {
                    if self.control != Control::Running {
                        self.advance()
                    } else if downloaded {
                        DownloadModel { pos: self.pos + 1, ..self }.advance()
                    } else {
                        (
                            self.with_phase(DownloadPhase::Downloading),
                            DownloadAction::Started {
                                position: self.pos as usize,
                                track: self.current(),
                            },
                        )
                    }
                },
                (DownloadPhase::Downloading, DownloadInput::Completed { success, updated }) => {
                    if updated {
                        (
                            self.with_phase(DownloadPhase::Reporting { success }),
                            DownloadAction::Updated { track: self.current() },
                        )
                    } else {
                        (
                            self.with_phase(DownloadPhase::AfterTrack),
                            DownloadAction::TrackFinished { track: self.current(), success },
                        )
                    }
                },
                (DownloadPhase::Reporting { success }, DownloadInput::Proceed) => (
                    self.with_phase(DownloadPhase::AfterTrack),
                    DownloadAction::TrackFinished { track: self.current(), success },
                ),
                _ => (self, DownloadAction::Ignored),
            }
        }
    }

    /// `request_stop` on this state.
    pub open spec fn stopped(self) -> DownloadModel {
        if self.phase != DownloadPhase::Over && self.control == Control::Running {
            DownloadModel { control: Control::Stopping, ..self }
        } else {
            self
        }
    }
}

/// A running download session over one playlist.
pub struct DownloadSession {
    order: Vec<usize>,
    pending: Option<Vec<usize>>,
    start: usize,
    pos: usize,
    control: Control,
    phase: DownloadPhase,
}

impl View for DownloadSession {
    type V = DownloadModel;

    closed spec fn view(&self) -> DownloadModel {
        DownloadModel {
            order: self.order@,
            pending: match self.pending {
                Some(p) => Some(p@),
                None => None,
            },
            start: self.start as nat,
            pos: self.pos as nat,
            control: self.control,
            phase: self.phase,
        }
    }
}

impl DownloadSession {
    /// The state of a fresh session over `order`.
    pub open spec fn new_model(order: Seq<usize>) -> DownloadModel {
        DownloadModel {
            order,
            pending: None,
            start: 0,
            pos: 0,
            control: Control::Running,
            phase: DownloadPhase::Idle,
        }
    }

    /// A session that will walk `list` in its order, from the top.
    pub fn new(list: &TrackList) -> (r: DownloadSession)
        requires
            list.wf(),
        ensures
            r@.wf(),
            r@ == DownloadSession::new_model(list.order_view()),
    {
        DownloadSession {
            order: list.order().indices(),
            pending: None,
            start: 0,
            pos: 0,
            control: Control::Running,
            phase: DownloadPhase::Idle,
        }
    }

    pub fn phase(&self) -> (r: DownloadPhase)
        ensures
            r == self@.phase,
    {
        self.phase
    }

    pub fn control(&self) -> (r: Control)
        ensures
            r == self@.control,
    {
        self.control
    }

    /// Whether the session has ended; calls on an ended session change nothing.
    pub fn is_over(&self) -> (r: bool)
        ensures
            r == (self@.phase == DownloadPhase::Over),
    {
        self.phase == DownloadPhase::Over
    }

    fn end(&mut self, verdict: Verdict) -> (r: DownloadAction)
        ensures
            (final(self)@, r) == old(self)@.ended(verdict),
    {
        self.phase = DownloadPhase::Over;
        DownloadAction::PlaylistFinished { verdict }
    }

    fn visit(&mut self) -> (r: DownloadAction)
        requires
            old(self)@.pos <= old(self)@.order.len(),
        ensures
            (final(self)@, r) == old(self)@.visit(),
    {
        if self.pos < self.order.len() {
            self.phase = DownloadPhase::AwaitStatus;
            DownloadAction::QueryStatus { position: self.pos, track: self.order[self.pos] }
        } else {
            self.end(Verdict::Finished)
        }
    }

    fn advance(&mut self) -> (r: DownloadAction)
        requires
            old(self)@.pos <= old(self)@.order.len(),
            old(self)@.start <= old(self)@.next_order().len(),
        ensures
            (final(self)@, r) == old(self)@.advance(),
            final(self)@.wf(),
    {
        match self.control {
            Control::Cancelled => self.end(Verdict::Cancelled),
            Control::Stopping => self.end(Verdict::Stopped),
            Control::Restarting => {
                match self.pending.take() {
                    Some(p) => {
                        self.order = p;
                    },
                    None => {},
                }
                self.pos = self.start;
                self.start = 0;
                self.control = Control::Running;
                self.visit()
            },
            Control::Running => self.visit(),
        }
    }

    /// Carries the session one step on `input` and returns what to do next.
    pub fn resume(&mut self, input: DownloadInput) -> (r: DownloadAction)
        requires
            old(self)@.wf(),
        ensures
            final(self)@.wf(),
            (final(self)@, r) == old(self)@.step(input),
    {
        if self.phase == DownloadPhase::Over {
            return DownloadAction::Ignored;
        }
        if self.control == Control::Cancelled {
            return self.end(Verdict::Cancelled);
        }
        match input {
            DownloadInput::Proceed => match self.phase {
                DownloadPhase::Idle => self.advance(),
                DownloadPhase::AfterTrack => {
                    assert(self.pos < self.order.len());
                    self.pos = self.pos + 1;
                    self.advance()
                },
                DownloadPhase::Reporting { success } => {
                    self.phase = DownloadPhase::AfterTrack;
                    DownloadAction::TrackFinished { track: self.order[self.pos], success }
                },
                _ => DownloadAction::Ignored,
            },
            DownloadInput::Status { downloaded } => {
                if self.phase != DownloadPhase::AwaitStatus {
                    DownloadAction::Ignored
                } else if self.control != Control::Running {
                    self.advance()
                } else if downloaded {
                    assert(self.pos < self.order.len());
                    self.pos = self.pos + 1;
                    self.advance()
                } else {
                    self.phase = DownloadPhase::Downloading;
                    DownloadAction::Started { position: self.pos, track: self.order[self.pos] }
                }
            },
            DownloadInput::Completed { success, updated } => {
                if self.phase != DownloadPhase::Downloading {
                    DownloadAction::Ignored
                } else if updated {
                    self.phase = DownloadPhase::Reporting { success };
                    DownloadAction::Updated { track: self.order[self.pos] }
                } else {
                    self.phase = DownloadPhase::AfterTrack;
                    DownloadAction::TrackFinished { track: self.order[self.pos], success }
                }
            },
        }
    }

    /// Asks the session to end once the current track's bookkeeping is done.
    /// Returns false, changing nothing, on an ended session.
    pub fn request_stop(&mut self) -> (live: bool)
        requires
            old(self)@.wf(),
        ensures
            final(self)@.wf(),
            live == (old(self)@.phase != DownloadPhase::Over),
            final(self)@ == old(self)@.stopped(),
    {
        if self.phase == DownloadPhase::Over {
            return false;
        }
        if self.control == Control::Running {
            self.control = Control::Stopping;
        }
        true
    }

    /// Cancels the session: any input that follows ends it with `Cancelled`.
    /// Returns false, changing nothing, on an ended session.
    pub fn request_cancel(&mut self) -> (live: bool)
        requires
            old(self)@.wf(),
        ensures
            final(self)@.wf(),
            live == (old(self)@.phase != DownloadPhase::Over),
            live ==> final(self)@ == (DownloadModel { control: Control::Cancelled, ..old(self)@ }),
            !live ==> final(self)@ == old(self)@,
    {
        if self.phase == DownloadPhase::Over {
            return false;
        }
        self.control = Control::Cancelled;
        true
    }

    /// Swaps in `list`'s order; the next track taken up is its first.
    /// Returns false, changing nothing, on an ended or cancelled session.
    pub fn restart_with(&mut self, list: &TrackList) -> (accepted: bool)
        requires
            old(self)@.wf(),
            list.wf(),
        ensures
            final(self)@.wf(),
            accepted == (old(self)@.phase != DownloadPhase::Over && old(self)@.control
                != Control::Cancelled),
            accepted ==> final(self)@ == (DownloadModel {
                pending: Some(list.order_view()),
                start: 0,
                control: Control::Restarting,
                ..old(self)@
            }),
            !accepted ==> final(self)@ == old(self)@,
    {
        if self.phase == DownloadPhase::Over || self.control == Control::Cancelled {
            return false;
        }
        self.pending = Some(list.order().indices());
        self.start = 0;
        self.control = Control::Restarting;
        true
    }

    /// Restarts the pass at position `n` of the order. Returns false, changing
    /// nothing, on an ended or cancelled session or when `n` is not a position
    /// of the order.
    pub fn jump_to_index(&mut self, n: usize) -> (accepted: bool)
        requires
            old(self)@.wf(),
        ensures
            final(self)@.wf(),
            accepted == (old(self)@.phase != DownloadPhase::Over && old(self)@.control
                != Control::Cancelled && n < old(self)@.next_order().len()),
            accepted ==> final(self)@ == (DownloadModel {
                start: n as nat,
                control: Control::Restarting,
                ..old(self)@
            }),
            !accepted ==> final(self)@ == old(self)@,
    {
        if self.phase == DownloadPhase::Over || self.control == Control::Cancelled {
            return false;
        }
        let len = match &self.pending {
            Some(p) => p.len(),
            None => self.order.len(),
        };
        if n >= len {
            return false;
        }
        self.start = n;
        self.control = Control::Restarting;
        true
    }
}

/// A stop requested while track `k` downloads lets `k` report "finished", and
/// then ends the session as stopped: the track after `k` never starts.
pub proof fn lemma_stop_finishes_current_only(m: DownloadModel, success: bool, updated: bool)
    requires
        m.wf(),
        m.phase == DownloadPhase::Downloading,
        m.control == Control::Running,
    ensures
        ({
            let k = m.current();
            let (m1, a1) = m.stopped().step(DownloadInput::Completed { success, updated });
            let (m2, a2) = m1.step(DownloadInput::Proceed);
            let (m3, a3) = m2.step(DownloadInput::Proceed);
            if updated {
                &&& a1 == DownloadAction::Updated { track: k }
                &&& a2 == DownloadAction::TrackFinished { track: k, success }
                &&& a3 == DownloadAction::PlaylistFinished { verdict: Verdict::Stopped }
                &&& m3.phase == DownloadPhase::Over
            } else {
                &&& a1 == DownloadAction::TrackFinished { track: k, success }
                &&& a2 == DownloadAction::PlaylistFinished { verdict: Verdict::Stopped }
                &&& m2.phase == DownloadPhase::Over
            }
        }),
{
}

/// A track that is already downloaded gets neither a "started" nor a
/// "finished" event: the session moves on to the next entry.
pub proof fn lemma_downloaded_entry_skipped(m: DownloadModel)
    requires
        m.wf(),
        m.phase == DownloadPhase::AwaitStatus,
        m.control == Control::Running,
    ensures
        m.step(DownloadInput::Status { downloaded: true }) == (DownloadModel {
            pos: m.pos + 1,
            ..m
        }).visit(),
        m.step(DownloadInput::Status { downloaded: true }).1 is QueryStatus || m.step(
            DownloadInput::Status { downloaded: true },
        ).1 == (DownloadAction::PlaylistFinished { verdict: Verdict::Finished }),
{
}

/// Downloads do not overlap: while a track downloads or reports, no other
/// track starts.
pub proof fn lemma_one_download_at_a_time(m: DownloadModel, input: DownloadInput)
    requires
        m.wf(),
        m.phase == DownloadPhase::Downloading || m.phase is Reporting,
    ensures
        m.step(input).1 !is Started,
{
}

/// One track of a walk over tracks that are not downloaded yet, each
/// download completing with `success` and no corrected record: the status
/// answer, the completion, and the go-on; with the state after them.
pub open spec fn download_cycle(d: DownloadModel, success: bool) -> (DownloadModel, Seq<DownloadAction>) {
    let (d1, a1) = d.step(DownloadInput::Status { downloaded: false });
    let (d2, a2) = d1.step(DownloadInput::Completed { success, updated: false });
    let (d3, a3) = d2.step(DownloadInput::Proceed);
    (d3, seq![a1, a2, a3])
}

/// The actions of `n` such cycles in a row.
pub open spec fn download_walk(d: DownloadModel, success: bool, n: nat) -> Seq<DownloadAction>
    decreases n,
{
    if n == 0 {
        Seq::empty()
    } else {
        let (d3, acts) = download_cycle(d, success);
        acts + download_walk(d3, success, (n - 1) as nat)
    }
}

/// A running download session that stands on position `pos`, with nothing
/// downloaded from there on, downloads every remaining track in order,
/// whatever else happens in the playlist (playback has no hand in these
/// steps), and then finishes.
pub proof fn lemma_download_walks_to_end(d: DownloadModel, success: bool)
    requires
        d.wf(),
        d.phase == DownloadPhase::AwaitStatus,
        d.control == Control::Running,
    ensures
        ({
            let n = (d.order.len() - d.pos) as nat;
            let w = download_walk(d, success, n);
            &&& w.len() == 3 * n
            &&& forall|t: int| 0 <= t < n ==> #[trigger] w[3 * t] == (DownloadAction::Started {
                position: (d.pos + t) as usize,
                track: d.order[d.pos + t],
            })
            &&& forall|t: int| 0 <= t < n ==> #[trigger] w[3 * t + 1] == (
            DownloadAction::TrackFinished { track: d.order[d.pos + t], success })
            &&& w[3 * n - 1] == (DownloadAction::PlaylistFinished { verdict: Verdict::Finished })
        }),
    decreases d.order.len() - d.pos,
{
    let n = (d.order.len() - d.pos) as nat;
    let (d3, acts) = download_cycle(d, success);
    let w = download_walk(d, success, n);
    assert(w == acts + download_walk(d3, success, (n - 1) as nat));
    if n > 1 {
        assert(d3.pos == d.pos + 1 && d3.order == d.order);
        lemma_download_walks_to_end(d3, success);
        let w3 = download_walk(d3, success, (n - 1) as nat);
        assert forall|t: int| 0 <= t < n implies #[trigger] w[3 * t] == (DownloadAction::Started {
            position: (d.pos + t) as usize,
            track: d.order[d.pos + t],
        }) by {
            if t > 0 {
                assert(w[3 * t] == w3[3 * (t - 1)]);
            }
        }
        assert forall|t: int| 0 <= t < n implies #[trigger] w[3 * t + 1] == (
        DownloadAction::TrackFinished { track: d.order[d.pos + t], success }) by {
            if t > 0 {
                assert(w[3 * t + 1] == w3[3 * (t - 1) + 1]);
            }
        }
        assert(w[3 * n - 1] == w3[3 * (n - 1) - 1]);
    } else {
        assert(download_walk(d3, success, 0) == Seq::<DownloadAction>::empty());
        assert(w =~= acts);
    }
}

} // verus!
