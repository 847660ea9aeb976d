//! Track records and the track list: an ordering paired with a shared snapshot of tracks.
use std::sync::Arc;
use vstd::prelude::*;

use crate::id::Id;
use crate::order::{ascending, shuffle_steps, sorted_order, TrackOrder};

verus! {

/// Who is credited for a track.
#[derive(Debug, Clone)]
pub enum Artist {
    /// The uploader's name, trusted to be the artist.
    Official(Vec<String>),
    /// The uploader's name, which may be a channel rather than an artist.
    Community(String),
}

/// An album a track belongs to.
#[derive(Debug, Clone)]
pub struct Album {
    pub name: String,
    pub artists: Vec<String>,
    pub source_id: Id,
    pub dyn_id: Id,
    pub img_url: String,
}

/// One track of a playlist. Immutable once created; replaced wholesale.
#[derive(Debug, Clone)]
pub struct Track {
    pub title: String,
    /// Length in whole seconds.
    pub duration_secs: u64,
    pub artist: Artist,
    pub album: Option<Album>,
    /// Identifier the track was first known by.
    pub source_id: Id,
    /// Identifier after re-identification; may differ from `source_id`.
    pub dyn_id: Id,
    pub url: String,
}

/// A named collection of tracks.
#[derive(Debug, Clone)]
pub struct Playlist {
    pub name: String,
    pub length: usize,
    pub tracks: Vec<Track>,
}

/// Why a track list could not be built or changed.
#[derive(Debug, Clone, Copy, PartialEq, Eq, Structural)]
pub enum ListError {
    /// The ordering and the track collection differ in length.
    LengthMismatch { order_len: usize, track_count: usize },
}

/// An ordering over a shared, immutable snapshot of tracks.
#[derive(Debug, Clone)]
pub struct TrackList {
    order: TrackOrder,
    tracks: Arc<Vec<Track>>,
}

impl TrackList {
    /// The play order, as indices into `tracks_view()`.
    pub closed spec fn order_view(&self) -> Seq<usize> {
        self.order@
    }

    /// The backing tracks in storage order.
    pub closed spec fn tracks_view(&self) -> Seq<Track> {
        self.tracks@
    }

    /// The order is a permutation of the backing tracks' indices.
    pub closed spec fn wf(&self) -> bool {
        &&& self.order.wf()
        &&& self.order@.len() == self.tracks@.len()
    }

    /// Pairs `order` with `tracks`; fails, and neither truncates nor pads,
    /// when their lengths differ.
    pub fn new(order: TrackOrder, tracks: Arc<Vec<Track>>) -> (r: Result<TrackList, ListError>)
        requires
            order.wf(),
        ensures
            (r is Ok) == (order@.len() == tracks@.len()),
            r matches Ok(l) ==> l.wf() && l.order_view() == order@ && l.tracks_view() == tracks@,
            r matches Err(e) ==> e == (ListError::LengthMismatch {
                order_len: order@.len() as usize,
                track_count: tracks@.len() as usize,
            }),
    {
        let order_len = order.len();
        let track_count = tracks.len();
        if order_len != track_count {
            Err(ListError::LengthMismatch { order_len, track_count })
        } else {
            Ok(TrackList { order, tracks })
        }
    }

    /// The identity ordering over `tracks`.
    pub fn from_tracks(tracks: Arc<Vec<Track>>) -> (r: TrackList)
        ensures
            r.wf(),
            r.tracks_view() == tracks@,
            r.order_view() == ascending(tracks@.len()),
    {
        let n = tracks.len();
        TrackList { order: TrackOrder::new(n), tracks }
    }

    pub fn len(&self) -> (r: usize)
        requires
            self.wf(),
        ensures
            r == self.order_view().len(),
            r == self.tracks_view().len(),
    {
        self.order.len()
    }

    /// The ordering.
    pub fn order(&self) -> (r: &TrackOrder)
        requires
            self.wf(),
        ensures
            r@ == self.order_view(),
            r.wf(),
    {
        &self.order
    }

    /// The entry at play position `pos`: the track's storage index and the track.
    pub fn entry(&self, pos: usize) -> (r: Option<(usize, &Track)>)
        requires
            self.wf(),
        ensures
            pos < self.order_view().len() ==> (r matches Some((i, t)) && i == self.order_view()[pos as int]
                && *t == self.tracks_view()[i as int]),
            pos >= self.order_view().len() ==> r is None,
    {
        match self.order.get(pos) {
            Some(i) => Some((i, &self.tracks[i])),
            None => None,
        }
    }

    /// Shuffles the ordering; the tracks stay as they are.
    pub fn shuffle(&mut self, draws: &Vec<usize>)
        requires
            old(self).wf(),
        ensures
            final(self).wf(),
            final(self).tracks_view() == old(self).tracks_view(),
            final(self).order_view().len() == old(self).order_view().len(),
            final(self).order_view().to_set() == old(self).order_view().to_set(),
            final(self).order_view() == shuffle_steps(
                old(self).order_view(),
                draws@,
                old(self).order_view().len(),
                0,
            ),
    {
        self.order.shuffle(draws);
    }

    /// Restores ascending order; the tracks stay as they are.
    pub fn sort(&mut self)
        requires
            old(self).wf(),
        ensures
            final(self).wf(),
            final(self).tracks_view() == old(self).tracks_view(),
            final(self).order_view() == sorted_order(old(self).order_view()),
    {
        self.order.sort();
    }

    /// Swaps in a new snapshot of the tracks, keeping the order. Fails, and
    /// changes nothing, when the new snapshot has another length.
    pub fn replace_tracks(&mut self, tracks: Arc<Vec<Track>>) -> (r: Result<(), ListError>)
        requires
            old(self).wf(),
        ensures
            final(self).wf(),
            final(self).order_view() == old(self).order_view(),
            (r is Ok) == (tracks@.len() == old(self).order_view().len()),
            r is Ok ==> final(self).tracks_view() == tracks@,
            r matches Err(e) ==> final(self).tracks_view() == old(self).tracks_view() && e == (
            ListError::LengthMismatch {
                order_len: old(self).order_view().len() as usize,
                track_count: tracks@.len() as usize,
            }),
    {
        let order_len = self.order.len();
        let track_count = tracks.len();
        if order_len != track_count {
            Err(ListError::LengthMismatch { order_len, track_count })
        } else {
            self.tracks = tracks;
            Ok(())
        }
    }
}

} // verus!
