use std::sync::Arc;

use peanut::id::{Id, MediaType, Platform};
use peanut::order::TrackOrder;
use peanut::track::{Artist, ListError, Track, TrackList};

fn track(name: &str) -> Track {
    let id = Id::new(Platform::Youtube, MediaType::Track, name.to_string());
    Track {
        title: name.to_string(),
        duration_secs: 180,
        artist: Artist::Community("uploader".to_string()),
        album: None,
        source_id: id.clone(),
        dyn_id: id,
        url: format!("https://example.com/{name}"),
    }
}

fn tracks(names: &[&str]) -> Arc<Vec<Track>> {
    Arc::new(names.iter().map(|n| track(n)).collect())
}

fn titles(list: &TrackList) -> Vec<(usize, String)> {
    (0..list.len())
        .map(|p| {
            let (i, t) = list.entry(p).unwrap();
            (i, t.title.clone())
        })
        .collect()
}

#[test]
fn fresh_order_is_identity() {
    let order = TrackOrder::new(5);
    assert_eq!(order.len(), 5);
    assert_eq!(order.indices(), vec![0, 1, 2, 3, 4]);
    assert_eq!(TrackOrder::new(0).len(), 0);
}

#[test]
fn fresh_list_yields_storage_order() {
    let list = TrackList::from_tracks(tracks(&["a", "b", "c"]));
    assert_eq!(list.len(), 3);
    assert_eq!(
        titles(&list),
        vec![(0, "a".to_string()), (1, "b".to_string()), (2, "c".to_string())]
    );
    assert!(list.entry(3).is_none());
}

#[test]
fn shuffle_is_a_permutation() {
    let mut order = TrackOrder::new(6);
    order.shuffle(&vec![3, 7, 1, 0, 4]);
    let mut got = order.indices();
    assert_eq!(got.len(), 6);
    got.sort();
    assert_eq!(got, vec![0, 1, 2, 3, 4, 5]);
}

#[test]
fn shuffle_follows_draws() {
    // n = 3: swap 2 with 5 % 3 = 2 (stays), then 1 with 4 % 2 = 0.
    let mut order = TrackOrder::new(3);
    order.shuffle(&vec![5, 4]);
    assert_eq!(order.indices(), vec![1, 0, 2]);
    // Without draws nothing moves.
    let mut still = TrackOrder::new(4);
    still.shuffle(&vec![]);
    assert_eq!(still.indices(), vec![0, 1, 2, 3]);
}

#[test]
fn sort_twice_equals_sort_once() {
    let mut order = TrackOrder::new(4);
    order.shuffle(&vec![1, 1, 1]);
    order.sort();
    let once = order.indices();
    order.sort();
    assert_eq!(order.indices(), once);
    assert_eq!(once, vec![0, 1, 2, 3]);
}

#[test]
fn shuffle_and_sort_keep_tracks() {
    let mut list = TrackList::from_tracks(tracks(&["a", "b", "c"]));
    // swap 2 with 0, then 1 with 0: [1, 2, 0]
    list.shuffle(&vec![0, 0]);
    assert_eq!(
        titles(&list),
        vec![(1, "b".to_string()), (2, "c".to_string()), (0, "a".to_string())]
    );
    list.sort();
    assert_eq!(
        titles(&list),
        vec![(0, "a".to_string()), (1, "b".to_string()), (2, "c".to_string())]
    );
}

#[test]
fn mismatched_lengths_fail_construction() {
    let r = TrackList::new(TrackOrder::new(2), tracks(&["a", "b", "c"]));
    assert_eq!(
        r.err(),
        Some(ListError::LengthMismatch { order_len: 2, track_count: 3 })
    );
    let r = TrackList::new(TrackOrder::new(4), tracks(&["a", "b", "c"]));
    assert_eq!(
        r.err(),
        Some(ListError::LengthMismatch { order_len: 4, track_count: 3 })
    );
    let ok = TrackList::new(TrackOrder::new(3), tracks(&["a", "b", "c"])).unwrap();
    assert_eq!(ok.len(), 3);
}

#[test]
fn replace_tracks_keeps_order() {
    let mut list = TrackList::from_tracks(tracks(&["a", "b", "c"]));
    list.shuffle(&vec![0, 0]);
    assert_eq!(
        list.replace_tracks(tracks(&["x", "y"])),
        Err(ListError::LengthMismatch { order_len: 3, track_count: 2 })
    );
    assert_eq!(titles(&list)[0], (1, "b".to_string()));
    assert_eq!(list.replace_tracks(tracks(&["x", "y", "z"])), Ok(()));
    assert_eq!(
        titles(&list),
        vec![(1, "y".to_string()), (2, "z".to_string()), (0, "x".to_string())]
    );
}
