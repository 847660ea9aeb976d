use peanut::id::{Id, MediaType, Platform};
use peanut::metadata::ExtractorConfidence;
use peanut::title::{extract_metadata, guess_from_split, official_track_title, strip_leading_separators};
use peanut::track::{Artist, Track};

fn video(title: &str, artist: Artist) -> Track {
    let id = Id::new(Platform::Youtube, MediaType::Track, "v".to_string());
    Track {
        title: title.to_string(),
        duration_secs: 200,
        artist,
        album: None,
        source_id: id.clone(),
        dyn_id: id,
        url: String::new(),
    }
}

fn guess(title: &str, channel: &str) -> (String, String, ExtractorConfidence) {
    let m = extract_metadata(&video(title, Artist::Community(channel.to_string())));
    (m.track_title, m.main_artist_string, m.extract_confidence)
}

#[test]
fn official_uploader_is_artist() {
    let m = extract_metadata(&video(
        "Song (Official Video)",
        Artist::Official(vec!["Band".to_string(), "Guest".to_string()]),
    ));
    assert_eq!(m.track_title, "Song");
    assert_eq!(m.main_artist_string, "Band");
    assert_eq!(m.extract_confidence, ExtractorConfidence::High);
}

#[test]
fn topic_channel_names_artist() {
    assert_eq!(
        guess("Song", "Band - Topic"),
        ("Song".to_string(), "Band".to_string(), ExtractorConfidence::High)
    );
}

#[test]
fn official_title_drops_channel_prefix() {
    assert_eq!(
        guess("Band - Song (Official Music Video)", "Band"),
        ("Song".to_string(), "Band".to_string(), ExtractorConfidence::High)
    );
    assert_eq!(official_track_title("Other - Song [Official Audio]", "Band"), "Song");
}

#[test]
fn quoted_title_after_music() {
    assert_eq!(
        guess("Calamity Mod Music - \"Stained, Brutal Calamity\"", "Uploader"),
        (
            "Stained, Brutal Calamity".to_string(),
            "Uploader".to_string(),
            ExtractorConfidence::High
        )
    );
}

#[test]
fn plain_split_gives_artist_and_title() {
    assert_eq!(
        guess("Artist - Title", "Uploader"),
        ("Title".to_string(), "Artist".to_string(), ExtractorConfidence::Medium)
    );
    assert_eq!(
        guess("Song - song", "Uploader"),
        ("Song".to_string(), "Song".to_string(), ExtractorConfidence::Medium)
    );
}

#[test]
fn music_word_first_means_uploader_is_artist() {
    assert_eq!(
        guess("Game OST - Theme Song", "Uploader"),
        ("Theme Song".to_string(), "Uploader".to_string(), ExtractorConfidence::Low)
    );
}

#[test]
fn track_number_piece_takes_last_two() {
    assert_eq!(
        guess("Celeste - 01 - First Steps", "Uploader"),
        ("First Steps".to_string(), "01".to_string(), ExtractorConfidence::Low)
    );
    let parts = vec!["a".to_string(), " 7 ".to_string(), "b".to_string()];
    let m = guess_from_split(&parts, "c");
    assert_eq!(m.track_title, "b");
    assert_eq!(m.main_artist_string, "7");
}

#[test]
fn unsplit_title_falls_back() {
    assert_eq!(
        guess("Just a title", "Channel"),
        ("Just a title".to_string(), "Channel".to_string(), ExtractorConfidence::Low)
    );
}

#[test]
fn separators_stripped_from_front() {
    assert_eq!(strip_leading_separators(" - | Song - x"), "Song - x");
    assert_eq!(strip_leading_separators("--"), "");
}
