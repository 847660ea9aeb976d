//! Identifiers of tracks, playlists and albums.
use vstd::prelude::*;

verus! {

/// Where a media item comes from.
#[derive(Debug, Clone, Copy, PartialEq, Eq, Structural)]
pub enum Platform {
    Youtube,
    MusicBrainz,
}

/// What kind of media an identifier names.
#[derive(Debug, Clone, Copy, PartialEq, Eq, Structural)]
pub enum MediaType {
    Playlist,
    Track,
    Album,
}

/// The short code of a platform.
pub open spec fn platform_code(p: Platform) -> Seq<char> {
    match p {
        Platform::Youtube => seq!['y', 't'],
        Platform::MusicBrainz => seq!['m', 'b'],
    }
}

/// The short code of a media type.
pub open spec fn media_code(m: MediaType) -> Seq<char> {
    match m {
        MediaType::Playlist => seq!['p', 'l'],
        MediaType::Track => seq!['t', 'r'],
        MediaType::Album => seq!['a', 'l'],
    }
}

impl Platform {
    /// The platform's short code: `yt` or `mb`.
    pub fn code(&self) -> (r: &'static str)
        ensures
            r@ == platform_code(*self),
    {
        proof {
            reveal_strlit("yt");
            reveal_strlit("mb");
        }
        match self {
            Platform::Youtube => "yt",
            Platform::MusicBrainz => "mb",
        }
    }

    /// The platform whose short code is `s`, if any.
    pub fn parse(s: &str) -> (r: Option<Platform>)
        ensures
            r matches Some(p) ==> platform_code(p) == s@,
            r is None ==> forall|p: Platform| platform_code(p) != s@,
    {
        if two_chars(s, 'y', 't') {
            Some(Platform::Youtube)
        } else if two_chars(s, 'm', 'b') {
            Some(Platform::MusicBrainz)
        } else {
            proof {
                assert(platform_code(Platform::Youtube) != s@);
                assert(platform_code(Platform::MusicBrainz) != s@);
                assert forall|p: Platform| platform_code(p) != s@ by {
                    match p {
                        Platform::Youtube => {},
                        Platform::MusicBrainz => {},
                    }
                }
            }
            None
        }
    }
}

impl MediaType {
    /// The media type's short code: `pl`, `tr` or `al`.
    pub fn code(&self) -> (r: &'static str)
        ensures
            r@ == media_code(*self),
    {
        proof {
            reveal_strlit("pl");
            reveal_strlit("tr");
            reveal_strlit("al");
        }
        match self {
            MediaType::Playlist => "pl",
            MediaType::Track => "tr",
            MediaType::Album => "al",
        }
    }

    /// The media type whose short code is `s`, if any.
    pub fn parse(s: &str) -> (r: Option<MediaType>)
        ensures
            r matches Some(m) ==> media_code(m) == s@,
            r is None ==> forall|m: MediaType| media_code(m) != s@,
    {
        if two_chars(s, 'p', 'l') {
            Some(MediaType::Playlist)
        } else if two_chars(s, 't', 'r') {
            Some(MediaType::Track)
        } else if two_chars(s, 'a', 'l') {
            Some(MediaType::Album)
        } else {
            proof {
                assert(media_code(MediaType::Playlist) != s@);
                assert(media_code(MediaType::Track) != s@);
                assert(media_code(MediaType::Album) != s@);
                assert forall|m: MediaType| media_code(m) != s@ by {
                    match m {
                        MediaType::Playlist => {},
                        MediaType::Track => {},
                        MediaType::Album => {},
                    }
                }
            }
            None
        }
    }
}

/// Whether `s` is exactly the two characters `a` and `b`.
fn two_chars(s: &str, a: char, b: char) -> (r: bool)
    ensures
        r == (s@ == seq![a, b]),
{
    let n = s.unicode_len();
    if n != 2 {
        proof {
            assert(s@.len() != seq![a, b].len());
        }
        return false;
    }
    let c0 = s.get_char(0);
    let c1 = s.get_char(1);
    if c0 == a && c1 == b {
        assert(s@ =~= seq![a, b]);
        true
    } else {
        proof {
            if s@ == seq![a, b] {
                assert(s@[0] == a && s@[1] == b);
            }
        }
        false
    }
}

/// A media identifier: platform, media type and the platform's own id.
#[derive(Debug, Clone, PartialEq, Eq)]
pub struct Id {
    pub platform: Platform,
    pub media_type: MediaType,
    pub id: String,
}

impl Id {
    pub fn new(platform: Platform, media_type: MediaType, id: String) -> (r: Id)
        ensures
            r.platform == platform,
            r.media_type == media_type,
            r.id@ == id@,
    {
        Id { platform, media_type, id }
    }
}

} // verus!
