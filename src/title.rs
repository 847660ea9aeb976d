//! Guessing a track's title and artist from a video title and its uploader.
use vstd::prelude::*;

use crate::metadata::{
    cleaned, clean_string, contains_music_word, has_music_word, lower_of, lowercase, occurs,
    occurs_in, chars_of, trim, trim_of, is_white_space, is_white_space_char, ExtractorConfidence, YoutubeTitleMetadata,
};
use crate::track::{Artist, Track};

verus! {

/// Whether the regular expression `pattern` matches somewhere in `text`;
/// false when `pattern` does not compile.
pub uninterp spec fn regex_matches(pattern: Seq<char>, text: Seq<char>) -> bool;

/// The pieces of `text` between the matches of `pattern`; `text` alone when
/// `pattern` does not compile.
pub uninterp spec fn regex_pieces(pattern: Seq<char>, text: Seq<char>) -> Seq<Seq<char>>;

/// The text of the first capture group of the first match of `pattern` in
/// `text`, if any.
pub uninterp spec fn regex_group(pattern: Seq<char>, text: Seq<char>) -> Option<Seq<char>>;

/// `s` with every occurrence of a non-empty `from` replaced by `to`,
/// left to right, without overlaps.
pub open spec fn str_replaced(s: Seq<char>, from: Seq<char>, to: Seq<char>) -> Seq<char>
    decreases s.len(),
{
    if s.len() == 0 || from.len() == 0 {
        s
    } else if starts_with(s, from) {
        to + str_replaced(s.subrange(from.len() as int, s.len() as int), from, to)
    } else {
        seq![s[0]] + str_replaced(s.drop_first(), from, to)
    }
}

/// Whether `c` is numeric in Unicode's sense.
pub uninterp spec fn numeric_char(c: char) -> bool;

/// Relies on regex::Regex::new and Regex::is_match: whether `pattern` matches
/// in `text`, a function of the two alone.
#[verifier::external_body]
fn matches_regex(pattern: &str, text: &str) -> (r: bool)
    ensures
        r == regex_matches(pattern@, text@),
{
    match regex::Regex::new(pattern) {
        Ok(re) => re.is_match(text),
        Err(_) => false,
    }
}

/// Relies on regex::Regex::new and Regex::split: the pieces of `text` between
/// the matches of `pattern`, in order.
#[verifier::external_body]
fn split_regex(pattern: &str, text: &str) -> (r: Vec<String>)
    ensures
        r@.len() == regex_pieces(pattern@, text@).len(),
        forall|i: int| 0 <= i < r@.len() ==> (#[trigger] r@[i])@ == regex_pieces(pattern@, text@)[i],
{
    match regex::Regex::new(pattern) {
        Ok(re) => re.split(text).map(|p| p.to_string()).collect(),
        Err(_) => vec![text.to_string()],
    }
}

/// Relies on regex::Regex::new and Regex::captures: the first capture group
/// of the first match of `pattern` in `text`.
#[verifier::external_body]
fn first_group(pattern: &str, text: &str) -> (r: Option<String>)
    ensures
        r matches Some(g) ==> regex_group(pattern@, text@) == Some(g@),
        r is None ==> regex_group(pattern@, text@) is None,
{
    match regex::Regex::new(pattern) {
        Ok(re) => re.captures(text).and_then(|c| c.get(1)).map(|m| m.as_str().to_string()),
        Err(_) => None,
    }
}

/// Relies on char::is_numeric.
#[verifier::external_body]
fn is_numeric(c: char) -> (r: bool)
    ensures
        r == numeric_char(c),
{
    c.is_numeric()
}

/// Separators between an artist and a title.
pub open spec fn split_pattern() -> Seq<char> {
    r"\s+[-|:~]\s+"@
}

/// `... Music - "title"`, the title in straight or curly quotes.
pub open spec fn quoted_pattern() -> Seq<char> {
    r#"(?i)Music\s*-\s*["“](.+?)["”]"#@
}

/// What marks an auto-generated artist channel.
pub open spec fn topic_marker() -> Seq<char> {
    " - Topic"@
}

pub open spec fn official_word() -> Seq<char> {
    seq!['o', 'f', 'f', 'i', 'c', 'i', 'a', 'l']
}

pub open spec fn is_separator(c: char) -> bool {
    c == '-' || c == '|' || c == ':' || c == '~' || is_white_space(c)
}

/// `s` without its leading separators.
pub open spec fn strip_separators(s: Seq<char>) -> Seq<char>
    decreases s.len(),
{
    if s.len() > 0 && is_separator(s[0]) {
        strip_separators(s.drop_first())
    } else {
        s
    }
}

pub open spec fn starts_with(t: Seq<char>, p: Seq<char>) -> bool {
    p.len() <= t.len() && t.subrange(0, p.len() as int) == p
}

pub open spec fn all_numeric(s: Seq<char>) -> bool {
    forall|i: int| 0 <= i < s.len() ==> numeric_char(#[trigger] s[i])
}

/// The title when the video title says "official": the cleaned title,
/// without the channel's name in front and, if it still splits, its last piece.
pub open spec fn official_title(raw: Seq<char>, channel: Seq<char>) -> Seq<char> {
    let ct = cleaned(raw);
    let ct2 = if starts_with(lower_of(ct), lower_of(channel)) && channel.len() <= ct.len() {
        strip_separators(ct.subrange(channel.len() as int, ct.len() as int))
    } else {
        ct
    };
    let parts = regex_pieces(split_pattern(), ct2);
    if regex_matches(split_pattern(), ct2) && parts.len() > 0 {
        trim_of(parts[parts.len() - 1])
    } else {
        ct2
    }
}

/// The guess from an `artist - title` split into `parts` (at least two).
pub open spec fn split_guess(parts: Seq<Seq<char>>, channel: Seq<char>) -> (
    Seq<char>,
    Seq<char>,
    ExtractorConfidence,
) {
    let len = parts.len();
    if len >= 3 && exists|i: int| 0 <= i < len && all_numeric(trim_of(#[trigger] parts[i])) {
        (cleaned(parts[len - 1]), cleaned(parts[len - 2]), ExtractorConfidence::Low)
    } else {
        let music = has_music_word(lower_of(parts[0]));
        let artist = if music { channel } else { parts[0] };
        let first = cleaned(parts[1]);
        let title = if lower_of(first) == lower_of(artist) { cleaned(parts[0]) } else { first };
        (title, artist, if music { ExtractorConfidence::Low } else { ExtractorConfidence::Medium })
    }
}

/// The guess for a video of a channel that may not be the artist's.
pub open spec fn community_guess(raw: Seq<char>, channel: Seq<char>) -> (
    Seq<char>,
    Seq<char>,
    ExtractorConfidence,
) {
    if occurs_in(topic_marker(), channel) {
        (raw, trim_of(str_replaced(channel, topic_marker(), Seq::empty())), ExtractorConfidence::High)
    } else if occurs_in(official_word(), lower_of(raw)) {
        (official_title(raw, channel), channel, ExtractorConfidence::High)
    } else if regex_group(quoted_pattern(), raw) is Some {
        (cleaned(regex_group(quoted_pattern(), raw)->0), channel, ExtractorConfidence::High)
    } else if regex_matches(split_pattern(), raw) && regex_pieces(split_pattern(), raw).len() >= 2 {
        split_guess(regex_pieces(split_pattern(), raw), channel)
    } else {
        (cleaned(raw), channel, ExtractorConfidence::Low)
    }
}

/// The guessed title, artist and confidence for a video titled `raw`.
pub open spec fn title_guess(raw: Seq<char>, artist: Artist) -> (
    Seq<char>,
    Seq<char>,
    ExtractorConfidence,
) {
    match artist {
        Artist::Official(names) => (
            cleaned(raw),
            if names@.len() > 0 { names@[0]@ } else { Seq::empty() },
            ExtractorConfidence::High,
        ),
        Artist::Community(channel) => community_guess(raw, channel@),
    }
}

fn is_separator_char(c: char) -> (r: bool)
    ensures
        r == is_separator(c),
{
    c == '-' || c == '|' || c == ':' || c == '~' || is_white_space_char(c)
}

/// Drops the leading separators of `s`.
pub fn strip_leading_separators(s: &str) -> (r: String)
    ensures
        r@ == strip_separators(s@),
{
    let n = s.unicode_len();
    let mut i: usize = 0;
    assert(s@.subrange(0, n as int) =~= s@);
    while i < n && is_separator_char(s.get_char(i))
        invariant
            n == s@.len(),
            i <= n,
            strip_separators(s@) == strip_separators(s@.subrange(i as int, n as int)),
        decreases n - i,
    {
        assert(s@.subrange(i as int, n as int).drop_first() =~= s@.subrange(i + 1, n as int));
        i = i + 1;
    }
    if i == n {
        assert(s@.subrange(i as int, n as int).len() == 0);
    } else {
        assert(s@.subrange(i as int, n as int)[0] == s@[i as int]);
    }
    String::from_str(s.substring_char(i, n))
}

/// Whether `t` begins with `p`.
fn begins_with(t: &str, p: &str) -> (r: bool)
    ensures
        r == starts_with(t@, p@),
{
    let tc = chars_of(t);
    let pc = chars_of(p);
    if pc.len() > tc.len() {
        return false;
    }
    let mut i: usize = 0;
    while i < pc.len()
        invariant
            tc@ == t@,
            pc@ == p@,
            pc@.len() <= tc@.len(),
            i <= pc@.len(),
            t@.subrange(0, i as int) == p@.subrange(0, i as int),
        decreases pc@.len() - i,
    {
        if tc[i] != pc[i] {
            proof {
                assert(t@.subrange(0, p@.len() as int)[i as int] != p@[i as int]);
            }
            return false;
        }
        i = i + 1;
        assert(t@.subrange(0, i as int) =~= p@.subrange(0, i as int));
    }
    assert(p@.subrange(0, p@.len() as int) =~= p@);
    true
}

/// `s` with the matches of `from` replaced by `to`, left to right, without overlaps.
fn replace_all(s: &str, from: &str, to: &str) -> (r: String)
    requires
        from@.len() > 0,
    ensures
        r@ == str_replaced(s@, from@, to@),
{
    let n = s.unicode_len();
    let m = from.unicode_len();
    let mut r = String::new();
    let mut i: usize = 0;
    assert(s@.subrange(0, n as int) =~= s@);
    while i < n
        invariant
            n == s@.len(),
            m == from@.len(),
            m > 0,
            i <= n,
            r@ + str_replaced(s@.subrange(i as int, n as int), from@, to@) == str_replaced(
                s@,
                from@,
                to@,
            ),
        decreases n - i,
    {
        let ghost rest = s@.subrange(i as int, n as int);
        let tail = s.substring_char(i, n);
        if begins_with(tail, from) {
            assert(rest.subrange(m as int, rest.len() as int) =~= s@.subrange(i + m, n as int));
            r.append(to);
            assert(r@ + str_replaced(s@.subrange(i + m, n as int), from@, to@) =~= str_replaced(
                s@,
                from@,
                to@,
            ));
            i = i + m;
        } else {
            assert(rest.drop_first() =~= s@.subrange(i + 1, n as int));
            r.append(s.substring_char(i, i + 1));
            assert(s@.subrange(i as int, i + 1) =~= seq![rest[0]]);
            assert(r@ + str_replaced(s@.subrange(i + 1, n as int), from@, to@) =~= str_replaced(
                s@,
                from@,
                to@,
            ));
            i = i + 1;
        }
    }
    assert(s@.subrange(n as int, n as int) =~= Seq::<char>::empty());
    assert(r@ =~= str_replaced(s@, from@, to@));
    r
}

/// Whether `a` and `b` hold the same characters.
fn same_text(a: &str, b: &str) -> (r: bool)
    ensures
        r == (a@ == b@),
{
    let n = a.unicode_len();
    if n != b.unicode_len() {
        return false;
    }
    let mut i: usize = 0;
    while i < n
        invariant
            n == a@.len(),
            n == b@.len(),
            i <= n,
            forall|j: int| 0 <= j < i ==> a@[j] == b@[j],
        decreases n - i,
    {
        if a.get_char(i) != b.get_char(i) {
            return false;
        }
        i = i + 1;
    }
    assert(a@ =~= b@);
    true
}

/// Whether every character of `s` is numeric.
fn numeric_only(s: &str) -> (r: bool)
    ensures
        r == all_numeric(s@),
{
    let n = s.unicode_len();
    let mut i: usize = 0;
    while i < n
        invariant
            n == s@.len(),
            i <= n,
            forall|j: int| 0 <= j < i ==> numeric_char(#[trigger] s@[j]),
        decreases n - i,
    {
        if !is_numeric(s.get_char(i)) {
            return false;
        }
        i = i + 1;
    }
    true
}

/// The title of an "official" video of `channel` titled `raw`.
pub fn official_track_title(raw: &str, channel: &str) -> (r: String)
    ensures
        r@ == official_title(raw@, channel@),
{
    let ct = clean_string(raw);
    let lower_ct = lowercase(ct.as_str());
    let lower_channel = lowercase(channel);
    let cut = channel.unicode_len();
    let ct2 = if begins_with(lower_ct.as_str(), lower_channel.as_str()) && cut <= ct.as_str().unicode_len() {
        let n = ct.as_str().unicode_len();
        strip_leading_separators(ct.as_str().substring_char(cut, n))
    } else {
        ct
    };
    let pattern = r"\s+[-|:~]\s+";
    if matches_regex(pattern, ct2.as_str()) {
        let parts = split_regex(pattern, ct2.as_str());
        if parts.len() > 0 {
            return trim(parts[parts.len() - 1].as_str());
        }
    }
    ct2
}

/// The guess from the pieces of an `artist - title` split; `channel` is the uploader.
pub fn guess_from_split(parts: &Vec<String>, channel: &str) -> (r: YoutubeTitleMetadata)
    requires
        parts@.len() >= 2,
    ensures
        (r.track_title@, r.main_artist_string@, r.extract_confidence) == split_guess(
            parts@.map_values(|p: String| p@),
            channel@,
        ),
{
    let ghost views = parts@.map_values(|p: String| p@);
    let len = parts.len();
    if len >= 3 {
        let mut k: usize = 0;
        while k < len
            invariant
                len == parts@.len(),
                views == parts@.map_values(|p: String| p@),
                len >= 3,
                k <= len,
                forall|i: int| 0 <= i < k ==> !all_numeric(trim_of(#[trigger] views[i])),
            decreases len - k,
        {
            let t = trim(parts[k].as_str());
            if numeric_only(t.as_str()) {
                assert(all_numeric(trim_of(views[k as int])));
                assert(views[len - 1] == parts@[len - 1]@);
                assert(views[len - 2] == parts@[len - 2]@);
                return YoutubeTitleMetadata {
                    main_artist_string: clean_string(parts[len - 2].as_str()),
                    track_title: clean_string(parts[len - 1].as_str()),
                    extract_confidence: ExtractorConfidence::Low,
                };
            }
            k = k + 1;
        }
    }
    let lowered_first = lowercase(parts[0].as_str());
    let music = contains_music_word(lowered_first.as_str());
    let main_artist_string = if music {
        String::from_str(channel)
    } else {
        String::from_str(parts[0].as_str())
    };
    let confidence = if music {
        ExtractorConfidence::Low
    } else {
        ExtractorConfidence::Medium
    };
    let mut track_title = clean_string(parts[1].as_str());
    let lower_title = lowercase(track_title.as_str());
    let lower_artist = lowercase(main_artist_string.as_str());
    if same_text(lower_title.as_str(), lower_artist.as_str()) {
        track_title = clean_string(parts[0].as_str());
    }
    YoutubeTitleMetadata { track_title, main_artist_string, extract_confidence: confidence }
}

/// The guess for a video titled `raw` from `channel`, which may not be the artist.
pub fn guess_from_channel(raw: &str, channel: &str) -> (r: YoutubeTitleMetadata)
    ensures
        (r.track_title@, r.main_artist_string@, r.extract_confidence) == community_guess(raw@, channel@),
{
    let channel_chars = chars_of(channel);
    let marker: Vec<char> = vec![' ', '-', ' ', 'T', 'o', 'p', 'i', 'c'];
    proof {
        reveal_strlit(" - Topic");
        assert(marker@ =~= topic_marker());
    }
    if occurs(&marker, &channel_chars) {
        let bare = replace_all(channel, " - Topic", "");
        proof {
            reveal_strlit("");
            assert(""@ =~= Seq::<char>::empty());
        }
        return YoutubeTitleMetadata {
            track_title: String::from_str(raw),
            main_artist_string: trim(bare.as_str()),
            extract_confidence: ExtractorConfidence::High,
        };
    }
    let lowered = lowercase(raw);
    let official: Vec<char> = vec!['o', 'f', 'f', 'i', 'c', 'i', 'a', 'l'];
    assert(official@ =~= official_word());
    let lowered_chars = chars_of(lowered.as_str());
    if occurs(&official, &lowered_chars) {
        return YoutubeTitleMetadata {
            track_title: official_track_title(raw, channel),
            main_artist_string: String::from_str(channel),
            extract_confidence: ExtractorConfidence::High,
        };
    }
    match first_group(r#"(?i)Music\s*-\s*["“](.+?)["”]"#, raw) {
        Some(g) => {
            return YoutubeTitleMetadata {
                track_title: clean_string(g.as_str()),
                main_artist_string: String::from_str(channel),
                extract_confidence: ExtractorConfidence::High,
            };
        },
        None => {},
    }
    let pattern = r"\s+[-|:~]\s+";
    if matches_regex(pattern, raw) {
        let parts = split_regex(pattern, raw);
        if parts.len() >= 2 {
            assert(parts@.map_values(|p: String| p@) =~= regex_pieces(split_pattern(), raw@));
            return guess_from_split(&parts, channel);
        }
    }
    YoutubeTitleMetadata {
        track_title: clean_string(raw),
        main_artist_string: String::from_str(channel),
        extract_confidence: ExtractorConfidence::Low,
    }
}

/// Guesses a track's title and artist from its video title and uploader.
pub fn extract_metadata(track: &Track) -> (r: YoutubeTitleMetadata)
    ensures
        (r.track_title@, r.main_artist_string@, r.extract_confidence) == title_guess(
            track.title@,
            track.artist,
        ),
{
    match &track.artist {
        Artist::Official(names) => {
            let main_artist_string = if names.len() > 0 {
                String::from_str(names[0].as_str())
            } else {
                String::new()
            };
            YoutubeTitleMetadata {
                track_title: clean_string(track.title.as_str()),
                main_artist_string,
                extract_confidence: ExtractorConfidence::High,
            }
        },
        Artist::Community(channel) => guess_from_channel(track.title.as_str(), channel.as_str()),
    }
}

} // verus!
