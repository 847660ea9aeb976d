//! Track metadata guessed from video titles: types and title cleaning.
use vstd::prelude::*;

use crate::track::Album;

verus! {

/// How far a guess from a video title can be trusted.
#[derive(Debug, Clone, Copy, PartialEq, Eq, Structural)]
pub enum ExtractorConfidence {
    /// The uploader is likely the artist ("official" in the title, a topic channel).
    High,
    /// A plain `artist - title` split.
    Medium,
    /// The whole title taken as the track title, the uploader as the artist.
    Low,
}

/// The album a looked-up recording belongs to.
#[derive(Debug, Clone)]
pub enum AlbumKind {
    Album(Album),
    Single,
    Unknown,
}

/// A title and artist guessed from a video title.
#[derive(Debug, Clone)]
pub struct YoutubeTitleMetadata {
    pub track_title: String,
    pub main_artist_string: String,
    pub extract_confidence: ExtractorConfidence,
}

/// A track's data as found in an online database.
#[derive(Debug, Clone)]
pub struct UpdatedTrackData {
    pub title: String,
    pub album_kind: AlbumKind,
    pub artists: Vec<String>,
}

/// What is left of `text` once every match of the regular expression
/// `pattern` is removed; `text` itself when `pattern` does not compile.
pub uninterp spec fn regex_removed(pattern: Seq<char>, text: Seq<char>) -> Seq<char>;

/// Whether `c` has Unicode's White_Space property.
pub open spec fn is_white_space(c: char) -> bool {
    let u = c as u32;
    (0x9 <= u && u <= 0xd) || u == 0x20 || u == 0x85 || u == 0xa0 || u == 0x1680 || (0x2000 <= u
        && u <= 0x200a) || u == 0x2028 || u == 0x2029 || u == 0x202f || u == 0x205f || u == 0x3000
}

/// `s` without its leading white space.
pub open spec fn trim_start_of(s: Seq<char>) -> Seq<char>
    decreases s.len(),
{
    if s.len() > 0 && is_white_space(s[0]) {
        trim_start_of(s.drop_first())
    } else {
        s
    }
}

/// `s` without its trailing white space.
pub open spec fn trim_end_of(s: Seq<char>) -> Seq<char>
    decreases s.len(),
{
    if s.len() > 0 && is_white_space(s.last()) {
        trim_end_of(s.drop_last())
    } else {
        s
    }
}

/// `s` without leading and trailing white space.
pub open spec fn trim_of(s: Seq<char>) -> Seq<char> {
    trim_end_of(trim_start_of(s))
}

/// `s` in lower case.
pub uninterp spec fn lower_of(s: Seq<char>) -> Seq<char>;

/// Relies on regex::Regex::new and Regex::replace_all: `text` with every
/// match of `pattern` replaced by nothing, a function of the two alone.
#[verifier::external_body]
fn remove_matches(pattern: &str, text: &str) -> (r: String)
    ensures
        r@ == regex_removed(pattern@, text@),
{
    match regex::Regex::new(pattern) {
        Ok(re) => re.replace_all(text, "").into_owned(),
        Err(_) => text.to_string(),
    }
}

/// Whether `c` is white space (Unicode's White_Space property).
pub fn is_white_space_char(c: char) -> (r: bool)
    ensures
        r == is_white_space(c),
{
    let u = c as u32;
    (0x9 <= u && u <= 0xd) || u == 0x20 || u == 0x85 || u == 0xa0 || u == 0x1680 || (0x2000 <= u
        && u <= 0x200a) || u == 0x2028 || u == 0x2029 || u == 0x202f || u == 0x205f || u == 0x3000
}

/// `s` without leading and trailing white space.
pub fn trim(s: &str) -> (r: String)
    ensures
        r@ == trim_of(s@),
{
    let n = s.unicode_len();
    let mut i: usize = 0;
    assert(s@.subrange(0, n as int) =~= s@);
    while i < n && is_white_space_char(s.get_char(i))
        invariant
            n == s@.len(),
            i <= n,
            trim_start_of(s@) == trim_start_of(s@.subrange(i as int, n as int)),
        decreases n - i,
    {
        assert(s@.subrange(i as int, n as int).drop_first() =~= s@.subrange(i + 1, n as int));
        i = i + 1;
    }
    if i == n {
        assert(s@.subrange(i as int, n as int).len() == 0);
    } else {
        assert(s@.subrange(i as int, n as int)[0] == s@[i as int]);
    }
    let ghost front = s@.subrange(i as int, n as int);
    assert(trim_start_of(s@) == front);
    let mut j: usize = n;
    assert(s@.subrange(i as int, j as int) =~= front);
    while j > i && is_white_space_char(s.get_char(j - 1))
        invariant
            n == s@.len(),
            i <= j <= n,
            trim_end_of(front) == trim_end_of(s@.subrange(i as int, j as int)),
        decreases j - i,
    {
        assert(s@.subrange(i as int, j as int).drop_last() =~= s@.subrange(i as int, j - 1));
        j = j - 1;
    }
    if j > i {
        assert(s@.subrange(i as int, j as int).last() == s@[j - 1]);
    }
    String::from_str(s.substring_char(i, j))
}

/// Relies on str::to_lowercase: the result depends on the characters alone.
#[verifier::external_body]
pub(crate) fn lowercase(s: &str) -> (r: String)
    ensures
        r@ == lower_of(s@),
{
    s.to_lowercase()
}

/// Bracketed noise such as "(Official Video)" or "[HQ]".
pub open spec fn garbage_pattern() -> Seq<char> {
    r"(?i)(\(|\[).*(official|video|audio|lyrics|hq|4k|hd|mix|remix|topic|ost|soundtrack|theme|\.ogg|download).*?(\)|\])"@
}

/// A bracketed group at the end.
pub open spec fn end_brackets_pattern() -> Seq<char> {
    r"\s*(\(|\[).*?(\)|\])$"@
}

/// A featuring credit and all that follows it.
pub open spec fn feat_pattern() -> Seq<char> {
    r"(?i)\s(ft\.|feat\.|featuring)\s.*"@
}

/// A track number at the start ("1. ", "02 - ").
pub open spec fn number_start_pattern() -> Seq<char> {
    r"^\d+[\.\-\s]\s*"@
}

/// `s` with bracketed noise, a trailing bracketed group, a featuring credit
/// and a leading track number removed, in that order, and then trimmed.
pub open spec fn cleaned(s: Seq<char>) -> Seq<char> {
    trim_of(
        regex_removed(
            number_start_pattern(),
            regex_removed(
                feat_pattern(),
                regex_removed(end_brackets_pattern(), regex_removed(garbage_pattern(), s)),
            ),
        ),
    )
}

/// Strips the usual noise from a video title.
pub fn clean_string(s: &str) -> (r: String)
    ensures
        r@ == cleaned(s@),
{
    let a = remove_matches(
        r"(?i)(\(|\[).*(official|video|audio|lyrics|hq|4k|hd|mix|remix|topic|ost|soundtrack|theme|\.ogg|download).*?(\)|\])",
        s,
    );
    let b = remove_matches(r"\s*(\(|\[).*?(\)|\])$", a.as_str());
    let c = remove_matches(r"(?i)\s(ft\.|feat\.|featuring)\s.*", b.as_str());
    let d = remove_matches(r"^\d+[\.\-\s]\s*", c.as_str());
    trim(d.as_str())
}

/// `w` occurs in `t` as a contiguous piece.
pub open spec fn occurs_in(w: Seq<char>, t: Seq<char>) -> bool {
    exists|i: int| 0 <= i && i + w.len() <= t.len() && #[trigger] t.subrange(i, i + w.len()) == w
}

/// The words that mark a title part as describing music rather than naming an artist.
pub open spec fn music_words() -> Seq<Seq<char>> {
    seq![
        seq!['o', 's', 't'],
        seq!['s', 'o', 'u', 'n', 'd', 't', 'r', 'a', 'c', 'k'],
        seq!['m', 'u', 's', 'i', 'c'],
        seq!['r', 'e', 'm', 'i', 'x'],
        seq!['a', 'u', 'd', 'i', 'o'],
    ]
}

/// Whether a music word occurs in `t`.
pub open spec fn has_music_word(t: Seq<char>) -> bool {
    exists|k: int| 0 <= k < music_words().len() && occurs_in(#[trigger] music_words()[k], t)
}

/// Whether `w` occurs in `t` starting at `i`.
fn occurs_at(w: &Vec<char>, t: &Vec<char>, i: usize) -> (r: bool)
    requires
        i + w@.len() <= t@.len(),
    ensures
        r == (t@.subrange(i as int, i + w@.len()) == w@),
{
    let n = t.len();
    let mut k: usize = 0;
    while k < w.len()
        invariant
            n == t@.len(),
            k <= w@.len(),
            i + w@.len() <= t@.len(),
            t@.subrange(i as int, i + k) == w@.subrange(0, k as int),
        decreases w@.len() - k,
    {
        if t[i + k] != w[k] {
            proof {
                assert(t@.subrange(i as int, i + w@.len())[k as int] != w@[k as int]);
            }
            return false;
        }
        k = k + 1;
        assert(t@.subrange(i as int, i + k) =~= w@.subrange(0, k as int));
    }
    assert(w@.subrange(0, w@.len() as int) =~= w@);
    true
}

/// Whether `w` occurs anywhere in `t`.
pub(crate) fn occurs(w: &Vec<char>, t: &Vec<char>) -> (r: bool)
    ensures
        r == occurs_in(w@, t@),
{
    if w.len() > t.len() {
        return false;
    }
    let last = t.len() - w.len();
    let mut i: usize = 0;
    loop
        invariant
            last == t@.len() - w@.len(),
            w@.len() <= t@.len(),
            i <= last,
            forall|j: int| 0 <= j < i ==> #[trigger] t@.subrange(j, j + w@.len()) != w@,
        decreases last - i,
    {
        if occurs_at(w, t, i) {
            return true;
        }
        if i == last {
            proof {
                assert forall|j: int| 0 <= j && j + w@.len() <= t@.len() implies #[trigger] t@.subrange(
                    j,
                    j + w@.len(),
                ) != w@ by {
                    assert(j <= last);
                }
            }
            return false;
        }
        i = i + 1;
    }
}

/// The characters of `s`.
pub(crate) fn chars_of(s: &str) -> (r: Vec<char>)
    ensures
        r@ == s@,
{
    let n = s.unicode_len();
    let mut v: Vec<char> = Vec::new();
    let mut i: usize = 0;
    while i < n
        invariant
            n == s@.len(),
            i <= n,
            v@ == s@.subrange(0, i as int),
        decreases n - i,
    {
        v.push(s.get_char(i));
        i = i + 1;
        assert(v@ =~= s@.subrange(0, i as int));
    }
    assert(s@.subrange(0, n as int) =~= s@);
    v
}

/// Whether an already lower-cased title part holds a music word.
pub fn contains_music_word(lowered: &str) -> (r: bool)
    ensures
        r == has_music_word(lowered@),
{
    let t = chars_of(lowered);
    let words: Vec<Vec<char>> = vec![
        vec!['o', 's', 't'],
        vec!['s', 'o', 'u', 'n', 'd', 't', 'r', 'a', 'c', 'k'],
        vec!['m', 'u', 's', 'i', 'c'],
        vec!['r', 'e', 'm', 'i', 'x'],
        vec!['a', 'u', 'd', 'i', 'o'],
    ];
    assert(words@.len() == 5);
    let mut k: usize = 0;
    while k < words.len()
        invariant
            k <= words@.len(),
            t@ == lowered@,
            words@.len() == music_words().len(),
            forall|q: int| 0 <= q < words@.len() ==> (#[trigger] words@[q])@ == music_words()[q],
            forall|q: int| 0 <= q < k ==> !occurs_in(#[trigger] music_words()[q], lowered@),
        decreases words@.len() - k,
    {
        if occurs(&words[k], &t) {
            return true;
        }
        k = k + 1;
    }
    false
}

/// Whether a title part describes music ("OST", "Soundtrack", "Music",
/// "Remix", "Audio") rather than naming an artist; case is ignored.
pub fn is_music_word(s: &str) -> (r: bool)
    ensures
        r == has_music_word(lower_of(s@)),
{
    let lowered = lowercase(s);
    contains_music_word(lowered.as_str())
}

} // verus!
