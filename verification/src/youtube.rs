//! The video-metadata types and the pure logic around them: extracting a
//! video id from the link formats, and picking thumbnails by quality.
//! The network call that fetches metadata happens outside the library.

use vstd::prelude::*;

use crate::bytes::{bytes_text, sub_vec, text_of};
use crate::textutil::spec_contains;
use vstd::string::StringSliceAdditionalSpecFns;

verus! {

/// One thumbnail of a video.
#[derive(Debug, PartialEq, Eq)]
pub struct Thumbnail {
    pub url: String,
    pub width: u32,
    pub height: u32,
}

/// The thumbnails of a video, by named quality.
#[derive(Debug, PartialEq, Eq)]
pub struct Thumbnails {
    pub default: Option<Thumbnail>,
    pub medium: Option<Thumbnail>,
    pub high: Option<Thumbnail>,
    pub standard: Option<Thumbnail>,
    pub maxres: Option<Thumbnail>,
}

impl Thumbnails {
    /// The highest-quality thumbnail available: the first of maxres,
    /// standard, high, medium, default.
    pub fn get_highest_quality(&self) -> (r: Option<&Thumbnail>)
        ensures
            match r {
                Some(t) => if self.maxres is Some {
                    t == self.maxres->Some_0
                } else if self.standard is Some {
                    t == self.standard->Some_0
                } else if self.high is Some {
                    t == self.high->Some_0
                } else if self.medium is Some {
                    t == self.medium->Some_0
                } else {
                    self.default is Some && t == self.default->Some_0
                },
                None => self.maxres is None && self.standard is None && self.high is None
                    && self.medium is None && self.default is None,
            },
    {
        match &self.maxres {
            Some(t) => Some(t),
            None => match &self.standard {
                Some(t) => Some(t),
                None => match &self.high {
                    Some(t) => Some(t),
                    None => match &self.medium {
                        Some(t) => Some(t),
                        None => match &self.default {
                            Some(t) => Some(t),
                            None => None,
                        },
                    },
                },
            },
        }
    }

    /// All available thumbnails, largest quality first.
    #[verifier::rlimit(60)]
    pub fn get_all_sorted(&self) -> (r: Vec<&Thumbnail>)
        ensures
            r@.map_values(|t: &Thumbnail| *t) == opt_seq(self.maxres) + opt_seq(self.standard)
                + opt_seq(self.high) + opt_seq(self.medium) + opt_seq(self.default),
    {
        let mut thumbs: Vec<&Thumbnail> = Vec::new();
        match &self.maxres {
            Some(t) => thumbs.push(t),
            None => {},
        }
        match &self.standard {
            Some(t) => thumbs.push(t),
            None => {},
        }
        match &self.high {
            Some(t) => thumbs.push(t),
            None => {},
        }
        match &self.medium {
            Some(t) => thumbs.push(t),
            None => {},
        }
        match &self.default {
            Some(t) => thumbs.push(t),
            None => {},
        }
        proof {
            assert(thumbs@.map_values(|t: &Thumbnail| *t) =~= opt_seq(self.maxres) + opt_seq(
                self.standard,
            ) + opt_seq(self.high) + opt_seq(self.medium) + opt_seq(self.default));
        }
        thumbs
    }
}

/// The singleton run an optional thumbnail contributes.
pub open spec fn opt_seq(o: Option<Thumbnail>) -> Seq<Thumbnail> {
    match o {
        Some(t) => seq![t],
        None => Seq::<Thumbnail>::empty(),
    }
}

/// The first index at or after `i` of one of three bytes, or the end.
pub open spec fn spec_find_any3(s: Seq<u8>, b1: u8, b2: u8, b3: u8, i: int) -> int
    decreases s.len() - i,
{
    if !(0 <= i < s.len()) {
        s.len() as int
    } else if s[i] == b1 || s[i] == b2 || s[i] == b3 {
        i
    } else {
        spec_find_any3(s, b1, b2, b3, i + 1)
    }
}

pub proof fn lemma_find_any3_bounds(s: Seq<u8>, b1: u8, b2: u8, b3: u8, i: int)
    requires
        0 <= i <= s.len(),
    ensures
        i <= spec_find_any3(s, b1, b2, b3, i) <= s.len(),
    decreases s.len() - i,
{
    if i < s.len() && !(s[i] == b1 || s[i] == b2 || s[i] == b3) {
        lemma_find_any3_bounds(s, b1, b2, b3, i + 1);
    }
}

/// The first index where `needle` starts inside `hay` at or after `i`,
/// if it occurs there.
pub open spec fn spec_find_sub(hay: Seq<u8>, needle: Seq<u8>, i: int) -> Option<int>
    decreases hay.len() - i,
{
    if !(0 <= i && i + needle.len() <= hay.len()) {
        None
    } else if hay.subrange(i, i + needle.len()) == needle {
        Some(i)
    } else if i < hay.len() {
        spec_find_sub(hay, needle, i + 1)
    } else {
        None
    }
}

pub proof fn lemma_find_sub_bounds(hay: Seq<u8>, needle: Seq<u8>, i: int)
    requires
        0 <= i,
    ensures
        spec_find_sub(hay, needle, i) matches Some(p) ==> i <= p && p + needle.len() <= hay.len(),
    decreases hay.len() - i,
{
    if 0 <= i && i + needle.len() <= hay.len() && hay.subrange(i, i + needle.len()) != needle
        && i < hay.len() {
        lemma_find_sub_bounds(hay, needle, i + 1);
    }
}

/// Finds the first occurrence of `needle` inside `hay`, as
/// `spec_find_sub` describes.
fn find_sub(hay: &[u8], needle: &[u8]) -> (r: Option<usize>)
    ensures
        match r {
            Some(p) => spec_find_sub(hay@, needle@, 0) == Some(p as int) && p + needle@.len()
                <= hay@.len(),
            None => spec_find_sub(hay@, needle@, 0) is None,
        },
{
    proof {
        lemma_find_sub_bounds(hay@, needle@, 0);
    }
    if needle.len() > hay.len() {
        return None;
    }
    let bound = hay.len() - needle.len();
    let mut i: usize = 0;
    while i <= bound
        invariant
            bound == hay@.len() - needle@.len(),
            needle@.len() <= hay@.len(),
            hay@.len() <= usize::MAX,
            i <= bound + 1,
            spec_find_sub(hay@, needle@, 0) == spec_find_sub(hay@, needle@, i as int),
        decreases bound + 1 - i,
    {
        let piece = sub_vec(hay, i, i + needle.len());
        if crate::resolver::bytes_eq(piece.as_slice(), needle) {
            proof {
                assert(hay@.subrange(i as int, i + needle@.len()) == needle@);
            }
            return Some(i);
        }
        proof {
            if needle@.len() == 0 {
                assert(piece@ =~= needle@);
            }
        }
        i = i + 1;
    }
    proof {
        assert(spec_find_sub(hay@, needle@, i as int) is None);
    }
    None
}

/// The text after the first occurrence of `marker`, cut at the first of
/// the three stop bytes.
pub open spec fn spec_after_marker(s: Seq<u8>, marker: Seq<u8>, b1: u8, b2: u8, b3: u8) -> Seq<
    char,
> {
    match spec_find_sub(s, marker, 0) {
        Some(p) => {
            let tail = s.skip(p + marker.len());
            text_of(tail.take(spec_find_any3(tail, b1, b2, b3, 0)))
        },
        None => Seq::<char>::empty(),
    }
}

/// An ASCII byte allowed inside a bare video id.
pub open spec fn is_id_byte(b: u8) -> bool {
    (65 <= b <= 90) || (97 <= b <= 122) || (48 <= b <= 57) || b == 95 || b == 45
}

/// The video id a link carries: the text after `youtu.be/`, after the
/// first `v=` of a `youtube.com` link, or after `youtube.com/embed/`,
/// cut at the query and fragment bytes; or the whole text where it is a
/// bare eleven-byte id.
pub open spec fn spec_youtube_id(s: Seq<u8>) -> Option<Seq<char>> {
    if spec_contains(s, "youtu.be/".spec_bytes()) {
        Some(spec_after_marker(s, "youtu.be/".spec_bytes(), 63, 38, 35))
    } else if spec_contains(s, "youtube.com".spec_bytes()) && spec_contains(
        s,
        "v=".spec_bytes(),
    ) {
        Some(spec_after_marker(s, "v=".spec_bytes(), 38, 35, 38))
    } else if spec_contains(s, "youtube.com/embed/".spec_bytes()) {
        Some(spec_after_marker(s, "embed/".spec_bytes(), 63, 38, 35))
    } else if s.len() == 11 && (forall|j: int| 0 <= j < s.len() ==> is_id_byte(#[trigger] s[j])) {
        Some(text_of(s))
    } else {
        None
    }
}

/// Extracts the video id of a link, as `spec_youtube_id` describes on
/// the trimmed link's UTF-8 bytes.
pub fn get_youtube_id(url: &str) -> (r: Option<String>)
    ensures
        ({
            let s = crate::keeparser::spec_trim(url.spec_bytes());
            match r {
                Some(id) => spec_youtube_id(s) == Some(id@),
                None => spec_youtube_id(s) is None,
            }
        }),
{
    let trimmed = crate::keeparser::trim_bytes(url.as_bytes());
    let s = trimmed.as_slice();

    if crate::textutil::contains_bytes(s, "youtu.be/".as_bytes()) {
        return Some(after_marker(s, "youtu.be/".as_bytes(), 63, 38, 35));
    }
    if crate::textutil::contains_bytes(s, "youtube.com".as_bytes()) && crate::textutil::contains_bytes(
        s,
        "v=".as_bytes(),
    ) {
        return Some(after_marker(s, "v=".as_bytes(), 38, 35, 38));
    }
    if crate::textutil::contains_bytes(s, "youtube.com/embed/".as_bytes()) {
        return Some(after_marker(s, "embed/".as_bytes(), 63, 38, 35));
    }
    if s.len() == 11 {
        let mut ok = true;
        let mut j: usize = 0;
        while j < s.len() && ok
            invariant
                j <= s@.len(),
                ok ==> forall|k: int| 0 <= k < j ==> is_id_byte(#[trigger] s@[k]),
                !ok ==> exists|k: int| 0 <= k < s@.len() && !is_id_byte(#[trigger] s@[k]),
            decreases s@.len() - j, (if ok { 1int } else { 0int }),
        {
            let b = s[j];
            if !((65 <= b && b <= 90) || (97 <= b && b <= 122) || (48 <= b && b <= 57) || b == 95
                || b == 45) {
                ok = false;
                proof {
                    assert(!is_id_byte(s@[j as int]));
                }
            }
            j = j + 1;
        }
        if ok {
            let whole = sub_vec(s, 0, s.len());
            proof {
                assert(whole@ =~= s@);
            }
            return Some(bytes_text(whole));
        }
        return None;
    }
    None
}

/// Cuts the text after the first occurrence of `marker` at the stop
/// bytes, as `spec_after_marker` describes; without an occurrence the
/// result is empty.
fn after_marker(s: &[u8], marker: &[u8], b1: u8, b2: u8, b3: u8) -> (r: String)
    ensures
        r@ == spec_after_marker(s@, marker@, b1, b2, b3),
{
    let p = match find_sub(s, marker) {
        Some(p) => p,
        None => {
            return String::new();
        },
    };
    let slen = s.len();
    let tail_start = p + marker.len();
    let ghost tail = s@.skip(tail_start as int);
    proof {
        lemma_find_any3_bounds(tail, b1, b2, b3, 0);
    }
    let mut e: usize = tail_start;
    while e < s.len() && !(s[e] == b1 || s[e] == b2 || s[e] == b3)
        invariant
            tail_start <= e <= s@.len(),
            tail == s@.skip(tail_start as int),
            tail_start <= s@.len(),
            spec_find_any3(tail, b1, b2, b3, 0) == spec_find_any3(
                tail,
                b1,
                b2,
                b3,
                e - tail_start,
            ),
        decreases s@.len() - e,
    {
        proof {
            assert(tail[e - tail_start] == s@[e as int]);
        }
        e = e + 1;
    }
    proof {
        if e < s@.len() {
            assert(tail[e - tail_start] == s@[e as int]);
        }
        assert(spec_find_any3(tail, b1, b2, b3, e - tail_start) == e - tail_start);
        assert(tail.take(e - tail_start) =~= s@.subrange(tail_start as int, e as int));
    }
    bytes_text(sub_vec(s, tail_start, e))
}

/// The metadata a fetch reports for one video, reduced to what the
/// application shows.
#[derive(Debug, PartialEq, Eq)]
pub struct YoutubeResponse {
    pub title: String,
    pub thumbnail_url: String,
}

/// Why a metadata fetch failed: the request, the payload, or anything
/// else, each with its message.
#[derive(Debug, PartialEq, Eq)]
pub enum YTError {
    Request(String),
    Json(String),
    Else(String),
}

/// The video-metadata client: the key it signs requests with.
#[derive(Debug, PartialEq, Eq)]
pub struct YoutubeApi {
    pub api_key: Option<String>,
}

impl YoutubeApi {
    /// A client with an explicit key.
    pub fn with_api(api_key: String) -> (r: YoutubeApi)
        ensures
            r.api_key == Some(api_key),
    {
        YoutubeApi { api_key: Some(api_key) }
    }

    /// Picks the shown title and thumbnail from a fetched video: its
    /// title, and the address of its best thumbnail.
    pub fn reduce(title: &str, thumbs: &Thumbnails) -> (r: Result<YoutubeResponse, YTError>)
        ensures
            match r {
                Ok(v) => thumbs.get_best_spec() matches Some(t) && v.title@ == title@
                    && v.thumbnail_url@ == t.url@,
                Err(e) => thumbs.get_best_spec() is None,
            },
    {
        match thumbs.get_highest_quality() {
            Some(t) => Ok(
                YoutubeResponse { title: title.to_owned(), thumbnail_url: t.url.clone() },
            ),
            None => Err(YTError::Else("Thumbnail not found".to_owned())),
        }
    }
}

impl Thumbnails {
    /// The best thumbnail at the specification level.
    pub open spec fn get_best_spec(&self) -> Option<Thumbnail> {
        if self.maxres is Some {
            self.maxres
        } else if self.standard is Some {
            self.standard
        } else if self.high is Some {
            self.high
        } else if self.medium is Some {
            self.medium
        } else {
            self.default
        }
    }
}

} // verus!
