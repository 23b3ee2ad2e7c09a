//! Shared text helpers: percent-encoding, substring search, and the
//! file-name arithmetic (last path component, stem, extension) that the
//! catalog code does on plain strings.

use vstd::prelude::*;

use crate::bytes::{chars_string, sub_vec};
use crate::keys::{lower_bytes, spec_lower};
use vstd::string::StringSliceAdditionalSpecFns;

verus! {

/// A byte that percent-encoding leaves as it is.
pub open spec fn is_unreserved(b: u8) -> bool {
    (65 <= b <= 90) || (97 <= b <= 122) || (48 <= b <= 57) || b == 45 || b == 95 || b == 46 || b
        == 126
}

/// The uppercase hex digit of a value below sixteen.
pub open spec fn spec_hex_digit(v: int) -> char {
    if v < 10 {
        (48 + v) as char
    } else {
        (65 + v - 10) as char
    }
}

/// What one byte encodes to: itself, or `%` and two uppercase hex digits.
pub open spec fn spec_encode_byte(b: u8) -> Seq<char> {
    if is_unreserved(b) {
        seq![b as char]
    } else {
        seq!['%', spec_hex_digit(b as int / 16), spec_hex_digit(b as int % 16)]
    }
}

/// Percent-encoding of the UTF-8 bytes of a text: unreserved bytes stay,
/// every other byte becomes `%` and two uppercase hex digits.
pub open spec fn spec_url_encode(s: Seq<u8>) -> Seq<char>
    decreases s.len(),
{
    if s.len() == 0 {
        Seq::<char>::empty()
    } else {
        spec_encode_byte(s[0]) + spec_url_encode(s.drop_first())
    }
}

/// Percent-encodes a string's UTF-8 bytes, as `spec_url_encode`
/// describes.
pub fn url_encode(input: &str) -> (r: String)
    ensures
        r@ == spec_url_encode(input.spec_bytes()),
{
    let bytes = input.as_bytes_vec();
    let ghost s = input.spec_bytes();
    let mut out: Vec<char> = Vec::new();
    let mut i: usize = 0;
    proof {
        assert(s.skip(0) =~= s);
        assert(out@ + spec_url_encode(s.skip(0)) =~= spec_url_encode(s));
    }
    while i < bytes.len()
        invariant
            i <= s.len(),
            bytes@ == s,
            out@ + spec_url_encode(s.skip(i as int)) == spec_url_encode(s),
        decreases s.len() - i,
    {
        let ghost rem = s.skip(i as int);
        let ghost out0 = out@;
        let b = bytes[i];
        proof {
            assert(rem[0] == s[i as int]);
        }
        if (65 <= b && b <= 90) || (97 <= b && b <= 122) || (48 <= b && b <= 57) || b == 45 || b
            == 95 || b == 46 || b == 126 {
            out.push(b as char);
            proof {
                assert(out@ =~= out0 + spec_encode_byte(b));
            }
        } else {
            out.push('%');
            let hi = b / 16;
            let lo = b % 16;
            out.push(
                if hi < 10 {
                    (48 + hi) as char
                } else {
                    (65 + hi - 10) as char
                },
            );
            out.push(
                if lo < 10 {
                    (48 + lo) as char
                } else {
                    (65 + lo - 10) as char
                },
            );
            proof {
                assert(out@ =~= out0 + spec_encode_byte(b));
            }
        }
        i = i + 1;
        proof {
            assert(rem.drop_first() =~= s.skip(i as int));
            assert(out@ + spec_url_encode(s.skip(i as int)) =~= spec_url_encode(s));
        }
    }
    proof {
        assert(s.skip(i as int) =~= Seq::<u8>::empty());
        assert(out@ + Seq::<char>::empty() =~= out@);
    }
    chars_string(out)
}

/// Whether `needle` occurs as a contiguous run inside `hay`.
pub open spec fn spec_contains(hay: Seq<u8>, needle: Seq<u8>) -> bool {
    exists|i: int|
        0 <= i && i + needle.len() <= hay.len() && #[trigger] hay.subrange(i, i + needle.len())
            == needle
}

/// Whether one byte run occurs inside another, as `spec_contains`
/// describes.
pub fn contains_bytes(hay: &[u8], needle: &[u8]) -> (r: bool)
    ensures
        r == spec_contains(hay@, needle@),
{
    if needle.len() > hay.len() {
        proof {
            assert(!spec_contains(hay@, needle@));
        }
        return false;
    }
    let mut i: usize = 0;
    let bound = hay.len() - needle.len();
    while i <= bound
        invariant
            bound == hay@.len() - needle@.len(),
            i <= bound + 1,
            needle@.len() <= hay@.len(),
            hay@.len() <= usize::MAX,
            forall|j: int|
                0 <= j < i ==> #[trigger] hay@.subrange(j, j + needle@.len()) != needle@,
        decreases bound + 1 - i,
    {
        let piece = sub_vec(hay, i, i + needle.len());
        if crate::resolver::bytes_eq(piece.as_slice(), needle) {
            proof {
                assert(hay@.subrange(i as int, i + needle@.len()) == needle@);
            }
            return true;
        }
        proof {
            if needle@.len() == 0 {
                assert(piece@ =~= needle@);
            }
        }
        i = i + 1;
    }
    proof {
        assert forall|j: int| !(0 <= j && j + needle@.len() <= hay@.len() && #[trigger] hay@.subrange(
            j,
            j + needle@.len(),
        ) == needle@) by {
            if 0 <= j && j + needle@.len() <= hay@.len() {
                assert(j < i);
            }
        }
    }
    false
}

/// Whether one text occurs inside another, byte for byte.
pub fn str_contains(hay: &str, needle: &str) -> (r: bool)
    ensures
        r == spec_contains(hay.spec_bytes(), needle.spec_bytes()),
{
    contains_bytes(hay.as_bytes(), needle.as_bytes())
}

/// The last index of a byte of `set` in `s`, if any.
pub open spec fn spec_rfind2(s: Seq<u8>, b1: u8, b2: u8, j: int) -> Option<int>
    decreases j,
{
    if j <= 0 || j > s.len() {
        None
    } else if s[j - 1] == b1 || s[j - 1] == b2 {
        Some(j - 1)
    } else {
        spec_rfind2(s, b1, b2, j - 1)
    }
}

pub proof fn lemma_rfind2_bounds(s: Seq<u8>, b1: u8, b2: u8, j: int)
    requires
        0 <= j <= s.len(),
    ensures
        spec_rfind2(s, b1, b2, j) matches Some(p) ==> 0 <= p < j,
    decreases j,
{
    if 0 < j && !(s[j - 1] == b1 || s[j - 1] == b2) {
        lemma_rfind2_bounds(s, b1, b2, j - 1);
    }
}

/// The last path component of `s`: what follows its last slash or
/// backslash.
pub open spec fn spec_file_name(s: Seq<u8>) -> Seq<u8> {
    match spec_rfind2(s, 47, 92, s.len() as int) {
        Some(p) => s.skip(p + 1),
        None => s,
    }
}

/// The stem of a file name: the name up to its last dot, or the whole
/// name where the only dot leads it or there is none.
pub open spec fn spec_stem_of(name: Seq<u8>) -> Seq<u8> {
    match spec_rfind2(name, 46, 46, name.len() as int) {
        Some(p) => if p == 0 {
            name
        } else {
            name.take(p)
        },
        None => name,
    }
}

/// The extension of a file name: what follows its last dot, where the
/// dot neither leads the name nor is missing.
pub open spec fn spec_ext_of(name: Seq<u8>) -> Option<Seq<u8>> {
    match spec_rfind2(name, 46, 46, name.len() as int) {
        Some(p) => if p == 0 {
            None
        } else {
            Some(name.skip(p + 1))
        },
        None => None,
    }
}

/// Finds the last slash or backslash before `j`, as `spec_rfind2`
/// describes.
fn rfind2(s: &[u8], b1: u8, b2: u8) -> (r: Option<usize>)
    ensures
        match r {
            Some(p) => spec_rfind2(s@, b1, b2, s@.len() as int) == Some(p as int) && p < s@.len(),
            None => spec_rfind2(s@, b1, b2, s@.len() as int) is None,
        },
{
    proof {
        lemma_rfind2_bounds(s@, b1, b2, s@.len() as int);
    }
    let mut j: usize = s.len();
    while j > 0
        invariant
            j <= s@.len(),
            spec_rfind2(s@, b1, b2, s@.len() as int) == spec_rfind2(s@, b1, b2, j as int),
        decreases j,
    {
        if s[j - 1] == b1 || s[j - 1] == b2 {
            return Some(j - 1);
        }
        j = j - 1;
    }
    None
}

/// The last path component of a path string, as `spec_file_name`
/// describes on its UTF-8 bytes.
pub fn file_name(path: &str) -> (r: Vec<u8>)
    ensures
        r@ == spec_file_name(path.spec_bytes()),
{
    let bytes = path.as_bytes();
    let n = bytes.len();
    match rfind2(bytes, 47, 92) {
        Some(p) => sub_vec(bytes, p + 1, n),
        None => sub_vec(bytes, 0, n),
    }
}

/// The stem of a file name's bytes, as `spec_stem_of` describes.
pub fn stem_of(name: &[u8]) -> (r: Vec<u8>)
    ensures
        r@ == spec_stem_of(name@),
{
    match rfind2(name, 46, 46) {
        Some(p) => if p == 0 {
            sub_vec(name, 0, name.len())
        } else {
            sub_vec(name, 0, p)
        },
        None => sub_vec(name, 0, name.len()),
    }
}

/// The extension of a file name's bytes, as `spec_ext_of` describes.
pub fn ext_of(name: &[u8]) -> (r: Option<Vec<u8>>)
    ensures
        match r {
            Some(e) => spec_ext_of(name@) == Some(e@),
            None => spec_ext_of(name@) is None,
        },
{
    let n = name.len();
    match rfind2(name, 46, 46) {
        Some(p) => if p == 0 {
            None
        } else {
            Some(sub_vec(name, p + 1, n))
        },
        None => None,
    }
}

/// Case-insensitive equality of two byte runs under ASCII lowering.
pub fn bytes_eq_nocase(a: &[u8], b: &[u8]) -> (r: bool)
    ensures
        r == (spec_lower(a@) == spec_lower(b@)),
{
    let la = lower_bytes(&sub_vec(a, 0, a.len()));
    let lb = lower_bytes(&sub_vec(b, 0, b.len()));
    let res = crate::resolver::bytes_eq(la.as_slice(), lb.as_slice());
    proof {
        assert(a@.subrange(0, a@.len() as int) =~= a@);
        assert(b@.subrange(0, b@.len() as int) =~= b@);
    }
    res
}

/// Trailing path separators removed: a path's final component ignores
/// them.
pub open spec fn spec_rstrip_seps(s: Seq<u8>) -> Seq<u8>
    decreases s.len(),
{
    if s.len() > 0 && (s.last() == 47 || s.last() == 92) {
        spec_rstrip_seps(s.drop_last())
    } else {
        s
    }
}

/// The stem of a path's final component, under the usual file-stem rule:
/// trailing separators are dropped first; an empty component and the
/// current- and parent-directory names have no stem; a name whose only
/// dot leads it is its own stem.
pub open spec fn spec_path_stem(s: Seq<u8>) -> Option<Seq<u8>> {
    let name = spec_file_name(spec_rstrip_seps(s));
    if name.len() == 0 || name == seq![46u8] || name == seq![46u8, 46u8] {
        None
    } else {
        Some(spec_stem_of(name))
    }
}

/// The stem of a path's final component, as `spec_path_stem` describes on
/// the path's UTF-8 bytes.
pub fn path_stem(path: &str) -> (r: Option<Vec<u8>>)
    ensures
        match r {
            Some(v) => spec_path_stem(path.spec_bytes()) == Some(v@),
            None => spec_path_stem(path.spec_bytes()) is None,
        },
{
    let bytes = path.as_bytes();
    let ghost s = bytes@;
    let mut end: usize = bytes.len();
    proof {
        assert(s.take(end as int) =~= s);
    }
    while end > 0 && (bytes[end - 1] == 47 || bytes[end - 1] == 92)
        invariant
            end <= s.len(),
            bytes@ == s,
            spec_rstrip_seps(s) == spec_rstrip_seps(s.take(end as int)),
        decreases end,
    {
        proof {
            assert(s.take(end as int).drop_last() =~= s.take(end - 1));
        }
        end = end - 1;
    }
    let stripped = sub_vec(bytes, 0, end);
    proof {
        assert(spec_rstrip_seps(s.take(end as int)) == s.take(end as int));
        assert(stripped@ == spec_rstrip_seps(s));
    }
    let name = match rfind2(stripped.as_slice(), 47, 92) {
        Some(p) => sub_vec(stripped.as_slice(), p + 1, end),
        None => sub_vec(stripped.as_slice(), 0, end),
    };
    proof {
        assert(name@ == spec_file_name(stripped@));
    }
    let n = name.len();
    if n == 0 {
        return None;
    }
    if n == 1 && name[0] == 46 {
        proof {
            assert(name@ =~= seq![46u8]);
        }
        return None;
    }
    if n == 2 && name[0] == 46 && name[1] == 46 {
        proof {
            assert(name@ =~= seq![46u8, 46u8]);
        }
        return None;
    }
    proof {
        assert(name@ != seq![46u8]);
        assert(name@ != seq![46u8, 46u8]);
    }
    Some(stem_of(name.as_slice()))
}

} // verus!
