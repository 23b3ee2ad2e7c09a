//! The binding-file parser: each line of the configuration text holds
//! `binding = command`; the first `=` splits the line, both halves are
//! trimmed, and a line without `=` carries only command text.

use vstd::prelude::*;

use crate::bytes::{bytes_text, sub_vec, text_of};
use crate::keys::spec_split;
use crate::token::{is_ws, lemma_skip_ws_bounds, spec_skip_ws};
use vstd::string::StringSliceAdditionalSpecFns;

verus! {

/// One line of a binding file: the binding text and the command text.
#[derive(Debug, Clone, PartialEq, Eq)]
pub struct KeeFunc {
    pub kee: String,
    pub func: String,
}

impl View for KeeFunc {
    type V = (Seq<char>, Seq<char>);

    open spec fn view(&self) -> (Seq<char>, Seq<char>) {
        (self.kee@, self.func@)
    }
}

/// The index after dropping trailing whitespace from `s[..j]`.
pub open spec fn spec_rskip_ws(s: Seq<u8>, j: int) -> int
    decreases j,
{
    if 0 < j <= s.len() && is_ws(s[j - 1]) {
        spec_rskip_ws(s, j - 1)
    } else {
        j
    }
}

pub proof fn lemma_rskip_ws_bounds(s: Seq<u8>, j: int)
    requires
        0 <= j <= s.len(),
    ensures
        0 <= spec_rskip_ws(s, j) <= j,
    decreases j,
{
    if 0 < j && is_ws(s[j - 1]) {
        lemma_rskip_ws_bounds(s, j - 1);
    }
}

/// `s` with leading and trailing ASCII whitespace removed.
pub open spec fn spec_trim(s: Seq<u8>) -> Seq<u8> {
    let start = spec_skip_ws(s, 0);
    let end = spec_rskip_ws(s, s.len() as int);
    if start <= end {
        s.subrange(start, end)
    } else {
        Seq::<u8>::empty()
    }
}

/// The first index of byte `b` in `s` at or after `i`, if any.
pub open spec fn spec_find_byte(s: Seq<u8>, b: u8, i: int) -> Option<int>
    decreases s.len() - i,
{
    if !(0 <= i < s.len()) {
        None
    } else if s[i] == b {
        Some(i)
    } else {
        spec_find_byte(s, b, i + 1)
    }
}

pub proof fn lemma_find_byte_bounds(s: Seq<u8>, b: u8, i: int)
    requires
        0 <= i <= s.len(),
    ensures
        spec_find_byte(s, b, i) matches Some(p) ==> i <= p < s.len() && s[p] == b,
    decreases s.len() - i,
{
    if i < s.len() && s[i] != b {
        lemma_find_byte_bounds(s, b, i + 1);
    }
}

/// What one line gives: the trimmed text before the first `=` and the
/// trimmed text after it; a line without `=` carries only command text,
/// untrimmed, with an empty binding.
pub open spec fn spec_parse_line(line: Seq<u8>) -> (Seq<char>, Seq<char>) {
    match spec_find_byte(line, 61, 0) {
        Some(p) => (
            text_of(spec_trim(line.subrange(0, p))),
            text_of(spec_trim(line.subrange(p + 1, line.len() as int))),
        ),
        None => (Seq::<char>::empty(), text_of(line)),
    }
}

/// A raw split segment with one trailing carriage return removed.
pub open spec fn spec_strip_cr(p: Seq<u8>) -> Seq<u8> {
    if p.len() > 0 && p.last() == 13 {
        p.drop_last()
    } else {
        p
    }
}

/// The lines of the input: the segments between newlines, each with one
/// trailing carriage return removed, and without the empty segment a
/// trailing newline leaves.
pub open spec fn spec_lines(s: Seq<u8>) -> Seq<Seq<u8>> {
    let parts = spec_split(s, 10);
    let stripped = parts.map_values(|p: Seq<u8>| spec_strip_cr(p));
    if parts.last().len() == 0 {
        stripped.drop_last()
    } else {
        stripped
    }
}

/// Trims ASCII whitespace from both ends, as `spec_trim` describes.
pub fn trim_bytes(s: &[u8]) -> (r: Vec<u8>)
    ensures
        r@ == spec_trim(s@),
{
    proof {
        lemma_skip_ws_bounds(s@, 0);
    }
    let mut start: usize = 0;
    while start < s.len() && is_ws_b(s[start])
        invariant
            start <= s@.len(),
            spec_skip_ws(s@, 0) == spec_skip_ws(s@, start as int),
        decreases s@.len() - start,
    {
        start = start + 1;
    }
    assert(spec_skip_ws(s@, start as int) == start);
    let mut end: usize = s.len();
    while end > 0 && is_ws_b(s[end - 1])
        invariant
            end <= s@.len(),
            spec_rskip_ws(s@, s@.len() as int) == spec_rskip_ws(s@, end as int),
        decreases end,
    {
        end = end - 1;
    }
    assert(spec_rskip_ws(s@, end as int) == end);
    if start <= end {
        sub_vec(s, start, end)
    } else {
        Vec::new()
    }
}

/// Whether `b` is ASCII whitespace, as `is_ws` describes.
fn is_ws_b(b: u8) -> (r: bool)
    ensures
        r == is_ws(b),
{
    b == 32 || (9 <= b && b <= 13)
}

/// Splits one line at its first `=` and trims both halves, as
/// `spec_parse_line` describes.
fn parse_line(line: &[u8]) -> (r: KeeFunc)
    ensures
        r@ == spec_parse_line(line@),
{
    proof {
        lemma_find_byte_bounds(line@, 61, 0);
    }
    let mut p: usize = 0;
    let mut found: bool = false;
    while p < line.len() && !found
        invariant
            p <= line@.len(),
            found ==> p < line@.len() && spec_find_byte(line@, 61, 0) == Some(p as int),
            !found ==> spec_find_byte(line@, 61, 0) == spec_find_byte(line@, 61, p as int),
        decreases line@.len() - p, (if found { 0int } else { 1int }),
    {
        if line[p] == 61 {
            found = true;
            assert(spec_find_byte(line@, 61, p as int) == Some(p as int));
        } else {
            p = p + 1;
        }
    }
    if found {
        assert(spec_find_byte(line@, 61, 0) == Some(p as int));
        let kee = trim_bytes(sub_vec(line, 0, p).as_slice());
        let func = trim_bytes(sub_vec(line, p + 1, line.len()).as_slice());
        KeeFunc { kee: bytes_text(kee), func: bytes_text(func) }
    } else {
        assert(spec_find_byte(line@, 61, p as int) is None);
        let func = sub_vec(line, 0, line.len());
        proof {
            assert(func@ =~= line@);
        }
        KeeFunc { kee: String::new(), func: bytes_text(func) }
    }
}

/// The binding-file parser; it holds the raw file text.
#[derive(Debug, Clone)]
pub struct KeeParser {
    input: Vec<u8>,
}

impl KeeParser {
    /// The bytes of the file text.
    pub closed spec fn bytes(self) -> Seq<u8> {
        self.input@
    }

    pub fn new(input: &str) -> (p: KeeParser)
        ensures
            p.bytes() == input.spec_bytes(),
    {
        KeeParser { input: input.as_bytes_vec() }
    }

    /// Parses every line of the file, in order, as `spec_lines` and
    /// `spec_parse_line` describe.
    pub fn parse(&self) -> (r: Vec<KeeFunc>)
        ensures
            r@.map_values(|k: KeeFunc| k@) == spec_lines(self.bytes()).map_values(
                |l: Seq<u8>| spec_parse_line(l),
            ),
    {
        let ghost s = self.bytes();
        let mut parts = crate::keys::split_bytes(self.input.as_slice(), 10);
        proof {
            crate::keys::lemma_split_nonempty(s, 10);
        }
        let last_empty = parts[parts.len() - 1].len() == 0;
        if last_empty {
            parts.pop();
        }
        let ghost rawparts = spec_split(s, 10);
        let ghost kept: Seq<Seq<u8>> = if rawparts.last().len() == 0 {
            rawparts.drop_last()
        } else {
            rawparts
        };
        proof {
            assert(parts@.map_values(|v: Vec<u8>| v@) =~= kept);
        }

        let mut out: Vec<KeeFunc> = Vec::new();
        let mut i: usize = 0;
        proof {
            assert(out@.map_values(|k: KeeFunc| k@) =~= kept.take(0).map_values(
                |l: Seq<u8>| spec_parse_line(spec_strip_cr(l)),
            ));
        }
        while i < parts.len()
            invariant
                i <= parts@.len(),
                parts@.map_values(|v: Vec<u8>| v@) == kept,
                out@.map_values(|k: KeeFunc| k@) == kept.take(i as int).map_values(
                    |l: Seq<u8>| spec_parse_line(spec_strip_cr(l)),
                ),
            decreases parts@.len() - i,
        {
            let ghost pre = out@.map_values(|k: KeeFunc| k@);
            let part = &parts[i];
            let n = part.len();
            let line: Vec<u8> = if n > 0 && part[n - 1] == 13 {
                sub_vec(part.as_slice(), 0, n - 1)
            } else {
                sub_vec(part.as_slice(), 0, n)
            };
            proof {
                assert(line@ =~= spec_strip_cr(kept[i as int]));
            }
            out.push(parse_line(line.as_slice()));
            i = i + 1;
            proof {
                assert(out@.map_values(|k: KeeFunc| k@) =~= pre.push(
                    spec_parse_line(spec_strip_cr(kept[i - 1])),
                ));
                assert(kept.take(i as int).map_values(
                    |l: Seq<u8>| spec_parse_line(spec_strip_cr(l)),
                ) =~= pre.push(spec_parse_line(spec_strip_cr(kept[i - 1]))));
            }
        }
        proof {
            assert(kept.take(i as int) =~= kept);
            assert(kept.map_values(|l: Seq<u8>| spec_parse_line(spec_strip_cr(l))) =~= spec_lines(
                s,
            ).map_values(|l: Seq<u8>| spec_parse_line(l)));
        }
        out
    }
}

} // verus!
