//! The command tokenizer: scans raw command text left to right, skipping
//! whitespace, and produces identifiers, single-quoted strings, decimal
//! numbers, parentheses, commas and `::`. A lone `:`, an unterminated
//! string, or a byte outside the token grammar stops tokenization.

use vstd::prelude::*;

use crate::bytes::sub_vec;

verus! {

/// One token, at the specification level; text payloads are the raw bytes.
pub enum SpecTok {
    Ident(Seq<u8>),
    StrLit(Seq<u8>),
    Number(i64),
    LParen,
    RParen,
    Comma,
    DoubleColon,
}

/// One token of the command grammar.
#[derive(Debug, Clone, PartialEq, Eq)]
pub enum Tok {
    Ident(Vec<u8>),
    StrLit(Vec<u8>),
    Number(i64),
    LParen,
    RParen,
    Comma,
    DoubleColon,
}

impl View for Tok {
    type V = SpecTok;

    open spec fn view(&self) -> SpecTok {
        match self {
            Tok::Ident(v) => SpecTok::Ident(v@),
            Tok::StrLit(v) => SpecTok::StrLit(v@),
            Tok::Number(n) => SpecTok::Number(*n),
            Tok::LParen => SpecTok::LParen,
            Tok::RParen => SpecTok::RParen,
            Tok::Comma => SpecTok::Comma,
            Tok::DoubleColon => SpecTok::DoubleColon,
        }
    }
}

/// ASCII whitespace.
pub open spec fn is_ws(b: u8) -> bool {
    b == 32 || (9 <= b <= 13)
}

/// ASCII decimal digit.
pub open spec fn is_digit(b: u8) -> bool {
    48 <= b <= 57
}

/// ASCII letter.
pub open spec fn is_alpha(b: u8) -> bool {
    (65 <= b <= 90) || (97 <= b <= 122)
}

/// A byte that can start an identifier: a letter or `_`.
pub open spec fn is_ident_start(b: u8) -> bool {
    is_alpha(b) || b == 95
}

/// A byte that can continue an identifier: alphanumeric, `_` or `-`.
pub open spec fn is_ident_cont(b: u8) -> bool {
    is_alpha(b) || is_digit(b) || b == 95 || b == 45
}

/// The first index at or after `pos` holding a non-whitespace byte, or the
/// end of the input.
pub open spec fn spec_skip_ws(s: Seq<u8>, pos: int) -> int
    decreases s.len() - pos,
{
    if 0 <= pos < s.len() && is_ws(s[pos]) {
        spec_skip_ws(s, pos + 1)
    } else {
        pos
    }
}

pub proof fn lemma_skip_ws_bounds(s: Seq<u8>, pos: int)
    requires
        0 <= pos <= s.len(),
    ensures
        pos <= spec_skip_ws(s, pos) <= s.len(),
        spec_skip_ws(s, pos) < s.len() ==> !is_ws(s[spec_skip_ws(s, pos)]),
    decreases s.len() - pos,
{
    if pos < s.len() && is_ws(s[pos]) {
        lemma_skip_ws_bounds(s, pos + 1);
    }
}

/// The first index at or after `pos` holding a non-digit byte, or the end
/// of the input.
pub open spec fn spec_scan_digits(s: Seq<u8>, pos: int) -> int
    decreases s.len() - pos,
{
    if 0 <= pos < s.len() && is_digit(s[pos]) {
        spec_scan_digits(s, pos + 1)
    } else {
        pos
    }
}

pub proof fn lemma_scan_digits_bounds(s: Seq<u8>, pos: int)
    requires
        0 <= pos <= s.len(),
    ensures
        pos <= spec_scan_digits(s, pos) <= s.len(),
        forall|j: int| pos <= j < spec_scan_digits(s, pos) ==> is_digit(s[j]),
    decreases s.len() - pos,
{
    if pos < s.len() && is_digit(s[pos]) {
        lemma_scan_digits_bounds(s, pos + 1);
    }
}

/// The first index at or after `pos` holding a byte that cannot continue
/// an identifier, or the end of the input.
pub open spec fn spec_scan_ident(s: Seq<u8>, pos: int) -> int
    decreases s.len() - pos,
{
    if 0 <= pos < s.len() && is_ident_cont(s[pos]) {
        spec_scan_ident(s, pos + 1)
    } else {
        pos
    }
}

pub proof fn lemma_scan_ident_bounds(s: Seq<u8>, pos: int)
    requires
        0 <= pos <= s.len(),
    ensures
        pos <= spec_scan_ident(s, pos) <= s.len(),
    decreases s.len() - pos,
{
    if pos < s.len() && is_ident_cont(s[pos]) {
        lemma_scan_ident_bounds(s, pos + 1);
    }
}

/// The first index at or after `pos` holding a single quote, or the end of
/// the input where there is none.
pub open spec fn spec_scan_quote(s: Seq<u8>, pos: int) -> int
    decreases s.len() - pos,
{
    if 0 <= pos < s.len() && s[pos] != 39 {
        spec_scan_quote(s, pos + 1)
    } else {
        pos
    }
}

pub proof fn lemma_scan_quote_bounds(s: Seq<u8>, pos: int)
    requires
        0 <= pos <= s.len(),
    ensures
        pos <= spec_scan_quote(s, pos) <= s.len(),
    decreases s.len() - pos,
{
    if pos < s.len() && s[pos] != 39 {
        lemma_scan_quote_bounds(s, pos + 1);
    }
}

/// The value of a run of decimal digit bytes.
pub open spec fn spec_digits_val(s: Seq<u8>) -> int
    decreases s.len(),
{
    if s.len() == 0 {
        0
    } else {
        spec_digits_val(s.drop_last()) * 10 + (s.last() - 48)
    }
}

pub proof fn lemma_digits_val_nonneg(s: Seq<u8>)
    requires
        forall|j: int| 0 <= j < s.len() ==> is_digit(s[j]),
    ensures
        spec_digits_val(s) >= 0,
    decreases s.len(),
{
    if s.len() > 0 {
        lemma_digits_val_nonneg(s.drop_last());
    }
}

/// A digit run is worth at least any of its prefixes.
pub proof fn lemma_digits_val_prefix(s: Seq<u8>, i: int)
    requires
        0 <= i <= s.len(),
        forall|j: int| 0 <= j < s.len() ==> is_digit(s[j]),
    ensures
        spec_digits_val(s.take(i)) <= spec_digits_val(s),
    decreases s.len() - i,
{
    if i < s.len() {
        lemma_digits_val_prefix(s, i + 1);
        assert(s.take(i + 1).drop_last() =~= s.take(i));
        assert(s.take(i + 1).last() == s[i]);
        lemma_digits_val_nonneg(s.take(i));
    } else {
        assert(s.take(i) =~= s);
    }
}

/// The token starting at the first non-whitespace byte at or after `pos`,
/// with the position just past it; `None` where the text there is no
/// token: the end of the input, a lone `:`, an unterminated string, a
/// number too large for `i64`, or a byte outside the grammar.
pub open spec fn spec_next_token(s: Seq<u8>, pos0: int) -> Option<(SpecTok, int)> {
    let pos = spec_skip_ws(s, pos0);
    if !(0 <= pos < s.len()) {
        None
    } else {
        let b = s[pos];
        if b == 58 {  // ':'
            if pos + 1 < s.len() && s[pos + 1] == 58 {
                Some((SpecTok::DoubleColon, pos + 2))
            } else {
                None
            }
        } else if b == 40 {
            Some((SpecTok::LParen, pos + 1))
        } else if b == 41 {
            Some((SpecTok::RParen, pos + 1))
        } else if b == 44 {
            Some((SpecTok::Comma, pos + 1))
        } else if is_digit(b) {
            let end = spec_scan_digits(s, pos + 1);
            let v = spec_digits_val(s.subrange(pos, end));
            if v <= i64::MAX {
                Some((SpecTok::Number(v as i64), end))
            } else {
                None
            }
        } else if is_ident_start(b) {
            let end = spec_scan_ident(s, pos + 1);
            Some((SpecTok::Ident(s.subrange(pos, end)), end))
        } else if b == 39 {  // '\''
            let end = spec_scan_quote(s, pos + 1);
            if end < s.len() {
                Some((SpecTok::StrLit(s.subrange(pos + 1, end)), end + 1))
            } else {
                None
            }
        } else {
            None
        }
    }
}

/// A token always advances the position and stays inside the input.
pub proof fn lemma_next_token_advances(s: Seq<u8>, pos: int)
    requires
        0 <= pos <= s.len(),
        spec_next_token(s, pos) is Some,
    ensures
        pos < spec_next_token(s, pos)->Some_0.1 <= s.len(),
{
    lemma_skip_ws_bounds(s, pos);
    let p = spec_skip_ws(s, pos);
    if 0 <= p < s.len() {
        let b = s[p];
        if is_digit(b) {
            lemma_scan_digits_bounds(s, p + 1);
        } else if !(b == 58 || b == 40 || b == 41 || b == 44) && is_ident_start(b) {
            lemma_scan_ident_bounds(s, p + 1);
        } else if b == 39 {
            lemma_scan_quote_bounds(s, p + 1);
        }
    }
}

/// Reads the next token from `s` starting at `*pos`, advancing `*pos` past
/// it, exactly as `spec_next_token` describes.
#[verifier::loop_isolation(false)]
pub(crate) fn tok_next(s: &[u8], pos: &mut usize) -> (r: Option<Tok>)
    requires
        *old(pos) <= s@.len(),
    ensures
        *final(pos) <= s@.len(),
        match r {
            Some(t) => spec_next_token(s@, *old(pos) as int) == Some((t@, *final(pos) as int))
                && *old(pos) < *final(pos),
            None => spec_next_token(s@, *old(pos) as int) is None,
        },
{
    proof {
        lemma_skip_ws_bounds(s@, *pos as int);
    }
    let mut p: usize = *pos;
    while p < s.len() && is_ws_byte(s[p])
        invariant
            *old(pos) <= p <= s@.len(),
            spec_skip_ws(s@, *old(pos) as int) == spec_skip_ws(s@, p as int),
        decreases s@.len() - p,
    {
        p = p + 1;
    }
    assert(spec_skip_ws(s@, p as int) == p);

    if p >= s.len() {
        *pos = p;
        return None;
    }
    let b = s[p];
    if b == 58 {
        if p + 1 < s.len() && s[p + 1] == 58 {
            *pos = p + 2;
            Some(Tok::DoubleColon)
        } else {
            *pos = p + 1;
            None
        }
    } else if b == 40 {
        *pos = p + 1;
        Some(Tok::LParen)
    } else if b == 41 {
        *pos = p + 1;
        Some(Tok::RParen)
    } else if b == 44 {
        *pos = p + 1;
        Some(Tok::Comma)
    } else if 48 <= b && b <= 57 {
        let mut end: usize = p + 1;
        while end < s.len() && 48 <= s[end] && s[end] <= 57
            invariant
                p + 1 <= end <= s@.len(),
                spec_scan_digits(s@, p + 1 as int) == spec_scan_digits(s@, end as int),
            decreases s@.len() - end,
        {
            end = end + 1;
        }
        assert(spec_scan_digits(s@, end as int) == end);
        let ghost run = s@.subrange(p as int, end as int);
        proof {
            lemma_scan_digits_bounds(s@, p + 1);
        }
        let mut val: i64 = 0;
        let mut k: usize = p;
        while k < end
            invariant
                p <= k <= end <= s@.len(),
                0 <= val,
                val == spec_digits_val(s@.subrange(p as int, k as int)),
            decreases end - k,
        {
            let d = (s[k] - 48) as i64;
            proof {
                assert(run[k - p] == s@[k as int]);
                assert(is_digit(s@[k as int]));
            }
            if val > (i64::MAX - d) / 10 {
                proof {
                    assert(run.take(k + 1 - p) =~= s@.subrange(p as int, k + 1));
                    assert(s@.subrange(p as int, k + 1).drop_last() =~= s@.subrange(
                        p as int,
                        k as int,
                    ));
                    assert(spec_digits_val(s@.subrange(p as int, k + 1)) == val * 10 + d);
                    assert(val * 10 + d > i64::MAX) by {
                        assert(val >= (i64::MAX - d) / 10 + 1);
                        assert(((i64::MAX - d) / 10 + 1) * 10 >= i64::MAX - d + 1) by (nonlinear_arith)
                            requires
                                0 <= d <= 9,
                                val >= (i64::MAX - d) / 10 + 1,
                        ;
                        assert(val * 10 >= ((i64::MAX - d) / 10 + 1) * 10) by (nonlinear_arith)
                            requires
                                val >= (i64::MAX - d) / 10 + 1,
                        ;
                    }
                    assert(forall|j: int| 0 <= j < run.len() ==> is_digit(run[j]));
                    lemma_digits_val_prefix(run, k + 1 - p);
                    assert(spec_digits_val(run) > i64::MAX);
                }
                *pos = end;
                return None;
            }
            proof {
                assert(s@.subrange(p as int, k + 1).drop_last() =~= s@.subrange(p as int, k as int));
            }
            val = val * 10 + d;
            k = k + 1;
        }
        *pos = end;
        Some(Tok::Number(val))
    } else if (65 <= b && b <= 90) || (97 <= b && b <= 122) || b == 95 {
        let mut end: usize = p + 1;
        while end < s.len() && is_ident_cont_byte(s[end])
            invariant
                p + 1 <= end <= s@.len(),
                spec_scan_ident(s@, p + 1 as int) == spec_scan_ident(s@, end as int),
            decreases s@.len() - end,
        {
            end = end + 1;
        }
        assert(spec_scan_ident(s@, end as int) == end);
        let content = sub_vec(s, p, end);
        *pos = end;
        Some(Tok::Ident(content))
    } else if b == 39 {
        let mut end: usize = p + 1;
        while end < s.len() && s[end] != 39
            invariant
                p + 1 <= end <= s@.len(),
                spec_scan_quote(s@, p + 1 as int) == spec_scan_quote(s@, end as int),
            decreases s@.len() - end,
        {
            end = end + 1;
        }
        assert(spec_scan_quote(s@, end as int) == end);
        if end >= s.len() {
            *pos = end;
            None
        } else {
            let content = sub_vec(s, p + 1, end);
            *pos = end + 1;
            Some(Tok::StrLit(content))
        }
    } else {
        *pos = p + 1;
        None
    }
}

/// Reads the token at `pos` without consuming it.
pub(crate) fn tok_peek(s: &[u8], pos: usize) -> (r: Option<Tok>)
    requires
        pos <= s@.len(),
    ensures
        match r {
            Some(t) => spec_next_token(s@, pos as int) matches Some(st) && st.0 == t@,
            None => spec_next_token(s@, pos as int) is None,
        },
{
    let mut p = pos;
    tok_next(s, &mut p)
}

/// Whether `b` is ASCII whitespace, as `is_ws` describes.
fn is_ws_byte(b: u8) -> (r: bool)
    ensures
        r == is_ws(b),
{
    b == 32 || (9 <= b && b <= 13)
}

/// Whether `b` can continue an identifier, as `is_ident_cont` describes.
fn is_ident_cont_byte(b: u8) -> (r: bool)
    ensures
        r == is_ident_cont(b),
{
    (65 <= b && b <= 90) || (97 <= b && b <= 122) || (48 <= b && b <= 57) || b == 95 || b == 45
}

} // verus!
