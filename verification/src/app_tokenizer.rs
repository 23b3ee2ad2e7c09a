//! The application-list tokenizer: an entry such as `"T:GOOGLE"` splits
//! at its first colon into a left-hand tag and a right-hand payload; an
//! entry without a colon is all left-hand side. The lexer hands out the
//! two halves as successive tokens.

use vstd::prelude::*;

use crate::bytes::{bytes_text, sub_vec, text_of};
use crate::keeparser::{lemma_find_byte_bounds, spec_find_byte};
use vstd::string::StringSliceAdditionalSpecFns;

verus! {

/// One token of an application entry: the part before the first colon,
/// or the part after it.
#[derive(Debug, PartialEq, Eq)]
pub enum Token {
    Lhs(String),
    Rhs(String),
}

/// A token at the specification level.
pub enum SpecToken {
    Lhs(Seq<char>),
    Rhs(Seq<char>),
}

impl View for Token {
    type V = SpecToken;

    open spec fn view(&self) -> SpecToken {
        match self {
            Token::Lhs(s) => SpecToken::Lhs(s@),
            Token::Rhs(s) => SpecToken::Rhs(s@),
        }
    }
}

/// The tokens an entry yields, in order: with a colon, its left- and
/// right-hand sides; without one, the whole entry as a left-hand side.
pub open spec fn spec_app_tokens(s: Seq<u8>) -> Seq<SpecToken> {
    match spec_find_byte(s, 58, 0) {
        Some(p) => seq![
            SpecToken::Lhs(text_of(s.subrange(0, p))),
            SpecToken::Rhs(text_of(s.subrange(p + 1, s.len() as int))),
        ],
        None => seq![SpecToken::Lhs(text_of(s))],
    }
}

/// The tokenizer over one application entry; it yields the entry's
/// tokens one by one and then stops.
#[derive(Debug)]
pub struct Lexer {
    input: Vec<u8>,
    yielded: usize,
}

impl Lexer {
    /// The bytes of the entry.
    pub closed spec fn bytes(self) -> Seq<u8> {
        self.input@
    }

    /// How many tokens have been handed out.
    pub closed spec fn at(self) -> int {
        self.yielded as int
    }

    pub fn new(input: &str) -> (l: Lexer)
        ensures
            l.bytes() == input.spec_bytes(),
            l.at() == 0,
    {
        Lexer { input: input.as_bytes_vec(), yielded: 0 }
    }

    /// Hands out the next token of the entry, or nothing once all its
    /// tokens are out.
    pub fn next_token(&mut self) -> (r: Option<Token>)
        ensures
            final(self).bytes() == old(self).bytes(),
            final(self).at() == (if old(self).at() < 2 {
                old(self).at() + 1
            } else {
                old(self).at()
            }),
            match r {
                Some(t) => 0 <= old(self).at() < spec_app_tokens(old(self).bytes()).len() && t@
                    == spec_app_tokens(old(self).bytes())[old(self).at()],
                None => old(self).at() >= spec_app_tokens(old(self).bytes()).len(),
            },
    {
        let ghost s = self.bytes();
        proof {
            lemma_find_byte_bounds(s, 58, 0);
        }
        let n = self.input.len();
        let mut p: usize = 0;
        let mut found = false;
        while p < n && !found
            invariant
                n == s.len(),
                p <= s.len(),
                s == self.input@,
                found ==> p < s.len() && spec_find_byte(s, 58, 0) == Some(p as int),
                !found ==> spec_find_byte(s, 58, 0) == spec_find_byte(s, 58, p as int),
            decreases s.len() - p, (if found { 0int } else { 1int }),
        {
            if self.input[p] == 58 {
                found = true;
                assert(spec_find_byte(s, 58, p as int) == Some(p as int));
            } else {
                p = p + 1;
            }
        }
        let which = self.yielded;
        if self.yielded < 2 {
            self.yielded = self.yielded + 1;
        }
        if found {
            if which == 0 {
                Some(Token::Lhs(bytes_text(sub_vec(self.input.as_slice(), 0, p))))
            } else if which == 1 {
                Some(Token::Rhs(bytes_text(sub_vec(self.input.as_slice(), p + 1, n))))
            } else {
                None
            }
        } else {
            assert(spec_find_byte(s, 58, p as int) is None);
            if which == 0 {
                let whole = sub_vec(self.input.as_slice(), 0, n);
                proof {
                    assert(whole@ =~= s);
                }
                Some(Token::Lhs(bytes_text(whole)))
            } else {
                None
            }
        }
    }
}

} // verus!
