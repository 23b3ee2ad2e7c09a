//! The recursive-descent command parser with single-argument calls: turns
//! `scope::function(args)` text into a call tree whose calls carry at
//! most one argument, as the schema resolver consumes them; text after
//! the command is ignored, as the binding files allow. Parenthesized
//! pairs of two numbers or two strings collapse to tuples; an identifier
//! directly followed by `(` becomes a nested call; any structural
//! mismatch fails the whole parse with no partial result. The `lexer`
//! module holds the companion parser that keeps every argument.

use vstd::prelude::*;

use crate::bytes::{bytes_text, text_of};
use crate::token::{lemma_next_token_advances, spec_next_token, tok_next, tok_peek, SpecTok, Tok};
use vstd::string::StringSliceAdditionalSpecFns;

verus! {

/// One parsed argument expression, at the specification level; text is
/// carried as character sequences.
pub enum SpecFuncExpr {
    Number(i64),
    String(Seq<char>),
    TupleString(Seq<char>, Seq<char>),
    Ident(Seq<char>),
    Call { name: Seq<char>, args: Option<Box<SpecFuncExpr>> },
    Tuple(i64, i64),
}

/// A parsed command, at the specification level.
pub enum SpecFunc {
    Func { entry: Seq<char>, func: Seq<char>, args: Option<SpecFuncExpr> },
}

/// One parsed argument expression of a command.
#[derive(Debug, PartialEq)]
pub enum FuncExpr {
    Number(i64),
    String(String),
    TupleString(String, String),
    Ident(String),
    Call { name: String, args: Option<Box<FuncExpr>> },
    Tuple(i64, i64),
}

impl View for FuncExpr {
    type V = SpecFuncExpr;

    open spec fn view(&self) -> SpecFuncExpr
        decreases self,
    {
        match self {
            FuncExpr::Number(n) => SpecFuncExpr::Number(*n),
            FuncExpr::String(s) => SpecFuncExpr::String(s@),
            FuncExpr::TupleString(a, b) => SpecFuncExpr::TupleString(a@, b@),
            FuncExpr::Ident(s) => SpecFuncExpr::Ident(s@),
            FuncExpr::Call { name, args } => SpecFuncExpr::Call {
                name: name@,
                args: match args {
                    Some(b) => Some(Box::new((**b)@)),
                    None => None,
                },
            },
            FuncExpr::Tuple(a, b) => SpecFuncExpr::Tuple(*a, *b),
        }
    }
}

/// A parsed command: its scope, its function name, and at most one
/// argument expression.
#[derive(Debug, PartialEq)]
pub struct Func {
    pub entry: String,
    pub func: String,
    pub args: Option<FuncExpr>,
}

impl View for Func {
    type V = SpecFunc;

    open spec fn view(&self) -> SpecFunc {
        SpecFunc::Func {
            entry: self.entry@,
            func: self.func@,
            args: match &self.args {
                Some(e) => Some(e@),
                None => None,
            },
        }
    }
}

/// Two parsed items of the same primitive kind collapse to a tuple; any
/// other arity or mix is a parse failure.
pub open spec fn spec_collapse_tuple(items: Seq<SpecFuncExpr>) -> Option<SpecFuncExpr> {
    if items.len() == 2 {
        match (items[0], items[1]) {
            (SpecFuncExpr::Number(a), SpecFuncExpr::Number(b)) => Some(SpecFuncExpr::Tuple(a, b)),
            (SpecFuncExpr::String(a), SpecFuncExpr::String(b)) => Some(
                SpecFuncExpr::TupleString(a, b),
            ),
            _ => None,
        }
    } else {
        None
    }
}

/// One argument expression starting at `pos`: a number, a string, an
/// identifier (a nested call where `(` follows), or a parenthesized
/// tuple. The fuel only bounds recursion; `spec_fuel` is always enough.
pub open spec fn spec_parse_expr(s: Seq<u8>, pos: int, fuel: nat) -> Option<(SpecFuncExpr, int)>
    decreases fuel, 0int,
{
    if fuel == 0 {
        None
    } else {
        match spec_next_token(s, pos) {
            None => None,
            Some((t, p1)) => match t {
                SpecTok::Number(n) => Some((SpecFuncExpr::Number(n), p1)),
                SpecTok::StrLit(c) => Some((SpecFuncExpr::String(text_of(c)), p1)),
                SpecTok::Ident(name) => match spec_next_token(s, p1) {
                    Some((SpecTok::LParen, p2)) => match spec_parse_list(s, p2, (fuel - 1) as nat) {
                        None => None,
                        Some((args, p3)) => Some(
                            (
                                SpecFuncExpr::Call {
                                    name: text_of(name),
                                    args: match args {
                                        Some(a) => Some(Box::new(a)),
                                        None => None,
                                    },
                                },
                                p3,
                            ),
                        ),
                    },
                    _ => Some((SpecFuncExpr::Ident(text_of(name)), p1)),
                },
                SpecTok::LParen => match spec_tuple_items(
                    s,
                    p1,
                    Seq::<SpecFuncExpr>::empty(),
                    (fuel - 1) as nat,
                ) {
                    None => None,
                    Some((items, p2)) => match spec_collapse_tuple(items) {
                        Some(e) => Some((e, p2)),
                        None => None,
                    },
                },
                _ => None,
            },
        }
    }
}

/// The comma-separated items of a parenthesized tuple, up to and past the
/// closing parenthesis.
pub open spec fn spec_tuple_items(s: Seq<u8>, pos: int, acc: Seq<SpecFuncExpr>, fuel: nat) -> Option<
    (Seq<SpecFuncExpr>, int),
>
    decreases fuel, 1int,
{
    match spec_parse_expr(s, pos, fuel) {
        None => None,
        Some((e, p1)) => match spec_next_token(s, p1) {
            Some((SpecTok::Comma, p2)) => if fuel == 0 {
                None
            } else {
                spec_tuple_items(s, p2, acc.push(e), (fuel - 1) as nat)
            },
            Some((SpecTok::RParen, p2)) => Some((acc.push(e), p2)),
            _ => None,
        },
    }
}

/// An argument list up to and past its closing parenthesis: `None` args
/// for an empty list, else the last item (the call tree holds at most one
/// argument, so a later item replaces an earlier one).
pub open spec fn spec_parse_list(s: Seq<u8>, pos: int, fuel: nat) -> Option<
    (Option<SpecFuncExpr>, int),
>
    decreases fuel, 2int,
{
    match spec_next_token(s, pos) {
        Some((SpecTok::RParen, p1)) => Some((None, p1)),
        _ => match spec_list_items(s, pos, fuel) {
            None => None,
            Some((e, p1)) => Some((Some(e), p1)),
        },
    }
}

/// The comma-separated items of an argument list, keeping the last.
pub open spec fn spec_list_items(s: Seq<u8>, pos: int, fuel: nat) -> Option<(SpecFuncExpr, int)>
    decreases fuel, 1int,
{
    match spec_parse_expr(s, pos, fuel) {
        None => None,
        Some((e, p1)) => match spec_next_token(s, p1) {
            Some((SpecTok::Comma, p2)) => if fuel == 0 {
                None
            } else {
                spec_list_items(s, p2, (fuel - 1) as nat)
            },
            Some((SpecTok::RParen, p2)) => Some((e, p2)),
            _ => None,
        },
    }
}

/// Fuel that is always enough to parse from `pos`: recursion consumes
/// fuel only when the position strictly advances.
pub open spec fn spec_fuel(s: Seq<u8>, pos: int) -> nat {
    if pos <= s.len() {
        (s.len() - pos + 1) as nat
    } else {
        1nat
    }
}

/// What parsing a whole command gives on the UTF-8 bytes of the input:
/// `scope::function`, then an optional parenthesized argument list.
pub open spec fn spec_parse_func(s: Seq<u8>) -> Option<SpecFunc> {
    match spec_next_token(s, 0) {
        Some((SpecTok::Ident(entry), p1)) => match spec_next_token(s, p1) {
            Some((SpecTok::DoubleColon, p2)) => match spec_next_token(s, p2) {
                Some((SpecTok::Ident(func), p3)) => match spec_next_token(s, p3) {
                    Some((SpecTok::LParen, p4)) => match spec_parse_list(s, p4, spec_fuel(s, p4)) {
                        None => None,
                        Some((args, _)) => Some(
                            SpecFunc::Func {
                                entry: text_of(entry),
                                func: text_of(func),
                                args,
                            },
                        ),
                    },
                    _ => Some(
                        SpecFunc::Func { entry: text_of(entry), func: text_of(func), args: None },
                    ),
                },
                _ => None,
            },
            _ => None,
        },
        _ => None,
    }
}

/// Results do not depend on the fuel, as long as both fuels cover the
/// remaining input.
pub proof fn lemma_expr_fuel_irrelevant(s: Seq<u8>, pos: int, f1: nat, f2: nat)
    requires
        0 <= pos <= s.len(),
        f1 >= s.len() - pos + 1,
        f2 >= s.len() - pos + 1,
    ensures
        spec_parse_expr(s, pos, f1) == spec_parse_expr(s, pos, f2),
        spec_list_items(s, pos, f1) == spec_list_items(s, pos, f2),
        spec_parse_list(s, pos, f1) == spec_parse_list(s, pos, f2),
        forall|acc: Seq<SpecFuncExpr>| #[trigger] spec_tuple_items(s, pos, acc, f1)
            == spec_tuple_items(s, pos, acc, f2),
    decreases f1 + f2,
{
    // spec_parse_expr
    match spec_next_token(s, pos) {
        None => {},
        Some((t, p1)) => {
            lemma_next_token_advances(s, pos);
            match t {
                SpecTok::Ident(name) => {
                    match spec_next_token(s, p1) {
                        Some((SpecTok::LParen, p2)) => {
                            lemma_next_token_advances(s, p1);
                            lemma_expr_fuel_irrelevant(
                                s,
                                p2,
                                (f1 - 1) as nat,
                                (f2 - 1) as nat,
                            );
                        },
                        _ => {},
                    }
                },
                SpecTok::LParen => {
                    lemma_expr_fuel_irrelevant(s, p1, (f1 - 1) as nat, (f2 - 1) as nat);
                    assert(spec_tuple_items(s, p1, Seq::<SpecFuncExpr>::empty(), (f1 - 1) as nat)
                        == spec_tuple_items(s, p1, Seq::<SpecFuncExpr>::empty(), (f2 - 1) as nat));
                },
                _ => {},
            }
        },
    }
    assert(spec_parse_expr(s, pos, f1) == spec_parse_expr(s, pos, f2));
    // spec_list_items and spec_tuple_items step over one expression
    match spec_parse_expr(s, pos, f1) {
        None => {},
        Some((e0, p1)) => {
            lemma_expr_advances(s, pos, f1);
            match spec_next_token(s, p1) {
                Some((SpecTok::Comma, p2)) => {
                    lemma_next_token_advances(s, p1);
                    lemma_expr_fuel_irrelevant(s, p2, (f1 - 1) as nat, (f2 - 1) as nat);
                    assert(spec_list_items(s, p2, (f1 - 1) as nat) == spec_list_items(
                        s,
                        p2,
                        (f2 - 1) as nat,
                    ));
                    assert forall|acc: Seq<SpecFuncExpr>| #[trigger] spec_tuple_items(
                        s,
                        pos,
                        acc,
                        f1,
                    ) == spec_tuple_items(s, pos, acc, f2) by {
                        assert(spec_tuple_items(s, p2, acc.push(e0), (f1 - 1) as nat)
                            == spec_tuple_items(s, p2, acc.push(e0), (f2 - 1) as nat));
                    }
                },
                _ => {},
            }
        },
    }
}

/// A successfully parsed expression always advances the position and
/// stays inside the input; so do list and tuple parses.
pub proof fn lemma_expr_advances(s: Seq<u8>, pos: int, fuel: nat)
    requires
        0 <= pos <= s.len(),
    ensures
        spec_parse_expr(s, pos, fuel) matches Some((e, p)) ==> pos < p <= s.len(),
        spec_list_items(s, pos, fuel) matches Some((e, p)) ==> pos < p <= s.len(),
        spec_parse_list(s, pos, fuel) matches Some((a, p)) ==> pos < p <= s.len(),
        forall|acc: Seq<SpecFuncExpr>|
            #[trigger] spec_tuple_items(s, pos, acc, fuel) matches Some((a, p)) ==> pos < p
                <= s.len(),
    decreases fuel, 3int,
{
    match spec_next_token(s, pos) {
        None => {
            assert(spec_parse_expr(s, pos, fuel) is None);
        },
        Some((t, p1)) => {
            lemma_next_token_advances(s, pos);
            match t {
                SpecTok::Ident(name) => {
                    match spec_next_token(s, p1) {
                        Some((SpecTok::LParen, p2)) => {
                            lemma_next_token_advances(s, p1);
                            if fuel > 0 {
                                lemma_expr_advances(s, p2, (fuel - 1) as nat);
                            }
                            assert(spec_parse_expr(s, pos, fuel) matches Some((e, p)) ==> pos < p
                                <= s.len());
                        },
                        _ => {
                            assert(spec_parse_expr(s, pos, fuel) matches Some((e, p)) ==> pos < p
                                <= s.len());
                        },
                    }
                },
                SpecTok::LParen => {
                    if fuel > 0 {
                        lemma_expr_advances(s, p1, (fuel - 1) as nat);
                        assert(spec_tuple_items(
                            s,
                            p1,
                            Seq::<SpecFuncExpr>::empty(),
                            (fuel - 1) as nat,
                        ) matches Some((a, p)) ==> p1 < p <= s.len());
                    }
                    assert(spec_parse_expr(s, pos, fuel) matches Some((e, p)) ==> pos < p
                        <= s.len());
                },
                SpecTok::Number(n) => {
                    assert(fuel > 0 ==> spec_parse_expr(s, pos, fuel) == Some(
                        (SpecFuncExpr::Number(n), p1),
                    ));
                    assert(spec_parse_expr(s, pos, fuel) matches Some((e, p)) ==> pos < p
                        <= s.len());
                },
                _ => {
                    assert(spec_parse_expr(s, pos, fuel) matches Some((e, p)) ==> pos < p
                        <= s.len());
                },
            }
        },
    }
    assert(spec_parse_expr(s, pos, fuel) matches Some((e, p)) ==> pos < p <= s.len());
    match spec_parse_expr(s, pos, fuel) {
        None => {},
        Some((e0, p1)) => {
            match spec_next_token(s, p1) {
                Some((SpecTok::Comma, p2)) => {
                    lemma_next_token_advances(s, p1);
                    if fuel > 0 {
                        lemma_expr_advances(s, p2, (fuel - 1) as nat);
                        assert(spec_list_items(s, p2, (fuel - 1) as nat) matches Some((e, p))
                            ==> p2 < p <= s.len());
                    }
                    assert forall|acc: Seq<SpecFuncExpr>| (#[trigger] spec_tuple_items(
                        s,
                        pos,
                        acc,
                        fuel,
                    ) matches Some((a, p)) ==> pos < p <= s.len()) by {
                        if fuel > 0 {
                            assert(spec_tuple_items(s, p2, acc.push(e0), (fuel - 1) as nat)
                                matches Some((a, p)) ==> p2 < p <= s.len());
                        }
                    }
                },
                Some((SpecTok::RParen, p2)) => {
                    lemma_next_token_advances(s, p1);
                },
                _ => {},
            }
        },
    }
}

/// The lexer and parser for the single-argument command grammar, holding
/// the input bytes and the scan position.
#[derive(Debug, Clone)]
pub struct FuncLexer {
    input: Vec<u8>,
    pos: usize,
}

impl FuncLexer {
    /// The bytes this lexer scans.
    pub closed spec fn bytes(self) -> Seq<u8> {
        self.input@
    }

    /// The current scan position.
    pub closed spec fn at(self) -> int {
        self.pos as int
    }

    /// The position never leaves the input.
    pub closed spec fn wf(self) -> bool {
        self.pos <= self.input@.len()
    }

    pub fn new(input: &str) -> (l: FuncLexer)
        ensures
            l.wf(),
            l.bytes() == input.spec_bytes(),
            l.at() == 0,
    {
        FuncLexer { input: input.as_bytes_vec(), pos: 0 }
    }

    fn next_token(&mut self) -> (r: Option<Tok>)
        requires
            old(self).wf(),
        ensures
            final(self).wf(),
            final(self).bytes() == old(self).bytes(),
            match r {
                Some(t) => spec_next_token(old(self).bytes(), old(self).at()) == Some(
                    (t@, final(self).at()),
                ) && old(self).at() < final(self).at(),
                None => spec_next_token(old(self).bytes(), old(self).at()) is None,
            },
    {
        let mut p = self.pos;
        let r = tok_next(self.input.as_slice(), &mut p);
        self.pos = p;
        r
    }

    fn peek_token(&self) -> (r: Option<Tok>)
        requires
            self.wf(),
        ensures
            match r {
                Some(t) => spec_next_token(self.bytes(), self.at()) matches Some(st) && st.0 == t@,
                None => spec_next_token(self.bytes(), self.at()) is None,
            },
    {
        tok_peek(self.input.as_slice(), self.pos)
    }

    /// Parses one argument expression, as `spec_parse_expr` describes with
    /// enough fuel.
    fn parse_expr(&mut self) -> (r: Option<FuncExpr>)
        requires
            old(self).wf(),
        ensures
            final(self).wf(),
            final(self).bytes() == old(self).bytes(),
            match r {
                Some(e) => spec_parse_expr(
                    old(self).bytes(),
                    old(self).at(),
                    spec_fuel(old(self).bytes(), old(self).at()),
                ) == Some((e@, final(self).at())),
                None => spec_parse_expr(
                    old(self).bytes(),
                    old(self).at(),
                    spec_fuel(old(self).bytes(), old(self).at()),
                ) is None,
            },
        decreases old(self).bytes().len() - old(self).at(), 0int,
    {
        let ghost s = self.bytes();
        let ghost pos0 = self.at();
        let ghost fuel0 = spec_fuel(s, pos0);
        let t = match self.next_token() {
            None => {
                return None;
            },
            Some(t) => t,
        };
        match t {
            Tok::Number(n) => Some(FuncExpr::Number(n)),
            Tok::StrLit(c) => Some(FuncExpr::String(bytes_text(c))),
            Tok::Ident(name) => {
                let is_call = match self.peek_token() {
                    Some(Tok::LParen) => true,
                    _ => false,
                };
                if is_call {
                    let ghost p1 = self.at();
                    self.next_token();
                    proof {
                        lemma_expr_fuel_irrelevant(
                            s,
                            self.at(),
                            (fuel0 - 1) as nat,
                            spec_fuel(s, self.at()),
                        );
                        assert(spec_parse_list(s, self.at(), (fuel0 - 1) as nat)
                            == spec_parse_list(s, self.at(), spec_fuel(s, self.at())));
                    }
                    match self.parse_list() {
                        None => None,
                        Some(args) => Some(
                            FuncExpr::Call {
                                name: bytes_text(name),
                                args: match args {
                                    Some(a) => Some(Box::new(a)),
                                    None => None,
                                },
                            },
                        ),
                    }
                } else {
                    Some(FuncExpr::Ident(bytes_text(name)))
                }
            },
            Tok::LParen => {
                proof {
                    lemma_expr_fuel_irrelevant(
                        s,
                        self.at(),
                        (fuel0 - 1) as nat,
                        spec_fuel(s, self.at()),
                    );
                    assert(spec_tuple_items(
                        s,
                        self.at(),
                        Seq::<SpecFuncExpr>::empty(),
                        (fuel0 - 1) as nat,
                    ) == spec_tuple_items(
                        s,
                        self.at(),
                        Seq::<SpecFuncExpr>::empty(),
                        spec_fuel(s, self.at()),
                    ));
                }
                match self.tuple_items() {
                    None => None,
                    Some(items) => {
                        if items.len() == 2 {
                            let collapsed = match (&items[0], &items[1]) {
                                (FuncExpr::Number(a), FuncExpr::Number(b)) => Some(
                                    FuncExpr::Tuple(*a, *b),
                                ),
                                (FuncExpr::String(a), FuncExpr::String(b)) => Some(
                                    FuncExpr::TupleString(a.clone(), b.clone()),
                                ),
                                _ => None,
                            };
                            proof {
                                assert(items@.map_values(|e: FuncExpr| e@) =~= seq![
                                    items@[0]@,
                                    items@[1]@,
                                ]);
                            }
                            collapsed
                        } else {
                            None
                        }
                    },
                }
            },
            _ => None,
        }
    }

    /// Parses the items of a parenthesized tuple; the returned vector
    /// holds them in order.
    fn tuple_items(&mut self) -> (r: Option<Vec<FuncExpr>>)
        requires
            old(self).wf(),
        ensures
            final(self).wf(),
            final(self).bytes() == old(self).bytes(),
            match r {
                Some(items) => spec_tuple_items(
                    old(self).bytes(),
                    old(self).at(),
                    Seq::<SpecFuncExpr>::empty(),
                    spec_fuel(old(self).bytes(), old(self).at()),
                ) == Some((items@.map_values(|e: FuncExpr| e@), final(self).at())),
                None => spec_tuple_items(
                    old(self).bytes(),
                    old(self).at(),
                    Seq::<SpecFuncExpr>::empty(),
                    spec_fuel(old(self).bytes(), old(self).at()),
                ) is None,
            },
        decreases old(self).bytes().len() - old(self).at(), 1int,
    {
        let ghost s = self.bytes();
        let mut items: Vec<FuncExpr> = Vec::new();
        proof {
            assert(items@.map_values(|e: FuncExpr| e@) =~= Seq::<SpecFuncExpr>::empty());
        }
        loop
            invariant
                self.wf(),
                self.bytes() == s,
                s == old(self).bytes(),
                self.at() >= old(self).at(),
                spec_tuple_items(
                    old(self).bytes(),
                    old(self).at(),
                    Seq::<SpecFuncExpr>::empty(),
                    spec_fuel(old(self).bytes(), old(self).at()),
                ) == spec_tuple_items(
                    s,
                    self.at(),
                    items@.map_values(|e: FuncExpr| e@),
                    spec_fuel(s, self.at()),
                ),
            decreases s.len() - self.at(),
        {
            let ghost pos_i = self.at();
            let ghost fuel_i = spec_fuel(s, pos_i);
            let ghost acc_i = items@.map_values(|e: FuncExpr| e@);
            let e = match self.parse_expr() {
                None => {
                    return None;
                },
                Some(e) => e,
            };
            proof {
                lemma_expr_advances(s, pos_i, fuel_i);
            }
            match self.next_token() {
                Some(Tok::Comma) => {
                    let ghost p2 = self.at();
                    items.push(e);
                    proof {
                        assert(items@.map_values(|x: FuncExpr| x@) =~= acc_i.push(e@));
                        lemma_expr_fuel_irrelevant(s, p2, (fuel_i - 1) as nat, spec_fuel(s, p2));
                        assert(spec_tuple_items(s, pos_i, acc_i, fuel_i) == spec_tuple_items(
                            s,
                            p2,
                            acc_i.push(e@),
                            (fuel_i - 1) as nat,
                        ));
                        assert(spec_tuple_items(s, p2, acc_i.push(e@), (fuel_i - 1) as nat)
                            == spec_tuple_items(s, p2, acc_i.push(e@), spec_fuel(s, p2)));
                    }
                },
                Some(Tok::RParen) => {
                    items.push(e);
                    proof {
                        assert(items@.map_values(|x: FuncExpr| x@) =~= acc_i.push(e@));
                    }
                    return Some(items);
                },
                _ => {
                    return None;
                },
            }
        }
    }

    /// Parses an argument list up to its closing parenthesis, as
    /// `spec_parse_list` describes.
    fn parse_list(&mut self) -> (r: Option<Option<FuncExpr>>)
        requires
            old(self).wf(),
        ensures
            final(self).wf(),
            final(self).bytes() == old(self).bytes(),
            match r {
                Some(args) => spec_parse_list(
                    old(self).bytes(),
                    old(self).at(),
                    spec_fuel(old(self).bytes(), old(self).at()),
                ) == Some(
                    (
                        match &args {
                            Some(e) => Some(e@),
                            None => None,
                        },
                        final(self).at(),
                    ),
                ),
                None => spec_parse_list(
                    old(self).bytes(),
                    old(self).at(),
                    spec_fuel(old(self).bytes(), old(self).at()),
                ) is None,
            },
        decreases old(self).bytes().len() - old(self).at(), 2int,
    {
        let ghost s = self.bytes();
        let is_empty = match self.peek_token() {
            Some(Tok::RParen) => true,
            _ => false,
        };
        if is_empty {
            self.next_token();
            return Some(None);
        }
        match self.list_items() {
            None => None,
            Some(e) => Some(Some(e)),
        }
    }

    /// Parses the comma-separated items of an argument list, returning the
    /// last one, as `spec_list_items` describes.
    fn list_items(&mut self) -> (r: Option<FuncExpr>)
        requires
            old(self).wf(),
        ensures
            final(self).wf(),
            final(self).bytes() == old(self).bytes(),
            match r {
                Some(e) => spec_list_items(
                    old(self).bytes(),
                    old(self).at(),
                    spec_fuel(old(self).bytes(), old(self).at()),
                ) == Some((e@, final(self).at())),
                None => spec_list_items(
                    old(self).bytes(),
                    old(self).at(),
                    spec_fuel(old(self).bytes(), old(self).at()),
                ) is None,
            },
        decreases old(self).bytes().len() - old(self).at(), 1int,
    {
        let ghost s = self.bytes();
        loop
            invariant
                self.wf(),
                self.bytes() == s,
                s == old(self).bytes(),
                self.at() >= old(self).at(),
                spec_list_items(
                    old(self).bytes(),
                    old(self).at(),
                    spec_fuel(old(self).bytes(), old(self).at()),
                ) == spec_list_items(s, self.at(), spec_fuel(s, self.at())),
            decreases s.len() - self.at(),
        {
            let ghost pos_i = self.at();
            let ghost fuel_i = spec_fuel(s, pos_i);
            let e = match self.parse_expr() {
                None => {
                    return None;
                },
                Some(e) => e,
            };
            proof {
                lemma_expr_advances(s, pos_i, fuel_i);
            }
            match self.next_token() {
                Some(Tok::Comma) => {
                    let ghost p2 = self.at();
                    proof {
                        lemma_expr_fuel_irrelevant(s, p2, (fuel_i - 1) as nat, spec_fuel(s, p2));
                    }
                },
                Some(Tok::RParen) => {
                    return Some(e);
                },
                _ => {
                    return None;
                },
            }
        }
    }

    /// Parses a whole `scope::function(args)` command, exactly as
    /// `spec_parse_func` describes on the input's UTF-8 bytes.
    pub fn parse_func(input: &str) -> (r: Option<Func>)
        ensures
            match r {
                Some(f) => spec_parse_func(input.spec_bytes()) == Some(f@),
                None => spec_parse_func(input.spec_bytes()) is None,
            },
    {
        let mut lexer = FuncLexer::new(input);
        let ghost s = lexer.bytes();
        let entry = match lexer.next_token() {
            Some(Tok::Ident(e)) => e,
            _ => {
                return None;
            },
        };
        match lexer.next_token() {
            Some(Tok::DoubleColon) => {},
            _ => {
                return None;
            },
        }
        let func = match lexer.next_token() {
            Some(Tok::Ident(f)) => f,
            _ => {
                return None;
            },
        };
        let has_args = match lexer.peek_token() {
            Some(Tok::LParen) => true,
            _ => false,
        };
        let args = if has_args {
            lexer.next_token();
            match lexer.parse_list() {
                None => {
                    return None;
                },
                Some(a) => a,
            }
        } else {
            None
        };
        Some(Func { entry: bytes_text(entry), func: bytes_text(func), args })
    }
}

/// Idempotence law: parsing is a function of the input text alone, so
/// parsing the same command string twice yields structurally equal call
/// trees — both results equal `spec_parse_func` of the input's bytes,
/// whether the parse succeeds or fails.
pub proof fn lemma_parse_deterministic(a: &str, b: &str)
    requires
        a@ == b@,
    ensures
        spec_parse_func(a.spec_bytes()) == spec_parse_func(b.spec_bytes()),
{
}

} // verus!
