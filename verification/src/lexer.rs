//! The recursive-descent command parser that keeps every argument: turns
//! `scope::function(arg, arg, ...)` text into a call tree whose calls and
//! tuples hold all their items in order, and accepts nothing but
//! whitespace after the command. Any structural mismatch fails the whole
//! parse. The `func_lexer` module holds the companion parser the resolver
//! pipeline uses, whose call tree carries at most one argument.

use vstd::prelude::*;

use crate::bytes::{bytes_text, text_of};
use crate::token::{lemma_next_token_advances, spec_next_token, tok_next, tok_peek, SpecTok, Tok};
use vstd::string::StringSliceAdditionalSpecFns;

verus! {

broadcast use vstd::std_specs::vec::group_vec_axioms;

/// One parsed expression, at the specification level.
pub enum SpecExpr {
    Ident(Seq<char>),
    String(Seq<char>),
    Number(i64),
    Tuple(Seq<SpecExpr>),
    Call { name: Seq<char>, args: Seq<SpecExpr> },
}

/// One parsed expression: a bare identifier, a quoted string, a number, a
/// parenthesized tuple, or a nested call.
#[derive(Debug, PartialEq)]
pub enum Expr {
    Ident(String),
    String(String),
    Number(i64),
    Tuple(Vec<Expr>),
    Call { name: String, args: Vec<Expr> },
}

/// The characters an expression carries, item by item.
pub open spec fn view_expr(e: Expr) -> SpecExpr
    decreases e,
{
    match e {
        Expr::Ident(s) => SpecExpr::Ident(s@),
        Expr::String(s) => SpecExpr::String(s@),
        Expr::Number(n) => SpecExpr::Number(n),
        Expr::Tuple(v) => SpecExpr::Tuple(view_exprs(v@)),
        Expr::Call { name, args } => SpecExpr::Call { name: name@, args: view_exprs(args@) },
    }
}

/// The views of a run of expressions, in order.
pub open spec fn view_exprs(v: Seq<Expr>) -> Seq<SpecExpr>
    decreases v,
{
    if v.len() == 0 {
        Seq::<SpecExpr>::empty()
    } else {
        view_exprs(v.drop_last()).push(view_expr(v.last()))
    }
}

/// Pushing an expression extends the views by its view.
pub proof fn lemma_view_exprs_push(v: Seq<Expr>, e: Expr)
    ensures
        view_exprs(v.push(e)) == view_exprs(v).push(view_expr(e)),
{
    assert(v.push(e).drop_last() =~= v);
    assert(v.push(e).last() == e);
}

impl View for Expr {
    type V = SpecExpr;

    open spec fn view(&self) -> SpecExpr {
        view_expr(*self)
    }
}

/// A parsed command, at the specification level.
pub enum SpecFunc {
    Func { entry: Seq<char>, func: Seq<char>, args: Seq<SpecExpr> },
}

/// A parsed command: its scope, its function name, and all its arguments
/// in order.
#[derive(Debug, PartialEq)]
pub struct Func {
    pub entry: String,
    pub func: String,
    pub args: Vec<Expr>,
}

impl View for Func {
    type V = SpecFunc;

    open spec fn view(&self) -> SpecFunc {
        SpecFunc::Func { entry: self.entry@, func: self.func@, args: view_exprs(self.args@) }
    }
}

/// One expression starting at `pos`: a number, a string, an identifier (a
/// nested call where `(` follows), or a parenthesized tuple. The fuel
/// only bounds recursion; `spec_fuel` is always enough.
pub open spec fn spec_parse_value(s: Seq<u8>, pos: int, fuel: nat) -> Option<(SpecExpr, int)>
    decreases fuel, 0int,
{
    if fuel == 0 {
        None
    } else {
        match spec_next_token(s, pos) {
            None => None,
            Some((t, p1)) => match t {
                SpecTok::Number(n) => Some((SpecExpr::Number(n), p1)),
                SpecTok::StrLit(c) => Some((SpecExpr::String(text_of(c)), p1)),
                SpecTok::Ident(name) => match spec_next_token(s, p1) {
                    Some((SpecTok::LParen, p2)) => match spec_items(
                        s,
                        p2,
                        Seq::<SpecExpr>::empty(),
                        (fuel - 1) as nat,
                    ) {
                        None => None,
                        Some((args, p3)) => Some(
                            (SpecExpr::Call { name: text_of(name), args }, p3),
                        ),
                    },
                    _ => Some((SpecExpr::Ident(text_of(name)), p1)),
                },
                SpecTok::LParen => match spec_items(
                    s,
                    p1,
                    Seq::<SpecExpr>::empty(),
                    (fuel - 1) as nat,
                ) {
                    None => None,
                    Some((items, p2)) => Some((SpecExpr::Tuple(items), p2)),
                },
                _ => None,
            },
        }
    }
}

/// The comma-separated expressions up to and past a closing parenthesis,
/// in order after `acc`.
pub open spec fn spec_items(s: Seq<u8>, pos: int, acc: Seq<SpecExpr>, fuel: nat) -> Option<
    (Seq<SpecExpr>, int),
>
    decreases fuel, 1int,
{
    match spec_parse_value(s, pos, fuel) {
        None => None,
        Some((e, p1)) => match spec_next_token(s, p1) {
            Some((SpecTok::Comma, p2)) => if fuel == 0 {
                None
            } else {
                spec_items(s, p2, acc.push(e), (fuel - 1) as nat)
            },
            Some((SpecTok::RParen, p2)) => Some((acc.push(e), p2)),
            _ => None,
        },
    }
}

/// A nested argument list up to and past its closing parenthesis; it may
/// be empty.
pub open spec fn spec_arg_list(s: Seq<u8>, pos: int, fuel: nat) -> Option<(Seq<SpecExpr>, int)>
    decreases fuel, 2int,
{
    match spec_next_token(s, pos) {
        Some((SpecTok::RParen, p1)) => Some((Seq::<SpecExpr>::empty(), p1)),
        _ => spec_items(s, pos, Seq::<SpecExpr>::empty(), fuel),
    }
}

/// Whether only whitespace remains at or after `pos`.
pub open spec fn spec_at_end(s: Seq<u8>, pos: int) -> bool {
    crate::token::spec_skip_ws(s, pos) >= s.len()
}

/// Fuel that is always enough to parse from `pos`: recursion consumes
/// fuel only when the position strictly advances.
pub open spec fn spec_fuel(s: Seq<u8>, pos: int) -> nat {
    if pos <= s.len() {
        (s.len() - pos + 1) as nat
    } else {
        1nat
    }
}

/// What parsing a whole command gives on the UTF-8 bytes of the input:
/// `scope::function`, then an optional parenthesized argument list, which
/// may be empty, followed by nothing but whitespace. Any trailing text is
/// a parse failure.
pub open spec fn spec_parse_func(s: Seq<u8>) -> Option<SpecFunc> {
    match spec_next_token(s, 0) {
        Some((SpecTok::Ident(entry), p1)) => match spec_next_token(s, p1) {
            Some((SpecTok::DoubleColon, p2)) => match spec_next_token(s, p2) {
                Some((SpecTok::Ident(func), p3)) => if spec_at_end(s, p3) {
                    Some(
                        SpecFunc::Func {
                            entry: text_of(entry),
                            func: text_of(func),
                            args: Seq::<SpecExpr>::empty(),
                        },
                    )
                } else {
                    match spec_next_token(s, p3) {
                        Some((SpecTok::LParen, p4)) => match spec_arg_list(
                            s,
                            p4,
                            spec_fuel(s, p4),
                        ) {
                            None => None,
                            Some((args, p5)) => if spec_at_end(s, p5) {
                                Some(
                                    SpecFunc::Func {
                                        entry: text_of(entry),
                                        func: text_of(func),
                                        args,
                                    },
                                )
                            } else {
                                None
                            },
                        },
                        _ => None,
                    }
                },
                _ => None,
            },
            _ => None,
        },
        _ => None,
    }
}

/// A successfully parsed expression always advances the position and
/// stays inside the input; so does an item run.
pub proof fn lemma_value_advances(s: Seq<u8>, pos: int, fuel: nat)
    requires
        0 <= pos <= s.len(),
    ensures
        spec_parse_value(s, pos, fuel) matches Some((e, p)) ==> pos < p <= s.len(),
        forall|acc: Seq<SpecExpr>| #[trigger] spec_items(s, pos, acc, fuel) matches Some(
            (a, p),
        ) ==> pos < p <= s.len(),
        spec_arg_list(s, pos, fuel) matches Some((a, p)) ==> pos < p <= s.len(),
    decreases fuel, 1int,
{
    match spec_next_token(s, pos) {
        None => {},
        Some((t, p1)) => {
            lemma_next_token_advances(s, pos);
            match t {
                SpecTok::Ident(name) => {
                    match spec_next_token(s, p1) {
                        Some((SpecTok::LParen, p2)) => {
                            lemma_next_token_advances(s, p1);
                            if fuel > 0 {
                                lemma_value_advances(s, p2, (fuel - 1) as nat);
                                assert(spec_items(s, p2, Seq::<SpecExpr>::empty(), (fuel - 1) as nat)
                                    matches Some((a, p)) ==> p2 < p <= s.len());
                            }
                        },
                        _ => {},
                    }
                },
                SpecTok::LParen => {
                    if fuel > 0 {
                        lemma_value_advances(s, p1, (fuel - 1) as nat);
                        assert(spec_items(s, p1, Seq::<SpecExpr>::empty(), (fuel - 1) as nat)
                            matches Some((a, p)) ==> p1 < p <= s.len());
                    }
                },
                _ => {},
            }
        },
    }
    assert(spec_parse_value(s, pos, fuel) matches Some((e, p)) ==> pos < p <= s.len());
    assert forall|acc: Seq<SpecExpr>| (#[trigger] spec_items(s, pos, acc, fuel) matches Some(
        (a, p),
    ) ==> pos < p <= s.len()) by {
        match spec_parse_value(s, pos, fuel) {
            None => {},
            Some((e0, p1)) => {
                match spec_next_token(s, p1) {
                    Some((SpecTok::Comma, p2)) => {
                        lemma_next_token_advances(s, p1);
                        if fuel > 0 {
                            lemma_value_advances(s, p2, (fuel - 1) as nat);
                            assert(spec_items(s, p2, acc.push(e0), (fuel - 1) as nat) matches Some(
                                (a, p),
                            ) ==> p2 < p <= s.len());
                        }
                    },
                    Some((SpecTok::RParen, p2)) => {
                        lemma_next_token_advances(s, p1);
                    },
                    _ => {},
                }
            },
        }
    }
    assert(spec_arg_list(s, pos, fuel) matches Some((a, p)) ==> pos < p <= s.len()) by {
        assert(spec_items(s, pos, Seq::<SpecExpr>::empty(), fuel) matches Some((a, p)) ==> pos < p
            <= s.len());
    }
}

/// Results do not depend on the fuel, as long as both fuels cover the
/// remaining input.
pub proof fn lemma_value_fuel_irrelevant(s: Seq<u8>, pos: int, f1: nat, f2: nat)
    requires
        0 <= pos <= s.len(),
        f1 >= s.len() - pos + 1,
        f2 >= s.len() - pos + 1,
    ensures
        spec_parse_value(s, pos, f1) == spec_parse_value(s, pos, f2),
        forall|acc: Seq<SpecExpr>| #[trigger] spec_items(s, pos, acc, f1) == spec_items(
            s,
            pos,
            acc,
            f2,
        ),
        spec_arg_list(s, pos, f1) == spec_arg_list(s, pos, f2),
    decreases f1 + f2,
{
    match spec_next_token(s, pos) {
        None => {},
        Some((t, p1)) => {
            lemma_next_token_advances(s, pos);
            match t {
                SpecTok::Ident(name) => {
                    match spec_next_token(s, p1) {
                        Some((SpecTok::LParen, p2)) => {
                            lemma_next_token_advances(s, p1);
                            lemma_value_fuel_irrelevant(s, p2, (f1 - 1) as nat, (f2 - 1) as nat);
                            assert(spec_items(s, p2, Seq::<SpecExpr>::empty(), (f1 - 1) as nat)
                                == spec_items(s, p2, Seq::<SpecExpr>::empty(), (f2 - 1) as nat));
                        },
                        _ => {},
                    }
                },
                SpecTok::LParen => {
                    lemma_value_fuel_irrelevant(s, p1, (f1 - 1) as nat, (f2 - 1) as nat);
                    assert(spec_items(s, p1, Seq::<SpecExpr>::empty(), (f1 - 1) as nat)
                        == spec_items(s, p1, Seq::<SpecExpr>::empty(), (f2 - 1) as nat));
                },
                _ => {},
            }
        },
    }
    assert(spec_parse_value(s, pos, f1) == spec_parse_value(s, pos, f2));
    assert forall|acc: Seq<SpecExpr>| #[trigger] spec_items(s, pos, acc, f1) == spec_items(
        s,
        pos,
        acc,
        f2,
    ) by {
        match spec_parse_value(s, pos, f1) {
            None => {},
            Some((e0, p1)) => {
                lemma_value_advances(s, pos, f1);
                match spec_next_token(s, p1) {
                    Some((SpecTok::Comma, p2)) => {
                        lemma_next_token_advances(s, p1);
                        lemma_value_fuel_irrelevant(s, p2, (f1 - 1) as nat, (f2 - 1) as nat);
                        assert(spec_items(s, p2, acc.push(e0), (f1 - 1) as nat) == spec_items(
                            s,
                            p2,
                            acc.push(e0),
                            (f2 - 1) as nat,
                        ));
                    },
                    _ => {},
                }
            },
        }
    }
    assert(spec_arg_list(s, pos, f1) == spec_arg_list(s, pos, f2)) by {
        assert(spec_items(s, pos, Seq::<SpecExpr>::empty(), f1) == spec_items(
            s,
            pos,
            Seq::<SpecExpr>::empty(),
            f2,
        ));
    }
}

/// Parses one expression, as `spec_parse_value` describes with enough
/// fuel.
fn parse_value(s: &[u8], pos: &mut usize) -> (r: Option<Expr>)
    requires
        *old(pos) <= s@.len(),
    ensures
        *final(pos) <= s@.len(),
        match r {
            Some(e) => spec_parse_value(s@, *old(pos) as int, spec_fuel(s@, *old(pos) as int))
                == Some((e@, *final(pos) as int)),
            None => spec_parse_value(s@, *old(pos) as int, spec_fuel(s@, *old(pos) as int))
                is None,
        },
    decreases s@.len() - *old(pos), 0int,
{
    let ghost pos0 = *pos as int;
    let ghost fuel0 = spec_fuel(s@, pos0);
    let t = match tok_next(s, pos) {
        None => {
            return None;
        },
        Some(t) => t,
    };
    match t {
        Tok::Number(n) => Some(Expr::Number(n)),
        Tok::StrLit(c) => Some(Expr::String(bytes_text(c))),
        Tok::Ident(name) => {
            let is_call = match tok_peek(s, *pos) {
                Some(Tok::LParen) => true,
                _ => false,
            };
            if is_call {
                tok_next(s, pos);
                proof {
                    lemma_value_fuel_irrelevant(
                        s@,
                        *pos as int,
                        (fuel0 - 1) as nat,
                        spec_fuel(s@, *pos as int),
                    );
                    assert(spec_items(s@, *pos as int, Seq::<SpecExpr>::empty(), (fuel0 - 1) as nat)
                        == spec_items(
                        s@,
                        *pos as int,
                        Seq::<SpecExpr>::empty(),
                        spec_fuel(s@, *pos as int),
                    ));
                }
                match parse_items(s, pos) {
                    None => None,
                    Some(args) => Some(Expr::Call { name: bytes_text(name), args }),
                }
            } else {
                Some(Expr::Ident(bytes_text(name)))
            }
        },
        Tok::LParen => {
            proof {
                lemma_value_fuel_irrelevant(
                    s@,
                    *pos as int,
                    (fuel0 - 1) as nat,
                    spec_fuel(s@, *pos as int),
                );
                assert(spec_items(s@, *pos as int, Seq::<SpecExpr>::empty(), (fuel0 - 1) as nat)
                    == spec_items(
                    s@,
                    *pos as int,
                    Seq::<SpecExpr>::empty(),
                    spec_fuel(s@, *pos as int),
                ));
            }
            match parse_items(s, pos) {
                None => None,
                Some(items) => Some(Expr::Tuple(items)),
            }
        },
        _ => None,
    }
}

/// Parses comma-separated expressions up to and past the closing
/// parenthesis, as `spec_items` describes.
fn parse_items(s: &[u8], pos: &mut usize) -> (r: Option<Vec<Expr>>)
    requires
        *old(pos) <= s@.len(),
    ensures
        *final(pos) <= s@.len(),
        match r {
            Some(items) => spec_items(
                s@,
                *old(pos) as int,
                Seq::<SpecExpr>::empty(),
                spec_fuel(s@, *old(pos) as int),
            ) == Some((view_exprs(items@), *final(pos) as int)),
            None => spec_items(
                s@,
                *old(pos) as int,
                Seq::<SpecExpr>::empty(),
                spec_fuel(s@, *old(pos) as int),
            ) is None,
        },
    decreases s@.len() - *old(pos), 1int,
{
    let ghost pos00 = *pos as int;
    let mut items: Vec<Expr> = Vec::new();
    proof {
        assert(view_exprs(items@) =~= Seq::<SpecExpr>::empty());
    }
    loop
        invariant
            *pos <= s@.len(),
            *pos >= pos00,
            pos00 == *old(pos) as int,
            pos00 <= s@.len(),
            spec_items(s@, pos00, Seq::<SpecExpr>::empty(), spec_fuel(s@, pos00)) == spec_items(
                s@,
                *pos as int,
                view_exprs(items@),
                spec_fuel(s@, *pos as int),
            ),
        decreases s@.len() - *pos,
    {
        let ghost pos_i = *pos as int;
        let ghost fuel_i = spec_fuel(s@, pos_i);
        let ghost acc_i = view_exprs(items@);
        let e = match parse_value(s, pos) {
            None => {
                return None;
            },
            Some(e) => e,
        };
        proof {
            lemma_value_advances(s@, pos_i, fuel_i);
        }
        match tok_next(s, pos) {
            Some(Tok::Comma) => {
                let ghost p2 = *pos as int;
                let ghost items_before = items@;
                items.push(e);
                proof {
                    lemma_view_exprs_push(items_before, e);
                    assert(view_exprs(items@) == acc_i.push(e@));
                    lemma_value_fuel_irrelevant(s@, p2, (fuel_i - 1) as nat, spec_fuel(s@, p2));
                    assert(spec_items(s@, pos_i, acc_i, fuel_i) == spec_items(
                        s@,
                        p2,
                        acc_i.push(e@),
                        (fuel_i - 1) as nat,
                    ));
                    assert(spec_items(s@, p2, acc_i.push(e@), (fuel_i - 1) as nat) == spec_items(
                        s@,
                        p2,
                        acc_i.push(e@),
                        spec_fuel(s@, p2),
                    ));
                }
            },
            Some(Tok::RParen) => {
                let ghost items_before = items@;
                items.push(e);
                proof {
                    lemma_view_exprs_push(items_before, e);
                    assert(view_exprs(items@) == acc_i.push(e@));
                }
                return Some(items);
            },
            _ => {
                return None;
            },
        }
    }
}

/// Whether only whitespace remains, as `spec_at_end` describes.
fn at_end(s: &[u8], pos: usize) -> (r: bool)
    requires
        pos <= s@.len(),
    ensures
        r == spec_at_end(s@, pos as int),
{
    let mut p: usize = pos;
    while p < s.len() && (s[p] == 32 || (9 <= s[p] && s[p] <= 13))
        invariant
            pos <= p <= s@.len(),
            crate::token::spec_skip_ws(s@, pos as int) == crate::token::spec_skip_ws(
                s@,
                p as int,
            ),
        decreases s@.len() - p,
    {
        p = p + 1;
    }
    assert(crate::token::spec_skip_ws(s@, p as int) == p);
    p >= s.len()
}

/// Parses the top-level argument list up to and past its closing
/// parenthesis, as `spec_arg_list` describes; it may be empty.
fn parse_arg_list(s: &[u8], pos: &mut usize) -> (r: Option<Vec<Expr>>)
    requires
        *old(pos) <= s@.len(),
    ensures
        *final(pos) <= s@.len(),
        match r {
            Some(items) => spec_arg_list(
                s@,
                *old(pos) as int,
                spec_fuel(s@, *old(pos) as int),
            ) == Some((view_exprs(items@), *final(pos) as int)),
            None => spec_arg_list(s@, *old(pos) as int, spec_fuel(s@, *old(pos) as int)) is None,
        },
    decreases s@.len() - *old(pos), 2int,
{
    let is_empty = match tok_peek(s, *pos) {
        Some(Tok::RParen) => true,
        _ => false,
    };
    if is_empty {
        tok_next(s, pos);
        let items: Vec<Expr> = Vec::new();
        proof {
            assert(view_exprs(items@) =~= Seq::<SpecExpr>::empty());
        }
        return Some(items);
    }
    parse_items(s, pos)
}

/// Parses a whole `scope::function(args)` command, exactly as
/// `spec_parse_func` describes on the input's UTF-8 bytes. The companion
/// parser in `func_lexer` keeps at most one argument for the resolver
/// pipeline and ignores trailing text as the binding files do; this one
/// keeps every argument and accepts nothing after the command.
pub fn parse_func(input: &str) -> (r: Option<Func>)
    ensures
        match r {
            Some(f) => spec_parse_func(input.spec_bytes()) == Some(f@),
            None => spec_parse_func(input.spec_bytes()) is None,
        },
{
    let bytes = input.as_bytes_vec();
    let s = bytes.as_slice();
    let mut pos: usize = 0;
    let entry = match tok_next(s, &mut pos) {
        Some(Tok::Ident(e)) => e,
        _ => {
            return None;
        },
    };
    match tok_next(s, &mut pos) {
        Some(Tok::DoubleColon) => {},
        _ => {
            return None;
        },
    }
    let func = match tok_next(s, &mut pos) {
        Some(Tok::Ident(f)) => f,
        _ => {
            return None;
        },
    };
    if at_end(s, pos) {
        let args: Vec<Expr> = Vec::new();
        proof {
            assert(view_exprs(args@) =~= Seq::<SpecExpr>::empty());
        }
        return Some(Func { entry: bytes_text(entry), func: bytes_text(func), args });
    }
    match tok_next(s, &mut pos) {
        Some(Tok::LParen) => {},
        _ => {
            return None;
        },
    }
    let args = match parse_arg_list(s, &mut pos) {
        None => {
            return None;
        },
        Some(items) => items,
    };
    if at_end(s, pos) {
        Some(Func { entry: bytes_text(entry), func: bytes_text(func), args })
    } else {
        None
    }
}

/// Idempotence law: parsing is a function of the input text alone, so
/// parsing the same command string twice yields structurally equal call
/// trees — both results equal `spec_parse_func` of the input's bytes,
/// whether the parse succeeds or fails.
pub proof fn lemma_parse_deterministic(a: &str, b: &str)
    requires
        a@ == b@,
    ensures
        spec_parse_func(a.spec_bytes()) == spec_parse_func(b.spec_bytes()),
{
}

} // verus!
