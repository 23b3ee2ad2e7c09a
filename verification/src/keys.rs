//! The binding parser: turns a compact dash-separated binding string such
//! as `"C-S-a"` into a key plus an exact modifier set. Every segment but
//! the last must be one of the tags `C`, `S`, `A`, `M`, `W`; the last
//! segment is a key name, looked up case-insensitively.

use vstd::prelude::*;

use crate::bytes::{bytes_text, sub_vec, text_of};
use crate::keytable::{key_code, key_of, spec_key_code, spec_key_of, TKey};
use vstd::string::StringSliceAdditionalSpecFns;

verus! {

/// The four independent modifier booleans. Equality is exact-set
/// equality: all four fields must agree.
#[derive(Debug, Clone, Copy, PartialEq, Eq, Structural)]
pub struct Modifiers {
    pub ctrl: bool,
    pub shift: bool,
    pub alt: bool,
    pub meta: bool,
}

impl Modifiers {
    /// The modifier set with no modifier held.
    pub open spec fn spec_empty() -> Modifiers {
        Modifiers { ctrl: false, shift: false, alt: false, meta: false }
    }

    /// The compact bitmask of this set: alt is bit 0, ctrl bit 1, shift
    /// bit 2, meta bit 3.
    pub open spec fn spec_flags(self) -> u32 {
        ((if self.ctrl {
            0x0002u32
        } else {
            0u32
        }) + (if self.shift {
            0x0004u32
        } else {
            0u32
        }) + (if self.alt {
            0x0001u32
        } else {
            0u32
        }) + (if self.meta {
            0x0008u32
        } else {
            0u32
        })) as u32
    }

    pub fn new() -> (m: Modifiers)
        ensures
            m == Modifiers::spec_empty(),
    {
        Modifiers { ctrl: false, shift: false, alt: false, meta: false }
    }

    /// Packs the four booleans into the bitmask used as a table key.
    pub fn to_flags(&self) -> (r: u32)
        ensures
            r == self.spec_flags(),
    {
        (if self.ctrl {
            0x0002u32
        } else {
            0u32
        }) + (if self.shift {
            0x0004u32
        } else {
            0u32
        }) + (if self.alt {
            0x0001u32
        } else {
            0u32
        }) + (if self.meta {
            0x0008u32
        } else {
            0u32
        })
    }
}

/// Two distinct modifier sets pack to distinct bitmasks, so comparing
/// masks is the same as comparing the sets themselves.
pub proof fn lemma_flags_injective(a: Modifiers, b: Modifiers)
    ensures
        (a.spec_flags() == b.spec_flags()) <==> a == b,
{
}

/// A raw binding-string / command-string pair, as configuration carries
/// them.
#[derive(Debug, Clone, PartialEq, Eq)]
pub struct TKeePair {
    pub key: String,
    pub func: String,
}

impl TKeePair {
    pub fn new(key: &str, func: &str) -> (p: TKeePair)
        ensures
            p.key@ == key@,
            p.func@ == func@,
    {
        TKeePair { key: key.to_owned(), func: func.to_owned() }
    }
}

/// An ordered list of binding pairs.
#[derive(Debug, Clone, PartialEq, Eq)]
pub struct TKeePairList(pub Vec<TKeePair>);

/// Why a binding string was rejected, at the specification level: the
/// offending token is carried as its character sequence.
pub enum SpecBindErr {
    Empty,
    UnknownModifier(Seq<char>),
    UnknownKey(Seq<char>),
}

/// Why a binding string was rejected. Parsing fails on an empty input, on
/// a segment before the last that is not one of the tags `C`, `S`, `A`,
/// `M`, `W`, and on a final segment that names no key.
#[derive(Debug, Clone, PartialEq, Eq)]
pub enum BindingError {
    Empty,
    UnknownModifier(String),
    UnknownKey(String),
}

impl View for BindingError {
    type V = SpecBindErr;

    open spec fn view(&self) -> SpecBindErr {
        match self {
            BindingError::Empty => SpecBindErr::Empty,
            BindingError::UnknownModifier(s) => SpecBindErr::UnknownModifier(s@),
            BindingError::UnknownKey(s) => SpecBindErr::UnknownKey(s@),
        }
    }
}

/// A parsed binding: one key together with the exact modifier set that
/// must be held for it to match.
#[derive(Debug, Clone, Copy, PartialEq, Eq, Structural)]
pub struct TsckKeeBinding {
    pub key: TKey,
    pub modifiers: Modifiers,
}

/// ASCII lowercasing of one byte.
pub open spec fn spec_lower_byte(b: u8) -> u8 {
    if 65 <= b <= 90 {
        (b + 32) as u8
    } else {
        b
    }
}

/// ASCII lowercasing of a byte sequence.
pub open spec fn spec_lower(s: Seq<u8>) -> Seq<u8> {
    s.map_values(|b: u8| spec_lower_byte(b))
}

/// The segments of `s` split at every occurrence of `sep`; splitting the
/// empty sequence gives one empty segment, as `str::split` does.
pub open spec fn spec_split(s: Seq<u8>, sep: u8) -> Seq<Seq<u8>>
    decreases s.len(),
{
    if s.len() == 0 {
        seq![Seq::<u8>::empty()]
    } else {
        let parts = spec_split(s.drop_last(), sep);
        let b = s.last();
        if b == sep {
            parts.push(Seq::<u8>::empty())
        } else {
            parts.update(parts.len() - 1, parts.last().push(b))
        }
    }
}

pub proof fn lemma_split_nonempty(s: Seq<u8>, sep: u8)
    ensures
        spec_split(s, sep).len() >= 1,
    decreases s.len(),
{
    if s.len() > 0 {
        lemma_split_nonempty(s.drop_last(), sep);
    }
}

/// Folds the modifier tags of `parts[i..parts.len() - 1]` into `m`; the
/// first segment that is not a tag makes the whole binding fail.
pub open spec fn spec_apply_mods(parts: Seq<Seq<u8>>, i: int, m: Modifiers) -> Result<
    Modifiers,
    SpecBindErr,
>
    decreases parts.len() - i,
{
    if i < 0 || i >= parts.len() - 1 {
        Ok(m)
    } else {
        let seg = parts[i];
        if seg.len() == 1 && seg[0] == 67 {  // C
            spec_apply_mods(parts, i + 1, Modifiers { ctrl: true, ..m })
        } else if seg.len() == 1 && seg[0] == 83 {  // S
            spec_apply_mods(parts, i + 1, Modifiers { shift: true, ..m })
        } else if seg.len() == 1 && seg[0] == 65 {  // A
            spec_apply_mods(parts, i + 1, Modifiers { alt: true, ..m })
        } else if seg.len() == 1 && (seg[0] == 77 || seg[0] == 87) {  // M or W
            spec_apply_mods(parts, i + 1, Modifiers { meta: true, ..m })
        } else {
            Err(SpecBindErr::UnknownModifier(text_of(seg)))
        }
    }
}

/// What parsing the binding syntax gives on the UTF-8 bytes of the input:
/// the segments before the last set modifier bits, and the last segment,
/// lowercased, must name a key.
pub open spec fn spec_parse_binding(s: Seq<u8>) -> Result<TsckKeeBinding, SpecBindErr> {
    if s.len() == 0 {
        Err(SpecBindErr::Empty)
    } else {
        let parts = spec_split(s, 45);  // '-'
        match spec_apply_mods(parts, 0, Modifiers::spec_empty()) {
            Err(e) => Err(e),
            Ok(m) => match spec_key_of(spec_lower(parts.last())) {
                Some(k) => Ok(TsckKeeBinding { key: k, modifiers: m }),
                None => Err(SpecBindErr::UnknownKey(text_of(parts.last()))),
            },
        }
    }
}

impl TsckKeeBinding {
    /// Parses a dash-separated binding string, exactly as
    /// `spec_parse_binding` describes on the input's UTF-8 bytes.
    pub fn parse(input: &str) -> (r: Result<TsckKeeBinding, BindingError>)
        ensures
            match r {
                Ok(b) => spec_parse_binding(input.spec_bytes()) == Ok::<
                    TsckKeeBinding,
                    SpecBindErr,
                >(b),
                Err(e) => spec_parse_binding(input.spec_bytes()) == Err::<
                    TsckKeeBinding,
                    SpecBindErr,
                >(e@),
            },
    {
        let s = input.as_bytes();
        if s.len() == 0 {
            return Err(BindingError::Empty);
        }
        let parts = split_bytes(s, 45);
        proof {
            lemma_split_nonempty(s@, 45);
        }
        let ghost gparts = spec_split(s@, 45);

        let mut m = Modifiers::new();
        let mut i: usize = 0;
        let last: usize = parts.len() - 1;
        while i < last
            invariant
                parts@.map_values(|v: Vec<u8>| v@) == gparts,
                gparts == spec_split(input.spec_bytes(), 45),
                input.spec_bytes().len() > 0,
                last == parts@.len() - 1,
                i <= last,
                spec_apply_mods(gparts, 0, Modifiers::spec_empty()) == spec_apply_mods(
                    gparts,
                    i as int,
                    m,
                ),
            decreases last - i,
        {
            let seg = &parts[i];
            assert(seg@ == gparts[i as int]);
            if seg.len() == 1 && seg[0] == 67 {
                m = Modifiers { ctrl: true, ..m };
            } else if seg.len() == 1 && seg[0] == 83 {
                m = Modifiers { shift: true, ..m };
            } else if seg.len() == 1 && seg[0] == 65 {
                m = Modifiers { alt: true, ..m };
            } else if seg.len() == 1 && (seg[0] == 77 || seg[0] == 87) {
                m = Modifiers { meta: true, ..m };
            } else {
                let seg_copy = sub_vec(parts[i].as_slice(), 0, parts[i].len());
                let text = bytes_text(seg_copy);
                proof {
                    assert(seg_copy@ =~= gparts[i as int]);
                    assert(spec_apply_mods(gparts, i as int, m) == Err::<Modifiers, SpecBindErr>(
                        SpecBindErr::UnknownModifier(text_of(gparts[i as int])),
                    ));
                }
                return Err(BindingError::UnknownModifier(text));
            }
            i = i + 1;
        }
        assert(spec_apply_mods(gparts, 0, Modifiers::spec_empty()) == Ok::<
            Modifiers,
            SpecBindErr,
        >(m));

        let key_seg = &parts[last];
        proof {
            assert(gparts.last() == gparts[last as int]);
            assert(key_seg@ == gparts.last());
        }
        let lowered = lower_bytes(key_seg);
        match key_of(lowered.as_slice()) {
            Some(k) => Ok(TsckKeeBinding { key: k, modifiers: m }),
            None => {
                let seg_copy = sub_vec(parts[last].as_slice(), 0, parts[last].len());
                let text = bytes_text(seg_copy);
                proof {
                    assert(seg_copy@ =~= gparts.last());
                }
                Err(BindingError::UnknownKey(text))
            },
        }
    }

    /// The platform key code this binding's key maps to.
    pub fn to_tk(&self) -> (r: u16)
        ensures
            r == spec_key_code(self.key),
    {
        key_code(self.key)
    }
}

/// Splits `s` at every occurrence of `sep`, as `spec_split` describes.
pub fn split_bytes(s: &[u8], sep: u8) -> (r: Vec<Vec<u8>>)
    ensures
        r@.map_values(|v: Vec<u8>| v@) == spec_split(s@, sep),
{
    let mut parts: Vec<Vec<u8>> = Vec::new();
    parts.push(Vec::new());
    proof {
        assert(parts@.map_values(|v: Vec<u8>| v@) =~= spec_split(s@.take(0), sep));
    }
    let mut i: usize = 0;
    while i < s.len()
        invariant
            i <= s@.len(),
            parts@.len() >= 1,
            parts@.map_values(|v: Vec<u8>| v@) == spec_split(s@.take(i as int), sep),
        decreases s@.len() - i,
    {
        let ghost before = parts@.map_values(|v: Vec<u8>| v@);
        let b = s[i];
        if b == sep {
            parts.push(Vec::new());
            proof {
                assert(s@.take(i + 1).drop_last() =~= s@.take(i as int));
                assert(parts@.map_values(|v: Vec<u8>| v@) =~= before.push(Seq::<u8>::empty()));
            }
        } else {
            let n = parts.len() - 1;
            let mut lastv = parts.pop().unwrap();
            lastv.push(b);
            parts.push(lastv);
            proof {
                assert(s@.take(i + 1).drop_last() =~= s@.take(i as int));
                assert(parts@.map_values(|v: Vec<u8>| v@) =~= before.update(
                    before.len() - 1,
                    before.last().push(b),
                ));
            }
        }
        i = i + 1;
    }
    proof {
        assert(s@.take(i as int) =~= s@);
    }
    parts
}

/// ASCII-lowercases a byte slice, as `spec_lower` describes.
pub fn lower_bytes(s: &Vec<u8>) -> (r: Vec<u8>)
    ensures
        r@ == spec_lower(s@),
{
    let mut r: Vec<u8> = Vec::new();
    let mut i: usize = 0;
    while i < s.len()
        invariant
            i <= s@.len(),
            r@ == spec_lower(s@.take(i as int)),
        decreases s@.len() - i,
    {
        let b = s[i];
        if 65 <= b && b <= 90 {
            r.push(b + 32);
        } else {
            r.push(b);
        }
        i = i + 1;
        proof {
            assert(r@ =~= spec_lower(s@.take(i as int)));
        }
    }
    proof {
        assert(s@.take(i as int) =~= s@);
    }
    r
}

} // verus!
