//! The hotkey state machine: the pressed-key array, the binding table
//! from (key code, modifier mask) to the raw binding string, the derived
//! live-modifier set, and the transition every key event drives. The
//! table is replaced whole on reload, never patched in place.

use vstd::prelude::*;

use crate::kee_windows::{SpecWindowInfo, WindowInfo};
use crate::keys::Modifiers;

verus! {

/// One logical modifier, as emitted in modifier events.
#[derive(Debug, Clone, Copy, PartialEq, Eq, Structural)]
pub enum Modifier {
    Ctrl,
    Shift,
    Alt,
    Win,
}

/// One event derived from the input stream: a matched binding by its raw
/// binding string, a modifier transition, or a foreground-window change.
#[derive(Debug, Clone, PartialEq, Eq)]
pub enum KeeEvent {
    OnKey(String),
    OnModifier(Modifier, bool),
    OnWindowChange(WindowInfo),
}

/// The view of a derived event.
pub enum SpecKeeEvent {
    OnKey(Seq<char>),
    OnModifier(Modifier, bool),
    OnWindowChange(SpecWindowInfo),
}

impl View for KeeEvent {
    type V = SpecKeeEvent;

    open spec fn view(&self) -> SpecKeeEvent {
        match self {
            KeeEvent::OnKey(s) => SpecKeeEvent::OnKey(s@),
            KeeEvent::OnModifier(m, b) => SpecKeeEvent::OnModifier(*m, *b),
            KeeEvent::OnWindowChange(w) => SpecKeeEvent::OnWindowChange(w@),
        }
    }
}

/// One registered binding: the platform key code, the packed modifier
/// mask, and the raw binding string it came from.
#[derive(Debug, Clone, PartialEq, Eq)]
pub struct HotkeyEntry {
    pub tk: u16,
    pub flags: u32,
    pub name: String,
}

/// An entry at the specification level.
pub type SpecEntry = (u16, u32, Seq<char>);

/// The view of one table entry.
pub open spec fn entry_view(e: HotkeyEntry) -> SpecEntry {
    (e.tk, e.flags, e.name@)
}

/// The raw binding string registered under `(tk, flags)`, where there is
/// one; the latest registration wins.
pub open spec fn spec_lookup(t: Seq<SpecEntry>, tk: u16, flags: u32) -> Option<Seq<char>>
    decreases t.len(),
{
    if t.len() == 0 {
        None
    } else if t.last().0 == tk && t.last().1 == flags {
        Some(t.last().2)
    } else {
        spec_lookup(t.drop_last(), tk, flags)
    }
}

/// A lookup finds only what the table holds: every successful lookup
/// comes from an entry of the current table, so after a reload nothing
/// can match a binding of the replaced table.
pub proof fn lemma_match_from_table(t: Seq<SpecEntry>, tk: u16, flags: u32)
    ensures
        spec_lookup(t, tk, flags) matches Some(n) ==> exists|i: int|
            0 <= i < t.len() && t[i] == (tk, flags, n),
        spec_lookup(t, tk, flags) is Some <==> exists|i: int|
            0 <= i < t.len() && t[i].0 == tk && t[i].1 == flags,
    decreases t.len(),
{
    if t.len() > 0 {
        lemma_match_from_table(t.drop_last(), tk, flags);
        if t.last().0 == tk && t.last().1 == flags {
            assert(t[t.len() - 1] == t.last());
        } else {
            match spec_lookup(t, tk, flags) {
                Some(n) => {
                    let i = choose|i: int|
                        0 <= i < t.drop_last().len() && t.drop_last()[i] == (tk, flags, n);
                    assert(t[i] == (tk, flags, n));
                },
                None => {},
            }
            if exists|i: int| 0 <= i < t.len() && t[i].0 == tk && t[i].1 == flags {
                let i = choose|i: int| 0 <= i < t.len() && t[i].0 == tk && t[i].1 == flags;
                assert(i < t.len() - 1);
                assert(t.drop_last()[i] == t[i]);
            }
        }
    }
}

/// The live modifier set a pressed-key array induces: each logical
/// modifier is held when either of its two physical keys is down.
pub open spec fn spec_live_mods(pressed: Seq<bool>) -> Modifiers
    recommends
        pressed.len() == 256,
{
    Modifiers {
        ctrl: pressed[0xA2] || pressed[0xA3],
        shift: pressed[0xA0] || pressed[0xA1],
        alt: pressed[0xA4] || pressed[0xA5],
        meta: pressed[0x5B] || pressed[0x5C],
    }
}

/// The logical modifier a key code stands for on key-down.
pub open spec fn spec_modifier_down(vk: u16) -> Option<Modifier> {
    if vk == 0xA2 || vk == 0xA3 {
        Some(Modifier::Ctrl)
    } else if vk == 0xA0 || vk == 0xA1 {
        Some(Modifier::Shift)
    } else if vk == 0xA4 || vk == 0xA5 {
        Some(Modifier::Alt)
    } else if vk == 0x5B || vk == 0x5C {
        Some(Modifier::Win)
    } else {
        None
    }
}

/// The logical modifier a key code stands for on key-up: the same
/// physical keys as on key-down, plus the generic alt code some event
/// sources report in place of the two physical alt keys.
pub open spec fn spec_modifier_up(vk: u16) -> Option<Modifier> {
    if vk == 0xA2 || vk == 0xA3 {
        Some(Modifier::Ctrl)
    } else if vk == 0xA0 || vk == 0xA1 {
        Some(Modifier::Shift)
    } else if vk == 0xA4 || vk == 0xA5 || vk == 0x12 {
        Some(Modifier::Alt)
    } else if vk == 0x5B || vk == 0x5C {
        Some(Modifier::Win)
    } else {
        None
    }
}

/// The system-sensitive keys whose default behavior a matched binding
/// suppresses: the two meta keys, tab, and escape while alt is held.
pub open spec fn spec_system_key(vk: u16, alt_held: bool) -> bool {
    vk == 0x5B || vk == 0x5C || vk == 0x09 || (vk == 0x1B && alt_held)
}

/// What a key-down transition produces: the events to enqueue, in order,
/// and whether the event is swallowed.
pub struct HookDecision {
    pub events: Vec<KeeEvent>,
    pub swallow: bool,
}

/// The events a key-down of `vk` derives: a modifier transition where the
/// key is a modifier newly pressed, then the matched binding where the
/// table holds one under the new live modifier mask.
pub open spec fn spec_down_events(
    t: Seq<SpecEntry>,
    pressed: Seq<bool>,
    vk: u16,
) -> Seq<SpecKeeEvent>
    recommends
        pressed.len() == 256,
        vk < 256,
{
    let mod_part: Seq<SpecKeeEvent> = match spec_modifier_down(vk) {
        Some(m) => if !pressed[vk as int] {
            seq![SpecKeeEvent::OnModifier(m, true)]
        } else {
            Seq::empty()
        },
        None => Seq::empty(),
    };
    let live = spec_live_mods(pressed.update(vk as int, true));
    let key_part: Seq<SpecKeeEvent> = match spec_lookup(t, vk, live.spec_flags()) {
        Some(n) => seq![SpecKeeEvent::OnKey(n)],
        None => Seq::empty(),
    };
    mod_part + key_part
}

/// Whether a key-down of `vk` is swallowed: only a matched binding on a
/// system-sensitive key is.
pub open spec fn spec_down_swallow(t: Seq<SpecEntry>, pressed: Seq<bool>, vk: u16) -> bool
    recommends
        pressed.len() == 256,
        vk < 256,
{
    let live = spec_live_mods(pressed.update(vk as int, true));
    spec_lookup(t, vk, live.spec_flags()) is Some && spec_system_key(vk, live.alt)
}

/// The process-wide hotkey state: the binding table and the pressed-key
/// array of the 256 key codes.
pub struct HotkeyState {
    table: Vec<HotkeyEntry>,
    pressed: Vec<bool>,
}

impl HotkeyState {
    /// The registered bindings, in registration order.
    pub closed spec fn entries(self) -> Seq<SpecEntry> {
        self.table@.map_values(|e: HotkeyEntry| entry_view(e))
    }

    /// The pressed state of each of the 256 key codes.
    pub closed spec fn keys_down(self) -> Seq<bool> {
        self.pressed@
    }

    /// The pressed-key array always covers exactly the 256 key codes.
    pub closed spec fn wf(self) -> bool {
        self.pressed@.len() == 256
    }

    /// A fresh state: no binding registered, no key down.
    pub fn new() -> (s: HotkeyState)
        ensures
            s.wf(),
            s.entries() == Seq::<SpecEntry>::empty(),
            s.keys_down() == Seq::new(256, |i: int| false),
    {
        let mut pressed: Vec<bool> = Vec::new();
        let mut i: usize = 0;
        proof {
            assert(pressed@ =~= Seq::new(i as nat, |j: int| false));
        }
        while i < 256
            invariant
                i <= 256,
                pressed@ == Seq::new(i as nat, |j: int| false),
            decreases 256 - i,
        {
            pressed.push(false);
            i = i + 1;
            proof {
                assert(pressed@ =~= Seq::new(i as nat, |j: int| false));
            }
        }
        let s = HotkeyState { table: Vec::new(), pressed };
        proof {
            assert(s.entries() =~= Seq::<SpecEntry>::empty());
        }
        s
    }

    /// Registers one binding under its key code and modifier mask; a later
    /// registration of the same pair wins over an earlier one.
    pub fn insert_binding(&mut self, tk: u16, flags: u32, name: String)
        requires
            old(self).wf(),
        ensures
            final(self).wf(),
            final(self).keys_down() == old(self).keys_down(),
            final(self).entries() == old(self).entries().push((tk, flags, name@)),
    {
        let ghost before = self.entries();
        self.table.push(HotkeyEntry { tk, flags, name });
        proof {
            assert(self.entries() =~= before.push((tk, flags, self.table@.last().name@)));
        }
    }

    /// Empties the binding table; pressed keys are untouched.
    pub fn clear(&mut self)
        requires
            old(self).wf(),
        ensures
            final(self).wf(),
            final(self).keys_down() == old(self).keys_down(),
            final(self).entries() == Seq::<SpecEntry>::empty(),
    {
        self.table = Vec::new();
        proof {
            assert(self.entries() =~= Seq::<SpecEntry>::empty());
        }
    }

    /// The binding registered under `(tk, flags)`, as `spec_lookup` gives
    /// it.
    pub fn lookup(&self, tk: u16, flags: u32) -> (r: Option<String>)
        ensures
            match r {
                Some(n) => spec_lookup(self.entries(), tk, flags) == Some(n@),
                None => spec_lookup(self.entries(), tk, flags) is None,
            },
    {
        let ghost t = self.entries();
        let mut i: usize = self.table.len();
        proof {
            assert(t.take(i as int) =~= t);
        }
        while i > 0
            invariant
                i <= self.table@.len(),
                t == self.entries(),
                spec_lookup(t, tk, flags) == spec_lookup(t.take(i as int), tk, flags),
            decreases i,
        {
            i = i - 1;
            let e = &self.table[i];
            proof {
                assert(t.take(i + 1).last() == t[i as int]);
                assert(t.take(i + 1).drop_last() =~= t.take(i as int));
            }
            if e.tk == tk && e.flags == flags {
                return Some(e.name.clone());
            }
        }
        proof {
            assert(t.take(0) =~= Seq::<SpecEntry>::empty());
        }
        None
    }

    /// The live modifier set derived from the pressed-key array.
    pub fn live_modifiers(&self) -> (m: Modifiers)
        requires
            self.wf(),
        ensures
            m == spec_live_mods(self.keys_down()),
    {
        Modifiers {
            ctrl: self.pressed[0xA2] || self.pressed[0xA3],
            shift: self.pressed[0xA0] || self.pressed[0xA1],
            alt: self.pressed[0xA4] || self.pressed[0xA5],
            meta: self.pressed[0x5B] || self.pressed[0x5C],
        }
    }

    /// The key-down transition: marks `vk` pressed, emits a modifier
    /// event on a fresh modifier press, matches the new live modifier
    /// mask against the table exactly, and swallows only a matched
    /// system-sensitive key.
    pub fn on_key_down(&mut self, vk: u16) -> (r: HookDecision)
        requires
            old(self).wf(),
            vk < 256,
        ensures
            final(self).wf(),
            final(self).entries() == old(self).entries(),
            final(self).keys_down() == old(self).keys_down().update(vk as int, true),
            r.events@.map_values(|e: KeeEvent| e@) == spec_down_events(
                old(self).entries(),
                old(self).keys_down(),
                vk,
            ),
            r.swallow == spec_down_swallow(old(self).entries(), old(self).keys_down(), vk),
    {
        let ghost t0 = self.entries();
        let ghost p0 = self.keys_down();
        let was_pressed = self.pressed[vk as usize];
        self.pressed.set(vk as usize, true);

        let mut events: Vec<KeeEvent> = Vec::new();
        let is_mod: Option<Modifier> = if vk == 0xA2 || vk == 0xA3 {
            Some(Modifier::Ctrl)
        } else if vk == 0xA0 || vk == 0xA1 {
            Some(Modifier::Shift)
        } else if vk == 0xA4 || vk == 0xA5 {
            Some(Modifier::Alt)
        } else if vk == 0x5B || vk == 0x5C {
            Some(Modifier::Win)
        } else {
            None
        };
        match is_mod {
            Some(m) => {
                if !was_pressed {
                    events.push(KeeEvent::OnModifier(m, true));
                }
            },
            None => {},
        }

        let live = self.live_modifiers();
        let flags = live.to_flags();
        let matched = self.lookup(vk, flags);
        let swallow: bool;
        match matched {
            Some(name) => {
                events.push(KeeEvent::OnKey(name));
                swallow = vk == 0x5B || vk == 0x5C || vk == 0x09 || (vk == 0x1B && live.alt);
            },
            None => {
                swallow = false;
            },
        }
        proof {
            assert(events@.map_values(|e: KeeEvent| e@) =~= spec_down_events(t0, p0, vk));
        }
        HookDecision { events, swallow }
    }

    /// The key-up transition: marks `vk` released and emits the modifier
    /// release where `vk` stands for a modifier; a key-up never swallows
    /// the event and never matches a binding.
    pub fn on_key_up(&mut self, vk: u16) -> (r: Option<KeeEvent>)
        requires
            old(self).wf(),
            vk < 256,
        ensures
            final(self).wf(),
            final(self).entries() == old(self).entries(),
            final(self).keys_down() == old(self).keys_down().update(vk as int, false),
            match r {
                Some(e) => spec_modifier_up(vk) matches Some(m) && e@ == SpecKeeEvent::OnModifier(
                    m,
                    false,
                ),
                None => spec_modifier_up(vk) is None,
            },
    {
        self.pressed.set(vk as usize, false);
        if vk == 0xA2 || vk == 0xA3 {
            Some(KeeEvent::OnModifier(Modifier::Ctrl, false))
        } else if vk == 0xA0 || vk == 0xA1 {
            Some(KeeEvent::OnModifier(Modifier::Shift, false))
        } else if vk == 0xA4 || vk == 0xA5 || vk == 0x12 {
            Some(KeeEvent::OnModifier(Modifier::Alt, false))
        } else if vk == 0x5B || vk == 0x5C {
            Some(KeeEvent::OnModifier(Modifier::Win, false))
        } else {
            None
        }
    }
}

/// No binding matches unless the live modifier set equals the declared
/// set exactly: where every entry of `vk` declares the set `m` and the
/// live set differs from `m`, the lookup finds nothing — an extra held
/// modifier never matches a binding that did not declare it.
pub proof fn lemma_no_match_without_exact_modifiers(
    t: Seq<SpecEntry>,
    vk: u16,
    pressed: Seq<bool>,
    m: Modifiers,
)
    requires
        forall|i: int| 0 <= i < t.len() && t[i].0 == vk ==> t[i].1 == m.spec_flags(),
        spec_live_mods(pressed) != m,
    ensures
        spec_lookup(t, vk, spec_live_mods(pressed).spec_flags()) is None,
{
    let live = spec_live_mods(pressed);
    crate::keys::lemma_flags_injective(live, m);
    lemma_match_from_table(t, vk, live.spec_flags());
}

/// A match occurs exactly when some registered entry carries the event's
/// key code and precisely the live modifier mask.
pub proof fn lemma_match_iff_exact(t: Seq<SpecEntry>, vk: u16, pressed: Seq<bool>)
    ensures
        spec_lookup(t, vk, spec_live_mods(pressed).spec_flags()) is Some <==> exists|i: int|
            0 <= i < t.len() && t[i].0 == vk && t[i].1 == spec_live_mods(pressed).spec_flags(),
{
    lemma_match_from_table(t, vk, spec_live_mods(pressed).spec_flags());
}

/// Atomic reload, seen from the event stream: a key-down derives an
/// `OnKey` event only from a binding of the current table, under the
/// event's key code and the live modifier mask. A reload replaces the
/// table whole, so after it a key event matching only a binding of the
/// replaced table derives no `OnKey` event at all.
pub proof fn lemma_reload_atomic(t: Seq<SpecEntry>, pressed: Seq<bool>, vk: u16)
    ensures
        ({
            let live = spec_live_mods(pressed.update(vk as int, true));
            &&& (spec_lookup(t, vk, live.spec_flags()) matches Some(n) ==> exists|i: int|
                0 <= i < t.len() && t[i] == (vk, live.spec_flags(), n))
            &&& (spec_lookup(t, vk, live.spec_flags()) is None ==> forall|k: int|
                0 <= k < spec_down_events(t, pressed, vk).len() ==> !(#[trigger] spec_down_events(
                    t,
                    pressed,
                    vk,
                )[k] is OnKey))
        }),
{
    let live = spec_live_mods(pressed.update(vk as int, true));
    lemma_match_from_table(t, vk, live.spec_flags());
    if spec_lookup(t, vk, live.spec_flags()) is None {
        let events = spec_down_events(t, pressed, vk);
        assert forall|k: int| 0 <= k < events.len() implies !(#[trigger] events[k] is OnKey) by {
            match spec_modifier_down(vk) {
                Some(m) => {
                    if !pressed[vk as int] {
                        assert(events =~= seq![SpecKeeEvent::OnModifier(m, true)]);
                    } else {
                        assert(events =~= Seq::<SpecKeeEvent>::empty());
                    }
                },
                None => {
                    assert(events =~= Seq::<SpecKeeEvent>::empty());
                },
            }
        }
    }
}

} // verus!
