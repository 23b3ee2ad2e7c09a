//! Registration of hotkeys: parses every binding string of a
//! configuration before touching the table, so a rejected configuration
//! changes nothing, and a reload replaces the whole table and subscriber
//! list rather than patching either.

use vstd::prelude::*;
use vstd::utf8::encode_utf8;

use crate::hotstate::{entry_view, HookDecision, HotkeyEntry, HotkeyState, KeeEvent, SpecEntry};
use crate::keys::{spec_parse_binding, BindingError, SpecBindErr, TsckKeeBinding};
use crate::keytable::spec_key_code;
use vstd::string::StringSliceAdditionalSpecFns;

verus! {

/// What compiling a list of binding strings gives: one table entry per
/// string, in order, or the error of the first string that does not
/// parse.
pub open spec fn spec_compile(keys: Seq<Seq<char>>) -> Result<Seq<SpecEntry>, SpecBindErr>
    decreases keys.len(),
{
    if keys.len() == 0 {
        Ok(Seq::<SpecEntry>::empty())
    } else {
        match spec_parse_binding(encode_utf8(keys[0])) {
            Err(e) => Err(e),
            Ok(b) => match spec_compile(keys.drop_first()) {
                Err(e) => Err(e),
                Ok(rest) => Ok(
                    seq![(spec_key_code(b.key), b.modifiers.spec_flags(), keys[0])] + rest,
                ),
            },
        }
    }
}

/// The hotkey manager: the shared state the hook callback reads and
/// writes, and the ordered list of subscriber handles the dispatch worker
/// calls.
pub struct TsckKeeManager {
    state: HotkeyState,
    subscribers: Vec<u64>,
}

impl TsckKeeManager {
    /// The registered bindings, in registration order.
    pub closed spec fn entries(self) -> Seq<SpecEntry> {
        self.state.entries()
    }

    /// The pressed state of each key code.
    pub closed spec fn keys_down(self) -> Seq<bool> {
        self.state.keys_down()
    }

    /// The registered subscriber handles, in registration order.
    pub closed spec fn subs(self) -> Seq<u64> {
        self.subscribers@
    }

    pub closed spec fn wf(self) -> bool {
        self.state.wf()
    }

    /// A fresh manager: no binding, no subscriber, no key down.
    pub fn new() -> (m: TsckKeeManager)
        ensures
            m.wf(),
            m.entries() == Seq::<SpecEntry>::empty(),
            m.subs() == Seq::<u64>::empty(),
            m.keys_down() == Seq::new(256, |i: int| false),
    {
        TsckKeeManager { state: HotkeyState::new(), subscribers: Vec::new() }
    }

    /// Registers a configuration: every binding string is parsed first,
    /// and only where all of them parse is the table extended, in order,
    /// and the callback handle appended — a rejected configuration
    /// changes nothing.
    #[verifier::rlimit(100)]
    pub fn register_hotkeys(&mut self, hotkeys: &Vec<String>, callback: u64) -> (r: Result<
        (),
        BindingError,
    >)
        requires
            old(self).wf(),
        ensures
            final(self).wf(),
            final(self).keys_down() == old(self).keys_down(),
            match r {
                Ok(()) => spec_compile(hotkeys@.map_values(|s: String| s@)) matches Ok(cs)
                    && final(self).entries() == old(self).entries() + cs && final(self).subs()
                    == old(self).subs().push(callback),
                Err(e) => spec_compile(hotkeys@.map_values(|s: String| s@)) == Err::<
                    Seq<SpecEntry>,
                    SpecBindErr,
                >(e@) && final(self).entries() == old(self).entries() && final(self).subs() == old(
                    self,
                ).subs(),
            },
    {
        let ghost views = hotkeys@.map_values(|s: String| s@);
        let mut compiled: Vec<HotkeyEntry> = Vec::new();
        let mut i: usize = 0;
        proof {
            assert(views.skip(0) =~= views);
            assert(compiled@.map_values(|e: HotkeyEntry| entry_view(e)) =~= Seq::<
                SpecEntry,
            >::empty());
        }
        while i < hotkeys.len()
            invariant
                i <= hotkeys@.len(),
                views == hotkeys@.map_values(|s: String| s@),
                self.wf(),
                self.entries() == old(self).entries(),
                self.subs() == old(self).subs(),
                self.keys_down() == old(self).keys_down(),
                match spec_compile(views.skip(i as int)) {
                    Ok(rest) => spec_compile(views) == Ok::<Seq<SpecEntry>, SpecBindErr>(
                        compiled@.map_values(|e: HotkeyEntry| entry_view(e)) + rest,
                    ),
                    Err(e) => spec_compile(views) == Err::<Seq<SpecEntry>, SpecBindErr>(e),
                },
            decreases hotkeys@.len() - i,
        {
            let ghost pre = compiled@.map_values(|e: HotkeyEntry| entry_view(e));
            let hk = &hotkeys[i];
            match TsckKeeBinding::parse(hk.as_str()) {
                Err(e) => {
                    proof {
                        assert(views.skip(i as int)[0] == views[i as int]);
                        assert(spec_compile(views.skip(i as int)) == Err::<
                            Seq<SpecEntry>,
                            SpecBindErr,
                        >(e@));
                    }
                    return Err(e);
                },
                Ok(b) => {
                    let tk = b.to_tk();
                    let flags = b.modifiers.to_flags();
                    compiled.push(HotkeyEntry { tk, flags, name: hk.clone() });
                    proof {
                        assert(views.skip(i as int)[0] == views[i as int]);
                        assert(views.skip(i as int).drop_first() =~= views.skip(i + 1));
                        assert(compiled@.map_values(|e: HotkeyEntry| entry_view(e)) =~= pre.push(
                            (tk, flags, views[i as int]),
                        ));
                        match spec_compile(views.skip(i + 1)) {
                            Ok(rest) => {
                                assert(pre + (seq![(tk, flags, views[i as int])] + rest) =~= pre.push(
                                    (tk, flags, views[i as int]),
                                ) + rest);
                            },
                            Err(e) => {},
                        }
                    }
                },
            }
            i = i + 1;
        }
        proof {
            assert(views.skip(i as int) =~= Seq::<Seq<char>>::empty());
        }
        let ghost cs = compiled@.map_values(|e: HotkeyEntry| entry_view(e));
        proof {
            assert(spec_compile(views) == Ok::<Seq<SpecEntry>, SpecBindErr>(
                cs + Seq::<SpecEntry>::empty(),
            ));
            assert(cs + Seq::<SpecEntry>::empty() =~= cs);
        }

        let ghost entries0 = self.state.entries();
        let mut j: usize = 0;
        proof {
            assert(entries0 + cs.take(0) =~= entries0);
        }
        while j < compiled.len()
            invariant
                self.wf(),
                j <= compiled@.len(),
                cs == compiled@.map_values(|e: HotkeyEntry| entry_view(e)),
                self.state.entries() == entries0 + cs.take(j as int),
                self.state.keys_down() == old(self).keys_down(),
                self.subscribers@ == old(self).subs(),
                entries0 == old(self).entries(),
            decreases compiled@.len() - j,
        {
            let e = &compiled[j];
            self.state.insert_binding(e.tk, e.flags, e.name.clone());
            j = j + 1;
            proof {
                assert((entries0 + cs.take(j - 1)).push(cs[j - 1]) =~= entries0 + cs.take(
                    j as int,
                ));
            }
        }
        proof {
            assert(cs.take(j as int) =~= cs);
        }
        self.subscribers.push(callback);
        Ok(())
    }

    /// Appends one subscriber handle; the table is untouched.
    pub fn register_event_callback(&mut self, callback: u64)
        requires
            old(self).wf(),
        ensures
            final(self).wf(),
            final(self).entries() == old(self).entries(),
            final(self).keys_down() == old(self).keys_down(),
            final(self).subs() == old(self).subs().push(callback),
    {
        self.subscribers.push(callback);
    }

    /// Empties the binding table; subscribers and pressed keys stay.
    pub fn clear_hotkeys(&mut self)
        requires
            old(self).wf(),
        ensures
            final(self).wf(),
            final(self).entries() == Seq::<SpecEntry>::empty(),
            final(self).keys_down() == old(self).keys_down(),
            final(self).subs() == old(self).subs(),
    {
        self.state.clear();
    }

    /// Empties the subscriber list; the table and pressed keys stay.
    pub fn clear_event_callbacks(&mut self)
        requires
            old(self).wf(),
        ensures
            final(self).wf(),
            final(self).entries() == old(self).entries(),
            final(self).keys_down() == old(self).keys_down(),
            final(self).subs() == Seq::<u64>::empty(),
    {
        self.subscribers = Vec::new();
    }

    /// Replaces the whole configuration: the table and the subscriber
    /// list are cleared and the new bindings registered, so afterwards
    /// the table holds exactly the new bindings — a key event matching
    /// only a binding of the old table finds nothing.
    pub fn update_hotkeys(&mut self, hotkeys: &Vec<String>, callback: u64) -> (r: Result<
        (),
        BindingError,
    >)
        requires
            old(self).wf(),
        ensures
            final(self).wf(),
            final(self).keys_down() == old(self).keys_down(),
            match r {
                Ok(()) => spec_compile(hotkeys@.map_values(|s: String| s@)) matches Ok(cs)
                    && final(self).entries() == cs && final(self).subs() == seq![callback],
                Err(e) => spec_compile(hotkeys@.map_values(|s: String| s@)) == Err::<
                    Seq<SpecEntry>,
                    SpecBindErr,
                >(e@) && final(self).entries() == Seq::<SpecEntry>::empty() && final(self).subs()
                    == Seq::<u64>::empty(),
            },
    {
        self.clear_hotkeys();
        self.clear_event_callbacks();
        let r = self.register_hotkeys(hotkeys, callback);
        proof {
            if r is Ok {
                match spec_compile(hotkeys@.map_values(|s: String| s@)) {
                    Ok(cs) => {
                        assert(Seq::<SpecEntry>::empty() + cs =~= cs);
                    },
                    Err(_) => {},
                }
                assert(Seq::<u64>::empty().push(callback) =~= seq![callback]);
            }
        }
        r
    }

    /// The key-down transition of the shared state.
    pub fn on_key_down(&mut self, vk: u16) -> (r: HookDecision)
        requires
            old(self).wf(),
            vk < 256,
        ensures
            final(self).wf(),
            final(self).entries() == old(self).entries(),
            final(self).subs() == old(self).subs(),
            final(self).keys_down() == old(self).keys_down().update(vk as int, true),
            r.events@.map_values(|e: KeeEvent| e@) == crate::hotstate::spec_down_events(
                old(self).entries(),
                old(self).keys_down(),
                vk,
            ),
            r.swallow == crate::hotstate::spec_down_swallow(
                old(self).entries(),
                old(self).keys_down(),
                vk,
            ),
    {
        self.state.on_key_down(vk)
    }

    /// The key-up transition of the shared state.
    pub fn on_key_up(&mut self, vk: u16) -> (r: Option<KeeEvent>)
        requires
            old(self).wf(),
            vk < 256,
        ensures
            final(self).wf(),
            final(self).entries() == old(self).entries(),
            final(self).subs() == old(self).subs(),
            final(self).keys_down() == old(self).keys_down().update(vk as int, false),
            match r {
                Some(e) => crate::hotstate::spec_modifier_up(vk) matches Some(m) && e@
                    == crate::hotstate::SpecKeeEvent::OnModifier(m, false),
                None => crate::hotstate::spec_modifier_up(vk) is None,
            },
    {
        self.state.on_key_up(vk)
    }

    /// A snapshot copy of the subscriber list, as the dispatch worker
    /// takes before delivering an event.
    pub fn snapshot_subscribers(&self) -> (r: Vec<u64>)
        ensures
            r@ == self.subs(),
    {
        let mut r: Vec<u64> = Vec::new();
        let mut i: usize = 0;
        while i < self.subscribers.len()
            invariant
                i <= self.subscribers@.len(),
                r@ == self.subscribers@.take(i as int),
            decreases self.subscribers@.len() - i,
        {
            r.push(self.subscribers[i]);
            i = i + 1;
            proof {
                assert(r@ =~= self.subscribers@.take(i as int));
            }
        }
        proof {
            assert(self.subscribers@.take(i as int) =~= self.subscribers@);
        }
        r
    }
}

} // verus!
