use tsck::keys::{BindingError, Modifiers, TsckKeeBinding};
use tsck::keytable::TKey;

#[test]
fn parse_ctrl_shift_a() {
    let b = TsckKeeBinding::parse("C-S-a").unwrap();
    assert_eq!(b.key, TKey::A);
    assert_eq!(
        b.modifiers,
        Modifiers { ctrl: true, shift: true, alt: false, meta: false }
    );
}

#[test]
fn parse_function_key() {
    let b = TsckKeeBinding::parse("f5").unwrap();
    assert_eq!(b.key, TKey::F5);
    assert_eq!(
        b.modifiers,
        Modifiers { ctrl: false, shift: false, alt: false, meta: false }
    );
}

#[test]
fn parse_rejects_empty_and_unknown_modifier() {
    assert_eq!(TsckKeeBinding::parse(""), Err(BindingError::Empty));
    assert_eq!(
        TsckKeeBinding::parse("Q-a"),
        Err(BindingError::UnknownModifier("Q".to_string()))
    );
}

#[test]
fn parse_rejects_unknown_key() {
    assert_eq!(
        TsckKeeBinding::parse("C-zzz"),
        Err(BindingError::UnknownKey("zzz".to_string()))
    );
}

#[test]
fn parse_key_is_case_insensitive() {
    let b = TsckKeeBinding::parse("F5").unwrap();
    assert_eq!(b.key, TKey::F5);
    let b = TsckKeeBinding::parse("C-ESCAPE").unwrap();
    assert_eq!(b.key, TKey::Escape);
    assert!(b.modifiers.ctrl);
}

#[test]
fn parse_meta_tags_and_aliases() {
    let m = TsckKeeBinding::parse("M-1").unwrap();
    assert_eq!(m.key, TKey::Num1);
    assert!(m.modifiers.meta);
    let w = TsckKeeBinding::parse("W-1").unwrap();
    assert_eq!(w.modifiers, m.modifiers);
    let esc = TsckKeeBinding::parse("esc").unwrap();
    assert_eq!(esc.key, TKey::Escape);
    let enter = TsckKeeBinding::parse("enter").unwrap();
    assert_eq!(enter.key, TKey::Return);
}

#[test]
fn duplicate_modifier_tags_are_idempotent() {
    let b = TsckKeeBinding::parse("C-C-a").unwrap();
    assert_eq!(
        b.modifiers,
        Modifiers { ctrl: true, shift: false, alt: false, meta: false }
    );
}

#[test]
fn key_codes_match_the_platform_table() {
    assert_eq!(TsckKeeBinding::parse("a").unwrap().to_tk(), 0x41);
    assert_eq!(TsckKeeBinding::parse("f5").unwrap().to_tk(), 0x74);
    assert_eq!(TsckKeeBinding::parse("tab").unwrap().to_tk(), 0x09);
    assert_eq!(TsckKeeBinding::parse("escape").unwrap().to_tk(), 0x1B);
    assert_eq!(TsckKeeBinding::parse("meta").unwrap().to_tk(), 0x5B);
    assert_eq!(TsckKeeBinding::parse("kp0").unwrap().to_tk(), 0x60);
    assert_eq!(TsckKeeBinding::parse("volumeup").unwrap().to_tk(), 0xAF);
}

#[test]
fn modifier_flags_pack_each_bit() {
    let none = Modifiers::new();
    assert_eq!(none.to_flags(), 0);
    let b = TsckKeeBinding::parse("C-S-A-M-a").unwrap();
    assert_eq!(b.modifiers.to_flags(), 0x0002 + 0x0004 + 0x0001 + 0x0008);
    let c = TsckKeeBinding::parse("C-a").unwrap();
    assert_eq!(c.modifiers.to_flags(), 0x0002);
}
