use tsck::dispatch::EventQueue;
use tsck::hotstate::{HotkeyState, KeeEvent, Modifier};
use tsck::kee_manager::TsckKeeManager;
use tsck::kee_windows::get_current_workspace;
use tsck::keeparser::KeeParser;
use tsck::keys::BindingError;

const VK_CTRL_L: u16 = 0xA2;
const VK_SHIFT_L: u16 = 0xA0;
const VK_ALT_L: u16 = 0xA4;
const VK_META_L: u16 = 0x5B;
const VK_A: u16 = 0x41;
const VK_TAB: u16 = 0x09;

fn bindings(list: &[&str]) -> Vec<String> {
    list.iter().map(|s| s.to_string()).collect()
}

#[test]
fn lexer_test_lexer() {
    let input = "M-1 = app::SCRIPT('splittext.js')\nM-2 = app::FUNCCALL('createNewDocument')\nC-S-a = app::MOVEWINDOW\n";
    let kfunc = KeeParser::new(input).parse();
    println!("Parsed {:#?}", kfunc);
}

#[test]
fn binding_file_lines_split_at_equals() {
    let input = "C-S-a = app::SCRIPT('x')\r\nplain text\n\nM-1=workspace::Activate(1)\n";
    let lines = KeeParser::new(input).parse();
    assert_eq!(lines.len(), 4);
    assert_eq!(lines[0].kee, "C-S-a");
    assert_eq!(lines[0].func, "app::SCRIPT('x')");
    assert_eq!(lines[1].kee, "");
    assert_eq!(lines[1].func, "plain text");
    assert_eq!(lines[2].kee, "");
    assert_eq!(lines[2].func, "");
    assert_eq!(lines[3].kee, "M-1");
    assert_eq!(lines[3].func, "workspace::Activate(1)");
}

#[test]
fn matching_needs_the_exact_modifier_set() {
    let mut m = TsckKeeManager::new();
    m.register_hotkeys(&bindings(&["C-S-a"]), 1).unwrap();

    // pressing only ctrl then a: the set {ctrl} is not {ctrl, shift}
    let d = m.on_key_down(VK_CTRL_L);
    assert_eq!(d.events, vec![KeeEvent::OnModifier(Modifier::Ctrl, true)]);
    let d = m.on_key_down(VK_A);
    assert!(d.events.is_empty());
    assert!(!d.swallow);

    // with shift held as well the set matches exactly
    let d = m.on_key_down(VK_SHIFT_L);
    assert_eq!(d.events, vec![KeeEvent::OnModifier(Modifier::Shift, true)]);
    let d = m.on_key_down(VK_A);
    assert_eq!(d.events, vec![KeeEvent::OnKey("C-S-a".to_string())]);
    assert!(!d.swallow);

    // an extra held modifier makes the live set a strict superset: no match
    let d = m.on_key_down(VK_ALT_L);
    assert_eq!(d.events, vec![KeeEvent::OnModifier(Modifier::Alt, true)]);
    let d = m.on_key_down(VK_A);
    assert!(d.events.is_empty());
}

#[test]
fn key_up_releases_and_reports_modifiers() {
    let mut m = TsckKeeManager::new();
    m.register_hotkeys(&bindings(&["C-a"]), 1).unwrap();
    m.on_key_down(VK_CTRL_L);
    assert_eq!(
        m.on_key_up(VK_CTRL_L),
        Some(KeeEvent::OnModifier(Modifier::Ctrl, false))
    );
    assert_eq!(m.on_key_up(VK_A), None);
    // after the release the binding no longer matches
    let d = m.on_key_down(VK_A);
    assert!(d.events.is_empty());
}

#[test]
fn alt_release_pairs_with_its_press() {
    let mut m = TsckKeeManager::new();
    // each physical alt key reports its own press and release
    let d = m.on_key_down(VK_ALT_L);
    assert_eq!(d.events, vec![KeeEvent::OnModifier(Modifier::Alt, true)]);
    assert_eq!(
        m.on_key_up(VK_ALT_L),
        Some(KeeEvent::OnModifier(Modifier::Alt, false))
    );
    let d = m.on_key_down(0xA5);
    assert_eq!(d.events, vec![KeeEvent::OnModifier(Modifier::Alt, true)]);
    assert_eq!(m.on_key_up(0xA5), Some(KeeEvent::OnModifier(Modifier::Alt, false)));
    // the generic alt code is accepted on release as well
    assert_eq!(m.on_key_up(0x12), Some(KeeEvent::OnModifier(Modifier::Alt, false)));
}

#[test]
fn repeated_key_down_reports_the_modifier_once() {
    let mut m = TsckKeeManager::new();
    let d = m.on_key_down(VK_META_L);
    assert_eq!(d.events, vec![KeeEvent::OnModifier(Modifier::Win, true)]);
    let d = m.on_key_down(VK_META_L);
    assert!(d.events.is_empty());
}

#[test]
fn system_sensitive_keys_are_swallowed_on_match() {
    let mut m = TsckKeeManager::new();
    m.register_hotkeys(&bindings(&["M-tab", "C-a"]), 1).unwrap();
    m.on_key_down(VK_META_L);
    let d = m.on_key_down(VK_TAB);
    assert_eq!(d.events, vec![KeeEvent::OnKey("M-tab".to_string())]);
    assert!(d.swallow);
    m.on_key_up(VK_META_L);

    // an ordinary key is never swallowed, even on a match
    m.on_key_down(VK_CTRL_L);
    let d = m.on_key_down(VK_A);
    assert_eq!(d.events, vec![KeeEvent::OnKey("C-a".to_string())]);
    assert!(!d.swallow);
}

#[test]
fn update_replaces_the_whole_table() {
    let mut m = TsckKeeManager::new();
    m.register_hotkeys(&bindings(&["C-a"]), 1).unwrap();
    m.on_key_down(VK_CTRL_L);
    let d = m.on_key_down(VK_A);
    assert_eq!(d.events, vec![KeeEvent::OnKey("C-a".to_string())]);
    m.on_key_up(VK_A);

    m.update_hotkeys(&bindings(&["C-b"]), 2).unwrap();
    assert_eq!(m.snapshot_subscribers(), vec![2]);

    // a key event matching only an old binding produces nothing
    let d = m.on_key_down(VK_A);
    assert!(d.events.is_empty());
    // a key event matching a new binding does
    let d = m.on_key_down(0x42);
    assert_eq!(d.events, vec![KeeEvent::OnKey("C-b".to_string())]);
}

#[test]
fn rejected_registration_changes_nothing() {
    let mut m = TsckKeeManager::new();
    m.register_hotkeys(&bindings(&["C-a"]), 1).unwrap();
    let r = m.register_hotkeys(&bindings(&["C-b", "Q-x"]), 2);
    assert_eq!(r, Err(BindingError::UnknownModifier("Q".to_string())));
    assert_eq!(m.snapshot_subscribers(), vec![1]);

    // the old table still matches, the rejected one was never installed
    m.on_key_down(VK_CTRL_L);
    let d = m.on_key_down(VK_A);
    assert_eq!(d.events, vec![KeeEvent::OnKey("C-a".to_string())]);
    let d = m.on_key_down(0x42);
    assert!(d.events.is_empty());
}

#[test]
fn later_registration_of_the_same_pair_wins() {
    let mut m = TsckKeeManager::new();
    m.register_hotkeys(&bindings(&["C-a"]), 1).unwrap();
    m.register_hotkeys(&bindings(&["C-a"]), 2).unwrap();
    assert_eq!(m.snapshot_subscribers(), vec![1, 2]);
    m.on_key_down(VK_CTRL_L);
    let d = m.on_key_down(VK_A);
    assert_eq!(d.events, vec![KeeEvent::OnKey("C-a".to_string())]);
}

#[test]
fn clear_callbacks_keeps_the_table() {
    let mut m = TsckKeeManager::new();
    m.register_hotkeys(&bindings(&["C-a"]), 1).unwrap();
    m.clear_event_callbacks();
    assert_eq!(m.snapshot_subscribers(), Vec::<u64>::new());
    m.on_key_down(VK_CTRL_L);
    let d = m.on_key_down(VK_A);
    assert_eq!(d.events, vec![KeeEvent::OnKey("C-a".to_string())]);
}

#[test]
fn raw_state_transitions_match_the_manager() {
    let mut s = HotkeyState::new();
    s.insert_binding(0x41, 0x0002, "C-a".to_string());
    assert_eq!(s.lookup(0x41, 0x0002), Some("C-a".to_string()));
    assert_eq!(s.lookup(0x41, 0x0004), None);
    let d = s.on_key_down(VK_CTRL_L);
    assert_eq!(d.events, vec![KeeEvent::OnModifier(Modifier::Ctrl, true)]);
    let d = s.on_key_down(VK_A);
    assert_eq!(d.events, vec![KeeEvent::OnKey("C-a".to_string())]);
    s.clear();
    assert_eq!(s.lookup(0x41, 0x0002), None);
}

#[test]
fn events_are_delivered_first_in_first_out() {
    let mut q = EventQueue::new();
    let a = KeeEvent::OnKey("A".to_string());
    let b = KeeEvent::OnKey("B".to_string());
    q.push(a.clone());
    q.push(b.clone());
    assert_eq!(q.len(), 2);
    assert_eq!(q.pop_front(), Some(a));
    assert_eq!(q.pop_front(), Some(b));
    assert_eq!(q.pop_front(), None);
}

#[test]
fn test_calc() {
    let h: i32 = (-8) / 1440;
    println!("{}", h.abs());
}

#[test]
fn workspace_bands_follow_the_window_bottom() {
    assert_eq!(get_current_workspace(0, 1408), 0);
    assert_eq!(get_current_workspace(0, 0), 0);
    assert_eq!(get_current_workspace(-8, 1408), 0);
    assert_eq!(get_current_workspace(1500, 100), 1);
    assert_eq!(get_current_workspace(-3000, 100), 2);
}
