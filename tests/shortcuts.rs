use app_utility::action::Action;
use app_utility::keys::{Key, KeyboardKeys};
use app_utility::settings::{EditState, ShortcutSettings};
use app_utility::shortcut::{
    AllShortcuts, HeldModifiers, KeyInput, KeyPress, KeyboardShortcut, Modifiers, ShortCut,
};

fn ctrl(key: Key) -> KeyboardShortcut {
    KeyboardShortcut { modifiers: Modifiers { alt: false, shift: false, command: true }, key }
}

/// A press of `key` with Ctrl held, which also sets Command off a Mac.
fn press(key: Key) -> KeyPress {
    KeyPress { modifiers: HeldModifiers { alt: false, shift: false, ctrl: true, command: true }, key }
}

#[test]
fn modifiers_must_match() {
    let mut table = AllShortcuts::default();
    let shift = Modifiers { alt: false, shift: true, command: false };
    table.add_binding(Some(Action::SelectArea), Some(Key::A), shift, "Area".to_string());
    let ctrl_shift_a = KeyPress {
        modifiers: HeldModifiers { alt: false, shift: true, ctrl: true, command: false },
        key: Key::A,
    };
    let mut input = KeyInput::new(vec![ctrl_shift_a, press(Key::A)]);
    assert_eq!(table.listener(&mut input, false), None);
    let shift_a = KeyPress {
        modifiers: HeldModifiers { alt: false, shift: true, ctrl: false, command: false },
        key: Key::A,
    };
    let mut input = KeyInput::new(vec![shift_a]);
    assert_eq!(table.listener(&mut input, false), Some(Action::SelectArea));
    let mac_cmd_s = KeyPress {
        modifiers: HeldModifiers { alt: false, shift: false, ctrl: false, command: true },
        key: Key::S,
    };
    let mut input = KeyInput::new(vec![mac_cmd_s]);
    assert_eq!(table.listener(&mut input, true), Some(Action::Save));
}

#[test]
fn ctrl_n_fires_once_on_home_page() {
    let table = AllShortcuts::default();
    let mut input = KeyInput::new(vec![press(Key::N)]);
    assert_eq!(table.listener(&mut input, false), Some(Action::NewScreenshot));
    assert_eq!(table.listener(&mut input, false), None);
}

#[test]
fn ctrl_n_does_not_fire_while_viewing() {
    let table = AllShortcuts::default();
    let mut input = KeyInput::new(vec![press(Key::N)]);
    assert_eq!(table.listener(&mut input, true), None);
    assert!(input.is_pressed(&ctrl(Key::N)));
}

#[test]
fn global_actions_fire_in_both_states() {
    let table = AllShortcuts::default();
    let mut input = KeyInput::new(vec![press(Key::Q)]);
    assert_eq!(table.listener(&mut input, true), Some(Action::Settings));
    let mut input = KeyInput::new(vec![press(Key::W)]);
    assert_eq!(table.listener(&mut input, false), Some(Action::Close));
}

#[test]
fn disabled_binding_never_fires() {
    let mut table = AllShortcuts::default();
    table.set_enabled(&ctrl(Key::S), false);
    let mut input = KeyInput::new(vec![press(Key::S)]);
    assert_eq!(table.listener(&mut input, true), None);
    table.set_enabled(&ctrl(Key::S), true);
    assert_eq!(table.listener(&mut input, true), Some(Action::Save));
}

#[test]
fn first_match_in_table_order_wins() {
    let table = AllShortcuts::default();
    let mut input = KeyInput::new(vec![press(Key::S), press(Key::C), press(Key::N)]);
    assert_eq!(table.listener(&mut input, true), Some(Action::Copy));
    assert_eq!(table.listener(&mut input, true), Some(Action::Save));
    assert_eq!(table.listener(&mut input, true), None);
}

#[test]
fn add_duplicate_binding_refused() {
    let mut table = AllShortcuts::default();
    let before = table.vec.len();
    let r = table.add_binding(
        Some(Action::SelectArea),
        Some(Key::C),
        Modifiers { alt: false, shift: false, command: true },
        "Select an area".to_string(),
    );
    assert!(r.is_none());
    assert_eq!(table.vec.len(), before);
}

#[test]
fn add_binding_rules() {
    let mut table = AllShortcuts::default();
    let shift = Modifiers { alt: false, shift: true, command: false };
    let none = Modifiers { alt: false, shift: false, command: false };
    assert!(table.add_binding(None, Some(Key::A), shift, "x".to_string()).is_none());
    assert!(table.add_binding(Some(Action::SelectArea), None, shift, "x".to_string()).is_none());
    assert!(table.add_binding(Some(Action::SelectArea), Some(Key::A), none, "x".to_string()).is_none());
    assert_eq!(table.vec.len(), 12);
    let b = table
        .add_binding(Some(Action::SelectArea), Some(Key::A), shift, "Select an area".to_string())
        .unwrap();
    assert_eq!(b.name, "SelectArea");
    assert_eq!(b.description, "Select an area");
    assert!(b.is_active());
    assert!(!b.while_viewing_image());
    assert_eq!(b.action(), Action::SelectArea);
    assert_eq!(table.vec.len(), 13);
    assert_eq!(table.vec[12].shortcut, KeyboardShortcut { modifiers: shift, key: Key::A });
}

#[test]
fn remove_binding_removes_first_match() {
    let mut table = AllShortcuts::default();
    table.remove_binding(&ctrl(Key::H));
    assert_eq!(table.vec.len(), 11);
    assert_eq!(table.vec[1].action(), Action::NewScreenshot);
    table.remove_binding(&ctrl(Key::F5));
    assert_eq!(table.vec.len(), 11);
}

#[test]
fn duplicates_detected() {
    let mut table = AllShortcuts::default();
    assert!(!table.has_duplicate_shortcuts());
    table.vec[1].shortcut = ctrl(Key::C);
    assert!(table.has_duplicate_shortcuts());
}

#[test]
fn disabled_duplicate_still_conflicts() {
    let mut table = AllShortcuts::default();
    table.vec[3].shortcut = ctrl(Key::Z);
    table.set_enabled(&ctrl(Key::Z), false);
    assert!(table.has_duplicate_shortcuts());
}

#[test]
fn default_table_is_default() {
    let mut table = AllShortcuts::default();
    assert!(AllShortcuts::is_default(&table));
    table.vec[0].description = "changed".to_string();
    assert!(!AllShortcuts::is_default(&table));
}

#[test]
fn default_table_contents() {
    let table = AllShortcuts::default();
    assert_eq!(table.vec.len(), 12);
    assert!(!table.show);
    assert_eq!(table.vec[0].name, "Copy");
    assert_eq!(table.vec[0].description, "Copy to clipboard");
    assert_eq!(table.vec[0].shortcut, ctrl(Key::C));
    assert_eq!(table.vec[11].action(), Action::Settings);
    assert_eq!(table.all_keys.len(), 73);
    assert_eq!(table.all_keys[0], "A");
    assert_eq!(table.all_keys[36], "Down");
    assert_eq!(table.all_keys[72], "F20");
}

#[test]
fn key_names_parse_back() {
    assert_eq!(ShortCut::from_str_to_key("Down"), Some(Key::ArrowDown));
    assert_eq!(ShortCut::from_str_to_key("Plus"), Some(Key::PlusEquals));
    assert_eq!(ShortCut::from_str_to_key("7"), Some(Key::Num7));
    assert_eq!(ShortCut::from_str_to_key("F13"), Some(Key::F13));
    assert_eq!(ShortCut::from_str_to_key("Q"), Some(Key::Q));
    assert_eq!(ShortCut::from_str_to_key("q"), None);
    assert_eq!(ShortCut::from_str_to_key(""), None);
    assert_eq!(ShortCut::from_str_to_key("F21"), None);
    for k in KeyboardKeys::default().keys {
        assert_eq!(ShortCut::from_str_to_key(k.name()), Some(k));
    }
}

#[test]
fn key_catalog_order() {
    let keys = KeyboardKeys::default().keys;
    assert_eq!(keys.len(), 73);
    assert_eq!(keys[0], Key::A);
    assert_eq!(keys[26], Key::Num0);
    assert_eq!(keys[52], Key::PlusEquals);
    assert_eq!(KeyboardKeys::all_keys()[52], "Plus");
}

#[test]
fn consuming_removes_every_press() {
    let mut input = KeyInput::new(vec![press(Key::A), press(Key::B), press(Key::A)]);
    assert!(input.consume_shortcut(&ctrl(Key::A)));
    assert!(!input.is_pressed(&ctrl(Key::A)));
    assert!(input.is_pressed(&ctrl(Key::B)));
    assert!(!input.consume_shortcut(&ctrl(Key::A)));
}

#[test]
fn settings_refuse_conflicting_save() {
    let mut s = ShortcutSettings::new();
    assert!(!s.save());
    s.open();
    assert_eq!(s.state(), EditState::Editing);
    s.candidate_mut().vec[2].shortcut = ctrl(Key::C);
    assert!(!s.save());
    assert_eq!(s.state(), EditState::Rejected);
    assert_eq!(s.live().vec[2].shortcut, ctrl(Key::N));
    s.dismiss_error();
    assert_eq!(s.state(), EditState::Editing);
    s.candidate_mut().vec[2].shortcut = ctrl(Key::F2);
    assert!(s.save());
    assert_eq!(s.state(), EditState::Idle);
    assert_eq!(s.live().vec[2].shortcut, ctrl(Key::F2));
}

#[test]
fn settings_discard_restarts_from_live() {
    let mut s = ShortcutSettings::new();
    s.open();
    s.candidate_mut().vec[0].description = "edited".to_string();
    s.close();
    assert_eq!(s.live().vec[0].description, "Copy to clipboard");
    s.open();
    assert_eq!(s.candidate().vec[0].description, "Copy to clipboard");
}

#[test]
fn action_metadata() {
    assert_eq!(Action::NewScreenshot.to_string(), "NewScreenshot");
    assert_eq!(Action::SelectFullscreen.to_string(), "SelectFullscreen");
    assert!(Action::Undo.can_be_performed_during_image_view());
    assert!(!Action::Settings.can_be_performed_during_image_view());
    assert!(!Action::Capture.can_be_performed_during_image_view());
    assert!(!Action::NewScreenshot.can_be_performed_during_image_view());
    assert!(Action::Close.is_global());
    assert!(!Action::Save.is_global());
}
