use window::input::{KeyButMask, KeyCode, Modifiers, KEY_BUT_MOD5, KEY_BUT_SHIFT};
use window::os::linux::connection::LinuxConnection;
use window::os::linux::keysyms::{is_control_char, key_code_from_keysym};

#[test]
fn named_keys_translate() {
    assert_eq!(key_code_from_keysym(0xFF0D, 0), KeyCode::Char('\r'));
    assert_eq!(key_code_from_keysym(0xFF09, 0), KeyCode::Char('\t'));
    assert_eq!(key_code_from_keysym(0xFF1B, 0), KeyCode::Char('\u{1b}'));
    assert_eq!(key_code_from_keysym(0xFF08, 0), KeyCode::Char('\u{8}'));
    assert_eq!(key_code_from_keysym(0xFFFF, 0), KeyCode::Char('\u{7f}'));
    assert_eq!(key_code_from_keysym(0xFF51, 0), KeyCode::LeftArrow);
    assert_eq!(key_code_from_keysym(0xFF53, 0), KeyCode::RightArrow);
    assert_eq!(key_code_from_keysym(0xFF52, 0), KeyCode::UpArrow);
    assert_eq!(key_code_from_keysym(0xFF54, 0), KeyCode::DownArrow);
    assert_eq!(key_code_from_keysym(0xFF50, 0), KeyCode::Home);
    assert_eq!(key_code_from_keysym(0xFF57, 0), KeyCode::End);
    assert_eq!(key_code_from_keysym(0xFF55, 0), KeyCode::PageUp);
    assert_eq!(key_code_from_keysym(0xFF56, 0), KeyCode::PageDown);
    assert_eq!(key_code_from_keysym(0xFF63, 0), KeyCode::Insert);
}

#[test]
fn modifier_keys_translate() {
    assert_eq!(key_code_from_keysym(0xFFE1, 0), KeyCode::LeftShift);
    assert_eq!(key_code_from_keysym(0xFFE2, 0), KeyCode::RightShift);
    assert_eq!(key_code_from_keysym(0xFFE3, 0), KeyCode::LeftControl);
    assert_eq!(key_code_from_keysym(0xFFE4, 0), KeyCode::RightControl);
    assert_eq!(key_code_from_keysym(0xFFE9, 0), KeyCode::LeftAlt);
    assert_eq!(key_code_from_keysym(0xFFE7, 0), KeyCode::LeftAlt);
    assert_eq!(key_code_from_keysym(0xFFEA, 0), KeyCode::RightAlt);
    assert_eq!(key_code_from_keysym(0xFFE8, 0), KeyCode::RightAlt);
    assert_eq!(key_code_from_keysym(0xFFEB, 0), KeyCode::LeftWindows);
    assert_eq!(key_code_from_keysym(0xFFEC, 0), KeyCode::RightWindows);
}

#[test]
fn function_keys_translate() {
    for n in 0u32..12 {
        assert_eq!(key_code_from_keysym(0xFFBE + n, 0x61), KeyCode::Function((n + 1) as u8));
    }
    assert_eq!(key_code_from_keysym(0xFFBE, 0), KeyCode::Function(1));
    assert_eq!(key_code_from_keysym(0xFFC9, 0), KeyCode::Function(12));
}

#[test]
fn produced_text_wins_over_keysym() {
    // 'a' keysym with shifted text 'A'
    assert_eq!(key_code_from_keysym(0x61, 0x41), KeyCode::Char('A'));
    // a non-Latin character produced by the layout
    assert_eq!(key_code_from_keysym(0x6c1, 0x0430), KeyCode::Char('\u{430}'));
}

#[test]
fn control_text_falls_back_to_keysym() {
    // Ctrl+a produces U+0001, a control character: the keysym itself is used
    assert_eq!(key_code_from_keysym(0x61, 0x01), KeyCode::Char('a'));
    assert_eq!(key_code_from_keysym(0xE9, 0), KeyCode::Char('\u{e9}'));
    assert_eq!(key_code_from_keysym(0x20, 0), KeyCode::Char(' '));
    assert_eq!(key_code_from_keysym(0x7E, 0), KeyCode::Char('~'));
}

#[test]
fn unknown_keysyms_stay_raw() {
    assert_eq!(key_code_from_keysym(0x1008FF13, 0), KeyCode::RawCode(0x1008FF13));
    assert_eq!(key_code_from_keysym(0x7F, 0), KeyCode::RawCode(0x7F));
    assert_eq!(key_code_from_keysym(0x9F, 0), KeyCode::RawCode(0x9F));
    // a surrogate produced as text is not a character
    assert_eq!(key_code_from_keysym(0x1234, 0xD800), KeyCode::RawCode(0x1234));
    assert_eq!(key_code_from_keysym(0x1234, 0x110000), KeyCode::RawCode(0x1234));
}

#[test]
fn produced_scalar_values_and_control_class() {
    assert_eq!(key_code_from_keysym(0x1234, 0x41), KeyCode::Char('A'));
    assert_eq!(key_code_from_keysym(0x1234, 0x10FFFF), KeyCode::Char('\u{10FFFF}'));
    assert!(is_control_char('\u{0}'));
    assert!(is_control_char('\u{1f}'));
    assert!(is_control_char('\u{7f}'));
    assert!(is_control_char('\u{9f}'));
    assert!(!is_control_char(' '));
    assert!(!is_control_char('\u{a0}'));
}

#[test]
fn keyboard_mapping_selects_group_and_level() {
    let conn = LinuxConnection::create_new();
    let keysyms = vec![0x61u32, 0x41, 0xE4, 0xC4];
    let plain = KeyButMask::empty();
    let shift = KeyButMask { bits: KEY_BUT_SHIFT };
    let group2 = KeyButMask { bits: KEY_BUT_MOD5 };
    let both = KeyButMask { bits: KEY_BUT_MOD5 | KEY_BUT_SHIFT };
    assert_eq!(conn.key_code_from_keyboard_mapping(38, plain, Some(keysyms.clone())), KeyCode::Char('a'));
    assert_eq!(conn.key_code_from_keyboard_mapping(38, shift, Some(keysyms.clone())), KeyCode::Char('A'));
    assert_eq!(conn.key_code_from_keyboard_mapping(38, group2, Some(keysyms.clone())), KeyCode::Char('\u{e4}'));
    assert_eq!(conn.key_code_from_keyboard_mapping(38, both, Some(keysyms)), KeyCode::Char('\u{c4}'));
}

#[test]
fn keyboard_mapping_falls_back() {
    let conn = LinuxConnection::create_new();
    let both = KeyButMask { bits: KEY_BUT_MOD5 | KEY_BUT_SHIFT };
    // only one group: the level in the first group
    assert_eq!(conn.key_code_from_keyboard_mapping(38, both, Some(vec![0x61, 0x41])), KeyCode::Char('A'));
    // only one entry: the first
    assert_eq!(conn.key_code_from_keyboard_mapping(38, both, Some(vec![0xFF0D])), KeyCode::Char('\r'));
    // no entry: keysym 0
    assert_eq!(conn.key_code_from_keyboard_mapping(38, both, Some(vec![])), KeyCode::RawCode(0));
    // failed request: the raw key code
    assert_eq!(conn.key_code_from_keyboard_mapping(38, both, None), KeyCode::RawCode(38));
}

#[test]
fn raw_code_predicate() {
    assert!(KeyCode::RawCode(5).is_raw_code());
    assert!(!KeyCode::Char('x').is_raw_code());
}

#[test]
fn raw_key_choice_prefers_the_keyboard_state() {
    let conn = LinuxConnection::create_new();
    assert_eq!(conn.key_code_from_xkb_state(38, Some((0x61, 0x61))), KeyCode::Char('a'));
    assert_eq!(conn.key_code_from_xkb_state(38, Some((0xFF0D, 0x0D))), KeyCode::Char('\r'));
    assert_eq!(conn.key_code_from_xkb_state(38, None), KeyCode::RawCode(38));
    assert!(conn.needs_keyboard_mapping(KeyCode::RawCode(38)));
    assert!(!conn.needs_keyboard_mapping(KeyCode::Char('a')));
    assert_eq!(conn.select_raw_key(KeyCode::Char('a'), KeyCode::Char('b')), KeyCode::Char('a'));
    assert_eq!(conn.select_raw_key(KeyCode::RawCode(38), KeyCode::Char('b')), KeyCode::Char('b'));
}

#[test]
fn shift_is_folded_into_ascii_letters() {
    let shift_ctrl = Modifiers { shift: true, ctrl: true, alt: false, super_key: false };
    let ctrl = Modifiers { shift: false, ctrl: true, alt: false, super_key: false };
    assert_eq!(KeyCode::Char('q').normalize_shift(shift_ctrl), (KeyCode::Char('Q'), ctrl));
    assert_eq!(KeyCode::Char('Q').normalize_shift(shift_ctrl), (KeyCode::Char('Q'), ctrl));
    assert_eq!(KeyCode::Char('1').normalize_shift(shift_ctrl), (KeyCode::Char('1'), shift_ctrl));
    assert_eq!(KeyCode::Char('\u{e9}').normalize_shift(shift_ctrl), (KeyCode::Char('\u{e9}'), shift_ctrl));
    assert_eq!(KeyCode::Function(3).normalize_shift(shift_ctrl), (KeyCode::Function(3), shift_ctrl));
    assert_eq!(KeyCode::Char('q').normalize_shift(ctrl), (KeyCode::Char('q'), ctrl));
}
