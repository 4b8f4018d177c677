use tapedeck::input::{
    click_events, key_press_events, parse_shortcut, shortcut_events, type_events, InputBackend,
    InputError, WtypeAdapter,
};
use tapedeck::keys::{
    ascii_key, keyboard_codes, parse_key_name, BTN_LEFT, KEY_1, KEY_A, KEY_B, KEY_Q, KEY_Z, KEY_ENTER, KEY_F5,
    KEY_LEFTCTRL, KEY_LEFTSHIFT, KEY_PAGEUP, KEY_SPACE,
};
use tapedeck::script::ClickType;

#[test]
fn parse_single_modifier() {
    let (mods, key) = parse_shortcut("Ctrl+S").unwrap();
    assert_eq!(mods, vec!["ctrl"]);
    assert_eq!(key, "s");
}

#[test]
fn parse_multi_modifier() {
    let (mods, key) = parse_shortcut("Ctrl+Shift+T").unwrap();
    assert_eq!(mods, vec!["ctrl", "shift"]);
    assert_eq!(key, "t");
}

#[test]
fn parse_case_insensitive_aliases() {
    let (mods, key) = parse_shortcut("super+ALT+f4").unwrap();
    assert_eq!(mods, vec!["super", "alt"]);
    assert_eq!(key, "f4");
}

#[test]
fn parse_invalid_modifier_rejected() {
    let err = parse_shortcut("Fn+Ctrl+Q").unwrap_err();
    assert!(err.message().contains("不支援的修飾鍵"));
}

#[test]
fn parse_bare_key_without_modifier_rejected() {
    let err = parse_shortcut("S").unwrap_err();
    assert!(err.message().contains("格式錯誤"));
}

#[test]
fn mouse_unavailable_by_default() {
    let adapter = WtypeAdapter::new(None);
    assert!(adapter.mouse_click(ClickType::Left).is_err());
    assert!(adapter.mouse_move(10, 20).is_err());
}

#[test]
fn ascii_mapping_basic() {
    assert_eq!(ascii_key('a'), Some((KEY_A, false)));
    assert_eq!(ascii_key('A'), Some((KEY_A, true)));
    assert_eq!(ascii_key('b'), Some((KEY_B, false)));
    assert_eq!(KEY_B, 48);
    assert_eq!(ascii_key('q'), Some((KEY_Q, false)));
    assert_eq!(ascii_key('Z'), Some((KEY_Z, true)));
    assert_eq!(ascii_key('m'), Some((50, false)));
    assert_eq!(ascii_key('1'), Some((KEY_1, false)));
    assert_eq!(ascii_key('!'), Some((KEY_1, true)));
    assert_eq!(ascii_key(' '), Some((KEY_SPACE, false)));
    assert_eq!(ascii_key('\n'), None);
}

#[test]
fn named_key_parsing() {
    assert_eq!(parse_key_name("Enter").unwrap(), (KEY_ENTER, false));
    assert_eq!(parse_key_name("F5").unwrap(), (KEY_F5, false));
    assert!(parse_key_name("Ctrl").is_err());
    assert_eq!(parse_key_name("PageUp").unwrap(), (KEY_PAGEUP, false));
}

// ── own tests ──

#[test]
fn shortcut_error_texts() {
    assert_eq!(
        parse_shortcut("S").unwrap_err().message(),
        "Shortcut 格式錯誤：「S」（預期如 Ctrl+S，單鍵請用 Key）"
    );
    assert_eq!(
        parse_shortcut("Fn+Ctrl+Q").unwrap_err(),
        InputError::ShortcutModifier("fn".to_owned())
    );
    assert_eq!(
        parse_shortcut(" Control + Win + x ").unwrap(),
        (vec!["ctrl".to_owned(), "super".to_owned()], "x".to_owned())
    );
}

#[test]
fn backend_choice_and_names() {
    assert_eq!(InputBackend::detect(true), InputBackend::UinputNative);
    assert_eq!(InputBackend::detect(false), InputBackend::Wtype);
    assert_eq!(InputBackend::Wtype.describe(), "Wtype (Keyboard only)");
    assert_eq!(InputBackend::UinputNative.describe(), "UinputNative (Kernel Level Input)");
}

#[test]
fn wtype_arguments() {
    let w = WtypeAdapter::new(Some("/opt/wtype".to_owned()));
    assert_eq!(w.wtype, "/opt/wtype");
    assert_eq!(WtypeAdapter::new(None).wtype, "wtype");
    assert_eq!(w.key_type_args("hi"), vec!["hi"]);
    assert_eq!(w.key_press_args("Down", 2), vec!["-P", "Down", "-p", "Down", "-P", "Down", "-p", "Down"]);
    assert_eq!(w.key_press_args("Tab", 0), vec!["-P", "Tab", "-p", "Tab"]);
    assert_eq!(
        w.shortcut_args("Ctrl+Shift+S").unwrap(),
        vec!["-M", "ctrl", "-M", "shift", "s", "-m", "shift", "-m", "ctrl"]
    );
    assert_eq!(
        w.mouse_move(1, 2).unwrap_err().message(),
        "滑鼠注入未支援：/dev/uinput 不可寫（wtype 後端僅鍵盤）"
    );
}

#[test]
fn uinput_event_sequences() {
    let (ev, bad) = type_events("aB");
    assert_eq!(
        ev,
        vec![(KEY_A, 1), (KEY_A, 0), (KEY_LEFTSHIFT, 1), (KEY_B, 1), (KEY_B, 0), (KEY_LEFTSHIFT, 0)]
    );
    assert_eq!(bad, None);
    let (ev, bad) = type_events("a\u{e9}b");
    assert_eq!(ev, vec![(KEY_A, 1), (KEY_A, 0)]);
    assert_eq!(bad, Some('\u{e9}'));
    assert_eq!(
        InputError::UnsupportedChar('\u{e9}').message(),
        "Type 不支援的字元「\u{e9}」（uinput ASCII 子集）"
    );
    assert_eq!(key_press_events("Enter", 2).unwrap(), vec![(KEY_ENTER, 1), (KEY_ENTER, 0), (KEY_ENTER, 1), (KEY_ENTER, 0)]);
    assert!(key_press_events("Hyper", 1).is_err());
    assert_eq!(
        shortcut_events("Ctrl+a").unwrap(),
        vec![(KEY_LEFTCTRL, 1), (KEY_LEFTCTRL, 0), (KEY_A, 1), (KEY_A, 0), (KEY_LEFTCTRL, 1), (KEY_LEFTCTRL, 0)]
    );
    assert_eq!(click_events(ClickType::Left), vec![(BTN_LEFT, 1), (BTN_LEFT, 0)]);
}

#[test]
fn unknown_key_message() {
    assert_eq!(
        parse_key_name("Ctrl").unwrap_err().message(),
        "Key 不支援的按鍵名稱「Ctrl」（uinput 子集；wtype 後端可完整支援）"
    );
    assert_eq!(parse_key_name("F13").unwrap_err(), InputError::UnknownKey("F13".to_owned()));
}

#[test]
fn keyboard_registers_letters_and_modifiers() {
    let codes = keyboard_codes();
    assert!(codes.contains(&KEY_A));
    assert!(codes.contains(&KEY_ENTER));
    assert!(codes.contains(&KEY_LEFTCTRL));
    assert_eq!(codes.len(), 95 + 26 + 4);
}

#[test]
fn no_key_left_down_after_injection() {
    let mut all = shortcut_events("Ctrl+Shift+Alt+Super+q").unwrap();
    all.extend(type_events("Hello, World!").0);
    all.extend(key_press_events("F11", 3).unwrap());
    for code in all.iter().map(|e| e.0) {
        let down = all.iter().filter(|e| e.0 == code && e.1 == 1).count();
        let up = all.iter().filter(|e| e.0 == code && e.1 == 0).count();
        assert_eq!(down, up, "key {code}");
    }
}
