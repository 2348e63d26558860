use crossterm_keybind::{DisplayFormat, Error, KeyBinding, KeyCode, Modifier};

/// Chord configs: with Control, with Alternate, without modifier, only a
/// modifier (sentinel code), and a named key.
fn keybinding_configs() -> (KeyBinding, KeyBinding, KeyBinding, KeyBinding, KeyBinding) {
    (
        KeyBinding { code: KeyCode::Char('c'), modifiers: Modifier::Control },
        KeyBinding { code: KeyCode::Char('c'), modifiers: Modifier::Alt },
        KeyBinding { code: KeyCode::Char('Q'), modifiers: Modifier::NoModifier },
        KeyBinding { code: KeyCode::Null, modifiers: Modifier::Alt },
        KeyBinding { code: KeyCode::Esc, modifiers: Modifier::NoModifier },
    )
}

#[test]
fn ser_keybinding_config() {
    let (t_with_ctrl_modifier, t_with_alt_modifier, t, only_modifiers, t_with_esc) =
        keybinding_configs();

    let serialized = format!("kb = \"{}\"\n", t_with_ctrl_modifier.serialize().unwrap());
    assert_eq!(serialized, "kb = \"Control+c\"\n");

    let serialized = format!("kb = \"{}\"\n", t_with_alt_modifier.serialize().unwrap());
    assert_eq!(serialized, "kb = \"Alternate+c\"\n");

    let serialized = format!("kb = \"{}\"\n", t.serialize().unwrap());
    assert_eq!(serialized, "kb = \"Q\"\n");

    let serialized = only_modifiers.serialize();
    assert_eq!(
        serialized,
        Err(Error::SerializeError(String::from("Unsupported KeyCode: Null")))
    );

    let serialized = format!("kb = \"{}\"\n", t_with_esc.serialize().unwrap());
    assert_eq!(serialized, "kb = \"Esc\"\n");
}

#[test]
fn de_keybinding_config() {
    let (t_with_ctrl_modifier, t_with_alt_modifier, t, _only_modifiers, t_with_esc) =
        keybinding_configs();

    let serialized = t_with_ctrl_modifier.serialize().unwrap();
    let desered_t = KeyBinding::parse(serialized.as_str()).unwrap();
    assert_eq!(desered_t.code, t_with_ctrl_modifier.code);
    assert_eq!(desered_t.modifiers, t_with_ctrl_modifier.modifiers);

    let serialized = t_with_alt_modifier.serialize().unwrap();
    let desered_t = KeyBinding::parse(serialized.as_str()).unwrap();
    assert_eq!(desered_t.code, t_with_alt_modifier.code);
    assert_eq!(desered_t.modifiers, t_with_alt_modifier.modifiers);

    let serialized = t.serialize().unwrap();
    let desered_t = KeyBinding::parse(serialized.as_str()).unwrap();
    assert_eq!(desered_t.code, t.code);
    assert_eq!(desered_t.modifiers, t.modifiers);

    let serialized = t_with_esc.serialize().unwrap();
    let desered_t = KeyBinding::parse(serialized.as_str()).unwrap();
    assert_eq!(desered_t.code, t_with_esc.code);
    assert_eq!(desered_t.modifiers, t_with_esc.modifiers);
}

#[test]
fn fmt_keybinding_config() {
    let (t_with_modifiers, _t_with_alt, _t, _only_modifiers, t_with_esc) = keybinding_configs();

    assert_eq!(t_with_modifiers.display(&DisplayFormat::Symbols), "^c");
    assert_eq!(t_with_esc.display(&DisplayFormat::Symbols), "\u{238b}");

    assert_eq!(t_with_modifiers.display(&DisplayFormat::Full), "Control+c");
    assert_eq!(t_with_modifiers.display(&DisplayFormat::Abbreviation), "Ctrl+c");
    assert_eq!(t_with_esc.display(&DisplayFormat::Full), "Esc");
}

#[test]
fn ser_keybind_config() {
    let (t_with_modifiers, _t_with_alt, t, only_modifiers, t_with_esc) = keybinding_configs();

    let serialized = format!("kb = \"{}\"\n", t_with_modifiers.serialize().unwrap());
    assert_eq!(serialized, "kb = \"Control+c\"\n");

    let serialized = format!("kb = \"{}\"\n", t.serialize().unwrap());
    assert_eq!(serialized, "kb = \"Q\"\n");

    let serialized = only_modifiers.serialize();
    assert_eq!(
        serialized,
        Err(Error::SerializeError(String::from("Unsupported KeyCode: Null")))
    );

    let serialized = format!("kb = \"{}\"\n", t_with_esc.serialize().unwrap());
    assert_eq!(serialized, "kb = \"Esc\"\n");
}

#[test]
fn de_keybind_config() {
    let (t_with_modifiers, _t_with_alt, t, _only_modifiers, t_with_esc) = keybinding_configs();

    let serialized = t_with_modifiers.serialize().unwrap();
    let desered_t = KeyBinding::parse(serialized.as_str()).unwrap();
    assert_eq!(desered_t.code, t_with_modifiers.code);
    assert_eq!(desered_t.modifiers, t_with_modifiers.modifiers);

    let serialized = t.serialize().unwrap();
    let desered_t = KeyBinding::parse(serialized.as_str()).unwrap();
    assert_eq!(desered_t.code, t.code);
    assert_eq!(desered_t.modifiers, t.modifiers);

    let serialized = t_with_esc.serialize().unwrap();
    let desered_t = KeyBinding::parse(serialized.as_str()).unwrap();
    assert_eq!(desered_t.code, t_with_esc.code);
    assert_eq!(desered_t.modifiers, t_with_esc.modifiers);
}

#[test]
fn round_trip_named_and_media_keys() {
    let codes = vec![
        KeyCode::Backspace,
        KeyCode::Enter,
        KeyCode::Left,
        KeyCode::Right,
        KeyCode::Up,
        KeyCode::Down,
        KeyCode::Home,
        KeyCode::End,
        KeyCode::PageUp,
        KeyCode::PageDown,
        KeyCode::Tab,
        KeyCode::BackTab,
        KeyCode::Delete,
        KeyCode::Insert,
        KeyCode::F(1),
        KeyCode::F(12),
        KeyCode::Esc,
        KeyCode::CapsLock,
        KeyCode::ScrollLock,
        KeyCode::NumLock,
        KeyCode::PrintScreen,
        KeyCode::Pause,
        KeyCode::Menu,
        KeyCode::KeypadBegin,
        KeyCode::Media(crossterm_keybind::MediaKeyCode::Play),
        KeyCode::Media(crossterm_keybind::MediaKeyCode::PlayPause),
        KeyCode::Media(crossterm_keybind::MediaKeyCode::TrackPrevious),
        KeyCode::Media(crossterm_keybind::MediaKeyCode::MuteVolume),
        KeyCode::Char('x'),
        KeyCode::Char('?'),
    ];
    let modifiers = vec![
        Modifier::NoModifier,
        Modifier::Shift,
        Modifier::Control,
        Modifier::Alt,
        Modifier::Super,
        Modifier::Hyper,
        Modifier::Meta,
    ];
    for code in &codes {
        for m in &modifiers {
            let kb = KeyBinding { code: *code, modifiers: *m };
            let text = kb.serialize().unwrap();
            let back = KeyBinding::parse(text.as_str()).unwrap();
            assert_eq!(back, kb);
        }
    }
}

#[test]
fn round_trip_plus_key_with_modifier() {
    let kb = KeyBinding { code: KeyCode::Char('+'), modifiers: Modifier::Control };
    let text = kb.serialize().unwrap();
    assert_eq!(text, "Control++");
    assert_eq!(KeyBinding::parse(text.as_str()).unwrap(), kb);
}

#[test]
fn parse_trims_whitespace() {
    let kb = KeyBinding::parse("  Esc  ").unwrap();
    assert_eq!(kb.code, KeyCode::Esc);
    assert_eq!(kb.modifiers, Modifier::NoModifier);

    let kb = KeyBinding::parse("Control+ c ").unwrap();
    assert_eq!(kb.code, KeyCode::Char('c'));
    assert_eq!(kb.modifiers, Modifier::Control);
}

#[test]
fn parse_modifiers_case_insensitive() {
    let kb = KeyBinding::parse("ctrl+c").unwrap();
    assert_eq!(kb.modifiers, Modifier::Control);
    let kb = KeyBinding::parse("SHIFT+a").unwrap();
    assert_eq!(kb.modifiers, Modifier::Shift);
    let kb = KeyBinding::parse("alternate+x").unwrap();
    assert_eq!(kb.modifiers, Modifier::Alt);
    let kb = KeyBinding::parse("alt+x").unwrap();
    assert_eq!(kb.modifiers, Modifier::Alt);
    let kb = KeyBinding::parse("super+s").unwrap();
    assert_eq!(kb.modifiers, Modifier::Super);
    let kb = KeyBinding::parse("hyper+h").unwrap();
    assert_eq!(kb.modifiers, Modifier::Hyper);
    let kb = KeyBinding::parse("meta+m").unwrap();
    assert_eq!(kb.modifiers, Modifier::Meta);
}

#[test]
fn parse_unknown_modifier_fails() {
    let r = KeyBinding::parse("Win+c");
    match r {
        Err(Error::ParseError(m)) => {
            assert!(m.contains("KeyModifiers"));
            assert!(m.contains("Shift"));
            assert!(m.contains("Meta"));
        }
        other => panic!("expected a modifier parse error, got {:?}", other),
    }
}

#[test]
fn parse_unknown_keycode_fails() {
    for bad in ["F13", "F0", "NoSuchKey", "", "Control+", "   "] {
        let r = KeyBinding::parse(bad);
        match r {
            Err(Error::ParseError(m)) => {
                assert!(m.contains("KeyCode"), "wrong message for {:?}: {}", bad, m);
            }
            other => panic!("expected a key-code parse error for {:?}, got {:?}", bad, other),
        }
    }
}

#[test]
fn parse_rejects_modifier_combination() {
    // The single-modifier model: a second modifier word is not a key code.
    let r = KeyBinding::parse("Control+Shift+c");
    assert!(matches!(r, Err(Error::ParseError(_))));
}

#[test]
fn display_format_table() {
    let kb = KeyBinding { code: KeyCode::Char('c'), modifiers: Modifier::Control };
    assert_eq!(kb.display(&DisplayFormat::Symbols), "^c");
    assert_eq!(kb.display(&DisplayFormat::Full), "Control+c");
    assert_eq!(kb.display(&DisplayFormat::Abbreviation), "Ctrl+c");
    assert_eq!(kb.display(&DisplayFormat::Debug), "\"Control+c\"");
}

#[test]
fn display_sentinel_never_empty() {
    let kb = KeyBinding { code: KeyCode::Null, modifiers: Modifier::NoModifier };
    assert_eq!(kb.display(&DisplayFormat::Symbols), "?");
    assert_eq!(kb.display(&DisplayFormat::Full), "?");
    assert_eq!(kb.display(&DisplayFormat::Debug), "\"?\"");
}

#[test]
fn serialize_function_keys() {
    let kb = KeyBinding { code: KeyCode::F(12), modifiers: Modifier::NoModifier };
    assert_eq!(kb.serialize().unwrap(), "F12");
    // F tokens past F12 serialize but are not part of the parse grammar.
    let kb = KeyBinding { code: KeyCode::F(13), modifiers: Modifier::NoModifier };
    assert_eq!(kb.serialize().unwrap(), "F13");
    assert!(KeyBinding::parse("F13").is_err());
}
