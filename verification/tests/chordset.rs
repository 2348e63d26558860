use crossterm_keybind::{DisplayFormat, KeyBinding, KeyBindings, KeyCode, Modifier};

fn keybindings_config() -> KeyBindings {
    KeyBindings(vec![
        KeyBinding { code: KeyCode::Char('c'), modifiers: Modifier::Control },
        KeyBinding { code: KeyCode::Char('Q'), modifiers: Modifier::NoModifier },
    ])
}

#[test]
fn ser_keybindings_config() {
    let kbs = keybindings_config();
    let serialized = format!(
        "kbs = [\"{}\", \"{}\"]\n",
        kbs.0[0].serialize().unwrap(),
        kbs.0[1].serialize().unwrap()
    );
    assert_eq!(serialized, "kbs = [\"Control+c\", \"Q\"]\n");
}

#[test]
fn fmt_keybindings_config() {
    let kbs = keybindings_config();
    assert_eq!(kbs.display(&DisplayFormat::Symbols), "^c|Q");
    assert_eq!(kbs.display(&DisplayFormat::Full), "Control+c | Q");
    assert_eq!(kbs.display(&DisplayFormat::Abbreviation), "Ctrl+c | Q");
}

#[test]
fn fmt_keybindings_debug_style() {
    // Debug joins the quoted config spellings with the same `|` as Symbols.
    let kbs = keybindings_config();
    assert_eq!(kbs.display(&DisplayFormat::Debug), "\"Control+c\"|\"Q\"");
    let empty = KeyBindings(vec![]);
    assert_eq!(empty.display(&DisplayFormat::Debug), "");
    assert_eq!(empty.display(&DisplayFormat::Symbols), "");
}

#[test]
fn display_is_idempotent() {
    let kbs = keybindings_config();
    for f in [
        DisplayFormat::Symbols,
        DisplayFormat::Debug,
        DisplayFormat::Full,
        DisplayFormat::Abbreviation,
    ] {
        assert_eq!(kbs.display(&f), kbs.display(&f));
    }
}

#[test]
fn match_any_exact_structural() {
    let kbs = keybindings_config();
    assert!(kbs.match_any(&KeyBinding {
        code: KeyCode::Char('c'),
        modifiers: Modifier::Control
    }));
    assert!(kbs.match_any(&KeyBinding {
        code: KeyCode::Char('Q'),
        modifiers: Modifier::NoModifier
    }));
    // No normalization: a bare `c` is not `Control+c`, and `q` is not `Q`.
    assert!(!kbs.match_any(&KeyBinding {
        code: KeyCode::Char('c'),
        modifiers: Modifier::NoModifier
    }));
    assert!(!kbs.match_any(&KeyBinding {
        code: KeyCode::Char('q'),
        modifiers: Modifier::NoModifier
    }));
    assert!(!kbs.match_any(&KeyBinding {
        code: KeyCode::Char('Q'),
        modifiers: Modifier::Shift
    }));
}
