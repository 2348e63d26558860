use crossterm_keybind::{
    DisplayFormat, Error, EventDecl, KeyBinding, KeyBindTrait, KeyBinds, KeyCode, KeyEvent,
    Modifier,
};

fn key(code: KeyCode, modifiers: Modifier) -> KeyBinding {
    KeyBinding { code, modifiers }
}

#[test]
fn dispatch_default_bindings() {
    let mut binds = KeyBinds::new();
    KeyEvent::init_and_load(&mut binds, None).unwrap();

    let hits = KeyEvent::dispatch(&binds, &key(KeyCode::Char('c'), Modifier::Control)).unwrap();
    assert_eq!(hits, vec![KeyEvent::Quit]);

    let hits = KeyEvent::dispatch(&binds, &key(KeyCode::Char('x'), Modifier::NoModifier)).unwrap();
    assert_eq!(hits, vec![]);

    let hits = KeyEvent::dispatch(&binds, &key(KeyCode::F(1), Modifier::NoModifier)).unwrap();
    assert_eq!(hits, vec![KeyEvent::ToggleHelpWidget]);

    assert!(KeyEvent::Quit
        .match_any(&binds, &key(KeyCode::Char('q'), Modifier::NoModifier))
        .unwrap());
    assert!(!KeyEvent::Quit
        .match_any(&binds, &key(KeyCode::Char('c'), Modifier::NoModifier))
        .unwrap());
}

#[test]
fn override_leaves_other_events_at_defaults() {
    let mut binds = KeyBinds::new();
    KeyEvent::init_and_load(&mut binds, Some("toggle_help_widget = [\"F2\"]")).unwrap();

    // Quit keeps its compiled defaults.
    assert!(KeyEvent::Quit
        .match_any(&binds, &key(KeyCode::Char('c'), Modifier::Control))
        .unwrap());
    assert!(KeyEvent::Quit
        .match_any(&binds, &key(KeyCode::Char('Q'), Modifier::NoModifier))
        .unwrap());
    assert!(KeyEvent::Quit
        .match_any(&binds, &key(KeyCode::Char('q'), Modifier::NoModifier))
        .unwrap());

    // ToggleHelpWidget is replaced whole: F2 now, F1 and ? no longer.
    assert!(KeyEvent::ToggleHelpWidget
        .match_any(&binds, &key(KeyCode::F(2), Modifier::NoModifier))
        .unwrap());
    assert!(!KeyEvent::ToggleHelpWidget
        .match_any(&binds, &key(KeyCode::F(1), Modifier::NoModifier))
        .unwrap());
    assert!(!KeyEvent::ToggleHelpWidget
        .match_any(&binds, &key(KeyCode::Char('?'), Modifier::NoModifier))
        .unwrap());
}

#[test]
fn double_init_fails_and_keeps_table() {
    let mut binds = KeyBinds::new();
    KeyEvent::init_and_load(&mut binds, None).unwrap();

    let second = KeyEvent::init_and_load(&mut binds, Some("quit = [\"Z\"]"));
    assert_eq!(second, Err(Error::DoubleInitError));

    // The first-committed table is observably unchanged.
    assert!(KeyEvent::Quit
        .match_any(&binds, &key(KeyCode::Char('c'), Modifier::Control))
        .unwrap());
    assert!(!KeyEvent::Quit
        .match_any(&binds, &key(KeyCode::Char('Z'), Modifier::NoModifier))
        .unwrap());
}

#[test]
fn config_example_reproduces_declared_defaults() {
    let expected = "quit = [\"Control+c\", \"Q\", \"q\"]\ntoggle_help_widget = [\"F1\", \"?\"]\n";
    // Before any initialization.
    assert_eq!(KeyEvent::toml_example(), expected);

    // Independent of initialization state, and of any override.
    let mut binds = KeyBinds::new();
    KeyEvent::init_and_load(&mut binds, Some("quit = [\"Z\"]")).unwrap();
    assert_eq!(KeyEvent::toml_example(), expected);
}

#[test]
fn access_before_init_fails_loudly() {
    let binds = KeyBinds::new();
    assert_eq!(
        KeyEvent::Quit.match_any(&binds, &key(KeyCode::Char('q'), Modifier::NoModifier)),
        Err(Error::UninitializedAccessError)
    );
    assert_eq!(
        KeyEvent::dispatch(&binds, &key(KeyCode::Char('q'), Modifier::NoModifier)),
        Err(Error::UninitializedAccessError)
    );
    assert_eq!(
        KeyEvent::Quit.key_bindings_display(&binds),
        Err(Error::UninitializedAccessError)
    );
}

#[test]
fn override_single_string_shorthand() {
    let mut binds = KeyBinds::new();
    KeyEvent::init_and_load(&mut binds, Some("quit = \"Z\"")).unwrap();
    assert!(KeyEvent::Quit
        .match_any(&binds, &key(KeyCode::Char('Z'), Modifier::NoModifier))
        .unwrap());
    assert!(!KeyEvent::Quit
        .match_any(&binds, &key(KeyCode::Char('q'), Modifier::NoModifier))
        .unwrap());
}

#[test]
fn override_empty_list_disables_event() {
    let mut binds = KeyBinds::new();
    KeyEvent::init_and_load(&mut binds, Some("quit = []")).unwrap();
    for probe in [
        key(KeyCode::Char('c'), Modifier::Control),
        key(KeyCode::Char('Q'), Modifier::NoModifier),
        key(KeyCode::Char('q'), Modifier::NoModifier),
    ] {
        assert!(!KeyEvent::Quit.match_any(&binds, &probe).unwrap());
        assert_eq!(KeyEvent::dispatch(&binds, &probe).unwrap(), vec![]);
    }
    // The other event still has its defaults.
    assert!(KeyEvent::ToggleHelpWidget
        .match_any(&binds, &key(KeyCode::Char('?'), Modifier::NoModifier))
        .unwrap());
}

#[test]
fn override_unknown_key_is_ignored() {
    let mut binds = KeyBinds::new();
    KeyEvent::init_and_load(&mut binds, Some("zoom = [\"Z\"]")).unwrap();
    assert!(KeyEvent::Quit
        .match_any(&binds, &key(KeyCode::Char('q'), Modifier::NoModifier))
        .unwrap());
}

#[test]
fn override_bad_chord_names_key() {
    let mut binds = KeyBinds::new();
    let r = KeyEvent::init_and_load(&mut binds, Some("quit = [\"NoSuchKey\"]"));
    match r {
        Err(Error::ConfigFormatError(m)) => {
            assert!(m.contains("quit"), "message does not name the key: {}", m);
            assert!(m.contains("KeyCode"), "message does not name the vocabulary: {}", m);
        }
        other => panic!("expected ConfigFormatError, got {:?}", other),
    }
    // The failed attempt committed nothing; a later init may succeed.
    assert_eq!(
        KeyEvent::Quit.match_any(&binds, &key(KeyCode::Char('q'), Modifier::NoModifier)),
        Err(Error::UninitializedAccessError)
    );
    KeyEvent::init_and_load(&mut binds, None).unwrap();
    assert!(KeyEvent::Quit
        .match_any(&binds, &key(KeyCode::Char('q'), Modifier::NoModifier))
        .unwrap());
}

#[test]
fn override_bad_modifier_names_vocabulary() {
    let mut binds = KeyBinds::new();
    let r = KeyEvent::init_and_load(&mut binds, Some("quit = [\"Win+c\"]"));
    match r {
        Err(Error::ConfigFormatError(m)) => {
            assert!(m.contains("KeyModifiers"), "message: {}", m);
        }
        other => panic!("expected ConfigFormatError, got {:?}", other),
    }
}

#[test]
fn override_invalid_toml_fails() {
    let mut binds = KeyBinds::new();
    let r = KeyEvent::init_and_load(&mut binds, Some("not toml ]["));
    assert!(matches!(r, Err(Error::ConfigFormatError(_))));
}

#[test]
fn override_wrong_value_shape_fails() {
    let expected = "invalid keybind override config: \
                    key `quit` must be a chord string or a list of chord strings";

    let mut binds = KeyBinds::new();
    let r = KeyEvent::init_and_load(&mut binds, Some("quit = 3"));
    assert_eq!(r, Err(Error::ConfigFormatError(String::from(expected))));

    let r = KeyEvent::init_and_load(&mut binds, Some("quit = [3]"));
    assert_eq!(r, Err(Error::ConfigFormatError(String::from(expected))));
}

#[test]
fn bad_default_literal_aborts_initialization() {
    let mut binds = KeyBinds::new();
    let decls = vec![EventDecl {
        key: String::from("broken"),
        defaults: vec![String::from("NoSuchKey")],
    }];
    let r = binds.init_and_load(&decls, None);
    match r {
        Err(Error::DefaultConfigError(m)) => {
            assert!(m.contains("broken"), "message does not name the key: {}", m);
        }
        other => panic!("expected DefaultConfigError, got {:?}", other),
    }
}

#[test]
fn key_bindings_display_formats() {
    let mut binds = KeyBinds::new();
    KeyEvent::init_and_load(&mut binds, None).unwrap();
    assert_eq!(KeyEvent::Quit.key_bindings_display(&binds).unwrap(), "^c|Q|q");
    assert_eq!(
        KeyEvent::Quit
            .key_bindings_display_with_format(&binds, &DisplayFormat::Full)
            .unwrap(),
        "Control+c | Q | q"
    );
    assert_eq!(
        KeyEvent::ToggleHelpWidget
            .key_bindings_display_with_format(&binds, &DisplayFormat::Abbreviation)
            .unwrap(),
        "F1 | ?"
    );
    // Rendering the same set twice yields identical text.
    assert_eq!(
        KeyEvent::Quit.key_bindings_display(&binds).unwrap(),
        KeyEvent::Quit.key_bindings_display(&binds).unwrap()
    );
}

#[test]
fn dispatch_overlapping_bindings_in_declaration_order() {
    let mut binds = KeyBinds::new();
    KeyEvent::init_and_load(
        &mut binds,
        Some("quit = [\"X\"]\ntoggle_help_widget = [\"X\", \"F1\"]"),
    )
    .unwrap();
    let hits = KeyEvent::dispatch(&binds, &key(KeyCode::Char('X'), Modifier::NoModifier)).unwrap();
    assert_eq!(hits, vec![KeyEvent::Quit, KeyEvent::ToggleHelpWidget]);
}

#[test]
fn error_descriptions() {
    assert_eq!(
        Error::DoubleInitError.describe(),
        "can not init keybind config more than once"
    );
    assert_eq!(
        Error::UninitializedAccessError.describe(),
        "keybind config used before initialization"
    );
    assert_eq!(Error::ConfigReadError(String::from("no such file")).describe(), "no such file");
}
