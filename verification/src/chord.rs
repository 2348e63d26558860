//! The chord codec: a `KeyBinding` is one key chord, a pair of a key code
//! and at most one modifier.  This module defines the textual grammar used
//! by the config format (`parse` / `serialize`) and four human display
//! styles.

use vstd::prelude::*;
use vstd::string::StrSliceExecFns;
use vstd::string::StringExecFns;

use crate::error::Error;
use crate::text::{
    ci_eq, find_char, find_first, is_ws_char, lemma_find_first_at, lemma_find_first_none,
    lemma_trim_chars_id, lower_val, push_u8_dec, str_eq, str_eq_ignore_ascii_case, trim_chars,
    trim_str, u8_dec_chars,
};

verus! {

/// A single modifier key.  The model is deliberately single-valued: a chord
/// carries at most one modifier, never a combination.
#[derive(Clone, Copy, PartialEq, Eq, Structural, Debug)]
pub enum Modifier {
    /// No modifier held.
    NoModifier,
    Shift,
    Control,
    Alt,
    Super,
    Hyper,
    Meta,
}

/// A media control key.
#[derive(Clone, Copy, PartialEq, Eq, Structural, Debug)]
pub enum MediaKeyCode {
    Play,
    PlayPause,
    Reverse,
    Stop,
    FastForward,
    Rewind,
    TrackNext,
    TrackPrevious,
    Record,
    LowerVolume,
    RaiseVolume,
    MuteVolume,
}

/// A single key.  `Null` is the sentinel for "no key resolved"; it never
/// appears in a successfully parsed chord.
#[derive(Clone, Copy, PartialEq, Eq, Structural, Debug)]
pub enum KeyCode {
    Backspace,
    Enter,
    Left,
    Right,
    Up,
    Down,
    Home,
    End,
    PageUp,
    PageDown,
    Tab,
    BackTab,
    Delete,
    Insert,
    /// A function key, `F1` through `F12` in the textual grammar.
    F(u8),
    /// A literal character key.
    Char(char),
    /// The "no key" sentinel.
    Null,
    Esc,
    CapsLock,
    ScrollLock,
    NumLock,
    PrintScreen,
    Pause,
    Menu,
    KeypadBegin,
    Media(MediaKeyCode),
}

/// One key chord: an immutable `(code, modifier)` pair with structural
/// equality.  A captured key event is read through the same shape.
#[derive(Clone, Copy, PartialEq, Eq, Structural, Debug)]
pub struct KeyBinding {
    pub code: KeyCode,
    pub modifiers: Modifier,
}

/// The four mutually exclusive rendering styles for chords.
#[derive(Clone, Copy, PartialEq, Eq, Structural, Debug, Default)]
pub enum DisplayFormat {
    /// A single Unicode glyph per modifier and per named key.
    #[default]
    Symbols,
    /// The config-format spelling, quoted.
    Debug,
    /// Full modifier words, e.g. `Control+`.
    Full,
    /// Abbreviated modifier words, e.g. `Ctrl+`.
    Abbreviation,
}

/// Why a chord string failed to parse.
#[derive(Clone, Copy, PartialEq, Eq, Structural, Debug)]
pub enum ParseFailure {
    /// The part before the first `+` is not a recognized modifier.
    UnknownModifier,
    /// The key-code portion is not a character or a recognized token.
    UnknownKeyCode,
}

/// The serialized prefix for a modifier, ending in `+`, empty for none.
pub open spec fn modifier_prefix(m: Modifier) -> Seq<char> {
    match m {
        Modifier::NoModifier => Seq::<char>::empty(),
        Modifier::Shift => "Shift+"@,
        Modifier::Control => "Control+"@,
        Modifier::Alt => "Alternate+"@,
        Modifier::Super => "Super+"@,
        Modifier::Hyper => "Hyper+"@,
        Modifier::Meta => "Meta+"@,
    }
}

/// The serialized token for a media key.
pub open spec fn media_token(m: MediaKeyCode) -> Seq<char> {
    match m {
        MediaKeyCode::Play => "Play"@,
        MediaKeyCode::PlayPause => "PlayPause"@,
        MediaKeyCode::Reverse => "Reverse"@,
        MediaKeyCode::Stop => "Stop"@,
        MediaKeyCode::FastForward => "FastForward"@,
        MediaKeyCode::Rewind => "Rewind"@,
        MediaKeyCode::TrackNext => "TrackNext"@,
        MediaKeyCode::TrackPrevious => "TrackPrevious"@,
        MediaKeyCode::Record => "Record"@,
        MediaKeyCode::LowerVolume => "LowerVolume"@,
        MediaKeyCode::RaiseVolume => "RaiseVolume"@,
        MediaKeyCode::MuteVolume => "MuteVolume"@,
    }
}

/// The serialized token for a key code; empty only for the sentinel, which
/// has no textual representation.
pub open spec fn keycode_token(c: KeyCode) -> Seq<char> {
    match c {
        KeyCode::Backspace => "Backspace"@,
        KeyCode::Enter => "Enter"@,
        KeyCode::Left => "Left"@,
        KeyCode::Right => "Right"@,
        KeyCode::Up => "Up"@,
        KeyCode::Down => "Down"@,
        KeyCode::Home => "Home"@,
        KeyCode::End => "End"@,
        KeyCode::PageUp => "PageUp"@,
        KeyCode::PageDown => "PageDown"@,
        KeyCode::Tab => "Tab"@,
        KeyCode::BackTab => "BackTab"@,
        KeyCode::Delete => "Delete"@,
        KeyCode::Insert => "Insert"@,
        KeyCode::F(n) => seq!['F'] + u8_dec_chars(n),
        KeyCode::Char(ch) => seq![ch],
        KeyCode::Null => Seq::<char>::empty(),
        KeyCode::Esc => "Esc"@,
        KeyCode::CapsLock => "CapsLock"@,
        KeyCode::ScrollLock => "ScrollLock"@,
        KeyCode::NumLock => "NumLock"@,
        KeyCode::PrintScreen => "PrintScreen"@,
        KeyCode::Pause => "Pause"@,
        KeyCode::Menu => "Menu"@,
        KeyCode::KeypadBegin => "KeypadBegin"@,
        KeyCode::Media(m) => media_token(m),
    }
}

/// The full serialized text of a chord: modifier prefix, then key token.
pub open spec fn chord_text(kb: KeyBinding) -> Seq<char> {
    modifier_prefix(kb.modifiers) + keycode_token(kb.code)
}

/// The modifier named by the part before the first `+`, matched
/// case-insensitively.
pub open spec fn modifier_of_token(t: Seq<char>) -> Option<Modifier> {
    if ci_eq(t, "Shift"@) {
        Some(Modifier::Shift)
    } else if ci_eq(t, "Control"@) || ci_eq(t, "Ctrl"@) {
        Some(Modifier::Control)
    } else if ci_eq(t, "Alt"@) || ci_eq(t, "Alternate"@) {
        Some(Modifier::Alt)
    } else if ci_eq(t, "Super"@) {
        Some(Modifier::Super)
    } else if ci_eq(t, "Hyper"@) {
        Some(Modifier::Hyper)
    } else if ci_eq(t, "Meta"@) {
        Some(Modifier::Meta)
    } else {
        None
    }
}

/// The key code named by a key-code portion: the portion is trimmed, a
/// single character is a character key, otherwise the token is matched
/// case-sensitively; `Null` means no rule matched.
pub open spec fn keycode_of_token(t0: Seq<char>) -> KeyCode {
    let t = trim_chars(t0);
    if t.len() == 1 {
        KeyCode::Char(t[0])
    } else if t == "Backspace"@ {
        KeyCode::Backspace
    } else if t == "Enter"@ {
        KeyCode::Enter
    } else if t == "Left"@ {
        KeyCode::Left
    } else if t == "Right"@ {
        KeyCode::Right
    } else if t == "Up"@ {
        KeyCode::Up
    } else if t == "Down"@ {
        KeyCode::Down
    } else if t == "Home"@ {
        KeyCode::Home
    } else if t == "End"@ {
        KeyCode::End
    } else if t == "PageUp"@ {
        KeyCode::PageUp
    } else if t == "PageDown"@ {
        KeyCode::PageDown
    } else if t == "Tab"@ {
        KeyCode::Tab
    } else if t == "BackTab"@ {
        KeyCode::BackTab
    } else if t == "Delete"@ {
        KeyCode::Delete
    } else if t == "Insert"@ {
        KeyCode::Insert
    } else if t == "F1"@ {
        KeyCode::F(1)
    } else if t == "F2"@ {
        KeyCode::F(2)
    } else if t == "F3"@ {
        KeyCode::F(3)
    } else if t == "F4"@ {
        KeyCode::F(4)
    } else if t == "F5"@ {
        KeyCode::F(5)
    } else if t == "F6"@ {
        KeyCode::F(6)
    } else if t == "F7"@ {
        KeyCode::F(7)
    } else if t == "F8"@ {
        KeyCode::F(8)
    } else if t == "F9"@ {
        KeyCode::F(9)
    } else if t == "F10"@ {
        KeyCode::F(10)
    } else if t == "F11"@ {
        KeyCode::F(11)
    } else if t == "F12"@ {
        KeyCode::F(12)
    } else if t == "Esc"@ {
        KeyCode::Esc
    } else if t == "CapsLock"@ {
        KeyCode::CapsLock
    } else if t == "ScrollLock"@ {
        KeyCode::ScrollLock
    } else if t == "NumLock"@ {
        KeyCode::NumLock
    } else if t == "PrintScreen"@ {
        KeyCode::PrintScreen
    } else if t == "Pause"@ {
        KeyCode::Pause
    } else if t == "Menu"@ {
        KeyCode::Menu
    } else if t == "KeypadBegin"@ {
        KeyCode::KeypadBegin
    } else if t == "Play"@ {
        KeyCode::Media(MediaKeyCode::Play)
    } else if t == "PlayPause"@ {
        KeyCode::Media(MediaKeyCode::PlayPause)
    } else if t == "Reverse"@ {
        KeyCode::Media(MediaKeyCode::Reverse)
    } else if t == "Stop"@ {
        KeyCode::Media(MediaKeyCode::Stop)
    } else if t == "FastForward"@ {
        KeyCode::Media(MediaKeyCode::FastForward)
    } else if t == "Rewind"@ {
        KeyCode::Media(MediaKeyCode::Rewind)
    } else if t == "TrackNext"@ {
        KeyCode::Media(MediaKeyCode::TrackNext)
    } else if t == "TrackPrevious"@ {
        KeyCode::Media(MediaKeyCode::TrackPrevious)
    } else if t == "Record"@ {
        KeyCode::Media(MediaKeyCode::Record)
    } else if t == "LowerVolume"@ {
        KeyCode::Media(MediaKeyCode::LowerVolume)
    } else if t == "RaiseVolume"@ {
        KeyCode::Media(MediaKeyCode::RaiseVolume)
    } else if t == "MuteVolume"@ {
        KeyCode::Media(MediaKeyCode::MuteVolume)
    } else {
        KeyCode::Null
    }
}

/// The parse of a chord string: trim, split at the first `+` into an
/// optional modifier part and a key-code portion, resolve both.
pub open spec fn chord_of(s: Seq<char>) -> Result<KeyBinding, ParseFailure> {
    let t = trim_chars(s);
    match find_first(t, '+') {
        Some(i) => match modifier_of_token(t.subrange(0, i)) {
            Some(m) => {
                let code = keycode_of_token(t.subrange(i + 1, t.len() as int));
                if code == KeyCode::Null {
                    Err(ParseFailure::UnknownKeyCode)
                } else {
                    Ok(KeyBinding { code, modifiers: m })
                }
            },
            None => Err(ParseFailure::UnknownModifier),
        },
        None => {
            let code = keycode_of_token(t);
            if code == KeyCode::Null {
                Err(ParseFailure::UnknownKeyCode)
            } else {
                Ok(KeyBinding { code, modifiers: Modifier::NoModifier })
            }
        },
    }
}

/// The message reported for an unrecognized modifier.
pub open spec fn modifier_error_text() -> Seq<char> {
    "Currently only support following KeyModifiers: Shift, Control, Alternate, Super, Hyper, Meta"@
}

/// The message reported for an unrecognized key-code portion.
pub open spec fn keycode_error_text() -> Seq<char> {
    "Can not load a KeyCode, please use a char or one of following KeyCodes:\n\"Backspace\", \"Enter\", \"Left\", \"Right\", \"Up\", \"Down\", \"Home\", \"End\", \"PageUp\", \"PageDown\", \"Tab\", \"BackTab\", \"Delete\",\n\"Insert\", \"F1\" ~ \"F12\", \"Esc\", \"CapsLock\", \"ScrollLock\", \"NumLock\", \"PrintScreen\", \"Pause\", \"Menu\", \"KeypadBegin\",\n\"Play\", \"PlayPause\", \"Reverse\", \"Stop\", \"FastForward\", \"Rewind\", \"TrackNext\", \"TrackPrevious\", \"Record\", \"LowerVolume\", \n\"RaiseVolume\", \"MuteVolume\""@
}

/// The message reported when serializing the sentinel key code.
pub open spec fn serialize_error_text() -> Seq<char> {
    "Unsupported KeyCode: Null"@
}

fn modifier_from_token(t: &str) -> (r: Option<Modifier>)
    ensures
        r == modifier_of_token(t@),
{
    if str_eq_ignore_ascii_case(t, "Shift") {
        Some(Modifier::Shift)
    } else if str_eq_ignore_ascii_case(t, "Control") || str_eq_ignore_ascii_case(t, "Ctrl") {
        Some(Modifier::Control)
    } else if str_eq_ignore_ascii_case(t, "Alt") || str_eq_ignore_ascii_case(t, "Alternate") {
        Some(Modifier::Alt)
    } else if str_eq_ignore_ascii_case(t, "Super") {
        Some(Modifier::Super)
    } else if str_eq_ignore_ascii_case(t, "Hyper") {
        Some(Modifier::Hyper)
    } else if str_eq_ignore_ascii_case(t, "Meta") {
        Some(Modifier::Meta)
    } else {
        None
    }
}

fn keycode_from_token(t0: &str) -> (c: KeyCode)
    ensures
        c == keycode_of_token(t0@),
{
    let t = trim_str(t0);
    if t.unicode_len() == 1 {
        KeyCode::Char(t.get_char(0))
    } else if str_eq(t, "Backspace") {
        KeyCode::Backspace
    } else if str_eq(t, "Enter") {
        KeyCode::Enter
    } else if str_eq(t, "Left") {
        KeyCode::Left
    } else if str_eq(t, "Right") {
        KeyCode::Right
    } else if str_eq(t, "Up") {
        KeyCode::Up
    } else if str_eq(t, "Down") {
        KeyCode::Down
    } else if str_eq(t, "Home") {
        KeyCode::Home
    } else if str_eq(t, "End") {
        KeyCode::End
    } else if str_eq(t, "PageUp") {
        KeyCode::PageUp
    } else if str_eq(t, "PageDown") {
        KeyCode::PageDown
    } else if str_eq(t, "Tab") {
        KeyCode::Tab
    } else if str_eq(t, "BackTab") {
        KeyCode::BackTab
    } else if str_eq(t, "Delete") {
        KeyCode::Delete
    } else if str_eq(t, "Insert") {
        KeyCode::Insert
    } else if str_eq(t, "F1") {
        KeyCode::F(1)
    } else if str_eq(t, "F2") {
        KeyCode::F(2)
    } else if str_eq(t, "F3") {
        KeyCode::F(3)
    } else if str_eq(t, "F4") {
        KeyCode::F(4)
    } else if str_eq(t, "F5") {
        KeyCode::F(5)
    } else if str_eq(t, "F6") {
        KeyCode::F(6)
    } else if str_eq(t, "F7") {
        KeyCode::F(7)
    } else if str_eq(t, "F8") {
        KeyCode::F(8)
    } else if str_eq(t, "F9") {
        KeyCode::F(9)
    } else if str_eq(t, "F10") {
        KeyCode::F(10)
    } else if str_eq(t, "F11") {
        KeyCode::F(11)
    } else if str_eq(t, "F12") {
        KeyCode::F(12)
    } else if str_eq(t, "Esc") {
        KeyCode::Esc
    } else if str_eq(t, "CapsLock") {
        KeyCode::CapsLock
    } else if str_eq(t, "ScrollLock") {
        KeyCode::ScrollLock
    } else if str_eq(t, "NumLock") {
        KeyCode::NumLock
    } else if str_eq(t, "PrintScreen") {
        KeyCode::PrintScreen
    } else if str_eq(t, "Pause") {
        KeyCode::Pause
    } else if str_eq(t, "Menu") {
        KeyCode::Menu
    } else if str_eq(t, "KeypadBegin") {
        KeyCode::KeypadBegin
    } else if str_eq(t, "Play") {
        KeyCode::Media(MediaKeyCode::Play)
    } else if str_eq(t, "PlayPause") {
        KeyCode::Media(MediaKeyCode::PlayPause)
    } else if str_eq(t, "Reverse") {
        KeyCode::Media(MediaKeyCode::Reverse)
    } else if str_eq(t, "Stop") {
        KeyCode::Media(MediaKeyCode::Stop)
    } else if str_eq(t, "FastForward") {
        KeyCode::Media(MediaKeyCode::FastForward)
    } else if str_eq(t, "Rewind") {
        KeyCode::Media(MediaKeyCode::Rewind)
    } else if str_eq(t, "TrackNext") {
        KeyCode::Media(MediaKeyCode::TrackNext)
    } else if str_eq(t, "TrackPrevious") {
        KeyCode::Media(MediaKeyCode::TrackPrevious)
    } else if str_eq(t, "Record") {
        KeyCode::Media(MediaKeyCode::Record)
    } else if str_eq(t, "LowerVolume") {
        KeyCode::Media(MediaKeyCode::LowerVolume)
    } else if str_eq(t, "RaiseVolume") {
        KeyCode::Media(MediaKeyCode::RaiseVolume)
    } else if str_eq(t, "MuteVolume") {
        KeyCode::Media(MediaKeyCode::MuteVolume)
    } else {
        KeyCode::Null
    }
}

impl KeyBinding {
    /// Parses a chord string, e.g. `"Control+c"` or `"F1"`.  Succeeds
    /// exactly when the text names a chord of the grammar; the error names
    /// the accepted vocabulary.
    pub fn parse(s: &str) -> (r: Result<KeyBinding, Error>)
        ensures
            r is Ok <==> chord_of(s@) is Ok,
            r matches Ok(kb) ==> chord_of(s@) == Ok::<KeyBinding, ParseFailure>(kb),
            chord_of(s@) == Err::<KeyBinding, ParseFailure>(ParseFailure::UnknownModifier)
                ==> (r matches Err(e) && e matches Error::ParseError(m) && m@
                == modifier_error_text()),
            chord_of(s@) == Err::<KeyBinding, ParseFailure>(ParseFailure::UnknownKeyCode) ==> (
            r matches Err(e) && e matches Error::ParseError(m) && m@ == keycode_error_text()),
    {
        let t = trim_str(s);
        let n = t.unicode_len();
        match find_char(t, '+') {
            Some(i) => {
                let left = t.substring_char(0, i);
                let right = t.substring_char(i + 1, n);
                match modifier_from_token(left) {
                    Some(m) => {
                        let code = keycode_from_token(right);
                        if code == KeyCode::Null {
                            Err(Error::ParseError(String::from_str(
                                "Can not load a KeyCode, please use a char or one of following KeyCodes:\n\"Backspace\", \"Enter\", \"Left\", \"Right\", \"Up\", \"Down\", \"Home\", \"End\", \"PageUp\", \"PageDown\", \"Tab\", \"BackTab\", \"Delete\",\n\"Insert\", \"F1\" ~ \"F12\", \"Esc\", \"CapsLock\", \"ScrollLock\", \"NumLock\", \"PrintScreen\", \"Pause\", \"Menu\", \"KeypadBegin\",\n\"Play\", \"PlayPause\", \"Reverse\", \"Stop\", \"FastForward\", \"Rewind\", \"TrackNext\", \"TrackPrevious\", \"Record\", \"LowerVolume\", \n\"RaiseVolume\", \"MuteVolume\"",
                            )))
                        } else {
                            Ok(KeyBinding { code, modifiers: m })
                        }
                    },
                    None => Err(Error::ParseError(String::from_str(
                        "Currently only support following KeyModifiers: Shift, Control, Alternate, Super, Hyper, Meta",
                    ))),
                }
            },
            None => {
                let code = keycode_from_token(t);
                if code == KeyCode::Null {
                    Err(Error::ParseError(String::from_str(
                        "Can not load a KeyCode, please use a char or one of following KeyCodes:\n\"Backspace\", \"Enter\", \"Left\", \"Right\", \"Up\", \"Down\", \"Home\", \"End\", \"PageUp\", \"PageDown\", \"Tab\", \"BackTab\", \"Delete\",\n\"Insert\", \"F1\" ~ \"F12\", \"Esc\", \"CapsLock\", \"ScrollLock\", \"NumLock\", \"PrintScreen\", \"Pause\", \"Menu\", \"KeypadBegin\",\n\"Play\", \"PlayPause\", \"Reverse\", \"Stop\", \"FastForward\", \"Rewind\", \"TrackNext\", \"TrackPrevious\", \"Record\", \"LowerVolume\", \n\"RaiseVolume\", \"MuteVolume\"",
                    )))
                } else {
                    Ok(KeyBinding { code, modifiers: Modifier::NoModifier })
                }
            },
        }
    }

    /// Serializes a chord into its stable textual form, the exact spellings
    /// the parser accepts.  Fails exactly on the sentinel key code.
    pub fn serialize(&self) -> (r: Result<String, Error>)
        ensures
            r is Ok <==> self.code != KeyCode::Null,
            r matches Ok(s) ==> s@ == chord_text(*self),
            r matches Err(e) ==> e matches Error::SerializeError(m) && m@
                == serialize_error_text(),
    {
        if self.code == KeyCode::Null {
            return Err(Error::SerializeError(String::from_str("Unsupported KeyCode: Null")));
        }
        let mut out = String::new();
        match self.modifiers {
            Modifier::NoModifier => {
                proof {
                    assert(out@ =~= modifier_prefix(self.modifiers));
                }
            },
            Modifier::Shift => {
                out.append("Shift+");
                proof {
                    assert(out@ =~= modifier_prefix(self.modifiers));
                }
            },
            Modifier::Control => {
                out.append("Control+");
                proof {
                    assert(out@ =~= modifier_prefix(self.modifiers));
                }
            },
            Modifier::Alt => {
                out.append("Alternate+");
                proof {
                    assert(out@ =~= modifier_prefix(self.modifiers));
                }
            },
            Modifier::Super => {
                out.append("Super+");
                proof {
                    assert(out@ =~= modifier_prefix(self.modifiers));
                }
            },
            Modifier::Hyper => {
                out.append("Hyper+");
                proof {
                    assert(out@ =~= modifier_prefix(self.modifiers));
                }
            },
            Modifier::Meta => {
                out.append("Meta+");
                proof {
                    assert(out@ =~= modifier_prefix(self.modifiers));
                }
            },
        }
        let ghost prefix = out@;
        match self.code {
            KeyCode::Char(ch) => {
                out.push(ch);
                proof {
                    assert(out@ =~= prefix + keycode_token(self.code));
                }
            },
            KeyCode::F(n) => {
                out.append("F");
                push_u8_dec(&mut out, n);
                proof {
                    reveal_strlit("F");
                    assert(out@ =~= prefix + keycode_token(self.code));
                }
            },
            KeyCode::Backspace => out.append("Backspace"),
            KeyCode::Enter => out.append("Enter"),
            KeyCode::Left => out.append("Left"),
            KeyCode::Right => out.append("Right"),
            KeyCode::Up => out.append("Up"),
            KeyCode::Down => out.append("Down"),
            KeyCode::Home => out.append("Home"),
            KeyCode::End => out.append("End"),
            KeyCode::PageUp => out.append("PageUp"),
            KeyCode::PageDown => out.append("PageDown"),
            KeyCode::Tab => out.append("Tab"),
            KeyCode::BackTab => out.append("BackTab"),
            KeyCode::Delete => out.append("Delete"),
            KeyCode::Insert => out.append("Insert"),
            KeyCode::Esc => out.append("Esc"),
            KeyCode::CapsLock => out.append("CapsLock"),
            KeyCode::ScrollLock => out.append("ScrollLock"),
            KeyCode::NumLock => out.append("NumLock"),
            KeyCode::PrintScreen => out.append("PrintScreen"),
            KeyCode::Pause => out.append("Pause"),
            KeyCode::Menu => out.append("Menu"),
            KeyCode::KeypadBegin => out.append("KeypadBegin"),
            KeyCode::Media(m) => match m {
                MediaKeyCode::Play => out.append("Play"),
                MediaKeyCode::PlayPause => out.append("PlayPause"),
                MediaKeyCode::Reverse => out.append("Reverse"),
                MediaKeyCode::Stop => out.append("Stop"),
                MediaKeyCode::FastForward => out.append("FastForward"),
                MediaKeyCode::Rewind => out.append("Rewind"),
                MediaKeyCode::TrackNext => out.append("TrackNext"),
                MediaKeyCode::TrackPrevious => out.append("TrackPrevious"),
                MediaKeyCode::Record => out.append("Record"),
                MediaKeyCode::LowerVolume => out.append("LowerVolume"),
                MediaKeyCode::RaiseVolume => out.append("RaiseVolume"),
                MediaKeyCode::MuteVolume => out.append("MuteVolume"),
            },
            KeyCode::Null => {
                proof {
                    assert(false);
                }
            },
        }
        Ok(out)
    }
}

/// The Symbols-style glyph for a modifier.
pub open spec fn modifier_symbol(m: Modifier) -> Seq<char> {
    match m {
        Modifier::NoModifier => Seq::<char>::empty(),
        Modifier::Shift => "\u{21e7}"@,
        Modifier::Control => "^"@,
        Modifier::Alt => "\u{2387}"@,
        Modifier::Super => "\u{2756}"@,
        Modifier::Hyper => "\u{2388}"@,
        Modifier::Meta => "\u{2318}"@,
    }
}

/// The Symbols-style glyph for a key code; characters render literally.
pub open spec fn keycode_symbol(c: KeyCode) -> Seq<char> {
    match c {
        KeyCode::Char(ch) => seq![ch],
        KeyCode::Backspace => "\u{232b}"@,
        KeyCode::Enter => "\u{23ce}"@,
        KeyCode::Left => "\u{2190}"@,
        KeyCode::Right => "\u{2192}"@,
        KeyCode::Up => "\u{2191}"@,
        KeyCode::Down => "\u{2193}"@,
        KeyCode::Home => "\u{2912}"@,
        KeyCode::End => "\u{2913}"@,
        KeyCode::PageUp => "\u{21de}"@,
        KeyCode::PageDown => "\u{21df}"@,
        KeyCode::Tab => "\u{21e5}"@,
        KeyCode::BackTab => "\u{21e4}"@,
        KeyCode::Delete => "\u{2326}"@,
        KeyCode::Insert => "\u{2380}"@,
        KeyCode::F(n) => seq!['F'] + u8_dec_chars(n),
        KeyCode::Esc => "\u{238b}"@,
        KeyCode::CapsLock => "\u{1f130}"@,
        KeyCode::ScrollLock => "\u{1f4dc}"@,
        KeyCode::NumLock => "\u{2460}"@,
        KeyCode::PrintScreen => "\u{2399}"@,
        KeyCode::Pause => "\u{2389}"@,
        KeyCode::Menu => "\u{1f5c7}"@,
        KeyCode::KeypadBegin => "\u{1f5ca}"@,
        KeyCode::Media(MediaKeyCode::Play) => "\u{23f5}"@,
        KeyCode::Media(MediaKeyCode::PlayPause) => "\u{23ef}"@,
        KeyCode::Media(MediaKeyCode::Reverse) => "\u{2b6f}"@,
        KeyCode::Media(MediaKeyCode::Stop) => "\u{23f9}"@,
        KeyCode::Media(MediaKeyCode::FastForward) => "\u{23ed}"@,
        KeyCode::Media(MediaKeyCode::Rewind) => "\u{2b6e}"@,
        KeyCode::Media(MediaKeyCode::TrackNext) => "\u{29d0}"@,
        KeyCode::Media(MediaKeyCode::TrackPrevious) => "\u{29cf}"@,
        KeyCode::Media(MediaKeyCode::Record) => "\u{241e}"@,
        KeyCode::Media(MediaKeyCode::LowerVolume) => "\u{1f508}"@,
        KeyCode::Media(MediaKeyCode::RaiseVolume) => "\u{1f50a}"@,
        KeyCode::Media(MediaKeyCode::MuteVolume) => "\u{1f507}"@,
        KeyCode::Null => "?"@,
    }
}

/// The Abbreviation-style modifier word: `Ctrl+` and `Alt+` are shortened,
/// all others render as in the Full style.
pub open spec fn modifier_abbrev(m: Modifier) -> Seq<char> {
    match m {
        Modifier::NoModifier => Seq::<char>::empty(),
        Modifier::Shift => "Shift+"@,
        Modifier::Control => "Ctrl+"@,
        Modifier::Alt => "Alt+"@,
        Modifier::Super => "Super+"@,
        Modifier::Hyper => "Hyper+"@,
        Modifier::Meta => "Meta+"@,
    }
}

/// The key token used by the Debug, Full and Abbreviation styles: the
/// serialized token, with `?` for the sentinel.
pub open spec fn keycode_word(c: KeyCode) -> Seq<char> {
    if c == KeyCode::Null {
        "?"@
    } else {
        keycode_token(c)
    }
}

/// The rendering of one chord in each display style.
pub open spec fn chord_display(kb: KeyBinding, f: DisplayFormat) -> Seq<char> {
    match f {
        DisplayFormat::Symbols => modifier_symbol(kb.modifiers) + keycode_symbol(kb.code),
        DisplayFormat::Debug => seq!['"'] + modifier_prefix(kb.modifiers) + keycode_word(kb.code)
            + seq!['"'],
        DisplayFormat::Full => modifier_prefix(kb.modifiers) + keycode_word(kb.code),
        DisplayFormat::Abbreviation => modifier_abbrev(kb.modifiers) + keycode_word(kb.code),
    }
}

fn push_modifier_symbol(out: &mut String, m: Modifier)
    ensures
        final(out)@ == old(out)@ + modifier_symbol(m),
{
    match m {
        Modifier::NoModifier => {
            proof {
                assert(out@ =~= out@ + modifier_symbol(m));
            }
        },
        Modifier::Shift => out.append("\u{21e7}"),
        Modifier::Control => out.append("^"),
        Modifier::Alt => out.append("\u{2387}"),
        Modifier::Super => out.append("\u{2756}"),
        Modifier::Hyper => out.append("\u{2388}"),
        Modifier::Meta => out.append("\u{2318}"),
    }
}

fn push_modifier_prefix(out: &mut String, m: Modifier)
    ensures
        final(out)@ == old(out)@ + modifier_prefix(m),
{
    match m {
        Modifier::NoModifier => {
            proof {
                assert(out@ =~= out@ + modifier_prefix(m));
            }
        },
        Modifier::Shift => out.append("Shift+"),
        Modifier::Control => out.append("Control+"),
        Modifier::Alt => out.append("Alternate+"),
        Modifier::Super => out.append("Super+"),
        Modifier::Hyper => out.append("Hyper+"),
        Modifier::Meta => out.append("Meta+"),
    }
}

fn push_modifier_abbrev(out: &mut String, m: Modifier)
    ensures
        final(out)@ == old(out)@ + modifier_abbrev(m),
{
    match m {
        Modifier::NoModifier => {
            proof {
                assert(out@ =~= out@ + modifier_abbrev(m));
            }
        },
        Modifier::Shift => out.append("Shift+"),
        Modifier::Control => out.append("Ctrl+"),
        Modifier::Alt => out.append("Alt+"),
        Modifier::Super => out.append("Super+"),
        Modifier::Hyper => out.append("Hyper+"),
        Modifier::Meta => out.append("Meta+"),
    }
}

fn push_keycode_symbol(out: &mut String, c: KeyCode)
    ensures
        final(out)@ == old(out)@ + keycode_symbol(c),
{
    match c {
        KeyCode::Char(ch) => {
            out.push(ch);
            proof {
                assert(out@ =~= old(out)@ + keycode_symbol(c));
            }
        },
        KeyCode::F(n) => {
            out.append("F");
            push_u8_dec(out, n);
            proof {
                reveal_strlit("F");
                assert(out@ =~= old(out)@ + keycode_symbol(c));
            }
        },
        KeyCode::Backspace => out.append("\u{232b}"),
        KeyCode::Enter => out.append("\u{23ce}"),
        KeyCode::Left => out.append("\u{2190}"),
        KeyCode::Right => out.append("\u{2192}"),
        KeyCode::Up => out.append("\u{2191}"),
        KeyCode::Down => out.append("\u{2193}"),
        KeyCode::Home => out.append("\u{2912}"),
        KeyCode::End => out.append("\u{2913}"),
        KeyCode::PageUp => out.append("\u{21de}"),
        KeyCode::PageDown => out.append("\u{21df}"),
        KeyCode::Tab => out.append("\u{21e5}"),
        KeyCode::BackTab => out.append("\u{21e4}"),
        KeyCode::Delete => out.append("\u{2326}"),
        KeyCode::Insert => out.append("\u{2380}"),
        KeyCode::Esc => out.append("\u{238b}"),
        KeyCode::CapsLock => out.append("\u{1f130}"),
        KeyCode::ScrollLock => out.append("\u{1f4dc}"),
        KeyCode::NumLock => out.append("\u{2460}"),
        KeyCode::PrintScreen => out.append("\u{2399}"),
        KeyCode::Pause => out.append("\u{2389}"),
        KeyCode::Menu => out.append("\u{1f5c7}"),
        KeyCode::KeypadBegin => out.append("\u{1f5ca}"),
        KeyCode::Media(MediaKeyCode::Play) => out.append("\u{23f5}"),
        KeyCode::Media(MediaKeyCode::PlayPause) => out.append("\u{23ef}"),
        KeyCode::Media(MediaKeyCode::Reverse) => out.append("\u{2b6f}"),
        KeyCode::Media(MediaKeyCode::Stop) => out.append("\u{23f9}"),
        KeyCode::Media(MediaKeyCode::FastForward) => out.append("\u{23ed}"),
        KeyCode::Media(MediaKeyCode::Rewind) => out.append("\u{2b6e}"),
        KeyCode::Media(MediaKeyCode::TrackNext) => out.append("\u{29d0}"),
        KeyCode::Media(MediaKeyCode::TrackPrevious) => out.append("\u{29cf}"),
        KeyCode::Media(MediaKeyCode::Record) => out.append("\u{241e}"),
        KeyCode::Media(MediaKeyCode::LowerVolume) => out.append("\u{1f508}"),
        KeyCode::Media(MediaKeyCode::RaiseVolume) => out.append("\u{1f50a}"),
        KeyCode::Media(MediaKeyCode::MuteVolume) => out.append("\u{1f507}"),
        KeyCode::Null => out.append("?"),
    }
}

fn push_keycode_word(out: &mut String, c: KeyCode)
    ensures
        final(out)@ == old(out)@ + keycode_word(c),
{
    match c {
        KeyCode::Char(ch) => {
            out.push(ch);
            proof {
                assert(out@ =~= old(out)@ + keycode_word(c));
            }
        },
        KeyCode::F(n) => {
            out.append("F");
            push_u8_dec(out, n);
            proof {
                reveal_strlit("F");
                assert(out@ =~= old(out)@ + keycode_word(c));
            }
        },
        KeyCode::Backspace => out.append("Backspace"),
        KeyCode::Enter => out.append("Enter"),
        KeyCode::Left => out.append("Left"),
        KeyCode::Right => out.append("Right"),
        KeyCode::Up => out.append("Up"),
        KeyCode::Down => out.append("Down"),
        KeyCode::Home => out.append("Home"),
        KeyCode::End => out.append("End"),
        KeyCode::PageUp => out.append("PageUp"),
        KeyCode::PageDown => out.append("PageDown"),
        KeyCode::Tab => out.append("Tab"),
        KeyCode::BackTab => out.append("BackTab"),
        KeyCode::Delete => out.append("Delete"),
        KeyCode::Insert => out.append("Insert"),
        KeyCode::Esc => out.append("Esc"),
        KeyCode::CapsLock => out.append("CapsLock"),
        KeyCode::ScrollLock => out.append("ScrollLock"),
        KeyCode::NumLock => out.append("NumLock"),
        KeyCode::PrintScreen => out.append("PrintScreen"),
        KeyCode::Pause => out.append("Pause"),
        KeyCode::Menu => out.append("Menu"),
        KeyCode::KeypadBegin => out.append("KeypadBegin"),
        KeyCode::Media(MediaKeyCode::Play) => out.append("Play"),
        KeyCode::Media(MediaKeyCode::PlayPause) => out.append("PlayPause"),
        KeyCode::Media(MediaKeyCode::Reverse) => out.append("Reverse"),
        KeyCode::Media(MediaKeyCode::Stop) => out.append("Stop"),
        KeyCode::Media(MediaKeyCode::FastForward) => out.append("FastForward"),
        KeyCode::Media(MediaKeyCode::Rewind) => out.append("Rewind"),
        KeyCode::Media(MediaKeyCode::TrackNext) => out.append("TrackNext"),
        KeyCode::Media(MediaKeyCode::TrackPrevious) => out.append("TrackPrevious"),
        KeyCode::Media(MediaKeyCode::Record) => out.append("Record"),
        KeyCode::Media(MediaKeyCode::LowerVolume) => out.append("LowerVolume"),
        KeyCode::Media(MediaKeyCode::RaiseVolume) => out.append("RaiseVolume"),
        KeyCode::Media(MediaKeyCode::MuteVolume) => out.append("MuteVolume"),
        KeyCode::Null => out.append("?"),
    }
}

impl KeyBinding {
    /// Renders the chord in the given display style.  Rendering is total:
    /// unlike `serialize` it never fails, the sentinel renders as `?`.
    pub fn display(&self, f: &DisplayFormat) -> (r: String)
        ensures
            r@ == chord_display(*self, *f),
    {
        let mut out = String::new();
        match f {
            DisplayFormat::Symbols => {
                push_modifier_symbol(&mut out, self.modifiers);
                push_keycode_symbol(&mut out, self.code);
                proof {
                    assert(out@ =~= chord_display(*self, *f));
                }
            },
            DisplayFormat::Debug => {
                out.push('"');
                push_modifier_prefix(&mut out, self.modifiers);
                push_keycode_word(&mut out, self.code);
                out.push('"');
                proof {
                    assert(out@ =~= chord_display(*self, *f));
                }
            },
            DisplayFormat::Full => {
                push_modifier_prefix(&mut out, self.modifiers);
                push_keycode_word(&mut out, self.code);
                proof {
                    assert(out@ =~= chord_display(*self, *f));
                }
            },
            DisplayFormat::Abbreviation => {
                push_modifier_abbrev(&mut out, self.modifiers);
                push_keycode_word(&mut out, self.code);
                proof {
                    assert(out@ =~= chord_display(*self, *f));
                }
            },
        }
        out
    }
}

/// The serialized token of every key except `Char` and `Null` resolves
/// back to that key, and contains neither `+` nor whitespace.
#[verifier::rlimit(100)]
#[verifier::spinoff_prover]
proof fn lemma_token_resolves(c: KeyCode)
    requires
        !(c matches KeyCode::Char(_)),
        c != KeyCode::Null,
        c matches KeyCode::F(n) ==> 1 <= n <= 12,
    ensures
        keycode_of_token(keycode_token(c)) == c,
        keycode_token(c).len() >= 2,
        forall|k: int|
            0 <= k < keycode_token(c).len() ==> keycode_token(c)[k] != '+' && !is_ws_char(
                keycode_token(c)[k],
            ),
{
    reveal_strlit("Backspace");
    reveal_strlit("Enter");
    reveal_strlit("Left");
    reveal_strlit("Right");
    reveal_strlit("Up");
    reveal_strlit("Down");
    reveal_strlit("Home");
    reveal_strlit("End");
    reveal_strlit("PageUp");
    reveal_strlit("PageDown");
    reveal_strlit("Tab");
    reveal_strlit("BackTab");
    reveal_strlit("Delete");
    reveal_strlit("Insert");
    reveal_strlit("F1");
    reveal_strlit("F2");
    reveal_strlit("F3");
    reveal_strlit("F4");
    reveal_strlit("F5");
    reveal_strlit("F6");
    reveal_strlit("F7");
    reveal_strlit("F8");
    reveal_strlit("F9");
    reveal_strlit("F10");
    reveal_strlit("F11");
    reveal_strlit("F12");
    reveal_strlit("Esc");
    reveal_strlit("CapsLock");
    reveal_strlit("ScrollLock");
    reveal_strlit("NumLock");
    reveal_strlit("PrintScreen");
    reveal_strlit("Pause");
    reveal_strlit("Menu");
    reveal_strlit("KeypadBegin");
    reveal_strlit("Play");
    reveal_strlit("PlayPause");
    reveal_strlit("Reverse");
    reveal_strlit("Stop");
    reveal_strlit("FastForward");
    reveal_strlit("Rewind");
    reveal_strlit("TrackNext");
    reveal_strlit("TrackPrevious");
    reveal_strlit("Record");
    reveal_strlit("LowerVolume");
    reveal_strlit("RaiseVolume");
    reveal_strlit("MuteVolume");
    assert("Backspace"@[0] == 'B');
    assert("Enter"@[0] == 'E');
    assert("Left"@[0] == 'L');
    assert("Right"@[0] == 'R');
    assert("Up"@[0] == 'U');
    assert("Down"@[0] == 'D');
    assert("Home"@[0] == 'H');
    assert("End"@[0] == 'E' && "End"@[1] == 'n');
    assert("PageUp"@[0] == 'P');
    assert("PageDown"@[0] == 'P');
    assert("Tab"@[0] == 'T');
    assert("BackTab"@[0] == 'B');
    assert("Delete"@[0] == 'D');
    assert("Insert"@[0] == 'I');
    assert("F1"@[0] == 'F' && "F1"@[1] == '1');
    assert("F2"@[0] == 'F' && "F2"@[1] == '2');
    assert("F3"@[0] == 'F' && "F3"@[1] == '3');
    assert("F4"@[0] == 'F' && "F4"@[1] == '4');
    assert("F5"@[0] == 'F' && "F5"@[1] == '5');
    assert("F6"@[0] == 'F' && "F6"@[1] == '6');
    assert("F7"@[0] == 'F' && "F7"@[1] == '7');
    assert("F8"@[0] == 'F' && "F8"@[1] == '8');
    assert("F9"@[0] == 'F' && "F9"@[1] == '9');
    assert("F10"@[0] == 'F' && "F10"@[1] == '1' && "F10"@[2] == '0');
    assert("F11"@[0] == 'F' && "F11"@[1] == '1' && "F11"@[2] == '1');
    assert("F12"@[0] == 'F' && "F12"@[1] == '1' && "F12"@[2] == '2');
    assert("Esc"@[0] == 'E' && "Esc"@[1] == 's');
    assert("CapsLock"@[0] == 'C');
    assert("ScrollLock"@[0] == 'S');
    assert("NumLock"@[0] == 'N');
    assert("PrintScreen"@[0] == 'P');
    assert("Pause"@[0] == 'P');
    assert("Menu"@[0] == 'M');
    assert("KeypadBegin"@[0] == 'K');
    assert("Play"@[0] == 'P');
    assert("PlayPause"@[0] == 'P');
    assert("Reverse"@[0] == 'R');
    assert("Stop"@[0] == 'S');
    assert("FastForward"@[0] == 'F');
    assert("Rewind"@[0] == 'R' && "Rewind"@[2] == 'w');
    assert("TrackNext"@[0] == 'T');
    assert("TrackPrevious"@[0] == 'T');
    assert("Record"@[0] == 'R' && "Record"@[2] == 'c');
    assert("LowerVolume"@[0] == 'L');
    assert("RaiseVolume"@[0] == 'R');
    assert("MuteVolume"@[0] == 'M');
    let t = keycode_token(c);
    match c {
        KeyCode::F(n) => {
            if n == 1 {
                assert(t =~= "F1"@);
            } else if n == 2 {
                assert(t =~= "F2"@);
            } else if n == 3 {
                assert(t =~= "F3"@);
            } else if n == 4 {
                assert(t =~= "F4"@);
            } else if n == 5 {
                assert(t =~= "F5"@);
            } else if n == 6 {
                assert(t =~= "F6"@);
            } else if n == 7 {
                assert(t =~= "F7"@);
            } else if n == 8 {
                assert(t =~= "F8"@);
            } else if n == 9 {
                assert(t =~= "F9"@);
            } else if n == 10 {
                assert(t =~= "F10"@);
            } else if n == 11 {
                assert(t =~= "F11"@);
            } else {
                assert(t =~= "F12"@);
            }
            assert(forall|k: int| 0 <= k < t.len() ==> t[k] != '+' && !is_ws_char(t[k]));
            lemma_trim_chars_id(t);
            assert(keycode_of_token(t) == c);
        },
        _ => {
            assert(forall|k: int| 0 <= k < t.len() ==> t[k] != '+' && !is_ws_char(t[k]));
            lemma_trim_chars_id(t);
            assert(keycode_of_token(t) == c);
        },
    }
}

/// The serialized prefix of every real modifier ends in its only `+`,
/// holds no whitespace, and its word resolves back to that modifier.
#[verifier::rlimit(50)]
#[verifier::spinoff_prover]
proof fn lemma_modifier_resolves(m: Modifier)
    requires
        m != Modifier::NoModifier,
    ensures
        modifier_prefix(m).len() >= 2,
        modifier_prefix(m)[modifier_prefix(m).len() - 1] == '+',
        forall|k: int| 0 <= k < modifier_prefix(m).len() - 1 ==> modifier_prefix(m)[k] != '+',
        forall|k: int| 0 <= k < modifier_prefix(m).len() ==> !is_ws_char(modifier_prefix(m)[k]),
        modifier_of_token(modifier_prefix(m).take(modifier_prefix(m).len() - 1)) == Some(m),
{
    reveal_strlit("Shift+");
    reveal_strlit("Control+");
    reveal_strlit("Alternate+");
    reveal_strlit("Super+");
    reveal_strlit("Hyper+");
    reveal_strlit("Meta+");
    reveal_strlit("Shift");
    reveal_strlit("Control");
    reveal_strlit("Ctrl");
    reveal_strlit("Alt");
    reveal_strlit("Alternate");
    reveal_strlit("Super");
    reveal_strlit("Hyper");
    reveal_strlit("Meta");
    let p = modifier_prefix(m);
    let w = p.take(p.len() - 1);
    match m {
        Modifier::Shift => {
            assert(w =~= "Shift"@);
        },
        Modifier::Control => {
            assert(w =~= "Control"@);
        },
        Modifier::Alt => {
            assert(w =~= "Alternate"@);
        },
        Modifier::Super => {
            assert(w =~= "Super"@);
            assert(lower_val("Super"@[1]) != lower_val("Shift"@[1]));
            assert(!ci_eq(w, "Shift"@));
        },
        Modifier::Hyper => {
            assert(w =~= "Hyper"@);
            assert(lower_val("Hyper"@[0]) != lower_val("Shift"@[0]));
            assert(lower_val("Hyper"@[0]) != lower_val("Super"@[0]));
            assert(!ci_eq(w, "Shift"@));
            assert(!ci_eq(w, "Super"@));
        },
        Modifier::Meta => {
            assert(w =~= "Meta"@);
            assert(lower_val("Meta"@[0]) != lower_val("Ctrl"@[0]));
            assert(!ci_eq(w, "Ctrl"@));
        },
        Modifier::NoModifier => {},
    }
    assert(modifier_of_token(w) == Some(m));
}

/// A chord that survives the textual round trip: any chord the serializer
/// accepts, except the few the grammar reserves — a whitespace character
/// key (trimmed away on parse), a bare `+` character key without modifier
/// (taken for a separator), and function keys outside the `F1`..`F12`
/// token range.
pub open spec fn round_trippable(kb: KeyBinding) -> bool {
    &&& kb.code != KeyCode::Null
    &&& (kb.code matches KeyCode::Char(ch) ==> !is_ws_char(ch))
    &&& (kb.code == KeyCode::Char('+') ==> kb.modifiers != Modifier::NoModifier)
    &&& (kb.code matches KeyCode::F(n) ==> 1 <= n <= 12)
}

/// Round trip: parsing the serialized text of a representable chord gives
/// back exactly that chord.
pub proof fn lemma_round_trip(kb: KeyBinding)
    requires
        round_trippable(kb),
    ensures
        chord_of(chord_text(kb)) == Ok::<KeyBinding, ParseFailure>(kb),
{
    let text = chord_text(kb);
    let token = keycode_token(kb.code);
    let prefix = modifier_prefix(kb.modifiers);
    if !(kb.code matches KeyCode::Char(_)) {
        lemma_token_resolves(kb.code);
    }
    match kb.modifiers {
        Modifier::NoModifier => {
            assert(text =~= token);
            match kb.code {
                KeyCode::Char(ch) => {
                    assert(forall|k: int|
                        0 <= k < token.len() ==> !is_ws_char(#[trigger] token[k]));
                    lemma_trim_chars_id(token);
                    assert(forall|k: int| 0 <= k < token.len() ==> #[trigger] token[k] != '+');
                    lemma_find_first_none(token, '+');
                    assert(keycode_of_token(token) == KeyCode::Char(ch));
                },
                _ => {
                    lemma_trim_chars_id(token);
                    lemma_find_first_none(token, '+');
                },
            }
            assert(chord_of(text) == Ok::<KeyBinding, ParseFailure>(kb));
        },
        _ => {
            lemma_modifier_resolves(kb.modifiers);
            let p = prefix.len() as int;
            assert(forall|k: int| 0 <= k < text.len() ==> !is_ws_char(#[trigger] text[k])) by {
                assert(forall|k: int|
                    0 <= k < token.len() ==> !is_ws_char(#[trigger] token[k]));
            }
            lemma_trim_chars_id(text);
            assert(text[p - 1] == '+');
            assert(forall|k: int| 0 <= k < p - 1 ==> #[trigger] text[k] != '+');
            lemma_find_first_at(text, '+', p - 1);
            assert(text.subrange(0, p - 1) =~= prefix.take(p - 1));
            assert(text.subrange(p, text.len() as int) =~= token);
            match kb.code {
                KeyCode::Char(ch) => {
                    assert(forall|k: int|
                        0 <= k < token.len() ==> !is_ws_char(#[trigger] token[k]));
                    lemma_trim_chars_id(token);
                    assert(keycode_of_token(token) == KeyCode::Char(ch));
                },
                _ => {},
            }
            assert(chord_of(text) == Ok::<KeyBinding, ParseFailure>(kb));
        },
    }
}

/// A parsed chord carries at most one modifier: the modifier field is a
/// single value of a closed set, never a combination, whatever the input
/// text named.
pub proof fn lemma_single_modifier(s: Seq<char>)
    ensures
        chord_of(s) matches Ok(kb) ==> (kb.modifiers == Modifier::NoModifier || kb.modifiers
            == Modifier::Shift || kb.modifiers == Modifier::Control || kb.modifiers
            == Modifier::Alt || kb.modifiers == Modifier::Super || kb.modifiers
            == Modifier::Hyper || kb.modifiers == Modifier::Meta),
{
    if chord_of(s) is Ok {
        let kb = chord_of(s)->Ok_0;
        match kb.modifiers {
            Modifier::NoModifier => {},
            Modifier::Shift => {},
            Modifier::Control => {},
            Modifier::Alt => {},
            Modifier::Super => {},
            Modifier::Hyper => {},
            Modifier::Meta => {},
        }
    }
}

} // verus!
