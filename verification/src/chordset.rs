//! An ordered chord set: all the chords that trigger one logical event.
//! Insertion order is preserved for display; matching ignores it.

use vstd::prelude::*;
use vstd::string::StringExecFns;

use crate::chord::{chord_display, DisplayFormat, KeyBinding};

verus! {

/// The ordered sequence of chords bound to one logical event.
#[derive(Clone, PartialEq, Eq, Debug)]
pub struct KeyBindings(pub Vec<KeyBinding>);

impl View for KeyBindings {
    type V = Seq<KeyBinding>;

    open spec fn view(&self) -> Seq<KeyBinding> {
        self.0@
    }
}

/// Whether some member of the set equals the captured key event, by exact
/// structural equality of code and modifier.
pub open spec fn spec_match_any(s: Seq<KeyBinding>, ev: KeyBinding) -> bool {
    exists|i: int| 0 <= i < s.len() && s[i] == ev
}

/// The separator between rendered chords in each display style.
pub open spec fn sep_of(f: DisplayFormat) -> Seq<char> {
    match f {
        DisplayFormat::Symbols => "|"@,
        DisplayFormat::Debug => "|"@,
        DisplayFormat::Full => " | "@,
        DisplayFormat::Abbreviation => " | "@,
    }
}

/// The parts joined with the separator between consecutive parts.
pub open spec fn join_with(parts: Seq<Seq<char>>, sep: Seq<char>) -> Seq<char>
    decreases parts.len(),
{
    if parts.len() == 0 {
        Seq::<char>::empty()
    } else if parts.len() == 1 {
        parts[0]
    } else {
        join_with(parts.drop_last(), sep) + sep + parts.last()
    }
}

/// The rendering of a chord set: members in insertion order, joined with
/// `|` (Symbols and Debug, each member quoted in Debug) or `" | "` (Full,
/// Abbreviation); an empty set renders as empty text.
pub open spec fn chordset_display(s: Seq<KeyBinding>, f: DisplayFormat) -> Seq<char> {
    join_with(s.map_values(|kb: KeyBinding| chord_display(kb, f)), sep_of(f))
}

impl KeyBindings {
    /// True iff some chord in the set has exactly the event's key code and
    /// modifier; no normalization, no fuzzy matching.
    pub fn match_any(&self, key_event: &KeyBinding) -> (r: bool)
        ensures
            r == spec_match_any(self@, *key_event),
    {
        let n = self.0.len();
        let mut i: usize = 0;
        while i < n
            invariant
                n == self@.len(),
                0 <= i <= n,
                forall|k: int| 0 <= k < i ==> self@[k] != *key_event,
            decreases n - i,
        {
            let kb = self.0[i];
            if kb.code == key_event.code && kb.modifiers == key_event.modifiers {
                return true;
            }
            i = i + 1;
        }
        false
    }

    /// Renders the whole set in the given style, in insertion order.
    pub fn display(&self, f: &DisplayFormat) -> (r: String)
        ensures
            r@ == chordset_display(self@, *f),
    {
        let ghost parts = self@.map_values(|kb: KeyBinding| chord_display(kb, *f));
        let mut out = String::new();
        let n = self.0.len();
        let mut i: usize = 0;
        while i < n
            invariant
                n == self@.len(),
                0 <= i <= n,
                parts == self@.map_values(|kb: KeyBinding| chord_display(kb, *f)),
                parts.len() == n,
                out@ == join_with(parts.take(i as int), sep_of(*f)),
            decreases n - i,
        {
            if i > 0 {
                match f {
                    DisplayFormat::Symbols => out.append("|"),
                    DisplayFormat::Debug => out.append("|"),
                    DisplayFormat::Full => out.append(" | "),
                    DisplayFormat::Abbreviation => out.append(" | "),
                }
            }
            let piece = self.0[i].display(f);
            out.append(piece.as_str());
            proof {
                assert(parts.take(i + 1 as int).drop_last() =~= parts.take(i as int));
                assert(parts.take(i + 1 as int).last() == parts[i as int]);
                assert(out@ =~= join_with(parts.take(i + 1 as int), sep_of(*f)));
            }
            i = i + 1;
        }
        proof {
            assert(parts.take(n as int) =~= parts);
        }
        out
    }
}

/// Rendering is deterministic: the same chord set rendered twice in the
/// same format yields identical text.
pub proof fn lemma_display_idempotent(
    s: Seq<KeyBinding>,
    f: DisplayFormat,
    r1: Seq<char>,
    r2: Seq<char>,
)
    requires
        r1 == chordset_display(s, f),
        r2 == chordset_display(s, f),
    ensures
        r1 == r2,
{
}

} // verus!
