//! The logical-event interface: an event enum declares its config keys and
//! default chords, and gains matching, dispatch and display over a
//! `KeyBinds` table, plus the default config template.

use vstd::prelude::*;
use vstd::string::StringExecFns;

use crate::chord::{DisplayFormat, KeyBinding};
use crate::chordset::{chordset_display, spec_match_any};
use crate::error::Error;
use crate::table::{
    decls_model, distinct_keys, example_text, init_outcome, matching_idxs, render_config_example,
    view_option_str, EventDecl, KeyBinds, lemma_matching_idxs_bounds,
};

verus! {

/// The operations a logical-event type offers over a binding table.  Every
/// table-reading method requires the table to have been initialized (with
/// this type's declarations); it fails loudly with
/// `UninitializedAccessError` otherwise, never silently reporting no
/// match.
pub trait KeyBindTrait: Sized {
    /// The model of the event declarations: config key and default chord
    /// literals per event, in declaration order.
    spec fn spec_decls() -> Seq<(Seq<char>, Seq<Seq<char>>)>;

    /// The event's position in declaration order.
    spec fn spec_index(&self) -> int;

    /// The event at a declaration position.
    spec fn spec_event(i: int) -> Self;

    /// The declarations are well formed: config keys are distinct, every
    /// event's index is in range, and `spec_event` inverts `spec_index`.
    proof fn lemma_decls_wf()
        ensures
            distinct_keys(Self::spec_decls()),
            forall|e: Self| 0 <= #[trigger] e.spec_index() < Self::spec_decls().len(),
            forall|i: int|
                0 <= i < Self::spec_decls().len() ==> (#[trigger] Self::spec_event(
                    i,
                )).spec_index() == i,
    ;

    /// The declared events: config key and default chord literals each.
    fn declarations() -> (r: Vec<EventDecl>)
        ensures
            decls_model(r@) == Self::spec_decls(),
    ;

    /// Builds the default table from the declarations, overlays the
    /// optional override document, and commits — exactly once per table;
    /// see `init_outcome` for the complete contract.
    fn init_and_load(binds: &mut KeyBinds, overrides: Option<&str>) -> (r: Result<(), Error>)
        ensures
            init_outcome(
                *old(binds),
                *final(binds),
                Self::spec_decls(),
                view_option_str(overrides),
                r,
            ),
    ;

    /// Whether this event is triggered by the key event: true iff some
    /// chord in its committed set equals the event's code and modifier.
    fn match_any(&self, binds: &KeyBinds, key_event: &KeyBinding) -> (r: Result<bool, Error>)
        ensures
            binds.is_initialized() && self.spec_index() < binds.table_view().len() ==> r
                == Ok::<bool, Error>(
                spec_match_any(binds.table_view()[self.spec_index()], *key_event),
            ),
            !(binds.is_initialized() && self.spec_index() < binds.table_view().len()) ==> r
                == Err::<bool, Error>(Error::UninitializedAccessError),
    ;

    /// All events the key event triggers, in declaration order — the call
    /// to use when bindings may overlap.
    fn dispatch(binds: &KeyBinds, key_event: &KeyBinding) -> (r: Result<Vec<Self>, Error>)
        ensures
            binds.is_initialized() && binds.table_view().len() == Self::spec_decls().len()
                ==> (r matches Ok(v) && v@ == matching_idxs(
                binds.table_view(),
                *key_event,
                Self::spec_decls().len() as int,
            ).map_values(|u: usize| Self::spec_event(u as int))),
            !(binds.is_initialized() && binds.table_view().len() == Self::spec_decls().len())
                ==> r == Err::<Vec<Self>, Error>(Error::UninitializedAccessError),
    ;

    /// The default config template: every event key present with its
    /// literal declared defaults, independent of any table state.
    fn toml_example() -> (r: String)
        ensures
            r@ == example_text(Self::spec_decls()),
    ;

    /// Renders this event's committed chord set in the Symbols style.
    fn key_bindings_display(&self, binds: &KeyBinds) -> (r: Result<String, Error>)
        ensures
            binds.is_initialized() && self.spec_index() < binds.table_view().len() ==> (
            r matches Ok(s) && s@ == chordset_display(
                binds.table_view()[self.spec_index()],
                DisplayFormat::Symbols,
            )),
            !(binds.is_initialized() && self.spec_index() < binds.table_view().len()) ==> r
                == Err::<String, Error>(Error::UninitializedAccessError),
    ;

    /// Renders this event's committed chord set in the given style.
    fn key_bindings_display_with_format(&self, binds: &KeyBinds, f: &DisplayFormat) -> (r:
        Result<String, Error>)
        ensures
            binds.is_initialized() && self.spec_index() < binds.table_view().len() ==> (
            r matches Ok(s) && s@ == chordset_display(
                binds.table_view()[self.spec_index()],
                *f,
            )),
            !(binds.is_initialized() && self.spec_index() < binds.table_view().len()) ==> r
                == Err::<String, Error>(Error::UninitializedAccessError),
    ;
}

/// The logical input events of the bundled terminal application.
#[derive(Clone, Copy, PartialEq, Eq, Structural, Debug)]
pub enum KeyEvent {
    /// Close the application; bound to `Control+c`, `Q` and `q` by
    /// default.
    Quit,
    /// Open or close the widget that lists all commands; bound to `F1`
    /// and `?` by default.
    ToggleHelpWidget,
}

impl KeyEvent {
    /// The event's position in declaration order.
    pub fn index(&self) -> (i: usize)
        ensures
            i as int == self.spec_index(),
    {
        match self {
            KeyEvent::Quit => 0,
            KeyEvent::ToggleHelpWidget => 1,
        }
    }
}

impl KeyBindTrait for KeyEvent {
    open spec fn spec_decls() -> Seq<(Seq<char>, Seq<Seq<char>>)> {
        seq![
            ("quit"@, seq!["Control+c"@, "Q"@, "q"@]),
            ("toggle_help_widget"@, seq!["F1"@, "?"@]),
        ]
    }

    open spec fn spec_index(&self) -> int {
        match self {
            KeyEvent::Quit => 0,
            KeyEvent::ToggleHelpWidget => 1,
        }
    }

    open spec fn spec_event(i: int) -> Self {
        if i == 0 {
            KeyEvent::Quit
        } else {
            KeyEvent::ToggleHelpWidget
        }
    }

    proof fn lemma_decls_wf() {
        reveal_strlit("quit");
        reveal_strlit("toggle_help_widget");
        assert("quit"@.len() != "toggle_help_widget"@.len());
        assert(distinct_keys(Self::spec_decls()));
        assert forall|e: KeyEvent| 0 <= #[trigger] e.spec_index() < Self::spec_decls().len() by {
            match e {
                KeyEvent::Quit => {},
                KeyEvent::ToggleHelpWidget => {},
            }
        }
    }

    fn declarations() -> (r: Vec<EventDecl>) {
        let mut quit_lits: Vec<String> = Vec::new();
        quit_lits.push(String::from_str("Control+c"));
        quit_lits.push(String::from_str("Q"));
        quit_lits.push(String::from_str("q"));
        let mut help_lits: Vec<String> = Vec::new();
        help_lits.push(String::from_str("F1"));
        help_lits.push(String::from_str("?"));
        let ghost quit_view = quit_lits.deep_view();
        let ghost help_view = help_lits.deep_view();
        let mut r: Vec<EventDecl> = Vec::new();
        r.push(EventDecl { key: String::from_str("quit"), defaults: quit_lits });
        r.push(EventDecl { key: String::from_str("toggle_help_widget"), defaults: help_lits });
        proof {
            assert(quit_view =~= seq!["Control+c"@, "Q"@, "q"@]);
            assert(help_view =~= seq!["F1"@, "?"@]);
            assert(decls_model(r@) =~= Self::spec_decls());
        }
        r
    }

    fn init_and_load(binds: &mut KeyBinds, overrides: Option<&str>) -> (r: Result<(), Error>) {
        let decls = Self::declarations();
        proof {
            Self::lemma_decls_wf();
        }
        binds.init_and_load(&decls, overrides)
    }

    fn match_any(&self, binds: &KeyBinds, key_event: &KeyBinding) -> (r: Result<bool, Error>) {
        binds.match_any_idx(self.index(), key_event)
    }

    fn dispatch(binds: &KeyBinds, key_event: &KeyBinding) -> (r: Result<Vec<KeyEvent>, Error>) {
        let idxs = match binds.dispatch_all(2, key_event) {
            Ok(v) => v,
            Err(e) => {
                return Err(e);
            },
        };
        let ghost tv = binds.table_view();
        let ghost ms = matching_idxs(tv, *key_event, 2);
        proof {
            lemma_matching_idxs_bounds(tv, *key_event, 2);
        }
        let n = idxs.len();
        let mut out: Vec<KeyEvent> = Vec::new();
        let mut k: usize = 0;
        while k < n
            invariant
                n == idxs@.len(),
                idxs@ == ms,
                ms == matching_idxs(tv, *key_event, 2),
                forall|t: int| 0 <= t < ms.len() ==> (#[trigger] ms[t]) < 2,
                0 <= k <= n,
                out@ == ms.take(k as int).map_values(|u: usize| Self::spec_event(u as int)),
            decreases n - k,
        {
            let ix = idxs[k];
            let e = if ix == 0 {
                KeyEvent::Quit
            } else {
                KeyEvent::ToggleHelpWidget
            };
            out.push(e);
            proof {
                assert(ms.take(k + 1 as int).drop_last() =~= ms.take(k as int));
                assert(ms.take(k + 1 as int).last() == ms[k as int]);
                assert(out@ =~= ms.take(k + 1 as int).map_values(
                    |u: usize| Self::spec_event(u as int),
                ));
            }
            k = k + 1;
        }
        proof {
            assert(ms.take(n as int) =~= ms);
        }
        Ok(out)
    }

    fn toml_example() -> (r: String) {
        let decls = Self::declarations();
        render_config_example(&decls)
    }

    fn key_bindings_display(&self, binds: &KeyBinds) -> (r: Result<String, Error>) {
        let f = DisplayFormat::Symbols;
        binds.key_bindings_display_idx(self.index(), &f)
    }

    fn key_bindings_display_with_format(&self, binds: &KeyBinds, f: &DisplayFormat) -> (r:
        Result<String, Error>) {
        binds.key_bindings_display_idx(self.index(), f)
    }
}

} // verus!
