//! The binding table: per-event chord sets built once from declared
//! defaults, optionally overlaid by a user-supplied TOML document in which
//! each present key replaces that event's whole chord list.

use vstd::prelude::*;
use vstd::string::StrSliceExecFns;
use vstd::string::StringExecFns;

use crate::chord::{
    chord_of, keycode_error_text, modifier_error_text, DisplayFormat, KeyBinding, ParseFailure,
};
use crate::chordset::{chordset_display, join_with, spec_match_any, KeyBindings};
use crate::error::Error;
use crate::text::str_eq;

verus! {

/// The declaration of one logical event: its config key and its default
/// chord literals, exactly as declared.
#[derive(Clone, Debug)]
pub struct EventDecl {
    /// The top-level key that names this event in the config document.
    pub key: String,
    /// The default chord literals, each parsed through the codec.
    pub defaults: Vec<String>,
}

/// The mathematical model of a declaration: its key and default literals.
pub open spec fn decl_model(d: EventDecl) -> (Seq<char>, Seq<Seq<char>>) {
    (d.key@, d.defaults.deep_view())
}

/// The model of a declaration list, in declaration order.
pub open spec fn decls_model(ds: Seq<EventDecl>) -> Seq<(Seq<char>, Seq<Seq<char>>)> {
    ds.map_values(|d: EventDecl| decl_model(d))
}

/// No two events share a config key.
pub open spec fn distinct_keys(ds: Seq<(Seq<char>, Seq<Seq<char>>)>) -> bool {
    forall|i: int, j: int| 0 <= i < j < ds.len() ==> ds[i].0 != ds[j].0
}

/// The parse of a whole literal list: the chords in order, or nothing if
/// any literal fails.
pub open spec fn chords_of(lits: Seq<Seq<char>>) -> Option<Seq<KeyBinding>>
    decreases lits.len(),
{
    if lits.len() == 0 {
        Some(Seq::<KeyBinding>::empty())
    } else {
        match chords_of(lits.drop_last()) {
            Some(s) => match chord_of(lits.last()) {
                Ok(kb) => Some(s.push(kb)),
                Err(_) => None,
            },
            None => None,
        }
    }
}

/// The message of a chord-literal parse failure.
pub open spec fn parse_failure_text(pf: ParseFailure) -> Seq<char> {
    match pf {
        ParseFailure::UnknownModifier => modifier_error_text(),
        ParseFailure::UnknownKeyCode => keycode_error_text(),
    }
}

/// The failure text of the first chord literal that does not parse.
pub open spec fn list_err_text(lits: Seq<Seq<char>>) -> Seq<char>
    decreases lits.len(),
{
    if lits.len() == 0 {
        Seq::<char>::empty()
    } else if chord_of(lits.first()) is Err {
        parse_failure_text(chord_of(lits.first())->Err_0)
    } else {
        list_err_text(lits.drop_first())
    }
}

proof fn lemma_list_err_text_at(lits: Seq<Seq<char>>, i: int)
    requires
        0 <= i < lits.len(),
        chord_of(lits[i]) is Err,
        forall|k: int| 0 <= k < i ==> chord_of(#[trigger] lits[k]) is Ok,
    ensures
        list_err_text(lits) == parse_failure_text(chord_of(lits[i])->Err_0),
    decreases i,
{
    if i > 0 {
        assert(chord_of(lits.first()) is Ok);
        assert(forall|k: int|
            0 <= k < i - 1 ==> chord_of(#[trigger] lits.drop_first()[k]) is Ok);
        assert(lits.drop_first()[i - 1] == lits[i]);
        lemma_list_err_text_at(lits.drop_first(), i - 1);
    }
}

proof fn lemma_chords_of_none(lits: Seq<Seq<char>>, i: int)
    requires
        0 <= i < lits.len(),
        chord_of(lits[i]) is Err,
    ensures
        chords_of(lits) is None,
    decreases lits.len(),
{
    if i < lits.len() - 1 {
        lemma_chords_of_none(lits.drop_last(), i);
    }
}

fn parse_chord_list(lits: &Vec<String>) -> (r: Result<Vec<KeyBinding>, String>)
    ensures
        r is Ok <==> chords_of(lits.deep_view()) is Some,
        r matches Ok(v) ==> chords_of(lits.deep_view()) == Some(v@),
        r matches Err(m) ==> m@ == list_err_text(lits.deep_view()),
{
    let ghost l = lits.deep_view();
    let n = lits.len();
    let mut out: Vec<KeyBinding> = Vec::new();
    let mut i: usize = 0;
    while i < n
        invariant
            n == lits@.len(),
            l == lits.deep_view(),
            l.len() == n,
            0 <= i <= n,
            chords_of(l.take(i as int)) == Some(out@),
            forall|k: int| 0 <= k < i ==> chord_of(#[trigger] l[k]) is Ok,
        decreases n - i,
    {
        match KeyBinding::parse(lits[i].as_str()) {
            Ok(kb) => {
                out.push(kb);
                proof {
                    assert(l.take(i + 1 as int).drop_last() =~= l.take(i as int));
                    assert(l.take(i + 1 as int).last() == l[i as int]);
                }
            },
            Err(e) => {
                proof {
                    lemma_chords_of_none(l, i as int);
                    lemma_list_err_text_at(l, i as int);
                }
                match e {
                    Error::ParseError(m) => {
                        return Err(m);
                    },
                    _ => {
                        proof {
                            assert(false);
                        }
                        return Err(String::new());
                    },
                }
            },
        }
        i = i + 1;
    }
    proof {
        assert(l.take(n as int) =~= l);
    }
    Ok(out)
}

/// What an override document holds when its text is a TOML table: each
/// top-level entry's key, and its chord literals where its value is a
/// chord string (the one-element shorthand) or a list of chord strings —
/// nothing for a value of any other shape.  Nothing at all when the text
/// is not a TOML table.
pub uninterp spec fn override_doc_of(s: Seq<char>) -> Option<
    Seq<(Seq<char>, Option<Seq<Seq<char>>>)>,
>;

/// Every entry's value has the chord-list shape.
pub open spec fn well_shaped(es: Seq<(Seq<char>, Option<Seq<Seq<char>>>)>) -> bool {
    forall|j: int| 0 <= j < es.len() ==> (#[trigger] es[j].1) is Some
}

/// The entries of a well-shaped document: each key with its literals.
pub open spec fn shaped_doc(es: Seq<(Seq<char>, Option<Seq<Seq<char>>>)>) -> Seq<
    (Seq<char>, Seq<Seq<char>>),
> {
    es.map_values(|p: (Seq<char>, Option<Seq<Seq<char>>>)| (p.0, p.1.unwrap()))
}

/// The message for a document entry whose value is not a chord list.
pub open spec fn shape_err_text(key: Seq<char>) -> Seq<char> {
    "key `"@ + key + "` must be a chord string or a list of chord strings"@
}

/// Relies on toml's `Table: FromStr` and `Value`: parses a TOML document
/// and flattens each top-level entry into its key and its list of chord
/// strings, a bare string being the one-element shorthand.  The entries
/// are a function of the document text alone, in the table's iteration
/// order.  The first entry of any other value shape is refused with a
/// message naming its key; text that is no TOML table is refused with the
/// parser's own message.
#[verifier::external_body]
fn parse_override_doc(s: &str) -> (r: Result<Vec<(String, Vec<String>)>, String>)
    ensures
        r is Ok <==> (override_doc_of(s@) is Some && well_shaped(override_doc_of(s@).unwrap())),
        r matches Ok(v) ==> v.deep_view() == shaped_doc(override_doc_of(s@).unwrap()),
        r matches Err(m) ==> (override_doc_of(s@) matches Some(es) ==> exists|j: int|
            0 <= j < es.len() && (#[trigger] es[j].1) is None && (forall|k: int|
                0 <= k < j ==> es[k].1 is Some) && m@ == shape_err_text(es[j].0)),
{
    let t: toml::Table = match s.parse() { Ok(t) => t, Err(e) => return Err(e.to_string()) };
    let mut out = Vec::new();
    for (k, v) in t {
        let lits = match v {
            toml::Value::String(c) => vec![c],
            toml::Value::Array(a) => { let mut cs = Vec::new(); for x in a { match x { toml::Value::String(c) => cs.push(c), _ => return Err(format!("key `{k}` must be a chord string or a list of chord strings")) } } cs },
            _ => return Err(format!("key `{k}` must be a chord string or a list of chord strings")),
        };
        out.push((k, lits));
    }
    Ok(out)
}

/// The override literals for a key: the last entry in the document that
/// names it, if any.
pub open spec fn override_for(
    doc: Seq<(Seq<char>, Seq<Seq<char>>)>,
    key: Seq<char>,
) -> Option<Seq<Seq<char>>>
    decreases doc.len(),
{
    if doc.len() == 0 {
        None
    } else if doc.last().0 == key {
        Some(doc.last().1)
    } else {
        override_for(doc.drop_last(), key)
    }
}

/// The literals that govern one event after the merge: the override where
/// the document names the event's key, its declared defaults otherwise.
pub open spec fn effective_lits(
    d: (Seq<char>, Seq<Seq<char>>),
    doc: Seq<(Seq<char>, Seq<Seq<char>>)>,
) -> Seq<Seq<char>> {
    match override_for(doc, d.0) {
        Some(l) => l,
        None => d.1,
    }
}

/// Whether some declared event has this config key.
pub open spec fn key_known(decls: Seq<(Seq<char>, Seq<Seq<char>>)>, key: Seq<char>) -> bool {
    exists|i: int| 0 <= i < decls.len() && decls[i].0 == key
}

/// Every default literal list parses.
pub open spec fn defaults_ok(decls: Seq<(Seq<char>, Seq<Seq<char>>)>) -> bool {
    forall|i: int| 0 <= i < decls.len() ==> chords_of(#[trigger] decls[i].1) is Some
}

/// Every document entry that names a declared event parses.
pub open spec fn doc_entries_ok(
    decls: Seq<(Seq<char>, Seq<Seq<char>>)>,
    doc: Seq<(Seq<char>, Seq<Seq<char>>)>,
) -> bool {
    forall|j: int|
        0 <= j < doc.len() ==> (key_known(decls, #[trigger] doc[j].0) ==> chords_of(doc[j].1)
            is Some)
}

/// The table built from defaults alone.
pub open spec fn default_table(decls: Seq<(Seq<char>, Seq<Seq<char>>)>) -> Seq<Seq<KeyBinding>> {
    Seq::new(decls.len(), |i: int| chords_of(decls[i].1).unwrap())
}

/// The table after the merge: for every event, the parse of its effective
/// literals; nothing if any of them fails.
pub open spec fn resolved_table(
    decls: Seq<(Seq<char>, Seq<Seq<char>>)>,
    doc: Seq<(Seq<char>, Seq<Seq<char>>)>,
) -> Option<Seq<Seq<KeyBinding>>> {
    if forall|i: int|
        0 <= i < decls.len() ==> chords_of(effective_lits(#[trigger] decls[i], doc)) is Some {
        Some(Seq::new(decls.len(), |i: int| chords_of(effective_lits(decls[i], doc)).unwrap()))
    } else {
        None
    }
}

/// The view of an optional override text.
pub open spec fn view_option_str(o: Option<&str>) -> Option<Seq<char>> {
    match o {
        Some(s) => Some(s@),
        None => None,
    }
}

/// The message of an initialization aborted by a default literal: the
/// failing event's key, then the first failing literal's cause.
pub open spec fn default_err_text(key: Seq<char>, lits: Seq<Seq<char>>) -> Seq<char> {
    "invalid default chords for `"@ + key + "`: "@ + list_err_text(lits)
}

/// The message of an initialization aborted by an override entry: the
/// offending key, then the first failing literal's cause.
pub open spec fn override_err_text(key: Seq<char>, lits: Seq<Seq<char>>) -> Seq<char> {
    "invalid chords for `"@ + key + "`: "@ + list_err_text(lits)
}

/// The message of an initialization aborted by a document entry whose
/// value is not a chord list: it names the offending key.
pub open spec fn doc_shape_err_text(key: Seq<char>) -> Seq<char> {
    "invalid keybind override config: "@ + shape_err_text(key)
}

/// The matching event indices, in declaration order, among the first `n`.
pub open spec fn matching_idxs(table: Seq<Seq<KeyBinding>>, ev: KeyBinding, n: int) -> Seq<usize>
    decreases n,
{
    if n <= 0 {
        Seq::<usize>::empty()
    } else {
        let p = matching_idxs(table, ev, n - 1);
        if spec_match_any(table[n - 1], ev) {
            p.push((n - 1) as usize)
        } else {
            p
        }
    }
}

/// Every matching index is below the bound.
pub proof fn lemma_matching_idxs_bounds(table: Seq<Seq<KeyBinding>>, ev: KeyBinding, n: int)
    requires
        n >= 0,
    ensures
        forall|k: int|
            0 <= k < matching_idxs(table, ev, n).len() ==> (#[trigger] matching_idxs(
                table,
                ev,
                n,
            )[k]) < n,
    decreases n,
{
    if n > 0 {
        lemma_matching_idxs_bounds(table, ev, n - 1);
        let p = matching_idxs(table, ev, n - 1);
        let c = matching_idxs(table, ev, n);
        assert forall|k: int| 0 <= k < c.len() implies c[k] < n by {
            if spec_match_any(table[n - 1], ev) {
                assert(c == p.push((n - 1) as usize));
                if k < p.len() {
                    assert(c[k] == p[k]);
                } else {
                    assert(c[k] == (n - 1) as usize);
                }
            } else {
                assert(c == p);
            }
        }
    }
}

/// The binding table: uninitialized at construction, then committed
/// exactly once by a successful `init_and_load`, read-only thereafter.
pub struct KeyBinds {
    initialized: bool,
    table: Vec<KeyBindings>,
}

/// What one `init_and_load` call does: a second call fails with
/// `DoubleInitError` and changes nothing; a default-literal failure aborts
/// with `DefaultConfigError` naming the event's key; an override document
/// that is no TOML table, one whose entry holds no chord list (the message
/// names that key), or an override chord literal that fails for a declared
/// key (likewise named) aborts with `ConfigFormatError`; otherwise the
/// table commits to the defaults with every overridden event's list
/// replaced whole.
pub open spec fn init_outcome(
    pre: KeyBinds,
    post: KeyBinds,
    decls: Seq<(Seq<char>, Seq<Seq<char>>)>,
    text: Option<Seq<char>>,
    r: Result<(), Error>,
) -> bool {
    if pre.is_initialized() {
        r == Err::<(), Error>(Error::DoubleInitError) && post == pre
    } else if !defaults_ok(decls) {
        (r matches Err(e) && e matches Error::DefaultConfigError(m) && (exists|i: int|
            0 <= i < decls.len() && chords_of(#[trigger] decls[i].1) is None && (forall|k: int|
                0 <= k < i ==> chords_of(#[trigger] decls[k].1) is Some) && m@
                == default_err_text(decls[i].0, decls[i].1))) && post == pre
    } else {
        match text {
            None => r is Ok && post.is_initialized() && post.table_view() == default_table(
                decls,
            ),
            Some(s) => match override_doc_of(s) {
                None => (r matches Err(e) && e matches Error::ConfigFormatError(_)) && post
                    == pre,
                Some(es) => if !well_shaped(es) {
                    (r matches Err(e) && e matches Error::ConfigFormatError(m) && (exists|
                        j: int,
                    |
                        0 <= j < es.len() && (#[trigger] es[j].1) is None && (forall|k: int|
                            0 <= k < j ==> es[k].1 is Some) && m@ == doc_shape_err_text(
                            es[j].0,
                        ))) && post == pre
                } else {
                    let doc = shaped_doc(es);
                    if doc_entries_ok(decls, doc) {
                        r is Ok && post.is_initialized() && Some(post.table_view())
                            == resolved_table(decls, doc)
                    } else {
                        (r matches Err(e) && e matches Error::ConfigFormatError(m) && (exists|
                            j: int,
                        |
                            0 <= j < doc.len() && key_known(decls, #[trigger] doc[j].0)
                                && chords_of(doc[j].1) is None && (forall|k: int|
                                0 <= k < j ==> (key_known(decls, #[trigger] doc[k].0)
                                    ==> chords_of(doc[k].1) is Some)) && m@
                                == override_err_text(doc[j].0, doc[j].1))) && post == pre
                    }
                },
            },
        }
    }
}

fn find_decl(decls: &Vec<EventDecl>, key: &str) -> (r: Option<usize>)
    ensures
        match r {
            Some(i) => i < decls@.len() && decls_model(decls@)[i as int].0 == key@ && (forall|
                k: int,
            |
                0 <= k < i ==> decls_model(decls@)[k].0 != key@),
            None => forall|k: int| 0 <= k < decls@.len() ==> decls_model(decls@)[k].0 != key@,
        },
{
    let n = decls.len();
    let mut t: usize = 0;
    while t < n
        invariant
            n == decls@.len(),
            0 <= t <= n,
            forall|k: int| 0 <= k < t ==> decls_model(decls@)[k].0 != key@,
        decreases n - t,
    {
        if str_eq(decls[t].key.as_str(), key) {
            return Some(t);
        }
        t = t + 1;
    }
    None
}

impl KeyBinds {
    /// Whether the one-shot initialization has committed.
    pub closed spec fn is_initialized(&self) -> bool {
        self.initialized
    }

    /// The committed chord sets, by event declaration order.
    pub closed spec fn table_view(&self) -> Seq<Seq<KeyBinding>> {
        self.table@.map_values(|s: KeyBindings| s@)
    }

    /// A fresh, uninitialized table.
    pub fn new() -> (r: KeyBinds)
        ensures
            !r.is_initialized(),
            r.table_view().len() == 0,
    {
        let r = KeyBinds { initialized: false, table: Vec::new() };
        proof {
            assert(r.table_view() =~= Seq::<Seq<KeyBinding>>::empty());
        }
        r
    }

    /// Builds the table from the declared defaults, overlays the optional
    /// override document, and commits — exactly once; see `init_outcome`
    /// for the complete contract.
    pub fn init_and_load(&mut self, decls: &Vec<EventDecl>, overrides: Option<&str>) -> (r:
        Result<(), Error>)
        requires
            distinct_keys(decls_model(decls@)),
        ensures
            init_outcome(
                *old(self),
                *final(self),
                decls_model(decls@),
                view_option_str(overrides),
                r,
            ),
    {
        let ghost dm = decls_model(decls@);
        if self.initialized {
            return Err(Error::DoubleInitError);
        }
        let n = decls.len();
        let mut table: Vec<KeyBindings> = Vec::new();
        let mut i: usize = 0;
        while i < n
            invariant
                n == decls@.len(),
                dm == decls_model(decls@),
                dm.len() == n,
                0 <= i <= n,
                table@.len() == i,
                forall|k: int| 0 <= k < i ==> chords_of(#[trigger] dm[k].1) is Some,
                forall|k: int|
                    0 <= k < i ==> (#[trigger] table@[k])@ == chords_of(dm[k].1).unwrap(),
                *self == *old(self),
                !self.initialized,
            decreases n - i,
        {
            match parse_chord_list(&decls[i].defaults) {
                Ok(v) => {
                    table.push(KeyBindings(v));
                },
                Err(m) => {
                    proof {
                        assert(chords_of(dm[i as int].1) is None);
                        assert(!defaults_ok(dm));
                    }
                    let mut msg = String::from_str("invalid default chords for `");
                    msg.append(decls[i].key.as_str());
                    msg.append("`: ");
                    msg.append(m.as_str());
                    proof {
                        assert(msg@ =~= default_err_text(dm[i as int].0, dm[i as int].1));
                    }
                    return Err(Error::DefaultConfigError(msg));
                },
            }
            i = i + 1;
        }
        match overrides {
            None => {
                self.table = table;
                self.initialized = true;
                proof {
                    assert(self.table_view() =~= default_table(dm));
                }
                Ok(())
            },
            Some(text) => {
                let entries = match parse_override_doc(text) {
                    Ok(es) => es,
                    Err(m) => {
                        let mut msg = String::from_str("invalid keybind override config: ");
                        msg.append(m.as_str());
                        proof {
                            match override_doc_of(text@) {
                                Some(es) => {
                                    let j = choose|j: int|
                                        0 <= j < es.len() && (#[trigger] es[j].1) is None && (
                                        forall|k: int| 0 <= k < j ==> es[k].1 is Some) && m@
                                            == shape_err_text(es[j].0);
                                    assert(msg@ == doc_shape_err_text(es[j].0));
                                },
                                None => {},
                            }
                        }
                        return Err(Error::ConfigFormatError(msg));
                    },
                };
                let ghost es_doc = override_doc_of(text@).unwrap();
                let ghost doc = shaped_doc(es_doc);
                let ghost em = entries.deep_view();
                proof {
                    assert(doc.take(0) =~= Seq::<(Seq<char>, Seq<Seq<char>>)>::empty());
                }
                let m_entries = entries.len();
                let mut j: usize = 0;
                while j < m_entries
                    invariant
                        n == decls@.len(),
                        dm == decls_model(decls@),
                        dm.len() == n,
                        distinct_keys(dm),
                        defaults_ok(dm),
                        view_option_str(overrides) == Some(text@),
                        override_doc_of(text@) is Some,
                        es_doc == override_doc_of(text@).unwrap(),
                        well_shaped(es_doc),
                        doc == shaped_doc(es_doc),
                        m_entries == entries@.len(),
                        em == entries.deep_view(),
                        em.len() == m_entries,
                        em == doc,
                        0 <= j <= m_entries,
                        table@.len() == n,
                        forall|k: int|
                            0 <= k < n ==> chords_of(
                                effective_lits(#[trigger] dm[k], doc.take(j as int)),
                            ) is Some,
                        forall|k: int|
                            0 <= k < n ==> (#[trigger] table@[k])@ == chords_of(
                                effective_lits(dm[k], doc.take(j as int)),
                            ).unwrap(),
                        forall|jj: int|
                            0 <= jj < j ==> (key_known(dm, #[trigger] doc[jj].0) ==> chords_of(
                                doc[jj].1,
                            ) is Some),
                        *self == *old(self),
                        !self.initialized,
                    decreases m_entries - j,
                {
                    let e = &entries[j];
                    proof {
                        assert(em[j as int] == (e.0@, e.1.deep_view()));
                        assert(doc.take(j + 1 as int).drop_last() =~= doc.take(j as int));
                        assert(doc.take(j + 1 as int).last() == doc[j as int]);
                    }
                    match find_decl(decls, e.0.as_str()) {
                        None => {
                            proof {
                                assert(forall|k: int|
                                    0 <= k < n ==> effective_lits(
                                        #[trigger] dm[k],
                                        doc.take(j + 1 as int),
                                    ) == effective_lits(dm[k], doc.take(j as int)));
                                assert(!key_known(dm, doc[j as int].0));
                            }
                        },
                        Some(di) => {
                            match parse_chord_list(&e.1) {
                                Ok(v) => {
                                    table[di] = KeyBindings(v);
                                    proof {
                                        assert(dm[di as int].0 == doc[j as int].0);
                                        assert(forall|k: int|
                                            0 <= k < n && k != di ==> #[trigger] dm[k].0
                                                != doc[j as int].0);
                                        assert(effective_lits(dm[di as int], doc.take(j + 1 as int))
                                            == doc[j as int].1);
                                        assert(forall|k: int|
                                            0 <= k < n && k != di ==> effective_lits(
                                                #[trigger] dm[k],
                                                doc.take(j + 1 as int),
                                            ) == effective_lits(dm[k], doc.take(j as int)));
                                    }
                                },
                                Err(m) => {
                                    proof {
                                        assert(key_known(dm, doc[j as int].0));
                                        assert(chords_of(doc[j as int].1) is None);
                                        assert(!doc_entries_ok(dm, doc));
                                    }
                                    let mut msg = String::from_str("invalid chords for `");
                                    msg.append(e.0.as_str());
                                    msg.append("`: ");
                                    msg.append(m.as_str());
                                    proof {
                                        assert(msg@ =~= override_err_text(
                                            doc[j as int].0,
                                            doc[j as int].1,
                                        ));
                                    }
                                    return Err(Error::ConfigFormatError(msg));
                                },
                            }
                        },
                    }
                    j = j + 1;
                }
                proof {
                    assert(doc.take(m_entries as int) =~= doc);
                }
                self.table = table;
                self.initialized = true;
                proof {
                    assert(doc_entries_ok(dm, doc));
                    assert(resolved_table(dm, doc) matches Some(t) && self.table_view() =~= t);
                }
                Ok(())
            },
        }
    }

    /// Whether the event at `idx` is triggered by the key event; fails
    /// when the table was never initialized or does not hold that event.
    pub fn match_any_idx(&self, idx: usize, key_event: &KeyBinding) -> (r: Result<bool, Error>)
        ensures
            self.is_initialized() && idx < self.table_view().len() ==> r == Ok::<bool, Error>(
                spec_match_any(self.table_view()[idx as int], *key_event),
            ),
            !(self.is_initialized() && idx < self.table_view().len()) ==> r == Err::<
                bool,
                Error,
            >(Error::UninitializedAccessError),
    {
        if !self.initialized || idx >= self.table.len() {
            return Err(Error::UninitializedAccessError);
        }
        Ok(self.table[idx].match_any(key_event))
    }

    /// All matching event indices among `n_events`, in declaration order;
    /// fails when the table was never initialized or holds a different
    /// number of events.
    pub fn dispatch_all(&self, n_events: usize, key_event: &KeyBinding) -> (r: Result<
        Vec<usize>,
        Error,
    >)
        ensures
            self.is_initialized() && self.table_view().len() == n_events ==> (r matches Ok(v)
                && v@ == matching_idxs(self.table_view(), *key_event, n_events as int)),
            !(self.is_initialized() && self.table_view().len() == n_events) ==> r == Err::<
                Vec<usize>,
                Error,
            >(Error::UninitializedAccessError),
    {
        if !self.initialized || self.table.len() != n_events {
            return Err(Error::UninitializedAccessError);
        }
        let mut v: Vec<usize> = Vec::new();
        let mut i: usize = 0;
        while i < n_events
            invariant
                self.is_initialized(),
                self.table_view().len() == n_events,
                n_events == self.table@.len(),
                0 <= i <= n_events,
                v@ == matching_idxs(self.table_view(), *key_event, i as int),
            decreases n_events - i,
        {
            if self.table[i].match_any(key_event) {
                v.push(i);
            }
            i = i + 1;
        }
        Ok(v)
    }

    /// Renders the chord set of the event at `idx`; fails when the table
    /// was never initialized or does not hold that event.
    pub fn key_bindings_display_idx(&self, idx: usize, f: &DisplayFormat) -> (r: Result<
        String,
        Error,
    >)
        ensures
            self.is_initialized() && idx < self.table_view().len() ==> (r matches Ok(s) && s@
                == chordset_display(self.table_view()[idx as int], *f)),
            !(self.is_initialized() && idx < self.table_view().len()) ==> r == Err::<
                String,
                Error,
            >(Error::UninitializedAccessError),
    {
        if !self.initialized || idx >= self.table.len() {
            return Err(Error::UninitializedAccessError);
        }
        Ok(self.table[idx].display(f))
    }
}

/// A quoted chord literal, as it appears in the config document.
pub open spec fn quoted(l: Seq<char>) -> Seq<char> {
    seq!['"'] + l + seq!['"']
}

/// One line of the config template: the key, then the quoted default
/// literals in declaration order.
pub open spec fn example_line(key: Seq<char>, lits: Seq<Seq<char>>) -> Seq<char> {
    key + " = ["@ + join_with(lits.map_values(|l: Seq<char>| quoted(l)), ", "@) + "]\n"@
}

/// The whole config template: one line per declared event, in order.
pub open spec fn example_text(decls: Seq<(Seq<char>, Seq<Seq<char>>)>) -> Seq<char>
    decreases decls.len(),
{
    if decls.len() == 0 {
        Seq::<char>::empty()
    } else {
        example_text(decls.drop_last()) + example_line(decls.last().0, decls.last().1)
    }
}

/// Renders the default config document: every event key present with its
/// literal declared defaults, a user-editable starting point.  Independent
/// of any table state.
pub fn render_config_example(decls: &Vec<EventDecl>) -> (r: String)
    ensures
        r@ == example_text(decls_model(decls@)),
{
    let ghost dm = decls_model(decls@);
    let mut out = String::new();
    let n = decls.len();
    let mut i: usize = 0;
    while i < n
        invariant
            n == decls@.len(),
            dm == decls_model(decls@),
            dm.len() == n,
            0 <= i <= n,
            out@ == example_text(dm.take(i as int)),
        decreases n - i,
    {
        let d = &decls[i];
        let ghost lits = d.defaults.deep_view();
        let ghost parts = lits.map_values(|l: Seq<char>| quoted(l));
        out.append(d.key.as_str());
        out.append(" = [");
        let ghost line_start = out@;
        let m = d.defaults.len();
        let mut j: usize = 0;
        while j < m
            invariant
                m == d.defaults@.len(),
                lits == d.defaults.deep_view(),
                parts == lits.map_values(|l: Seq<char>| quoted(l)),
                parts.len() == m,
                0 <= j <= m,
                out@ == line_start + join_with(parts.take(j as int), ", "@),
            decreases m - j,
        {
            if j > 0 {
                out.append(", ");
            }
            out.push('"');
            out.append(d.defaults[j].as_str());
            out.push('"');
            proof {
                assert(parts.take(j + 1 as int).drop_last() =~= parts.take(j as int));
                assert(parts.take(j + 1 as int).last() == parts[j as int]);
                assert(out@ =~= line_start + join_with(parts.take(j + 1 as int), ", "@));
            }
            j = j + 1;
        }
        out.append("]\n");
        proof {
            assert(parts.take(m as int) =~= parts);
            assert(dm.take(i + 1 as int).drop_last() =~= dm.take(i as int));
            assert(dm.take(i + 1 as int).last() == dm[i as int]);
            assert(out@ =~= example_text(dm.take(i + 1 as int)));
        }
        i = i + 1;
    }
    proof {
        assert(dm.take(n as int) =~= dm);
    }
    out
}

} // verus!
