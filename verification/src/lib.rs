//! Key-chord bindings for terminal applications.
//!
//! A *chord* is a single key combination such as `Control+c`, written in a
//! stable textual form.  Each logical application event declares a default
//! list of chords; an optional user-supplied TOML document may replace the
//! list of any subset of events.  Once the resulting binding table is
//! committed, incoming key events are matched against it and chord sets can
//! be rendered in several human display styles.

pub mod chord;
pub mod chordset;
pub mod error;
pub mod events;
pub mod table;
pub mod text;

pub use chord::{DisplayFormat, KeyBinding, KeyCode, MediaKeyCode, Modifier};
pub use chordset::KeyBindings;
pub use error::Error;
pub use events::{KeyBindTrait, KeyEvent};
pub use table::{EventDecl, KeyBinds};

