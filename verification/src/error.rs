use vstd::prelude::*;
use vstd::string::StringExecFns;

verus! {

/// Every failure the library reports.  Each variant carries a
/// human-readable cause where one exists; none is ever swallowed into a
/// silent default value.
#[derive(Clone, PartialEq, Eq, Debug)]
pub enum Error {
    /// A chord string could not be parsed (unrecognized modifier or key-code
    /// token).  The message names the accepted vocabulary.
    ParseError(String),
    /// A chord's key code has no textual representation.
    SerializeError(String),
    /// The override config file could not be read.  Only callers that
    /// perform the read construct this variant.
    ConfigReadError(String),
    /// The override document is not a valid partial binding document, or a
    /// chord literal inside it failed to parse.
    ConfigFormatError(String),
    /// A compiled-in default chord literal failed to parse; initialization
    /// aborts entirely.
    DefaultConfigError(String),
    /// Initialization was attempted after a successful commit.
    DoubleInitError,
    /// A match, dispatch or display call reached a table that was never
    /// initialized, or one that does not hold the requested event.
    UninitializedAccessError,
}

impl Error {
    /// The variant's message, or a fixed description for the two
    /// message-free variants.
    pub fn describe(&self) -> (r: String)
        ensures
            match self {
                Error::ParseError(m) => r@ == m@,
                Error::SerializeError(m) => r@ == m@,
                Error::ConfigReadError(m) => r@ == m@,
                Error::ConfigFormatError(m) => r@ == m@,
                Error::DefaultConfigError(m) => r@ == m@,
                Error::DoubleInitError => r@ == "can not init keybind config more than once"@,
                Error::UninitializedAccessError => r@
                    == "keybind config used before initialization"@,
            },
    {
        match self {
            Error::ParseError(m) => m.clone(),
            Error::SerializeError(m) => m.clone(),
            Error::ConfigReadError(m) => m.clone(),
            Error::ConfigFormatError(m) => m.clone(),
            Error::DefaultConfigError(m) => m.clone(),
            Error::DoubleInitError => String::from_str(
                "can not init keybind config more than once",
            ),
            Error::UninitializedAccessError => String::from_str(
                "keybind config used before initialization",
            ),
        }
    }
}

} // verus!
