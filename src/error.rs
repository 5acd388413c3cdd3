use vstd::prelude::*;
use vstd::string::StringExecFns;

verus! {

/// The kind of the first violation of the name grammar found in a string.
#[derive(Debug, Clone, Copy, PartialEq, Eq, Structural)]
#[non_exhaustive]
pub enum ErrorKind {
    /// The string has no characters.
    Empty,
    /// The first character cannot start a name.
    Start(char),
    /// A later character cannot appear in a name (the leftmost such one).
    Continue(char),
}

/// The text that `{:?}` gives for `c`: the character quoted, escaped where needed.
pub uninterp spec fn char_debug_text(c: char) -> Seq<char>;

/// Relies on std's `Debug` impl for `char` (through `format!`) for the quoted,
/// escaped form of `c`, which depends on `c` alone.
#[verifier::external_body]
fn debug_char(c: char) -> (r: String)
    ensures
        r@ == char_debug_text(c),
{
    format!("{c:?}")
}

/// The message that describes a violation of kind `kind`.
pub open spec fn error_message(kind: ErrorKind) -> Seq<char> {
    match kind {
        ErrorKind::Empty => "Invalid QName: Cannot be empty"@,
        ErrorKind::Start(c) => "Invalid QName: First char cannot be "@ + char_debug_text(c),
        ErrorKind::Continue(c) => "Invalid QName: Cannot contain "@ + char_debug_text(c),
    }
}

/// Why a string is not a qualified name.
#[derive(Debug, Clone, Copy, PartialEq, Eq, Structural)]
pub struct Error {
    kind: ErrorKind,
}

impl Error {
    pub closed spec fn spec_kind(self) -> ErrorKind {
        self.kind
    }

    pub(crate) fn from_kind(kind: ErrorKind) -> (r: Error)
        ensures
            r.spec_kind() == kind,
    {
        Error { kind }
    }

    /// The violation this error describes.
    pub fn kind(&self) -> (r: ErrorKind)
        ensures
            r == self.spec_kind(),
    {
        self.kind
    }

    /// A human-readable description of the violation.
    pub fn to_string(&self) -> (r: String)
        ensures
            r@ == error_message(self.spec_kind()),
    {
        match self.kind {
            ErrorKind::Empty => String::from_str("Invalid QName: Cannot be empty"),
            ErrorKind::Start(c) => {
                let mut s = String::from_str("Invalid QName: First char cannot be ");
                let d = debug_char(c);
                s.append(d.as_str());
                s
            },
            ErrorKind::Continue(c) => {
                let mut s = String::from_str("Invalid QName: Cannot contain ");
                let d = debug_char(c);
                s.append(d.as_str());
                s
            },
        }
    }
}

} // verus!
