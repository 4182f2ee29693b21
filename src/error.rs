use vstd::prelude::*;

verus! {

/// The kinds of failure the harness tells apart.
#[derive(Clone, Copy, Debug, PartialEq, Eq, Structural)]
pub enum ErrorKind {
    /// The case data itself is malformed.
    Corpus,
    /// An ignore pattern could not be parsed.
    Selector,
    /// The implementation under test reported a failure, or its output could
    /// not be read.
    Implementation,
    /// The external program could not be run or exited unsuccessfully.
    Process,
    /// The produced value differs from the expected one, or a document that
    /// should have been rejected was accepted.
    Mismatch,
    /// A scalar's text cannot be read under its tag, so the values cannot be
    /// compared: a fixture or programming error, not a verdict on the case.
    Unreadable,
}

/// An error with a human-readable message.
#[derive(Clone, Debug)]
pub struct Error {
    kind: ErrorKind,
    message: String,
}

impl Error {
    pub closed spec fn spec_kind(&self) -> ErrorKind {
        self.kind
    }

    pub closed spec fn spec_message(&self) -> Seq<char> {
        self.message@
    }

    /// An error reported by an implementation under test.
    pub fn new(message: String) -> (r: Error)
        ensures
            r.spec_kind() == ErrorKind::Implementation,
            r.spec_message() == message@,
    {
        Error { kind: ErrorKind::Implementation, message }
    }

    pub fn with_kind(kind: ErrorKind, message: String) -> (r: Error)
        ensures
            r.spec_kind() == kind,
            r.spec_message() == message@,
    {
        Error { kind, message }
    }

    pub fn kind(&self) -> (r: ErrorKind)
        ensures
            r == self.spec_kind(),
    {
        self.kind
    }

    pub fn message(&self) -> (r: &str)
        ensures
            r@ == self.spec_message(),
    {
        self.message.as_str()
    }
}

} // verus!
