use vstd::prelude::*;

verus! {

/// The broad class of a failure, which decides how it is reported.
#[derive(Clone, Copy, Debug, PartialEq, Eq, Structural)]
pub enum ErrorKind {
    /// The caller supplied invalid or missing input.
    User,
    /// An external tool exited abnormally.
    System,
    /// A remote service does not know the requested item.
    NotFound,
    /// A remote service could not be reached.
    Network,
    /// A remote service returned malformed data.
    Parse,
    /// A local file could not be read or written.
    Io,
}

/// A structured failure: its kind, what went wrong and what to do about it.
#[derive(Debug)]
pub struct Error {
    pub kind: ErrorKind,
    pub message: String,
    pub advice: String,
}

impl Error {
    /// Builds an error of the given kind from its message and advice.
    pub fn new(kind: ErrorKind, message: &str, advice: &str) -> (e: Error)
        ensures
            e.kind == kind,
            e.message@ == message@,
            e.advice@ == advice@,
    {
        Error { kind, message: message.to_owned(), advice: advice.to_owned() }
    }

    /// The message that describes the failure.
    pub fn message(&self) -> (r: String)
        ensures
            r@ == self.message@,
    {
        self.message.clone()
    }

    /// The advice that tells the user how to remedy the failure.
    pub fn advice(&self) -> (r: String)
        ensures
            r@ == self.advice@,
    {
        self.advice.clone()
    }
}

/// An error caused by the caller's input.
pub fn user(message: &str, advice: &str) -> (e: Error)
    ensures
        e.kind == ErrorKind::User,
        e.message@ == message@,
        e.advice@ == advice@,
{
    Error::new(ErrorKind::User, message, advice)
}

/// An error caused by an external tool.
pub fn system(message: &str, advice: &str) -> (e: Error)
    ensures
        e.kind == ErrorKind::System,
        e.message@ == message@,
        e.advice@ == advice@,
{
    Error::new(ErrorKind::System, message, advice)
}

} // verus!
