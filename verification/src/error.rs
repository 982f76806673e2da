use vstd::prelude::*;

verus! {

/// The kinds of failure that the connection layer reports.
#[derive(Clone, Copy, Debug, PartialEq, Eq, Structural)]
pub enum RedisErrorKind {
    /// The socket or the encrypted session could not be set up, or broke.
    IO,
    /// The server rejected the credential.
    Auth,
    /// A reply had a shape that the protocol does not allow at that point.
    ProtocolError,
    /// No known cluster node could be reached, or the cause is not known.
    Unknown,
}

/// A failure with its kind and a description.
#[derive(Debug)]
pub struct RedisError {
    pub kind: RedisErrorKind,
    pub details: String,
}

/// What an error is in contracts: its kind and the characters of its text.
pub struct RedisErrorView {
    pub kind: RedisErrorKind,
    pub details: Seq<char>,
}

impl View for RedisError {
    type V = RedisErrorView;

    open spec fn view(&self) -> RedisErrorView {
        RedisErrorView { kind: self.kind, details: self.details@ }
    }
}

impl Clone for RedisError {
    fn clone(&self) -> (res: Self)
        ensures
            res@ == self@,
    {
        RedisError { kind: self.kind, details: self.details.clone() }
    }
}

impl RedisError {
    /// An error of the given kind with the given description.
    pub fn new(kind: RedisErrorKind, details: String) -> (err: RedisError)
        ensures
            err.kind == kind,
            err.details == details,
    {
        RedisError { kind, details }
    }

    /// The kind of the error.
    pub fn kind(&self) -> (kind: RedisErrorKind)
        ensures
            kind == self.kind,
    {
        self.kind
    }

    /// The description of the error.
    pub fn details(&self) -> (text: &str)
        ensures
            text@ == self.details@,
    {
        self.details.as_str()
    }
}

} // verus!
