//! The error type shared by all fallible operations

use vstd::prelude::*;

verus! {

/// The possible kinds of error produced by the crate
#[derive(Clone, Copy, Debug, PartialEq, Eq, Structural)]
pub enum ErrorKind {
    /// A write target of fixed capacity could not hold the bytes
    ExceededBuffer,
    /// The bytes given to a key constructor were malformed
    InvalidKeyData,
    /// A new key could not be generated
    KeyGeneration,
    /// The operation needs a secret key that the instance does not hold
    MissingSecretKey,
    /// The operation is not supported by the key type
    Unsupported,
}

impl ErrorKind {
    /// A short description of the kind, as a sequence of characters.
    pub open spec fn description(self) -> Seq<char> {
        match self {
            ErrorKind::ExceededBuffer => "Exceeded buffer size"@,
            ErrorKind::InvalidKeyData => "Invalid key data"@,
            ErrorKind::KeyGeneration => "Key generation failed"@,
            ErrorKind::MissingSecretKey => "Missing secret key"@,
            ErrorKind::Unsupported => "Unsupported"@,
        }
    }

    /// Convert the error kind to a string reference
    pub fn as_str(&self) -> (s: &'static str)
        ensures
            s@ == self.description(),
    {
        match self {
            ErrorKind::ExceededBuffer => "Exceeded buffer size",
            ErrorKind::InvalidKeyData => "Invalid key data",
            ErrorKind::KeyGeneration => "Key generation failed",
            ErrorKind::MissingSecretKey => "Missing secret key",
            ErrorKind::Unsupported => "Unsupported",
        }
    }
}

/// An error: its kind, by which callers branch, and an optional message for
/// a human reader
#[derive(Clone, Copy, Debug)]
pub struct Error {
    /// The kind of the error
    pub kind: ErrorKind,
    /// A message that says more than the kind does
    pub message: Option<&'static str>,
}

impl Error {
    /// An error of the given kind without a message
    pub fn from_kind(kind: ErrorKind) -> (e: Error)
        ensures
            e.kind == kind,
            e.message is None,
    {
        Error { kind, message: None }
    }

    /// An error of the given kind with a message
    pub fn from_msg(kind: ErrorKind, msg: &'static str) -> (e: Error)
        ensures
            e.kind == kind,
            e.message == Some(msg),
    {
        Error { kind, message: Some(msg) }
    }

    /// The text a reader is shown: the message where there is one, else the
    /// description of the kind.
    pub open spec fn text(&self) -> Seq<char> {
        match self.message {
            Some(msg) => msg@,
            None => self.kind.description(),
        }
    }

    /// Accessor for the error kind
    pub fn kind(&self) -> (k: ErrorKind)
        ensures
            k == self.kind,
    {
        self.kind
    }

    /// Accessor for the error message
    pub fn message(&self) -> (s: &'static str)
        ensures
            s@ == self.text(),
    {
        match self.message {
            Some(msg) => msg,
            None => self.kind.as_str(),
        }
    }
}

} // verus!
