//! The failures this library reports to its callers.
use vstd::prelude::*;
use vstd::string::StringExecFns;

verus! {

/// Specification-level image of a [`MementoError`], with byte vectors
/// seen as sequences.
pub ghost enum ErrV {
    TooLongKey(Seq<u8>),
    ConnectionReset,
    InvalidItem(Seq<u8>),
    IoError(Seq<char>),
    InvalidIntegerValue(Seq<u8>),
}

/// Everything that can go wrong while encoding a command, decoding a
/// reply, or driving the transport.
#[derive(Debug, Clone, PartialEq, Eq)]
pub enum MementoError {
    /// A user-supplied key was longer than 250 bytes; holds the key.
    TooLongKey(Vec<u8>),
    /// The peer closed the connection after part of a response had
    /// arrived but before the response was complete.
    ConnectionReset,
    /// A reply block had the wrong shape; holds the offending line.
    InvalidItem(Vec<u8>),
    /// The transport failed; holds its own description of the failure.
    IoError(String),
    /// A field that must be an unsigned decimal number was not one, or
    /// did not fit; holds the offending bytes.
    InvalidIntegerValue(Vec<u8>),
}

impl ErrV {
    /// The description [`MementoError::message`] gives for this
    /// failure.
    pub open spec fn spec_message(self) -> Seq<char> {
        match self {
            ErrV::TooLongKey(_) => "key is too long"@,
            ErrV::ConnectionReset => "connection reset by peer"@,
            ErrV::InvalidItem(_) => "cannot parse item"@,
            ErrV::IoError(m) => m,
            ErrV::InvalidIntegerValue(_) => "invalid integer value"@,
        }
    }
}

impl MementoError {
    /// A short description of the failure.
    pub fn message(&self) -> (r: String)
        ensures
            r@ == self@.spec_message(),
    {
        match self {
            MementoError::TooLongKey(_) => String::from_str("key is too long"),
            MementoError::ConnectionReset => String::from_str("connection reset by peer"),
            MementoError::InvalidItem(_) => String::from_str("cannot parse item"),
            MementoError::IoError(m) => m.clone(),
            MementoError::InvalidIntegerValue(_) => String::from_str("invalid integer value"),
        }
    }
}

impl View for MementoError {
    type V = ErrV;

    open spec fn view(&self) -> ErrV {
        match self {
            MementoError::TooLongKey(k) => ErrV::TooLongKey(k@),
            MementoError::ConnectionReset => ErrV::ConnectionReset,
            MementoError::InvalidItem(l) => ErrV::InvalidItem(l@),
            MementoError::IoError(m) => ErrV::IoError(m@),
            MementoError::InvalidIntegerValue(t) => ErrV::InvalidIntegerValue(t@),
        }
    }
}

} // verus!
