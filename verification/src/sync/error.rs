//! Errors of the sending side.

use std::io::ErrorKind;
use vstd::prelude::*;

verus! {

/// `std::io::ErrorKind`, with its variants visible.
#[verifier::external_type_specification]
pub struct ExErrorKind(ErrorKind);

/// Why a send that must not wait did not go through. The payload comes back
/// either way.
#[derive(PartialEq, Eq, Debug)]
pub enum TrySendError<T> {
    /// There is no room right now; the channel is still open.
    Full(T),
    /// The receiving side is gone for good.
    Closed(T),
}

/// Why a send did not go through. The payload comes back.
#[derive(PartialEq, Eq, Debug)]
pub enum SendError<T> {
    /// The receiving side is gone for good.
    Closed(T),
}

impl<T> TrySendError<T> {
    /// The payload that was not delivered.
    pub open spec fn payload(self) -> T {
        match self {
            TrySendError::Full(item) => item,
            TrySendError::Closed(item) => item,
        }
    }

    /// Gives the undelivered payload back.
    pub fn into_inner(self) -> (item: T)
        ensures
            item == self.payload(),
    {
        match self {
            TrySendError::Full(item) => item,
            TrySendError::Closed(item) => item,
        }
    }

    /// The category under which a byte stream reports this error: a full channel
    /// is "storage full", a closed one is "broken pipe".
    pub fn kind(&self) -> (kind: ErrorKind)
        ensures
            kind == match *self {
                TrySendError::Full(_) => ErrorKind::StorageFull,
                TrySendError::Closed(_) => ErrorKind::BrokenPipe,
            },
    {
        match self {
            TrySendError::Full(_) => ErrorKind::StorageFull,
            TrySendError::Closed(_) => ErrorKind::BrokenPipe,
        }
    }

    /// The error in words.
    pub fn message(&self) -> (text: &'static str)
        ensures
            text@ == match *self {
                TrySendError::Full(_) => "channel is full"@,
                TrySendError::Closed(_) => "channel is closed"@,
            },
    {
        match self {
            TrySendError::Full(_) => "channel is full",
            TrySendError::Closed(_) => "channel is closed",
        }
    }
}

impl<T> SendError<T> {
    /// The payload that was not delivered.
    pub open spec fn payload(self) -> T {
        match self {
            SendError::Closed(item) => item,
        }
    }

    /// Gives the undelivered payload back.
    pub fn into_inner(self) -> (item: T)
        ensures
            item == self.payload(),
    {
        match self {
            SendError::Closed(item) => item,
        }
    }

    /// The category under which a byte stream reports this error: "broken pipe".
    pub fn kind(&self) -> (kind: ErrorKind)
        ensures
            kind == ErrorKind::BrokenPipe,
    {
        ErrorKind::BrokenPipe
    }

    /// The error in words.
    pub fn message(&self) -> (text: &'static str)
        ensures
            text@ == "channel is closed"@,
    {
        "channel is closed"
    }
}

} // verus!
