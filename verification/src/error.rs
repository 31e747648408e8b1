//! Error taxonomy of the data-access core.

use vstd::prelude::*;

verus! {

/// Every way a command issued to the data-access core can fail.
///
/// The first three variants are store-side outcomes reported by the store
/// adapter; the last two are channel-side failures seen only by the
/// request facade.
#[derive(Clone, Copy, Debug, PartialEq, Eq, Structural)]
pub enum DataError {
    /// No row matched the requested key.
    NotFound,
    /// A create hit a uniqueness violation on an existing key.
    Conflict,
    /// Connection, pool or transport failure while talking to the store.
    StoreUnavailable,
    /// The actor is unreachable: the command queue was closed.
    ChannelClosed,
    /// The actor dropped a reply slot without answering; an internal
    /// error signal that a correct actor never produces.
    ReplyLost,
}

impl DataError {
    /// A short human-readable description of the error.
    pub fn describe(&self) -> (r: &'static str)
        ensures
            r@ == self.describe_spec(),
    {
        match self {
            DataError::NotFound => "not found",
            DataError::Conflict => "conflict on existing key",
            DataError::StoreUnavailable => "store unavailable",
            DataError::ChannelClosed => "channel closed",
            DataError::ReplyLost => "reply lost",
        }
    }

    /// What `describe` returns for each variant.
    pub open spec fn describe_spec(self) -> Seq<char> {
        match self {
            DataError::NotFound => "not found"@,
            DataError::Conflict => "conflict on existing key"@,
            DataError::StoreUnavailable => "store unavailable"@,
            DataError::ChannelClosed => "channel closed"@,
            DataError::ReplyLost => "reply lost"@,
        }
    }
}

} // verus!
