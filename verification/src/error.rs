//! Error taxonomy of the pipeline. Transport-level failures and malformed
//! response bodies are fatal to the fetch that raised them; API-reported
//! errors carry the remote service's description and are surfaced to the
//! router.

use vstd::prelude::*;

verus! {

/// The content API rejected a call or returned an unusable body.
#[derive(Clone, Debug, PartialEq, Eq)]
pub struct KitsuError {
    pub description: String,
}

/// The messaging API rejected a call or returned an unusable body.
#[derive(Clone, Debug, PartialEq, Eq)]
pub struct TelegramError {
    pub description: String,
}

/// The identity-lookup service rejected a call.
#[derive(Clone, Debug, PartialEq, Eq)]
pub struct DatabaseError {
    pub description: String,
}

/// One failure of a pipeline step.
///
/// `Network` is a transport-level failure (connection refused, timeout);
/// `Protocol` is a malformed or unexpected response body. Both are fatal to
/// the fetch that raised them. The remaining variants carry an error that a
/// remote service reported explicitly.
#[derive(Clone, Debug, PartialEq, Eq)]
pub enum Error {
    Network { description: String },
    Protocol { description: String },
    Kitsu(KitsuError),
    Database(DatabaseError),
    Telegram(TelegramError),
}

impl Error {
    /// The human-readable description carried by this error.
    pub fn description(&self) -> (r: &String)
        ensures
            r@ == self.spec_description(),
    {
        match self {
            Error::Network { description } => description,
            Error::Protocol { description } => description,
            Error::Kitsu(e) => &e.description,
            Error::Database(e) => &e.description,
            Error::Telegram(e) => &e.description,
        }
    }

    /// The description as an abstract character sequence.
    pub open spec fn spec_description(&self) -> Seq<char> {
        match self {
            Error::Network { description } => description@,
            Error::Protocol { description } => description@,
            Error::Kitsu(e) => e.description@,
            Error::Database(e) => e.description@,
            Error::Telegram(e) => e.description@,
        }
    }
}

} // verus!
