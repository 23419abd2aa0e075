//! What can go wrong, by the stage at which it does.

use vstd::prelude::*;

verus! {

/// The configuration cannot be used; nothing touches the network after this.
#[derive(Debug, Clone, Copy, PartialEq, Eq, Structural)]
pub enum ConfigError {
    /// The base URL does not parse as an absolute URL.
    InvalidBaseUrl,
    /// The proxy URL is malformed.
    InvalidProxy,
}

/// A key cannot be turned into an address under the base.
#[derive(Debug, Clone, Copy, PartialEq, Eq, Structural)]
pub enum AddressError {
    /// The key is empty.
    EmptyKey,
    /// The base cannot carry relative references.
    InvalidBase,
    /// The key does not join onto the base.
    InvalidKey,
    /// The key would send the request to another authority than the base's.
    ForeignAuthority,
}

/// A download did not run to its end.
#[derive(Debug, Clone, Copy, PartialEq, Eq, Structural)]
pub enum DownloadError {
    /// The store declares the object empty, which is how it says that there
    /// is no such object.
    NotFound,
    /// The connection or the protocol failed.
    Transport,
    /// The destination could not be created or written, or the body could
    /// not be read.
    Io,
}

/// The store answered a submission with a status other than success.
#[derive(Debug)]
pub struct RemoteError {
    /// The status code of the answer.
    pub status: u16,
    /// The body of the answer, as received.
    pub body: String,
}

} // verus!
