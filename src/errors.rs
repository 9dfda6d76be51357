use vstd::prelude::*;

verus! {

/// Every failure that the channel reports.
#[derive(Debug, PartialEq, Eq)]
pub enum Error {
    /// The transport failed or closed before the expected bytes arrived.
    Io(String),
    /// The key expansion produced an invalid output length.
    KDFError,
    /// Authenticated encryption failed: a forged, corrupted or misrouted
    /// record, or a fault inside the cipher.
    CryptError,
    /// A decrypted message is longer than the buffer offered for it.
    Capacity,
    /// Any other failure, described in words.
    Other(String),
}

pub type Result<T> = core::result::Result<T, Error>;

} // verus!
