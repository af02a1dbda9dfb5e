//! The stream that a connect attempt hands back.

use vstd::prelude::*;

verus! {

/// A stream that is either plain or wrapped in TLS.
///
/// `S` is the plain stream and `E` the encrypted one. Whoever reads and writes
/// the connection need not care which of the two it got.
#[derive(Debug, PartialEq, Eq)]
pub enum MaybeHttpsStream<S, E> {
    /// A plain stream: nothing on it is encrypted.
    Http(S),
    /// A stream on which the TLS handshake has succeeded.
    Https(E),
}

impl<S, E> MaybeHttpsStream<S, E> {
    /// Whether this is the encrypted variant.
    pub fn is_https(&self) -> (encrypted: bool)
        ensures
            encrypted == (self is Https),
    {
        match self {
            MaybeHttpsStream::Http(_) => false,
            MaybeHttpsStream::Https(_) => true,
        }
    }
}

} // verus!
