//! The target of one connect attempt.

use vstd::prelude::*;

verus! {

/// The scheme that asks for an encrypted connection.
pub open spec fn https_scheme() -> Seq<char> {
    "https"@
}

/// A destination as the contracts see it.
pub struct DestinationView {
    pub scheme: Seq<char>,
    pub host: Seq<char>,
}

impl DestinationView {
    /// Whether the destination asks for an encrypted connection: its scheme is
    /// exactly `https`.
    pub open spec fn is_https(self) -> bool {
        self.scheme == https_scheme()
    }
}

/// Where a connect attempt goes: a scheme and a host name.
///
/// Whatever else the transport needs to reach the host stays with the caller:
/// nothing here depends on it.
#[derive(Clone, Debug, PartialEq, Eq)]
pub struct Destination {
    scheme: String,
    host: String,
}

impl View for Destination {
    type V = DestinationView;

    closed spec fn view(&self) -> DestinationView {
        DestinationView { scheme: self.scheme@, host: self.host@ }
    }
}

impl Destination {
    /// A destination with the given scheme and host.
    pub fn new(scheme: String, host: String) -> (dst: Destination)
        ensures
            dst@.scheme == scheme@,
            dst@.host == host@,
    {
        Destination { scheme, host }
    }

    /// The scheme, as it was given.
    pub fn scheme(&self) -> (scheme: &str)
        ensures
            scheme@ == self@.scheme,
    {
        self.scheme.as_str()
    }

    /// The host name, as it was given.
    pub fn host(&self) -> (host: &str)
        ensures
            host@ == self@.host,
    {
        self.host.as_str()
    }

    /// Whether the scheme is exactly `https`.
    pub fn is_https(&self) -> (encrypted: bool)
        ensures
            encrypted == self@.is_https(),
    {
        let https = "https".to_owned();
        self.scheme == https
    }
}

} // verus!
