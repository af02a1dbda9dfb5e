//! The one error that a connect attempt can end in.

use vstd::prelude::*;
use vstd::string::*;

verus! {

/// What is said when encryption is demanded of a destination that is not
/// `https`.
pub open spec fn policy_message() -> Seq<char> {
    "HTTPS scheme forced but can't be used"@
}

/// What stands before the transport's own words in the message of a transport
/// failure.
pub open spec fn transport_prefix() -> Seq<char> {
    "HTTP Connection failed: "@
}

/// A connect error as the contracts see it.
pub enum ConnectErrorView {
    PolicyViolation,
    TransportFailure(Seq<char>),
    HandshakeFailure(Seq<char>),
}

impl ConnectErrorView {
    /// The diagnostic message of the error.
    pub open spec fn message(self) -> Seq<char> {
        match self {
            ConnectErrorView::PolicyViolation => policy_message(),
            ConnectErrorView::TransportFailure(detail) => transport_prefix() + detail,
            ConnectErrorView::HandshakeFailure(detail) => detail,
        }
    }
}

/// Why a connect attempt failed. Every failure ends the attempt.
#[derive(Debug, PartialEq, Eq)]
pub enum ConnectError {
    /// Encryption was demanded, and the destination does not ask for it.
    /// Nothing was contacted.
    PolicyViolation,
    /// The plaintext connection could not be made. Holds the transport's
    /// description of its error.
    TransportFailure(String),
    /// The plaintext connection was made and the TLS handshake over it failed.
    /// Holds the TLS layer's description of its error.
    HandshakeFailure(String),
}

impl View for ConnectError {
    type V = ConnectErrorView;

    open spec fn view(&self) -> ConnectErrorView {
        match self {
            ConnectError::PolicyViolation => ConnectErrorView::PolicyViolation,
            ConnectError::TransportFailure(detail) => ConnectErrorView::TransportFailure(detail@),
            ConnectError::HandshakeFailure(detail) => ConnectErrorView::HandshakeFailure(detail@),
        }
    }
}

impl ConnectError {
    /// The diagnostic message: a fixed sentence for a policy violation, the
    /// transport's words behind a fixed prefix for a transport failure, and the
    /// TLS layer's words as they are for a handshake failure.
    pub fn message(&self) -> (text: String)
        ensures
            text@ == self@.message(),
    {
        match self {
            ConnectError::PolicyViolation => "HTTPS scheme forced but can't be used".to_owned(),
            ConnectError::TransportFailure(detail) => {
                "HTTP Connection failed: ".to_owned().concat(detail.as_str())
            },
            ConnectError::HandshakeFailure(detail) => detail.clone(),
        }
    }
}

} // verus!
