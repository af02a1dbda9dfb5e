//! One connect attempt, stage by stage.
//!
//! An attempt waits first for the plaintext connection and then, for an `https`
//! destination, for the TLS handshake. Each stage is a value that is used up by
//! reporting what the collaborator answered, so an attempt resolves once, and a
//! handshake can only be reported after the transport has connected.

use vstd::prelude::*;
use crate::error::{ConnectError, ConnectErrorView};
use crate::stream::MaybeHttpsStream;

verus! {

/// A collaborator's answer as the contracts see it: the error's text by its
/// characters.
pub open spec fn answer_view<V>(answer: Result<V, String>) -> Result<V, Seq<char>> {
    match answer {
        Ok(value) => Ok(value),
        Err(detail) => Err(detail@),
    }
}

/// The end of an attempt as the contracts see it.
pub open spec fn resolution_view<V>(resolution: Result<V, ConnectError>) -> Result<
    V,
    ConnectErrorView,
> {
    match resolution {
        Ok(value) => Ok(value),
        Err(error) => Err(error@),
    }
}

/// An attempt that waits for its transport, as the contracts see it.
pub struct ConnectingView {
    /// Whether the destination asked for encryption.
    pub is_https: bool,
    /// The destination's host name.
    pub host: Seq<char>,
}

/// What follows the transport's answer, as the contracts see it.
pub enum ProgressView<S, E, M> {
    Ready(Result<(MaybeHttpsStream<S, E>, M), ConnectErrorView>),
    Handshake { host: Seq<char>, stream: S, connected: M },
}

impl ConnectingView {
    /// What follows the transport's answer.
    ///
    /// A failure ends the attempt as a transport failure that carries the
    /// transport's words. A connection to an `https` destination goes on to the
    /// handshake, with the destination's host name; any other is handed back
    /// as it is. The metadata stays with the stream in both cases.
    pub open spec fn transport_done<S, E, M>(
        self,
        answer: Result<(S, M), Seq<char>>,
    ) -> ProgressView<S, E, M> {
        match answer {
            Err(detail) => ProgressView::Ready(Err(ConnectErrorView::TransportFailure(detail))),
            Ok((stream, connected)) => if self.is_https {
                ProgressView::Handshake { host: self.host, stream, connected }
            } else {
                ProgressView::Ready(Ok((MaybeHttpsStream::Http(stream), connected)))
            },
        }
    }
}

/// What follows the TLS layer's answer, for an attempt whose transport came
/// with the metadata `connected`.
///
/// A failure ends the attempt as a handshake failure that carries the TLS
/// layer's words. Success ends it with the encrypted stream and the metadata
/// of the transport.
pub open spec fn handshake_done<S, E, M>(connected: M, answer: Result<E, Seq<char>>) -> Result<
    (MaybeHttpsStream<S, E>, M),
    ConnectErrorView,
> {
    match answer {
        Ok(encrypted) => Ok((MaybeHttpsStream::Https(encrypted), connected)),
        Err(detail) => Err(ConnectErrorView::HandshakeFailure(detail)),
    }
}

/// A connect attempt that waits for its plaintext connection.
///
/// It cannot be copied: one owner reports the transport's answer, once.
pub struct HttpsConnecting {
    is_https: bool,
    host: String,
}

/// An attempt whose plaintext connection is up and that waits for the TLS
/// handshake. It keeps the metadata that came with the transport.
pub struct AwaitingHandshake<M> {
    connected: M,
}

/// What an attempt asks for once its transport has answered.
pub enum Progress<S, E, M> {
    /// The attempt is over.
    Ready(Result<(MaybeHttpsStream<S, E>, M), ConnectError>),
    /// The TLS layer has to run a handshake over `stream`, checking the peer's
    /// certificate against `host`; its answer goes to `pending`.
    Handshake { host: String, stream: S, pending: AwaitingHandshake<M> },
}

impl View for HttpsConnecting {
    type V = ConnectingView;

    closed spec fn view(&self) -> ConnectingView {
        ConnectingView { is_https: self.is_https, host: self.host@ }
    }
}

impl<M> View for AwaitingHandshake<M> {
    type V = M;

    /// The metadata that came with the transport.
    closed spec fn view(&self) -> M {
        self.connected
    }
}

impl<S, E, M> View for Progress<S, E, M> {
    type V = ProgressView<S, E, M>;

    open spec fn view(&self) -> ProgressView<S, E, M> {
        match self {
            Progress::Ready(resolution) => ProgressView::Ready(resolution_view(*resolution)),
            Progress::Handshake { host, stream, pending } => ProgressView::Handshake {
                host: host@,
                stream: *stream,
                connected: pending@,
            },
        }
    }
}

impl HttpsConnecting {
    /// An attempt for a destination with the given host name, encrypted or not.
    pub(crate) fn new(is_https: bool, host: String) -> (attempt: HttpsConnecting)
        ensures
            attempt@ == (ConnectingView { is_https, host: host@ }),
    {
        HttpsConnecting { is_https, host }
    }

    /// The name under which an attempt shows itself. It tells nothing of the
    /// destination or of how far the attempt has come.
    pub fn label() -> (label: &'static str)
        ensures
            label@ == "HttpsConnecting"@,
    {
        "HttpsConnecting"
    }

    /// Takes the transport's answer: the stream with its metadata, or the
    /// transport's description of its error.
    pub fn transport_done<S, E, M>(self, answer: Result<(S, M), String>) -> (progress: Progress<
        S,
        E,
        M,
    >)
        ensures
            progress@ == self@.transport_done::<S, E, M>(answer_view(answer)),
    {
        match answer {
            Err(detail) => Progress::Ready(Err(ConnectError::TransportFailure(detail))),
            Ok((stream, connected)) => {
                if self.is_https {
                    Progress::Handshake {
                        host: self.host,
                        stream,
                        pending: AwaitingHandshake { connected },
                    }
                } else {
                    Progress::Ready(Ok((MaybeHttpsStream::Http(stream), connected)))
                }
            },
        }
    }
}

impl<M> AwaitingHandshake<M> {
    /// Takes the TLS layer's answer: the encrypted stream, or the TLS layer's
    /// description of its error. The plain stream is with the TLS layer by now
    /// and does not come back.
    pub fn handshake_done<S, E>(self, answer: Result<E, String>) -> (resolution: Result<
        (MaybeHttpsStream<S, E>, M),
        ConnectError,
    >)
        ensures
            resolution_view(resolution) == handshake_done::<S, E, M>(self@, answer_view(answer)),
    {
        match answer {
            Ok(encrypted) => Ok((MaybeHttpsStream::Https(encrypted), self.connected)),
            Err(detail) => Err(ConnectError::HandshakeFailure(detail)),
        }
    }
}

} // verus!
