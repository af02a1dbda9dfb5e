//! A whole connect attempt, from the destination to its end, and what holds of
//! every attempt.
//!
//! The collaborators are outside of this library. Here they are stood for by
//! what they would answer: the transport by its answer, the TLS layer by a
//! function from the host name and the stream it is given to its answer.

use vstd::prelude::*;
use crate::connecting::{ProgressView, handshake_done};
use crate::connector::dispatch;
use crate::destination::DestinationView;
use crate::error::ConnectErrorView;
use crate::stream::MaybeHttpsStream;

verus! {

/// What one attempt came to.
pub struct Attempt<S, E, M> {
    /// Whether the plaintext collaborator was asked for a connection.
    pub asked_transport: bool,
    /// The host name and the stream that the TLS collaborator was asked to
    /// run a handshake for, if it was asked.
    pub asked_tls: Option<(Seq<char>, S)>,
    /// How the attempt ended.
    pub resolution: Result<(MaybeHttpsStream<S, E>, M), ConnectErrorView>,
}

/// The attempt that a connector with the setting `force_https` makes for
/// `dst`, where the transport would answer `transport` and the TLS layer, for
/// a host name and a stream, `tls` of the two.
///
/// It goes the way a driver goes: it asks the connector, contacts the
/// transport if an attempt began, and contacts the TLS layer if the attempt
/// then asks for a handshake.
pub open spec fn attempt<S, E, M>(
    force_https: bool,
    dst: DestinationView,
    transport: Result<(S, M), Seq<char>>,
    tls: spec_fn(Seq<char>, S) -> Result<E, Seq<char>>,
) -> Attempt<S, E, M> {
    match dispatch(force_https, dst) {
        Err(error) => Attempt { asked_transport: false, asked_tls: None, resolution: Err(error) },
        Ok(connecting) => match connecting.transport_done::<S, E, M>(transport) {
            ProgressView::Ready(resolution) => Attempt {
                asked_transport: true,
                asked_tls: None,
                resolution,
            },
            ProgressView::Handshake { host, stream, connected } => Attempt {
                asked_transport: true,
                asked_tls: Some((host, stream)),
                resolution: handshake_done(connected, tls(host, stream)),
            },
        },
    }
}

/// An attempt for an `https` destination that succeeds hands back the
/// encrypted variant, whether encryption is forced or not: the stream that the
/// TLS layer made of the transport's stream and the destination's host name,
/// with the transport's metadata.
pub proof fn lemma_https_resolves_encrypted<S, E, M>(
    force_https: bool,
    dst: DestinationView,
    transport: Result<(S, M), Seq<char>>,
    tls: spec_fn(Seq<char>, S) -> Result<E, Seq<char>>,
)
    requires
        dst.is_https(),
    ensures
        attempt::<S, E, M>(force_https, dst, transport, tls).resolution matches Ok((stream, connected))
            ==> {
            &&& stream is Https
            &&& transport matches Ok((plain, metadata))
            &&& connected == metadata
            &&& tls(dst.host, plain) == Ok::<E, Seq<char>>(stream->Https_0)
        },
{
}

/// Where encryption is forced, an attempt for a destination that is not
/// `https` ends at once as a policy violation, and no collaborator is asked.
pub proof fn lemma_forced_plain_is_refused<S, E, M>(
    dst: DestinationView,
    transport: Result<(S, M), Seq<char>>,
    tls: spec_fn(Seq<char>, S) -> Result<E, Seq<char>>,
)
    requires
        !dst.is_https(),
    ensures
        attempt::<S, E, M>(true, dst, transport, tls) == (Attempt::<S, E, M> {
            asked_transport: false,
            asked_tls: None,
            resolution: Err(ConnectErrorView::PolicyViolation),
        }),
{
}

/// Where encryption is not forced, an attempt for a destination that is not
/// `https` never asks the TLS collaborator, and if it succeeds it hands back
/// the plain variant: the transport's stream and metadata as they came.
pub proof fn lemma_plain_resolves_plain<S, E, M>(
    dst: DestinationView,
    transport: Result<(S, M), Seq<char>>,
    tls: spec_fn(Seq<char>, S) -> Result<E, Seq<char>>,
)
    requires
        !dst.is_https(),
    ensures
        attempt::<S, E, M>(false, dst, transport, tls).asked_tls is None,
        attempt::<S, E, M>(false, dst, transport, tls).resolution matches Ok((stream, connected))
            ==> {
            &&& stream is Http
            &&& transport == Ok::<(S, M), Seq<char>>((stream->Http_0, connected))
        },
{
}

/// Where the plaintext collaborator is asked and fails, the attempt ends as a
/// transport failure that carries the collaborator's words, and the TLS
/// collaborator is never asked, whatever the scheme.
pub proof fn lemma_transport_failure_ends_attempt<S, E, M>(
    force_https: bool,
    dst: DestinationView,
    detail: Seq<char>,
    tls: spec_fn(Seq<char>, S) -> Result<E, Seq<char>>,
)
    requires
        attempt::<S, E, M>(force_https, dst, Err(detail), tls).asked_transport,
    ensures
        attempt::<S, E, M>(force_https, dst, Err(detail), tls) == (Attempt::<S, E, M> {
            asked_transport: true,
            asked_tls: None,
            resolution: Err(ConnectErrorView::TransportFailure(detail)),
        }),
{
}

/// Where the plaintext connection to an `https` destination is made and the
/// handshake over it fails, the attempt ends as a handshake failure that
/// carries the TLS layer's words. It hands back no stream: the plain one went
/// to the TLS collaborator and stays there.
pub proof fn lemma_handshake_failure_ends_attempt<S, E, M>(
    force_https: bool,
    dst: DestinationView,
    plain: S,
    metadata: M,
    tls: spec_fn(Seq<char>, S) -> Result<E, Seq<char>>,
)
    requires
        dst.is_https(),
        tls(dst.host, plain) is Err,
    ensures
        attempt::<S, E, M>(force_https, dst, Ok((plain, metadata)), tls) == (Attempt::<S, E, M> {
            asked_transport: true,
            asked_tls: Some((dst.host, plain)),
            resolution: Err(ConnectErrorView::HandshakeFailure(tls(dst.host, plain)->Err_0)),
        }),
{
}

/// The plaintext collaborator is asked unless encryption is forced and the
/// destination is not `https`; the TLS collaborator is asked only after the
/// transport has connected, and only for an `https` destination.
pub proof fn lemma_collaborators_asked_in_order<S, E, M>(
    force_https: bool,
    dst: DestinationView,
    transport: Result<(S, M), Seq<char>>,
    tls: spec_fn(Seq<char>, S) -> Result<E, Seq<char>>,
)
    ensures
        attempt::<S, E, M>(force_https, dst, transport, tls).asked_transport <==> (dst.is_https()
            || !force_https),
        attempt::<S, E, M>(force_https, dst, transport, tls).asked_tls is Some <==> (dst.is_https()
            && transport is Ok),
        attempt::<S, E, M>(force_https, dst, transport, tls).asked_tls is Some ==> attempt::<
            S,
            E,
            M,
        >(force_https, dst, transport, tls).asked_transport,
{
}

} // verus!
