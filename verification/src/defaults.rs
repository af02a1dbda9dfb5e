//! The connector over the usual collaborators: hyper's `HttpConnector` for the
//! plaintext connection and tokio-tls's `TlsConnector` for the handshake.
//!
//! Both are built here and carried in the connector; nothing of what is
//! inside them is visible to the proofs.

use vstd::prelude::*;
use hyper::client::connect::HttpConnector;
use hyper::client::connect::dns::GaiResolver;
use tokio_tls::TlsConnector;
use crate::connector::HttpsConnector;

verus! {

/// hyper's `HttpConnector`, over a resolver `R`: carried, never looked into.
#[verifier::external_type_specification]
#[verifier::external_body]
#[verifier::reject_recursive_types(R)]
pub struct ExHttpConnector<R>(HttpConnector<R>);

/// hyper's `GaiResolver`, the resolver of the default `HttpConnector`.
#[verifier::external_type_specification]
#[verifier::external_body]
pub struct ExGaiResolver(GaiResolver);

/// tokio-tls's `TlsConnector`: carried, never looked into.
#[verifier::external_type_specification]
#[verifier::external_body]
pub struct ExTlsConnector(TlsConnector);

/// native-tls's `TlsConnector`, which tokio-tls's is made of.
#[verifier::external_type_specification]
#[verifier::external_body]
pub struct ExNativeTlsConnector(native_tls::TlsConnector);

/// native-tls's `Error`: handed on as it comes.
#[verifier::external_type_specification]
#[verifier::external_body]
pub struct ExNativeTlsError(native_tls::Error);

/// `HttpConnector::new` of hyper: a connector with hyper's default settings
/// and its `getaddrinfo` resolver. Nothing is claimed of it.
#[verifier::external_body]
fn default_http() -> HttpConnector {
    HttpConnector::new()
}

/// `HttpConnector::enforce_http` of hyper: sets whether the connector refuses
/// every scheme but `http`. Nothing is claimed of the connector afterwards.
#[verifier::external_body]
fn enforce_http(http: &mut HttpConnector, is_enforced: bool) {
    http.enforce_http(is_enforced)
}

/// `TlsConnector::new` of native-tls: a TLS connector with default settings.
/// Whether it can be built depends on the TLS installation of the machine, so
/// nothing is claimed of the answer.
#[verifier::external_body]
fn default_tls() -> Result<native_tls::TlsConnector, native_tls::Error> {
    native_tls::TlsConnector::new()
}

/// `From<native_tls::TlsConnector>` of tokio-tls's `TlsConnector`: the same
/// connector with an asynchronous `connect`. Nothing is claimed of it.
#[verifier::external_body]
fn async_tls(tls: native_tls::TlsConnector) -> TlsConnector {
    TlsConnector::from(tls)
}

impl HttpsConnector {
    /// A connector over hyper's default `HttpConnector` and the platform's
    /// default TLS settings.
    ///
    /// It fails only where the TLS connector cannot be built, with the TLS
    /// library's own error. The connector that comes back does not force
    /// encryption: a destination with the `http` scheme is connected to in
    /// plain. Call `https_only(true)` on it to refuse such destinations.
    pub fn new() -> (connector: Result<Self, native_tls::Error>)
        ensures
            connector matches Ok(c) ==> !c@.force_https,
    {
        Self::with_tls(default_tls())
    }

    /// The connector for a TLS connector that was built, or the error for one
    /// that was not, as it came.
    pub fn with_tls(built: Result<native_tls::TlsConnector, native_tls::Error>) -> (connector:
        Result<Self, native_tls::Error>)
        ensures
            built is Ok <==> connector is Ok,
            connector matches Ok(c) ==> !c@.force_https,
            connector matches Err(error) ==> built == Err::<
                native_tls::TlsConnector,
                native_tls::Error,
            >(error),
    {
        match built {
            Ok(tls) => Ok(Self::new_(async_tls(tls))),
            Err(error) => Err(error),
        }
    }

    /// A connector over hyper's default `HttpConnector` and the given TLS
    /// connector. The `HttpConnector` is told to let every scheme through:
    /// which scheme may pass is decided here, not there.
    fn new_(tls: TlsConnector) -> (connector: Self)
        ensures
            !connector@.force_https,
            connector@.tls == tls,
    {
        let mut http = default_http();
        enforce_http(&mut http, false);
        HttpsConnector::from((http, tls))
    }
}

} // verus!
