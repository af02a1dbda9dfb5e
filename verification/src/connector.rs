//! The connector: its configuration and the decision it takes per destination.

use vstd::prelude::*;
use vstd::pervasive::cloned;
use hyper::client::connect::HttpConnector;
use tokio_tls::TlsConnector;
use crate::connecting::{ConnectingView, HttpsConnecting};
use crate::destination::{Destination, DestinationView};
use crate::error::{ConnectError, ConnectErrorView};

verus! {

/// What the connector decides for a destination.
///
/// Where encryption is forced and the destination is not `https`, the attempt
/// is over before anything is contacted. Everywhere else an attempt begins,
/// which remembers whether a handshake will be due and for which host.
pub open spec fn dispatch(force_https: bool, dst: DestinationView) -> Result<
    ConnectingView,
    ConnectErrorView,
> {
    if !dst.is_https() && force_https {
        Err(ConnectErrorView::PolicyViolation)
    } else {
        Ok(ConnectingView { is_https: dst.is_https(), host: dst.host })
    }
}

/// What `call` hands back, as the contracts see it.
pub open spec fn attempt_view(attempt: Result<HttpsConnecting, ConnectError>) -> Result<
    ConnectingView,
    ConnectErrorView,
> {
    match attempt {
        Ok(connecting) => Ok(connecting@),
        Err(error) => Err(error@),
    }
}

/// A connector as the contracts see it.
pub struct HttpsConnectorView<H, T> {
    /// Whether destinations that are not `https` are refused.
    pub force_https: bool,
    /// The plaintext collaborator.
    pub http: H,
    /// The TLS collaborator.
    pub tls: T,
}

/// A connector for the `https` scheme, which also carries plain `http`.
///
/// It holds the collaborator that makes plaintext connections (`H`) and the
/// one that runs TLS handshakes (`T`), and calls neither: it decides, and
/// whoever drives the attempt contacts them. Where the two are not named they
/// are hyper's `HttpConnector` and tokio-tls's `TlsConnector`.
pub struct HttpsConnector<H = HttpConnector, T = TlsConnector> {
    force_https: bool,
    http: H,
    tls: T,
}

impl<H, T> View for HttpsConnector<H, T> {
    type V = HttpsConnectorView<H, T>;

    closed spec fn view(&self) -> HttpsConnectorView<H, T> {
        HttpsConnectorView { force_https: self.force_https, http: self.http, tls: self.tls }
    }
}

impl<H, T> From<(H, T)> for HttpsConnector<H, T> {
    /// A connector over the given collaborators, the plaintext one first. It
    /// does not force encryption.
    fn from(args: (H, T)) -> (connector: HttpsConnector<H, T>)
        ensures
            connector@ == (HttpsConnectorView { force_https: false, http: args.0, tls: args.1 }),
    {
        HttpsConnector { force_https: false, http: args.0, tls: args.1 }
    }
}

impl<H, T> vstd::std_specs::convert::FromSpecImpl<(H, T)> for HttpsConnector<H, T> {
    open spec fn obeys_from_spec() -> bool {
        true
    }

    closed spec fn from_spec(args: (H, T)) -> HttpsConnector<H, T> {
        HttpsConnector { force_https: false, http: args.0, tls: args.1 }
    }
}

impl<H: Clone, T: Clone> Clone for HttpsConnector<H, T> {
    /// A connector with the same setting, over clones of the collaborators.
    fn clone(&self) -> (copy: HttpsConnector<H, T>)
        ensures
            copy@.force_https == self@.force_https,
            cloned::<H>(self@.http, copy@.http),
            cloned::<T>(self@.tls, copy@.tls),
    {
        HttpsConnector {
            force_https: self.force_https,
            http: self.http.clone(),
            tls: self.tls.clone(),
        }
    }
}

impl<H, T> HttpsConnector<H, T> {
    /// Forces encryption, or stops forcing it, for the attempts that begin
    /// from now on. The collaborators stay as they are.
    pub fn https_only(&mut self, enable: bool)
        ensures
            final(self)@ == (HttpsConnectorView { force_https: enable, ..old(self)@ }),
    {
        self.force_https = enable;
    }

    /// Whether destinations that are not `https` are refused.
    pub fn is_https_only(&self) -> (forced: bool)
        ensures
            forced == self@.force_https,
    {
        self.force_https
    }

    /// The plaintext collaborator.
    pub fn http(&self) -> (http: &H)
        ensures
            *http == self@.http,
    {
        &self.http
    }

    /// The TLS collaborator.
    pub fn tls(&self) -> (tls: &T)
        ensures
            *tls == self@.tls,
    {
        &self.tls
    }

    /// Whether the connector can take a destination now. It always can: the
    /// collaborators are not asked.
    pub fn poll_ready(&mut self) -> (ready: Result<(), ConnectError>)
        ensures
            ready is Ok,
            final(self)@ == old(self)@,
    {
        Ok(())
    }

    /// Begins a connect attempt, or refuses the destination.
    ///
    /// On `Ok` the plaintext collaborator has to be asked for a connection to
    /// `dst`, and its answer goes to the attempt that is returned. On `Err`
    /// nothing has to be contacted: the attempt is over.
    pub fn call(&self, dst: &Destination) -> (attempt: Result<HttpsConnecting, ConnectError>)
        ensures
            attempt_view(attempt) == dispatch(self@.force_https, dst@),
    {
        let is_https = dst.is_https();
        if !is_https && self.force_https {
            return Err(ConnectError::PolicyViolation);
        }
        let host = dst.host().to_owned();
        Ok(HttpsConnecting::new(is_https, host))
    }
}

} // verus!
