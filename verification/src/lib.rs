//! Connection establishment for `http` and `https` destinations.
//!
//! A connector decides, per destination, whether a connect attempt may go
//! ahead and whether the transport has to be wrapped in TLS. The attempt itself
//! is a small state machine: whoever drives it contacts the collaborators and
//! reports what they answered, and the machine says what has to happen next.

pub mod attempt;
pub mod connecting;
pub mod connector;
pub mod defaults;
pub mod destination;
pub mod error;
pub mod stream;

pub use connecting::{AwaitingHandshake, ConnectingView, HttpsConnecting, Progress, ProgressView};
pub use connector::{HttpsConnector, HttpsConnectorView};
pub use destination::{Destination, DestinationView};
pub use error::{ConnectError, ConnectErrorView};
pub use native_tls::Error;
pub use stream::MaybeHttpsStream;
