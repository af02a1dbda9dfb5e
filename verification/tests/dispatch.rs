use hyper_tls::{ConnectError, Destination, HttpsConnecting, HttpsConnector};

fn destination(scheme: &str, host: &str) -> Destination {
    Destination::new(scheme.to_owned(), host.to_owned())
}

fn connector(force_https: bool) -> HttpsConnector<(), ()> {
    let mut connector = HttpsConnector::from(((), ()));
    connector.https_only(force_https);
    connector
}

#[test]
fn destination_keeps_scheme_and_host() {
    let dst = destination("https", "example.com");
    assert_eq!(dst.scheme(), "https");
    assert_eq!(dst.host(), "example.com");
    assert!(dst.is_https());
}

#[test]
fn only_the_exact_scheme_is_https() {
    assert!(destination("https", "a").is_https());
    assert!(!destination("http", "a").is_https());
    assert!(!destination("HTTPS", "a").is_https());
    assert!(!destination("Https", "a").is_https());
    assert!(!destination("httpss", "a").is_https());
    assert!(!destination("http", "https").is_https());
    assert!(!destination(" https", "a").is_https());
    assert!(!destination("wss", "a").is_https());
    assert!(!destination("", "a").is_https());
}

#[test]
fn a_new_connector_does_not_force_https() {
    let connector = HttpsConnector::from((1u8, 2u16));
    assert!(!connector.is_https_only());
    assert_eq!(*connector.http(), 1u8);
    assert_eq!(*connector.tls(), 2u16);
}

#[test]
fn https_only_sets_and_clears_the_flag() {
    let mut connector = HttpsConnector::from((1u8, 2u16));
    connector.https_only(true);
    assert!(connector.is_https_only());
    assert_eq!(*connector.http(), 1u8);
    assert_eq!(*connector.tls(), 2u16);
    connector.https_only(true);
    assert!(connector.is_https_only());
    connector.https_only(false);
    assert!(!connector.is_https_only());
}

#[test]
fn a_clone_has_the_flag_and_keeps_its_own() {
    let mut first = HttpsConnector::from((String::from("plain"), String::from("tls")));
    first.https_only(true);
    let mut copy = first.clone();
    assert!(copy.is_https_only());
    assert_eq!(copy.http(), "plain");
    assert_eq!(copy.tls(), "tls");
    copy.https_only(false);
    assert!(!copy.is_https_only());
    assert!(first.is_https_only());
}

#[test]
fn the_connector_is_always_ready() {
    let mut connector = connector(false);
    assert_eq!(connector.poll_ready(), Ok(()));
    assert_eq!(connector.poll_ready(), Ok(()));
    connector.https_only(true);
    assert_eq!(connector.poll_ready(), Ok(()));
    assert!(connector.is_https_only());
}

#[test]
fn forced_https_refuses_http_at_once() {
    let refused = connector(true).call(&destination("http", "example.com"));
    assert_eq!(refused.err(), Some(ConnectError::PolicyViolation));
}

#[test]
fn forced_https_refuses_every_other_scheme() {
    let connector = connector(true);
    for scheme in ["http", "HTTPS", "ftp", "", "httpss"] {
        let refused = connector.call(&destination(scheme, "example.com"));
        assert_eq!(refused.err(), Some(ConnectError::PolicyViolation));
    }
}

#[test]
fn forced_https_lets_https_begin() {
    assert!(connector(true).call(&destination("https", "example.com")).is_ok());
}

#[test]
fn without_force_every_scheme_begins() {
    let connector = connector(false);
    for scheme in ["http", "https", "HTTPS", "ftp", ""] {
        assert!(connector.call(&destination(scheme, "example.com")).is_ok());
    }
}

#[test]
fn the_flag_counts_from_the_next_call_on() {
    let mut connector = connector(false);
    let dst = destination("http", "example.com");
    assert!(connector.call(&dst).is_ok());
    connector.https_only(true);
    assert_eq!(connector.call(&dst).err(), Some(ConnectError::PolicyViolation));
    connector.https_only(false);
    assert!(connector.call(&dst).is_ok());
}

#[test]
fn an_attempt_shows_itself_by_a_fixed_label() {
    assert_eq!(HttpsConnecting::label(), "HttpsConnecting");
}
