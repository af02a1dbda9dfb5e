use hyper_tls::{ConnectError, MaybeHttpsStream};

#[test]
fn policy_violation_message() {
    assert_eq!(
        ConnectError::PolicyViolation.message(),
        "HTTPS scheme forced but can't be used"
    );
}

#[test]
fn transport_failure_message_embeds_the_transport_words() {
    let error = ConnectError::TransportFailure("ConnectError(\"dns error\", Custom)".to_owned());
    assert_eq!(
        error.message(),
        "HTTP Connection failed: ConnectError(\"dns error\", Custom)"
    );
}

#[test]
fn transport_failure_message_with_empty_words() {
    let error = ConnectError::TransportFailure(String::new());
    assert_eq!(error.message(), "HTTP Connection failed: ");
}

#[test]
fn handshake_failure_message_is_the_tls_words() {
    let error = ConnectError::HandshakeFailure("certificate verify failed".to_owned());
    assert_eq!(error.message(), "certificate verify failed");
    assert_eq!(ConnectError::HandshakeFailure(String::new()).message(), "");
}

#[test]
fn messages_keep_text_beyond_ascii() {
    let error = ConnectError::TransportFailure("Verbindung abgelehnt: größer".to_owned());
    assert_eq!(error.message(), "HTTP Connection failed: Verbindung abgelehnt: größer");
}

#[test]
fn the_three_kinds_differ() {
    let words = "same words".to_owned();
    assert_ne!(
        ConnectError::TransportFailure(words.clone()),
        ConnectError::HandshakeFailure(words.clone())
    );
    assert_ne!(ConnectError::PolicyViolation, ConnectError::TransportFailure(words.clone()));
    assert_ne!(ConnectError::PolicyViolation, ConnectError::HandshakeFailure(words));
}

#[test]
fn stream_variants_tell_themselves_apart() {
    let plain: MaybeHttpsStream<u8, u16> = MaybeHttpsStream::Http(1);
    let encrypted: MaybeHttpsStream<u8, u16> = MaybeHttpsStream::Https(1);
    assert!(!plain.is_https());
    assert!(encrypted.is_https());
}
