use tls_meter::measure::{
    ensure_installed, MeasureAction, MeasureError, MeasureEvent, MeasureState, Measurement,
};

#[test]
fn test_crypto_provider_install_idempotent() {
    ensure_installed();
    ensure_installed();
    ensure_installed();
    assert!(rustls::crypto::CryptoProvider::get_default().is_some());
}

#[test]
fn test_invalid_name_fails_without_connecting() {
    let (m, a) = Measurement::start("bad\u{1}host", 443);
    assert_eq!(a, MeasureAction::Stop);
    match m.state {
        MeasureState::HandshakeFailed(MeasureError::InvalidNameError { name }) => {
            assert_eq!(name, "bad\u{1}host");
        }
        _ => panic!("expected InvalidNameError"),
    }
}

#[test]
fn test_valid_name_starts_unconnected() {
    let (m, a) = Measurement::start("speed.cloudflare.com", 443);
    assert_eq!(a, MeasureAction::ConnectTcp);
    assert!(matches!(m.state, MeasureState::Unconnected));
    assert_eq!(m.host, "speed.cloudflare.com");
    assert_eq!(m.port, 443);
}

#[test]
fn test_ip_literal_is_a_valid_name() {
    let (m, a) = Measurement::start("127.0.0.1", 8443);
    assert_eq!(a, MeasureAction::ConnectTcp);
    assert!(matches!(m.state, MeasureState::Unconnected));
}

#[test]
fn test_tcp_failure_is_network_error() {
    let (m, a) = Measurement::start("example.com", 443);
    assert_eq!(a, MeasureAction::ConnectTcp);
    let (m, a) = m.step(MeasureEvent::TcpConnectFailed {
        cause: "connection refused".to_string(),
    });
    assert_eq!(a, MeasureAction::Stop);
    match m.outcome() {
        Some(Err(MeasureError::NetworkError { host, port, cause })) => {
            assert_eq!(host, "example.com");
            assert_eq!(port, 443);
            assert_eq!(cause, "connection refused");
        }
        _ => panic!("expected a NetworkError outcome"),
    }
}

#[test]
fn test_rejected_handshake_is_handshake_error() {
    let (m, _) = Measurement::start("example.com", 443);
    let (m, a) = m.step(MeasureEvent::TcpConnectOk);
    assert_eq!(a, MeasureAction::StartHandshake);
    assert!(matches!(m.state, MeasureState::TcpConnected));
    let (m, a) = m.step(MeasureEvent::HandshakeBegun);
    assert_eq!(a, MeasureAction::AwaitHandshake);
    assert!(matches!(m.state, MeasureState::HandshakeStarted));
    let (m, a) = m.step(MeasureEvent::HandshakeRejected {
        cause: "protocol mismatch".to_string(),
    });
    assert_eq!(a, MeasureAction::Stop);
    match m.outcome() {
        Some(Err(MeasureError::HandshakeError { host, cause })) => {
            assert_eq!(host, "example.com");
            assert_eq!(cause, "protocol mismatch");
        }
        _ => panic!("expected a HandshakeError outcome"),
    }
}

#[test]
fn test_completed_handshake_gives_summary() {
    let (m, _) = Measurement::start("example.com", 8443);
    let (m, _) = m.step(MeasureEvent::TcpConnectOk);
    let (m, _) = m.step(MeasureEvent::HandshakeBegun);
    let (m, a) = m.step(MeasureEvent::HandshakeCompleted {
        elapsed_ns: 12_345_678,
        protocol_version: Some("TLSv1_3".to_string()),
        cipher_suite: Some("TLS13_AES_128_GCM_SHA256".to_string()),
    });
    assert_eq!(a, MeasureAction::Stop);
    match m.outcome() {
        Some(Ok(summary)) => {
            assert_eq!(summary.handshake_time_ns, 12_345_678);
            assert!(summary.handshake_time_ns > 0);
            assert_eq!(summary.protocol_version.as_deref(), Some("TLSv1_3"));
            assert_eq!(
                summary.cipher_suite.as_deref(),
                Some("TLS13_AES_128_GCM_SHA256")
            );
        }
        _ => panic!("expected a summary"),
    }
}

#[test]
fn test_zero_elapsed_still_reports_positive_time() {
    let (m, _) = Measurement::start("example.com", 443);
    let (m, _) = m.step(MeasureEvent::TcpConnectOk);
    let (m, _) = m.step(MeasureEvent::HandshakeBegun);
    let (m, _) = m.step(MeasureEvent::HandshakeCompleted {
        elapsed_ns: 0,
        protocol_version: None,
        cipher_suite: None,
    });
    match m.outcome() {
        Some(Ok(summary)) => {
            assert_eq!(summary.handshake_time_ns, 1);
            assert!(summary.handshake_time_ns > 0);
        }
        _ => panic!("expected a summary"),
    }
}

#[test]
fn test_absent_session_parameters_are_not_an_error() {
    let (m, _) = Measurement::start("example.com", 443);
    let (m, _) = m.step(MeasureEvent::TcpConnectOk);
    let (m, _) = m.step(MeasureEvent::HandshakeBegun);
    let (m, _) = m.step(MeasureEvent::HandshakeCompleted {
        elapsed_ns: 1,
        protocol_version: None,
        cipher_suite: None,
    });
    match m.outcome() {
        Some(Ok(summary)) => {
            assert_eq!(summary.protocol_version, None);
            assert_eq!(summary.cipher_suite, None);
        }
        _ => panic!("expected a summary"),
    }
}

#[test]
fn test_unmatched_event_changes_nothing() {
    let (m, _) = Measurement::start("example.com", 443);
    let (m, a) = m.step(MeasureEvent::HandshakeBegun);
    assert_eq!(a, MeasureAction::Stop);
    assert!(matches!(m.state, MeasureState::Unconnected));
    assert_eq!(m.host, "example.com");
}
