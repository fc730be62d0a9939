use wireless_display::error::StreamError;
use wireless_display::session::{ConnectionState, Session, TransportState};
use wireless_display::signal::{handle_offer, SdpData};

fn b64(s: &str) -> String {
    base64::Engine::encode(&base64::engine::general_purpose::STANDARD, s)
}

#[test]
fn fresh_session_is_idle_and_empty() {
    let s = Session::new();
    assert_eq!(s.state, ConnectionState::Disconnected);
    assert!(!s.has_transport);
    assert!(!s.has_track);
    assert!(s.is_idle());
}

#[test]
fn first_offer_claims_slot_rest_are_turned_away() {
    let mut s = Session::new();
    assert!(s.apply_offer());
    assert_eq!(s.state, ConnectionState::Connecting);
    assert!(s.has_transport);
    assert!(s.has_track);
    assert!(!s.apply_offer());
    assert!(!s.apply_offer());
    assert_eq!(s.state, ConnectionState::Connecting);
}

#[test]
fn contending_offers_exactly_one_accepted_rest_busy() {
    let mut s = Session::new();
    let offer = SdpData { sdp: b64("{\"type\":\"offer\",\"sdp\":\"v=0\"}"), password: None };
    let mut accepted = 0;
    let mut busy = 0;
    for _ in 0..5 {
        match handle_offer(&mut s, &None, &offer) {
            Ok(_) => accepted += 1,
            Err(StreamError::SessionBusy) => busy += 1,
            Err(e) => panic!("unexpected rejection: {:?}", e),
        }
    }
    assert_eq!(accepted, 1);
    assert_eq!(busy, 4);
    assert_eq!(s.state, ConnectionState::Connecting);
}

#[test]
fn wrong_password_always_auth_failed_and_state_untouched() {
    let mut s = Session::new();
    let configured = Some("secret".to_string());
    let offer = SdpData {
        sdp: b64("{\"type\":\"offer\",\"sdp\":\"v=0\"}"),
        password: Some("wrong".to_string()),
    };
    for _ in 0..3 {
        let r = handle_offer(&mut s, &configured, &offer);
        assert!(matches!(r, Err(StreamError::AuthFailed)));
        assert_eq!(s.state, ConnectionState::Disconnected);
        assert!(!s.has_transport);
        assert!(!s.has_track);
    }
    // even while a session is underway, the password check comes first
    assert!(s.apply_offer());
    let r = handle_offer(&mut s, &configured, &offer);
    assert!(matches!(r, Err(StreamError::AuthFailed)));
    assert_eq!(s.state, ConnectionState::Connecting);
}

#[test]
fn finalize_completes_only_a_pending_exchange() {
    let mut s = Session::new();
    s.finalize_local();
    assert_eq!(s.state, ConnectionState::Disconnected);
    assert!(s.apply_offer());
    s.finalize_local();
    assert_eq!(s.state, ConnectionState::Connected);
    s.finalize_local();
    assert_eq!(s.state, ConnectionState::Connected);
}

#[test]
fn abandoned_exchange_releases_the_slot() {
    let mut s = Session::new();
    assert!(s.apply_offer());
    assert_eq!(s.state, ConnectionState::Connecting);
    // the transport setup failed after acceptance: the slot is released
    s.abort_offer();
    assert_eq!(s.state, ConnectionState::Disconnected);
    assert!(!s.has_transport);
    assert!(!s.has_track);
    // and the very next offer is accepted again
    assert!(s.apply_offer());
    // a completed session is not touched by an abort
    s.finalize_local();
    s.abort_offer();
    assert_eq!(s.state, ConnectionState::Connected);
    assert!(s.has_transport);
}

#[test]
fn terminal_transport_reports_free_the_slot() {
    for t in [TransportState::Disconnected, TransportState::Failed, TransportState::Closed] {
        let mut s = Session::new();
        assert!(s.apply_offer());
        s.finalize_local();
        let ended = s.apply_transport_report(t);
        assert_eq!(ended, Some(StreamError::TransportClosed));
        assert_eq!(s.state, ConnectionState::Disconnected);
        assert!(!s.has_transport);
        assert!(!s.has_track);
    }
}

#[test]
fn non_terminal_transport_reports_change_nothing() {
    let mut s = Session::new();
    assert!(s.apply_offer());
    for t in [TransportState::New, TransportState::Connecting, TransportState::Connected] {
        let ended = s.apply_transport_report(t);
        assert_eq!(ended, None);
        assert_eq!(s.state, ConnectionState::Connecting);
        assert!(s.has_transport);
    }
}

#[test]
fn offer_accepted_after_transport_failure() {
    let mut s = Session::new();
    assert!(s.apply_offer());
    s.finalize_local();
    assert_eq!(s.state, ConnectionState::Connected);
    s.apply_transport_report(TransportState::Failed);
    assert_eq!(s.state, ConnectionState::Disconnected);
    // the very next valid offer is accepted again
    let offer = SdpData { sdp: b64("{\"type\":\"offer\",\"sdp\":\"v=0\"}"), password: None };
    assert!(handle_offer(&mut s, &None, &offer).is_ok());
    assert_eq!(s.state, ConnectionState::Connecting);
}
