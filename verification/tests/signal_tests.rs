use base64::Engine;
use wireless_display::error::StreamError;
use wireless_display::session::{ConnectionState, Session};
use wireless_display::signal::{
    check_password, describe_session, finalize_answer, h264_codec_config, handle_offer,
    make_offer_payload, parse_answer_payload, parse_description, SdpData,
};

fn std_b64(s: &str) -> String {
    base64::engine::general_purpose::STANDARD.encode(s)
}

#[test]
fn offer_payload_is_standard_base64_with_password() {
    let json = "{\"type\":\"offer\",\"sdp\":\"v=0\\r\\n\"}";
    let payload = make_offer_payload(json, Some("pw".to_string()));
    assert_eq!(payload.sdp, std_b64(json));
    assert_eq!(payload.password, Some("pw".to_string()));
}

#[test]
fn answer_is_framed_never_echoes_password_and_completes_exchange() {
    let mut s = Session::new();
    assert!(s.apply_offer());
    let json = "{\"type\":\"answer\",\"sdp\":\"v=0\\r\\n\"}";
    let answer = finalize_answer(&mut s, json);
    assert_eq!(answer.sdp, std_b64(json));
    assert!(answer.password.is_none());
    assert_eq!(s.state, ConnectionState::Connected);
}

#[test]
fn offer_framing_round_trips_through_the_handler() {
    let json = "{\"type\":\"offer\",\"sdp\":\"v=0\\r\\n\"}";
    let payload = make_offer_payload(json, Some("pw".to_string()));
    let mut s = Session::new();
    let desc = handle_offer(&mut s, &Some("pw".to_string()), &payload).expect("valid offer");
    assert_eq!(desc.sdp, "v=0\r\n");
    assert_eq!(s.state, ConnectionState::Connecting);
    assert!(s.has_transport);
    assert!(s.has_track);
}

#[test]
fn malformed_offer_rejected_without_state_change() {
    let mut s = Session::new();
    let offer = SdpData { sdp: "!!! not base64 !!!".to_string(), password: None };
    assert!(matches!(
        handle_offer(&mut s, &None, &offer),
        Err(StreamError::MalformedDescription)
    ));
    assert_eq!(s.state, ConnectionState::Disconnected);
    assert!(!s.has_transport);
}

#[test]
fn valid_base64_of_a_non_description_rejected_without_state_change() {
    let mut s = Session::new();
    // decodes fine, but the bytes are not a JSON session description
    let offer = SdpData { sdp: std_b64("not a session description"), password: None };
    assert!(matches!(
        handle_offer(&mut s, &None, &offer),
        Err(StreamError::MalformedDescription)
    ));
    assert_eq!(s.state, ConnectionState::Disconnected);
    assert!(!s.has_transport);
    assert!(!s.has_track);
    // the slot was never claimed: the next valid offer is accepted
    let json = "{\"type\":\"offer\",\"sdp\":\"v=0\\r\\n\"}";
    assert!(handle_offer(&mut s, &None, &make_offer_payload(json, None)).is_ok());
    assert_eq!(s.state, ConnectionState::Connecting);
}

#[test]
fn password_rules_match_the_endpoint() {
    // no configured password admits anything
    assert!(check_password(&None, &None));
    assert!(check_password(&None, &Some("whatever".to_string())));
    // a configured password must be equalled exactly
    assert!(check_password(&Some("s".to_string()), &Some("s".to_string())));
    assert!(!check_password(&Some("s".to_string()), &Some("S".to_string())));
    // an absent credential counts as the empty string
    assert!(!check_password(&Some("s".to_string()), &None));
    assert!(check_password(&Some(String::new()), &None));
}

#[test]
fn answer_payload_unframes_or_rejects() {
    let json = "{\"type\":\"answer\",\"sdp\":\"v=0\\r\\n\"}";
    let ok = SdpData { sdp: std_b64(json), password: None };
    assert_eq!(parse_answer_payload(&ok).expect("valid"), json.as_bytes());
    let bad = SdpData { sdp: "@@@".to_string(), password: None };
    assert_eq!(parse_answer_payload(&bad), Err(StreamError::MalformedDescription));
}

#[test]
fn session_description_json_round_trip() {
    let bytes = b"{\"type\":\"offer\",\"sdp\":\"v=0\\r\\n\"}".to_vec();
    let desc = parse_description(&bytes).expect("valid description");
    assert_eq!(desc.sdp, "v=0\r\n");
    let json = describe_session(&desc).expect("serializable");
    let again = parse_description(&json.into_bytes()).expect("round trip");
    assert_eq!(again.sdp, desc.sdp);
    assert_eq!(again.sdp_type, desc.sdp_type);
}

#[test]
fn arbitrary_bytes_are_a_malformed_description() {
    let bytes = b"not json at all".to_vec();
    assert!(matches!(parse_description(&bytes), Err(StreamError::MalformedDescription)));
}

#[test]
fn codec_registration_values() {
    let c = h264_codec_config();
    assert_eq!(c.mime_type, "video/H264");
    assert_eq!(c.clock_rate, 90000);
    assert_eq!(c.payload_type, 102);
    assert_eq!(c.fmtp_line, "level-asymmetry-allowed=1;packetization-mode=1;profile-level-id=42001f");
}
