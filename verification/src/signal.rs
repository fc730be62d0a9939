//! The signaling exchange: one request/response. The request carries a
//! base64-framed JSON session description and an optional password; the
//! response carries the base64-framed answer description and never echoes a
//! password. The handler enforces the password and the single-session rule,
//! and a rejected offer leaves the session exactly as it was.

use vstd::prelude::*;

use webrtc::peer_connection::sdp::session_description::RTCSessionDescription;

use crate::error::StreamError;
use crate::session::{offer_admissible, offer_transition, finalize_transition, Session};

verus! {

/// One signaling payload: `sdp` is the base64 of the JSON wire form of a
/// session description; `password` is the offered credential (requests only —
/// responses carry none).
#[derive(Clone, Debug)]
pub struct SdpData {
    pub sdp: String,
    pub password: Option<String>,
}

/// The views of an optional string, for speaking about optional credentials.
pub open spec fn opt_string_view(o: Option<String>) -> Option<Seq<char>> {
    match o {
        Option::Some(s) => Option::Some(s@),
        Option::None => Option::None,
    }
}

/// When an offered credential satisfies the configured password: no
/// configured password admits everything; a configured password must be
/// equalled exactly, and an absent offered credential counts as the empty
/// string. There is no exception to this rule.
pub open spec fn password_accepted(
    configured: Option<Seq<char>>,
    provided: Option<Seq<char>>,
) -> bool {
    match configured {
        Option::None => true,
        Option::Some(c) => match provided {
            Option::Some(p) => p == c,
            Option::None => c.len() == 0,
        },
    }
}

/// The equality check behind `password_accepted`.
pub fn check_password(configured: &Option<String>, provided: &Option<String>) -> (ok: bool)
    ensures
        ok == password_accepted(opt_string_view(*configured), opt_string_view(*provided)),
{
    match configured {
        Option::None => true,
        Option::Some(c) => match provided {
            Option::Some(p) => p.eq(c),
            Option::None => c.as_str().is_empty(),
        },
    }
}

/// What base64 framing makes of a sequence of characters (standard alphabet,
/// padded).
pub uninterp spec fn b64_encode_of(s: Seq<char>) -> Seq<char>;

/// What base64 unframing makes of a sequence of characters: the decoded
/// bytes, or nothing when the characters are not valid padded
/// standard-alphabet base64.
pub uninterp spec fn b64_decode_of(s: Seq<char>) -> Option<Seq<u8>>;

/// Relies on base64's `Engine::encode` with the padded standard-alphabet
/// engine: the encoding is a function of the input characters alone.
#[verifier::external_body]
fn b64_encode(s: &str) -> (r: String)
    ensures
        r@ == b64_encode_of(s@),
{
    base64::Engine::encode(&base64::engine::general_purpose::STANDARD, s)
}

#[verifier::external_type_specification]
#[verifier::external_body]
pub struct ExDecodeError(base64::DecodeError);

/// Relies on base64's `Engine::decode` with the padded standard-alphabet
/// engine: the result is a function of the input characters alone, and it
/// fails exactly on inputs that are not valid padded standard-alphabet
/// base64.
#[verifier::external_body]
fn b64_decode(s: &str) -> (r: Result<Vec<u8>, base64::DecodeError>)
    ensures
        r matches Ok(v) ==> b64_decode_of(s@) == Some(v@),
        r is Err ==> b64_decode_of(s@) is None,
{
    base64::Engine::decode(&base64::engine::general_purpose::STANDARD, s)
}

/// Handle one incoming offer against the current session. The password is
/// checked first (`AuthFailed`), then the single-session rule (`SessionBusy`),
/// then the whole framing — base64 and the JSON description inside it
/// (`MalformedDescription`). Only an offer that passes all three claims the
/// slot, and every rejection leaves the session exactly as it was. On
/// acceptance the parsed session description is returned for the transport
/// layer to apply.
pub fn handle_offer(
    session: &mut Session,
    configured_password: &Option<String>,
    offer: &SdpData,
) -> (r: Result<RTCSessionDescription, StreamError>)
    ensures
        ({
            let pw_ok = password_accepted(
                opt_string_view(*configured_password),
                opt_string_view(offer.password),
            );
            let idle = offer_admissible(*old(session));
            &&& (old(session).wf() ==> final(session).wf())
            &&& (!pw_ok ==> (r matches Err(e) && e == StreamError::AuthFailed && *final(session)
                == *old(session)))
            &&& (pw_ok && !idle ==> (r matches Err(e) && e == StreamError::SessionBusy
                && *final(session) == *old(session)))
            &&& (match b64_decode_of(offer.sdp@) {
                Option::Some(b) => pw_ok && idle ==> (if description_json_ok(b) {
                    r is Ok && *final(session) == offer_transition(*old(session))
                } else {
                    (r matches Err(e) && e == StreamError::MalformedDescription && *final(session)
                        == *old(session))
                }),
                Option::None => pw_ok && idle ==> (r matches Err(e) && e
                    == StreamError::MalformedDescription && *final(session) == *old(session)),
            })
        }),
{
    if !check_password(configured_password, &offer.password) {
        return Err(StreamError::AuthFailed);
    }
    if !session.is_idle() {
        return Err(StreamError::SessionBusy);
    }
    let bytes = match b64_decode(offer.sdp.as_str()) {
        Ok(bytes) => bytes,
        Err(_) => {
            return Err(StreamError::MalformedDescription);
        },
    };
    match description_from_json(bytes.as_slice()) {
        Ok(description) => {
            session.apply_offer();
            Ok(description)
        },
        Err(_) => Err(StreamError::MalformedDescription),
    }
}

/// Frame the fully gathered local answer description as the signaling
/// response, and complete the pending exchange: the response carries the
/// base64 of the answer JSON and never carries a password.
pub fn finalize_answer(session: &mut Session, answer_json: &str) -> (r: SdpData)
    ensures
        r.sdp@ == b64_encode_of(answer_json@),
        r.password is None,
        *final(session) == finalize_transition(*old(session)),
        old(session).wf() ==> final(session).wf(),
{
    session.finalize_local();
    SdpData { sdp: b64_encode(answer_json), password: None }
}

/// Frame the client's gathered local offer description as the signaling
/// request, carrying the configured password along.
pub fn make_offer_payload(local_json: &str, password: Option<String>) -> (r: SdpData)
    ensures
        r.sdp@ == b64_encode_of(local_json@),
        r.password == password,
{
    SdpData { sdp: b64_encode(local_json), password }
}

/// Unframe the server's answer payload back to the JSON description bytes.
pub fn parse_answer_payload(answer: &SdpData) -> (r: Result<Vec<u8>, StreamError>)
    ensures
        match b64_decode_of(answer.sdp@) {
            Option::Some(b) => r matches Ok(v) && v@ == b,
            Option::None => r matches Err(e) && e == StreamError::MalformedDescription,
        },
{
    match b64_decode(answer.sdp.as_str()) {
        Ok(bytes) => Ok(bytes),
        Err(_) => Err(StreamError::MalformedDescription),
    }
}

#[verifier::external_type_specification]
#[verifier::external_body]
pub struct ExRTCSessionDescription(RTCSessionDescription);

#[verifier::external_type_specification]
#[verifier::external_body]
pub struct ExSerdeJsonError(serde_json::Error);

/// Whether a sequence of bytes is the JSON wire form of a session
/// description — what serde's parse of those bytes, a function of the bytes
/// alone, accepts.
pub uninterp spec fn description_json_ok(bytes: Seq<u8>) -> bool;

/// Relies on serde_json::from_slice: parses the JSON wire form of a session
/// description, deterministically in the bytes alone; it fails exactly on
/// bytes that are not such JSON.
#[verifier::external_body]
fn description_from_json(bytes: &[u8]) -> (r: Result<RTCSessionDescription, serde_json::Error>)
    ensures
        r is Ok <==> description_json_ok(bytes@),
{
    serde_json::from_slice::<RTCSessionDescription>(bytes)
}

/// Relies on serde_json::to_string: renders a session description in its
/// JSON wire form.
#[verifier::external_body]
fn description_to_json(desc: &RTCSessionDescription) -> Result<String, serde_json::Error> {
    serde_json::to_string(desc)
}

/// The codec registration both peers build their media engine with: H264 on
/// the RTP video clock, with the packetization parameters the offer
/// advertises.
#[derive(Clone, Debug)]
pub struct CodecConfig {
    pub mime_type: String,
    pub clock_rate: u32,
    pub payload_type: u8,
    pub fmtp_line: String,
}

/// The one codec this pipeline negotiates: H264, 90 kHz RTP clock, payload
/// type 102, non-interleaved packetization at constrained baseline level 3.1.
pub fn h264_codec_config() -> (c: CodecConfig)
    ensures
        c.mime_type@ == "video/H264"@,
        c.clock_rate == 90000,
        c.payload_type == 102,
        c.fmtp_line@ == "level-asymmetry-allowed=1;packetization-mode=1;profile-level-id=42001f"@,
{
    CodecConfig {
        mime_type: String::from_str("video/H264"),
        clock_rate: 90000,
        payload_type: 102,
        fmtp_line: String::from_str(
            "level-asymmetry-allowed=1;packetization-mode=1;profile-level-id=42001f",
        ),
    }
}

/// Parse decoded description bytes into the transport's session description:
/// succeeds exactly on the JSON wire form of one, and anything else is a
/// malformed description.
pub fn parse_description(bytes: &Vec<u8>) -> (r: Result<RTCSessionDescription, StreamError>)
    ensures
        r is Ok <==> description_json_ok(bytes@),
        r matches Err(e) ==> e == StreamError::MalformedDescription,
{
    match description_from_json(bytes.as_slice()) {
        Ok(desc) => Ok(desc),
        Err(_) => Err(StreamError::MalformedDescription),
    }
}

/// Render a gathered local description for framing; a description the JSON
/// layer cannot render is a malformed description.
pub fn describe_session(desc: &RTCSessionDescription) -> (r: Result<String, StreamError>)
    ensures
        r matches Err(e) ==> e == StreamError::MalformedDescription,
{
    match description_to_json(desc) {
        Ok(json) => Ok(json),
        Err(_) => Err(StreamError::MalformedDescription),
    }
}

} // verus!
