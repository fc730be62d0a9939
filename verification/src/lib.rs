//! Core of a live remote-monitor stream: one machine captures and encodes its
//! screen, a peer decodes and displays it. This crate holds the verified
//! pipeline logic — the session/signaling state machine, signaling payload
//! framing, access-unit reassembly, cursor normalization, the bounded
//! drop-newest handoff policy, and codec selection and timing — while the
//! platform collaborators (capture device, codecs, transport, rendering)
//! drive it from outside.

pub mod capture;
pub mod cursor;
pub mod decode;
pub mod depacket;
pub mod encode;
pub mod error;
pub mod probe;
pub mod queue;
pub mod session;
pub mod signal;
