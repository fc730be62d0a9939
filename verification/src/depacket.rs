//! Access-unit reassembly on the receiving side: transport packets carry
//! fragments of one encoded frame; the fragment that carries the marker bit
//! completes the frame. The reassembler rebuilds an Annex-B elementary stream
//! incrementally and never emits a zero-length access unit.

use vstd::prelude::*;

use webrtc::rtp::codecs::h264::H264Packet;
use webrtc::rtp::packetizer::Depacketizer;

verus! {

/// The STAP-A length walk over payload `p` from offset `i`: each step reads a
/// two-byte length and hops over that many bytes. The walk is safe when it
/// never lands on a lone trailing byte — it either runs off the end entirely
/// (done) or finds a length larger than what remains (which the depacketizer
/// answers with an error). Landing exactly one byte before the end would read
/// past it.
pub open spec fn stapa_walk_safe(p: Seq<u8>, i: int) -> bool
    decreases p.len() - i,
{
    if i >= p.len() {
        true
    } else if i + 1 >= p.len() {
        false
    } else {
        let size = (p[i] as int) * 256 + (p[i + 1] as int);
        if p.len() < i + 2 + size {
            true
        } else {
            stapa_walk_safe(p, i + 2 + size)
        }
    }
}

/// The payloads the transport depacketizer handles without reading out of
/// bounds: everything except a STAP-A aggregate whose length walk lands on a
/// lone trailing byte. (Payloads of two bytes or fewer are rejected before
/// any walk; every other packet shape is bounds-checked.)
pub open spec fn depacketize_safe(p: Seq<u8>) -> bool {
    (p.len() > 2 && (p[0] & 0x1f) == 24) ==> stapa_walk_safe(p, 1)
}

/// Whether the transport depacketizer may be handed this payload: `true` for
/// everything but a truncated STAP-A aggregate, which would be read out of
/// bounds and is dropped instead.
pub fn depacketize_admissible(payload: &[u8]) -> (r: bool)
    ensures
        r == depacketize_safe(payload@),
{
    let n = payload.len();
    if n <= 2 {
        return true;
    }
    if payload[0] & 0x1f != 24 {
        return true;
    }
    let mut i: usize = 1;
    while i < n
        invariant
            n == payload@.len(),
            n > 2,
            (payload@[0] & 0x1f) == 24,
            1 <= i,
            stapa_walk_safe(payload@, 1) == stapa_walk_safe(payload@, i as int),
        decreases n - i,
    {
        if i + 1 >= n {
            return false;
        }
        let size: usize = (payload[i] as usize) * 256 + (payload[i + 1] as usize);
        if size > n - (i + 2) {
            return true;
        }
        i = i + 2 + size;
    }
    true
}

#[verifier::external_type_specification]
#[verifier::external_body]
pub struct ExH264Packet(H264Packet);

#[verifier::external_type_specification]
#[verifier::external_body]
pub struct ExRtpError(webrtc::rtp::Error);

/// Relies on webrtc's `H264Packet::default`: a fresh depacketizer with no
/// partially reassembled fragmented unit buffered.
#[verifier::external_body]
fn new_h264_packet() -> H264Packet {
    H264Packet::default()
}

/// Relies on webrtc's `H264Packet::depacketize`: parses one RTP payload into
/// Annex-B bitstream bytes (possibly empty, for a mid-unit fragment), or
/// fails on a malformed payload. A truncated STAP-A aggregate is read out of
/// bounds, so those payloads are excluded here and must be screened out by
/// the caller. The result also depends on fragmented-unit state buffered
/// inside `p`, so nothing is assumed about its value.
#[verifier::external_body]
fn depacketize_h264(p: &mut H264Packet, payload: &[u8]) -> Result<Vec<u8>, webrtc::rtp::Error>
    requires
        depacketize_safe(payload@),
{
    match p.depacketize(&payload.to_vec().into()) {
        Ok(out) => Ok(out.to_vec()),
        Err(e) => Err(e),
    }
}

/// The transport-layer H264 depacketizer state, carried opaquely from the
/// webrtc stack. One RTP payload yields zero or more Annex-B bitstream bytes;
/// a fragmented unit spans several payloads, so what comes out depends on
/// state kept in here.
pub struct H264Depacketizer {
    inner: H264Packet,
}

impl H264Depacketizer {
    /// A fresh depacketizer.
    pub fn new() -> H264Depacketizer {
        H264Depacketizer { inner: new_h264_packet() }
    }
}

/// The 4-byte Annex-B start code put in front of every appended fragment.
pub open spec fn start_code() -> Seq<u8> {
    seq![0u8, 0u8, 0u8, 1u8]
}

/// One complete access unit: the reassembled Annex-B bytes of one encoded
/// frame, tagged with the transport clock timestamp of the fragment that
/// completed it.
#[derive(Clone, Debug)]
pub struct AccessUnit {
    pub data: Vec<u8>,
    pub timestamp: u32,
}

/// How one fragment changes the pending buffer: a non-empty fragment is
/// appended behind a start code, an empty one contributes nothing; the marker
/// bit flushes the buffer, which therefore ends the step empty.
pub open spec fn step_buffer(buf: Seq<u8>, frag: Seq<u8>, marker: bool) -> Seq<u8> {
    if marker {
        Seq::empty()
    } else if frag.len() == 0 {
        buf
    } else {
        buf + start_code() + frag
    }
}

/// What one fragment emits: on the marker bit, the whole pending buffer with
/// the fragment appended — unless that is empty, in which case nothing is
/// emitted (empty flushes are suppressed).
pub open spec fn step_emission(buf: Seq<u8>, frag: Seq<u8>, marker: bool) -> Option<Seq<u8>> {
    let flushed = if frag.len() == 0 {
        buf
    } else {
        buf + start_code() + frag
    };
    if marker && flushed.len() > 0 {
        Some(flushed)
    } else {
        None
    }
}

/// The reassembly state machine: the bytes of the access unit under
/// construction. Purely a reassembler — it never decodes video.
pub struct Reassembler {
    buffer: Vec<u8>,
}

impl View for Reassembler {
    type V = Seq<u8>;

    closed spec fn view(&self) -> Seq<u8> {
        self.buffer@
    }
}

impl Reassembler {
    /// An empty reassembler: no access unit under construction.
    pub fn new() -> (r: Reassembler)
        ensures
            r@ == Seq::<u8>::empty(),
    {
        Reassembler { buffer: Vec::new() }
    }

    /// Feed one bitstream fragment with its marker bit and clock timestamp.
    /// A non-empty fragment is appended behind a start code; when the marker
    /// bit is set the buffer is flushed as one access unit tagged with this
    /// fragment's timestamp, unless the flush would be empty, which emits
    /// nothing. Within one access unit, arrival order is append order.
    pub fn push_fragment(&mut self, frag: &[u8], marker: bool, timestamp: u32) -> (emitted: Option<
        AccessUnit,
    >)
        ensures
            final(self)@ == step_buffer(old(self)@, frag@, marker),
            match step_emission(old(self)@, frag@, marker) {
                Some(d) => emitted matches Some(au) && au.data@ == d && au.timestamp == timestamp,
                None => emitted is None,
            },
    {
        if frag.len() > 0 {
            self.buffer.push(0u8);
            self.buffer.push(0u8);
            self.buffer.push(0u8);
            self.buffer.push(1u8);
            self.buffer.extend_from_slice(frag);
            assert(self.buffer@ =~= old(self)@ + start_code() + frag@);
        }
        if marker {
            if self.buffer.len() > 0 {
                let mut data: Vec<u8> = Vec::new();
                std::mem::swap(&mut data, &mut self.buffer);
                Some(AccessUnit { data, timestamp })
            } else {
                None
            }
        } else {
            None
        }
    }

    /// Feed one whole transport packet: its payload is depacketized by the
    /// webrtc stack into some bitstream fragment, and that fragment runs
    /// through `push_fragment`. A payload the depacketizer cannot be handed
    /// safely (a truncated STAP-A aggregate), like one whose parse fails,
    /// contributes no bytes. Whatever fragment came out, the buffer and the
    /// emission follow the reassembly step for it.
    pub fn push_packet(
        &mut self,
        depacketizer: &mut H264Depacketizer,
        payload: &[u8],
        marker: bool,
        timestamp: u32,
    ) -> (emitted: Option<AccessUnit>)
        ensures
            exists|frag: Seq<u8>|
                {
                    &&& #[trigger] step_buffer(old(self)@, frag, marker) == final(self)@
                    &&& match step_emission(old(self)@, frag, marker) {
                        Some(d) => emitted matches Some(au) && au.data@ == d && au.timestamp
                            == timestamp,
                        None => emitted is None,
                    }
                },
    {
        let frag: Vec<u8> = if depacketize_admissible(payload) {
            match depacketize_h264(&mut depacketizer.inner, payload) {
                Ok(v) => v,
                Err(_) => Vec::new(),
            }
        } else {
            Vec::new()
        };
        self.push_fragment(frag.as_slice(), marker, timestamp)
    }
}

/// Reassembling the fragments of one access unit: two unmarked fragments
/// followed by a marked one emit exactly one access unit — the three payloads
/// in arrival order, each behind its start code, tagged with the final
/// fragment's timestamp — and leave the buffer empty again.
pub proof fn lemma_fragment_round_trip(f1: Seq<u8>, f2: Seq<u8>, f3: Seq<u8>)
    requires
        f1.len() > 0,
        f2.len() > 0,
        f3.len() > 0,
    ensures
        ({
            let b0 = Seq::<u8>::empty();
            let b1 = step_buffer(b0, f1, false);
            let b2 = step_buffer(b1, f2, false);
            &&& step_emission(b0, f1, false) is None
            &&& step_emission(b1, f2, false) is None
            &&& step_emission(b2, f3, true) == Some(
                start_code() + f1 + start_code() + f2 + start_code() + f3,
            )
            &&& step_buffer(b2, f3, true) == Seq::<u8>::empty()
        }),
{
    let b0 = Seq::<u8>::empty();
    let b1 = step_buffer(b0, f1, false);
    let b2 = step_buffer(b1, f2, false);
    assert(b1 =~= start_code() + f1);
    assert(b2 + start_code() + f3 =~= start_code() + f1 + start_code() + f2 + start_code() + f3);
    assert(step_buffer(b2, f3, true) =~= Seq::<u8>::empty());
}

/// An empty-payload fragment with the marker bit set, arriving on an empty
/// buffer, emits nothing and leaves the buffer empty: no zero-length access
/// unit ever comes out.
pub proof fn lemma_empty_flush_suppressed()
    ensures
        step_emission(Seq::<u8>::empty(), Seq::<u8>::empty(), true) is None,
        step_buffer(Seq::<u8>::empty(), Seq::<u8>::empty(), true) == Seq::<u8>::empty(),
{
    assert(step_buffer(Seq::<u8>::empty(), Seq::<u8>::empty(), true) =~= Seq::<u8>::empty());
}

} // verus!
