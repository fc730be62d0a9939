//! The decode pipeline's decisions, mirroring the encode side: which H264
//! decoder to open, how an inbound clock timestamp is rescaled to the
//! decoder's time base, what happens to frames left in accelerator memory,
//! and the displayable frame handed to the rendering collaborator.

use vstd::prelude::*;

use crate::capture::Platform;
use crate::cursor::CursorPosition;
use crate::error::StreamError;
use crate::probe::{first_available, spec_first_available};

verus! {

/// The H264 decoder implementations worth probing, plus the software
/// fallback.
#[derive(Clone, Copy, Debug, PartialEq, Eq, Structural)]
pub enum DecoderKind {
    Cuvid,
    Qsv,
    D3d11va,
    Dxva2,
    Vaapi,
    Vdpau,
    VideoToolbox,
    Software,
}

/// The ordered hardware probe list of each platform; earlier entries are
/// preferred.
pub open spec fn spec_hw_decoder_candidates(p: Platform) -> Seq<DecoderKind> {
    match p {
        Platform::Windows => seq![
            DecoderKind::Cuvid,
            DecoderKind::Qsv,
            DecoderKind::D3d11va,
            DecoderKind::Dxva2,
        ],
        Platform::MacOs => seq![DecoderKind::VideoToolbox],
        Platform::Linux => seq![DecoderKind::Cuvid, DecoderKind::Vaapi, DecoderKind::Vdpau],
    }
}

/// The hardware decoder candidates to probe on platform `p`, in preference
/// order.
pub fn hw_decoder_candidates(p: Platform) -> (v: Vec<DecoderKind>)
    ensures
        v@ == spec_hw_decoder_candidates(p),
{
    let mut v: Vec<DecoderKind> = Vec::new();
    match p {
        Platform::Windows => {
            v.push(DecoderKind::Cuvid);
            v.push(DecoderKind::Qsv);
            v.push(DecoderKind::D3d11va);
            v.push(DecoderKind::Dxva2);
        },
        Platform::MacOs => {
            v.push(DecoderKind::VideoToolbox);
        },
        Platform::Linux => {
            v.push(DecoderKind::Cuvid);
            v.push(DecoderKind::Vaapi);
            v.push(DecoderKind::Vdpau);
        },
    }
    assert(v@ =~= spec_hw_decoder_candidates(p));
    v
}

/// The media layer's name for each decoder.
pub open spec fn spec_decoder_name(k: DecoderKind) -> Seq<char> {
    match k {
        DecoderKind::Cuvid => "h264_cuvid"@,
        DecoderKind::Qsv => "h264_qsv"@,
        DecoderKind::D3d11va => "h264_d3d11va"@,
        DecoderKind::Dxva2 => "h264_dxva2"@,
        DecoderKind::Vaapi => "h264_vaapi"@,
        DecoderKind::Vdpau => "h264_vdpau"@,
        DecoderKind::VideoToolbox => "h264_videotoolbox"@,
        DecoderKind::Software => "h264"@,
    }
}

/// The media layer's name for decoder `k`, the string to probe and open by.
pub fn decoder_name(k: DecoderKind) -> (r: &'static str)
    ensures
        r@ == spec_decoder_name(k),
{
    match k {
        DecoderKind::Cuvid => "h264_cuvid",
        DecoderKind::Qsv => "h264_qsv",
        DecoderKind::D3d11va => "h264_d3d11va",
        DecoderKind::Dxva2 => "h264_dxva2",
        DecoderKind::Vaapi => "h264_vaapi",
        DecoderKind::Vdpau => "h264_vdpau",
        DecoderKind::VideoToolbox => "h264_videotoolbox",
        DecoderKind::Software => "h264",
    }
}

/// The selection policy, the encode side's mirror: with acceleration
/// requested, the first available hardware candidate wins; otherwise, and on
/// a failed probe, the software decoder — and when even that is missing, the
/// decoder cannot be opened.
pub open spec fn spec_select_decoder(
    acceleration: bool,
    candidates: Seq<DecoderKind>,
    available: Seq<bool>,
    software_available: bool,
) -> Result<DecoderKind, StreamError> {
    let hw = if acceleration {
        spec_first_available(candidates, available)
    } else {
        None
    };
    match hw {
        Some(k) => Ok(k),
        None => if software_available {
            Ok(DecoderKind::Software)
        } else {
            Err(StreamError::DecoderInitFailed)
        },
    }
}

/// Select the decoder to open: `available[i]` answers whether probing
/// `candidates[i]` succeeded, and `software_available` whether the software
/// decoder exists at all.
pub fn select_decoder(
    acceleration: bool,
    candidates: &Vec<DecoderKind>,
    available: &Vec<bool>,
    software_available: bool,
) -> (r: Result<DecoderKind, StreamError>)
    requires
        candidates@.len() == available@.len(),
    ensures
        r == spec_select_decoder(acceleration, candidates@, available@, software_available),
{
    if acceleration {
        if let Some(k) = first_available(candidates, available) {
            return Ok(k);
        }
    }
    if software_available {
        Ok(DecoderKind::Software)
    } else {
        Err(StreamError::DecoderInitFailed)
    }
}

/// The accelerated-format negotiation: of the pixel formats the decoder
/// offers, take the first equal to the accelerator's own format; none means
/// no accelerated output (the decoder stays in system memory). Formats are
/// the media layer's integer format codes.
pub fn pick_accel_format(offered: &Vec<i32>, wanted: i32) -> (r: Option<usize>)
    ensures
        match r {
            Some(i) => {
                &&& i < offered@.len()
                &&& offered@[i as int] == wanted
                &&& forall|j: int| 0 <= j < i ==> offered@[j] != wanted
            },
            None => forall|j: int| 0 <= j < offered@.len() ==> offered@[j] != wanted,
        },
{
    let n = offered.len();
    let mut i: usize = 0;
    while i < n
        invariant
            n == offered@.len(),
            i <= n,
            forall|j: int| 0 <= j < i ==> offered@[j] != wanted,
        decreases n - i,
    {
        if offered[i] == wanted {
            return Some(i);
        }
        i = i + 1;
    }
    None
}

/// Where a decoded frame's pixels live after the decoder is done with it.
#[derive(Clone, Copy, Debug, PartialEq, Eq, Structural)]
pub enum FrameMemory {
    Accelerator,
    System,
}

/// The transfer degrade policy: a frame in accelerator memory is used through
/// its system-memory transfer when the transfer worked; a failed transfer is
/// treated as "already in system memory" and the frame is used as it is —
/// best-effort degrade, never fatal.
pub fn resolve_frame_memory(location: FrameMemory, transfer_ok: bool) -> (use_transfer: bool)
    ensures
        use_transfer == (location == FrameMemory::Accelerator && transfer_ok),
{
    location == FrameMemory::Accelerator && transfer_ok
}

/// Rescale a timestamp from one integer time base to another, rounding to
/// nearest: a count of `src_num / src_den`-second ticks becomes the nearest
/// count of `dst_num / dst_den`-second ticks. Inbound access units carry RTP
/// clock ticks (1/90000 s) and the decoder wants its own time base.
pub fn rescale_timestamp(ts: u32, src_num: u32, src_den: u32, dst_num: u32, dst_den: u32) -> (r:
    u64)
    requires
        src_num >= 1,
        src_den >= 1,
        dst_num >= 1,
        dst_den >= 1,
        (ts * src_num * dst_den + (src_den * dst_num) / 2) / (src_den * dst_num) <= u64::MAX,
    ensures
        r == (ts * src_num * dst_den + (src_den * dst_num) / 2) / (src_den * dst_num),
{
    proof {
        let t = ts as int;
        let sn = src_num as int;
        let dd = dst_den as int;
        let sd = src_den as int;
        let dn = dst_num as int;
        assert(0 <= t * sn <= 0xffff_ffff * 0xffff_ffff) by (nonlinear_arith)
            requires
                0 <= t <= 0xffff_ffff,
                0 <= sn <= 0xffff_ffff,
        ;
        assert(0 <= (t * sn) * dd <= 0xffff_ffff * 0xffff_ffff * 0xffff_ffff) by (nonlinear_arith)
            requires
                0 <= t * sn <= 0xffff_ffff * 0xffff_ffff,
                0 <= dd <= 0xffff_ffff,
        ;
        assert(1 <= sd * dn <= 0xffff_ffff * 0xffff_ffff) by (nonlinear_arith)
            requires
                1 <= sd <= 0xffff_ffff,
                1 <= dn <= 0xffff_ffff,
        ;
    }
    let a: u128 = (ts as u128) * (src_num as u128) * (dst_den as u128);
    let c: u128 = (src_den as u128) * (dst_num as u128);
    let r128: u128 = (a + c / 2) / c;
    r128 as u64
}

/// One displayable frame leaving the decode pipeline: packed RGBA pixels,
/// fully self-contained, with the cursor overlay position read at emission
/// time. Ownership passes to the rendering collaborator.
#[derive(Clone, Debug)]
pub struct StreamFrame {
    pub data: Vec<u8>,
    pub width: u32,
    pub height: u32,
    pub mouse: Option<CursorPosition>,
}

impl StreamFrame {
    /// Packed RGBA: exactly four bytes per pixel.
    pub open spec fn wf(self) -> bool {
        self.data@.len() == 4 * self.width * self.height
    }

    /// Wrap one converted frame, no cursor attached yet.
    pub fn new(data: Vec<u8>, width: u32, height: u32) -> (f: StreamFrame)
        requires
            data@.len() == 4 * width * height,
        ensures
            f.data == data,
            f.width == width,
            f.height == height,
            f.mouse is None,
            f.wf(),
    {
        StreamFrame { data, width, height, mouse: None }
    }

    /// Attach the shared last-known cursor position before publishing the
    /// frame; the pixels are untouched.
    pub fn attach_cursor(&mut self, mouse: Option<CursorPosition>)
        ensures
            final(self).mouse == mouse,
            final(self).data == old(self).data,
            final(self).width == old(self).width,
            final(self).height == old(self).height,
            old(self).wf() ==> final(self).wf(),
    {
        self.mouse = mouse;
    }
}

} // verus!
