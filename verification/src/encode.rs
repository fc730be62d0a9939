//! The encode pipeline's decisions: which H264 encoder to open, how to tune
//! it for low latency, and how each frame and emitted sample is timestamped.
//! The codecs themselves live in the platform media layer; this module fixes
//! what is asked of them.

use vstd::prelude::*;

use crate::capture::Platform;
use crate::error::StreamError;
use crate::probe::{first_available, spec_first_available};

verus! {

/// The RTP video clock: presentation timestamps count these ticks per second.
pub const CLOCK_RATE: u64 = 90000;

/// The H264 encoder implementations worth probing, hardware ones by vendor
/// API plus the one software fallback.
#[derive(Clone, Copy, Debug, PartialEq, Eq, Structural)]
pub enum EncoderKind {
    Nvenc,
    Amf,
    Qsv,
    MediaFoundation,
    VideoToolbox,
    Vaapi,
    X264,
}

/// The ordered hardware probe list of each platform; earlier entries are
/// preferred.
pub open spec fn spec_hw_encoder_candidates(p: Platform) -> Seq<EncoderKind> {
    match p {
        Platform::Windows => seq![
            EncoderKind::Nvenc,
            EncoderKind::Amf,
            EncoderKind::Qsv,
            EncoderKind::MediaFoundation,
        ],
        Platform::MacOs => seq![EncoderKind::VideoToolbox],
        Platform::Linux => seq![EncoderKind::Nvenc, EncoderKind::Vaapi],
    }
}

/// The hardware encoder candidates to probe on platform `p`, in preference
/// order.
pub fn hw_encoder_candidates(p: Platform) -> (v: Vec<EncoderKind>)
    ensures
        v@ == spec_hw_encoder_candidates(p),
{
    let mut v: Vec<EncoderKind> = Vec::new();
    match p {
        Platform::Windows => {
            v.push(EncoderKind::Nvenc);
            v.push(EncoderKind::Amf);
            v.push(EncoderKind::Qsv);
            v.push(EncoderKind::MediaFoundation);
        },
        Platform::MacOs => {
            v.push(EncoderKind::VideoToolbox);
        },
        Platform::Linux => {
            v.push(EncoderKind::Nvenc);
            v.push(EncoderKind::Vaapi);
        },
    }
    assert(v@ =~= spec_hw_encoder_candidates(p));
    v
}

/// The media layer's name for each encoder.
pub open spec fn spec_encoder_name(k: EncoderKind) -> Seq<char> {
    match k {
        EncoderKind::Nvenc => "h264_nvenc"@,
        EncoderKind::Amf => "h264_amf"@,
        EncoderKind::Qsv => "h264_qsv"@,
        EncoderKind::MediaFoundation => "h264_mf"@,
        EncoderKind::VideoToolbox => "h264_videotoolbox"@,
        EncoderKind::Vaapi => "h264_vaapi"@,
        EncoderKind::X264 => "libx264"@,
    }
}

/// The media layer's name for encoder `k`, the string to probe and open by.
pub fn encoder_name(k: EncoderKind) -> (r: &'static str)
    ensures
        r@ == spec_encoder_name(k),
{
    match k {
        EncoderKind::Nvenc => "h264_nvenc",
        EncoderKind::Amf => "h264_amf",
        EncoderKind::Qsv => "h264_qsv",
        EncoderKind::MediaFoundation => "h264_mf",
        EncoderKind::VideoToolbox => "h264_videotoolbox",
        EncoderKind::Vaapi => "h264_vaapi",
        EncoderKind::X264 => "libx264",
    }
}

/// The selection policy. With acceleration requested, the first available
/// hardware candidate wins; otherwise, and on a failed probe, the software
/// encoder — and when even that is missing, the encoder cannot be opened.
pub open spec fn spec_select_encoder(
    acceleration: bool,
    candidates: Seq<EncoderKind>,
    available: Seq<bool>,
    software_available: bool,
) -> Result<EncoderKind, StreamError> {
    let hw = if acceleration {
        spec_first_available(candidates, available)
    } else {
        None
    };
    match hw {
        Some(k) => Ok(k),
        None => if software_available {
            Ok(EncoderKind::X264)
        } else {
            Err(StreamError::EncoderInitFailed)
        },
    }
}

/// Select the encoder to open: `available[i]` answers whether probing
/// `candidates[i]` succeeded, and `software_available` whether the software
/// encoder exists at all.
pub fn select_encoder(
    acceleration: bool,
    candidates: &Vec<EncoderKind>,
    available: &Vec<bool>,
    software_available: bool,
) -> (r: Result<EncoderKind, StreamError>)
    requires
        candidates@.len() == available@.len(),
    ensures
        r == spec_select_encoder(acceleration, candidates@, available@, software_available),
{
    if acceleration {
        if let Some(k) = first_available(candidates, available) {
            return Ok(k);
        }
    }
    if software_available {
        Ok(EncoderKind::X264)
    } else {
        Err(StreamError::EncoderInitFailed)
    }
}

/// The low-latency tuning every encoder variant is opened with. The policy is
/// "minimize encoder-introduced latency, keep the random-access interval
/// short", not "maximize compression".
#[derive(Clone, Copy, Debug, PartialEq, Eq, Structural)]
pub struct EncoderTuning {
    /// Frames between full random-access points (the GOP size).
    pub gop: u32,
    /// Bidirectionally predicted frames allowed (none: they add delay).
    pub b_frames: u32,
    /// Reference frames kept.
    pub reference_frames: u32,
    /// Scene-cut keyframe insertion (off: keyframes stay periodic).
    pub scene_cut_detection: bool,
    /// Encoder look-ahead (off: it buffers frames).
    pub lookahead: bool,
    /// The constant-quality / constant-QP point.
    pub quality: u32,
}

/// The tuning for encoder `k`: one shared low-latency policy, with the
/// quality point the software encoder uses as a rate factor and the hardware
/// encoders as a constant QP.
pub fn tuning_for(k: EncoderKind) -> (t: EncoderTuning)
    ensures
        t.gop == 15,
        t.b_frames == 0,
        t.reference_frames == 1,
        !t.scene_cut_detection,
        !t.lookahead,
        t.quality == (if k == EncoderKind::X264 {
            21u32
        } else {
            23u32
        }),
{
    EncoderTuning {
        gop: 15,
        b_frames: 0,
        reference_frames: 1,
        scene_cut_detection: false,
        lookahead: false,
        quality: if k == EncoderKind::X264 {
            21
        } else {
            23
        },
    }
}

/// A sample duration as an exact fraction of a second.
#[derive(Clone, Copy, Debug, PartialEq, Eq, Structural)]
pub struct SamplePeriod {
    pub num: u32,
    pub den: u32,
}

/// One encoded access unit leaving the encode pipeline, consumed exactly once
/// by the transport sink.
#[derive(Clone, Debug)]
pub struct EncodedSample {
    pub payload: Vec<u8>,
    pub duration: SamplePeriod,
    pub pts: u64,
}

/// The presentation clock of the encode pipeline: timestamps come from a
/// running frame counter against the configured framerate — not wall time —
/// so frame spacing stays constant and drift-free even when the capture
/// source stutters.
#[derive(Clone, Copy, Debug, PartialEq, Eq, Structural)]
pub struct EncodeTimeline {
    pub framerate: u32,
    pub frames_counted: u64,
}

impl EncodeTimeline {
    /// A framerate of zero would make every timestamp a division by zero.
    pub open spec fn wf(self) -> bool {
        self.framerate >= 1
    }

    /// A fresh timeline at frame zero.
    pub fn new(framerate: u32) -> (t: EncodeTimeline)
        requires
            framerate >= 1,
        ensures
            t.framerate == framerate,
            t.frames_counted == 0,
            t.wf(),
    {
        EncodeTimeline { framerate, frames_counted: 0 }
    }

    /// The presentation timestamp of the next raw frame entering the encoder,
    /// in RTP clock ticks: the frame counter scaled by the tick count of one
    /// frame period. Advances the counter.
    pub fn next_pts(&mut self) -> (pts: u64)
        requires
            old(self).wf(),
            old(self).frames_counted * 90000 <= u64::MAX,
        ensures
            pts == old(self).frames_counted * 90000 / (old(self).framerate as int),
            final(self).frames_counted == old(self).frames_counted + 1,
            final(self).framerate == old(self).framerate,
            final(self).wf(),
    {
        let pts = self.frames_counted * CLOCK_RATE / (self.framerate as u64);
        self.frames_counted = self.frames_counted + 1;
        pts
    }
}

/// Stamp one encoded access unit for the transport sink. Every sample's
/// duration is exactly one framerate period — including the very first one
/// after pipeline start, which has no prior timestamp delta and gets exactly
/// this default.
pub fn make_sample(payload: Vec<u8>, framerate: u32, pts: u64) -> (s: EncodedSample)
    requires
        framerate >= 1,
    ensures
        s.payload == payload,
        s.duration == (SamplePeriod { num: 1u32, den: framerate }),
        s.pts == pts,
{
    EncodedSample { payload, duration: SamplePeriod { num: 1, den: framerate }, pts }
}

} // verus!
