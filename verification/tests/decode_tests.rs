use wireless_display::capture::Platform;
use wireless_display::cursor::{AxisPosition, CursorPosition};
use wireless_display::decode::{
    decoder_name, hw_decoder_candidates, pick_accel_format, rescale_timestamp,
    resolve_frame_memory, select_decoder, DecoderKind, FrameMemory, StreamFrame,
};
use wireless_display::error::StreamError;

#[test]
fn decoder_candidate_lists_per_platform() {
    assert_eq!(
        hw_decoder_candidates(Platform::Windows),
        vec![DecoderKind::Cuvid, DecoderKind::Qsv, DecoderKind::D3d11va, DecoderKind::Dxva2]
    );
    assert_eq!(hw_decoder_candidates(Platform::MacOs), vec![DecoderKind::VideoToolbox]);
    assert_eq!(
        hw_decoder_candidates(Platform::Linux),
        vec![DecoderKind::Cuvid, DecoderKind::Vaapi, DecoderKind::Vdpau]
    );
}

#[test]
fn decoder_names_match_media_layer() {
    assert_eq!(decoder_name(DecoderKind::Cuvid), "h264_cuvid");
    assert_eq!(decoder_name(DecoderKind::Qsv), "h264_qsv");
    assert_eq!(decoder_name(DecoderKind::D3d11va), "h264_d3d11va");
    assert_eq!(decoder_name(DecoderKind::Dxva2), "h264_dxva2");
    assert_eq!(decoder_name(DecoderKind::Vaapi), "h264_vaapi");
    assert_eq!(decoder_name(DecoderKind::Vdpau), "h264_vdpau");
    assert_eq!(decoder_name(DecoderKind::VideoToolbox), "h264_videotoolbox");
    assert_eq!(decoder_name(DecoderKind::Software), "h264");
}

#[test]
fn selection_mirrors_the_encode_side() {
    let candidates = hw_decoder_candidates(Platform::Linux);
    assert_eq!(
        select_decoder(true, &candidates, &vec![false, true, true], true),
        Ok(DecoderKind::Vaapi)
    );
    assert_eq!(
        select_decoder(true, &candidates, &vec![false, false, false], true),
        Ok(DecoderKind::Software)
    );
    assert_eq!(
        select_decoder(false, &candidates, &vec![true, true, true], true),
        Ok(DecoderKind::Software)
    );
    assert_eq!(
        select_decoder(false, &candidates, &vec![false, false, false], false),
        Err(StreamError::DecoderInitFailed)
    );
}

#[test]
fn rescale_rtp_clock_to_decoder_base() {
    // one RTP second (90000 ticks of 1/90000 s) in a millisecond base
    assert_eq!(rescale_timestamp(90000, 1, 90000, 1, 1000), 1000);
    // 3000 RTP ticks are exactly one tick of a 30 fps base
    assert_eq!(rescale_timestamp(3000, 1, 90000, 1, 30), 1);
    // rounding to nearest: 1 tick is 0.011 ms, 50 ticks are 0.55 ms
    assert_eq!(rescale_timestamp(1, 1, 90000, 1, 1000), 0);
    assert_eq!(rescale_timestamp(50, 1, 90000, 1, 1000), 1);
    // the identity base changes nothing
    assert_eq!(rescale_timestamp(12345, 1, 90000, 1, 90000), 12345);
}

#[test]
fn accel_format_negotiation_takes_first_match() {
    let offered = vec![10, 20, 30, 20];
    assert_eq!(pick_accel_format(&offered, 20), Some(1));
    assert_eq!(pick_accel_format(&offered, 30), Some(2));
    assert_eq!(pick_accel_format(&offered, 99), None);
    assert_eq!(pick_accel_format(&Vec::new(), 0), None);
}

#[test]
fn failed_transfer_degrades_to_system_memory() {
    assert!(resolve_frame_memory(FrameMemory::Accelerator, true));
    assert!(!resolve_frame_memory(FrameMemory::Accelerator, false));
    assert!(!resolve_frame_memory(FrameMemory::System, true));
    assert!(!resolve_frame_memory(FrameMemory::System, false));
}

#[test]
fn stream_frame_carries_cursor_and_pixels() {
    let pixels = vec![0u8; 4 * 2 * 3];
    let mut f = StreamFrame::new(pixels.clone(), 2, 3);
    assert_eq!(f.data, pixels);
    assert_eq!((f.width, f.height), (2, 3));
    assert!(f.mouse.is_none());
    let cursor = CursorPosition {
        x: AxisPosition { num: 1, den: 2 },
        y: AxisPosition { num: 1, den: 4 },
    };
    f.attach_cursor(Some(cursor));
    assert_eq!(f.mouse, Some(cursor));
    assert_eq!(f.data, pixels);
    f.attach_cursor(None);
    assert!(f.mouse.is_none());
}
