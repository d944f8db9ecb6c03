use ffmpeg_bus::bus::{encoder_options_from_config, EncodeConfig};
use ffmpeg_bus::encoder::{
    admit_frame, encoder_fallback, ensure_video_dimensions, hw_decoder_candidates, hw_encoder_candidates, packet_duration_us,
    pixel_format_for_encoder, pixel_format_for_libx264, Admission, DropCounter, FrameClock,
    Settings,
};
use ffmpeg_bus::stream::{
    check_decoder_params, raw_frame_copy_len, CodecKind, Medium, ParamsError, PixelFormat,
};
use ffmpeg_bus::timestamp::Rational;

const TB10: Rational = Rational { num: 1, den: 10 };
const K90: Rational = Rational { num: 1, den: 90000 };

#[test]
fn frames_without_pts_get_increasing_pts() {
    let mut c = FrameClock::new(None);
    let mut last = -1;
    for _ in 0..12 {
        let s = c.next_frame(None, TB10, K90).unwrap();
        assert!(s.synthesized);
        assert!(s.pts > last);
        last = s.pts;
    }
    assert_eq!(last, 11);
}

#[test]
fn frames_with_pts_are_rescaled() {
    let mut c = FrameClock::new(None);
    let s = c.next_frame(Some(3), TB10, K90).unwrap();
    assert_eq!(s.pts, 27000);
    assert!(!s.synthesized);
    let s = c.next_frame(None, TB10, K90).unwrap();
    assert_eq!(s.pts, 1);
    assert!(s.synthesized);
}

#[test]
fn key_hint_every_fifth_frame_by_default() {
    let mut c = FrameClock::new(None);
    let hints: Vec<bool> = (0..11).map(|_| c.next_frame(None, TB10, K90).unwrap().key_hint).collect();
    assert_eq!(
        hints,
        vec![true, false, false, false, false, true, false, false, false, false, true]
    );
    let mut c = FrameClock::new(Some(2));
    let hints: Vec<bool> = (0..4).map(|_| c.next_frame(None, TB10, K90).unwrap().key_hint).collect();
    assert_eq!(hints, vec![true, false, true, false]);
    let mut c = FrameClock::new(Some(0));
    let hints: Vec<bool> = (0..6).map(|_| c.next_frame(None, TB10, K90).unwrap().key_hint).collect();
    assert_eq!(hints, vec![true, false, false, false, false, true]);
}

#[test]
fn queue_drops_data_but_never_eof() {
    assert_eq!(admit_frame(0, 128, false), Admission::Enqueue);
    assert_eq!(admit_frame(127, 128, true), Admission::Enqueue);
    assert_eq!(admit_frame(128, 128, false), Admission::Drop);
    assert_eq!(admit_frame(128, 128, true), Admission::Wait);
}

#[test]
fn drop_counter_reports_first_and_every_interval() {
    let mut d = DropCounter::new();
    let reported: Vec<u64> = (1..=241u64).filter(|_| d.record_drop()).collect();
    assert_eq!(reported, vec![1, 121, 241]);
}

#[test]
fn packet_duration_from_rate() {
    assert_eq!(packet_duration_us(Rational { num: 10, den: 1 }), Some(100_000));
    assert_eq!(packet_duration_us(Rational { num: 30000, den: 1001 }), Some(33_366));
    assert_eq!(packet_duration_us(Rational { num: 0, den: 1 }), None);
}

#[test]
fn pixel_formats_for_encoders() {
    assert_eq!(pixel_format_for_libx264(PixelFormat::Rgb24), PixelFormat::Yuv420p);
    assert_eq!(pixel_format_for_libx264(PixelFormat::Bgr24), PixelFormat::Yuv420p);
    assert_eq!(pixel_format_for_libx264(PixelFormat::Nv12), PixelFormat::Nv12);
    assert_eq!(pixel_format_for_encoder(PixelFormat::Rgb24, "h264_nvenc"), PixelFormat::Nv12);
    assert_eq!(pixel_format_for_encoder(PixelFormat::Bgr24, "hevc_vaapi"), PixelFormat::Nv12);
    assert_eq!(pixel_format_for_encoder(PixelFormat::Rgb24, "libx264"), PixelFormat::Yuv420p);
    assert_eq!(pixel_format_for_encoder(PixelFormat::Yuv420p, "h264_qsv"), PixelFormat::Yuv420p);
}

#[test]
fn hardware_encoder_candidates() {
    assert_eq!(
        hw_encoder_candidates("libx264"),
        vec!["h264_nvenc", "h264_vaapi", "h264_qsv", "h264_v4l2m2m"]
    );
    assert_eq!(hw_encoder_candidates("h265")[0], "hevc_nvenc");
    assert_eq!(hw_encoder_candidates("vp9"), vec!["vp9_vaapi", "vp9_qsv"]);
    assert_eq!(hw_encoder_candidates("av1").len(), 3);
    assert!(hw_encoder_candidates("mjpeg").is_empty());
}

#[test]
fn dimensions_fall_back_when_zero() {
    assert_eq!(ensure_video_dimensions(0, 0), (320, 240));
    assert_eq!(ensure_video_dimensions(640, 0), (640, 240));
    assert_eq!(ensure_video_dimensions(640, 480), (640, 480));
}

#[test]
fn default_settings() {
    let s = Settings::default();
    assert_eq!((s.width, s.height, s.keyframe_interval), (1920, 1080, 25));
    assert_eq!(s.codec.as_deref(), Some("libx264"));
    assert_eq!(s.pixel_format, PixelFormat::Yuv420p);
}

#[test]
fn encoder_options() {
    assert_eq!(encoder_options_from_config(None), None);
    let e = EncodeConfig::default();
    assert_eq!(
        encoder_options_from_config(Some(&e)),
        Some(vec![
            ("preset".to_string(), "ultrafast".to_string()),
            ("tune".to_string(), "zerolatency".to_string()),
        ])
    );
    let e = EncodeConfig {
        preset: Some("fast".to_string()),
        bitrate: Some(2_000_000),
        ..EncodeConfig::default()
    };
    assert_eq!(
        encoder_options_from_config(Some(&e)),
        Some(vec![
            ("preset".to_string(), "fast".to_string()),
            ("tune".to_string(), "zerolatency".to_string()),
            ("b".to_string(), "2000000".to_string()),
        ])
    );
}

#[test]
fn hardware_decoder_candidates() {
    assert_eq!(hw_decoder_candidates(CodecKind::H264), vec!["h264_cuvid", "h264_qsv", "h264_v4l2m2m"]);
    assert_eq!(hw_decoder_candidates(CodecKind::Av1), vec!["av1_cuvid", "av1_qsv"]);
    assert!(hw_decoder_candidates(CodecKind::RawVideo).is_empty());
}

#[test]
fn software_fallback_after_hardware_failure() {
    assert_eq!(encoder_fallback(Some("libx264"), "h264_nvenc").as_deref(), Some("libx264"));
    assert_eq!(encoder_fallback(Some("libx264"), "libx264"), None);
    assert_eq!(encoder_fallback(None, ""), None);
    assert_eq!(Settings::default().key_hint_interval, 5);
}

#[test]
fn decoder_and_raw_frame_parameters() {
    assert_eq!(check_decoder_params(Medium::Video, 640, 480, PixelFormat::Yuv420p), Ok(()));
    assert_eq!(
        check_decoder_params(Medium::Video, 0, 480, PixelFormat::Yuv420p),
        Err(ParamsError::MissingVideoParameters)
    );
    assert_eq!(
        check_decoder_params(Medium::Video, 640, 480, PixelFormat::Undefined),
        Err(ParamsError::MissingVideoParameters)
    );
    assert_eq!(check_decoder_params(Medium::Audio, 0, 0, PixelFormat::Undefined), Ok(()));
    assert_eq!(
        check_decoder_params(Medium::Other, 1, 1, PixelFormat::Nv12),
        Err(ParamsError::UnsupportedMedium)
    );
    assert_eq!(raw_frame_copy_len(2, 2, PixelFormat::Rgb24, 20, 12), Ok(12));
    assert_eq!(raw_frame_copy_len(2, 2, PixelFormat::Rgb24, 5, 12), Ok(5));
    assert_eq!(
        raw_frame_copy_len(0, 2, PixelFormat::Rgb24, 5, 12),
        Err(ParamsError::MissingVideoParameters)
    );
}
