use ffmpeg_bus::mux::{
    encoder_mux_codec, is_rtsp_format, mux_buffer_size, needs_fragmented_mp4, net_output_options,
    MuxError, MuxState, Route, StampedPacket,
};
use ffmpeg_bus::stream::{decoder_packet_timing, CodecKind};
use ffmpeg_bus::timestamp::{normalize_timestamps, rescale_ts, Rational};

const MS: Rational = Rational { num: 1, den: 1000 };
const K90: Rational = Rational { num: 1, den: 90000 };

#[test]
fn rescale_exact_values() {
    assert_eq!(rescale_ts(1000, MS, K90), Some(90000));
    assert_eq!(rescale_ts(90000, K90, MS), Some(1000));
    assert_eq!(rescale_ts(3, Rational { num: 1, den: 10 }, MS), Some(300));
    assert_eq!(rescale_ts(-45, K90, MS), Some(-1));
    assert_eq!(rescale_ts(44, K90, MS), Some(0));
    assert_eq!(rescale_ts(45, K90, MS), Some(1));
}

#[test]
fn rescale_rejects_bad_time_bases_and_overflow() {
    assert_eq!(rescale_ts(1, MS, Rational { num: 0, den: 1 }), None);
    assert_eq!(rescale_ts(1, Rational { num: -1, den: 1 }, MS), None);
    assert_eq!(rescale_ts(i64::MAX, Rational { num: 1, den: 1 }, MS), None);
}

#[test]
fn normalize_fills_missing_timestamps() {
    assert_eq!(normalize_timestamps(None, None), (0, 0));
    assert_eq!(normalize_timestamps(None, Some(7)), (7, 7));
    assert_eq!(normalize_timestamps(Some(9), None), (9, 9));
    assert_eq!(normalize_timestamps(Some(9), Some(4)), (9, 4));
}

#[test]
fn header_once_then_trailer_once() {
    let mut m = MuxState::new();
    assert_eq!(m.add_stream(3), 0);
    assert!(!m.finish());
    assert_eq!(m.begin_write(3), Ok((0, true)));
    assert_eq!(m.begin_write(3), Ok((0, false)));
    assert!(m.finish());
    assert!(!m.finish());
}

#[test]
fn unknown_stream_is_rejected() {
    let mut m = MuxState::new();
    m.add_stream(1);
    assert_eq!(m.begin_write(2), Err(MuxError::StreamNotFound(2)));
    assert!(!m.finish());
}

#[test]
fn output_index_follows_latest_mapping() {
    let mut m = MuxState::new();
    assert_eq!(m.add_stream(0), 0);
    assert_eq!(m.add_stream(1), 1);
    assert_eq!(m.add_stream(0), 2);
    assert_eq!(m.output_index(0), Some(2));
    assert_eq!(m.output_index(1), Some(1));
    assert_eq!(m.output_index(5), None);
}

#[test]
fn dts_is_clamped_to_rise() {
    let mut m = MuxState::new();
    m.add_stream(0);
    let tb = Rational { num: 1, den: 1000 };
    assert_eq!(
        m.stamp(0, Some(10), Some(10), tb, tb),
        Ok(StampedPacket { out_index: 0, pts: 10, dts: 10 })
    );
    assert_eq!(
        m.stamp(0, Some(10), Some(10), tb, tb),
        Ok(StampedPacket { out_index: 0, pts: 11, dts: 11 })
    );
    assert_eq!(
        m.stamp(0, Some(30), Some(5), tb, tb),
        Ok(StampedPacket { out_index: 0, pts: 30, dts: 12 })
    );
    assert_eq!(
        m.stamp(0, None, None, tb, tb),
        Ok(StampedPacket { out_index: 0, pts: 13, dts: 13 })
    );
    assert_eq!(
        m.stamp(0, Some(50), Some(40), tb, tb),
        Ok(StampedPacket { out_index: 0, pts: 50, dts: 40 })
    );
}

#[test]
fn dts_clamp_is_per_stream_and_after_rescale() {
    let mut m = MuxState::new();
    m.add_stream(0);
    m.add_stream(1);
    let tb = Rational { num: 1, den: 10 };
    assert_eq!(m.stamp(0, Some(1), Some(1), tb, K90).unwrap().dts, 9000);
    assert_eq!(m.stamp(1, Some(1), Some(1), tb, K90).unwrap().dts, 9000);
    assert_eq!(m.stamp(0, Some(1), Some(1), tb, K90).unwrap().dts, 9001);
}

#[test]
fn dts_clamp_reports_exhaustion() {
    let mut m = MuxState::new();
    m.add_stream(0);
    let tb = Rational { num: 1, den: 1 };
    assert!(m.stamp(0, Some(i64::MAX), Some(i64::MAX), tb, tb).is_ok());
    assert_eq!(m.stamp(0, Some(0), Some(0), tb, tb), Err(MuxError::TimestampOutOfRange));
}

#[test]
fn output_targets() {
    assert_eq!(mux_buffer_size("h264"), 262144);
    assert_eq!(mux_buffer_size("adts"), 1024);
    assert!(needs_fragmented_mp4("mp4"));
    assert!(!needs_fragmented_mp4("flv"));
    assert!(is_rtsp_format(Some("rtsp")));
    assert!(!is_rtsp_format(Some("flv")));
    assert!(!is_rtsp_format(None));
    assert_eq!(
        net_output_options(Some("rtsp")),
        Some(vec![("rtsp_transport".to_string(), "tcp".to_string())])
    );
    assert_eq!(net_output_options(Some("flv")), None);
    assert_eq!(net_output_options(None), None);
    assert_eq!(encoder_mux_codec("h264"), Some(CodecKind::H264));
    assert_eq!(encoder_mux_codec("h265"), Some(CodecKind::Hevc));
    assert_eq!(encoder_mux_codec("hevc"), Some(CodecKind::Hevc));
    assert_eq!(encoder_mux_codec("adts"), None);
}

#[test]
fn decoder_drops_other_streams_and_rescales() {
    let tb10 = Rational { num: 1, den: 10 };
    assert_eq!(decoder_packet_timing(0, 1, Some(1), Some(1), tb10, K90), None);
    assert_eq!(decoder_packet_timing(1, 1, Some(2), None, tb10, K90), Some((Some(18000), None)));
}

#[test]
fn single_stream_writer_skips_other_streams() {
    let mut m = MuxState::new();
    assert_eq!(m.route_packet(0), Err(MuxError::NoStreamAdded));
    m.add_stream(1);
    assert_eq!(m.route_packet(0), Ok(Route::Skip));
    assert!(!m.finish());
    assert_eq!(m.route_packet(1), Ok(Route::Write { out_index: 0, write_header: true }));
    assert_eq!(m.route_packet(2), Ok(Route::Skip));
    assert_eq!(m.route_packet(1), Ok(Route::Write { out_index: 0, write_header: false }));
    assert!(m.finish());
}

#[test]
fn stamped_pts_not_below_dts() {
    let mut m = MuxState::new();
    m.add_stream(0);
    let from = Rational { num: 1, den: 3 };
    let to = Rational { num: 1, den: 2 };
    let a = m.stamp(0, Some(5), Some(4), from, to).unwrap();
    assert!(a.pts >= a.dts);
    assert_eq!((a.pts, a.dts), (3, 3));
    let b = m.stamp(0, Some(5), Some(4), from, to).unwrap();
    assert_eq!((b.pts, b.dts), (4, 4));
}
