use ffmpeg_bus::bridge::{to_millis, ServerBridge, TrackInit};
use ffmpeg_bus::timestamp::Rational;

const K90: Rational = Rational { num: 1, den: 90000 };

#[test]
fn millisecond_conversion() {
    assert_eq!(to_millis(90000, K90), Some(1000));
    assert_eq!(to_millis(3, Rational { num: 1, den: 10 }), Some(300));
    assert_eq!(to_millis(-5, K90), Some(0));
    assert_eq!(to_millis(89, K90), Some(0));
    assert_eq!(to_millis(1, Rational { num: 1, den: 0 }), None);
    assert_eq!(to_millis(5, Rational { num: 0, den: 1 }), Some(0));
    assert_eq!(to_millis(5, Rational { num: -1, den: 1 }), None);
}

#[test]
fn annexb_stream_passes_through() {
    let fps = Rational { num: 10, den: 1 };
    let mut b = ServerBridge::new(320, 240, fps, K90);
    let data = [0u8, 0, 0, 1, 0x65, 1, 2];
    let (init, frame) = b.on_frame(&data, 0, 0, 9000, 9000, true);
    assert_eq!(init, Some(TrackInit { width: 320, height: 240, fps }));
    let frame = frame.unwrap();
    assert_eq!(frame.data, data.to_vec());
    assert_eq!((frame.pts_ms, frame.dts_ms, frame.is_key), (100, 100, true));
    let avcc_looking = [0u8, 0, 0, 2, 0x41, 9];
    let (init, frame) = b.on_frame(&avcc_looking, 640, 480, 18000, 18000, false);
    assert_eq!(init, None);
    assert_eq!(frame.unwrap().data, avcc_looking.to_vec());
}

#[test]
fn avcc_stream_is_converted() {
    let mut b = ServerBridge::new(320, 240, Rational { num: 25, den: 1 }, K90);
    let (init, frame) = b.on_frame(&[0, 0, 0, 2, 0x65, 7], 1280, 720, 0, 0, true);
    assert_eq!(init.unwrap().width, 1280);
    assert_eq!(frame.unwrap().data, vec![0, 0, 0, 1, 0x65, 7]);
    let (_, frame) = b.on_frame(&[0, 0, 0, 1, 0x41], 0, 0, 3600, 3600, false);
    assert_eq!(frame.unwrap().data, vec![0, 0, 0, 1, 0x41]);
}

#[test]
fn zero_numerator_time_base_gives_zero_millis() {
    let mut b = ServerBridge::new(320, 240, Rational { num: 10, den: 1 }, Rational { num: 0, den: 1 });
    let (_, frame) = b.on_frame(&[0, 0, 0, 1, 0x65], 0, 0, 77, 70, true);
    let frame = frame.unwrap();
    assert_eq!((frame.pts_ms, frame.dts_ms), (0, 0));
}
