use std::collections::HashSet;

use ffmpeg_bus::bus::{self, EncodeConfig, OutputAvType};
use ffmpeg_bus::pipe::{
    analyze_outputs, apply_encode_config, dest_name, to_bus_input, to_fb_encode_config, to_fb_output, InputConfig, OutputConfig,
    OutputDest, PipeConfig,
};

#[test]
fn test_builder_input_url() {
    let config = PipeConfig::builder()
        .input_url("rtsp://localhost:8554/stream")
        .add_remux_output("rtmp://localhost/live/test", "flv")
        .build();

    match &config.input {
        InputConfig::Network { url } => {
            assert_eq!(url, "rtsp://localhost:8554/stream");
        }
        _ => panic!("Expected Network input"),
    }

    let config = PipeConfig::builder()
        .input_file("test_video.mp4")
        .add_remux_output("rtmp://localhost/live/test", "flv")
        .build();

    match &config.input {
        InputConfig::File { path } => {
            assert_eq!(path, "test_video.mp4");
        }
        _ => panic!("Expected File input"),
    }
}

#[test]
fn test_builder_add_remux_output() {
    let config = PipeConfig::builder()
        .input_url("rtsp://localhost/stream")
        .add_remux_output("rtmp://localhost/live/test", "flv")
        .build();

    assert_eq!(config.outputs.len(), 1);
    match &config.outputs[0].dest {
        OutputDest::Network { url, format } => {
            assert_eq!(url, "rtmp://localhost/live/test");
            assert_eq!(format, "flv");
        }
        _ => panic!("Expected Network output"),
    }
    assert!(config.outputs[0].encode.is_none());
}

#[test]
fn test_builder_add_rtsp_output_with_encode() {
    let encode_config = EncodeConfig {
        codec: "h264".to_string(),
        width: Some(1280),
        height: Some(720),
        bitrate: Some(2_000_000),
        preset: Some("fast".to_string()),
        pixel_format: Some("yuv420p".to_string()),
    };

    let config = PipeConfig::builder()
        .input_url("rtsp://localhost/stream")
        .add_rtsp_output("rtsp://localhost:8554/out", encode_config)
        .build();

    assert_eq!(config.outputs.len(), 1);
    match &config.outputs[0].dest {
        OutputDest::Network { url, format } => {
            assert_eq!(url, "rtsp://localhost:8554/out");
            assert_eq!(format, "rtsp");
        }
        _ => panic!("Expected Network output"),
    }

    let encode = config.outputs[0].encode.as_ref().unwrap();
    assert_eq!(encode.codec, "h264");
    assert_eq!(encode.width, Some(1280));
    assert_eq!(encode.height, Some(720));
    assert_eq!(encode.bitrate, Some(2_000_000));
    assert_eq!(encode.preset, Some("fast".to_string()));
}

#[test]
fn test_builder_add_raw_frame_output() {
    let config = PipeConfig::builder()
        .input_url("rtsp://localhost/stream")
        .add_raw_frame_output()
        .build();

    assert_eq!(config.outputs.len(), 1);
    match &config.outputs[0].dest {
        OutputDest::RawFrame => {}
        _ => panic!("Expected RawFrame output"),
    }
}

#[test]
fn test_builder_add_raw_packet_output() {
    let encode_config = EncodeConfig::default();

    let config = PipeConfig::builder()
        .input_url("rtsp://localhost/stream")
        .add_raw_packet_output(encode_config)
        .build();

    assert_eq!(config.outputs.len(), 1);
    match &config.outputs[0].dest {
        OutputDest::RawPacket => {}
        _ => panic!("Expected RawPacket output"),
    }
    assert!(config.outputs[0].encode.is_some());
}

#[test]
fn test_builder_multiple_outputs() {
    let config = PipeConfig::builder()
        .input_url("rtsp://localhost/stream")
        .add_remux_output("rtmp://localhost/live/1", "flv")
        .add_remux_output("rtmp://localhost/live/2", "flv")
        .add_raw_frame_output()
        .add_raw_packet_output(EncodeConfig::default())
        .build();

    assert_eq!(config.outputs.len(), 4);
}

#[test]
#[should_panic(expected = "input is required")]
fn test_builder_missing_input_panics() {
    let _config = PipeConfig::builder()
        .add_remux_output("rtmp://localhost/live/test", "flv")
        .build();
}

#[test]
fn test_encode_config_default() {
    let config = EncodeConfig::default();

    assert_eq!(config.codec, "h264");
    assert!(config.width.is_none());
    assert!(config.height.is_none());
    assert!(config.bitrate.is_none());
    assert!(config.preset.is_none());
    assert!(config.pixel_format.is_none());
}

#[test]
fn test_encode_config_equality() {
    let config1 = EncodeConfig {
        codec: "h264".to_string(),
        width: Some(1920),
        height: Some(1080),
        bitrate: Some(4_000_000),
        preset: Some("medium".to_string()),
        pixel_format: Some("yuv420p".to_string()),
    };

    let config2 = EncodeConfig {
        codec: "h264".to_string(),
        width: Some(1920),
        height: Some(1080),
        bitrate: Some(4_000_000),
        preset: Some("medium".to_string()),
        pixel_format: Some("yuv420p".to_string()),
    };

    let config3 = EncodeConfig {
        codec: "hevc".to_string(),
        ..config1.clone()
    };

    assert_eq!(config1, config2);
    assert_ne!(config1, config3);
}

#[test]
fn test_encode_config_hash() {
    let config1 = EncodeConfig {
        codec: "h264".to_string(),
        width: Some(1920),
        height: Some(1080),
        bitrate: None,
        preset: None,
        pixel_format: None,
    };

    let config2 = EncodeConfig {
        codec: "h264".to_string(),
        width: Some(1920),
        height: Some(1080),
        bitrate: None,
        preset: None,
        pixel_format: None,
    };

    let config3 = EncodeConfig {
        codec: "hevc".to_string(),
        width: Some(1920),
        height: Some(1080),
        bitrate: None,
        preset: None,
        pixel_format: None,
    };

    let mut set = HashSet::new();
    set.insert(config1.clone());

    assert!(set.contains(&config2));
    assert!(!set.contains(&config3));
}

#[test]
fn test_dest_name_network() {
    let dest = OutputDest::Network {
        url: "rtmp://localhost/live/test".to_string(),
        format: "flv".to_string(),
    };
    assert_eq!(dest_name(&dest), "rtmp://localhost/live/test");
}

#[test]
fn test_dest_name_raw_frame() {
    let dest = OutputDest::RawFrame;
    assert_eq!(dest_name(&dest), "RawFrame");
}

#[test]
fn test_dest_name_raw_packet() {
    let dest = OutputDest::RawPacket;
    assert_eq!(dest_name(&dest), "RawPacket");
}

#[test]
fn dest_name_zlm() {
    assert_eq!(dest_name(&OutputDest::Zlm), "Zlm");
}

#[test]
fn encode_config_differs_in_one_optional_field() {
    let a = EncodeConfig::default();
    let b = EncodeConfig { preset: Some("fast".to_string()), ..EncodeConfig::default() };
    let c = EncodeConfig { width: Some(640), ..EncodeConfig::default() };
    assert_ne!(a, b);
    assert_ne!(a, c);
    assert_eq!(a, EncodeConfig::default());
}

#[test]
fn output_config_new_gets_fresh_ids() {
    let a = OutputConfig::new(OutputDest::RawFrame, None);
    let b = OutputConfig::new(OutputDest::RawFrame, None);
    let ia = a.id.unwrap();
    let ib = b.id.unwrap();
    assert_eq!(ia.len(), 36);
    assert_ne!(ia, ib);
    let c = OutputConfig::new_with_id("cam-1", OutputDest::Zlm, None);
    assert_eq!(c.id.as_deref(), Some("cam-1"));
}

#[test]
fn to_fb_output_maps_destinations() {
    let net = OutputConfig::new_with_id(
        "n1",
        OutputDest::Network { url: "rtmp://h/live".to_string(), format: "flv".to_string() },
        Some(EncodeConfig { bitrate: Some(1000), ..EncodeConfig::default() }),
    );
    let fb = to_fb_output(&net);
    assert_eq!(fb.id, "n1");
    assert_eq!(fb.av_type, OutputAvType::Video);
    match &fb.dest {
        bus::OutputDest::Net { url, format } => {
            assert_eq!(url, "rtmp://h/live");
            assert_eq!(format.as_deref(), Some("flv"));
        }
        _ => panic!("expected a network destination"),
    }
    assert_eq!(fb.encode.as_ref().unwrap().bitrate, Some(1000));

    let zlm = OutputConfig { id: None, dest: OutputDest::Zlm, encode: None };
    let fb = to_fb_output(&zlm);
    assert_eq!(fb.id.len(), 36);
    match &fb.dest {
        bus::OutputDest::Mux { format } => assert_eq!(format, "h264"),
        _ => panic!("expected a mux destination"),
    }
    assert!(fb.encode.is_none());

    let raw = to_fb_output(&OutputConfig::new_with_id("r", OutputDest::RawFrame, None));
    assert!(matches!(raw.dest, bus::OutputDest::Raw));
    let pk = to_fb_output(&OutputConfig::new_with_id("p", OutputDest::RawPacket, None));
    assert!(matches!(pk.dest, bus::OutputDest::Encoded));
}

#[test]
fn to_fb_encode_config_copies_fields() {
    let e = EncodeConfig {
        codec: "hevc".to_string(),
        width: Some(1),
        height: Some(2),
        bitrate: Some(3),
        preset: Some("slow".to_string()),
        pixel_format: Some("nv12".to_string()),
    };
    assert_eq!(to_fb_encode_config(&e), e);
}

#[test]
fn to_bus_input_maps_variants() {
    match to_bus_input(InputConfig::Network { url: "rtsp://x".to_string() }) {
        bus::InputConfig::Net { url } => assert_eq!(url, "rtsp://x"),
        _ => panic!("expected Net"),
    }
    match to_bus_input(InputConfig::Device {
        display: "testsrc".to_string(),
        format: "lavfi".to_string(),
    }) {
        bus::InputConfig::Device { display, format } => {
            assert_eq!(display, "testsrc");
            assert_eq!(format, "lavfi");
        }
        _ => panic!("expected Device"),
    }
}

#[test]
fn analyze_outputs_groups_encodings() {
    let hevc = EncodeConfig { codec: "hevc".to_string(), ..EncodeConfig::default() };
    let outputs = vec![
        OutputConfig::new_with_id("a", OutputDest::RawPacket, Some(EncodeConfig::default())),
        OutputConfig::new_with_id(
            "b",
            OutputDest::Network { url: "rtmp://x".to_string(), format: "flv".to_string() },
            None,
        ),
        OutputConfig::new_with_id("c", OutputDest::RawPacket, Some(hevc.clone())),
        OutputConfig::new_with_id("d", OutputDest::Zlm, Some(EncodeConfig::default())),
    ];
    let r = analyze_outputs(&outputs);
    assert!(r.need_decode);
    assert!(r.need_raw_packet);
    assert_eq!(r.encode_keys, vec![EncodeConfig::default(), hevc]);
    assert_eq!(r.encode_members, vec![vec![0, 3], vec![2]]);

    let remux_only = vec![OutputConfig::new_with_id("x", OutputDest::Zlm, None)];
    let r = analyze_outputs(&remux_only);
    assert!(!r.need_decode);
    assert!(r.need_raw_packet);
    assert!(r.encode_keys.is_empty());

    let frames = vec![OutputConfig::new_with_id("f", OutputDest::RawFrame, None)];
    assert!(analyze_outputs(&frames).need_decode);
    assert!(!analyze_outputs(&vec![]).need_raw_packet);
}

#[test]
fn encode_config_to_output_options() {
    let e = EncodeConfig {
        codec: "libx264".to_string(),
        bitrate: Some(2_000_000),
        preset: Some("fast".to_string()),
        ..EncodeConfig::default()
    };
    let (codec, opts) = apply_encode_config(&e);
    assert_eq!(codec, "libx264");
    assert_eq!(
        opts,
        vec![
            ("b".to_string(), "2000000".to_string()),
            ("preset".to_string(), "fast".to_string()),
        ]
    );
    assert!(apply_encode_config(&EncodeConfig::default()).1.is_empty());
}
