use ffmpeg_bus::device::{
    input_spec, input_video_specs, inputs_for_format, is_video_device_name, x11grab_displays,
};

#[test]
fn inputs_per_format() {
    let paths = vec!["/dev/video0".to_string(), "/dev/video2".to_string()];
    assert_eq!(inputs_for_format("v4l2", &paths), paths);
    assert_eq!(
        inputs_for_format("lavfi", &paths),
        vec!["color=c=blue:s=1280x720".to_string(), "testsrc=duration=5".to_string()]
    );
    assert!(inputs_for_format("x11grab", &paths).is_empty());
}

#[test]
fn specs_follow_devices() {
    let devices = vec![
        ("lavfi".to_string(), "Libavfilter virtual input device".to_string()),
        ("v4l2".to_string(), "Video4Linux2 device grab".to_string()),
    ];
    let specs = input_video_specs(&devices, &vec!["/dev/video0".to_string()]);
    assert_eq!(specs.len(), 2);
    assert_eq!(specs[0].format(), "lavfi");
    assert_eq!(specs[0].description(), "Libavfilter virtual input device");
    assert_eq!(specs[0].inputs().len(), 2);
    assert_eq!(specs[1].inputs(), &["/dev/video0".to_string()]);
    let one = input_spec("fbdev", "Linux framebuffer", &vec![]);
    assert!(one.inputs().is_empty());
}

#[test]
fn video_device_names() {
    assert!(is_video_device_name("video0"));
    assert!(is_video_device_name("video"));
    assert!(!is_video_device_name("vide"));
    assert!(!is_video_device_name("media0"));
}

#[test]
fn x11grab_display_list() {
    assert_eq!(x11grab_displays(Some(":1")), vec![":1".to_string(), ":1.0".to_string()]);
    assert_eq!(x11grab_displays(Some(":1.2")), vec![":1.2".to_string()]);
    assert_eq!(x11grab_displays(Some("")), vec![":0".to_string()]);
    assert_eq!(x11grab_displays(None), vec![":0".to_string()]);
}
