use ffmpeg_bus::frame::{extract_frame_data, Plane};

#[test]
fn packs_planes_without_padding() {
    let y = [1u8, 2, 9, 3, 4, 9];
    let u = [5u8, 9];
    let v = [6u8, 9, 9];
    let r = extract_frame_data(
        2,
        2,
        &Plane { data: Some(&y), linesize: 3 },
        &Plane { data: Some(&u), linesize: 2 },
        &Plane { data: Some(&v), linesize: 3 },
    );
    assert_eq!(r, Some(vec![1, 2, 3, 4, 5, 6]));
}

#[test]
fn missing_chroma_planes_are_skipped() {
    let y = [1u8, 2, 3, 4];
    let u = [5u8];
    let r = extract_frame_data(
        2,
        2,
        &Plane { data: Some(&y), linesize: 2 },
        &Plane { data: Some(&u), linesize: 0 },
        &Plane { data: None, linesize: 1 },
    );
    assert_eq!(r, Some(vec![1, 2, 3, 4]));
}

#[test]
fn empty_or_short_frames_are_rejected() {
    let y = [1u8, 2, 3];
    let none = Plane { data: None, linesize: 0 };
    assert_eq!(extract_frame_data(0, 2, &Plane { data: Some(&y), linesize: 1 }, &none, &none), None);
    assert_eq!(extract_frame_data(2, 2, &Plane { data: Some(&y), linesize: 2 }, &none, &none), None);
}
