use ffmpeg_bus::bsf::{convert_avcc_to_annexb, is_annexb_packet, needs_annexb_conversion};

#[test]
fn avcc_conversion_single_nal() {
    let input = [0u8, 0, 0, 4, 0x65, 0x88, 0x81, 0x00];
    assert_eq!(convert_avcc_to_annexb(&input), vec![0, 0, 0, 1, 0x65, 0x88, 0x81, 0x00]);
}

#[test]
fn avcc_conversion_two_nals() {
    let input = [0u8, 0, 0, 2, 0x67, 0x42, 0, 0, 0, 1, 0x68];
    assert_eq!(convert_avcc_to_annexb(&input), vec![0, 0, 0, 1, 0x67, 0x42, 0, 0, 0, 1, 0x68]);
}

#[test]
fn avcc_conversion_stops_on_zero_length() {
    let input = [0u8, 0, 0, 1, 0x09, 0, 0, 0, 0, 0x65];
    assert_eq!(convert_avcc_to_annexb(&input), vec![0, 0, 0, 1, 0x09]);
}

#[test]
fn avcc_conversion_stops_on_overrun() {
    let input = [0u8, 0, 0, 1, 0x09, 0, 0, 0, 9, 0x65, 0x66];
    assert_eq!(convert_avcc_to_annexb(&input), vec![0, 0, 0, 1, 0x09]);
    assert_eq!(convert_avcc_to_annexb(&[0, 0, 1]), Vec::<u8>::new());
    assert_eq!(convert_avcc_to_annexb(&[]), Vec::<u8>::new());
}

#[test]
fn avcc_conversion_reads_big_endian_length() {
    let mut input = vec![0u8, 0, 1, 0];
    input.extend(std::iter::repeat(7u8).take(256));
    let out = convert_avcc_to_annexb(&input);
    assert_eq!(out.len(), 260);
    assert_eq!(&out[..4], &[0, 0, 0, 1]);
    assert!(out[4..].iter().all(|b| *b == 7));
}

#[test]
fn converted_output_is_annexb() {
    let out = convert_avcc_to_annexb(&[0, 0, 0, 1, 0x65]);
    assert!(is_annexb_packet(&out));
}

#[test]
fn annexb_detection() {
    assert!(is_annexb_packet(&[0, 0, 0, 1, 0x65]));
    assert!(is_annexb_packet(&[0, 0, 1, 0x65]));
    assert!(!is_annexb_packet(&[0, 0, 0, 4, 0x65]));
    assert!(!is_annexb_packet(&[0, 0, 1]));
    assert!(!is_annexb_packet(&[]));
}

#[test]
fn extradata_decides_conversion() {
    assert!(!needs_annexb_conversion(&[]));
    assert!(!needs_annexb_conversion(&[1, 2, 3]));
    assert!(!needs_annexb_conversion(&[0, 0, 0, 1, 0x67, 0, 0]));
    assert!(!needs_annexb_conversion(&[0, 0, 1, 0x67, 0, 0, 0]));
    assert!(needs_annexb_conversion(&[1, 0x64, 0, 0x1f, 0xff, 0xe1, 0]));
    assert!(!needs_annexb_conversion(&[1, 0x64, 0, 0x1f, 0xff, 0xe1]));
    assert!(!needs_annexb_conversion(&[2, 0x64, 0, 0x1f, 0xff, 0xe1, 0]));
}

#[test]
fn avcc_conversion_keeps_length_of_full_records() {
    let input = [0u8, 0, 0, 2, 0x67, 0x42, 0, 0, 0, 3, 0x68, 1, 2];
    assert_eq!(convert_avcc_to_annexb(&input).len(), input.len());
    let with_tail = [0u8, 0, 0, 1, 0x09, 0, 0];
    assert_eq!(convert_avcc_to_annexb(&with_tail).len(), with_tail.len() - 2);
}
