use ffmpeg_bus::config::{config, DatabaseConfig, Kv, Migration, NvrConfig};
use ffmpeg_bus::media::{rational_text, ApiError};
use ffmpeg_bus::text::{contains_text, same_text, starts_with_text, u64_to_decimal};
use ffmpeg_bus::timestamp::Rational;

#[test]
fn nvr_config() {
    assert_eq!(NvrConfig::new("a.db").db_url(), "a.db");
    assert_eq!(config().db_url(), "nvr.db");
    assert_eq!(DatabaseConfig::new(":memory:").url(), ":memory:");
}

#[test]
fn records() {
    let m = Migration::new(3, "add users".to_string(), "CREATE TABLE u(id);".to_string());
    assert_eq!(m.version, 3);
    assert_eq!(m.description, "add users");
    let kv = Kv::default();
    assert_eq!(kv.id, 0);
    assert!(kv.sub_key.is_none());
    assert_eq!(ApiError::new("boom").message, "boom");
}

#[test]
fn text_helpers() {
    assert_eq!(u64_to_decimal(0), "0");
    assert_eq!(u64_to_decimal(2_000_000), "2000000");
    assert_eq!(u64_to_decimal(u64::MAX), "18446744073709551615");
    assert!(contains_text("h264_nvenc", "nvenc"));
    assert!(!contains_text("libx264", "nvenc"));
    assert!(contains_text("abc", ""));
    assert!(starts_with_text("video12", "video"));
    assert!(same_text("ß", "ß"));
    assert!(!same_text("a", "b"));
    assert_eq!(rational_text(Rational { num: 1, den: 90000 }), "1/90000");
    assert_eq!(rational_text(Rational { num: -3, den: 2 }), "-3/2");
    assert_eq!(rational_text(Rational { num: i32::MIN, den: 1 }), "-2147483648/1");
}
