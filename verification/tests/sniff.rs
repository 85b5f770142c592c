use hawk::error::Error;
use hawk::sniff::{sniff, sniff_limit, verdict, Detected, MediaKind, SNIFF_WINDOW};

fn mp4_header() -> Vec<u8> {
    let mut bytes = vec![0x00, 0x00, 0x00, 0x18];
    bytes.extend_from_slice(b"ftypisom");
    bytes.extend_from_slice(&[0x00, 0x00, 0x02, 0x00]);
    bytes.extend_from_slice(b"isomiso2mp41");
    bytes
}

#[test]
fn sniff_window_is_eight_kibibytes() {
    assert_eq!(SNIFF_WINDOW, 8 * 1024);
}

#[test]
fn sniff_limit_is_window_plus_one_at_most() {
    assert_eq!(sniff_limit(Some(0)), 1);
    assert_eq!(sniff_limit(Some(10)), 11);
    assert_eq!(sniff_limit(Some(8191)), 8192);
    assert_eq!(sniff_limit(Some(8192)), 8193);
    assert_eq!(sniff_limit(Some(8193)), 8193);
    assert_eq!(sniff_limit(Some(u64::MAX)), 8193);
}

#[test]
fn sniff_limit_of_unknown_length_is_zero() {
    assert_eq!(sniff_limit(None), 0);
}

#[test]
fn sniff_recognizes_mp4() {
    assert_eq!(sniff(&mp4_header()), Ok(String::from("mp4")));
}

#[test]
fn sniff_recognizes_matroska() {
    let mut bytes = vec![0x1a, 0x45, 0xdf, 0xa3];
    bytes.extend_from_slice(&[0x42, 0x82, 0x88]);
    bytes.extend_from_slice(b"matroska");
    bytes.resize(300, 0);
    assert_eq!(sniff(&bytes), Ok(String::from("mkv")));
}

#[test]
fn sniff_goes_by_content_not_by_any_name() {
    let mut bytes = vec![0x52, 0x49, 0x46, 0x46, 0, 0, 0, 0];
    bytes.extend_from_slice(b"AVI LIST");
    assert_eq!(sniff(&bytes), Ok(String::from("avi")));
}

#[test]
fn sniff_rejects_plain_text() {
    assert_eq!(sniff(b"plain text"), Err(Error::SniffFailure));
}

#[test]
fn sniff_rejects_empty_input() {
    assert_eq!(sniff(&[]), Err(Error::SniffFailure));
}

#[test]
fn sniff_rejects_an_image() {
    let png = [0x89, b'P', b'N', b'G', 0x0d, 0x0a, 0x1a, 0x0a, 0, 0, 0, 0x0d];
    assert_eq!(sniff(&png), Err(Error::SniffFailure));
}

#[test]
fn sniff_rejects_audio() {
    assert_eq!(sniff(b"ID3\x03\x00\x00\x00\x00\x00\x00"), Err(Error::SniffFailure));
}

#[test]
fn verdict_passes_only_video() {
    let video = Detected { kind: MediaKind::Video, extension: String::from("webm") };
    assert_eq!(verdict(Some(video)), Ok(String::from("webm")));
    for kind in [
        MediaKind::App,
        MediaKind::Archive,
        MediaKind::Audio,
        MediaKind::Book,
        MediaKind::Doc,
        MediaKind::Font,
        MediaKind::Image,
        MediaKind::Text,
        MediaKind::Custom,
    ] {
        let found = Detected { kind, extension: String::from("x") };
        assert_eq!(verdict(Some(found)), Err(Error::SniffFailure));
    }
    assert_eq!(verdict(None), Err(Error::SniffFailure));
}
