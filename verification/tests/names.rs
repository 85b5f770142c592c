use hawk::ids::VideoId;
use hawk::names::{extension_of, file_name_of, thumbnail_name_of};

#[test]
fn extension_is_what_follows_the_last_dot() {
    assert_eq!(extension_of("clip.mp4"), "mp4");
    assert_eq!(extension_of("archive.tar.gz"), "gz");
    assert_eq!(extension_of(".hidden"), "hidden");
}

#[test]
fn extension_of_a_name_without_dot_is_the_name() {
    assert_eq!(extension_of("clip"), "clip");
    assert_eq!(extension_of(""), "");
}

#[test]
fn extension_after_a_trailing_dot_is_empty() {
    assert_eq!(extension_of("clip."), "");
    assert_eq!(extension_of("."), "");
}

#[test]
fn extension_of_a_name_with_wide_characters() {
    assert_eq!(extension_of("vidéo.mkv"), "mkv");
    assert_eq!(extension_of("clip.vidéo"), "vidéo");
    assert_eq!(extension_of("日本語"), "日本語");
}

#[test]
fn file_name_joins_identifier_and_extension() {
    let id = VideoId { raw: 0xa1a2a3a4b1b2c1c2d1d2d3d4d5d6d7d8 };
    assert_eq!(file_name_of(id, "mp4"), "a1a2a3a4-b1b2-c1c2-d1d2-d3d4d5d6d7d8.mp4");
    assert_eq!(file_name_of(id, ""), "a1a2a3a4-b1b2-c1c2-d1d2-d3d4d5d6d7d8.");
}

#[test]
fn thumbnail_name_ends_in_webp() {
    let id = VideoId { raw: 1 };
    assert_eq!(thumbnail_name_of(id), "00000000-0000-0000-0000-000000000001.webp");
}
