use hawk::error::Error;
use hawk::thumbnail::{encoded_or_failure, render, THUMBNAIL_HEIGHT, THUMBNAIL_WIDTH};
use std::io::Cursor;

fn webp_frame(width: u32, height: u32) -> Vec<u8> {
    let picture = image::DynamicImage::ImageRgb8(image::RgbImage::from_pixel(
        width,
        height,
        image::Rgb([200, 40, 90]),
    ));
    let mut out = Cursor::new(Vec::new());
    picture.write_to(&mut out, image::ImageFormat::WebP).unwrap();
    out.into_inner()
}

fn dimensions(bytes: &[u8]) -> (u32, u32) {
    let picture = image::load_from_memory_with_format(bytes, image::ImageFormat::WebP).unwrap();
    (picture.width(), picture.height())
}

#[test]
fn thumbnail_box_is_a_fifth_of_full_hd() {
    assert_eq!(THUMBNAIL_WIDTH, 1920 / 5);
    assert_eq!(THUMBNAIL_HEIGHT, 1080 / 5);
    assert_eq!((THUMBNAIL_WIDTH, THUMBNAIL_HEIGHT), (384, 216));
}

#[test]
fn render_scales_full_hd_to_the_box() {
    let frame = webp_frame(1920, 1080);
    let thumbnail = render(&frame).unwrap();
    assert_ne!(thumbnail, frame);
    assert_eq!(dimensions(&thumbnail), (384, 216));
}

#[test]
fn render_keeps_the_aspect_ratio() {
    let thumbnail = render(&webp_frame(400, 1000)).unwrap();
    assert_eq!(dimensions(&thumbnail), (86, 216));
    let thumbnail = render(&webp_frame(1000, 100)).unwrap();
    assert_eq!(dimensions(&thumbnail), (384, 38));
}

#[test]
fn render_fails_on_bytes_that_are_no_image() {
    assert_eq!(render(b"not an image"), Err(Error::DecodeFailure));
    assert_eq!(render(&[]), Err(Error::DecodeFailure));
}

#[test]
fn render_fails_on_another_format() {
    let picture = image::DynamicImage::ImageRgb8(image::RgbImage::new(4, 4));
    let mut out = Cursor::new(Vec::new());
    picture.write_to(&mut out, image::ImageFormat::WebP).unwrap();
    let mut bytes = out.into_inner();
    bytes[0] = b'X';
    assert_eq!(render(&bytes), Err(Error::DecodeFailure));
}

#[test]
fn encoder_complaint_is_a_decode_failure() {
    let complaint = image::ImageError::IoError(std::io::Error::new(
        std::io::ErrorKind::Other,
        "full",
    ));
    assert_eq!(encoded_or_failure(Err(complaint)), Err(Error::DecodeFailure));
    assert_eq!(encoded_or_failure(Ok(vec![9, 8])), Ok(vec![9, 8]));
}

fn webp_of(picture: image::DynamicImage) -> Vec<u8> {
    let mut out = Cursor::new(Vec::new());
    picture.write_to(&mut out, image::ImageFormat::WebP).unwrap();
    out.into_inner()
}

fn gradient(width: u32, height: u32) -> image::RgbImage {
    image::RgbImage::from_fn(width, height, |x, y| {
        image::Rgb([(x % 251) as u8, (y % 241) as u8, ((x + y) % 239) as u8])
    })
}

#[test]
fn render_is_decode_then_thumbnail_then_encode() {
    let frame = webp_of(image::DynamicImage::ImageRgb8(gradient(800, 450)));
    let direct = webp_of(
        image::load_from_memory_with_format(&frame, image::ImageFormat::WebP)
            .unwrap()
            .thumbnail(384, 216),
    );
    assert_eq!(render(&frame), Ok(direct));
}

#[test]
fn render_keeps_the_kind_of_pixel() {
    let opaque = webp_of(image::DynamicImage::ImageRgb8(gradient(500, 500)));
    let thumbnail = render(&opaque).unwrap();
    let decoded = image::load_from_memory_with_format(&thumbnail, image::ImageFormat::WebP).unwrap();
    assert!(!decoded.color().has_alpha());
    assert_eq!((decoded.width(), decoded.height()), (216, 216));

    let clear = image::RgbaImage::from_fn(500, 250, |x, y| {
        image::Rgba([(x % 256) as u8, (y % 256) as u8, 7, ((x * y) % 256) as u8])
    });
    let frame = webp_of(image::DynamicImage::ImageRgba8(clear));
    let direct = webp_of(
        image::load_from_memory_with_format(&frame, image::ImageFormat::WebP)
            .unwrap()
            .thumbnail(384, 216),
    );
    let thumbnail = render(&frame).unwrap();
    assert_eq!(thumbnail, direct);
    let decoded = image::load_from_memory_with_format(&thumbnail, image::ImageFormat::WebP).unwrap();
    assert!(decoded.color().has_alpha());
    assert_eq!((decoded.width(), decoded.height()), (384, 192));
}

#[test]
fn render_scales_a_small_frame_up_to_the_box() {
    let frame = webp_of(image::DynamicImage::ImageRgb8(gradient(4, 2)));
    assert_eq!(dimensions(&render(&frame).unwrap()), (384, 192));
    let frame = webp_of(image::DynamicImage::ImageRgb8(gradient(1, 1)));
    assert_eq!(dimensions(&render(&frame).unwrap()), (216, 216));
}

#[test]
fn render_of_a_very_flat_frame_is_one_pixel_high() {
    let frame = webp_of(image::DynamicImage::ImageRgb8(gradient(4000, 2)));
    assert_eq!(dimensions(&render(&frame).unwrap()), (384, 1));
}
