//! Thumbnails: an extracted frame, scaled to fit a fixed box and encoded
//! again.

use crate::error::Error;
use vstd::prelude::*;

verus! {

/// The width of the box that a thumbnail fits in: a fifth of 1920.
pub const THUMBNAIL_WIDTH: u32 = 384;

/// The height of the box that a thumbnail fits in: a fifth of 1080.
pub const THUMBNAIL_HEIGHT: u32 = 216;

/// A decoded picture: rows of pixels, each pixel three samples of one byte
/// for red, green and blue, and a fourth for alpha where the picture has
/// it.
#[derive(Debug, PartialEq, Eq)]
pub struct Picture {
    pub width: u32,
    pub height: u32,
    pub alpha: bool,
    pub samples: Vec<u8>,
}

/// The mathematical content of a [`Picture`].
pub struct PictureView {
    pub width: nat,
    pub height: nat,
    pub alpha: bool,
    pub samples: Seq<u8>,
}

impl View for Picture {
    type V = PictureView;

    open spec fn view(&self) -> PictureView {
        PictureView {
            width: self.width as nat,
            height: self.height as nat,
            alpha: self.alpha,
            samples: self.samples@,
        }
    }
}

impl PictureView {
    /// How many samples a pixel has.
    pub open spec fn channels(self) -> nat {
        if self.alpha {
            4
        } else {
            3
        }
    }

    /// Whether the picture holds exactly the samples of its pixels.
    pub open spec fn wf(self) -> bool {
        self.samples.len() == self.width * self.height * self.channels()
    }

    /// Whether the picture is not empty and fits in a box of `width` by
    /// `height`.
    pub open spec fn fits(self, width: nat, height: nat) -> bool {
        1 <= self.width <= width && 1 <= self.height <= height
    }

    /// Whether this picture can be the thumbnail of `frame`: it is whole,
    /// has alpha if and only if the frame has, and fits the thumbnail box.
    pub open spec fn thumbnail_of(self, frame: PictureView) -> bool {
        &&& self.wf()
        &&& self.alpha == frame.alpha
        &&& self.fits(THUMBNAIL_WIDTH as nat, THUMBNAIL_HEIGHT as nat)
    }
}

#[verifier::external_type_specification]
#[verifier::external_body]
pub struct ExImageError(image::ImageError);

/// The picture that the `image` crate decodes from bytes read as WebP, or
/// `None` where it reports an error.
pub uninterp spec fn webp_decoded(bytes: Seq<u8>) -> Option<PictureView>;

/// The bytes that the `image` crate encodes a picture to as WebP, or `None`
/// where it reports an error.
pub uninterp spec fn webp_encoded(picture: PictureView) -> Option<Seq<u8>>;

/// Calls `image::ImageReader::with_format(..).decode()` on the bytes, read
/// as WebP, and takes the decoded buffer apart. The decoder allocates one
/// byte for each sample of each pixel and fills them from the bytes alone.
#[verifier::external_body]
fn decode_webp(bytes: &[u8]) -> (decoded: Result<Picture, image::ImageError>)
    ensures
        match decoded {
            Ok(picture) => webp_decoded(bytes@) == Some(picture@) && picture@.wf(),
            Err(_) => webp_decoded(bytes@) is None,
        },
{
    let reader = image::ImageReader::with_format(std::io::Cursor::new(bytes), image::ImageFormat::WebP);
    let whole = reader.decode()?;
    let (width, height) = (whole.width(), whole.height());
    let (alpha, samples) = match whole {
        image::DynamicImage::ImageRgb8(buffer) => (false, buffer.into_raw()),
        other => (true, other.into_rgba8().into_raw()),
    };
    Ok(Picture { width, height, alpha, samples })
}

/// Calls `image::DynamicImage::thumbnail` on the picture, put together as
/// an image buffer of its kind, and takes the result apart. The call scales
/// the picture, keeping its aspect ratio as far as whole pixels allow, to
/// the largest size that fits in `width` by `height` and is at least one
/// pixel each way, into a new buffer of the same kind of pixel. Which
/// samples the new pixels get is not claimed.
#[verifier::external_body]
fn scale_to_fit(picture: &Picture, width: u32, height: u32) -> (scaled: Picture)
    requires
        picture@.wf(),
        width >= 1,
        height >= 1,
    ensures
        scaled@.wf(),
        scaled@.alpha == picture@.alpha,
        scaled@.fits(width as nat, height as nat),
{
    let (w, h, raw) = (picture.width, picture.height, picture.samples.clone());
    let whole = if picture.alpha {
        image::DynamicImage::ImageRgba8(image::RgbaImage::from_raw(w, h, raw).unwrap())
    } else {
        image::DynamicImage::ImageRgb8(image::RgbImage::from_raw(w, h, raw).unwrap())
    };
    let scaled = whole.thumbnail(width, height);
    let (width, height) = (scaled.width(), scaled.height());
    let (alpha, samples) = match scaled {
        image::DynamicImage::ImageRgb8(buffer) => (false, buffer.into_raw()),
        other => (true, other.into_rgba8().into_raw()),
    };
    Picture { width, height, alpha, samples }
}

/// Calls `image::DynamicImage::write_to` on the picture, put together as
/// an image buffer of its kind, with an in-memory writer and the WebP
/// format, and hands out what was written. The encoder is lossless and
/// works from the picture alone.
#[verifier::external_body]
fn encode_webp(picture: &Picture) -> (encoded: Result<Vec<u8>, image::ImageError>)
    requires
        picture@.wf(),
    ensures
        match encoded {
            Ok(bytes) => webp_encoded(picture@) == Some(bytes@),
            Err(_) => webp_encoded(picture@) is None,
        },
{
    let (w, h, raw) = (picture.width, picture.height, picture.samples.clone());
    let whole = if picture.alpha {
        image::DynamicImage::ImageRgba8(image::RgbaImage::from_raw(w, h, raw).unwrap())
    } else {
        image::DynamicImage::ImageRgb8(image::RgbImage::from_raw(w, h, raw).unwrap())
    };
    let mut out = std::io::Cursor::new(Vec::new());
    whole.write_to(&mut out, image::ImageFormat::WebP)?;
    Ok(out.into_inner())
}

/// What becomes of an encoding attempt: the encoded bytes, or a decode
/// failure whatever the encoder's complaint was.
pub fn encoded_or_failure(encoded: Result<Vec<u8>, image::ImageError>) -> (r: Result<
    Vec<u8>,
    Error,
>)
    ensures
        encoded is Ok ==> r is Ok && r->Ok_0@ == encoded->Ok_0@,
        encoded is Err ==> r == Err::<Vec<u8>, Error>(Error::DecodeFailure),
{
    match encoded {
        Ok(bytes) => Ok(bytes),
        Err(_) => Err(Error::DecodeFailure),
    }
}

/// What encoding a picture comes to for the pipeline: its WebP bytes, or a
/// decode failure where the encoder complains.
pub open spec fn encoding(picture: PictureView) -> Result<Seq<u8>, Error> {
    match webp_encoded(picture) {
        Some(bytes) => Ok(bytes),
        None => Err(Error::DecodeFailure),
    }
}

/// Whether `outcome` is what rendering the thumbnail of a decoded picture
/// may come to: the encoding of a thumbnail of it, that is of a whole
/// picture with the same kind of pixel that fits the thumbnail box.
pub open spec fn renders_picture(picture: PictureView, outcome: Result<Seq<u8>, Error>) -> bool {
    exists|scaled: PictureView| #[trigger]
        scaled.thumbnail_of(picture) && outcome == encoding(scaled)
}

/// Whether `outcome` is what rendering the thumbnail of `frame` may come
/// to. A frame that does not decode as WebP gives a decode failure. A frame
/// that decodes gives what rendering the decoded picture comes to.
pub open spec fn renders(frame: Seq<u8>, outcome: Result<Seq<u8>, Error>) -> bool {
    match webp_decoded(frame) {
        None => outcome == Err::<Seq<u8>, Error>(Error::DecodeFailure),
        Some(picture) => renders_picture(picture, outcome),
    }
}

/// A result of rendering, its bytes as a sequence.
pub open spec fn outcome_of(r: Result<Vec<u8>, Error>) -> Result<Seq<u8>, Error> {
    match r {
        Ok(bytes) => Ok(bytes@),
        Err(error) => Err(error),
    }
}

/// Turns an extracted frame into the bytes of its thumbnail: decodes the
/// frame, scales it to fit the thumbnail box and encodes the result. Any
/// complaint of the image codec is a decode failure.
pub fn render(frame: &[u8]) -> (r: Result<Vec<u8>, Error>)
    ensures
        renders(frame@, outcome_of(r)),
{
    match decode_webp(frame) {
        Ok(picture) => {
            let scaled = scale_to_fit(&picture, THUMBNAIL_WIDTH, THUMBNAIL_HEIGHT);
            let r = encoded_or_failure(encode_webp(&scaled));
            assert(scaled@.thumbnail_of(picture@) && outcome_of(r) == encoding(scaled@));
            assert(renders_picture(picture@, outcome_of(r)));
            r
        },
        Err(_) => Err(Error::DecodeFailure),
    }
}

} // verus!
