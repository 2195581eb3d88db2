use vstd::prelude::*;
use image::{DynamicImage, ImageError};

verus! {

#[verifier::external_type_specification]
#[verifier::external_body]
pub struct ExDynamicImage(DynamicImage);

#[verifier::external_type_specification]
#[verifier::external_body]
pub struct ExImageError(ImageError);

/// `image::load_from_memory`. Nothing is promised of the outcome: besides
/// the bytes it depends on the decoding hooks registered in the process.
#[verifier::external_body]
fn load_image(bytes: &[u8]) -> Result<DynamicImage, ImageError> {
    image::load_from_memory(bytes)
}

/// Why an extracted preview frame could not be used.
#[derive(Clone, Copy, Debug, PartialEq, Eq)]
pub enum FrameError {
    /// The bytes ffmpeg produced are not a decodable image.
    Undecodable,
}

/// The preview frame for the outcome of decoding: the decoded image itself,
/// or [`FrameError::Undecodable`] for any decoding error.
pub fn frame_from_decoded(decoded: Result<DynamicImage, ImageError>) -> (r: Result<
    DynamicImage,
    FrameError,
>)
    ensures
        decoded matches Ok(img) ==> r == Ok::<DynamicImage, FrameError>(img),
        decoded is Err ==> r == Err::<DynamicImage, FrameError>(FrameError::Undecodable),
{
    match decoded {
        Ok(img) => Ok(img),
        Err(_) => Err(FrameError::Undecodable),
    }
}

/// Decode the still frame ffmpeg extracted (a PNG on its standard output)
/// with `image::load_from_memory`, reporting any failure as undecodable.
pub fn decode_frame(bytes: &[u8]) -> (r: Result<DynamicImage, FrameError>)
    ensures
        r is Err ==> r == Err::<DynamicImage, FrameError>(FrameError::Undecodable),
{
    frame_from_decoded(load_image(bytes))
}

/// The size check of `image::RgbaImage::from_raw`: four bytes per pixel, the
/// byte count `4 * width` and then `4 * width * height` each fitting in a
/// `usize` (checked multiplication), and at least that many bytes present.
pub open spec fn rgba_fits(width: int, height: int, len: int) -> bool {
    &&& 4 * width <= usize::MAX
    &&& 4 * width * height <= usize::MAX
    &&& 4 * width * height <= len
}

/// `image::RgbaImage::from_raw`, wrapped as a `DynamicImage::ImageRgba8`: an
/// image is returned exactly when the buffer passes the size check
/// [`rgba_fits`]; the contract does not state the image's pixels.
#[verifier::external_body]
fn rgba_image(width: u32, height: u32, rgba: Vec<u8>) -> (r: Option<DynamicImage>)
    ensures
        r is Some <==> rgba_fits(width as int, height as int, rgba@.len() as int),
{
    image::RgbaImage::from_raw(width, height, rgba).map(DynamicImage::ImageRgba8)
}

/// Turn the bytes read for one frame of the playback stream into an image of
/// `width` x `height` RGBA pixels: `None` when the buffer is too small (or its
/// size does not fit in a `usize`). A buffer of exactly one frame's length
/// always makes an image (for a zero-height frame the width's byte count must
/// also fit).
pub fn stream_frame(width: u32, height: u32, buf: Vec<u8>) -> (r: Option<DynamicImage>)
    ensures
        r is Some <==> rgba_fits(width as int, height as int, buf@.len() as int),
        buf@.len() == 4 * width * height && 4 * width <= usize::MAX ==> r is Some,
{
    let n = buf.len();
    assert(n == buf@.len());
    rgba_image(width, height, buf)
}

} // verus!
