//! The work on pixels that the `image` crate does.

use crate::scaling::MAX_DIMENSION;
use image::ImageEncoder;
use vstd::prelude::*;

verus! {

/// Whether a buffer of `len` bytes holds an image of this size with four bytes a pixel.
pub open spec fn buffer_fits(width: u32, height: u32, len: nat) -> bool {
    &&& 4 * width <= usize::MAX
    &&& 4 * (width * height) <= len
}

/// The pixels of an image of `width` times `height` pixels after it has been resampled to
/// `new_width` times `new_height` with a triangle filter.
pub uninterp spec fn resampled(
    width: u32,
    height: u32,
    pixels: Seq<u8>,
    new_width: u32,
    new_height: u32,
) -> Seq<u8>;

/// The PNG file of an image with four bytes a pixel, or the text of the error.
pub uninterp spec fn png_encoding(width: u32, height: u32, pixels: Seq<u8>) -> Result<
    Seq<u8>,
    Seq<char>,
>;

/// The most bytes that the PNG file of an image with four bytes a pixel takes: its rows, each with
/// one byte in front, five bytes for every 65 535 of these, and 68 bytes around them.
pub open spec fn png_bound(width: u32, height: u32) -> nat {
    let raw = (4 * width + 1) * height;
    (raw + 5 * (raw / 65_535) + 68) as nat
}

/// The contents of an encoded file, or of the text of an error.
pub open spec fn encoding_view(png: Result<Vec<u8>, String>) -> Result<Seq<u8>, Seq<char>> {
    match png {
        Ok(bytes) => Ok(bytes@),
        Err(text) => Err(text@),
    }
}

/// `image::RgbaImage::from_raw`: refuses a buffer that is too small for the image. The buffer
/// itself is kept as it is.
#[verifier::external_body]
pub(crate) fn checked_pixels(width: u32, height: u32, pixels: Vec<u8>) -> (checked: Option<Vec<u8>>)
    ensures
        match checked {
            Some(kept) => buffer_fits(width, height, pixels@.len()) && kept@ == pixels@,
            None => !buffer_fits(width, height, pixels@.len()),
        },
{
    match image::RgbaImage::from_raw(width, height, pixels) {
        Some(image) => Some(image.into_raw()),
        None => None,
    }
}

/// `image::imageops::resize` with the filter `Triangle`: the result is a function of the
/// arguments alone and has four bytes for each pixel of the new size. It works on a copy of the
/// image with the old width and the new height and with sixteen bytes a pixel, which has to fit
/// into an allocation.
#[verifier::external_body]
pub(crate) fn resample(
    width: u32,
    height: u32,
    pixels: Vec<u8>,
    new_width: u32,
    new_height: u32,
) -> (resized: Vec<u8>)
    requires
        buffer_fits(width, height, pixels@.len()),
        new_width <= MAX_DIMENSION,
        new_height <= MAX_DIMENSION,
        16 * (width * new_height) <= isize::MAX,
    ensures
        resized@ == resampled(width, height, pixels@, new_width, new_height),
        resized@.len() == 4 * (new_width * new_height),
{
    let image = image::RgbaImage::from_raw(width, height, pixels).unwrap();
    let filter = image::imageops::FilterType::Triangle;
    image::imageops::resize(&image, new_width, new_height, filter).into_raw()
}

/// `image::codecs::png::PngEncoder::write_image` into memory, for `Rgba8` pixels: the result is
/// a function of the arguments alone, and an image is refused only if it is empty. The rows are
/// stored as they are wherever the compressor would make them longer than that, which bounds the
/// length of the file.
#[verifier::external_body]
pub(crate) fn encode_png(width: u32, height: u32, pixels: &Vec<u8>) -> (png: Result<Vec<u8>, String>)
    requires
        width <= MAX_DIMENSION,
        height <= MAX_DIMENSION,
        pixels@.len() == 4 * (width * height),
    ensures
        encoding_view(png) == png_encoding(width, height, pixels@),
        (png is Ok) == (width > 0 && height > 0),
        png matches Ok(bytes) ==> bytes@.len() <= png_bound(width, height),
{
    let mut bytes = Vec::new();
    let encoder = image::codecs::png::PngEncoder::new(std::io::Cursor::new(&mut bytes));
    match encoder.write_image(pixels, width, height, image::ExtendedColorType::Rgba8) {
        Ok(()) => Ok(bytes),
        Err(error) => Err(error.to_string()),
    }
}

} // verus!
