//! The image codec: encoding RGBA8 pixels as PNG or JPEG and decoding image
//! files, all in memory.
use vstd::prelude::*;
use image::ImageEncoder;
use crate::raster::Raster;

verus! {

/// The PNG file an RGBA8 image of the given size and pixels is encoded as by
/// the image codec, or `None` when encoding fails.
pub uninterp spec fn png_encoding(width: u32, height: u32, pixels: Seq<u8>) -> Option<Seq<u8>>;

/// The size and RGBA8 pixels the image codec decodes the image file `bytes`
/// into, or `None` when they are not an image it reads.
pub uninterp spec fn image_decoding(bytes: Seq<u8>) -> Option<(u32, u32, Seq<u8>)>;

/// Encodes RGBA8 pixels as PNG.
///
/// Trusted: calls `write_image` of `image::codecs::png::PngEncoder` (the
/// encoder `RgbaImage::write_to` uses for PNG) on the RGBA8 pixels, writing
/// into memory. The result is named `png_encoding` of the arguments; the
/// error is the codec's message. The encoder panics unless the buffer holds
/// exactly four bytes per pixel, which `requires` states.
#[verifier::external_body]
pub(crate) fn png_encode(width: u32, height: u32, pixels: &Vec<u8>) -> (r: Result<Vec<u8>, String>)
    requires
        pixels@.len() == 4 * width * height,
    ensures
        r matches Ok(v) ==> png_encoding(width, height, pixels@) == Some(v@),
        r is Err ==> png_encoding(width, height, pixels@) is None,
{
    let mut buffer: Vec<u8> = Vec::new();
    let encoder = image::codecs::png::PngEncoder::new(&mut buffer);
    match encoder.write_image(pixels.as_slice(), width, height, image::ExtendedColorType::Rgba8) {
        Ok(()) => Ok(buffer),
        Err(e) => Err(e.to_string()),
    }
}

/// Decodes an image file (PNG, JPEG, ..) held in memory into RGBA8.
///
/// Trusted: calls `image::load_from_memory` and converts the picture with
/// `into_rgba8`. The result is named `image_decoding` of the bytes; the image
/// crate's RGBA8 buffers hold exactly four bytes per pixel, which is stated
/// too. The error is the codec's message.
#[verifier::external_body]
pub(crate) fn image_decode(bytes: &[u8]) -> (r: Result<(u32, u32, Vec<u8>), String>)
    ensures
        r matches Ok(t) ==> image_decoding(bytes@) == Some((t.0, t.1, t.2@)) && t.2@.len() == 4 * t.0 * t.1,
        r is Err ==> image_decoding(bytes@) is None,
{
    match image::load_from_memory(bytes) {
        Ok(d) => {
            let rgba = d.into_rgba8();
            Ok((rgba.width(), rgba.height(), rgba.into_raw()))
        },
        Err(e) => Err(e.to_string()),
    }
}

/// The JPEG file an RGBA8 image of the given size and pixels is encoded as
/// at the given quality, or `None` when encoding fails.
pub uninterp spec fn jpeg_encoding(width: u32, height: u32, pixels: Seq<u8>, quality: u8) -> Option<Seq<u8>>;

/// Encodes RGBA8 pixels as JPEG.
///
/// Trusted: drops the alpha channel with the image crate's `to_rgb8` and
/// encodes the RGB8 pixels with `JpegEncoder::new_with_quality` and `encode`,
/// writing into memory. The result is named `jpeg_encoding` of the
/// arguments; the error is the codec's message. The buffer must hold exactly
/// four bytes per pixel (the encoder panics on a wrong length).
#[verifier::external_body]
pub(crate) fn jpeg_encode(width: u32, height: u32, pixels: &Vec<u8>, quality: u8) -> (r: Result<Vec<u8>, String>)
    requires
        pixels@.len() == 4 * width * height,
    ensures
        r matches Ok(v) ==> jpeg_encoding(width, height, pixels@, quality) == Some(v@),
        r is Err ==> jpeg_encoding(width, height, pixels@, quality) is None,
{
    let rgba = match image::RgbaImage::from_raw(width, height, pixels.clone()) {
        Some(img) => img,
        None => return Err(String::new()),
    };
    let rgb = image::DynamicImage::ImageRgba8(rgba).to_rgb8();
    let mut buffer: Vec<u8> = Vec::new();
    let done = image::codecs::jpeg::JpegEncoder::new_with_quality(&mut buffer, quality)
        .encode(rgb.as_raw(), width, height, image::ExtendedColorType::Rgb8);
    match done {
        Ok(()) => Ok(buffer),
        Err(e) => Err(e.to_string()),
    }
}

/// The size and RGBA8 pixels the image codec decodes `bytes` into when it
/// reads them as the format that the file-name extension `extension` names,
/// or `None` when it names no format it reads or the bytes are not such an
/// image.
pub uninterp spec fn image_decoding_as(bytes: Seq<u8>, extension: Seq<char>) -> Option<(u32, u32, Seq<u8>)>;

/// Decodes an image file held in memory as the format its extension names.
///
/// Trusted: picks the format with `ImageFormat::from_extension` and decodes
/// with `ImageReader::with_format(..).decode()` and `into_rgba8`, the steps
/// `image::open` takes for a file with that extension. The result is named
/// `image_decoding_as` of the arguments, with four bytes per pixel. The error
/// is the codec's message.
#[verifier::external_body]
pub(crate) fn image_decode_as(bytes: &[u8], extension: &str) -> (r: Result<(u32, u32, Vec<u8>), String>)
    ensures
        r matches Ok(t) ==> image_decoding_as(bytes@, extension@) == Some((t.0, t.1, t.2@)) && t.2@.len() == 4 * t.0 * t.1,
        r is Err ==> image_decoding_as(bytes@, extension@) is None,
{
    let format = match image::ImageFormat::from_extension(extension) {
        Some(f) => f,
        None => {
            let hint = image::error::ImageFormatHint::PathExtension(extension.into());
            return Err(image::ImageError::Unsupported(hint.into()).to_string());
        },
    };
    match image::ImageReader::with_format(std::io::Cursor::new(bytes), format).decode() {
        Ok(d) => {
            let rgba = d.into_rgba8();
            Ok((rgba.width(), rgba.height(), rgba.into_raw()))
        },
        Err(e) => Err(e.to_string()),
    }
}

/// Decodes an image file held in memory; the error is the codec's message.
pub fn decode_image(bytes: &[u8]) -> (r: Result<Raster, String>)
    ensures
        r matches Ok(img) ==> img.wf() && image_decoding(bytes@) == Some((img.width, img.height, img.pixels@)),
        r is Err ==> image_decoding(bytes@) is None,
{
    match image_decode(bytes) {
        Ok((width, height, pixels)) => Ok(Raster { width, height, pixels }),
        Err(e) => Err(e),
    }
}

} // verus!
