use vstd::prelude::*;
use crate::error::PipelineError;
use crate::pixels::{PixelBuffer, byte_len};

verus! {

#[verifier::external_type_specification]
#[verifier::external_body]
pub struct ExImageError(image::ImageError);

/// The image that the PNG decoder decodes `bytes` into, converted to RGBA8:
/// its width, height and pixel bytes; `None` where the bytes do not decode.
pub uninterp spec fn decoded_png_rgba8(bytes: Seq<u8>) -> Option<(u32, u32, Seq<u8>)>;

/// The PNG file that the codec writes for an RGBA8 image.
pub uninterp spec fn png_file(width: u32, height: u32, pixels: Seq<u8>) -> Seq<u8>;

/// Relies on `image::load_from_memory_with_format` with `ImageFormat::Png`,
/// which uses the built-in PNG decoder and no registered hooks, and on
/// `DynamicImage::into_rgba8`: the decoded image, converted to RGBA8, taken
/// apart into its width, height and raw bytes. The decoder fills a buffer of
/// exactly `4 * width * height` bytes for RGBA8, and the conversion from any
/// other color type builds a new buffer of that size.
#[verifier::external_body]
fn decode_png_rgba8(bytes: &[u8]) -> (r: Result<(u32, u32, Vec<u8>), image::ImageError>)
    ensures
        r is Ok <==> decoded_png_rgba8(bytes@) is Some,
        r matches Ok(d) ==> decoded_png_rgba8(bytes@) == Some((d.0, d.1, d.2@)),
        r matches Ok(d) ==> d.2@.len() == byte_len(d.0 as nat, d.1 as nat),
{
    let rgba = image::load_from_memory_with_format(bytes, image::ImageFormat::Png)?.into_rgba8();
    Ok((rgba.width(), rgba.height(), rgba.into_raw()))
}

/// Relies on `image::codecs::png::PngEncoder` through
/// `ImageEncoder::write_image`, which panics unless the buffer holds exactly
/// `4 * width * height` bytes for an RGBA8 image. The png encoder refuses only
/// a zero width or height here, and writing into a `Vec` does not fail.
#[verifier::external_body]
fn png_encode(width: u32, height: u32, pixels: &[u8]) -> (r: Result<Vec<u8>, image::ImageError>)
    requires
        pixels@.len() == byte_len(width as nat, height as nat),
    ensures
        width > 0 && height > 0 ==> r is Ok,
        r matches Ok(file) ==> file@ == png_file(width, height, pixels@),
{
    let mut file: Vec<u8> = Vec::new();
    let encoder = image::codecs::png::PngEncoder::new(&mut file);
    image::ImageEncoder::write_image(encoder, pixels, width, height, image::ExtendedColorType::Rgba8)?;
    Ok(file)
}

/// Relies on the `Display` impl of `image::ImageError` for its message.
#[verifier::external_body]
fn image_error_text(e: &image::ImageError) -> (r: String) {
    e.to_string()
}

/// Decodes a PNG file held in memory into a tightly packed RGBA8 buffer.
/// Fails with `Decode` exactly when the codec refuses the bytes.
pub fn decode_image(bytes: &[u8]) -> (r: Result<PixelBuffer, PipelineError>)
    ensures
        r is Ok <==> decoded_png_rgba8(bytes@) is Some,
        r matches Ok(pb) ==> pb.wf() && decoded_png_rgba8(bytes@) == Some(
            (pb.width, pb.height, pb.pixels@),
        ),
        r matches Err(e) ==> e is Decode,
{
    match decode_png_rgba8(bytes) {
        Ok((width, height, pixels)) => PixelBuffer::new(width, height, pixels),
        Err(e) => Err(PipelineError::Decode(image_error_text(&e))),
    }
}

/// Encodes a pixel buffer as a PNG file in memory, ready to be written in one
/// piece. Fails with `SizeMismatch` when the byte count does not match the
/// dimensions, and with `Encode` when the codec refuses the image, which it
/// does only for a zero width or height.
pub fn encode_png(pb: &PixelBuffer) -> (r: Result<Vec<u8>, PipelineError>)
    ensures
        !pb.wf() ==> r == Err::<Vec<u8>, PipelineError>(
            PipelineError::SizeMismatch {
                expected: byte_len(pb.width as nat, pb.height as nat) as u128,
                actual: pb.pixels@.len() as u128,
            },
        ),
        r matches Ok(file) ==> pb.wf() && file@ == png_file(pb.width, pb.height, pb.pixels@),
        pb.wf() ==> (r is Ok || r matches Err(PipelineError::Encode(_))),
        pb.wf() && pb.width > 0 && pb.height > 0 ==> r is Ok,
{
    let expected: u128 = crate::pixels::image_byte_len(pb.width, pb.height);
    let actual: u128 = pb.pixels.len() as u128;
    if actual != expected {
        return Err(PipelineError::SizeMismatch { expected, actual });
    }
    match png_encode(pb.width, pb.height, pb.pixels.as_slice()) {
        Ok(file) => Ok(file),
        Err(e) => Err(PipelineError::Encode(image_error_text(&e))),
    }
}

} // verus!
