use vstd::prelude::*;
use crate::error::EarsError;
use crate::pixels::PixelBuffer;

verus! {

/// Errors of the `image` crate, carried opaquely.
#[verifier::external_type_specification]
#[verifier::external_body]
pub struct ExImageError(image::ImageError);

/// Width, height and RGBA bytes of the PNG image held by `b`, or `None` when
/// `b` is not a PNG image that decodes.
pub uninterp spec fn png_decoded(b: Seq<u8>) -> Option<(u32, u32, Seq<u8>)>;

/// The PNG file that holds the given RGBA pixels.
pub uninterp spec fn png_encoded(width: u32, height: u32, data: Seq<u8>) -> Seq<u8>;

/// Relies on `image::load_from_memory_with_format` with `ImageFormat::Png`,
/// then `DynamicImage::into_rgba8`: the decoded pixels depend on the bytes alone.
#[verifier::external_body]
fn decode_png_raw(b: &[u8]) -> (r: Result<(u32, u32, Vec<u8>), image::ImageError>)
    ensures
        r is Ok <==> png_decoded(b@) is Some,
        r matches Ok(t) ==> png_decoded(b@) == Some((t.0, t.1, t.2@)),
{
    match image::load_from_memory_with_format(b, image::ImageFormat::Png) {
        Ok(img) => {
            let rgba = img.into_rgba8();
            Ok((rgba.width(), rgba.height(), rgba.into_raw()))
        },
        Err(e) => Err(e),
    }
}

/// Relies on `image::codecs::png::PngEncoder::write_image` with 8-bit RGBA
/// pixels: the bytes written depend on the pixels alone. It panics unless the
/// buffer holds four bytes per pixel. Writing into a `Vec` cannot fail, so the
/// only refusals are a zero width or a zero height.
#[verifier::external_body]
fn encode_png_raw(width: u32, height: u32, data: &[u8]) -> (r: Result<Vec<u8>, image::ImageError>)
    requires
        data@.len() == 4 * (width * height),
    ensures
        r is Ok <==> (width > 0 && height > 0),
        r matches Ok(v) ==> v@ == png_encoded(width, height, data@),
{
    let mut out: Vec<u8> = Vec::new();
    let encoder = image::codecs::png::PngEncoder::new(&mut out);
    match image::ImageEncoder::write_image(encoder, data, width, height, image::ExtendedColorType::Rgba8) {
        Ok(()) => Ok(out),
        Err(e) => Err(e),
    }
}

/// Whether a decoded PNG image has four bytes per pixel.
pub open spec fn is_rgba_image(t: (u32, u32, Seq<u8>)) -> bool {
    t.2.len() == 4 * (t.0 * t.1)
}

/// Decodes a PNG file into an RGBA pixel buffer; a file that does not decode is corrupt.
pub fn decode_png(bytes: &[u8]) -> (r: Result<PixelBuffer, EarsError>)
    ensures
        r is Ok <==> (png_decoded(bytes@) matches Some(t) && is_rgba_image(t)),
        r matches Ok(p) ==> p.wf() && png_decoded(bytes@) == Some((p.spec_width(), p.spec_height(), p@)),
        r is Err ==> r == Err::<PixelBuffer, _>(EarsError::DecodeError),
{
    match decode_png_raw(bytes) {
        Ok((width, height, data)) => match PixelBuffer::new(width, height, data) {
            Some(p) => Ok(p),
            None => Err(EarsError::DecodeError),
        },
        Err(_) => Err(EarsError::DecodeError),
    }
}

/// Encodes a pixel buffer as a PNG file; an image without pixels has no PNG form.
pub fn encode_png(buf: &PixelBuffer) -> (r: Result<Vec<u8>, EarsError>)
    requires
        buf.wf(),
    ensures
        r is Ok <==> buf.spec_width() > 0 && buf.spec_height() > 0,
        r matches Ok(v) ==> v@ == png_encoded(buf.spec_width(), buf.spec_height(), buf@),
        r is Err ==> r == Err::<Vec<u8>, _>(EarsError::EncodeError),
{
    match encode_png_raw(buf.width(), buf.height(), buf.data().as_slice()) {
        Ok(v) => Ok(v),
        Err(_) => Err(EarsError::EncodeError),
    }
}

} // verus!
