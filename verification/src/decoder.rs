//! Decoding of an encoded frame buffer into a single-channel luminance
//! image of known dimensions.

use vstd::prelude::*;

verus! {

/// What decoding a byte buffer as a PNG image and converting it to
/// single-channel luminance yields: nothing when the bytes are not a
/// well-formed image in that format, else the image's width and height in
/// pixels and its luminance bytes in row-major order. Decoding is a pure
/// function of the bytes alone.
pub uninterp spec fn gray_decode(bytes: Seq<u8>) -> Option<(u32, u32, Seq<u8>)>;

/// Whether `bytes` decode to a luminance image with positive dimensions and
/// one byte per pixel: the only decode outcome on which the controller can
/// work.
pub open spec fn gray_decode_valid(bytes: Seq<u8>) -> bool {
    match gray_decode(bytes) {
        Some((w, h, p)) => w > 0 && h > 0 && p.len() == w * h,
        None => false,
    }
}

/// Relies on image::load_from_memory_with_format with the PNG format, whose
/// result is a pure function of the bytes, and on DynamicImage::to_luma8,
/// which converts the decoded image to one luminance byte per pixel; the
/// buffer's dimensions and row-major bytes are handed out by
/// ImageBuffer::dimensions and ImageBuffer::into_raw.
#[verifier::external_body]
fn decode_gray(bytes: &Vec<u8>) -> (r: Option<(u32, u32, Vec<u8>)>)
    ensures
        r is Some <==> gray_decode(bytes@) is Some,
        r matches Some(t) ==> gray_decode(bytes@) == Some((t.0, t.1, t.2@)),
{
    match image::load_from_memory_with_format(bytes, image::ImageFormat::Png) {
        Ok(img) => {
            let gray = img.to_luma8();
            let (width, height) = gray.dimensions();
            Some((width, height, gray.into_raw()))
        },
        Err(_) => None,
    }
}

/// A decoded frame: a rectangular grid of luminance pixels with explicit,
/// positive dimensions.
#[derive(Debug)]
pub struct DecodedImage {
    pub width: u32,
    pub height: u32,
    pub pixels: Vec<u8>,
}

impl DecodedImage {
    /// Well-formedness: positive dimensions and exactly one luminance byte
    /// per pixel, which is what the detection capability demands of its
    /// input.
    pub open spec fn wf(self) -> bool {
        &&& self.width > 0
        &&& self.height > 0
        &&& self.pixels@.len() == self.width * self.height
    }
}

/// Failure of `decode`: the buffer is not a well-formed image of the
/// expected format. An expected, frequent condition on an unreliable
/// transport, not an exceptional one.
#[derive(Clone, Copy, PartialEq, Eq, Structural, Debug)]
pub enum DecodeError {
    MalformedImage,
}

/// Decodes an encoded frame buffer: succeeds exactly when the bytes decode
/// to a luminance image with positive dimensions and one byte per pixel,
/// and then returns that image; any other buffer is rejected with
/// `DecodeError::MalformedImage`. Never panics: malformed input is an
/// expected outcome.
pub fn decode(bytes: &Vec<u8>) -> (r: Result<DecodedImage, DecodeError>)
    ensures
        r is Ok <==> gray_decode_valid(bytes@),
        r matches Ok(img) ==> img.wf() && gray_decode(bytes@) == Some(
            (img.width, img.height, img.pixels@),
        ),
        r matches Err(e) ==> e == DecodeError::MalformedImage,
{
    match decode_gray(bytes) {
        Some((width, height, pixels)) => {
            proof {
                assert((width as int) * (height as int) <= 0xFFFF_FFFF * 0xFFFF_FFFF)
                    by (nonlinear_arith)
                    requires
                        0 <= width as int <= 0xFFFF_FFFF,
                        0 <= height as int <= 0xFFFF_FFFF,
                ;
            }
            if width > 0 && height > 0 && (pixels.len() as u64 == (width as u64) * (
            height as u64)) {
                Ok(DecodedImage { width, height, pixels })
            } else {
                Err(DecodeError::MalformedImage)
            }
        },
        None => Err(DecodeError::MalformedImage),
    }
}

} // verus!
