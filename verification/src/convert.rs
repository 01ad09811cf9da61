//! The conversion pipeline on bytes: decode an image, crop it to a
//! centered square when it is landscape and cropping is enabled, and
//! re-encode it as JPEG. Reading the source file, writing the output file
//! and deleting the source stay with the caller.

use vstd::prelude::*;
use crate::crop::crop_rect;
use crate::crop::spec_output_dims;

verus! {

#[verifier::external_type_specification]
#[verifier::external_body]
pub struct ExImageError(image::ImageError);

/// What decoding a byte string yields: `None` when the bytes are not a
/// recognizable, well-formed image, otherwise the width and height of the
/// decoded image. Decoding is a function of the bytes alone.
pub uninterp spec fn decoded_dims(bytes: Seq<u8>) -> Option<(u32, u32)>;

/// Whether the JPEG format can hold an image of these dimensions: both
/// sides must be at least 1 and at most 65535.
pub open spec fn jpeg_encodable(w: nat, h: nat) -> bool {
    1 <= w <= 65535 && 1 <= h <= 65535
}

/// The dimensions the pipeline hands to the JPEG encoder: those of the
/// crop rectangle when one is applied, the decoded dimensions otherwise.
pub open spec fn rect_dims(d: (u32, u32), rect: Option<(u32, u32, u32, u32)>) -> (u32, u32) {
    match rect {
        Some(t) => (t.2, t.3),
        None => d,
    }
}

/// Why a conversion failed. Decoding and encoding fail inside this
/// library; writing the output file and deleting the source are the
/// caller's steps and fail there.
#[derive(Clone, Copy, Debug, PartialEq, Eq, Structural)]
pub enum ConvertError {
    /// The input was not a recognizable, well-formed image.
    Decode,
    /// The decoded image could not be encoded as JPEG.
    Encode,
    /// The output file could not be written.
    Write,
    /// The source file could not be deleted.
    Delete,
}

/// Relies on image::load_from_memory, which decodes a byte string by its
/// guessed format, depends on the bytes alone and fails exactly on byte
/// strings that are no well-formed image, and on
/// image::GenericImageView::dimensions, which reads the width and height
/// of the decoded image.
#[verifier::external_body]
fn decode_image_dims(bytes: &Vec<u8>) -> (r: Result<(u32, u32), image::ImageError>)
    ensures
        r is Ok <==> decoded_dims(bytes@) is Some,
        r matches Ok(d) ==> decoded_dims(bytes@) == Some(d),
{
    match image::load_from_memory(bytes.as_slice()) {
        Ok(img) => Ok(image::GenericImageView::dimensions(&img)),
        Err(e) => Err(e),
    }
}

/// Relies on the composition of image::load_from_memory,
/// image::DynamicImage::crop_imm and image::DynamicImage::write_to with
/// ImageFormat::Jpeg into an in-memory buffer. The cut-out of an
/// in-bounds rectangle has exactly the rectangle's width and height;
/// write_to first converts the image to a color type the JPEG encoder
/// accepts, writing to a growable buffer cannot fail, and the encoder
/// fails exactly when a dimension is 0 or above 65535; what it writes on
/// success is a JPEG that image::load_from_memory decodes back, with
/// exactly the encoded dimensions.
#[verifier::external_body]
fn decode_crop_encode(bytes: &Vec<u8>, rect: Option<(u32, u32, u32, u32)>) -> (r: Result<
    Vec<u8>,
    image::ImageError,
>)
    requires
        rect matches Some(t) ==> (decoded_dims(bytes@) matches Some(d) && t.0 + t.2 <= d.0 && t.1
            + t.3 <= d.1),
    ensures
        decoded_dims(bytes@) matches Some(d) ==> (r is Ok <==> jpeg_encodable(
            rect_dims(d, rect).0 as nat,
            rect_dims(d, rect).1 as nat,
        )),
        r matches Ok(v) ==> (decoded_dims(bytes@) matches Some(d) && decoded_dims(v@) == Some(
            rect_dims(d, rect),
        )),
{
    let img = match image::load_from_memory(bytes.as_slice()) {
        Ok(img) => img,
        Err(e) => return Err(e),
    };
    let out = match rect {
        Some((x, y, w, h)) => img.crop_imm(x, y, w, h),
        None => img,
    };
    let mut buf = std::io::Cursor::new(Vec::new());
    match out.write_to(&mut buf, image::ImageFormat::Jpeg) {
        Ok(()) => Ok(buf.into_inner()),
        Err(e) => Err(e),
    }
}

/// Convert the bytes of one image file to JPEG bytes.
///
/// Fails with `Decode` exactly when the bytes are not a well-formed
/// image, and with `Encode` exactly when the dimensions the pipeline
/// produces do not fit the JPEG format. On success the result carries the
/// JPEG bytes and their dimensions: the decoded dimensions, squared to
/// `height` by `height` by the centered crop when cropping is enabled and
/// the image is landscape, and unchanged otherwise. The returned bytes
/// decode as an image of exactly the returned dimensions.
pub fn convert_bytes(bytes: &Vec<u8>, crop: bool) -> (r: Result<(Vec<u8>, u32, u32), ConvertError>)
    ensures
        r matches Err(e) ==> (e is Decode || e is Encode),
        (r matches Err(e) && e is Decode) <==> decoded_dims(bytes@) is None,
        r is Ok <==> (decoded_dims(bytes@) matches Some(d) && jpeg_encodable(
            spec_output_dims(d.0 as nat, d.1 as nat, crop).0,
            spec_output_dims(d.0 as nat, d.1 as nat, crop).1,
        )),
        r matches Ok(o) ==> (decoded_dims(bytes@) matches Some(d) && (o.1 as nat, o.2 as nat)
            == spec_output_dims(d.0 as nat, d.1 as nat, crop) && decoded_dims(o.0@) == Some(
            (o.1, o.2),
        )),
{
    match decode_image_dims(bytes) {
        Err(_) => Err(ConvertError::Decode),
        Ok((w, h)) => {
            let rect = crop_rect(w, h, crop);
            let (out_w, out_h) = match rect {
                Some(t) => (t.2, t.3),
                None => (w, h),
            };
            match decode_crop_encode(bytes, rect) {
                Ok(jpeg) => Ok((jpeg, out_w, out_h)),
                Err(_) => Err(ConvertError::Encode),
            }
        },
    }
}

} // verus!
