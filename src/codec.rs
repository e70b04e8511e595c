use vstd::prelude::*;

use base64::engine::general_purpose::STANDARD as BASE64;
use base64::Engine;

use crate::error::PipelineError;
use crate::frame::{copy_rgb_rect, crop_region, frame_rect, is_rgb_crop, rect_inside, CapturedImage, CroppedRegion, FrameModel};
use crate::region::CropRegion;

verus! {

#[verifier::external_type_specification]
#[verifier::external_body]
pub struct ExDecodeError(base64::DecodeError);

#[verifier::external_type_specification]
#[verifier::external_body]
pub struct ExImageError(image::ImageError);

/// What base64's standard engine decodes a text into; `None` when the text
/// is not valid base64.
pub uninterp spec fn base64_decoded(s: Seq<char>) -> Option<Seq<u8>>;

/// What base64's standard engine encodes bytes into.
pub uninterp spec fn base64_encoded(b: Seq<u8>) -> Seq<char>;

/// Width, height and RGB bytes of the image that `image::load_from_memory`
/// reads from encoded bytes, converted to 8-bit RGB; `None` when the bytes
/// are no image it can read.
pub uninterp spec fn rgb_decoded(bytes: Seq<u8>) -> Option<(u32, u32, Seq<u8>)>;

/// The JPEG file that image's JPEG encoder writes for RGB pixels.
pub uninterp spec fn jpeg_encoded(pixels: Seq<u8>, width: u32, height: u32, quality: u8) -> Seq<u8>;

/// Relies on `base64::Engine::decode` with the standard alphabet and padding.
#[verifier::external_body]
fn decode_base64(s: &str) -> (r: Result<Vec<u8>, base64::DecodeError>)
    ensures
        r is Ok <==> base64_decoded(s@) is Some,
        r matches Ok(b) ==> b@ == base64_decoded(s@)->Some_0,
{
    BASE64.decode(s)
}

/// Relies on `base64::Engine::encode` with the standard alphabet and padding.
#[verifier::external_body]
fn encode_base64(b: &[u8]) -> (r: String)
    ensures
        r@ == base64_encoded(b@),
{
    BASE64.encode(b)
}

/// Relies on `image::load_from_memory`, whose result is converted to 8-bit
/// RGB and taken apart into its size and raw bytes. The decoder fills a
/// buffer of exactly `width * height` pixels.
#[verifier::external_body]
fn decode_rgb(bytes: &[u8]) -> (r: Result<(u32, u32, Vec<u8>), image::ImageError>)
    ensures
        r is Ok <==> rgb_decoded(bytes@) is Some,
        r matches Ok(t) ==> (t.0, t.1, t.2@) == rgb_decoded(bytes@)->Some_0,
        r matches Ok(t) ==> t.2@.len() == t.0 * t.1 * 3,
{
    let rgb = image::load_from_memory(bytes)?.into_rgb8();
    let (width, height) = rgb.dimensions();
    Ok((width, height, rgb.into_raw()))
}

/// Sides that image's JPEG encoder accepts: from 1 to 65535 pixels.
pub open spec fn jpeg_size_ok(width: nat, height: nat) -> bool {
    1 <= width <= 65535 && 1 <= height <= 65535
}

/// Relies on `image::codecs::jpeg::JpegEncoder::encode`, which panics unless
/// the buffer holds exactly `width * height` RGB pixels, and fails only when
/// a side is 0 or over 65535: writing into a `Vec` does not fail.
#[verifier::external_body]
fn encode_jpeg(pixels: &[u8], width: u32, height: u32, quality: u8) -> (r: Result<Vec<u8>, image::ImageError>)
    requires
        pixels@.len() == width * height * 3,
    ensures
        r is Ok <==> jpeg_size_ok(width as nat, height as nat),
        r matches Ok(b) ==> b@ == jpeg_encoded(pixels@, width, height, quality),
{
    let mut out = Vec::new();
    image::codecs::jpeg::JpegEncoder::new_with_quality(&mut out, quality).encode(
        pixels,
        width,
        height,
        image::ExtendedColorType::Rgb8,
    )?;
    Ok(out)
}

/// JPEG quality of encoded crops.
pub const CROP_JPEG_QUALITY: u8 = 85;

/// The RGB frame that base64 text `s` decodes to; `None` when the text is
/// not base64 or its bytes are no image.
pub open spec fn decoded_frame(s: Seq<char>) -> Option<FrameModel> {
    match base64_decoded(s) {
        None => None,
        Some(bytes) => match rgb_decoded(bytes) {
            None => None,
            Some(t) => Some(FrameModel { width: t.0 as nat, height: t.1 as nat, channels: 3, pixels: t.2 }),
        },
    }
}

/// Turns base64 text holding an encoded image (JPEG, PNG) into an RGB frame.
pub fn decode_capture(base64_image: &str) -> (r: Result<CapturedImage, PipelineError>)
    ensures
        r is Ok <==> decoded_frame(base64_image@) is Some,
        r matches Ok(img) ==> img@ == decoded_frame(base64_image@)->Some_0,
        r is Err ==> r->Err_0 == PipelineError::ImageDecodeError,
{
    let bytes = match decode_base64(base64_image) {
        Ok(b) => b,
        Err(_) => return Err(PipelineError::ImageDecodeError),
    };
    let (width, height, pixels) = match decode_rgb(bytes.as_slice()) {
        Ok(t) => t,
        Err(_) => return Err(PipelineError::ImageDecodeError),
    };
    match CapturedImage::new(width, height, 3, pixels) {
        Some(img) => Ok(img),
        None => Err(PipelineError::ImageDecodeError),
    }
}

/// Encodes a cropped region as a JPEG of quality 85, in base64 text.
/// Succeeds exactly when the buffer holds `width * height` RGB pixels and
/// both sides are from 1 to 65535.
pub fn encode_region(region: &CroppedRegion) -> (r: Result<String, PipelineError>)
    ensures
        r is Ok <==> region.pixels@.len() == region.width * region.height * 3 && jpeg_size_ok(
            region.width as nat,
            region.height as nat,
        ),
        r matches Ok(s) ==> s@ == base64_encoded(
            jpeg_encoded(region.pixels@, region.width, region.height, CROP_JPEG_QUALITY),
        ),
        r is Err ==> r->Err_0 == PipelineError::ImageEncodeError,
{
    let w = region.width as u64;
    let h = region.height as u64;
    assert(region.width * region.height <= 0xffff_ffff * 0xffff_ffff) by (nonlinear_arith)
        requires region.width <= 0xffff_ffff, region.height <= 0xffff_ffff;
    let expected: u128 = (w as u128) * (h as u128) * 3;
    if region.pixels.len() as u128 != expected {
        return Err(PipelineError::ImageEncodeError);
    }
    match encode_jpeg(region.pixels.as_slice(), region.width, region.height, CROP_JPEG_QUALITY) {
        Ok(jpeg) => Ok(encode_base64(jpeg.as_slice())),
        Err(_) => Err(PipelineError::ImageEncodeError),
    }
}

/// Cuts `region` out of a base64-encoded image and returns the crop as a
/// base64-encoded JPEG.
///
/// Text that is not base64 or holds no image gives `ImageDecodeError`; a
/// rectangle that leaves the frame gives `OutOfBounds`; a crop with a side
/// of 0 or over 65535 pixels cannot be a JPEG and gives `ImageEncodeError`.
pub fn process_crop(base64_image: &str, region: CropRegion) -> (r: Result<String, PipelineError>)
    ensures
        decoded_frame(base64_image@) is None ==> r == Err::<String, PipelineError>(
            PipelineError::ImageDecodeError,
        ),
        decoded_frame(base64_image@) matches Some(frame) ==> {
            let (x, y, w, h) = frame_rect(frame, region);
            &&& r == Err::<String, PipelineError>(PipelineError::OutOfBounds) <==> !rect_inside(frame, (x, y, w, h))
            &&& r == Err::<String, PipelineError>(PipelineError::ImageEncodeError) <==> (
                rect_inside(frame, (x, y, w, h)) && !jpeg_size_ok(w, h))
            &&& r is Ok <==> (rect_inside(frame, (x, y, w, h)) && jpeg_size_ok(w, h))
            &&& r matches Ok(s) ==> exists|pixels: Seq<u8>|
                is_rgb_crop(frame, x, y, w, h, pixels) && s@ == base64_encoded(
                    #[trigger] jpeg_encoded(pixels, w as u32, h as u32, CROP_JPEG_QUALITY),
                )
        },
{
    let image = decode_capture(base64_image)?;
    let cropped = crop_region(&image, region)?;
    let encoded = encode_region(&cropped)?;
    proof {
        let (x, y, w, h) = frame_rect(image@, region);
        assert(w as u32 == cropped.width && h as u32 == cropped.height);
        assert(is_rgb_crop(image@, x, y, w, h, cropped.pixels@));
        assert(encoded@ == base64_encoded(jpeg_encoded(cropped.pixels@, w as u32, h as u32, CROP_JPEG_QUALITY)));
    }
    Ok(encoded)
}

/// JPEG quality of encoded whole frames.
pub const FRAME_JPEG_QUALITY: u8 = 95;

/// Encodes a whole frame, alpha dropped, as a JPEG of quality 95 in base64
/// text: the form in which records keep captured images. Succeeds exactly
/// when both sides are from 1 to 65535.
pub fn encode_frame(image: &CapturedImage) -> (r: Result<String, PipelineError>)
    ensures
        r is Ok <==> jpeg_size_ok(image@.width, image@.height),
        r matches Ok(s) ==> exists|pixels: Seq<u8>|
            is_rgb_crop(image@, 0, 0, image@.width, image@.height, pixels) && s@ == base64_encoded(
                #[trigger] jpeg_encoded(pixels, image@.width as u32, image@.height as u32, FRAME_JPEG_QUALITY),
            ),
        r is Err ==> r->Err_0 == PipelineError::ImageEncodeError,
{
    let width = image.width();
    let height = image.height();
    let pixels = copy_rgb_rect(image, 0, 0, width, height);
    match encode_jpeg(pixels.as_slice(), width, height, FRAME_JPEG_QUALITY) {
        Ok(jpeg) => {
            let text = encode_base64(jpeg.as_slice());
            assert(is_rgb_crop(image@, 0, 0, image@.width, image@.height, pixels@));
            assert(text@ == base64_encoded(jpeg_encoded(pixels@, image@.width as u32, image@.height as u32, FRAME_JPEG_QUALITY)));
            Ok(text)
        },
        Err(_) => Err(PipelineError::ImageEncodeError),
    }
}

} // verus!
