use base64::engine::general_purpose::STANDARD;
use base64::Engine;
use mission_capture::codec::{decode_capture, encode_frame, encode_region, process_crop};
use mission_capture::error::PipelineError;
use mission_capture::frame::{crop_region, CapturedImage, CroppedRegion};
use mission_capture::region::CropRegion;

fn png_base64(width: u32, height: u32) -> String {
    let mut img = image::RgbImage::new(width, height);
    for (x, y, p) in img.enumerate_pixels_mut() {
        *p = image::Rgb([(x % 256) as u8, (y % 256) as u8, ((x + y) % 256) as u8]);
    }
    let mut bytes = std::io::Cursor::new(Vec::new());
    img.write_to(&mut bytes, image::ImageFormat::Png).unwrap();
    STANDARD.encode(bytes.into_inner())
}

#[test]
fn png_decodes_to_its_pixels() {
    let img = decode_capture(&png_base64(4, 3)).unwrap();
    assert_eq!((img.width(), img.height(), img.channels()), (4, 3, 3));
    let px = img.pixels();
    assert_eq!(px.len(), 36);
    // pixel (2, 1)
    assert_eq!(&px[(1 * 4 + 2) * 3..(1 * 4 + 2) * 3 + 3], &[2, 1, 3]);
}

#[test]
fn invalid_base64_is_a_decode_error() {
    assert_eq!(decode_capture("not base64 !!").err(), Some(PipelineError::ImageDecodeError));
}

#[test]
fn bytes_that_are_no_image_are_a_decode_error() {
    let text = STANDARD.encode([1u8, 2, 3, 4]);
    assert_eq!(decode_capture(&text).err(), Some(PipelineError::ImageDecodeError));
}

#[test]
fn crop_comes_back_as_base64_jpeg_of_the_crop_size() {
    let out = process_crop(&png_base64(192, 108), CropRegion::MissionSummary).unwrap();
    let jpeg = STANDARD.decode(&out).unwrap();
    assert_eq!(&jpeg[..2], &[0xFF, 0xD8]);
    let back = decode_capture(&out).unwrap();
    assert_eq!((back.width(), back.height()), (30, 10));
}

#[test]
fn encoded_region_is_a_jpeg() {
    let img = decode_capture(&png_base64(96, 54)).unwrap();
    let crop = crop_region(&img, CropRegion::SummaryFirst).unwrap();
    let text = encode_region(&crop).unwrap();
    let bytes = STANDARD.decode(&text).unwrap();
    assert_eq!(&bytes[..2], &[0xFF, 0xD8]);
}

#[test]
fn process_crop_rejects_bad_input() {
    assert_eq!(process_crop("%%%", CropRegion::SummaryFirst).err(), Some(PipelineError::ImageDecodeError));
}

#[test]
fn whole_rgba_frame_encodes_as_jpeg_of_its_size() {
    let frame = CapturedImage::new(8, 6, 4, vec![200; 8 * 6 * 4]).unwrap();
    let text = encode_frame(&frame).unwrap();
    let back = decode_capture(&text).unwrap();
    assert_eq!((back.width(), back.height(), back.channels()), (8, 6, 3));
}

#[test]
fn region_with_wrong_buffer_length_is_an_encode_error() {
    let crop = CroppedRegion {
        region: CropRegion::SummaryThird,
        width: 4,
        height: 4,
        pixels: vec![0; 10],
    };
    assert_eq!(encode_region(&crop).err(), Some(PipelineError::ImageEncodeError));
}

#[test]
fn empty_frame_cannot_be_a_jpeg() {
    let frame = CapturedImage::new(0, 0, 3, vec![]).unwrap();
    assert_eq!(encode_frame(&frame).err(), Some(PipelineError::ImageEncodeError));
}

#[test]
fn crop_with_a_zero_side_is_an_encode_error() {
    // at 4x3 the banner is 300 * 4 / 1920 = 0.625 -> 1 wide and 95 * 3 / 1080 = 0.26 -> 0 high
    assert_eq!(process_crop(&png_base64(4, 3), CropRegion::MissionSummary).err(), Some(PipelineError::ImageEncodeError));
}
