use mission_capture::error::PipelineError;
use mission_capture::frame::{crop_rect, crop_region, crop_regions, CapturedImage};
use mission_capture::region::{pipeline_regions, CropConfig, CropRegion};

fn value(col: u32, row: u32, c: u32) -> u8 {
    ((col * 7 + row * 13 + c * 101) % 256) as u8
}

fn frame(width: u32, height: u32, channels: u32) -> CapturedImage {
    let mut pixels = Vec::new();
    for row in 0..height {
        for col in 0..width {
            for c in 0..channels {
                pixels.push(value(col, row, c));
            }
        }
    }
    CapturedImage::new(width, height, channels, pixels).unwrap()
}

#[test]
fn new_rejects_wrong_lengths_and_channel_counts() {
    assert!(CapturedImage::new(2, 2, 3, vec![0; 11]).is_none());
    assert!(CapturedImage::new(2, 2, 2, vec![0; 8]).is_none());
    assert!(CapturedImage::new(2, 2, 4, vec![0; 16]).is_some());
    assert!(CapturedImage::new(0, 5, 3, vec![]).is_some());
}

#[test]
fn crop_of_rgba_frame_keeps_rgb_only() {
    let img = frame(192, 108, 4);
    let out = crop_region(&img, CropRegion::MissionSummary).unwrap();
    // 130 -> 13, 95 -> 9.5 -> 10, 300 -> 30, 95 -> 10
    assert_eq!((out.width, out.height), (30, 10));
    assert_eq!(out.pixels.len(), 30 * 10 * 3);
    for row in 0..10u32 {
        for col in 0..30u32 {
            for c in 0..3u32 {
                let i = ((row * 30 + col) * 3 + c) as usize;
                assert_eq!(out.pixels[i], value(13 + col, 10 + row, c));
            }
        }
    }
    assert_eq!(out.region, CropRegion::MissionSummary);
}

#[test]
fn crop_of_rgb_frame_copies_pixels() {
    let img = frame(96, 54, 3);
    let out = crop_region(&img, CropRegion::SummaryUsername).unwrap();
    // 160 -> 8, 636 -> 31.8 -> 32, 400 -> 20, 48 -> 2.4 -> 2
    assert_eq!((out.width, out.height), (20, 2));
    assert_eq!(out.pixels[0], value(8, 32, 0));
    assert_eq!(out.pixels[out.pixels.len() - 1], value(27, 33, 2));
}

#[test]
fn rectangle_past_the_right_edge_is_out_of_bounds() {
    let img = frame(192, 108, 3);
    let config = CropConfig { x: 1900, y: 0, width: 100, height: 10 };
    assert_eq!(crop_rect(&img, CropRegion::SummaryFirst, &config).unwrap_err(), PipelineError::OutOfBounds);
}

#[test]
fn rectangle_past_the_bottom_edge_is_out_of_bounds() {
    let img = frame(192, 108, 3);
    let config = CropConfig { x: 0, y: 1000, width: 10, height: 100 };
    assert_eq!(crop_rect(&img, CropRegion::SummaryFirst, &config).unwrap_err(), PipelineError::OutOfBounds);
}

#[test]
fn rectangle_reaching_the_edge_exactly_is_kept() {
    let img = frame(192, 108, 3);
    let config = CropConfig { x: 1900, y: 1060, width: 20, height: 20 };
    let out = crop_rect(&img, CropRegion::SummaryFirst, &config).unwrap();
    assert_eq!((out.width, out.height), (2, 2));
    assert_eq!(out.pixels[0], value(190, 106, 0));
}

#[test]
fn every_run_region_is_cropped_in_order() {
    let img = frame(192, 108, 3);
    let crops = crop_regions(&img, &pipeline_regions()).unwrap();
    assert_eq!(crops.len(), 6);
    for (crop, region) in crops.iter().zip(pipeline_regions()) {
        assert_eq!(crop.region, region);
    }
}

#[test]
fn empty_frame_gives_empty_crops() {
    let img = CapturedImage::new(0, 0, 3, vec![]).unwrap();
    let out = crop_region(&img, CropRegion::SummaryFirst).unwrap();
    assert_eq!((out.width, out.height), (0, 0));
    assert!(out.pixels.is_empty());
}
