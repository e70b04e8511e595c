use mission_capture::region::{
    calculate_proportional_dimensions, get_crop_config, pipeline_regions, scale_wide, CropConfig,
    CropRegion,
};

#[test]
fn table_holds_mission_summary_banner() {
    let c = get_crop_config(CropRegion::MissionSummary);
    assert_eq!(c, CropConfig { x: 130, y: 95, width: 300, height: 95 });
}

#[test]
fn table_holds_username_banner() {
    let c = get_crop_config(CropRegion::SummaryUsername);
    assert_eq!(c, CropConfig { x: 160, y: 636, width: 400, height: 48 });
}

#[test]
fn table_holds_stat_slots() {
    assert_eq!(get_crop_config(CropRegion::SummaryFirst), CropConfig { x: 219, y: 200, width: 335, height: 90 });
    assert_eq!(get_crop_config(CropRegion::SummarySecond), CropConfig { x: 616, y: 200, width: 356, height: 90 });
    assert_eq!(get_crop_config(CropRegion::SummaryThird), CropConfig { x: 219, y: 300, width: 335, height: 90 });
    assert_eq!(get_crop_config(CropRegion::SummaryFourth), CropConfig { x: 616, y: 300, width: 356, height: 90 });
}

#[test]
fn reference_frame_scaling_is_identity() {
    for region in pipeline_regions() {
        let c = get_crop_config(region);
        assert_eq!(calculate_proportional_dimensions(1920, 1080, &c), (c.x, c.y, c.width, c.height));
    }
}

#[test]
fn double_resolution_doubles_every_coordinate() {
    let c = get_crop_config(CropRegion::SummaryFirst);
    assert_eq!(calculate_proportional_dimensions(3840, 2160, &c), (438, 400, 670, 180));
}

#[test]
fn smaller_frame_rounds_to_nearest_pixel() {
    let c = get_crop_config(CropRegion::MissionSummary);
    // 130 * 1280 / 1920 = 86.67, 95 * 720 / 1080 = 63.33, 300 * 1280 / 1920 = 200
    assert_eq!(calculate_proportional_dimensions(1280, 720, &c), (87, 63, 200, 63));
}

#[test]
fn halves_round_away_from_zero() {
    let c = CropConfig { x: 131, y: 1, width: 1, height: 3 };
    // 131 * 960 / 1920 = 65.5, 1 * 540 / 1080 = 0.5, 1 * 960 / 1920 = 0.5, 3 * 540 / 1080 = 1.5
    assert_eq!(calculate_proportional_dimensions(960, 540, &c), (66, 1, 1, 2));
}

#[test]
fn scale_wide_handles_the_largest_inputs() {
    let r = scale_wide(u32::MAX, u32::MAX, 1920);
    let exact = (2 * (u32::MAX as u128) * (u32::MAX as u128) + 1920) / 3840;
    assert_eq!(r, exact);
}

#[test]
fn run_regions_start_with_the_banner() {
    let regions = pipeline_regions();
    assert_eq!(regions.len(), 6);
    assert_eq!(regions[0], CropRegion::MissionSummary);
    assert_eq!(regions[1], CropRegion::SummaryFirst);
}
