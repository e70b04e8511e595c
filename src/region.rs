use vstd::prelude::*;

verus! {

/// Width of the reference frame that regions are written against.
pub const REFERENCE_WIDTH: u32 = 1920;

/// Height of the reference frame that regions are written against.
pub const REFERENCE_HEIGHT: u32 = 1080;

/// The named areas of the mission summary screen.
#[derive(Debug, Clone, Copy, PartialEq, Eq, Structural)]
pub enum CropRegion {
    MissionSummary,
    SummaryFirst,
    SummarySecond,
    SummaryThird,
    SummaryFourth,
    SummaryUsername,
}

/// A rectangle in pixels: left edge, top edge, width and height.
#[derive(Debug, Clone, Copy, PartialEq, Eq, Structural)]
pub struct CropConfig {
    pub x: u32,
    pub y: u32,
    pub width: u32,
    pub height: u32,
}

/// The region table, against the 1920x1080 reference frame.
pub open spec fn region_rect(region: CropRegion) -> CropConfig {
    match region {
        CropRegion::MissionSummary => CropConfig { x: 130, y: 95, width: 300, height: 95 },
        CropRegion::SummaryFirst => CropConfig { x: 219, y: 200, width: 335, height: 90 },
        CropRegion::SummarySecond => CropConfig { x: 616, y: 200, width: 356, height: 90 },
        CropRegion::SummaryThird => CropConfig { x: 219, y: 300, width: 335, height: 90 },
        CropRegion::SummaryFourth => CropConfig { x: 616, y: 300, width: 356, height: 90 },
        CropRegion::SummaryUsername => CropConfig { x: 160, y: 636, width: 400, height: 48 },
    }
}

/// A rectangle lies inside the reference frame.
pub open spec fn within_reference(c: CropConfig) -> bool {
    c.x + c.width <= REFERENCE_WIDTH && c.y + c.height <= REFERENCE_HEIGHT
}

/// `num / den` rounded to the nearest integer, halves away from zero.
pub open spec fn round_div(num: nat, den: nat) -> nat
    recommends
        den > 0,
{
    ((2 * num + den) / (2 * den)) as nat
}

/// `round_div(num, den)` is the integer nearest to `num / den`, a half going
/// up: `r - 1/2 <= num / den < r + 1/2`.
pub proof fn lemma_round_div_is_nearest(num: nat, den: nat)
    requires
        den > 0,
    ensures
        2 * den * round_div(num, den) <= 2 * num + den,
        2 * num + den < 2 * den * (round_div(num, den) + 1),
{
    let n = (2 * num + den) as int;
    let d = (2 * den) as int;
    vstd::arithmetic::div_mod::lemma_fundamental_div_mod(n, d);
    vstd::arithmetic::div_mod::lemma_mod_bound(n, d);
    let q = n / d;
    assert(d * q <= n < d * (q + 1)) by (nonlinear_arith)
        requires n == d * q + n % d, 0 <= n % d < d;
}

/// `v * actual / reference`, rounded to the nearest integer.
pub open spec fn scale(v: nat, actual: nat, reference: nat) -> nat {
    round_div(v * actual, reference)
}

/// The rectangle `c`, written against the reference frame, scaled to a frame
/// of `width` by `height` pixels.
pub open spec fn scaled_rect(c: CropConfig, width: nat, height: nat) -> (nat, nat, nat, nat) {
    (
        scale(c.x as nat, width, REFERENCE_WIDTH as nat),
        scale(c.y as nat, height, REFERENCE_HEIGHT as nat),
        scale(c.width as nat, width, REFERENCE_WIDTH as nat),
        scale(c.height as nat, height, REFERENCE_HEIGHT as nat),
    )
}

/// Every coordinate of the scaled rectangle fits in a `u32`.
pub open spec fn scaled_fits(c: CropConfig, width: nat, height: nat) -> bool {
    let (x, y, w, h) = scaled_rect(c, width, height);
    x <= u32::MAX && y <= u32::MAX && w <= u32::MAX && h <= u32::MAX
}

/// Looks a region up in the region table.
pub fn get_crop_config(region: CropRegion) -> (r: CropConfig)
    ensures
        r == region_rect(region),
        within_reference(r),
{
    match region {
        CropRegion::MissionSummary => CropConfig { x: 130, y: 95, width: 300, height: 95 },
        CropRegion::SummaryFirst => CropConfig { x: 219, y: 200, width: 335, height: 90 },
        CropRegion::SummarySecond => CropConfig { x: 616, y: 200, width: 356, height: 90 },
        CropRegion::SummaryThird => CropConfig { x: 219, y: 300, width: 335, height: 90 },
        CropRegion::SummaryFourth => CropConfig { x: 616, y: 300, width: 356, height: 90 },
        CropRegion::SummaryUsername => CropConfig { x: 160, y: 636, width: 400, height: 48 },
    }
}

/// `scale`, computed without overflow.
pub fn scale_wide(v: u32, actual: u32, reference: u32) -> (r: u128)
    requires
        reference > 0,
    ensures
        r == scale(v as nat, actual as nat, reference as nat),
        r <= u64::MAX,
{
    assert(v * actual <= 0xffff_ffff * 0xffff_ffff) by (nonlinear_arith)
        requires v <= 0xffff_ffff, actual <= 0xffff_ffff;
    let product: u128 = v as u128 * actual as u128;
    let num: u128 = 2 * product + reference as u128;
    let den: u128 = 2 * reference as u128;
    assert(num / den <= num / 2) by {
        vstd::arithmetic::div_mod::lemma_div_is_ordered_by_denominator(num as int, 2, den as int);
    }
    num / den
}

fn scale_coordinate(v: u32, actual: u32, reference: u32) -> (r: u32)
    requires
        reference > 0,
        scale(v as nat, actual as nat, reference as nat) <= u32::MAX,
    ensures
        r == scale(v as nat, actual as nat, reference as nat),
{
    scale_wide(v, actual, reference) as u32
}

/// Scales a rectangle written against the 1920x1080 reference frame to a frame
/// of `frame_width` by `frame_height` pixels, rounding each coordinate
/// to the nearest pixel.
pub fn calculate_proportional_dimensions(
    frame_width: u32,
    frame_height: u32,
    config: &CropConfig,
) -> (r: (u32, u32, u32, u32))
    requires
        scaled_fits(*config, frame_width as nat, frame_height as nat),
    ensures
        (r.0 as nat, r.1 as nat, r.2 as nat, r.3 as nat)
            == scaled_rect(*config, frame_width as nat, frame_height as nat),
{
    let new_x = scale_coordinate(config.x, frame_width, REFERENCE_WIDTH);
    let new_y = scale_coordinate(config.y, frame_height, REFERENCE_HEIGHT);
    let new_width = scale_coordinate(config.width, frame_width, REFERENCE_WIDTH);
    let new_height = scale_coordinate(config.height, frame_height, REFERENCE_HEIGHT);
    (new_x, new_y, new_width, new_height)
}

/// Scaling to the reference frame itself leaves every rectangle unchanged.
pub proof fn lemma_reference_scale_is_identity(c: CropConfig)
    ensures
        scaled_rect(c, REFERENCE_WIDTH as nat, REFERENCE_HEIGHT as nat)
            == (c.x as nat, c.y as nat, c.width as nat, c.height as nat),
{
    assert forall|v: nat, r: nat| r > 0 implies #[trigger] scale(v, r, r) == v by {
        assert((2 * (v * r) + r) / (2 * r) == v) by (nonlinear_arith)
            requires r > 0;
    }
}

/// The regions read in one run, the mission summary banner first so that it
/// is cropped before any other.
pub open spec fn run_regions() -> Seq<CropRegion> {
    seq![
        CropRegion::MissionSummary,
        CropRegion::SummaryFirst,
        CropRegion::SummarySecond,
        CropRegion::SummaryThird,
        CropRegion::SummaryFourth,
        CropRegion::SummaryUsername,
    ]
}

/// The regions read in one run, the mission summary banner first.
pub fn pipeline_regions() -> (r: Vec<CropRegion>)
    ensures
        r@ == run_regions(),
{
    let r = vec![
        CropRegion::MissionSummary,
        CropRegion::SummaryFirst,
        CropRegion::SummarySecond,
        CropRegion::SummaryThird,
        CropRegion::SummaryFourth,
        CropRegion::SummaryUsername,
    ];
    assert(r@ =~= run_regions());
    r
}

} // verus!
