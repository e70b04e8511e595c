use vstd::prelude::*;

use crate::error::PipelineError;
use crate::region::{
    get_crop_config, region_rect, scale_wide, scaled_rect, CropConfig, CropRegion, REFERENCE_HEIGHT,
    REFERENCE_WIDTH,
};

verus! {

/// Position of channel `c` of the pixel at (`col`, `row`) in a row-major
/// buffer of `width` pixels per row and `channels` bytes per pixel.
pub open spec fn offset(width: int, channels: int, col: int, row: int, c: int) -> int {
    (row * width + col) * channels + c
}

proof fn lemma_offset_bounds(width: int, height: int, channels: int, col: int, row: int, c: int)
    requires
        0 <= col < width,
        0 <= row < height,
        0 <= c < channels,
    ensures
        0 <= offset(width, channels, col, row, c) < width * height * channels,
{
    assert(0 <= (row * width + col) * channels + c < width * height * channels) by (nonlinear_arith)
        requires 0 <= col < width, 0 <= row < height, 0 <= c < channels;
}

proof fn lemma_offset_before(width: int, channels: int, col: int, row: int, c: int, i: int, j: int)
    requires
        0 <= col < width,
        0 <= row,
        0 <= c < channels,
        0 <= i <= width,
        row < j || (row == j && col < i),
    ensures
        0 <= offset(width, channels, col, row, c) < (j * width + i) * channels,
{
    assert(0 <= (row * width + col) * channels + c < (j * width + i) * channels) by (nonlinear_arith)
        requires
            0 <= col < width, 0 <= row, 0 <= c < channels, 0 <= i <= width,
            row < j || (row == j && col < i);
}

/// What a frame holds: `width` by `height` pixels, row-major, `channels`
/// bytes per pixel.
pub struct FrameModel {
    pub width: nat,
    pub height: nat,
    pub channels: nat,
    pub pixels: Seq<u8>,
}

impl FrameModel {
    /// Channel `c` of the pixel at (`col`, `row`).
    pub open spec fn sample(self, col: int, row: int, c: int) -> u8 {
        self.pixels[offset(self.width as int, self.channels as int, col, row, c)]
    }
}

/// A captured frame, with 3 (RGB) or 4 (RGBA) bytes per pixel.
pub struct CapturedImage {
    width: u32,
    height: u32,
    channels: u32,
    pixels: Vec<u8>,
}

impl View for CapturedImage {
    type V = FrameModel;

    closed spec fn view(&self) -> FrameModel {
        FrameModel {
            width: self.width as nat,
            height: self.height as nat,
            channels: self.channels as nat,
            pixels: self.pixels@,
        }
    }
}

impl CapturedImage {
    #[verifier::type_invariant]
    spec fn well_formed(&self) -> bool {
        &&& self.channels == 3 || self.channels == 4
        &&& self.pixels@.len() == self.width * self.height * self.channels
    }

    /// Wraps a pixel buffer; `None` unless `channels` is 3 or 4 and the buffer
    /// holds exactly `width * height * channels` bytes.
    pub fn new(width: u32, height: u32, channels: u32, pixels: Vec<u8>) -> (r: Option<Self>)
        ensures
            r is Some <==> ((channels == 3 || channels == 4) && pixels@.len() == width * height
                * channels),
            r matches Some(img) ==> img@ == (FrameModel {
                width: width as nat,
                height: height as nat,
                channels: channels as nat,
                pixels: pixels@,
            }),
    {
        if channels != 3 && channels != 4 {
            return None;
        }
        assert(width * height <= 0xffff_ffff * 0xffff_ffff) by (nonlinear_arith)
            requires width <= 0xffff_ffff, height <= 0xffff_ffff;
        let expected: u128 = (width as u128) * (height as u128) * (channels as u128);
        if pixels.len() as u128 != expected {
            return None;
        }
        Some(CapturedImage { width, height, channels, pixels })
    }

    pub fn width(&self) -> (r: u32)
        ensures
            r == self@.width,
    {
        self.width
    }

    pub fn height(&self) -> (r: u32)
        ensures
            r == self@.height,
    {
        self.height
    }

    pub fn channels(&self) -> (r: u32)
        ensures
            r == self@.channels,
    {
        self.channels
    }

    pub fn pixels(&self) -> (r: &Vec<u8>)
        ensures
            r@ == self@.pixels,
    {
        &self.pixels
    }
}

/// One region cut out of a captured frame: `width` by `height` RGB pixels.
#[derive(Debug)]
pub struct CroppedRegion {
    pub region: CropRegion,
    pub width: u32,
    pub height: u32,
    pub pixels: Vec<u8>,
}

/// The rectangle `config` scaled to the frame.
pub open spec fn config_rect(frame: FrameModel, config: CropConfig) -> (nat, nat, nat, nat) {
    scaled_rect(config, frame.width, frame.height)
}

/// The rectangle of `region` scaled to the frame.
pub open spec fn frame_rect(frame: FrameModel, region: CropRegion) -> (nat, nat, nat, nat) {
    config_rect(frame, region_rect(region))
}

/// The scaled rectangle `(x, y, w, h)` lies inside the frame.
pub open spec fn rect_inside(frame: FrameModel, rect: (nat, nat, nat, nat)) -> bool {
    rect.0 + rect.2 <= frame.width && rect.1 + rect.3 <= frame.height
}

/// `out` holds, row-major and three bytes per pixel, the RGB channels of the
/// `w` by `h` pixels of `image` whose top-left corner is (`x`, `y`).
pub open spec fn is_rgb_crop(frame: FrameModel, x: nat, y: nat, w: nat, h: nat, out: Seq<u8>) -> bool {
    &&& out.len() == w * h * 3
    &&& forall|col: int, row: int, c: int|
        0 <= col < w && 0 <= row < h && 0 <= c < 3 ==> out[#[trigger] offset(w as int, 3, col, row, c)]
            == frame.sample(x + col, y + row, c)
}

/// Copies the RGB channels of a rectangle that lies inside the frame into a
/// new buffer; an alpha channel is dropped.
pub fn copy_rgb_rect(image: &CapturedImage, x: u32, y: u32, w: u32, h: u32) -> (r: Vec<u8>)
    requires
        x + w <= image@.width,
        y + h <= image@.height,
    ensures
        is_rgb_crop(image@, x as nat, y as nat, w as nat, h as nat, r@),
{
    proof {
        use_type_invariant(image);
    }
    let fw = image.width as usize;
    let fh = image.height as usize;
    let ch = image.channels as usize;
    let total = image.pixels.len();
    let mut out: Vec<u8> = Vec::new();
    let mut row: u32 = 0;
    while row < h
        invariant
            row <= h,
            x + w <= fw,
            y + h <= fh,
            fw == image@.width,
            fh == image@.height,
            ch == image@.channels,
            ch == 3 || ch == 4,
            image@.pixels.len() == fw * fh * ch,
            total == fw * fh * ch,
            out@.len() == (row * w) * 3,
            forall|col: int, rr: int, c: int|
                0 <= col < w && 0 <= rr < row && 0 <= c < 3 ==> out@[#[trigger] offset(w as int, 3, col, rr, c)]
                    == image@.sample(x + col, y + rr, c),
        decreases h - row,
    {
        let mut col: u32 = 0;
        while col < w
            invariant
                row < h,
                col <= w,
                x + w <= fw,
                y + h <= fh,
                fw == image@.width,
                fh == image@.height,
                ch == image@.channels,
                ch == 3 || ch == 4,
                image@.pixels.len() == fw * fh * ch,
                total == fw * fh * ch,
                out@.len() == (row * w + col) * 3,
                forall|cc: int, rr: int, c: int|
                    0 <= cc < w && 0 <= rr && 0 <= c < 3 && (rr < row || (rr == row && cc < col))
                        ==> out@[#[trigger] offset(w as int, 3, cc, rr, c)]
                        == image@.sample(x + cc, y + rr, c),
            decreases w - col,
        {
            let sx = (x + col) as usize;
            let sy = (y + row) as usize;
            proof {
                lemma_offset_bounds(fw as int, fh as int, ch as int, sx as int, sy as int, 0);
                lemma_offset_bounds(fw as int, fh as int, ch as int, sx as int, sy as int, 2);
                assert(sy * fw <= sy * fw + sx);
                assert((sy * fw + sx) * ch + 2 < fw * fh * ch) by (nonlinear_arith)
                    requires sx < fw, sy < fh, ch >= 3;
            }
            let base: usize = (sy * fw + sx) * ch;
            let ghost before = out@;
            out.push(image.pixels[base]);
            out.push(image.pixels[base + 1]);
            out.push(image.pixels[base + 2]);
            proof {
                assert forall|cc: int, rr: int, c: int|
                    0 <= cc < w && 0 <= rr && 0 <= c < 3 && (rr < row || (rr == row && cc < col + 1))
                        implies out@[#[trigger] offset(w as int, 3, cc, rr, c)]
                        == image@.sample(x + cc, y + rr, c) by {
                    if rr < row || (rr == row && cc < col) {
                        lemma_offset_before(w as int, 3, cc, rr, c, col as int, row as int);
                        assert(out@[offset(w as int, 3, cc, rr, c)] == before[offset(w as int, 3, cc, rr, c)]);
                    } else {
                        assert(offset(w as int, 3, cc, rr, c) == before.len() + c);
                    }
                }
            }
            col = col + 1;
        }
        proof {
            assert((row * w + w) * 3 == ((row + 1) * w) * 3) by (nonlinear_arith);
        }
        row = row + 1;
    }
    assert((h * w) * 3 == w * h * 3) by (nonlinear_arith);
    out
}

/// Cuts the rectangle `config`, written against the reference frame and
/// scaled to the frame's size, out of `image`, tagging the result `region`.
///
/// Fails with `OutOfBounds`, before copying anything, when the scaled
/// rectangle reaches past the frame's right or bottom edge.
pub fn crop_rect(image: &CapturedImage, region: CropRegion, config: &CropConfig) -> (r: Result<CroppedRegion, PipelineError>)
    ensures
        r is Err <==> !rect_inside(image@, config_rect(image@, *config)),
        r is Err ==> r->Err_0 == PipelineError::OutOfBounds,
        r matches Ok(out) ==> {
            let (x, y, w, h) = config_rect(image@, *config);
            &&& out.region == region
            &&& out.width == w
            &&& out.height == h
            &&& is_rgb_crop(image@, x, y, w, h, out.pixels@)
        },
{
    let width = image.width();
    let height = image.height();
    let x = scale_wide(config.x, width, REFERENCE_WIDTH);
    let y = scale_wide(config.y, height, REFERENCE_HEIGHT);
    let w = scale_wide(config.width, width, REFERENCE_WIDTH);
    let h = scale_wide(config.height, height, REFERENCE_HEIGHT);
    if x + w > width as u128 || y + h > height as u128 {
        return Err(PipelineError::OutOfBounds);
    }
    let pixels = copy_rgb_rect(image, x as u32, y as u32, w as u32, h as u32);
    Ok(CroppedRegion { region, width: w as u32, height: h as u32, pixels })
}

/// Cuts `region`, looked up in the region table and scaled to the frame's
/// size, out of `image`.
///
/// Fails with `OutOfBounds`, before copying anything, when the scaled
/// rectangle reaches past the frame's right or bottom edge.
pub fn crop_region(image: &CapturedImage, region: CropRegion) -> (r: Result<CroppedRegion, PipelineError>)
    ensures
        r is Err <==> !rect_inside(image@, frame_rect(image@, region)),
        r is Err ==> r->Err_0 == PipelineError::OutOfBounds,
        r matches Ok(out) ==> {
            let (x, y, w, h) = frame_rect(image@, region);
            &&& out.region == region
            &&& out.width == w
            &&& out.height == h
            &&& is_rgb_crop(image@, x, y, w, h, out.pixels@)
        },
{
    let config = get_crop_config(region);
    crop_rect(image, region, &config)
}

/// `out` is the crop of `region` from `frame`.
pub open spec fn is_region_crop(frame: FrameModel, region: CropRegion, out: CroppedRegion) -> bool {
    let (x, y, w, h) = frame_rect(frame, region);
    &&& rect_inside(frame, (x, y, w, h))
    &&& out.region == region
    &&& out.width == w
    &&& out.height == h
    &&& is_rgb_crop(frame, x, y, w, h, out.pixels@)
}

/// Crops every region of `regions`, in order. Fails with `OutOfBounds` at the
/// first region whose scaled rectangle leaves the frame.
pub fn crop_regions(image: &CapturedImage, regions: &Vec<CropRegion>) -> (r: Result<Vec<CroppedRegion>, PipelineError>)
    ensures
        r matches Ok(crops) ==> crops@.len() == regions@.len() && forall|i: int|
            0 <= i < regions@.len() ==> is_region_crop(image@, #[trigger] regions@[i], crops@[i]),
        r is Err <==> exists|i: int|
            0 <= i < regions@.len() && !rect_inside(image@, frame_rect(image@, #[trigger] regions@[i])),
        r is Err ==> r->Err_0 == PipelineError::OutOfBounds,
{
    let mut crops: Vec<CroppedRegion> = Vec::new();
    let mut i: usize = 0;
    while i < regions.len()
        invariant
            i <= regions@.len(),
            crops@.len() == i,
            forall|k: int| 0 <= k < i ==> is_region_crop(image@, #[trigger] regions@[k], crops@[k]),
        decreases regions@.len() - i,
    {
        let c = match crop_region(image, regions[i]) {
            Ok(c) => c,
            Err(e) => {
                assert(!rect_inside(image@, frame_rect(image@, regions@[i as int])));
                return Err(e);
            },
        };
        crops.push(c);
        i = i + 1;
    }
    proof {
        assert forall|k: int| 0 <= k < regions@.len() implies rect_inside(
            image@,
            frame_rect(image@, #[trigger] regions@[k]),
        ) by {
            assert(is_region_crop(image@, regions@[k], crops@[k]));
        }
    }
    Ok(crops)
}

} // verus!
