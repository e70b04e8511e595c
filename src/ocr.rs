use vstd::prelude::*;

use ocrs::{ImageSource, ImageSourceError, OcrEngine, OcrEngineParams, OcrInput};
use rten::Model;

use crate::classify::{any_line_has, lowered, shows_summary, RegionLines};
use crate::codec::{decode_capture, decoded_frame};
use crate::error::PipelineError;
use crate::frame::CroppedRegion;
use crate::text::{lemma_trimmed_shorter, line_views, split_on, split_text, trim, trimmed_of};

verus! {

#[verifier::external_type_specification]
#[verifier::external_body]
pub struct ExOcrEngine(OcrEngine);

#[verifier::external_type_specification]
#[verifier::external_body]
pub struct ExOcrInput(OcrInput);

#[verifier::external_type_specification]
#[verifier::external_body]
pub struct ExModel(Model);

#[verifier::external_type_specification]
#[verifier::external_body]
pub struct ExLoadError(rten::LoadError);

#[verifier::external_type_specification]
#[verifier::external_body]
pub struct ExAnyhowError(anyhow::Error);

/// Whether `rten::Model::load` accepts these bytes as a model.
pub uninterp spec fn model_loads(data: Seq<u8>) -> bool;

/// Relies on `rten::Model::load`, which reads a model from its serialized
/// bytes; whether it succeeds depends on the bytes alone.
#[verifier::external_body]
fn load_model(data: Vec<u8>) -> (r: Result<Model, rten::LoadError>)
    ensures
        r is Ok <==> model_loads(data@),
{
    Model::load(data)
}

/// Relies on `ocrs::OcrEngine::new`, given a detection and a recognition model.
#[verifier::external_body]
fn new_engine(detection: Model, recognition: Model) -> (r: Result<OcrEngine, anyhow::Error>) {
    OcrEngine::new(
        OcrEngineParams {
            detection_model: Some(detection),
            recognition_model: Some(recognition),
            ..Default::default()
        },
    )
}

#[verifier::external_type_specification]
#[verifier::external_body]
pub struct ExImageSource<'a>(ImageSource<'a>);

#[verifier::external_type_specification]
#[verifier::external_body]
pub struct ExImageSourceError(ImageSourceError);

/// Relies on `ocrs::ImageSource::from_bytes`, which views row-major pixels of
/// 1, 3 or 4 channels; it computes `width * height` in `u32`.
#[verifier::external_body]
fn image_source<'a>(pixels: &'a [u8], width: u32, height: u32) -> (r: Result<ImageSource<'a>, ImageSourceError>)
    requires
        width * height <= u32::MAX,
{
    ImageSource::from_bytes(pixels, (width, height))
}

/// Relies on `ocrs::OcrEngine::prepare_input`, which turns the pixels into
/// the models' greyscale input.
#[verifier::external_body]
fn prepare_input(engine: &OcrEngine, source: ImageSource) -> (r: Result<OcrInput, anyhow::Error>) {
    engine.prepare_input(source)
}

/// Relies on `ocrs::OcrEngine::get_text`: it detects words, groups them into
/// lines in reading order, recognizes each line and joins the lines with `\n`.
#[verifier::external_body]
fn get_text(engine: &OcrEngine, input: &OcrInput) -> (r: Result<String, anyhow::Error>) {
    engine.get_text(input)
}

/// A recognized line is kept when, trimmed, it has at least two characters.
pub open spec fn is_kept(line: Seq<char>) -> bool {
    trimmed_of(line).len() >= 2
}

/// The lines that survive the noise filter, in order.
pub open spec fn kept_lines(lines: Seq<Seq<char>>) -> Seq<Seq<char>>
    decreases lines.len(),
{
    if lines.len() == 0 {
        Seq::<Seq<char>>::empty()
    } else if is_kept(lines.last()) {
        kept_lines(lines.drop_last()).push(lines.last())
    } else {
        kept_lines(lines.drop_last())
    }
}

/// Every line has at least two characters.
pub open spec fn no_short_lines(lines: Seq<String>) -> bool {
    forall|i: int| 0 <= i < lines.len() ==> (#[trigger] lines[i])@.len() >= 2
}

/// The noise filter never lets through a line of fewer than two characters.
pub proof fn lemma_kept_lines_not_short(lines: Seq<Seq<char>>)
    ensures
        forall|i: int| 0 <= i < kept_lines(lines).len() ==> (#[trigger] kept_lines(lines)[i]).len() >= 2,
    decreases lines.len(),
{
    if lines.len() > 0 {
        lemma_kept_lines_not_short(lines.drop_last());
        if is_kept(lines.last()) {
            lemma_trimmed_shorter(lines.last());
            let prev = kept_lines(lines.drop_last());
            assert forall|i: int| 0 <= i < kept_lines(lines).len() implies (#[trigger] kept_lines(lines)[i]).len() >= 2 by {
                if i < prev.len() {
                    assert(kept_lines(lines)[i] == prev[i]);
                }
            }
        } else {
            assert(kept_lines(lines) == kept_lines(lines.drop_last()));
        }
    }
}

/// Splits recognized text into lines and drops those that are noise: lines
/// with fewer than two characters once trimmed.
pub fn lines_from_text(text: &str) -> (r: Vec<String>)
    ensures
        line_views(r@) == kept_lines(split_on(text@, '\n')),
        no_short_lines(r@),
{
    let parts = split_text(text, '\n');
    let ghost all = split_on(text@, '\n');
    let mut out: Vec<String> = Vec::new();
    let mut i: usize = 0;
    while i < parts.len()
        invariant
            i <= parts@.len(),
            line_views(parts@) == all,
            all == split_on(text@, '\n'),
            line_views(out@) == kept_lines(all.subrange(0, i as int)),
            no_short_lines(out@),
        decreases parts@.len() - i,
    {
        let ghost prefix = all.subrange(0, i as int + 1);
        proof {
            assert(prefix.drop_last() =~= all.subrange(0, i as int));
            assert(prefix.last() == parts@[i as int]@);
        }
        let trimmed = trim(parts[i].as_str());
        if trimmed.unicode_len() >= 2 {
            let line = parts[i].clone();
            let ghost before = out@;
            proof {
                lemma_trimmed_shorter(parts@[i as int]@);
            }
            out.push(line);
            proof {
                assert(line_views(out@) =~= line_views(before).push(line@));
                assert forall|k: int| 0 <= k < out@.len() implies (#[trigger] out@[k])@.len() >= 2 by {
                    if k < before.len() {
                        assert(out@[k] == before[k]);
                    }
                }
            }
        }
        i = i + 1;
    }
    proof {
        assert(all.subrange(0, parts@.len() as int) =~= all);
    }
    out
}

/// Loads the detection and recognition models from their serialized bytes
/// and builds an engine from them. Bytes that are no model fail with
/// `ModelLoadError`; so do models that the engine cannot use.
pub fn load_engine(detection_model: Vec<u8>, recognition_model: Vec<u8>) -> (r: Result<OcrEngine, PipelineError>)
    ensures
        !(model_loads(detection_model@) && model_loads(recognition_model@)) ==> r is Err,
        r is Err ==> r->Err_0 == PipelineError::ModelLoadError,
{
    let detection = match load_model(detection_model) {
        Ok(m) => m,
        Err(_) => return Err(PipelineError::ModelLoadError),
    };
    let recognition = match load_model(recognition_model) {
        Ok(m) => m,
        Err(_) => return Err(PipelineError::ModelLoadError),
    };
    match new_engine(detection, recognition) {
        Ok(engine) => Ok(engine),
        Err(_) => Err(PipelineError::ModelLoadError),
    }
}

/// The recognized lines came from some text that the engine returned: they
/// are its lines, noise dropped.
pub open spec fn recognized_from_some_text(lines: Seq<String>) -> bool {
    exists|text: Seq<char>| line_views(lines) == #[trigger] kept_lines(split_on(text, '\n'))
}

fn recognize_pixels(engine: &OcrEngine, pixels: &[u8], width: u32, height: u32) -> (r: Result<Vec<String>, PipelineError>)
    ensures
        width * height > u32::MAX ==> r == Err::<Vec<String>, PipelineError>(PipelineError::OCRError),
        r matches Ok(lines) ==> no_short_lines(lines@) && recognized_from_some_text(lines@),
        r is Err ==> r->Err_0 == PipelineError::OCRError,
{
    assert(width * height <= 0xffff_ffff * 0xffff_ffff) by (nonlinear_arith)
        requires width <= 0xffff_ffff, height <= 0xffff_ffff;
    if (width as u64) * (height as u64) > u32::MAX as u64 {
        return Err(PipelineError::OCRError);
    }
    let source = match image_source(pixels, width, height) {
        Ok(s) => s,
        Err(_) => return Err(PipelineError::OCRError),
    };
    let input = match prepare_input(engine, source) {
        Ok(i) => i,
        Err(_) => return Err(PipelineError::OCRError),
    };
    let text = match get_text(engine, &input) {
        Ok(t) => t,
        Err(_) => return Err(PipelineError::OCRError),
    };
    let lines = lines_from_text(text.as_str());
    assert(line_views(lines@) == kept_lines(split_on(text@, '\n')));
    Ok(lines)
}

/// Runs text recognition on one cropped region. The lines come in reading
/// order, and none is shorter than two characters. A region of more than
/// `u32::MAX` pixels is refused with `OCRError`.
pub fn recognize_region(engine: &OcrEngine, region: &CroppedRegion) -> (r: Result<Vec<String>, PipelineError>)
    ensures
        region.width * region.height > u32::MAX ==> r == Err::<Vec<String>, PipelineError>(
            PipelineError::OCRError,
        ),
        r matches Ok(lines) ==> no_short_lines(lines@) && recognized_from_some_text(lines@),
        r is Err ==> r->Err_0 == PipelineError::OCRError,
{
    recognize_pixels(engine, region.pixels.as_slice(), region.width, region.height)
}

/// Runs text recognition on a whole base64-encoded image.
pub fn process_ocr(engine: &OcrEngine, base64_image: &str) -> (r: Result<Vec<String>, PipelineError>)
    ensures
        r == Err::<Vec<String>, PipelineError>(PipelineError::ImageDecodeError) <==> decoded_frame(
            base64_image@,
        ) is None,
        decoded_frame(base64_image@) matches Some(f) ==> (f.width * f.height > u32::MAX ==> r
            == Err::<Vec<String>, PipelineError>(PipelineError::OCRError)),
        r matches Ok(lines) ==> no_short_lines(lines@) && recognized_from_some_text(lines@),
        r is Err ==> r->Err_0 == PipelineError::ImageDecodeError || r->Err_0 == PipelineError::OCRError,
{
    let image = decode_capture(base64_image)?;
    recognize_pixels(engine, image.pixels().as_slice(), image.width(), image.height())
}

/// Runs text recognition on every cropped region, in order, and pairs each
/// region with its lines.
pub fn recognize_regions(engine: &OcrEngine, crops: &Vec<CroppedRegion>) -> (r: Result<Vec<RegionLines>, PipelineError>)
    ensures
        crops@.len() == 0 ==> (r matches Ok(out) && out@.len() == 0),
        r matches Ok(out) ==> out@.len() == crops@.len() && forall|i: int|
            0 <= i < crops@.len() ==> {
                &&& (#[trigger] out@[i]).region == crops@[i].region
                &&& no_short_lines(out@[i].lines@)
                &&& recognized_from_some_text(out@[i].lines@)
            },
        r is Err ==> r->Err_0 == PipelineError::OCRError,
{
    let mut out: Vec<RegionLines> = Vec::new();
    let mut i: usize = 0;
    while i < crops.len()
        invariant
            i <= crops@.len(),
            out@.len() == i,
            forall|k: int|
                0 <= k < i ==> {
                    &&& (#[trigger] out@[k]).region == crops@[k].region
                    &&& no_short_lines(out@[k].lines@)
                    &&& recognized_from_some_text(out@[k].lines@)
                },
        decreases crops@.len() - i,
    {
        let lines = recognize_region(engine, &crops[i])?;
        out.push(RegionLines { region: crops[i].region, lines });
        i = i + 1;
    }
    Ok(out)
}

/// Recognizes the first crop, the mission summary banner, then the others
/// only when the banner shows the summary; otherwise their work is skipped.
pub fn recognize_gated(engine: &OcrEngine, crops: &Vec<CroppedRegion>) -> (r: Result<Vec<RegionLines>, PipelineError>)
    ensures
        crops@.len() == 0 ==> (r matches Ok(out) && out@.len() == 0),
        r matches Ok(out) ==> {
            &&& crops@.len() == 0 ==> out@.len() == 0
            &&& crops@.len() > 0 ==> out@.len() == if any_line_has(
                lowered(line_views(out@[0].lines@)),
                "mission summary"@,
            ) {
                crops@.len()
            } else {
                1
            }
            &&& forall|i: int|
                0 <= i < out@.len() ==> {
                    &&& (#[trigger] out@[i]).region == crops@[i].region
                    &&& no_short_lines(out@[i].lines@)
                    &&& recognized_from_some_text(out@[i].lines@)
                }
        },
        r is Err ==> r->Err_0 == PipelineError::OCRError,
{
    let mut out: Vec<RegionLines> = Vec::new();
    if crops.len() == 0 {
        return Ok(out);
    }
    let banner = recognize_region(engine, &crops[0])?;
    let go_on = shows_summary(&banner);
    out.push(RegionLines { region: crops[0].region, lines: banner });
    if !go_on {
        return Ok(out);
    }
    let mut i: usize = 1;
    while i < crops.len()
        invariant
            1 <= i <= crops@.len(),
            out@.len() == i,
            any_line_has(lowered(line_views(out@[0].lines@)), "mission summary"@),
            forall|k: int|
                0 <= k < i ==> {
                    &&& (#[trigger] out@[k]).region == crops@[k].region
                    &&& no_short_lines(out@[k].lines@)
                    &&& recognized_from_some_text(out@[k].lines@)
                },
        decreases crops@.len() - i,
    {
        let lines = recognize_region(engine, &crops[i])?;
        out.push(RegionLines { region: crops[i].region, lines });
        i = i + 1;
    }
    Ok(out)
}

} // verus!
