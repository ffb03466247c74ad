//! One screenshot from pixels to fields: locate, select, recognise, parse.
use vstd::prelude::*;
use crate::locator::{find_all_icons, positions_of, IconTemplates};
use crate::parser::{
    count_of, exp_of, gauge_of, level_of, meso_of, parse_exp, parse_level, parse_meso,
    parse_sol_erda_count, parse_sol_erda_gauge, parse_sol_erda_piece, piece_of,
};
use crate::raster::{crop, crop_model, fits, resized, scale, Raster, RasterModel, Resample};
use crate::regions::{baseline, config_of, crop_regions, CroppedRegions, ImageDimensions};
use crate::types::{HuntingScreenshotData, OcrError};

verus! {

/// A text recognition backend. One call per region; a failed call leaves
/// that field absent and the rest of the analysis goes on.
pub trait TextRecognizer {
    fn recognize(&mut self, image: &Raster) -> Result<String, OcrError>;
}

/// The text recognised in each region; `None` where there was no region or
/// recognition failed.
pub struct RegionTexts {
    pub level: Option<String>,
    pub exp: Option<String>,
    pub meso: Option<String>,
    pub sol_erda: Option<String>,
    pub sol_erda_piece: Option<String>,
}

pub open spec fn to_i32(v: Option<nat>) -> Option<i32> {
    match v {
        Some(n) => Some(n as i32),
        None => None,
    }
}

pub open spec fn to_u32(v: Option<nat>) -> Option<u32> {
    match v {
        Some(n) => Some(n as u32),
        None => None,
    }
}

pub open spec fn to_i64(v: Option<nat>) -> Option<i64> {
    match v {
        Some(n) => Some(n as i64),
        None => None,
    }
}

pub open spec fn parsed(t: Option<String>, f: spec_fn(Seq<char>) -> Option<nat>) -> Option<nat> {
    match t {
        Some(s) => f(s@),
        None => None,
    }
}

/// The fields that the parsers read from `t`; the counter and the gauge
/// both come from the counter region's text.
pub open spec fn fields_of(t: RegionTexts) -> HuntingScreenshotData {
    HuntingScreenshotData {
        level: to_i32(parsed(t.level, |s| level_of(s))),
        exp_percent: to_u32(parsed(t.exp, |s| exp_of(s))),
        meso: to_i64(parsed(t.meso, |s| meso_of(s))),
        sol_erda_count: to_i32(parsed(t.sol_erda, |s| count_of(s))),
        sol_erda_gauge: to_i32(parsed(t.sol_erda, |s| gauge_of(s))),
        sol_erda_piece: to_i64(parsed(t.sol_erda_piece, |s| piece_of(s))),
    }
}

/// Parses the text of each region into its field.
pub fn fields_from_texts(texts: &RegionTexts) -> (r: HuntingScreenshotData)
    ensures
        r == fields_of(*texts),
        r.wf(),
{
    let level = match &texts.level {
        Some(s) => parse_level(s.as_str()),
        None => None,
    };
    let exp_percent = match &texts.exp {
        Some(s) => parse_exp(s.as_str()),
        None => None,
    };
    let meso = match &texts.meso {
        Some(s) => parse_meso(s.as_str()),
        None => None,
    };
    let (sol_erda_count, sol_erda_gauge) = match &texts.sol_erda {
        Some(s) => (parse_sol_erda_count(s.as_str()), parse_sol_erda_gauge(s.as_str())),
        None => (None, None),
    };
    let sol_erda_piece = match &texts.sol_erda_piece {
        Some(s) => parse_sol_erda_piece(s.as_str()),
        None => None,
    };
    HuntingScreenshotData {
        level,
        exp_percent,
        meso,
        sol_erda_count,
        sol_erda_gauge,
        sol_erda_piece,
    }
}

/// Regions are enlarged this many times before recognition.
pub const RECOGNITION_SCALE: u32 = 3;

/// What a region becomes before recognition: enlarged `RECOGNITION_SCALE`
/// times with the smooth filter, as small text reads better larger; an
/// empty region, or one too large to enlarge, is an unchanged copy.
pub open spec fn enlarged(m: RasterModel) -> RasterModel {
    if m.width == 0 || m.height == 0 || m.width > u32::MAX / RECOGNITION_SCALE || m.height
        > u32::MAX / RECOGNITION_SCALE {
        crop_model(m, 0, 0, m.width, m.height)
    } else {
        resized(
            m,
            m.width * RECOGNITION_SCALE as nat,
            m.height * RECOGNITION_SCALE as nat,
            Resample::Smooth,
        )
    }
}

pub fn enlarge(region: &Raster) -> (r: Raster)
    requires
        region@.wf(),
    ensures
        r@ == enlarged(region@),
        r@.wf(),
{
    let w = region.width();
    let h = region.height();
    if w == 0 || h == 0 || w > u32::MAX / RECOGNITION_SCALE || h > u32::MAX / RECOGNITION_SCALE {
        return crop(region, 0, 0, w, h);
    }
    scale(region, w * RECOGNITION_SCALE, h * RECOGNITION_SCALE, Resample::Smooth)
}

pub open spec fn model_of(r: Option<Raster>) -> Option<RasterModel> {
    match r {
        Some(c) => Some(c@),
        None => None,
    }
}

/// The `w` × `h` region of `img` at (`x`, `y`), enlarged for recognition;
/// `None` when it does not lie inside the image.
pub open spec fn region_input(img: RasterModel, x: int, y: int, w: int, h: int) -> Option<
    RasterModel,
> {
    if fits(img, x, y, w, h) {
        Some(enlarged(crop_model(img, x as nat, y as nat, w as nat, h as nat)))
    } else {
        None
    }
}

/// The region placed by `off` from the icon at `anchor`, enlarged for
/// recognition; `None` without an anchor or outside the image.
pub open spec fn anchored_input(
    img: RasterModel,
    anchor: Option<(u32, u32)>,
    off: (i64, i64, u64, u64),
) -> Option<RasterModel> {
    match anchor {
        None => None,
        Some((x, y)) => region_input(img, x + off.0, y + off.1, off.2 as int, off.3 as int),
    }
}

pub open spec fn all_wf(r: CroppedRegions) -> bool {
    &&& (r.level matches Some(c) ==> c@.wf())
    &&& (r.exp matches Some(c) ==> c@.wf())
    &&& (r.meso matches Some(c) ==> c@.wf())
    &&& (r.sol_erda matches Some(c) ==> c@.wf())
    &&& (r.sol_erda_piece matches Some(c) ==> c@.wf())
}

fn enlarge_opt(region: Option<Raster>) -> (r: Option<Raster>)
    requires
        region matches Some(c) ==> c@.wf(),
    ensures
        model_of(r) == match model_of(region) {
            Some(m) => Some(enlarged(m)),
            None => None,
        },
        r matches Some(c) ==> c@.wf(),
{
    match region {
        Some(c) => Some(enlarge(&c)),
        None => None,
    }
}

/// The rasters handed to the recognizer, one per field: the fixed regions
/// and the regions next to each located icon, each enlarged; `None` where
/// there is no region.
pub fn recognition_regions(image: &Raster, templates: &IconTemplates) -> (r: CroppedRegions)
    requires
        image@.wf(),
        templates.wf(),
    ensures
        all_wf(r),
        ({
            let c = config_of(baseline(), ImageDimensions { width: image@.width as u32, height: image@.height as u32 });
            let p = positions_of(image@, *templates);
            &&& model_of(r.level) == region_input(image@, c.level.0 as int, c.level.1 as int, c.level.2 as int, c.level.3 as int)
            &&& model_of(r.exp) == region_input(image@, c.exp_bar.0 as int, c.exp_bar.1 as int, c.exp_bar.2 as int, c.exp_bar.3 as int)
            &&& model_of(r.meso) == anchored_input(image@, p.meso, c.meso_offset)
            &&& model_of(r.sol_erda) == anchored_input(image@, p.sol_erda, c.sol_erda_offset)
            &&& model_of(r.sol_erda_piece) == anchored_input(image@, p.sol_erda_piece, c.sol_erda_piece_offset)
        }),
{
    let positions = find_all_icons(image, templates);
    let regions = crop_regions(image, &positions);
    CroppedRegions {
        level: enlarge_opt(regions.level),
        exp: enlarge_opt(regions.exp),
        meso: enlarge_opt(regions.meso),
        sol_erda: enlarge_opt(regions.sol_erda),
        sol_erda_piece: enlarge_opt(regions.sol_erda_piece),
    }
}

fn recognize_opt<R: TextRecognizer>(ocr: &mut R, region: &Option<Raster>) -> (r: Option<String>)
    ensures
        region is None ==> r is None,
{
    match region {
        Some(img) => match ocr.recognize(img) {
            Ok(text) => Some(text),
            Err(_) => None,
        },
        None => None,
    }
}

/// Analyses one screenshot: each raster of `recognition_regions` is handed
/// to `ocr` once, in field order, and the texts that come back are parsed.
/// Whatever the backend returns, the result is that parse of some texts,
/// and a field without a region (outside the image, or no located icon) is
/// absent.
pub fn analyze_screenshot<R: TextRecognizer>(
    image: &Raster,
    templates: &IconTemplates,
    ocr: &mut R,
) -> (r: HuntingScreenshotData)
    requires
        image@.wf(),
        templates.wf(),
    ensures
        r.wf(),
        exists|t: RegionTexts| r == fields_of(t),
        ({
            let c = config_of(baseline(), ImageDimensions { width: image@.width as u32, height: image@.height as u32 });
            let p = positions_of(image@, *templates);
            &&& region_input(image@, c.level.0 as int, c.level.1 as int, c.level.2 as int, c.level.3 as int) is None ==> r.level is None
            &&& region_input(image@, c.exp_bar.0 as int, c.exp_bar.1 as int, c.exp_bar.2 as int, c.exp_bar.3 as int) is None ==> r.exp_percent is None
            &&& anchored_input(image@, p.meso, c.meso_offset) is None ==> r.meso is None
            &&& anchored_input(image@, p.sol_erda, c.sol_erda_offset) is None ==> r.sol_erda_count is None && r.sol_erda_gauge is None
            &&& anchored_input(image@, p.sol_erda_piece, c.sol_erda_piece_offset) is None ==> r.sol_erda_piece is None
        }),
{
    let regions = recognition_regions(image, templates);
    let texts = RegionTexts {
        level: recognize_opt(ocr, &regions.level),
        exp: recognize_opt(ocr, &regions.exp),
        meso: recognize_opt(ocr, &regions.meso),
        sol_erda: recognize_opt(ocr, &regions.sol_erda),
        sol_erda_piece: recognize_opt(ocr, &regions.sol_erda_piece),
    };
    let r = fields_from_texts(&texts);
    assert(r == fields_of(texts));
    r
}

/// Parses every field out of one text, as recognised from a whole screen.
pub fn parse_hunting_data(text: &str) -> (r: HuntingScreenshotData)
    ensures
        r.level == to_i32(level_of(text@)),
        r.exp_percent == to_u32(exp_of(text@)),
        r.meso == to_i64(meso_of(text@)),
        r.sol_erda_count == to_i32(count_of(text@)),
        r.sol_erda_gauge == to_i32(gauge_of(text@)),
        r.sol_erda_piece == to_i64(piece_of(text@)),
        r.wf(),
{
    HuntingScreenshotData {
        level: parse_level(text),
        exp_percent: parse_exp(text),
        meso: parse_meso(text),
        sol_erda_count: parse_sol_erda_count(text),
        sol_erda_gauge: parse_sol_erda_gauge(text),
        sol_erda_piece: parse_sol_erda_piece(text),
    }
}

} // verus!
