//! Locating reference icons in a screenshot by normalized cross-correlation
//! at reduced resolution.
use vstd::prelude::*;
use crate::raster::{
    crop, crop_model, luma, luma_of, resized, scale, GrayModel, GrayRaster, Raster,
    RasterModel, Resample,
};
use crate::types::IconPositions;

verus! {

/// Both images are shrunk by this factor before the search.
pub const SEARCH_SCALE: u32 = 4;

/// The confidence floor 0.5, as the bits of an IEEE-754 single-precision
/// number. The scores of normalized cross-correlation over non-negative
/// intensities are finite and non-negative, and for such numbers the order
/// of the bits is the order of the values.
pub const CONFIDENCE_FLOOR_BITS: u32 = 0x3F00_0000;

/// Where the best score of the needle over the haystack lies, and the bits
/// of that score, as imageproc computes them.
pub uninterp spec fn ncc_peak(haystack: GrayModel, needle: GrayModel) -> (u32, u32, u32);

/// Relies on imageproc's `match_template` with
/// `CrossCorrelationNormalized`, which scores every placement of the
/// needle (a score image of `(hw - nw + 1)` × `(hh - nh + 1)`, panicking
/// when the needle is larger), and on `find_extremes` over those scores,
/// which panics on an empty score image: the location of the highest one,
/// and its bits. A needle of at least 1 × 1 that fits keeps the score
/// image's size within the haystack's.
#[verifier::external_body]
fn best_match(haystack: &GrayRaster, needle: &GrayRaster) -> (r: (u32, u32, u32))
    requires
        haystack.wf(),
        needle.wf(),
        needle.width >= 1,
        needle.height >= 1,
        needle.width <= haystack.width,
        needle.height <= haystack.height,
    ensures
        r == ncc_peak(haystack@, needle@),
        r.0 <= haystack.width - needle.width,
        r.1 <= haystack.height - needle.height,
{
    let h = image::GrayImage::from_raw(haystack.width, haystack.height, haystack.pixels.clone())
        .unwrap_or_default();
    let n = image::GrayImage::from_raw(needle.width, needle.height, needle.pixels.clone())
        .unwrap_or_default();
    let method = imageproc::template_matching::MatchTemplateMethod::CrossCorrelationNormalized;
    let scores = imageproc::template_matching::match_template(&h, &n, method);
    let e = imageproc::template_matching::find_extremes(&scores);
    (e.max_value_location.0, e.max_value_location.1, e.max_value.to_bits())
}

pub open spec fn min_nat(a: nat, b: nat) -> nat {
    if a <= b {
        a
    } else {
        b
    }
}

/// The part of `img` that a search covers: the region clamped to the
/// image, or the whole image; `None` when that is empty.
pub open spec fn search_area(img: RasterModel, region: Option<(u32, u32, u32, u32)>) -> Option<
    (nat, nat, nat, nat),
> {
    match region {
        None => if img.width > 0 && img.height > 0 {
            Some((0, 0, img.width, img.height))
        } else {
            None
        },
        Some((x, y, w, h)) => if x < img.width && y < img.height && w > 0 && h > 0 {
            Some(
                (
                    x as nat,
                    y as nat,
                    min_nat(w as nat, (img.width - x) as nat),
                    min_nat(h as nat, (img.height - y) as nat),
                ),
            )
        } else {
            None
        },
    }
}

/// The intensities of `m` shrunk by `SEARCH_SCALE`.
pub open spec fn search_view(m: RasterModel) -> GrayModel {
    let s = resized(m, m.width / SEARCH_SCALE as nat, m.height / SEARCH_SCALE as nat, Resample::Fast);
    GrayModel { width: s.width, height: s.height, pixels: luma_of(s) }
}

/// All intensities are equal: such an area holds no pattern to match.
pub open spec fn is_flat(p: Seq<u8>) -> bool {
    forall|i: int| 0 <= i < p.len() ==> #[trigger] p[i] == p[0]
}

/// The anchor that a peak of the shrunken search gives, in source-image
/// pixels: `None` when its score is at or below the confidence floor, or
/// when the translated point falls outside the `width` × `height` image.
pub open spec fn anchor_of(peak: (u32, u32, u32), ox: nat, oy: nat, width: nat, height: nat) -> Option<
    (u32, u32),
> {
    let px = peak.0 * SEARCH_SCALE + ox;
    let py = peak.1 * SEARCH_SCALE + oy;
    if peak.2 > CONFIDENCE_FLOOR_BITS && px < width && py < height {
        Some((px as u32, py as u32))
    } else {
        None
    }
}

/// Translates a peak `(x, y, score bits)` of the search, made over an area
/// whose top-left pixel is (`origin_x`, `origin_y`), into an anchor in an
/// image of `width` × `height`.
pub fn anchor_from_peak(peak: (u32, u32, u32), origin_x: u32, origin_y: u32, width: u32, height: u32) -> (r:
    Option<(u32, u32)>)
    ensures
        r == anchor_of(peak, origin_x as nat, origin_y as nat, width as nat, height as nat),
{
    let (sx, sy, bits) = peak;
    let factor: u64 = SEARCH_SCALE as u64;
    assert(sx * factor <= 0xffff_ffff * 4 && sy * factor <= 0xffff_ffff * 4) by (nonlinear_arith)
        requires
            factor == 4,
            sx <= 0xffff_ffff,
            sy <= 0xffff_ffff,
    ;
    let px: u64 = sx as u64 * factor + origin_x as u64;
    let py: u64 = sy as u64 * factor + origin_y as u64;
    if bits > CONFIDENCE_FLOOR_BITS && px < width as u64 && py < height as u64 {
        Some((px as u32, py as u32))
    } else {
        None
    }
}

/// Every pixel of the RGBA bytes `p` has the colour of the one before it,
/// so all share one colour.
pub open spec fn is_solid(p: Seq<u8>) -> bool {
    forall|i: int| 4 <= i < p.len() ==> #[trigger] p[i] == p[i - 4]
}

fn one_colour(p: &Vec<u8>) -> (r: bool)
    ensures
        r == is_solid(p@),
{
    let mut i: usize = 4;
    while i < p.len()
        invariant
            4 <= i,
            forall|k: int| 4 <= k < i && k < p.len() ==> #[trigger] p@[k] == p@[k - 4],
        decreases p.len() - i,
    {
        if p[i] != p[i - 4] {
            return false;
        }
        i += 1;
    }
    true
}

fn all_equal(p: &Vec<u8>) -> (r: bool)
    ensures
        r == is_flat(p@),
{
    if p.len() == 0 {
        return true;
    }
    let first = p[0];
    let mut i: usize = 1;
    while i < p.len()
        invariant
            1 <= i <= p.len(),
            first == p@[0],
            forall|k: int| 0 <= k < i ==> #[trigger] p@[k] == p@[0],
        decreases p.len() - i,
    {
        if p[i] != first {
            return false;
        }
        i += 1;
    }
    true
}

/// Where the icon `needle` lies in `img`, searched within `region`.
pub open spec fn locate_spec(
    img: RasterModel,
    needle: RasterModel,
    region: Option<(u32, u32, u32, u32)>,
) -> Option<(u32, u32)> {
    match search_area(img, region) {
        None => None,
        Some((x, y, w, h)) => {
            if needle.width == 0 || needle.height == 0 {
                None
            } else if is_solid(crop_model(img, x, y, w, h).pixels) {
                None
            } else {
                let hay = search_view(crop_model(img, x, y, w, h));
                let ndl = search_view(needle);
                if ndl.width > hay.width || ndl.height > hay.height {
                    None
                } else if is_flat(hay.pixels) {
                    None
                } else {
                    anchor_of(ncc_peak(hay, ndl), x, y, img.width, img.height)
                }
            }
        },
    }
}

fn search_gray(m: &Raster) -> (r: GrayRaster)
    requires
        m@.wf(),
        m@.width >= 1,
        m@.height >= 1,
    ensures
        r@ == search_view(m@),
        r.wf(),
        r.width >= 1,
        r.height >= 1,
{
    let s = scale(m, m.width() / SEARCH_SCALE, m.height() / SEARCH_SCALE, Resample::Fast);
    luma(&s)
}

/// Finds the top-left corner of `template` in `image`, searching within
/// `search_region` (x, y, width, height) or the whole image. A best score
/// at or below the confidence floor gives `None`, as does a template that
/// is larger than the searched area, a searched area whose pixels all have
/// one colour, and one whose intensities, shrunk for the search, are all
/// equal: a flat area holds no pattern, and the correlation, which is not
/// mean-subtracted, would score it high against any needle.
pub fn find_icon_in_region(
    image: &Raster,
    template: &Raster,
    search_region: Option<(u32, u32, u32, u32)>,
) -> (r: Option<(u32, u32)>)
    requires
        image@.wf(),
        template@.wf(),
    ensures
        r == locate_spec(image@, template@, search_region),
        r matches Some(p) ==> p.0 < image@.width && p.1 < image@.height,
        search_area(image@, search_region) matches Some(a) ==> (is_solid(
            crop_model(image@, a.0, a.1, a.2, a.3).pixels,
        ) ==> r is None),
        search_area(image@, search_region) matches Some(a) ==> (is_flat(
            search_view(crop_model(image@, a.0, a.1, a.2, a.3)).pixels,
        ) ==> r is None),
{
    let iw = image.width();
    let ih = image.height();
    let (x, y, w, h) = match search_region {
        None => {
            if iw == 0 || ih == 0 {
                return None;
            }
            (0u32, 0u32, iw, ih)
        },
        Some((x, y, w, h)) => {
            if !(x < iw && y < ih && w > 0 && h > 0) {
                return None;
            }
            let cw = if w <= iw - x {
                w
            } else {
                iw - x
            };
            let ch = if h <= ih - y {
                h
            } else {
                ih - y
            };
            (x, y, cw, ch)
        },
    };
    if template.width() == 0 || template.height() == 0 {
        return None;
    }
    let area = crop(image, x, y, w, h);
    if one_colour(area.pixels()) {
        return None;
    }
    let hay = search_gray(&area);
    let ndl = search_gray(template);
    if ndl.width > hay.width || ndl.height > hay.height {
        return None;
    }
    if all_equal(&hay.pixels) {
        return None;
    }
    let peak = best_match(&hay, &ndl);
    anchor_from_peak(peak, x, y, iw, ih)
}

/// How far above the counter icon the fragment icon is searched for.
pub const PIECE_SEARCH_RISE: u32 = 50;

/// Size of the area right of the counter icon where the fragment icon is
/// searched for.
pub const PIECE_SEARCH_WIDTH: u32 = 400;

pub const PIECE_SEARCH_HEIGHT: u32 = 200;

/// The reference icons; an icon whose image could not be had is `None`,
/// and is then never located.
pub struct IconTemplates {
    pub meso: Option<Raster>,
    pub sol_erda: Option<Raster>,
    pub sol_erda_piece: Option<Raster>,
}

impl IconTemplates {
    pub open spec fn wf(&self) -> bool {
        &&& (self.meso matches Some(t) ==> t@.wf())
        &&& (self.sol_erda matches Some(t) ==> t@.wf())
        &&& (self.sol_erda_piece matches Some(t) ==> t@.wf())
    }
}

pub open spec fn locate_opt(
    img: RasterModel,
    template: Option<Raster>,
    region: Option<(u32, u32, u32, u32)>,
) -> Option<(u32, u32)> {
    match template {
        Some(t) => locate_spec(img, t@, region),
        None => None,
    }
}

/// The currency icon is searched for in the right half of the image, top
/// two thirds.
pub open spec fn meso_search_region(img: RasterModel) -> (u32, u32, u32, u32) {
    ((img.width / 2) as u32, 0, (img.width / 2) as u32, (img.height * 2 / 3) as u32)
}

/// The fragment icon is searched for right of the counter icon when that
/// was found, else over the whole image.
pub open spec fn piece_search_region(sol_erda: Option<(u32, u32)>) -> Option<(u32, u32, u32, u32)> {
    match sol_erda {
        Some((x, y)) => Some(
            (
                x,
                if y >= PIECE_SEARCH_RISE {
                    (y - PIECE_SEARCH_RISE) as u32
                } else {
                    0
                },
                PIECE_SEARCH_WIDTH,
                PIECE_SEARCH_HEIGHT,
            ),
        ),
        None => None,
    }
}

/// Where each icon lies: the currency icon within `meso_search_region`,
/// the counter icon anywhere, the fragment icon near the counter icon.
pub open spec fn positions_of(img: RasterModel, templates: IconTemplates) -> IconPositions {
    let sol_erda = locate_opt(img, templates.sol_erda, None);
    IconPositions {
        meso: locate_opt(img, templates.meso, Some(meso_search_region(img))),
        sol_erda,
        sol_erda_piece: locate_opt(img, templates.sol_erda_piece, piece_search_region(sol_erda)),
    }
}

fn locate_opt_exec(
    image: &Raster,
    template: &Option<Raster>,
    region: Option<(u32, u32, u32, u32)>,
) -> (r: Option<(u32, u32)>)
    requires
        image@.wf(),
        template matches Some(t) ==> t@.wf(),
    ensures
        r == locate_opt(image@, *template, region),
{
    match template {
        Some(t) => find_icon_in_region(image, t, region),
        None => None,
    }
}

/// Locates every icon whose template is present.
pub fn find_all_icons(image: &Raster, templates: &IconTemplates) -> (r: IconPositions)
    requires
        image@.wf(),
        templates.wf(),
    ensures
        r == positions_of(image@, *templates),
{
    let width = image.width();
    let height = image.height();
    let meso_region = (width / 2, 0u32, width / 2, (height as u64 * 2 / 3) as u32);
    let meso = locate_opt_exec(image, &templates.meso, Some(meso_region));
    let sol_erda = locate_opt_exec(image, &templates.sol_erda, None);
    let piece_region = match sol_erda {
        Some((x, y)) => Some(
            (
                x,
                if y >= PIECE_SEARCH_RISE {
                    y - PIECE_SEARCH_RISE
                } else {
                    0
                },
                PIECE_SEARCH_WIDTH,
                PIECE_SEARCH_HEIGHT,
            ),
        ),
        None => None,
    };
    let sol_erda_piece = locate_opt_exec(image, &templates.sol_erda_piece, piece_region);
    IconPositions { meso, sol_erda, sol_erda_piece }
}

} // verus!
