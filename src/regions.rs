//! Resolution-scaled text regions: fixed ones from the image size, and ones
//! placed relative to located icons.
use vstd::prelude::*;
use crate::raster::{crop_model, fits, safe_crop, Raster, RasterModel};
use crate::types::IconPositions;

verus! {

/// A rectangle at the baseline resolution.
#[derive(Clone, Copy)]
pub struct Rect {
    pub x: u32,
    pub y: u32,
    pub width: u32,
    pub height: u32,
}

/// A rectangle placed relative to an icon's top-left corner, at the
/// baseline resolution.
#[derive(Clone, Copy)]
pub struct Offset {
    pub dx: i32,
    pub dy: i32,
    pub width: u32,
    pub height: u32,
}

/// Where each field's text lies on a screen of the baseline size.
#[derive(Clone, Copy)]
pub struct RegionLayout {
    pub base_width: u32,
    pub base_height: u32,
    pub level: Rect,
    pub exp_bar: Rect,
    pub meso_offset: Offset,
    pub sol_erda_offset: Offset,
    pub sol_erda_piece_offset: Offset,
}

#[derive(Clone, Copy)]
pub struct ImageDimensions {
    pub width: u32,
    pub height: u32,
}

/// A layout scaled to one image: rectangles as (x, y, width, height) and
/// offsets as (dx, dy, width, height).
#[derive(Clone, Copy)]
pub struct RegionConfig {
    pub level: (u64, u64, u64, u64),
    pub exp_bar: (u64, u64, u64, u64),
    pub meso_offset: (i64, i64, u64, u64),
    pub sol_erda_offset: (i64, i64, u64, u64),
    pub sol_erda_piece_offset: (i64, i64, u64, u64),
}

/// The crops of each field's region; `None` where the region is unknown
/// or does not lie inside the image.
pub struct CroppedRegions {
    pub level: Option<Raster>,
    pub exp: Option<Raster>,
    pub meso: Option<Raster>,
    pub sol_erda: Option<Raster>,
    pub sol_erda_piece: Option<Raster>,
}

impl RegionLayout {
    pub open spec fn wf(&self) -> bool {
        self.base_width > 0 && self.base_height > 0
    }
}

/// The layout of the game's interface on a 1920 × 1080 screen.
pub open spec fn baseline() -> RegionLayout {
    RegionLayout {
        base_width: 1920,
        base_height: 1080,
        level: Rect { x: 10, y: 1030, width: 150, height: 40 },
        exp_bar: Rect { x: 480, y: 1050, width: 960, height: 25 },
        meso_offset: Offset { dx: 60, dy: -5i32, width: 250, height: 35 },
        sol_erda_offset: Offset { dx: 0, dy: 60, width: 80, height: 30 },
        sol_erda_piece_offset: Offset { dx: 0, dy: 60, width: 100, height: 30 },
    }
}

pub fn baseline_layout() -> (r: RegionLayout)
    ensures
        r == baseline(),
        r.wf(),
{
    RegionLayout {
        base_width: 1920,
        base_height: 1080,
        level: Rect { x: 10, y: 1030, width: 150, height: 40 },
        exp_bar: Rect { x: 480, y: 1050, width: 960, height: 25 },
        meso_offset: Offset { dx: 60, dy: -5, width: 250, height: 35 },
        sol_erda_offset: Offset { dx: 0, dy: 60, width: 80, height: 30 },
        sol_erda_piece_offset: Offset { dx: 0, dy: 60, width: 100, height: 30 },
    }
}

/// `v` scaled by `dim / base`, rounded down.
pub open spec fn scale_len(v: int, dim: int, base: int) -> int {
    v * dim / base
}

/// `v` scaled by `dim / base`, rounded toward zero.
pub open spec fn scale_off(v: int, dim: int, base: int) -> int {
    if v >= 0 {
        v * dim / base
    } else {
        -((-v) * dim / base)
    }
}

pub open spec fn scale_rect(r: Rect, l: RegionLayout, d: ImageDimensions) -> (u64, u64, u64, u64) {
    (
        scale_len(r.x as int, d.width as int, l.base_width as int) as u64,
        scale_len(r.y as int, d.height as int, l.base_height as int) as u64,
        scale_len(r.width as int, d.width as int, l.base_width as int) as u64,
        scale_len(r.height as int, d.height as int, l.base_height as int) as u64,
    )
}

pub open spec fn scale_offset(o: Offset, l: RegionLayout, d: ImageDimensions) -> (
    i64,
    i64,
    u64,
    u64,
) {
    (
        scale_off(o.dx as int, d.width as int, l.base_width as int) as i64,
        scale_off(o.dy as int, d.height as int, l.base_height as int) as i64,
        scale_len(o.width as int, d.width as int, l.base_width as int) as u64,
        scale_len(o.height as int, d.height as int, l.base_height as int) as u64,
    )
}

pub open spec fn config_of(l: RegionLayout, d: ImageDimensions) -> RegionConfig {
    RegionConfig {
        level: scale_rect(l.level, l, d),
        exp_bar: scale_rect(l.exp_bar, l, d),
        meso_offset: scale_offset(l.meso_offset, l, d),
        sol_erda_offset: scale_offset(l.sol_erda_offset, l, d),
        sol_erda_piece_offset: scale_offset(l.sol_erda_piece_offset, l, d),
    }
}

fn scale_len_exec(v: u32, dim: u32, base: u32) -> (r: u64)
    requires
        base > 0,
    ensures
        r == scale_len(v as int, dim as int, base as int),
{
    assert(v as u64 * dim as u64 <= 0xffff_ffff_ffff_ffff) by (nonlinear_arith)
        requires
            v <= 0xffff_ffff,
            dim <= 0xffff_ffff,
    ;
    (v as u64 * dim as u64) / base as u64
}

fn scale_off_exec(v: i32, dim: u32, base: u32) -> (r: i64)
    requires
        base > 0,
    ensures
        r == scale_off(v as int, dim as int, base as int),
{
    let mag: u64 = if v >= 0 {
        v as u64
    } else {
        (0 - (v as i64)) as u64
    };
    assert(mag * dim as u64 <= 0x8000_0000 * 0xffff_ffff) by (nonlinear_arith)
        requires
            mag <= 0x8000_0000,
            dim <= 0xffff_ffff,
    ;
    let q: u64 = (mag * dim as u64) / base as u64;
    assert(q <= mag * dim) by (nonlinear_arith)
        requires
            q == (mag * dim) / (base as int),
            base > 0,
    ;
    if v >= 0 {
        q as i64
    } else {
        0 - (q as i64)
    }
}

fn scale_rect_exec(r: Rect, l: RegionLayout, d: ImageDimensions) -> (out: (u64, u64, u64, u64))
    requires
        l.wf(),
    ensures
        out == scale_rect(r, l, d),
{
    (
        scale_len_exec(r.x, d.width, l.base_width),
        scale_len_exec(r.y, d.height, l.base_height),
        scale_len_exec(r.width, d.width, l.base_width),
        scale_len_exec(r.height, d.height, l.base_height),
    )
}

fn scale_offset_exec(o: Offset, l: RegionLayout, d: ImageDimensions) -> (out: (
    i64,
    i64,
    u64,
    u64,
))
    requires
        l.wf(),
    ensures
        out == scale_offset(o, l, d),
{
    (
        scale_off_exec(o.dx, d.width, l.base_width),
        scale_off_exec(o.dy, d.height, l.base_height),
        scale_len_exec(o.width, d.width, l.base_width),
        scale_len_exec(o.height, d.height, l.base_height),
    )
}

/// Every rectangle and offset of `layout`, scaled by
/// `(dims.width / base_width, dims.height / base_height)`.
pub fn scale_layout(layout: &RegionLayout, dims: &ImageDimensions) -> (r: RegionConfig)
    requires
        layout.wf(),
    ensures
        r == config_of(*layout, *dims),
{
    RegionConfig {
        level: scale_rect_exec(layout.level, *layout, *dims),
        exp_bar: scale_rect_exec(layout.exp_bar, *layout, *dims),
        meso_offset: scale_offset_exec(layout.meso_offset, *layout, *dims),
        sol_erda_offset: scale_offset_exec(layout.sol_erda_offset, *layout, *dims),
        sol_erda_piece_offset: scale_offset_exec(layout.sol_erda_piece_offset, *layout, *dims),
    }
}

/// The baseline layout scaled to an image of size `dims`.
pub fn get_region_config(dims: &ImageDimensions) -> (r: RegionConfig)
    ensures
        r == config_of(baseline(), *dims),
{
    let layout = baseline_layout();
    scale_layout(&layout, dims)
}

/// `r` is the crop of `img` at (`x`, `y`) of size `w` × `h` when that lies
/// inside the image, and `None` otherwise.
pub open spec fn crop_at(img: RasterModel, x: int, y: int, w: int, h: int, r: Option<Raster>) -> bool {
    if fits(img, x, y, w, h) {
        r matches Some(c) && c@ == crop_model(img, x as nat, y as nat, w as nat, h as nat)
            && c@.wf()
    } else {
        r is None
    }
}

/// `r` is the crop of `img` placed by `off` from the icon at `anchor`, or
/// `None` when there is no anchor or the region leaves the image.
pub open spec fn crop_near(
    img: RasterModel,
    anchor: Option<(u32, u32)>,
    off: (i64, i64, u64, u64),
    r: Option<Raster>,
) -> bool {
    match anchor {
        None => r is None,
        Some((x, y)) => crop_at(img, x + off.0, y + off.1, off.2 as int, off.3 as int, r),
    }
}

fn crop_near_exec(image: &Raster, anchor: Option<(u32, u32)>, off: (i64, i64, u64, u64)) -> (r:
    Option<Raster>)
    requires
        image@.wf(),
        -0x8000_0000_0000 <= off.0 <= 0x8000_0000_0000,
        -0x8000_0000_0000 <= off.1 <= 0x8000_0000_0000,
    ensures
        crop_near(image@, anchor, off, r),
{
    match anchor {
        None => None,
        Some((x, y)) => safe_crop(image, x as i64 + off.0, y as i64 + off.1, off.2, off.3),
    }
}

/// Crops the fixed regions (level, experience bar) and, for each located
/// icon, the region placed relative to it.
pub fn crop_regions(image: &Raster, positions: &IconPositions) -> (r: CroppedRegions)
    requires
        image@.wf(),
    ensures
        ({
            let c = config_of(baseline(), ImageDimensions { width: image@.width as u32, height: image@.height as u32 });
            &&& crop_at(image@, c.level.0 as int, c.level.1 as int, c.level.2 as int, c.level.3 as int, r.level)
            &&& crop_at(image@, c.exp_bar.0 as int, c.exp_bar.1 as int, c.exp_bar.2 as int, c.exp_bar.3 as int, r.exp)
            &&& crop_near(image@, positions.meso, c.meso_offset, r.meso)
            &&& crop_near(image@, positions.sol_erda, c.sol_erda_offset, r.sol_erda)
            &&& crop_near(image@, positions.sol_erda_piece, c.sol_erda_piece_offset, r.sol_erda_piece)
        }),
{
    let dims = ImageDimensions { width: image.width(), height: image.height() };
    let config = get_region_config(&dims);
    proof {
        lemma_baseline_offsets_small(dims);
    }
    let level = safe_crop(
        image,
        config.level.0 as i64,
        config.level.1 as i64,
        config.level.2,
        config.level.3,
    );
    let exp = safe_crop(
        image,
        config.exp_bar.0 as i64,
        config.exp_bar.1 as i64,
        config.exp_bar.2,
        config.exp_bar.3,
    );
    CroppedRegions {
        level,
        exp,
        meso: crop_near_exec(image, positions.meso, config.meso_offset),
        sol_erda: crop_near_exec(image, positions.sol_erda, config.sol_erda_offset),
        sol_erda_piece: crop_near_exec(image, positions.sol_erda_piece, config.sol_erda_piece_offset),
    }
}

/// A baseline coordinate within the baseline size scales to one within the
/// image size.
proof fn lemma_scale_within(v: int, dim: int, base: int)
    requires
        0 <= v <= base,
        0 < base,
        0 <= dim,
    ensures
        0 <= scale_len(v, dim, base) <= dim,
{
    assert(v * dim <= base * dim) by (nonlinear_arith)
        requires
            0 <= v <= base,
            0 <= dim,
    ;
    assert(0 <= v * dim) by (nonlinear_arith)
        requires
            0 <= v,
            0 <= dim,
    ;
    vstd::arithmetic::div_mod::lemma_div_is_ordered(v * dim, base * dim, base);
    vstd::arithmetic::div_mod::lemma_div_multiples_vanish(dim, base);
    vstd::arithmetic::div_mod::lemma_div_pos_is_pos(v * dim, base);
}

proof fn lemma_baseline_offsets_small(d: ImageDimensions)
    ensures
        ({
            let c = config_of(baseline(), d);
            &&& -0x8000_0000_0000 <= c.meso_offset.0 <= 0x8000_0000_0000
            &&& -0x8000_0000_0000 <= c.meso_offset.1 <= 0x8000_0000_0000
            &&& -0x8000_0000_0000 <= c.sol_erda_offset.0 <= 0x8000_0000_0000
            &&& -0x8000_0000_0000 <= c.sol_erda_offset.1 <= 0x8000_0000_0000
            &&& -0x8000_0000_0000 <= c.sol_erda_piece_offset.0 <= 0x8000_0000_0000
            &&& -0x8000_0000_0000 <= c.sol_erda_piece_offset.1 <= 0x8000_0000_0000
            &&& c.level.0 <= d.width && c.level.1 <= d.height
            &&& c.exp_bar.0 <= d.width && c.exp_bar.1 <= d.height
        }),
{
    let w = d.width as int;
    let h = d.height as int;
    lemma_scale_within(10, w, 1920);
    lemma_scale_within(480, w, 1920);
    lemma_scale_within(1030, h, 1080);
    lemma_scale_within(1050, h, 1080);
    assert(0 <= 60 * w / 1920 <= 0x8000_0000_0000) by (nonlinear_arith)
        requires
            0 <= w <= 0xffff_ffff,
    ;
    assert(0 <= 5 * h / 1080 <= 0x8000_0000_0000) by (nonlinear_arith)
        requires
            0 <= h <= 0xffff_ffff,
    ;
    assert(0 <= 60 * h / 1080 <= 0x8000_0000_0000) by (nonlinear_arith)
        requires
            0 <= h <= 0xffff_ffff,
    ;
    assert(0 * w / 1920 == 0);
}

} // verus!
