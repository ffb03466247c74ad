//! Owned pixel buffers, cropping with boundary checks, and resampling.
use vstd::prelude::*;

verus! {

/// What a raster holds: its size and its RGBA bytes, row by row.
pub struct RasterModel {
    pub width: nat,
    pub height: nat,
    pub pixels: Seq<u8>,
}

/// A single-channel raster: one intensity byte per pixel, row by row.
pub struct GrayModel {
    pub width: nat,
    pub height: nat,
    pub pixels: Seq<u8>,
}

/// An owned image of 8-bit RGBA pixels. Crops and scaled copies are
/// independent copies of the data.
pub struct Raster {
    width: u32,
    height: u32,
    pixels: Vec<u8>,
}

/// An owned single-channel image, as the icon locator compares them.
pub struct GrayRaster {
    pub width: u32,
    pub height: u32,
    pub pixels: Vec<u8>,
}

/// The resampling filter of a resize.
#[derive(Clone, Copy)]
pub enum Resample {
    /// Triangle (bilinear) filter: fast, for the search phase.
    Fast,
    /// Lanczos filter with a window of 3: slower, sharper, for regions
    /// that are to be recognised.
    Smooth,
}

impl View for Raster {
    type V = RasterModel;

    closed spec fn view(&self) -> RasterModel {
        RasterModel { width: self.width as nat, height: self.height as nat, pixels: self.pixels@ }
    }
}

impl View for GrayRaster {
    type V = GrayModel;

    open spec fn view(&self) -> GrayModel {
        GrayModel { width: self.width as nat, height: self.height as nat, pixels: self.pixels@ }
    }
}

impl RasterModel {
    pub open spec fn wf(&self) -> bool {
        self.pixels.len() == self.width * self.height * 4
    }

    /// Index of the first byte of pixel (`col`, `row`).
    pub open spec fn offset(&self, col: nat, row: nat) -> int {
        ((row * self.width + col) * 4) as int
    }
}

impl GrayRaster {
    pub open spec fn wf(&self) -> bool {
        self.pixels@.len() == self.width * self.height
    }
}

/// The bytes of rows `y..y + rows` of `m`, each cut to the `w` pixels from
/// column `x` on.
pub open spec fn crop_rows(m: RasterModel, x: nat, y: nat, w: nat, rows: nat) -> Seq<u8>
    decreases rows,
{
    if rows == 0 {
        Seq::empty()
    } else {
        let start = m.offset(x, (y + rows - 1) as nat);
        crop_rows(m, x, y, w, (rows - 1) as nat) + m.pixels.subrange(start, start + w * 4)
    }
}

/// The `w` × `h` sub-image of `m` whose top-left pixel is (`x`, `y`).
pub open spec fn crop_model(m: RasterModel, x: nat, y: nat, w: nat, h: nat) -> RasterModel {
    RasterModel { width: w, height: h, pixels: crop_rows(m, x, y, w, h) }
}

pub open spec fn fits(m: RasterModel, x: int, y: int, w: int, h: int) -> bool {
    0 <= x && 0 <= y && 0 <= w && 0 <= h && x + w <= m.width && y + h <= m.height
}

/// What `image` makes of `src` when asked to resize it to fit `nw` × `nh`.
pub uninterp spec fn resized(src: RasterModel, nw: nat, nh: nat, filter: Resample) -> RasterModel;

/// What `image` makes of `src` when converting it to luma.
pub uninterp spec fn luma_of(src: RasterModel) -> Seq<u8>;

proof fn lemma_row_in_bounds(m: RasterModel, x: nat, w: nat, row: nat)
    requires
        m.wf(),
        x + w <= m.width,
        row < m.height,
    ensures
        0 <= m.offset(x, row),
        m.offset(x, row) + w * 4 <= m.pixels.len(),
{
    assert((row * m.width + x) * 4 + w * 4 <= (row + 1) * m.width * 4) by (nonlinear_arith)
        requires
            x + w <= m.width,
    ;
    assert((row + 1) * m.width * 4 <= m.height * m.width * 4) by (nonlinear_arith)
        requires
            row < m.height,
    ;
    assert(m.height * m.width * 4 == m.width * m.height * 4) by (nonlinear_arith);
}

proof fn lemma_crop_len(m: RasterModel, x: nat, y: nat, w: nat, rows: nat)
    requires
        m.wf(),
        x + w <= m.width,
        y + rows <= m.height,
    ensures
        crop_rows(m, x, y, w, rows).len() == rows * w * 4,
    decreases rows,
{
    if rows == 0 {
        assert(rows * w * 4 == 0);
    } else {
        lemma_crop_len(m, x, y, w, (rows - 1) as nat);
        lemma_row_in_bounds(m, x, w, (y + rows - 1) as nat);
        let start = m.offset(x, (y + rows - 1) as nat);
        assert(m.pixels.subrange(start, start + w * 4).len() == w * 4);
        assert(rows * w * 4 == (rows - 1) * w * 4 + w * 4) by (nonlinear_arith)
            requires
                rows > 0,
        ;
    }
}

impl Raster {
    /// A raster from its size and RGBA bytes; `None` unless there are
    /// exactly four bytes per pixel.
    pub fn new(width: u32, height: u32, pixels: Vec<u8>) -> (r: Option<Raster>)
        ensures
            match r {
                Some(img) => img@ == (RasterModel {
                    width: width as nat,
                    height: height as nat,
                    pixels: pixels@,
                }) && img@.wf(),
                None => pixels@.len() != width * height * 4,
            },
    {
        assert(width as u128 * height as u128 <= 0xffff_ffff_ffff_ffff_ffff_ffff) by (
        nonlinear_arith)
            requires
                width <= 0xffff_ffff,
                height <= 0xffff_ffff,
        ;
        let expected: u128 = width as u128 * height as u128 * 4;
        if pixels.len() as u128 == expected {
            Some(Raster { width, height, pixels })
        } else {
            None
        }
    }

    pub fn width(&self) -> (r: u32)
        ensures
            r == self@.width,
    {
        self.width
    }

    pub fn height(&self) -> (r: u32)
        ensures
            r == self@.height,
    {
        self.height
    }

    pub fn pixels(&self) -> (r: &Vec<u8>)
        ensures
            r@ == self@.pixels,
    {
        &self.pixels
    }
}

/// Copies the `w` × `h` sub-image whose top-left pixel is (`x`, `y`).
pub fn crop(image: &Raster, x: u32, y: u32, w: u32, h: u32) -> (r: Raster)
    requires
        image@.wf(),
        fits(image@, x as int, y as int, w as int, h as int),
    ensures
        r@ == crop_model(image@, x as nat, y as nat, w as nat, h as nat),
        r@.wf(),
{
    let ghost m = image@;
    let total: usize = image.pixels.len();
    let mut out: Vec<u8> = Vec::new();
    if w == 0 || h == 0 {
        proof {
            lemma_crop_len(m, x as nat, y as nat, w as nat, h as nat);
            assert(h * w * 4 == 0 && w * h * 4 == 0) by (nonlinear_arith)
                requires
                    w == 0 || h == 0,
            ;
        }
        assert(out@ =~= crop_rows(m, x as nat, y as nat, w as nat, h as nat));
        return Raster { width: w, height: h, pixels: out };
    }
    proof {
        lemma_row_in_bounds(m, x as nat, w as nat, y as nat);
        assert(image.pixels@ == m.pixels);
        assert(w * 4 <= image.pixels@.len());
    }
    let row_bytes: usize = w as usize * 4;
    let mut r: u32 = 0;
    while r < h
        invariant
            m == image@,
            m.wf(),
            fits(m, x as int, y as int, w as int, h as int),
            r <= h,
            row_bytes == w * 4,
            total == m.pixels.len(),
            out@ == crop_rows(m, x as nat, y as nat, w as nat, r as nat),
        decreases h - r,
    {
        proof {
            lemma_row_in_bounds(m, x as nat, w as nat, (y + r) as nat);
            assert((y + r) * m.width <= ((y + r) * m.width + x) * 4) by (nonlinear_arith);
            assert(image.pixels@ == m.pixels);
            assert(((y + r) * m.width + x) * 4 + w * 4 <= image.pixels@.len());
        }
        let start: usize = (((y + r) as usize) * (image.width as usize) + x as usize) * 4;
        let mut j: usize = 0;
        while j < row_bytes
            invariant
                m == image@,
                start == m.offset(x as nat, (y + r) as nat),
                start + row_bytes <= m.pixels.len(),
                total == m.pixels.len(),
                j <= row_bytes,
                out@ == crop_rows(m, x as nat, y as nat, w as nat, r as nat) + m.pixels.subrange(
                    start as int,
                    start + j,
                ),
            decreases row_bytes - j,
        {
            assert(image.pixels@ == m.pixels);
            out.push(image.pixels[start + j]);
            j += 1;
            assert(out@ =~= crop_rows(m, x as nat, y as nat, w as nat, r as nat)
                + m.pixels.subrange(start as int, start + j));
        }
        r += 1;
    }
    proof {
        lemma_crop_len(m, x as nat, y as nat, w as nat, h as nat);
        assert(h * w * 4 == w * h * 4) by (nonlinear_arith);
    }
    Raster { width: w, height: h, pixels: out }
}

/// The `w` × `h` sub-image at (`x`, `y`), or `None`, without panicking,
/// when any part of it lies outside the image.
pub fn safe_crop(image: &Raster, x: i64, y: i64, w: u64, h: u64) -> (r: Option<Raster>)
    requires
        image@.wf(),
    ensures
        fits(image@, x as int, y as int, w as int, h as int) ==> r is Some,
        !fits(image@, x as int, y as int, w as int, h as int) ==> r is None,
        r matches Some(c) ==> c@ == crop_model(image@, x as nat, y as nat, w as nat, h as nat)
            && c@.wf(),
{
    if x < 0 || y < 0 {
        return None;
    }
    if w > image.width as u64 || h > image.height as u64 {
        return None;
    }
    if x as u64 > image.width as u64 - w || y as u64 > image.height as u64 - h {
        return None;
    }
    let c = crop(image, x as u32, y as u32, w as u32, h as u32);
    Some(c)
}

/// Relies on image's `DynamicImage::resize`: the result keeps the aspect
/// ratio, fits within `nw` × `nh` and is at least one pixel each way
/// (`resize_dimensions`), and `to_rgba8` lays it out as RGBA bytes.
#[verifier::external_body]
fn resize_rgba(src: &Raster, nw: u32, nh: u32, filter: Resample) -> (r: Raster)
    requires
        src@.wf(),
        src@.width >= 1,
        src@.height >= 1,
    ensures
        r@ == resized(src@, nw as nat, nh as nat, filter),
        r@.wf(),
        r@.width >= 1,
        r@.height >= 1,
{
    let buf = image::RgbaImage::from_raw(src.width, src.height, src.pixels.clone())
        .unwrap_or_default();
    let filter = match filter {
        Resample::Fast => image::imageops::FilterType::Triangle,
        Resample::Smooth => image::imageops::FilterType::Lanczos3,
    };
    let out = image::DynamicImage::ImageRgba8(buf).resize(nw, nh, filter).to_rgba8();
    Raster { width: out.width(), height: out.height(), pixels: out.into_raw() }
}

/// Relies on image's `DynamicImage::to_luma8`: one luma byte per pixel,
/// with the same dimensions.
#[verifier::external_body]
pub(crate) fn luma(src: &Raster) -> (r: GrayRaster)
    requires
        src@.wf(),
    ensures
        r.width == src@.width,
        r.height == src@.height,
        r.pixels@ == luma_of(src@),
        r.wf(),
{
    let buf = image::RgbaImage::from_raw(src.width, src.height, src.pixels.clone())
        .unwrap_or_default();
    let out = image::DynamicImage::ImageRgba8(buf).to_luma8();
    GrayRaster { width: out.width(), height: out.height(), pixels: out.into_raw() }
}

/// What `scale` makes of `m`: an empty image stays an unchanged copy, any
/// other is resized.
pub open spec fn scaled(m: RasterModel, target_w: nat, target_h: nat, filter: Resample) -> RasterModel {
    if m.width == 0 || m.height == 0 {
        crop_model(m, 0, 0, m.width, m.height)
    } else {
        resized(m, target_w, target_h, filter)
    }
}

/// A copy of `image` resized to fit within `target_w` × `target_h`, aspect
/// ratio kept; an empty image is copied as it is. `Resample::Smooth` is for
/// regions that are to be recognised, `Resample::Fast` for the search-phase
/// downscale.
pub fn scale(image: &Raster, target_w: u32, target_h: u32, filter: Resample) -> (r: Raster)
    requires
        image@.wf(),
    ensures
        r@ == scaled(image@, target_w as nat, target_h as nat, filter),
        r@.wf(),
        image@.width >= 1 && image@.height >= 1 ==> r@.width >= 1 && r@.height >= 1,
{
    if image.width() == 0 || image.height() == 0 {
        return crop(image, 0, 0, image.width(), image.height());
    }
    resize_rgba(image, target_w, target_h, filter)
}

} // verus!
