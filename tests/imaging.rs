use maple_ocr::locator::{anchor_from_peak, find_all_icons, find_icon_in_region, IconTemplates};
use maple_ocr::raster::{crop, safe_crop, scale, Raster, Resample};
use maple_ocr::regions::{crop_regions, get_region_config, ImageDimensions};
use maple_ocr::types::IconPositions;

fn solid(w: u32, h: u32, v: u8) -> Raster {
    let mut px = Vec::new();
    for _ in 0..(w * h) {
        px.extend_from_slice(&[v, v, v, 255]);
    }
    Raster::new(w, h, px).unwrap()
}

fn numbered(w: u32, h: u32) -> Raster {
    let mut px = Vec::new();
    for y in 0..h {
        for x in 0..w {
            px.extend_from_slice(&[x as u8, y as u8, 7, 255]);
        }
    }
    Raster::new(w, h, px).unwrap()
}

fn with_square(w: u32, h: u32, sx: u32, sy: u32, size: u32) -> Raster {
    let mut px = Vec::new();
    for y in 0..h {
        for x in 0..w {
            let v = if x >= sx && x < sx + size && y >= sy && y < sy + size { 255 } else { 0 };
            px.extend_from_slice(&[v, v, v, 255]);
        }
    }
    Raster::new(w, h, px).unwrap()
}

fn tiled_pattern(size: u32) -> Raster {
    let mut px = Vec::new();
    for y in 0..size {
        for x in 0..size {
            let v = if (x / 4 + y / 4) % 2 == 0 { 255 } else { 0 };
            px.extend_from_slice(&[v, v, v, 255]);
        }
    }
    Raster::new(size, size, px).unwrap()
}

#[test]
fn raster_rejects_wrong_buffer_length() {
    assert!(Raster::new(2, 2, vec![0; 15]).is_none());
    assert!(Raster::new(2, 2, vec![0; 16]).is_some());
}

#[test]
fn crop_copies_the_sub_image() {
    let img = numbered(5, 4);
    let c = crop(&img, 1, 2, 3, 2);
    assert_eq!(c.width(), 3);
    assert_eq!(c.height(), 2);
    let px = c.pixels();
    assert_eq!(&px[0..4], &[1, 2, 7, 255]);
    assert_eq!(&px[8..12], &[3, 2, 7, 255]);
    assert_eq!(&px[12..16], &[1, 3, 7, 255]);
}

#[test]
fn safe_crop_refuses_out_of_bounds() {
    let img = numbered(5, 4);
    assert!(safe_crop(&img, -1, 0, 2, 2).is_none());
    assert!(safe_crop(&img, 0, -1, 2, 2).is_none());
    assert!(safe_crop(&img, 4, 0, 2, 2).is_none());
    assert!(safe_crop(&img, 0, 3, 2, 2).is_none());
    let c = safe_crop(&img, 3, 2, 2, 2).unwrap();
    assert_eq!(&c.pixels()[0..4], &[3, 2, 7, 255]);
}

#[test]
fn scale_keeps_aspect_ratio() {
    let img = numbered(8, 4);
    let s = scale(&img, 4, 4, Resample::Smooth);
    assert_eq!((s.width(), s.height()), (4, 2));
    assert_eq!(s.pixels().len(), 4 * 2 * 4);
    let f = scale(&img, 2, 2, Resample::Fast);
    assert_eq!((f.width(), f.height()), (2, 1));
}

#[test]
fn solid_haystack_gives_no_match() {
    let hay = solid(64, 64, 0);
    let needle = tiled_pattern(16);
    assert_eq!(find_icon_in_region(&hay, &needle, None), None);
}

#[test]
fn uniform_needle_on_black_gives_no_match() {
    let hay = solid(64, 64, 0);
    let needle = solid(16, 16, 255);
    assert_eq!(find_icon_in_region(&hay, &needle, None), None);
}

#[test]
fn needle_larger_than_haystack_gives_no_match() {
    let hay = with_square(16, 16, 0, 0, 8);
    let needle = solid(32, 32, 255);
    assert_eq!(find_icon_in_region(&hay, &needle, None), None);
}

#[test]
fn square_is_found_at_its_position() {
    let hay = with_square(64, 64, 20, 24, 16);
    let needle = with_square(24, 24, 4, 4, 16);
    assert_eq!(find_icon_in_region(&hay, &needle, None), Some((16, 20)));
}

#[test]
fn search_region_offsets_the_result() {
    let hay = with_square(96, 64, 60, 24, 16);
    let needle = with_square(24, 24, 4, 4, 16);
    assert_eq!(find_icon_in_region(&hay, &needle, Some((40, 0, 56, 64))), Some((56, 20)));
    assert_eq!(find_icon_in_region(&hay, &needle, Some((200, 0, 10, 10))), None);
}

#[test]
fn icons_without_templates_are_not_located() {
    let hay = with_square(64, 64, 20, 24, 16);
    let none = IconTemplates { meso: None, sol_erda: None, sol_erda_piece: None };
    let p = find_all_icons(&hay, &none);
    assert_eq!((p.meso, p.sol_erda, p.sol_erda_piece), (None, None, None));
    let some = IconTemplates {
        meso: None,
        sol_erda: Some(with_square(24, 24, 4, 4, 16)),
        sol_erda_piece: None,
    };
    assert_eq!(find_all_icons(&hay, &some).sol_erda, Some((16, 20)));
}

#[test]
fn region_config_at_baseline_and_double() {
    let c = get_region_config(&ImageDimensions { width: 1920, height: 1080 });
    assert_eq!(c.level, (10, 1030, 150, 40));
    assert_eq!(c.exp_bar, (480, 1050, 960, 25));
    assert_eq!(c.meso_offset, (60, -5, 250, 35));
    let d = get_region_config(&ImageDimensions { width: 3840, height: 2160 });
    assert_eq!(d.level, (20, 2060, 300, 80));
    assert_eq!(d.meso_offset, (120, -10, 500, 70));
    assert_eq!(d.sol_erda_piece_offset, (0, 120, 200, 60));
    let h = get_region_config(&ImageDimensions { width: 1280, height: 720 });
    assert_eq!(h.meso_offset, (40, -3, 166, 23));
}

#[test]
fn regions_follow_anchors_and_bounds() {
    let img = solid(1920, 1080, 10);
    let positions = IconPositions {
        meso: Some((100, 100)),
        sol_erda: Some((1900, 1070)),
        sol_erda_piece: None,
    };
    let r = crop_regions(&img, &positions);
    let level = r.level.unwrap();
    assert_eq!((level.width(), level.height()), (150, 40));
    assert!(r.exp.is_some());
    let meso = r.meso.unwrap();
    assert_eq!((meso.width(), meso.height()), (250, 35));
    assert!(r.sol_erda.is_none());
    assert!(r.sol_erda_piece.is_none());
}

#[test]
fn bright_solid_haystack_gives_no_match() {
    let needle = tiled_pattern(16);
    assert_eq!(find_icon_in_region(&solid(64, 64, 255), &needle, None), None);
    assert_eq!(find_icon_in_region(&solid(64, 64, 128), &needle, None), None);
    assert_eq!(find_icon_in_region(&solid(64, 64, 200), &solid(16, 16, 200), None), None);
}

#[test]
fn peak_translation_and_floor() {
    let half = 0.5f32.to_bits();
    let above = 0.75f32.to_bits();
    assert_eq!(anchor_from_peak((3, 5, above), 10, 20, 100, 100), Some((22, 40)));
    assert_eq!(anchor_from_peak((3, 5, half), 10, 20, 100, 100), None);
    assert_eq!(anchor_from_peak((3, 5, 0.25f32.to_bits()), 10, 20, 100, 100), None);
    assert_eq!(anchor_from_peak((30, 5, above), 0, 0, 100, 100), None);
    assert_eq!(anchor_from_peak((0, 0, 1.0f32.to_bits()), 0, 0, 1, 1), Some((0, 0)));
}

#[test]
fn needle_of_same_size_is_scored_at_its_one_placement() {
    let hay = with_square(32, 32, 8, 8, 16);
    let needle = with_square(32, 32, 8, 8, 16);
    assert_eq!(find_icon_in_region(&hay, &needle, None), Some((0, 0)));
}

#[test]
fn solid_search_area_in_busy_image_gives_no_match() {
    let hay = with_square(96, 64, 60, 24, 16);
    let needle = with_square(24, 24, 4, 4, 16);
    assert_eq!(find_icon_in_region(&hay, &needle, Some((0, 0, 48, 64))), None);
}

#[test]
fn scale_copies_empty_raster() {
    let empty = Raster::new(0, 3, vec![]).unwrap();
    let s = scale(&empty, 10, 10, Resample::Smooth);
    assert_eq!((s.width(), s.height()), (0, 3));
    assert!(s.pixels().is_empty());
}
