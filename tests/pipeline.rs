use maple_ocr::locator::IconTemplates;
use maple_ocr::pipeline::{
    analyze_screenshot, enlarge, fields_from_texts, recognition_regions, RegionTexts, TextRecognizer,
};
use maple_ocr::raster::Raster;
use maple_ocr::types::OcrError;

struct Canned {
    replies: Vec<Result<String, OcrError>>,
    calls: usize,
}

impl TextRecognizer for Canned {
    fn recognize(&mut self, _image: &Raster) -> Result<String, OcrError> {
        self.calls += 1;
        if self.replies.is_empty() {
            Err(OcrError::RecognitionError("no more text".to_string()))
        } else {
            self.replies.remove(0)
        }
    }
}

fn blank(w: u32, h: u32) -> Raster {
    Raster::new(w, h, vec![0; (w * h * 4) as usize]).unwrap()
}

#[test]
fn fields_come_from_each_region_text() {
    let texts = RegionTexts {
        level: Some("Lv.287".to_string()),
        exp: Some("67.432%".to_string()),
        meso: Some("25억 2758만 6086".to_string()),
        sol_erda: Some("19 348/1000".to_string()),
        sol_erda_piece: Some("1,234".to_string()),
    };
    let d = fields_from_texts(&texts);
    assert_eq!(d.level, Some(287));
    assert_eq!(d.exp_percent, Some(67_432));
    assert_eq!(d.meso, Some(2_527_586_086));
    assert_eq!(d.sol_erda_count, Some(19));
    assert_eq!(d.sol_erda_gauge, Some(348));
    assert_eq!(d.sol_erda_piece, Some(1234));
}

#[test]
fn absent_texts_give_absent_fields() {
    let texts = RegionTexts { level: None, exp: None, meso: None, sol_erda: None, sol_erda_piece: None };
    let d = fields_from_texts(&texts);
    assert_eq!(d.level, None);
    assert_eq!(d.exp_percent, None);
    assert_eq!(d.sol_erda_gauge, None);
}

#[test]
fn analysis_reads_fixed_regions_with_stub_backend() {
    let img = blank(1920, 1080);
    let templates = IconTemplates { meso: None, sol_erda: None, sol_erda_piece: None };
    let mut ocr = Canned { replies: vec![Ok("Lv.287".to_string()), Ok("67.432%".to_string())], calls: 0 };
    let d = analyze_screenshot(&img, &templates, &mut ocr);
    assert_eq!(ocr.calls, 2);
    assert_eq!(d.level, Some(287));
    assert_eq!(d.exp_percent, Some(67_432));
    assert_eq!(d.meso, None);
    assert_eq!(d.sol_erda_count, None);
}

#[test]
fn failed_recognition_degrades_to_absent_field() {
    let img = blank(1920, 1080);
    let templates = IconTemplates { meso: None, sol_erda: None, sol_erda_piece: None };
    let mut ocr = Canned {
        replies: vec![Err(OcrError::RecognitionError("backend".to_string())), Ok("50%".to_string())],
        calls: 0,
    };
    let d = analyze_screenshot(&img, &templates, &mut ocr);
    assert_eq!(d.level, None);
    assert_eq!(d.exp_percent, Some(50_000));
}

#[test]
fn tiny_image_degrades_to_absent_fields() {
    let img = blank(8, 8);
    let templates = IconTemplates { meso: None, sol_erda: None, sol_erda_piece: None };
    let mut ocr = Canned { replies: vec![], calls: 0 };
    let d = analyze_screenshot(&img, &templates, &mut ocr);
    assert_eq!(ocr.calls, 2);
    assert_eq!(d.level, None);
    assert_eq!(d.exp_percent, None);
}

#[test]
fn whole_screen_text_is_parsed_field_by_field() {
    let d = maple_ocr::pipeline::parse_hunting_data("Lv.287 EXP 24.394% 29억 1300만 9385");
    assert_eq!(d.level, Some(287));
    assert_eq!(d.exp_percent, Some(24_394));
    assert_eq!(d.meso, Some(2_913_009_385));
    assert_eq!(d.sol_erda_gauge, None);
}

#[test]
fn regions_are_enlarged_before_recognition() {
    let img = blank(1920, 1080);
    let templates = IconTemplates { meso: None, sol_erda: None, sol_erda_piece: None };
    let r = recognition_regions(&img, &templates);
    let level = r.level.unwrap();
    assert_eq!((level.width(), level.height()), (450, 120));
    let exp = r.exp.unwrap();
    assert_eq!((exp.width(), exp.height()), (2880, 75));
    assert!(r.meso.is_none());
    let empty = Raster::new(0, 5, vec![]).unwrap();
    let same = enlarge(&empty);
    assert_eq!((same.width(), same.height()), (0, 5));
    let small = enlarge(&blank(4, 2));
    assert_eq!((small.width(), small.height()), (12, 6));
}
