//! The records that one analysed screenshot, and a pair of them, produce.
use vstd::prelude::*;
use crate::parser::{COUNT_MAX, EXP_FULL, GAUGE_FULL};

verus! {

/// The fields read from one screenshot. Each is independently optional:
/// `None` means "not recognised", never zero.
pub struct HuntingScreenshotData {
    pub level: Option<i32>,
    /// Experience in thousandths of a percent (`67432` is 67.432%).
    pub exp_percent: Option<u32>,
    pub meso: Option<i64>,
    pub sol_erda_count: Option<i32>,
    pub sol_erda_gauge: Option<i32>,
    pub sol_erda_piece: Option<i64>,
}

impl HuntingScreenshotData {
    /// Every present field lies in its domain.
    pub open spec fn wf(&self) -> bool {
        &&& (self.exp_percent matches Some(e) ==> e < EXP_FULL)
        &&& (self.meso matches Some(m) ==> m >= 0)
        &&& (self.sol_erda_count matches Some(c) ==> 0 <= c <= COUNT_MAX)
        &&& (self.sol_erda_gauge matches Some(g) ==> 0 <= g <= GAUGE_FULL)
        &&& (self.sol_erda_piece matches Some(p) ==> p >= 0)
    }

    pub open spec fn is_empty(&self) -> bool {
        &&& self.level is None
        &&& self.exp_percent is None
        &&& self.meso is None
        &&& self.sol_erda_count is None
        &&& self.sol_erda_gauge is None
        &&& self.sol_erda_piece is None
    }
}

impl Default for HuntingScreenshotData {
    fn default() -> (r: Self)
        ensures
            r.is_empty(),
    {
        HuntingScreenshotData {
            level: None,
            exp_percent: None,
            meso: None,
            sol_erda_count: None,
            sol_erda_gauge: None,
            sol_erda_piece: None,
        }
    }
}

/// The start and end values of a session and what was gained between them.
/// Experience and the combined counter+gauge value are in thousandths.
pub struct HuntingResult {
    pub start_level: i32,
    pub end_level: i32,
    pub start_exp_percent: u32,
    pub end_exp_percent: u32,
    pub exp_gained: i64,
    pub start_meso: i64,
    pub end_meso: i64,
    pub meso_gained: i64,
    pub start_sol_erda: i32,
    pub end_sol_erda: i32,
    pub start_sol_erda_gauge: i32,
    pub end_sol_erda_gauge: i32,
    pub sol_erda_gained: i64,
    pub start_sol_erda_piece: i64,
    pub end_sol_erda_piece: i64,
    pub sol_erda_piece_gained: i64,
}

/// Top-left corners of the located icons, in source-image pixels.
#[derive(Clone, Copy)]
pub struct IconPositions {
    pub meso: Option<(u32, u32)>,
    pub sol_erda: Option<(u32, u32)>,
    pub sol_erda_piece: Option<(u32, u32)>,
}

/// Failures of a whole analysis, and of one recognition call.
pub enum OcrError {
    /// The image file could not be read or decoded.
    ImageLoadError(String),
    TemplateMatchError(String),
    /// The recognition backend could not be set up.
    ModelInitError(String),
    /// One recognition call failed.
    RecognitionError(String),
    ParseError(String),
    ResourcePathError(String),
}

} // verus!
