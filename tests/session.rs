use maple_ocr::session::calculate_hunting_result;
use maple_ocr::types::HuntingScreenshotData;

fn snapshot(level: Option<i32>, exp: Option<u32>) -> HuntingScreenshotData {
    HuntingScreenshotData {
        level,
        exp_percent: exp,
        meso: None,
        sol_erda_count: None,
        sol_erda_gauge: None,
        sol_erda_piece: None,
    }
}

fn thousandths(v: i64) -> f64 {
    v as f64 / 1000.0
}

#[test]
fn wraparound_over_two_level_ups() {
    let start = snapshot(Some(199), Some(80_000));
    let end = snapshot(Some(201), Some(10_000));
    let r = calculate_hunting_result(&start, &end).unwrap();
    assert_eq!(thousandths(r.exp_gained), 130.0);
    assert_eq!(r.start_level, 199);
    assert_eq!(r.end_level, 201);
}

#[test]
fn no_level_change() {
    let start = snapshot(Some(200), Some(30_000));
    let end = snapshot(Some(200), Some(45_500));
    let r = calculate_hunting_result(&start, &end).unwrap();
    assert_eq!(thousandths(r.exp_gained), 15.5);
}

#[test]
fn single_level_up() {
    let start = snapshot(Some(250), Some(95_000));
    let end = snapshot(Some(251), Some(2_500));
    let r = calculate_hunting_result(&start, &end).unwrap();
    assert_eq!(r.exp_gained, 7_500);
}

#[test]
fn combined_counter_and_gauge() {
    let mut start = HuntingScreenshotData::default();
    start.sol_erda_count = Some(5);
    start.sol_erda_gauge = Some(200);
    let mut end = HuntingScreenshotData::default();
    end.sol_erda_count = Some(7);
    end.sol_erda_gauge = Some(50);
    let r = calculate_hunting_result(&start, &end).unwrap();
    assert_eq!(thousandths(r.sol_erda_gained), 1.85);
    assert_eq!(r.start_sol_erda, 5);
    assert_eq!(r.end_sol_erda_gauge, 50);
}

#[test]
fn counter_rollover_is_not_wrapped() {
    let mut start = HuntingScreenshotData::default();
    start.sol_erda_count = Some(20);
    start.sol_erda_gauge = Some(900);
    let mut end = HuntingScreenshotData::default();
    end.sol_erda_count = Some(0);
    end.sol_erda_gauge = Some(100);
    let r = calculate_hunting_result(&start, &end).unwrap();
    assert_eq!(r.sol_erda_gained, -20_800);
}

#[test]
fn all_absent_reconciled_with_itself() {
    let empty = HuntingScreenshotData::default();
    let r = calculate_hunting_result(&empty, &empty).unwrap();
    assert_eq!(r.exp_gained, 0);
    assert_eq!(r.meso_gained, 0);
    assert_eq!(r.sol_erda_gained, 0);
    assert_eq!(r.sol_erda_piece_gained, 0);
    assert_eq!(r.start_level, 0);
}

#[test]
fn currency_and_fragments_may_decrease() {
    let mut start = HuntingScreenshotData::default();
    start.meso = Some(2_000_000_000);
    start.sol_erda_piece = Some(40);
    let mut end = HuntingScreenshotData::default();
    end.meso = Some(1_500_000_000);
    end.sol_erda_piece = Some(52);
    let r = calculate_hunting_result(&start, &end).unwrap();
    assert_eq!(r.meso_gained, -500_000_000);
    assert_eq!(r.sol_erda_piece_gained, 12);
}

#[test]
fn missing_start_level_counts_as_zero() {
    let start = snapshot(None, Some(10_000));
    let end = snapshot(Some(2), Some(20_000));
    let r = calculate_hunting_result(&start, &end).unwrap();
    assert_eq!(r.exp_gained, 90_000 + 100_000 + 20_000);
}
