//! Reconciliation of a start and an end snapshot into what a session gained.
use vstd::prelude::*;
use crate::parser::{COUNT_MAX, EXP_FULL, GAUGE_FULL};
use crate::types::{HuntingResult, HuntingScreenshotData};

verus! {

pub open spec fn or_zero_i32(v: Option<i32>) -> int {
    match v {
        Some(x) => x as int,
        None => 0,
    }
}

pub open spec fn or_zero_u32(v: Option<u32>) -> int {
    match v {
        Some(x) => x as int,
        None => 0,
    }
}

pub open spec fn or_zero_i64(v: Option<i64>) -> int {
    match v {
        Some(x) => x as int,
        None => 0,
    }
}

/// Experience gained, in thousandths of a percent. Each level-up resets the
/// percentage, and each level passed in between counts in full.
pub open spec fn exp_gained_spec(start_level: int, start_exp: int, end_level: int, end_exp: int) -> int {
    let d = end_level - start_level;
    if d > 0 {
        (EXP_FULL - start_exp) + (d - 1) * EXP_FULL + end_exp
    } else {
        end_exp - start_exp
    }
}

/// Counter plus gauge/1000, in thousandths.
pub open spec fn combined_sol_erda(count: int, gauge: int) -> int {
    count * GAUGE_FULL + gauge
}

/// The result of reconciling `start` with `end`, absent fields read as 0.
pub open spec fn result_of(start: HuntingScreenshotData, end: HuntingScreenshotData) -> HuntingResult {
    let sl = or_zero_i32(start.level);
    let el = or_zero_i32(end.level);
    let se = or_zero_u32(start.exp_percent);
    let ee = or_zero_u32(end.exp_percent);
    let sm = or_zero_i64(start.meso);
    let em = or_zero_i64(end.meso);
    let sc = or_zero_i32(start.sol_erda_count);
    let ec = or_zero_i32(end.sol_erda_count);
    let sg = or_zero_i32(start.sol_erda_gauge);
    let eg = or_zero_i32(end.sol_erda_gauge);
    let sp = or_zero_i64(start.sol_erda_piece);
    let ep = or_zero_i64(end.sol_erda_piece);
    HuntingResult {
        start_level: sl as i32,
        end_level: el as i32,
        start_exp_percent: se as u32,
        end_exp_percent: ee as u32,
        exp_gained: exp_gained_spec(sl, se, el, ee) as i64,
        start_meso: sm as i64,
        end_meso: em as i64,
        meso_gained: (em - sm) as i64,
        start_sol_erda: sc as i32,
        end_sol_erda: ec as i32,
        start_sol_erda_gauge: sg as i32,
        end_sol_erda_gauge: eg as i32,
        sol_erda_gained: (combined_sol_erda(ec, eg) - combined_sol_erda(sc, sg)) as i64,
        start_sol_erda_piece: sp as i64,
        end_sol_erda_piece: ep as i64,
        sol_erda_piece_gained: (ep - sp) as i64,
    }
}

fn value_or_zero_i32(v: Option<i32>) -> (r: i32)
    ensures
        r == or_zero_i32(v),
{
    match v {
        Some(x) => x,
        None => 0,
    }
}

fn value_or_zero_u32(v: Option<u32>) -> (r: u32)
    ensures
        r == or_zero_u32(v),
{
    match v {
        Some(x) => x,
        None => 0,
    }
}

fn value_or_zero_i64(v: Option<i64>) -> (r: i64)
    ensures
        r == or_zero_i64(v),
{
    match v {
        Some(x) => x,
        None => 0,
    }
}

/// Reconciles two snapshots. It never fails: an absent field counts as 0,
/// so a caller that needs complete data inspects the snapshots themselves.
/// The counter+gauge difference has no wraparound: a counter that rolls
/// over within a session shows as a loss.
pub fn calculate_hunting_result(start: &HuntingScreenshotData, end: &HuntingScreenshotData) -> (r:
    Option<HuntingResult>)
    requires
        start.wf(),
        end.wf(),
    ensures
        r == Some(result_of(*start, *end)),
{
    let start_level: i32 = value_or_zero_i32(start.level);
    let end_level: i32 = value_or_zero_i32(end.level);
    let start_exp: u32 = value_or_zero_u32(start.exp_percent);
    let end_exp: u32 = value_or_zero_u32(end.exp_percent);
    let level_diff: i64 = end_level as i64 - start_level as i64;
    let exp_gained: i64 = if level_diff > 0 {
        (EXP_FULL as i64 - start_exp as i64) + (level_diff - 1) * (EXP_FULL as i64) + end_exp as i64
    } else {
        end_exp as i64 - start_exp as i64
    };
    let start_meso: i64 = value_or_zero_i64(start.meso);
    let end_meso: i64 = value_or_zero_i64(end.meso);
    let start_sol: i32 = value_or_zero_i32(start.sol_erda_count);
    let end_sol: i32 = value_or_zero_i32(end.sol_erda_count);
    let start_gauge: i32 = value_or_zero_i32(start.sol_erda_gauge);
    let end_gauge: i32 = value_or_zero_i32(end.sol_erda_gauge);
    let unit: i64 = GAUGE_FULL as i64;
    assert(0 <= start_sol * unit <= COUNT_MAX * 1000 && 0 <= end_sol * unit <= COUNT_MAX * 1000)
        by (nonlinear_arith)
        requires
            unit == 1000,
            0 <= start_sol <= COUNT_MAX,
            0 <= end_sol <= COUNT_MAX,
    ;
    let start_total: i64 = start_sol as i64 * unit + start_gauge as i64;
    let end_total: i64 = end_sol as i64 * unit + end_gauge as i64;
    let start_piece: i64 = value_or_zero_i64(start.sol_erda_piece);
    let end_piece: i64 = value_or_zero_i64(end.sol_erda_piece);
    assert(start_meso >= 0 && end_meso >= 0);
    Some(
        HuntingResult {
            start_level,
            end_level,
            start_exp_percent: start_exp,
            end_exp_percent: end_exp,
            exp_gained,
            start_meso,
            end_meso,
            meso_gained: end_meso - start_meso,
            start_sol_erda: start_sol,
            end_sol_erda: end_sol,
            start_sol_erda_gauge: start_gauge,
            end_sol_erda_gauge: end_gauge,
            sol_erda_gained: end_total - start_total,
            start_sol_erda_piece: start_piece,
            end_sol_erda_piece: end_piece,
            sol_erda_piece_gained: end_piece - start_piece,
        },
    )
}

/// Reconciling a snapshot with itself gains nothing, whichever of its
/// fields are present; in particular an all-absent snapshot gives all zero
/// gains rather than an error.
pub proof fn lemma_self_reconcile_gains_nothing(x: HuntingScreenshotData)
    requires
        x.wf(),
    ensures
        result_of(x, x).exp_gained == 0,
        result_of(x, x).meso_gained == 0,
        result_of(x, x).sol_erda_gained == 0,
        result_of(x, x).sol_erda_piece_gained == 0,
{
}

} // verus!
