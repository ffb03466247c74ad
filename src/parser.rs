//! Parsers from recognised text to field values. Each one is total: text
//! with no match, and text whose match lies outside the field's range, both
//! give `None`.
use vstd::prelude::*;
use crate::scan::{
    at_word_start, capped, char_at, chars_of, digit_at, has_char_at, has_digit_at,
    num_value, opt_nat, run_end, seps_end, skip_seps, skip_spaces, span_end, span_end_at,
    spaces_end, value_between, word_start, NUM_CAP,
};

verus! {

/// Lowest level that the game shows.
pub const MIN_LEVEL: u64 = 1;

/// Highest level that the game shows.
pub const MAX_LEVEL: u64 = 300;

/// Experience is held in thousandths of a percent; this is one percent.
pub const EXP_SCALE: u64 = 1000;

/// A full level of experience (100%) in thousandths of a percent.
pub const EXP_FULL: u64 = 100_000;

/// Largest counter value.
pub const COUNT_MAX: u64 = 20;

/// Gauge values lie below this bound.
pub const GAUGE_FULL: u64 = 1000;

/// Largest fragment count.
pub const PIECE_MAX: u64 = 99_999;

/// Largest value of one part of a currency amount written with units.
pub const UNIT_PART_MAX: u64 = 9_999;

/// The hundred-million unit (억).
pub const HUNDRED_MILLION: u64 = 100_000_000;

/// The ten-thousand unit (만).
pub const TEN_THOUSAND: u64 = 10_000;

/// Smallest currency amount accepted in comma-grouped form.
pub const GROUPED_FLOOR: u64 = 100_000_000;

/// The patterns that the parsers look for at each position of a text.
#[derive(Clone, Copy)]
pub enum Pattern {
    /// `L` or `l`, `V` or `v`, dots or spaces, then the level.
    Level,
    /// Digits, a point, digits, spaces, then `%`.
    ExpDecimal,
    /// One or two digits, spaces, then `%`.
    ExpWhole,
    /// A run of one or two digits.
    Count,
    /// Digits, spaces, `/`, spaces, then `1000` or `1,000`.
    Gauge,
    /// A currency amount written with the 억 (or its misread 역) and 만 units.
    MesoUnits,
    /// A comma-grouped currency amount.
    MesoGrouped,
    /// A number next to the word 조각 (fragment).
    PieceLabel,
}

/// `s[i..]` starts with `1000` or `1,000`; the index past it, or -1.
pub open spec fn thousand_end(s: Seq<char>, i: int) -> int {
    if 0 <= i && i + 4 <= s.len() && s[i] == '1' && s[i + 1] == '0' && s[i + 2] == '0' && s[i
        + 3] == '0' {
        i + 4
    } else if 0 <= i && i + 5 <= s.len() && s[i] == '1' && s[i + 1] == ',' && s[i + 2] == '0'
        && s[i + 3] == '0' && s[i + 4] == '0' {
        i + 5
    } else {
        -1
    }
}

/// Index past the groups of a comma and three digits from `j` on.
pub open spec fn groups_end(s: Seq<char>, j: int) -> int
    decreases s.len() - j,
{
    if 0 <= j && j + 4 <= s.len() && s[j] == ',' && run_end(s, j + 1) == j + 4 {
        groups_end(s, j + 4)
    } else {
        j
    }
}

pub open spec fn is_eok(c: char) -> bool {
    c == '억' || c == '역'
}

/// The trailing ones part of a currency amount at `m`: absent is 0.
pub open spec fn ones_part(s: Seq<char>, m: int) -> Option<nat> {
    if has_digit_at(s, m) {
        let v = num_value(s, m, run_end(s, m));
        if v <= UNIT_PART_MAX {
            Some(v)
        } else {
            None
        }
    } else {
        Some(0)
    }
}

/// What follows the 억 unit at `m`: an optional `B 만`, then optional ones.
pub open spec fn after_eok(s: Seq<char>, m: int) -> Option<nat> {
    if has_digit_at(s, m) {
        let e = run_end(s, m);
        let v = num_value(s, m, e);
        let k = spaces_end(s, e);
        if v > UNIT_PART_MAX {
            None
        } else if has_char_at(s, k, '만') {
            match ones_part(s, spaces_end(s, k + 1)) {
                Some(c) => Some((v * TEN_THOUSAND + c) as nat),
                None => None,
            }
        } else {
            Some(v)
        }
    } else {
        Some(0)
    }
}

pub open spec fn level_at(s: Seq<char>, i: int) -> Option<nat> {
    if 0 <= i && i + 1 < s.len() && (s[i] == 'L' || s[i] == 'l') && (s[i + 1] == 'V' || s[i
        + 1] == 'v') {
        let j = seps_end(s, i + 2, '.');
        if has_digit_at(s, j) {
            let v = num_value(s, j, run_end(s, j));
            if MIN_LEVEL <= v <= MAX_LEVEL {
                Some(v)
            } else {
                None
            }
        } else {
            None
        }
    } else {
        None
    }
}

/// The first three fractional digits of `s[j..e]`, in thousandths.
pub open spec fn frac_thousandths(s: Seq<char>, j: int, e: int) -> nat {
    if e - j >= 3 {
        num_value(s, j, j + 3)
    } else if e - j == 2 {
        num_value(s, j, e) * 10
    } else {
        num_value(s, j, e) * 100
    }
}

pub open spec fn exp_decimal_at(s: Seq<char>, i: int) -> Option<nat> {
    if has_digit_at(s, i) && word_start(s, i) {
        let a = run_end(s, i);
        if has_char_at(s, a, '.') && has_digit_at(s, a + 1) {
            let f = run_end(s, a + 1);
            let whole = num_value(s, i, a);
            if has_char_at(s, spaces_end(s, f), '%') && whole < 100 {
                Some((whole * EXP_SCALE + frac_thousandths(s, a + 1, f)) as nat)
            } else {
                None
            }
        } else {
            None
        }
    } else {
        None
    }
}

pub open spec fn exp_whole_at(s: Seq<char>, i: int) -> Option<nat> {
    if has_digit_at(s, i) && word_start(s, i) && !(i > 0 && s[i - 1] == '.') {
        let e = run_end(s, i);
        if e - i <= 2 && has_char_at(s, spaces_end(s, e), '%') {
            Some((num_value(s, i, e) * EXP_SCALE) as nat)
        } else {
            None
        }
    } else {
        None
    }
}

pub open spec fn count_at(s: Seq<char>, i: int) -> Option<nat> {
    if has_digit_at(s, i) && word_start(s, i) {
        let e = run_end(s, i);
        let v = num_value(s, i, e);
        if e - i <= 2 && v <= COUNT_MAX {
            Some(v)
        } else {
            None
        }
    } else {
        None
    }
}

pub open spec fn gauge_at(s: Seq<char>, i: int) -> Option<nat> {
    if has_digit_at(s, i) && word_start(s, i) {
        let e = run_end(s, i);
        let k = spaces_end(s, e);
        if has_char_at(s, k, '/') {
            let t = thousand_end(s, spaces_end(s, k + 1));
            let v = num_value(s, i, e);
            if t >= 0 && !has_digit_at(s, t) && v < GAUGE_FULL {
                Some(v)
            } else {
                None
            }
        } else {
            None
        }
    } else {
        None
    }
}

pub open spec fn meso_units_at(s: Seq<char>, i: int) -> Option<nat> {
    if has_digit_at(s, i) && word_start(s, i) {
        let e = run_end(s, i);
        let a = num_value(s, i, e);
        let k = spaces_end(s, e);
        if a > UNIT_PART_MAX || k >= s.len() {
            None
        } else if is_eok(s[k]) {
            match after_eok(s, spaces_end(s, k + 1)) {
                Some(r) => Some((a * HUNDRED_MILLION + r) as nat),
                None => None,
            }
        } else if s[k] == '만' {
            match ones_part(s, spaces_end(s, k + 1)) {
                Some(c) => Some((a * TEN_THOUSAND + c) as nat),
                None => None,
            }
        } else {
            None
        }
    } else {
        None
    }
}

pub open spec fn meso_grouped_at(s: Seq<char>, i: int) -> Option<nat> {
    if has_digit_at(s, i) && word_start(s, i) {
        let e = run_end(s, i);
        let g = groups_end(s, e);
        let v = num_value(s, i, g);
        if e - i <= 3 && g > e && !has_digit_at(s, g) && GROUPED_FLOOR <= v < NUM_CAP {
            Some(v)
        } else {
            None
        }
    } else {
        None
    }
}

pub open spec fn is_piece_word(s: Seq<char>, i: int) -> bool {
    has_char_at(s, i, '조') && has_char_at(s, i + 1, '각')
}

pub open spec fn piece_label_at(s: Seq<char>, i: int) -> Option<nat> {
    if is_piece_word(s, i) {
        let j = seps_end(s, i + 2, ':');
        if has_digit_at(s, j) {
            let v = num_value(s, j, run_end(s, j));
            if v <= PIECE_MAX {
                Some(v)
            } else {
                None
            }
        } else {
            None
        }
    } else if has_digit_at(s, i) && word_start(s, i) {
        let e = run_end(s, i);
        let v = num_value(s, i, e);
        if is_piece_word(s, spaces_end(s, e)) && v <= PIECE_MAX {
            Some(v)
        } else {
            None
        }
    } else {
        None
    }
}

pub open spec fn pattern_at(p: Pattern, s: Seq<char>, i: int) -> Option<nat> {
    match p {
        Pattern::Level => level_at(s, i),
        Pattern::ExpDecimal => exp_decimal_at(s, i),
        Pattern::ExpWhole => exp_whole_at(s, i),
        Pattern::Count => count_at(s, i),
        Pattern::Gauge => gauge_at(s, i),
        Pattern::MesoUnits => meso_units_at(s, i),
        Pattern::MesoGrouped => meso_grouped_at(s, i),
        Pattern::PieceLabel => piece_label_at(s, i),
    }
}

/// The value at the first position from `i` on where `p` matches.
pub open spec fn first_from(p: Pattern, s: Seq<char>, i: int) -> Option<nat>
    decreases s.len() - i,
{
    if 0 <= i < s.len() {
        if pattern_at(p, s, i) is Some {
            pattern_at(p, s, i)
        } else {
            first_from(p, s, i + 1)
        }
    } else {
        None
    }
}

pub open spec fn first_match(p: Pattern, s: Seq<char>) -> Option<nat> {
    first_from(p, s, 0)
}

/// The whole text, spaces around it aside, is one run of digits
/// (or of digits and commas, when `comma` holds) that starts with a digit.
pub open spec fn bare_number(s: Seq<char>, comma: bool) -> Option<nat> {
    let a = spaces_end(s, 0);
    let e = span_end(s, a, comma);
    if has_digit_at(s, a) && spaces_end(s, e) == s.len() {
        Some(num_value(s, a, e))
    } else {
        None
    }
}

pub open spec fn or_else(a: Option<nat>, b: Option<nat>) -> Option<nat> {
    if a is Some {
        a
    } else {
        b
    }
}

pub open spec fn level_of(s: Seq<char>) -> Option<nat> {
    first_match(Pattern::Level, s)
}

pub open spec fn exp_of(s: Seq<char>) -> Option<nat> {
    or_else(first_match(Pattern::ExpDecimal, s), first_match(Pattern::ExpWhole, s))
}

pub open spec fn meso_of(s: Seq<char>) -> Option<nat> {
    let bare = match bare_number(s, false) {
        Some(v) if v < NUM_CAP => Some(v),
        _ => None,
    };
    or_else(first_match(Pattern::MesoUnits, s), or_else(first_match(Pattern::MesoGrouped, s), bare))
}

pub open spec fn count_of(s: Seq<char>) -> Option<nat> {
    first_match(Pattern::Count, s)
}

pub open spec fn gauge_of(s: Seq<char>) -> Option<nat> {
    first_match(Pattern::Gauge, s)
}

pub open spec fn piece_of(s: Seq<char>) -> Option<nat> {
    let bare = match bare_number(s, true) {
        Some(v) if v <= PIECE_MAX => Some(v),
        _ => None,
    };
    or_else(first_match(Pattern::PieceLabel, s), bare)
}

/// Reads the digit run at `i`: its end, and its value held at `NUM_CAP`.
fn read_run(s: &Vec<char>, i: usize) -> (r: (usize, u64))
    requires
        i <= s.len(),
    ensures
        r.0 as int == run_end(s@, i as int),
        i <= r.0 <= s.len(),
        r.1 as nat == capped(num_value(s@, i as int, r.0 as int)),
{
    let e = span_end_at(s, i, false);
    (e, value_between(s, i, e))
}

fn level_at_exec(s: &Vec<char>, i: usize) -> (r: Option<u64>)
    requires
        i < s.len(),
    ensures
        opt_nat(r) == level_at(s@, i as int),
{
    if i + 1 >= s.len() {
        return None;
    }
    let c0 = s[i];
    let c1 = s[i + 1];
    if !((c0 == 'L' || c0 == 'l') && (c1 == 'V' || c1 == 'v')) {
        return None;
    }
    let j = skip_seps(s, i + 2, '.');
    if !digit_at(s, j) {
        return None;
    }
    let (_e, v) = read_run(s, j);
    if MIN_LEVEL <= v && v <= MAX_LEVEL {
        Some(v)
    } else {
        None
    }
}


fn thousand_end_exec(s: &Vec<char>, i: usize) -> (r: Option<usize>)
    requires
        i <= s.len(),
    ensures
        match r {
            Some(t) => t as int == thousand_end(s@, i as int) && t <= s.len(),
            None => thousand_end(s@, i as int) == -1,
        },
{
    let n = s.len();
    if n - i >= 4 && s[i] == '1' && s[i + 1] == '0' && s[i + 2] == '0' && s[i + 3] == '0' {
        Some(i + 4)
    } else if n - i >= 5 && s[i] == '1' && s[i + 1] == ',' && s[i + 2] == '0' && s[i + 3] == '0'
        && s[i + 4] == '0' {
        Some(i + 5)
    } else {
        None
    }
}

fn groups_end_exec(s: &Vec<char>, j0: usize) -> (r: usize)
    requires
        j0 <= s.len(),
    ensures
        r as int == groups_end(s@, j0 as int),
        j0 <= r <= s.len(),
{
    let mut j = j0;
    loop
        invariant
            j0 <= j <= s.len(),
            groups_end(s@, j0 as int) == groups_end(s@, j as int),
        decreases s.len() - j,
    {
        if s.len() - j >= 4 && s[j] == ',' {
            let e = span_end_at(s, j + 1, false);
            if e == j + 4 {
                j = j + 4;
            } else {
                return j;
            }
        } else {
            return j;
        }
    }
}

fn ones_part_exec(s: &Vec<char>, m: usize) -> (r: Option<u64>)
    requires
        m <= s.len(),
    ensures
        opt_nat(r) == ones_part(s@, m as int),
{
    if digit_at(s, m) {
        let (_e, v) = read_run(s, m);
        if v <= UNIT_PART_MAX {
            Some(v)
        } else {
            None
        }
    } else {
        Some(0)
    }
}

fn after_eok_exec(s: &Vec<char>, m: usize) -> (r: Option<u64>)
    requires
        m <= s.len(),
    ensures
        opt_nat(r) == after_eok(s@, m as int),
{
    if digit_at(s, m) {
        let (e, v) = read_run(s, m);
        let k = skip_spaces(s, e);
        if v > UNIT_PART_MAX {
            None
        } else if char_at(s, k, '만') {
            let k1 = skip_spaces(s, k + 1);
            match ones_part_exec(s, k1) {
                Some(c) => Some(v * TEN_THOUSAND + c),
                None => None,
            }
        } else {
            Some(v)
        }
    } else {
        Some(0)
    }
}

fn exp_decimal_at_exec(s: &Vec<char>, i: usize) -> (r: Option<u64>)
    requires
        i < s.len(),
    ensures
        opt_nat(r) == exp_decimal_at(s@, i as int),
{
    if !(digit_at(s, i) && at_word_start(s, i)) {
        return None;
    }
    let (a, whole) = read_run(s, i);
    if !(char_at(s, a, '.') && digit_at(s, a + 1)) {
        return None;
    }
    let f = span_end_at(s, a + 1, false);
    let k = skip_spaces(s, f);
    if !(char_at(s, k, '%') && whole < 100) {
        return None;
    }
    proof {
        lemma_num_value_digits_bound(s@, a as int + 1, a as int + 4);
        lemma_num_value_digits_bound(s@, a as int + 1, f as int);
    }
    let frac = if f - (a + 1) >= 3 {
        value_between(s, a + 1, a + 4)
    } else if f - (a + 1) == 2 {
        value_between(s, a + 1, f) * 10
    } else {
        value_between(s, a + 1, f) * 100
    };
    Some(whole * EXP_SCALE + frac)
}

fn exp_whole_at_exec(s: &Vec<char>, i: usize) -> (r: Option<u64>)
    requires
        i < s.len(),
    ensures
        opt_nat(r) == exp_whole_at(s@, i as int),
{
    if !(digit_at(s, i) && at_word_start(s, i) && !(i > 0 && s[i - 1] == '.')) {
        return None;
    }
    let (e, v) = read_run(s, i);
    let k = skip_spaces(s, e);
    if e - i <= 2 && char_at(s, k, '%') {
        proof {
            lemma_num_value_digits_bound(s@, i as int, e as int);
        }
        Some(v * EXP_SCALE)
    } else {
        None
    }
}

fn count_at_exec(s: &Vec<char>, i: usize) -> (r: Option<u64>)
    requires
        i < s.len(),
    ensures
        opt_nat(r) == count_at(s@, i as int),
{
    if !(digit_at(s, i) && at_word_start(s, i)) {
        return None;
    }
    let (e, v) = read_run(s, i);
    if e - i <= 2 && v <= COUNT_MAX {
        Some(v)
    } else {
        None
    }
}

fn gauge_at_exec(s: &Vec<char>, i: usize) -> (r: Option<u64>)
    requires
        i < s.len(),
    ensures
        opt_nat(r) == gauge_at(s@, i as int),
{
    if !(digit_at(s, i) && at_word_start(s, i)) {
        return None;
    }
    let (e, v) = read_run(s, i);
    let k = skip_spaces(s, e);
    if !char_at(s, k, '/') {
        return None;
    }
    let k1 = skip_spaces(s, k + 1);
    match thousand_end_exec(s, k1) {
        Some(t) => {
            if !digit_at(s, t) && v < GAUGE_FULL {
                Some(v)
            } else {
                None
            }
        },
        None => None,
    }
}

fn meso_units_at_exec(s: &Vec<char>, i: usize) -> (r: Option<u64>)
    requires
        i < s.len(),
    ensures
        opt_nat(r) == meso_units_at(s@, i as int),
{
    if !(digit_at(s, i) && at_word_start(s, i)) {
        return None;
    }
    let (e, a) = read_run(s, i);
    let k = skip_spaces(s, e);
    if a > UNIT_PART_MAX || k >= s.len() {
        return None;
    }
    let c = s[k];
    if c == '억' || c == '역' {
        let m = skip_spaces(s, k + 1);
        match after_eok_exec(s, m) {
            Some(rest) => Some(a * HUNDRED_MILLION + rest),
            None => None,
        }
    } else if c == '만' {
        let m = skip_spaces(s, k + 1);
        match ones_part_exec(s, m) {
            Some(ones) => Some(a * TEN_THOUSAND + ones),
            None => None,
        }
    } else {
        None
    }
}

fn meso_grouped_at_exec(s: &Vec<char>, i: usize) -> (r: Option<u64>)
    requires
        i < s.len(),
    ensures
        opt_nat(r) == meso_grouped_at(s@, i as int),
{
    if !(digit_at(s, i) && at_word_start(s, i)) {
        return None;
    }
    let e = span_end_at(s, i, false);
    let g = groups_end_exec(s, e);
    let v = value_between(s, i, g);
    if e - i <= 3 && g > e && !digit_at(s, g) && GROUPED_FLOOR <= v && v < NUM_CAP {
        Some(v)
    } else {
        None
    }
}

fn piece_word_at(s: &Vec<char>, i: usize) -> (r: bool)
    ensures
        r == is_piece_word(s@, i as int),
{
    char_at(s, i, '조') && i < s.len() && char_at(s, i + 1, '각')
}

fn piece_label_at_exec(s: &Vec<char>, i: usize) -> (r: Option<u64>)
    requires
        i < s.len(),
    ensures
        opt_nat(r) == piece_label_at(s@, i as int),
{
    if piece_word_at(s, i) {
        let j = skip_seps(s, i + 2, ':');
        if digit_at(s, j) {
            let (_e, v) = read_run(s, j);
            if v <= PIECE_MAX {
                Some(v)
            } else {
                None
            }
        } else {
            None
        }
    } else if digit_at(s, i) && at_word_start(s, i) {
        let (e, v) = read_run(s, i);
        let k = skip_spaces(s, e);
        if piece_word_at(s, k) && v <= PIECE_MAX {
            Some(v)
        } else {
            None
        }
    } else {
        None
    }
}

fn pattern_at_exec(p: Pattern, s: &Vec<char>, i: usize) -> (r: Option<u64>)
    requires
        i < s.len(),
    ensures
        opt_nat(r) == pattern_at(p, s@, i as int),
{
    match p {
        Pattern::Level => level_at_exec(s, i),
        Pattern::ExpDecimal => exp_decimal_at_exec(s, i),
        Pattern::ExpWhole => exp_whole_at_exec(s, i),
        Pattern::Count => count_at_exec(s, i),
        Pattern::Gauge => gauge_at_exec(s, i),
        Pattern::MesoUnits => meso_units_at_exec(s, i),
        Pattern::MesoGrouped => meso_grouped_at_exec(s, i),
        Pattern::PieceLabel => piece_label_at_exec(s, i),
    }
}

/// The value at the first position of `s` where `p` matches.
pub fn find_first(p: Pattern, s: &Vec<char>) -> (r: Option<u64>)
    ensures
        opt_nat(r) == first_match(p, s@),
{
    let mut i: usize = 0;
    while i < s.len()
        invariant
            i <= s.len(),
            first_from(p, s@, 0) == first_from(p, s@, i as int),
        decreases s.len() - i,
    {
        let r = pattern_at_exec(p, s, i);
        if r.is_some() {
            return r;
        }
        i += 1;
    }
    None
}

fn bare_number_exec(s: &Vec<char>, comma: bool) -> (r: Option<u64>)
    ensures
        match bare_number(s@, comma) {
            Some(v) => r == Some(capped(v) as u64),
            None => r is None,
        },
{
    let a = skip_spaces(s, 0);
    let e = span_end_at(s, a, comma);
    let k = skip_spaces(s, e);
    if digit_at(s, a) && k == s.len() {
        Some(value_between(s, a, e))
    } else {
        None
    }
}

/// A digit span of `n` characters is worth less than `10^n`; here for
/// the short spans the experience parser reads.
proof fn lemma_num_value_digits_bound(s: Seq<char>, i: int, j: int)
    ensures
        j - i <= 3 ==> num_value(s, i, j) < 1000,
        j - i <= 2 ==> num_value(s, i, j) < 100,
        j - i <= 1 ==> num_value(s, i, j) < 10,
    decreases j - i,
{
    if j > i {
        lemma_num_value_digits_bound(s, i, j - 1);
    }
}

pub open spec fn agrees_i32(r: Option<i32>, v: Option<nat>) -> bool {
    match v {
        Some(n) => r == Some(n as i32),
        None => r is None,
    }
}

pub open spec fn agrees_u32(r: Option<u32>, v: Option<nat>) -> bool {
    match v {
        Some(n) => r == Some(n as u32),
        None => r is None,
    }
}

pub open spec fn agrees_i64(r: Option<i64>, v: Option<nat>) -> bool {
    match v {
        Some(n) => r == Some(n as i64),
        None => r is None,
    }
}

/// Level: `Lv.287`, `LV287`, `Lv 300`; the first such mark whose number
/// lies in `MIN_LEVEL..=MAX_LEVEL`.
pub fn parse_level(text: &str) -> (r: Option<i32>)
    ensures
        agrees_i32(r, level_of(text@)),
        r matches Some(v) ==> MIN_LEVEL <= v <= MAX_LEVEL,
{
    let s = chars_of(text);
    let r = find_first(Pattern::Level, &s);
    proof {
        lemma_first_is_match(Pattern::Level, s@, 0);
    }
    match r {
        Some(v) => Some(v as i32),
        None => None,
    }
}

/// Experience percent, in thousandths of a percent (`67.432%` is 67432):
/// the first decimal form below 100%, else the first whole form of one or
/// two digits. Fraction digits past the third are dropped.
pub fn parse_exp(text: &str) -> (r: Option<u32>)
    ensures
        agrees_u32(r, exp_of(text@)),
        r matches Some(v) ==> v < EXP_FULL,
{
    let s = chars_of(text);
    let r = match find_first(Pattern::ExpDecimal, &s) {
        Some(v) => Some(v),
        None => find_first(Pattern::ExpWhole, &s),
    };
    proof {
        lemma_exp_below_full(s@);
    }
    match r {
        Some(v) => Some(v as u32),
        None => None,
    }
}


/// A bound that holds at every match holds of the first one.
proof fn lemma_first_bounded(p: Pattern, s: Seq<char>, i: int, b: nat)
    requires
        forall|k: int|
            0 <= k < s.len() && (#[trigger] pattern_at(p, s, k)) is Some ==> pattern_at(
                p,
                s,
                k,
            )->0 < b,
    ensures
        first_from(p, s, i) matches Some(v) ==> v < b,
    decreases s.len() - i,
{
    if 0 <= i < s.len() {
        lemma_first_bounded(p, s, i + 1, b);
    }
}

proof fn lemma_exp_at_bounded(s: Seq<char>, k: int)
    ensures
        exp_decimal_at(s, k) matches Some(v) ==> v < EXP_FULL,
        exp_whole_at(s, k) matches Some(v) ==> v < EXP_FULL,
{
    if has_digit_at(s, k) {
        let a = run_end(s, k);
        let f = run_end(s, a + 1);
        lemma_num_value_digits_bound(s, a + 1, a + 4);
        lemma_num_value_digits_bound(s, a + 1, f);
        lemma_num_value_digits_bound(s, k, a);
    }
}

proof fn lemma_exp_below_full(s: Seq<char>)
    ensures
        exp_of(s) matches Some(v) ==> v < EXP_FULL,
{
    assert forall|k: int|
        0 <= k < s.len() && (#[trigger] pattern_at(Pattern::ExpDecimal, s, k)) is Some
            implies pattern_at(Pattern::ExpDecimal, s, k)->0 < EXP_FULL by {
        lemma_exp_at_bounded(s, k);
    }
    assert forall|k: int|
        0 <= k < s.len() && (#[trigger] pattern_at(Pattern::ExpWhole, s, k)) is Some
            implies pattern_at(Pattern::ExpWhole, s, k)->0 < EXP_FULL by {
        lemma_exp_at_bounded(s, k);
    }
    lemma_first_bounded(Pattern::ExpDecimal, s, 0, EXP_FULL as nat);
    lemma_first_bounded(Pattern::ExpWhole, s, 0, EXP_FULL as nat);
}

/// The first match is the value of the pattern at some position.
proof fn lemma_first_is_match(p: Pattern, s: Seq<char>, i: int)
    ensures
        first_from(p, s, i) is Some ==> exists|k: int|
            0 <= k < s.len() && #[trigger] pattern_at(p, s, k) == first_from(p, s, i),
    decreases s.len() - i,
{
    if 0 <= i < s.len() {
        lemma_first_is_match(p, s, i + 1);
    }
}

/// Currency: first an amount written with units (`25억 2758만 6086`, with
/// `역` read as `억`), else the first comma-grouped amount of at least
/// `GROUPED_FLOOR`, else a text that is one bare run of digits.
pub fn parse_meso(text: &str) -> (r: Option<i64>)
    ensures
        agrees_i64(r, meso_of(text@)),
        r matches Some(v) ==> 0 <= v < NUM_CAP,
{
    let s = chars_of(text);
    let units = find_first(Pattern::MesoUnits, &s);
    let grouped = find_first(Pattern::MesoGrouped, &s);
    let bare = match bare_number_exec(&s, false) {
        Some(v) => if v < NUM_CAP {
            Some(v)
        } else {
            None
        },
        None => None,
    };
    proof {
        lemma_first_is_match(Pattern::MesoUnits, s@, 0);
        lemma_first_is_match(Pattern::MesoGrouped, s@, 0);
    }
    let r = if units.is_some() {
        units
    } else if grouped.is_some() {
        grouped
    } else {
        bare
    };
    match r {
        Some(v) => Some(v as i64),
        None => None,
    }
}

/// Counter: the first run of one or two digits worth at most `COUNT_MAX`.
pub fn parse_sol_erda_count(text: &str) -> (r: Option<i32>)
    ensures
        agrees_i32(r, count_of(text@)),
        r matches Some(v) ==> 0 <= v <= COUNT_MAX,
{
    let s = chars_of(text);
    let r = find_first(Pattern::Count, &s);
    proof {
        lemma_first_is_match(Pattern::Count, s@, 0);
    }
    match r {
        Some(v) => Some(v as i32),
        None => None,
    }
}

/// Gauge: the first number followed by `/1000` (or `/1,000`) that lies
/// below `GAUGE_FULL`.
pub fn parse_sol_erda_gauge(text: &str) -> (r: Option<i32>)
    ensures
        agrees_i32(r, gauge_of(text@)),
        r matches Some(v) ==> 0 <= v < GAUGE_FULL,
{
    let s = chars_of(text);
    let r = find_first(Pattern::Gauge, &s);
    proof {
        lemma_first_is_match(Pattern::Gauge, s@, 0);
    }
    match r {
        Some(v) => Some(v as i32),
        None => None,
    }
}

/// Fragment count: the first number next to the word 조각 that is at most
/// `PIECE_MAX`, else a text that is one bare number (commas allowed).
pub fn parse_sol_erda_piece(text: &str) -> (r: Option<i64>)
    ensures
        agrees_i64(r, piece_of(text@)),
        r matches Some(v) ==> 0 <= v <= PIECE_MAX,
{
    let s = chars_of(text);
    let label = find_first(Pattern::PieceLabel, &s);
    let bare = match bare_number_exec(&s, true) {
        Some(v) => if v <= PIECE_MAX {
            Some(v)
        } else {
            None
        },
        None => None,
    };
    proof {
        lemma_first_is_match(Pattern::PieceLabel, s@, 0);
    }
    let r = if label.is_some() {
        label
    } else {
        bare
    };
    match r {
        Some(v) => Some(v as i64),
        None => None,
    }
}

} // verus!
