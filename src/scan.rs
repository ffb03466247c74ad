//! Character-level scanning over recognised text: digit runs, separators
//! and their numeric values, with exact specifications.
use vstd::prelude::*;

verus! {

/// Values at or above this bound are not told apart by the scanners.
pub const NUM_CAP: u64 = 1_000_000_000_000_000_000;

pub open spec fn is_digit(c: char) -> bool {
    48 <= (c as u32) && (c as u32) <= 57
}

pub open spec fn digit_val(c: char) -> nat {
    if is_digit(c) {
        ((c as u32) - 48) as nat
    } else {
        0
    }
}

/// Unicode white space (the `White_Space` property): tab through
/// carriage return, space, next line, no-break space, ogham space, the
/// en quad through hair space, the line and paragraph separators, narrow
/// no-break space, medium mathematical space and ideographic space.
pub open spec fn is_space(c: char) -> bool {
    let u = c as u32;
    (0x09 <= u && u <= 0x0D) || u == 0x20 || u == 0x85 || u == 0xA0 || u == 0x1680 || (0x2000
        <= u && u <= 0x200A) || u == 0x2028 || u == 0x2029 || u == 0x202F || u == 0x205F || u
        == 0x3000
}

/// A run of digits does not continue from the left at `i`.
pub open spec fn word_start(s: Seq<char>, i: int) -> bool {
    i == 0 || !is_digit(s[i - 1])
}

/// Index just past the characters from `i` on that are digits, or commas
/// when `comma` holds.
pub open spec fn span_end(s: Seq<char>, i: int, comma: bool) -> int
    decreases s.len() - i,
{
    if 0 <= i < s.len() && (is_digit(s[i]) || (comma && s[i] == ',')) {
        span_end(s, i + 1, comma)
    } else {
        i
    }
}

/// Index just past the run of digits that starts at `i`.
pub open spec fn run_end(s: Seq<char>, i: int) -> int {
    span_end(s, i, false)
}

/// Index just past the whitespace, and copies of `sep`, from `i` on.
pub open spec fn seps_end(s: Seq<char>, i: int, sep: char) -> int
    decreases s.len() - i,
{
    if 0 <= i < s.len() && (is_space(s[i]) || s[i] == sep) {
        seps_end(s, i + 1, sep)
    } else {
        i
    }
}

pub open spec fn spaces_end(s: Seq<char>, i: int) -> int {
    seps_end(s, i, ' ')
}

/// The number that the digits of `s[i..j]` spell, other characters skipped.
pub open spec fn num_value(s: Seq<char>, i: int, j: int) -> nat
    decreases j - i,
{
    if j <= i {
        0
    } else if is_digit(s[j - 1]) {
        num_value(s, i, j - 1) * 10 + digit_val(s[j - 1])
    } else {
        num_value(s, i, j - 1)
    }
}

pub open spec fn capped(v: nat) -> nat {
    if v < NUM_CAP {
        v
    } else {
        NUM_CAP as nat
    }
}

pub open spec fn has_digit_at(s: Seq<char>, i: int) -> bool {
    0 <= i < s.len() && is_digit(s[i])
}

pub open spec fn has_char_at(s: Seq<char>, i: int, c: char) -> bool {
    0 <= i < s.len() && s[i] == c
}

pub open spec fn opt_nat(r: Option<u64>) -> Option<nat> {
    match r {
        Some(v) => Some(v as nat),
        None => None,
    }
}

/// The characters of `text`, one per element.
pub fn chars_of(text: &str) -> (r: Vec<char>)
    ensures
        r@ == text@,
{
    let n = text.unicode_len();
    let mut out: Vec<char> = Vec::new();
    let mut i: usize = 0;
    while i < n
        invariant
            n == text@.len(),
            i <= n,
            out@ == text@.subrange(0, i as int),
        decreases n - i,
    {
        let c = text.get_char(i);
        out.push(c);
        i += 1;
        assert(out@ =~= text@.subrange(0, i as int));
    }
    assert(out@ =~= text@);
    out
}

pub fn is_digit_char(c: char) -> (r: bool)
    ensures
        r == is_digit(c),
{
    48 <= (c as u32) && (c as u32) <= 57
}

pub fn is_space_char(c: char) -> (r: bool)
    ensures
        r == is_space(c),
{
    let u = c as u32;
    (0x09 <= u && u <= 0x0D) || u == 0x20 || u == 0x85 || u == 0xA0 || u == 0x1680 || (0x2000
        <= u && u <= 0x200A) || u == 0x2028 || u == 0x2029 || u == 0x202F || u == 0x205F || u
        == 0x3000
}

pub fn digit_at(s: &Vec<char>, i: usize) -> (r: bool)
    ensures
        r == has_digit_at(s@, i as int),
{
    i < s.len() && is_digit_char(s[i])
}

pub fn char_at(s: &Vec<char>, i: usize, c: char) -> (r: bool)
    ensures
        r == has_char_at(s@, i as int, c),
{
    i < s.len() && s[i] == c
}

pub fn at_word_start(s: &Vec<char>, i: usize) -> (r: bool)
    requires
        i <= s.len(),
    ensures
        r == word_start(s@, i as int),
{
    i == 0 || !is_digit_char(s[i - 1])
}

pub fn skip_seps(s: &Vec<char>, i: usize, sep: char) -> (r: usize)
    requires
        i <= s.len(),
    ensures
        r as int == seps_end(s@, i as int, sep),
        i <= r <= s.len(),
{
    let mut j = i;
    while j < s.len() && (is_space_char(s[j]) || s[j] == sep)
        invariant
            i <= j <= s.len(),
            seps_end(s@, i as int, sep) == seps_end(s@, j as int, sep),
        decreases s.len() - j,
    {
        j += 1;
    }
    j
}

pub fn skip_spaces(s: &Vec<char>, i: usize) -> (r: usize)
    requires
        i <= s.len(),
    ensures
        r as int == spaces_end(s@, i as int),
        i <= r <= s.len(),
{
    skip_seps(s, i, ' ')
}

pub fn span_end_at(s: &Vec<char>, i: usize, comma: bool) -> (r: usize)
    requires
        i <= s.len(),
    ensures
        r as int == span_end(s@, i as int, comma),
        i <= r <= s.len(),
{
    let mut j = i;
    while j < s.len() && (is_digit_char(s[j]) || (comma && s[j] == ','))
        invariant
            i <= j <= s.len(),
            span_end(s@, i as int, comma) == span_end(s@, j as int, comma),
        decreases s.len() - j,
    {
        j += 1;
    }
    j
}

/// The value of `s[i..j]`, held at `NUM_CAP` once it gets that large.
pub fn value_between(s: &Vec<char>, i: usize, j: usize) -> (r: u64)
    requires
        i <= j <= s.len(),
    ensures
        r as nat == capped(num_value(s@, i as int, j as int)),
{
    let mut k = i;
    let mut v: u64 = 0;
    while k < j
        invariant
            i <= k <= j <= s.len(),
            v as nat == capped(num_value(s@, i as int, k as int)),
        decreases j - k,
    {
        let c = s[k];
        if is_digit_char(c) {
            let d = (c as u32 - 48) as u64;
            if v < NUM_CAP {
                v = v * 10 + d;
                if v > NUM_CAP {
                    v = NUM_CAP;
                }
            }
        }
        k += 1;
    }
    v
}

} // verus!
