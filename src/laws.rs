//! Properties of the parsers over decimal renderings of numbers.
use vstd::prelude::*;
use crate::parser::{
    after_eok, count_at, count_of, first_from, gauge_at, gauge_of, meso_of, meso_units_at,
    ones_part, pattern_at, Pattern, COUNT_MAX, GAUGE_FULL, HUNDRED_MILLION, TEN_THOUSAND,
};
use crate::scan::{
    digit_val, has_char_at, has_digit_at, is_digit, num_value, run_end, seps_end, span_end,
    word_start,
};

verus! {

pub open spec fn digit_char(d: nat) -> char {
    seq!['0', '1', '2', '3', '4', '5', '6', '7', '8', '9'][d as int]
}

/// `n` written in decimal, without leading zeros.
pub open spec fn decimal(n: nat) -> Seq<char>
    decreases n,
{
    if n < 10 {
        seq![digit_char(n)]
    } else {
        decimal(n / 10).push(digit_char(n % 10))
    }
}

/// `"{a}억 {b}만 {c}"`, with `unit` in place of 억.
pub open spec fn meso_text(a: nat, b: nat, c: nat, unit: char) -> Seq<char> {
    decimal(a) + seq![unit, ' '] + decimal(b) + seq!['만', ' '] + decimal(c)
}

/// `"{n}/1000"`.
pub open spec fn gauge_text(n: nat) -> Seq<char> {
    decimal(n) + seq!['/', '1', '0', '0', '0']
}

proof fn lemma_digit_char(d: nat)
    requires
        d < 10,
    ensures
        is_digit(digit_char(d)),
        digit_val(digit_char(d)) == d,
{
}

proof fn lemma_decimal(n: nat)
    ensures
        decimal(n).len() >= 1,
        n < 10 ==> decimal(n).len() == 1,
        n < 100 ==> decimal(n).len() <= 2,
        forall|k: int| 0 <= k < decimal(n).len() ==> is_digit(#[trigger] decimal(n)[k]),
        num_value(decimal(n), 0, decimal(n).len() as int) == n,
    decreases n,
{
    if n < 10 {
        lemma_digit_char(n);
        assert(num_value(decimal(n), 0, 0) == 0);
    } else {
        let p = decimal(n / 10);
        lemma_decimal(n / 10);
        lemma_digit_char(n % 10);
        let s = decimal(n);
        assert(s == p.push(digit_char(n % 10)));
        assert(s.subrange(0, p.len() as int) =~= p);
        lemma_num_value_prefix(s, p, 0, p.len() as int);
    }
}

/// `num_value` over a prefix depends on that prefix alone.
proof fn lemma_num_value_prefix(s: Seq<char>, p: Seq<char>, i: int, j: int)
    requires
        0 <= i <= j <= p.len() <= s.len(),
        p == s.subrange(0, p.len() as int),
    ensures
        num_value(s, i, j) == num_value(p, i, j),
    decreases j - i,
{
    if j > i {
        lemma_num_value_prefix(s, p, i, j - 1);
        assert(s[j - 1] == p[j - 1]);
    }
}

/// `num_value` over a window equals `num_value` of the window cut out.
proof fn lemma_num_value_window(s: Seq<char>, i: int, j: int)
    requires
        0 <= i <= j <= s.len(),
    ensures
        num_value(s, i, j) == num_value(s.subrange(i, j), 0, j - i),
    decreases j - i,
{
    if j > i {
        lemma_num_value_window(s, i, j - 1);
        let w = s.subrange(i, j);
        assert(w.subrange(0, j - 1 - i) =~= s.subrange(i, j - 1));
        lemma_num_value_prefix(w, s.subrange(i, j - 1), 0, j - 1 - i);
        assert(w[j - 1 - i] == s[j - 1]);
    }
}

proof fn lemma_run_of_digits(s: Seq<char>, i: int, j: int)
    requires
        0 <= i <= j <= s.len(),
        forall|k: int| i <= k < j ==> is_digit(#[trigger] s[k]),
        j == s.len() || !is_digit(s[j]),
    ensures
        run_end(s, i) == j,
    decreases j - i,
{
    if i < j {
        lemma_run_of_digits(s, i + 1, j);
        assert(span_end(s, i, false) == span_end(s, i + 1, false));
    }
}

/// The decimal rendering of `n` at `i` in `s`, ended by a non-digit,
/// reads back as `n`.
proof fn lemma_decimal_at(s: Seq<char>, i: int, n: nat)
    requires
        0 <= i,
        i + decimal(n).len() <= s.len(),
        s.subrange(i, i + decimal(n).len()) == decimal(n),
        i + decimal(n).len() == s.len() || !is_digit(s[i + decimal(n).len()]),
    ensures
        has_digit_at(s, i),
        run_end(s, i) == i + decimal(n).len(),
        num_value(s, i, i + decimal(n).len()) == n,
{
    let l = decimal(n).len() as int;
    lemma_decimal(n);
    assert forall|k: int| i <= k < i + l implies is_digit(#[trigger] s[k]) by {
        assert(s[k] == decimal(n)[k - i]);
    }
    lemma_run_of_digits(s, i, i + l);
    lemma_num_value_window(s, i, i + l);
    assert(s[i] == decimal(n)[0]);
}

/// A currency amount written `"{a}억 {b}만 {c}"` parses to
/// `a·10^8 + b·10^4 + c`, and so does the same text with the unit misread
/// as 역.
pub proof fn lemma_meso_units_round_trip(a: nat, b: nat, c: nat, unit: char)
    requires
        a <= 99,
        b <= 9999,
        c <= 9999,
        unit == '억' || unit == '역',
    ensures
        meso_of(meso_text(a, b, c, unit)) == Some(
            (a * HUNDRED_MILLION + b * TEN_THOUSAND + c) as nat,
        ),
{
    let da = decimal(a);
    let db = decimal(b);
    let dc = decimal(c);
    let s = meso_text(a, b, c, unit);
    let la = da.len() as int;
    let lb = db.len() as int;
    let lc = dc.len() as int;
    lemma_decimal(a);
    lemma_decimal(b);
    lemma_decimal(c);
    assert(s.len() == la + 2 + lb + 2 + lc);
    assert(s.subrange(0, la) =~= da);
    assert(s[la] == unit);
    assert(s[la + 1] == ' ');
    assert(s.subrange(la + 2, la + 2 + lb) =~= db);
    assert(s[la + 2 + lb] == '만');
    assert(s[la + 3 + lb] == ' ');
    assert(s.subrange(la + 4 + lb, la + 4 + lb + lc) =~= dc);
    lemma_decimal_at(s, 0, a);
    lemma_decimal_at(s, la + 2, b);
    lemma_decimal_at(s, la + 4 + lb, c);
    assert(seps_end(s, la, ' ') == la);
    assert(seps_end(s, la + 2, ' ') == la + 2);
    assert(seps_end(s, la + 1, ' ') == seps_end(s, la + 2, ' '));
    assert(seps_end(s, la + 2 + lb, ' ') == la + 2 + lb);
    assert(seps_end(s, la + 4 + lb, ' ') == la + 4 + lb);
    assert(seps_end(s, la + 3 + lb, ' ') == seps_end(s, la + 4 + lb, ' '));
    assert(word_start(s, 0));
    assert(ones_part(s, la + 4 + lb) == Some(c));
    assert(after_eok(s, la + 2) == Some((b * TEN_THOUSAND + c) as nat));
    assert(meso_units_at(s, 0) == Some((a * HUNDRED_MILLION + b * TEN_THOUSAND + c) as nat));
    assert(pattern_at(Pattern::MesoUnits, s, 0) is Some);
}

/// No position after the first of an all-digit text starts a match of a
/// pattern that needs a word start.
proof fn lemma_no_count_after_start(s: Seq<char>, k: int)
    requires
        1 <= k,
        forall|j: int| 0 <= j < s.len() ==> is_digit(#[trigger] s[j]),
    ensures
        first_from(Pattern::Count, s, k) is None,
    decreases s.len() - k,
{
    if k < s.len() {
        assert(!word_start(s, k));
        lemma_no_count_after_start(s, k + 1);
    }
}

/// The counter parser accepts exactly the numbers `0..=COUNT_MAX`.
pub proof fn lemma_count_boundary(n: nat)
    ensures
        count_of(decimal(n)) == (if n <= COUNT_MAX {
            Some(n)
        } else {
            None::<nat>
        }),
{
    let s = decimal(n);
    lemma_decimal(n);
    assert(s.subrange(0, s.len() as int) =~= s);
    lemma_decimal_at(s, 0, n);
    lemma_no_count_after_start(s, 1);
    assert(word_start(s, 0));
    if n <= COUNT_MAX {
        assert(count_at(s, 0) == Some(n));
    } else {
        assert(count_at(s, 0) is None);
    }
}

/// The gauge parser, on `"{n}/1000"`, accepts exactly `0..GAUGE_FULL`.
pub proof fn lemma_gauge_boundary(n: nat)
    ensures
        gauge_of(gauge_text(n)) == (if n < GAUGE_FULL {
            Some(n)
        } else {
            None::<nat>
        }),
{
    let d = decimal(n);
    let s = gauge_text(n);
    let l = d.len() as int;
    lemma_decimal(n);
    assert(s.len() == l + 5);
    assert(s.subrange(0, l) =~= d);
    assert(s[l] == '/');
    lemma_decimal_at(s, 0, n);
    assert(seps_end(s, l, ' ') == l);
    assert(seps_end(s, l + 1, ' ') == l + 1);
    assert(word_start(s, 0));
    lemma_gauge_tail(s, l, 1);
    if n < GAUGE_FULL {
        assert(gauge_at(s, 0) == Some(n));
    } else {
        assert(gauge_at(s, 0) is None);
    }
}

/// Past the number, `"{n}/1000"` holds no match of the gauge pattern.
proof fn lemma_gauge_tail(s: Seq<char>, l: int, k: int)
    requires
        1 <= k,
        1 <= l,
        s.len() == l + 5,
        forall|j: int| 0 <= j < l ==> is_digit(#[trigger] s[j]),
        s[l] == '/',
        s[l + 1] == '1',
        s[l + 2] == '0',
        s[l + 3] == '0',
        s[l + 4] == '0',
    ensures
        first_from(Pattern::Gauge, s, k) is None,
    decreases s.len() - k,
{
    if k < s.len() {
        if k == l + 1 {
            assert forall|j: int| l + 1 <= j < l + 5 implies is_digit(#[trigger] s[j]) by {}
            lemma_run_of_digits(s, l + 1, l + 5);
            assert(seps_end(s, l + 5, ' ') == l + 5);
            assert(!has_char_at(s, l + 5, '/'));
            assert(gauge_at(s, k) is None);
        } else if k == l {
            assert(!is_digit(s[l]));
        } else if k < l {
            assert(is_digit(s[k - 1]));
        } else {
            assert(is_digit(s[k - 1]));
        }
        lemma_gauge_tail(s, l, k + 1);
    }
}

} // verus!
