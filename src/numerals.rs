//! Numerals written in digits: integers, integers with thousands separators,
//! decimals and ordinals such as "3ú".
use vstd::prelude::*;
use crate::dimension::{lemma_pow10_bounds, pow10, Decimal, FloatValue, IntegerValue, OrdinalValue};
use crate::text::chars_eq_str;

verus! {

/// The most digits a numeral may have: every such numeral fits in an `i64`.
pub const MAX_DIGITS: usize = 18;

pub open spec fn is_digit(c: char) -> bool {
    '0' <= c <= '9'
}

pub open spec fn digit_value(c: char) -> int {
    (c as u32) - ('0' as u32)
}

/// The number the digits among the first `n` characters spell, other
/// characters skipped.
pub open spec fn digits_value(s: Seq<char>, n: int) -> int
    decreases n,
{
    if n <= 0 || n > s.len() {
        0
    } else if is_digit(s[n - 1]) {
        10 * digits_value(s, n - 1) + digit_value(s[n - 1])
    } else {
        digits_value(s, n - 1)
    }
}

/// How many of the first `n` characters are digits.
pub open spec fn digit_count(s: Seq<char>, n: int) -> int
    decreases n,
{
    if n <= 0 || n > s.len() {
        0
    } else if is_digit(s[n - 1]) {
        1 + digit_count(s, n - 1)
    } else {
        digit_count(s, n - 1)
    }
}

/// The index of the first character at or after `i` that is not a digit, or
/// the length.
pub open spec fn digits_end(s: Seq<char>, i: int) -> int
    decreases s.len() - i,
{
    if i < 0 || i >= s.len() {
        s.len() as int
    } else if is_digit(s[i]) {
        digits_end(s, i + 1)
    } else {
        i
    }
}

proof fn lemma_digits_value_bound(s: Seq<char>, n: int)
    requires
        0 <= n <= s.len(),
    ensures
        0 <= digits_value(s, n) < pow10(digit_count(s, n) as nat),
        0 <= digit_count(s, n) <= n,
    decreases n,
{
    if n > 0 {
        lemma_digits_value_bound(s, n - 1);
        if is_digit(s[n - 1]) {
            let c = digit_count(s, n - 1);
            assert(pow10((c + 1) as nat) == 10 * pow10(c as nat));
            assert(10 * digits_value(s, n - 1) + digit_value(s[n - 1]) < 10 * pow10(c as nat))
                by (nonlinear_arith)
                requires
                    digits_value(s, n - 1) < pow10(c as nat),
                    0 <= digit_value(s[n - 1]) <= 9,
            ;
        }
    }
}

/// The value of the digits in `w`, other characters skipped, when there are
/// at most `MAX_DIGITS` of them.
fn digits_in(w: &Vec<char>) -> (r: Option<i64>)
    ensures
        r is Some <==> digit_count(w@, w@.len() as int) <= MAX_DIGITS,
        r matches Some(v) ==> v == digits_value(w@, w@.len() as int),
{
    let mut v: i64 = 0;
    let mut count: usize = 0;
    let mut i: usize = 0;
    while i < w.len()
        invariant
            i <= w@.len(),
            count == digit_count(w@, i as int),
            count <= MAX_DIGITS,
            v == digits_value(w@, i as int),
            0 <= v < pow10(count as nat),
        decreases w@.len() - i,
    {
        proof {
            lemma_digits_value_bound(w@, i as int);
        }
        let c = w[i];
        if '0' <= c && c <= '9' {
            if count == MAX_DIGITS {
                proof {
                    assert forall|m: int| i + 1 <= m <= w@.len() implies digit_count(w@, m) > MAX_DIGITS by {
                        lemma_count_monotone(w@, i + 1, m);
                    }
                }
                return None;
            }
            proof {
                lemma_pow10_bounds(count as nat);
                lemma_pow10_bounds((count + 1) as nat);
                assert(pow10((count + 1) as nat) == 10 * pow10(count as nat));
            }
            v = 10 * v + ((c as u32) - ('0' as u32)) as i64;
            count = count + 1;
        }
        i = i + 1;
    }
    Some(v)
}

proof fn lemma_count_monotone(s: Seq<char>, a: int, b: int)
    requires
        0 <= a <= b <= s.len(),
    ensures
        digit_count(s, a) <= digit_count(s, b),
    decreases b - a,
{
    if a < b {
        lemma_count_monotone(s, a, b - 1);
    }
}

fn is_digit_exec(c: char) -> (r: bool)
    ensures
        r == is_digit(c),
{
    '0' <= c && c <= '9'
}

fn digits_end_exec(w: &Vec<char>, i: usize) -> (r: usize)
    requires
        i <= w@.len(),
    ensures
        r == digits_end(w@, i as int),
        i <= r <= w@.len(),
{
    let mut j: usize = i;
    while j < w.len() && is_digit_exec(w[j])
        invariant
            i <= j <= w@.len(),
            digits_end(w@, i as int) == digits_end(w@, j as int),
        decreases w@.len() - j,
    {
        j = j + 1;
    }
    j
}

/// "(\d{1,18})": a run of one to eighteen digits.
pub open spec fn integer_numeral(s: Seq<char>) -> Option<IntegerValue> {
    if 1 <= s.len() <= MAX_DIGITS && digits_end(s, 0) == s.len() {
        Some(IntegerValue::plain(digits_value(s, s.len() as int) as i64))
    } else {
        None
    }
}

proof fn lemma_all_digits_count(s: Seq<char>, n: int)
    requires
        0 <= n <= s.len(),
        forall|k: int| 0 <= k < n ==> is_digit(#[trigger] s[k]),
    ensures
        digit_count(s, n) == n,
    decreases n,
{
    if n > 0 {
        lemma_all_digits_count(s, n - 1);
    }
}

proof fn lemma_digits_end_all(s: Seq<char>, i: int)
    requires
        0 <= i <= s.len(),
        digits_end(s, i) == s.len(),
    ensures
        forall|k: int| i <= k < s.len() ==> is_digit(#[trigger] s[k]),
    decreases s.len() - i,
{
    if i < s.len() {
        lemma_digits_end_all(s, i + 1);
    }
}

pub fn integer_numeral_exec(w: &Vec<char>) -> (r: Option<IntegerValue>)
    ensures
        r == integer_numeral(w@),
{
    if w.len() < 1 || w.len() > MAX_DIGITS || digits_end_exec(w, 0) != w.len() {
        return None;
    }
    proof {
        lemma_digits_end_all(w@, 0);
        lemma_all_digits_count(w@, w@.len() as int);
    }
    match digits_in(w) {
        Some(v) => Some(IntegerValue::new(v)),
        None => None,
    }
}

/// "\d{1,3}(,\d\d\d){1,5}": one to three digits, then one to five groups of a
/// comma and three digits.
pub open spec fn grouped_shape(s: Seq<char>) -> bool {
    let h = digits_end(s, 0);
    &&& 1 <= h <= 3
    &&& (s.len() - h) % 4 == 0
    &&& 1 <= (s.len() - h) / 4 <= 5
    &&& forall|k: int|
        h <= k < s.len() ==> if (k - h) % 4 == 0 {
            #[trigger] s[k] == ','
        } else {
            is_digit(s[k])
        }
}

pub open spec fn grouped_numeral(s: Seq<char>) -> Option<IntegerValue> {
    if grouped_shape(s) {
        Some(IntegerValue::plain(digits_value(s, s.len() as int) as i64))
    } else {
        None
    }
}

pub fn grouped_numeral_exec(w: &Vec<char>) -> (r: Option<IntegerValue>)
    ensures
        r == grouped_numeral(w@),
{
    let h = digits_end_exec(w, 0);
    if h < 1 || h > 3 || (w.len() - h) % 4 != 0 || (w.len() - h) / 4 < 1 || (w.len() - h) / 4 > 5 {
        return None;
    }
    let mut k: usize = h;
    while k < w.len()
        invariant
            h <= k <= w@.len(),
            h == digits_end(w@, 0),
            forall|j: int|
                h <= j < k ==> if (j - h) % 4 == 0 {
                    #[trigger] w@[j] == ','
                } else {
                    is_digit(w@[j])
                },
        decreases w@.len() - k,
    {
        let ok = if (k - h) % 4 == 0 { w[k] == ',' } else { is_digit_exec(w[k]) };
        if !ok {
            return None;
        }
        k = k + 1;
    }
    proof {
        lemma_digit_count_le(w@, w@.len() as int);
        assert(digit_count(w@, w@.len() as int) <= MAX_DIGITS);
    }
    match digits_in(w) {
        Some(v) => Some(IntegerValue::new(v)),
        None => None,
    }
}

proof fn lemma_digit_count_le(s: Seq<char>, n: int)
    requires
        0 <= n <= s.len(),
        grouped_shape(s),
    ensures
        digit_count(s, n) <= MAX_DIGITS,
{
    let h = digits_end(s, 0);
    lemma_count_grouped(s, h, n);
}

proof fn lemma_count_grouped(s: Seq<char>, h: int, n: int)
    requires
        0 <= n <= s.len(),
        grouped_shape(s),
        h == digits_end(s, 0),
    ensures
        digit_count(s, n) <= (if n <= h { n } else { h + (n - h) - (n - h + 3) / 4 }),
    decreases n,
{
    if n > 0 {
        lemma_count_grouped(s, h, n - 1);
        if n - 1 >= h && (n - 1 - h) % 4 == 0 {
            assert(s[n - 1] == ',');
        }
    }
}

/// "\d*\.\d+": digits, a point, at least one digit, eighteen digits at most.
pub open spec fn decimal_numeral(s: Seq<char>) -> Option<FloatValue> {
    let k = digits_end(s, 0);
    if k < s.len() && s[k] == '.' && digits_end(s, k + 1) == s.len() && k + 1 < s.len()
        && digit_count(s, s.len() as int) <= MAX_DIGITS {
        Some(
            FloatValue::plain(
                Decimal {
                    mantissa: digits_value(s, s.len() as int) as i64,
                    scale: (s.len() - k - 1) as u32,
                },
            ),
        )
    } else {
        None
    }
}

pub fn decimal_numeral_exec(w: &Vec<char>) -> (r: Option<FloatValue>)
    ensures
        r == decimal_numeral(w@),
{
    let k = digits_end_exec(w, 0);
    if k >= w.len() || w[k] != '.' || k + 1 >= w.len() {
        return None;
    }
    if digits_end_exec(w, k + 1) != w.len() {
        return None;
    }
    match digits_in(w) {
        Some(v) => {
            Some(FloatValue::new(Decimal { mantissa: v, scale: (w.len() - k - 1) as u32 }))
        },
        None => None,
    }
}

/// The index of the first point at or after `i`, or the length.
pub open spec fn point_index(s: Seq<char>, i: int) -> int
    decreases s.len() - i,
{
    if i < 0 || i >= s.len() {
        s.len() as int
    } else if s[i] == '.' {
        i
    } else {
        point_index(s, i + 1)
    }
}

fn point_index_exec(w: &Vec<char>) -> (r: usize)
    ensures
        r == point_index(w@, 0),
        r <= w@.len(),
{
    let mut j: usize = 0;
    while j < w.len() && w[j] != '.'
        invariant
            j <= w@.len(),
            point_index(w@, 0) == point_index(w@, j as int),
        decreases w@.len() - j,
    {
        j = j + 1;
    }
    j
}

/// "\d+(,\d\d\d)+\.\d+": digits, one or more groups of a comma and three
/// digits, a point and at least one digit; eighteen digits at most.
pub open spec fn grouped_decimal_shape(s: Seq<char>) -> bool {
    let h = digits_end(s, 0);
    let p = point_index(s, 0);
    &&& 1 <= h
    &&& h < p < s.len() - 1
    &&& (p - h) % 4 == 0
    &&& forall|k: int|
        h <= k < p ==> if (k - h) % 4 == 0 {
            #[trigger] s[k] == ','
        } else {
            is_digit(s[k])
        }
    &&& forall|k: int| p < k < s.len() ==> is_digit(#[trigger] s[k])
    &&& digit_count(s, s.len() as int) <= MAX_DIGITS
}

pub open spec fn grouped_decimal_numeral(s: Seq<char>) -> Option<FloatValue> {
    if grouped_decimal_shape(s) {
        Some(
            FloatValue::plain(
                Decimal {
                    mantissa: digits_value(s, s.len() as int) as i64,
                    scale: (s.len() - point_index(s, 0) - 1) as u32,
                },
            ),
        )
    } else {
        None
    }
}

pub fn grouped_decimal_numeral_exec(w: &Vec<char>) -> (r: Option<FloatValue>)
    ensures
        r == grouped_decimal_numeral(w@),
{
    let h = digits_end_exec(w, 0);
    let p = point_index_exec(w);
    if h < 1 || h >= p || w.len() < 2 || p >= w.len() - 1 || (p - h) % 4 != 0 {
        return None;
    }
    let mut k: usize = h;
    while k < p
        invariant
            h <= k <= p,
            p < w@.len(),
            h == digits_end(w@, 0),
            p == point_index(w@, 0),
            forall|j: int|
                h <= j < k ==> if (j - h) % 4 == 0 {
                    #[trigger] w@[j] == ','
                } else {
                    is_digit(w@[j])
                },
        decreases p - k,
    {
        let ok = if (k - h) % 4 == 0 { w[k] == ',' } else { is_digit_exec(w[k]) };
        if !ok {
            proof {
                let x = w@[k as int];
                assert(!grouped_decimal_shape(w@));
            }
            return None;
        }
        k = k + 1;
    }
    let mut m: usize = p + 1;
    while m < w.len()
        invariant
            p < m <= w@.len(),
            h == digits_end(w@, 0),
            p == point_index(w@, 0),
            forall|j: int| p < j < m ==> is_digit(#[trigger] w@[j]),
        decreases w@.len() - m,
    {
        if !is_digit_exec(w[m]) {
            proof {
                let x = w@[m as int];
                assert(!grouped_decimal_shape(w@));
            }
            return None;
        }
        m = m + 1;
    }
    match digits_in(w) {
        Some(v) => Some(FloatValue::new(Decimal { mantissa: v, scale: (w.len() - p - 1) as u32 })),
        None => None,
    }
}

/// The endings of an ordinal written in digits ("3ú", "21st"), accent-folded.
pub open spec fn ordinal_ending(e: Seq<char>) -> bool {
    e == "st"@ || e == "nd"@ || e == "rd"@ || e == "th"@ || e == "adh"@ || e == "a"@ || e == "d"@
        || e == "u"@
}

fn ordinal_ending_exec(e: &Vec<char>) -> (r: bool)
    ensures
        r == ordinal_ending(e@),
{
    chars_eq_str(e, "st") || chars_eq_str(e, "nd") || chars_eq_str(e, "rd") || chars_eq_str(e, "th")
        || chars_eq_str(e, "adh") || chars_eq_str(e, "a") || chars_eq_str(e, "d") || chars_eq_str(
        e,
        "u",
    )
}

/// "\d+(st|nd|rd|th|adh|a|d|ú)": one to eighteen digits and an ordinal ending.
pub open spec fn ordinal_numeral(s: Seq<char>) -> Option<OrdinalValue> {
    let k = digits_end(s, 0);
    if 1 <= k <= MAX_DIGITS && ordinal_ending(s.subrange(k, s.len() as int)) {
        Some(OrdinalValue::plain(digits_value(s, k) as i64))
    } else {
        None
    }
}

pub fn ordinal_numeral_exec(w: &Vec<char>) -> (r: Option<OrdinalValue>)
    ensures
        r == ordinal_numeral(w@),
{
    let k = digits_end_exec(w, 0);
    if k < 1 || k > MAX_DIGITS {
        return None;
    }
    let mut ending: Vec<char> = Vec::new();
    let mut i: usize = k;
    while i < w.len()
        invariant
            k <= i <= w@.len(),
            ending@ == w@.subrange(k as int, i as int),
        decreases w@.len() - i,
    {
        ending.push(w[i]);
        proof {
            assert(w@.subrange(k as int, i + 1) =~= w@.subrange(k as int, i as int).push(w@[i as int]));
        }
        i = i + 1;
    }
    if !ordinal_ending_exec(&ending) {
        return None;
    }
    let mut head: Vec<char> = Vec::new();
    let mut j: usize = 0;
    while j < k
        invariant
            j <= k <= w@.len(),
            head@ == w@.subrange(0, j as int),
        decreases k - j,
    {
        head.push(w[j]);
        proof {
            assert(w@.subrange(0, j + 1) =~= w@.subrange(0, j as int).push(w@[j as int]));
        }
        j = j + 1;
    }
    proof {
        lemma_digits_end_prefix(w@, k as int);
        lemma_digits_end_all(head@, 0);
        lemma_all_digits_count(head@, k as int);
        lemma_value_prefix(w@, head@, k as int);
    }
    match digits_in(&head) {
        Some(v) => Some(OrdinalValue::new(v)),
        None => None,
    }
}

proof fn lemma_digits_end_prefix(s: Seq<char>, k: int)
    requires
        0 <= k <= s.len(),
        k == digits_end(s, 0),
    ensures
        digits_end(s.subrange(0, k), 0) == k,
{
    lemma_digits_end_scan(s, 0, k);
    lemma_prefix_all_digits_end(s.subrange(0, k), 0);
}

proof fn lemma_digits_end_scan(s: Seq<char>, i: int, k: int)
    requires
        0 <= i <= k <= s.len(),
        k == digits_end(s, i),
    ensures
        forall|j: int| i <= j < k ==> is_digit(#[trigger] s[j]),
    decreases s.len() - i,
{
    if i < k {
        lemma_digits_end_scan(s, i + 1, k);
    }
}

proof fn lemma_prefix_all_digits_end(t: Seq<char>, i: int)
    requires
        0 <= i <= t.len(),
        forall|j: int| 0 <= j < t.len() ==> is_digit(#[trigger] t[j]),
    ensures
        digits_end(t, i) == t.len(),
    decreases t.len() - i,
{
    if i < t.len() {
        lemma_prefix_all_digits_end(t, i + 1);
    }
}

proof fn lemma_value_prefix(s: Seq<char>, t: Seq<char>, n: int)
    requires
        0 <= n <= s.len(),
        t == s.subrange(0, n),
    ensures
        forall|m: int| 0 <= m <= n ==> #[trigger] digits_value(t, m) == digits_value(s, m),
    decreases n,
{
    assert forall|m: int| 0 <= m <= n implies #[trigger] digits_value(t, m) == digits_value(s, m) by {
        lemma_value_prefix_at(s, t, n, m);
    }
}

proof fn lemma_value_prefix_at(s: Seq<char>, t: Seq<char>, n: int, m: int)
    requires
        0 <= m <= n <= s.len(),
        t == s.subrange(0, n),
    ensures
        digits_value(t, m) == digits_value(s, m),
    decreases m,
{
    if m > 0 {
        lemma_value_prefix_at(s, t, n, m - 1);
    }
}

} // verus!
