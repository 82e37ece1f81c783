//! The sensor's JSON payload.
//!
//! The device answers a poll with one JSON object holding exactly fifteen
//! members: ten integer measurements, four decimal measurements, and a
//! `timestamp` string.  The members may come in any order; a missing,
//! repeated, unknown or ill-typed member makes the whole payload invalid.
//! The grammar is given by spec-level scanning functions over the character
//! sequence, and the executable parser returns exactly what they define.
//!
//! Decimal measurements are kept as their source text, so the exposed value
//! is the device's own spelling of the number.  String content is restricted
//! to printable ASCII without escapes, and numbers follow the JSON number
//! grammar (optional minus, integer part without leading zeros, optional
//! fraction, optional exponent); integer members must fit in an `i64` and
//! must not carry a fraction or exponent.

use crate::is_digit;
use vstd::prelude::*;

verus! {

/// JSON whitespace.
pub open spec fn is_ws(c: char) -> bool {
    c == ' ' || c == '\t' || c == '\n' || c == '\r'
}

/// First index at or after `i` that does not hold whitespace.
pub open spec fn skip_ws(s: Seq<char>, i: int) -> int
    decreases s.len() - i,
{
    if 0 <= i < s.len() && is_ws(s[i]) {
        skip_ws(s, i + 1)
    } else {
        i
    }
}

/// First index at or after `i` that does not hold a digit.
pub open spec fn scan_digits(s: Seq<char>, i: int) -> int
    decreases s.len() - i,
{
    if 0 <= i < s.len() && is_digit(s[i]) {
        scan_digits(s, i + 1)
    } else {
        i
    }
}

/// Numeric value of a digit character.
pub open spec fn digit_val(c: char) -> int {
    c as u32 - 48
}

/// Value of the digit run `s[i..k]`, most significant digit first.
pub open spec fn digits_val(s: Seq<char>, i: int, k: int) -> int
    decreases k - i,
{
    if k <= i {
        0
    } else {
        digits_val(s, i, k - 1) * 10 + digit_val(s[k - 1])
    }
}

/// Powers of ten.
pub open spec fn pow10(n: int) -> int
    decreases n,
{
    if n <= 0 {
        1
    } else {
        10 * pow10(n - 1)
    }
}

pub proof fn lemma_scan_digits_bounds(s: Seq<char>, i: int)
    requires
        0 <= i <= s.len(),
    ensures
        i <= scan_digits(s, i) <= s.len(),
        forall|m: int| i <= m < scan_digits(s, i) ==> is_digit(#[trigger] s[m]),
    decreases s.len() - i,
{
    if i < s.len() && is_digit(s[i]) {
        lemma_scan_digits_bounds(s, i + 1);
    }
}

/// A run of digits is worth less than ten to the number of digits.
proof fn lemma_digits_val_upper(s: Seq<char>, i: int, k: int)
    requires
        i <= k,
        forall|m: int| i <= m < k ==> is_digit(#[trigger] s[m]),
    ensures
        0 <= digits_val(s, i, k) < pow10(k - i),
    decreases k - i,
{
    if k > i {
        lemma_digits_val_upper(s, i, k - 1);
    }
}

/// A run of digits that does not start with zero is worth at least ten to
/// the number of digits less one.
proof fn lemma_digits_val_lower(s: Seq<char>, i: int, k: int)
    requires
        i < k,
        forall|m: int| i <= m < k ==> is_digit(#[trigger] s[m]),
        digit_val(s[i]) >= 1,
    ensures
        digits_val(s, i, k) >= pow10(k - i - 1),
    decreases k - i,
{
    assert(is_digit(s[k - 1]));
    assert(digit_val(s[k - 1]) >= 0);
    if k - 1 > i {
        lemma_digits_val_lower(s, i, k - 1);
        assert(digits_val(s, i, k - 1) >= pow10(k - i - 2));
        assert(digits_val(s, i, k) == digits_val(s, i, k - 1) * 10 + digit_val(s[k - 1]));
        assert(digits_val(s, i, k - 1) * 10 >= pow10(k - i - 2) * 10) by (nonlinear_arith)
            requires
                digits_val(s, i, k - 1) >= pow10(k - i - 2),
        ;
        assert(pow10(k - i - 1) == 10 * pow10(k - i - 2));
    }
}

/// An integer member: optional minus sign, digits without a leading zero,
/// a value in `i64` range, and no fraction or exponent after it.
/// Returns the value and the index after the last digit.
pub open spec fn scan_int_token(s: Seq<char>, i: int) -> Option<(int, int)> {
    let neg = 0 <= i < s.len() && s[i] == '-';
    let j = if neg {
        i + 1
    } else {
        i
    };
    let k = scan_digits(s, j);
    if k == j {
        None
    } else if s[j] == '0' && k > j + 1 {
        None
    } else {
        let v0 = digits_val(s, j, k);
        let v = if neg {
            -v0
        } else {
            v0
        };
        if v < -0x8000_0000_0000_0000 || v > 0x7fff_ffff_ffff_ffff {
            None
        } else if k < s.len() && (s[k] == '.' || s[k] == 'e' || s[k] == 'E') {
            None
        } else {
            Some((v, k))
        }
    }
}

/// A decimal member: the JSON number grammar.  Returns the index after the
/// token; the token text itself is the measurement's value.
pub open spec fn scan_num_token(s: Seq<char>, i: int) -> Option<int> {
    let neg = 0 <= i < s.len() && s[i] == '-';
    let j = if neg {
        i + 1
    } else {
        i
    };
    let k = scan_digits(s, j);
    if k == j {
        None
    } else if s[j] == '0' && k > j + 1 {
        None
    } else {
        let k2 = if k < s.len() && s[k] == '.' {
            scan_digits(s, k + 1)
        } else {
            k
        };
        if k < s.len() && s[k] == '.' && k2 == k + 1 {
            None
        } else {
            if k2 < s.len() && (s[k2] == 'e' || s[k2] == 'E') {
                let je = if k2 + 1 < s.len() && (s[k2 + 1] == '+' || s[k2 + 1] == '-') {
                    k2 + 2
                } else {
                    k2 + 1
                };
                let ke = scan_digits(s, je);
                if ke == je {
                    None
                } else {
                    Some(ke)
                }
            } else {
                Some(k2)
            }
        }
    }
}

/// Printable ASCII without the quote and backslash: the characters allowed
/// inside a string member.
pub open spec fn is_plain_str_char(c: char) -> bool {
    32 <= c as u32 && c as u32 <= 126 && c != '"' && c != '\\'
}

/// Index of the closing quote of string content starting at `i`.
pub open spec fn scan_string_content(s: Seq<char>, i: int) -> Option<int>
    decreases s.len() - i,
{
    if !(0 <= i < s.len()) {
        None
    } else if s[i] == '"' {
        Some(i)
    } else if is_plain_str_char(s[i]) {
        scan_string_content(s, i + 1)
    } else {
        None
    }
}

/// A string token: quote, plain content, quote.  Returns the content and the
/// index after the closing quote.
pub open spec fn scan_string_token(s: Seq<char>, i: int) -> Option<(Seq<char>, int)> {
    if 0 <= i < s.len() && s[i] == '"' {
        match scan_string_content(s, i + 1) {
            Some(q) => Some((s.subrange(i + 1, q), q + 1)),
            None => None,
        }
    } else {
        None
    }
}

fn skip_ws_x(s: &str, i: usize) -> (j: usize)
    requires
        i <= s@.len(),
    ensures
        j == skip_ws(s@, i as int),
        i <= j <= s@.len(),
    decreases s@.len() - i,
{
    let n = s.unicode_len();
    if i < n {
        let c = s.get_char(i);
        if c == ' ' || c == '\t' || c == '\n' || c == '\r' {
            return skip_ws_x(s, i + 1);
        }
    }
    i
}

fn is_digit_x(c: char) -> (r: bool)
    ensures
        r == is_digit(c),
{
    let u = c as u32;
    48 <= u && u <= 57
}

fn scan_digits_x(s: &str, i: usize) -> (j: usize)
    requires
        i <= s@.len(),
    ensures
        j == scan_digits(s@, i as int),
        i <= j <= s@.len(),
    decreases s@.len() - i,
{
    let n = s.unicode_len();
    if i < n {
        if is_digit_x(s.get_char(i)) {
            return scan_digits_x(s, i + 1);
        }
    }
    i
}

fn scan_string_content_x(s: &str, i: usize) -> (r: Option<usize>)
    requires
        i <= s@.len(),
    ensures
        match r {
            Some(q) => scan_string_content(s@, i as int) == Some(q as int) && i <= q < s@.len(),
            None => scan_string_content(s@, i as int) is None,
        },
    decreases s@.len() - i,
{
    let n = s.unicode_len();
    if i >= n {
        return None;
    }
    let c = s.get_char(i);
    let u = c as u32;
    if c == '"' {
        Some(i)
    } else if 32 <= u && u <= 126 && c != '\\' {
        scan_string_content_x(s, i + 1)
    } else {
        None
    }
}

/// Character-for-character string equality.
fn str_eq(a: &str, b: &str) -> (r: bool)
    ensures
        r == (a@ == b@),
{
    let n = a.unicode_len();
    let m = b.unicode_len();
    if n != m {
        return false;
    }
    let mut i: usize = 0;
    while i < n
        invariant
            i <= n,
            n == a@.len(),
            n == b@.len(),
            forall|t: int| 0 <= t < i ==> a@[t] == b@[t],
        decreases n - i,
    {
        if a.get_char(i) != b.get_char(i) {
            return false;
        }
        i += 1;
    }
    proof {
        assert(a@ =~= b@);
    }
    true
}

/// Parses an integer member at `i`, exactly as `scan_int_token` defines it.
fn parse_int_x(s: &str, i: usize) -> (r: Option<(i64, usize)>)
    requires
        i <= s@.len(),
    ensures
        match r {
            Some((v, e)) => scan_int_token(s@, i as int) == Some((v as int, e as int)) && i < e
                <= s@.len(),
            None => scan_int_token(s@, i as int) is None,
        },
{
    let n = s.unicode_len();
    let neg = i < n && s.get_char(i) == '-';
    let j = if neg {
        i + 1
    } else {
        i
    };
    if j > n {
        return None;
    }
    let k = scan_digits_x(s, j);
    proof {
        lemma_scan_digits_bounds(s@, j as int);
    }
    if k == j {
        return None;
    }
    if s.get_char(j) == '0' && k > j + 1 {
        return None;
    }
    if k - j > 19 {
        proof {
            assert(digit_val(s@[j as int]) >= 1) by {
                assert(is_digit(s@[j as int]));
            }
            lemma_digits_val_lower(s@, j as int, k as int);
            assert(pow10(19) == 10_000_000_000_000_000_000) by {
                reveal_with_fuel(pow10, 21);
            }
            assert(pow10(k as int - j as int - 1) >= pow10(19)) by {
                lemma_pow10_mono(19, k as int - j as int - 1);
            }
        }
        return None;
    }
    let mut acc: u64 = 0;
    let mut idx = j;
    while idx < k
        invariant
            j <= idx <= k,
            k <= s@.len(),
            k as int == scan_digits(s@, j as int),
            k - j <= 19,
            forall|m: int| j <= m < k ==> is_digit(#[trigger] s@[m]),
            acc as int == digits_val(s@, j as int, idx as int),
            acc < pow10(idx as int - j as int),
        decreases k - idx,
    {
        let c = s.get_char(idx);
        proof {
            assert(is_digit(s@[idx as int]));
            lemma_pow10_mono(idx as int - j as int, 18);
            assert(pow10(18) == 1_000_000_000_000_000_000) by {
                reveal_with_fuel(pow10, 21);
            }
        }
        let d: u64 = (c as u32 - 48) as u64;
        acc = acc * 10 + d;
        idx += 1;
        proof {
            assert(acc as int == digits_val(s@, j as int, idx as int));
        }
    }
    proof {
        assert(acc as int == digits_val(s@, j as int, k as int));
    }
    let wrong_kind = if k < n {
        let c = s.get_char(k);
        c == '.' || c == 'e' || c == 'E'
    } else {
        false
    };
    if neg {
        if acc > 9_223_372_036_854_775_808 {
            return None;
        }
        if wrong_kind {
            return None;
        }
        let v: i64 = if acc == 9_223_372_036_854_775_808 {
            i64::MIN
        } else {
            -(acc as i64)
        };
        Some((v, k))
    } else {
        if acc > 9_223_372_036_854_775_807 {
            return None;
        }
        if wrong_kind {
            return None;
        }
        Some((acc as i64, k))
    }
}

proof fn lemma_pow10_mono(a: int, b: int)
    requires
        a <= b,
    ensures
        pow10(a) <= pow10(b),
        pow10(a) >= 1,
    decreases b - a,
{
    lemma_pow10_mono_base(a);
    if a < b {
        lemma_pow10_mono(a, b - 1);
        if b > 0 {
            assert(pow10(b) == 10 * pow10(b - 1));
        }
    }
}

proof fn lemma_pow10_mono_base(a: int)
    ensures
        pow10(a) >= 1,
    decreases a,
{
    if a > 0 {
        lemma_pow10_mono_base(a - 1);
    }
}

/// Parses a decimal member at `i`: the token's own text is the value.
fn parse_num_x(s: &str, i: usize) -> (r: Option<(String, usize)>)
    requires
        i <= s@.len(),
    ensures
        match r {
            Some((t, e)) => scan_num_token(s@, i as int) == Some(e as int) && t@ == s@.subrange(
                i as int,
                e as int,
            ) && i < e <= s@.len(),
            None => scan_num_token(s@, i as int) is None,
        },
{
    let n = s.unicode_len();
    let neg = i < n && s.get_char(i) == '-';
    let j = if neg {
        i + 1
    } else {
        i
    };
    if j > n {
        return None;
    }
    let k = scan_digits_x(s, j);
    if k == j {
        return None;
    }
    if s.get_char(j) == '0' && k > j + 1 {
        return None;
    }
    let k2 = if k < n && s.get_char(k) == '.' {
        let kf = scan_digits_x(s, k + 1);
        if kf == k + 1 {
            return None;
        }
        kf
    } else {
        k
    };
    let e = if k2 < n {
        let c = s.get_char(k2);
        if c == 'e' || c == 'E' {
            let je = if k2 + 1 < n {
                let cs = s.get_char(k2 + 1);
                if cs == '+' || cs == '-' {
                    k2 + 2
                } else {
                    k2 + 1
                }
            } else {
                k2 + 1
            };
            if je > n {
                return None;
            }
            let ke = scan_digits_x(s, je);
            if ke == je {
                return None;
            }
            ke
        } else {
            k2
        }
    } else {
        k2
    };
    let t = s.substring_char(i, e).to_owned();
    Some((t, e))
}

/// Parses a string member at `i`: quote, plain content, quote.
fn parse_string_x(s: &str, i: usize) -> (r: Option<(String, usize)>)
    requires
        i <= s@.len(),
    ensures
        match r {
            Some((t, e)) => scan_string_token(s@, i as int) matches Some((c, ee)) && t@ == c && ee
                == e as int && i < e <= s@.len(),
            None => scan_string_token(s@, i as int) is None,
        },
{
    let n = s.unicode_len();
    if !(i < n && s.get_char(i) == '"') {
        return None;
    }
    match scan_string_content_x(s, i + 1) {
        Some(q) => {
            let t = s.substring_char(i + 1, q).to_owned();
            Some((t, q + 1))
        },
        None => None,
    }
}

/// A non-empty run of digits.
pub open spec fn digits_only(t: Seq<char>) -> bool {
    t.len() > 0 && forall|m: int| 0 <= m < t.len() ==> is_digit(#[trigger] t[m])
}

/// Digits may start with zero only when zero is the whole run.
pub open spec fn no_lead_zero(t: Seq<char>) -> bool {
    t.len() > 0 ==> (t[0] == '0' ==> t.len() == 1)
}

/// An optional minus sign followed by digits without a leading zero.
pub open spec fn int_part_shape(t: Seq<char>) -> bool {
    t.len() > 0 && if t[0] == '-' {
        digits_only(t.subrange(1, t.len() as int)) && no_lead_zero(t.subrange(1, t.len() as int))
    } else {
        digits_only(t) && no_lead_zero(t)
    }
}

/// Empty, or a point followed by digits.
pub open spec fn frac_part_shape(t: Seq<char>) -> bool {
    t.len() == 0 || (t[0] == '.' && digits_only(t.subrange(1, t.len() as int)))
}

/// Empty, or an exponent marker, an optional sign, and digits.
pub open spec fn exp_part_shape(t: Seq<char>) -> bool {
    t.len() == 0 || ((t[0] == 'e' || t[0] == 'E') && {
        let u = t.subrange(1, t.len() as int);
        u.len() > 0 && if u[0] == '+' || u[0] == '-' {
            digits_only(u.subrange(1, u.len() as int))
        } else {
            digits_only(u)
        }
    })
}

/// The text is one number of the JSON grammar: integer part, then an
/// optional fraction, then an optional exponent.
pub open spec fn num_token_shape(t: Seq<char>) -> bool {
    exists|p: int, q: int|
        0 < p <= q <= t.len() && #[trigger] int_part_shape(t.subrange(0, p))
            && #[trigger] frac_part_shape(t.subrange(p, q)) && exp_part_shape(
            t.subrange(q, t.len() as int),
        )
}

/// What `scan_num_token` accepts is number-shaped.
proof fn lemma_scan_num_shape(s: Seq<char>, i: int, e: int)
    requires
        0 <= i <= s.len(),
        scan_num_token(s, i) == Some(e),
    ensures
        i < e <= s.len(),
        num_token_shape(s.subrange(i, e)),
{
    let neg = 0 <= i < s.len() && s[i] == '-';
    let j = if neg {
        i + 1
    } else {
        i
    };
    lemma_scan_digits_bounds(s, j);
    let k = scan_digits(s, j);
    let k2 = if k < s.len() && s[k] == '.' {
        scan_digits(s, k + 1)
    } else {
        k
    };
    if k < s.len() && s[k] == '.' {
        lemma_scan_digits_bounds(s, k + 1);
    }
    let has_exp = k2 < s.len() && (s[k2] == 'e' || s[k2] == 'E');
    let je = if k2 + 1 < s.len() && (s[k2 + 1] == '+' || s[k2 + 1] == '-') {
        k2 + 2
    } else {
        k2 + 1
    };
    if has_exp {
        lemma_scan_digits_bounds(s, je);
        assert(e == scan_digits(s, je));
    } else {
        assert(e == k2);
    }
    let t = s.subrange(i, e);
    let p = k - i;
    let q = k2 - i;
    assert(t.subrange(0, p) =~= s.subrange(i, k));
    assert(int_part_shape(t.subrange(0, p))) by {
        let u = s.subrange(i, k);
        if neg {
            assert(u.subrange(1, u.len() as int) =~= s.subrange(j, k));
            assert(digits_only(s.subrange(j, k)));
        } else {
            assert(u =~= s.subrange(j, k));
            assert(digits_only(s.subrange(j, k)));
        }
    }
    assert(t.subrange(p, q) =~= s.subrange(k, k2));
    assert(frac_part_shape(t.subrange(p, q))) by {
        if k2 != k {
            let f = s.subrange(k, k2);
            assert(f[0] == '.');
            assert(f.subrange(1, f.len() as int) =~= s.subrange(k + 1, k2));
            assert(digits_only(s.subrange(k + 1, k2)));
        }
    }
    assert(t.subrange(q, t.len() as int) =~= s.subrange(k2, e));
    assert(exp_part_shape(t.subrange(q, t.len() as int))) by {
        if has_exp {
            let x = s.subrange(k2, e);
            assert(x[0] == 'e' || x[0] == 'E');
            let u = x.subrange(1, x.len() as int);
            assert(u =~= s.subrange(k2 + 1, e));
            if je == k2 + 2 {
                assert(u[0] == '+' || u[0] == '-');
                assert(u.subrange(1, u.len() as int) =~= s.subrange(je, e));
                assert(digits_only(s.subrange(je, e)));
            } else {
                assert(u =~= s.subrange(je, e));
                assert(digits_only(s.subrange(je, e)));
            }
        }
    }
    assert(0 < p <= q <= t.len());
    assert(num_token_shape(t));
}

/// Every character of a number-shaped text is a digit, a sign, a point or an
/// exponent marker; in particular none is a newline or a space.
pub open spec fn is_num_char(c: char) -> bool {
    is_digit(c) || c == '-' || c == '+' || c == '.' || c == 'e' || c == 'E'
}

pub proof fn lemma_shape_chars(t: Seq<char>)
    requires
        num_token_shape(t),
    ensures
        t.len() > 0,
        forall|m: int| 0 <= m < t.len() ==> is_num_char(#[trigger] t[m]),
{
    let (p, q) = choose|p: int, q: int|
        0 < p <= q <= t.len() && #[trigger] int_part_shape(t.subrange(0, p))
            && #[trigger] frac_part_shape(t.subrange(p, q)) && exp_part_shape(
            t.subrange(q, t.len() as int),
        );
    assert forall|m: int| 0 <= m < t.len() implies is_num_char(#[trigger] t[m]) by {
        if m < p {
            let u = t.subrange(0, p);
            assert(t[m] == u[m]);
            if u[0] == '-' {
                if m >= 1 {
                    assert(u[m] == u.subrange(1, u.len() as int)[m - 1]);
                }
            }
        } else if m < q {
            let u = t.subrange(p, q);
            assert(t[m] == u[m - p]);
            if m - p >= 1 {
                assert(u[m - p] == u.subrange(1, u.len() as int)[m - p - 1]);
            }
        } else {
            let u = t.subrange(q, t.len() as int);
            assert(t[m] == u[m - q]);
            let w = u.subrange(1, u.len() as int);
            if m - q >= 1 {
                assert(u[m - q] == w[m - q - 1]);
                if w[0] == '+' || w[0] == '-' {
                    if m - q - 1 >= 1 {
                        assert(w[m - q - 1] == w.subrange(1, w.len() as int)[m - q - 2]);
                    }
                }
            }
        }
    }
}

/// One decoded payload: ten integer measurements, four decimal measurements
/// kept as their source text, and the device's timestamp string.
pub struct AirData {
    pub timestamp: String,
    pub score: i64,
    pub dew_point: String,
    pub temp: String,
    pub humid: String,
    pub abs_humid: String,
    pub co2: i64,
    pub co2_est: i64,
    pub co2_est_baseline: i64,
    pub voc: i64,
    pub voc_baseline: i64,
    pub voc_h2_raw: i64,
    pub voc_ethanol_raw: i64,
    pub pm25: i64,
    pub pm10_est: i64,
}

/// The mathematical value of a decoded payload.
#[verifier::ext_equal]
pub struct AirModel {
    pub timestamp: Seq<char>,
    pub score: i64,
    pub dew_point: Seq<char>,
    pub temp: Seq<char>,
    pub humid: Seq<char>,
    pub abs_humid: Seq<char>,
    pub co2: i64,
    pub co2_est: i64,
    pub co2_est_baseline: i64,
    pub voc: i64,
    pub voc_baseline: i64,
    pub voc_h2_raw: i64,
    pub voc_ethanol_raw: i64,
    pub pm25: i64,
    pub pm10_est: i64,
}

impl View for AirData {
    type V = AirModel;

    open spec fn view(&self) -> AirModel {
        AirModel {
            timestamp: self.timestamp@,
            score: self.score,
            dew_point: self.dew_point@,
            temp: self.temp@,
            humid: self.humid@,
            abs_humid: self.abs_humid@,
            co2: self.co2,
            co2_est: self.co2_est,
            co2_est_baseline: self.co2_est_baseline,
            voc: self.voc,
            voc_baseline: self.voc_baseline,
            voc_h2_raw: self.voc_h2_raw,
            voc_ethanol_raw: self.voc_ethanol_raw,
            pm25: self.pm25,
            pm10_est: self.pm10_est,
        }
    }
}

/// The decimal measurements of a decoded payload are number-shaped text.
pub open spec fn model_wf(m: AirModel) -> bool {
    num_token_shape(m.dew_point) && num_token_shape(m.temp) && num_token_shape(m.humid)
        && num_token_shape(m.abs_humid)
}

impl AirData {
    pub open spec fn wf(&self) -> bool {
        model_wf(self@)
    }
}

/// The members seen so far while walking the payload object.
pub struct PartialData {
    pub timestamp: Option<String>,
    pub score: Option<i64>,
    pub dew_point: Option<String>,
    pub temp: Option<String>,
    pub humid: Option<String>,
    pub abs_humid: Option<String>,
    pub co2: Option<i64>,
    pub co2_est: Option<i64>,
    pub co2_est_baseline: Option<i64>,
    pub voc: Option<i64>,
    pub voc_baseline: Option<i64>,
    pub voc_h2_raw: Option<i64>,
    pub voc_ethanol_raw: Option<i64>,
    pub pm25: Option<i64>,
    pub pm10_est: Option<i64>,
}

#[verifier::ext_equal]
pub struct PartialModel {
    pub timestamp: Option<Seq<char>>,
    pub score: Option<i64>,
    pub dew_point: Option<Seq<char>>,
    pub temp: Option<Seq<char>>,
    pub humid: Option<Seq<char>>,
    pub abs_humid: Option<Seq<char>>,
    pub co2: Option<i64>,
    pub co2_est: Option<i64>,
    pub co2_est_baseline: Option<i64>,
    pub voc: Option<i64>,
    pub voc_baseline: Option<i64>,
    pub voc_h2_raw: Option<i64>,
    pub voc_ethanol_raw: Option<i64>,
    pub pm25: Option<i64>,
    pub pm10_est: Option<i64>,
}

impl View for PartialData {
    type V = PartialModel;

    open spec fn view(&self) -> PartialModel {
        PartialModel {
            timestamp: self.timestamp.deep_view(),
            score: self.score,
            dew_point: self.dew_point.deep_view(),
            temp: self.temp.deep_view(),
            humid: self.humid.deep_view(),
            abs_humid: self.abs_humid.deep_view(),
            co2: self.co2,
            co2_est: self.co2_est,
            co2_est_baseline: self.co2_est_baseline,
            voc: self.voc,
            voc_baseline: self.voc_baseline,
            voc_h2_raw: self.voc_h2_raw,
            voc_ethanol_raw: self.voc_ethanol_raw,
            pm25: self.pm25,
            pm10_est: self.pm10_est,
        }
    }
}

pub open spec fn empty_partial() -> PartialModel {
    PartialModel {
        timestamp: None,
        score: None,
        dew_point: None,
        temp: None,
        humid: None,
        abs_humid: None,
        co2: None,
        co2_est: None,
        co2_est_baseline: None,
        voc: None,
        voc_baseline: None,
        voc_h2_raw: None,
        voc_ethanol_raw: None,
        pm25: None,
        pm10_est: None,
    }
}

/// Decimal members seen so far are number-shaped.
pub open spec fn partial_wf(pm: PartialModel) -> bool {
    (pm.dew_point matches Some(t) ==> num_token_shape(t)) && (pm.temp matches Some(t)
        ==> num_token_shape(t)) && (pm.humid matches Some(t) ==> num_token_shape(t))
        && (pm.abs_humid matches Some(t) ==> num_token_shape(t))
}

/// An integer member's value, unless the member was already seen.
pub open spec fn int_field(s: Seq<char>, i: int, cur: Option<i64>) -> Option<(i64, int)> {
    if cur is None {
        match scan_int_token(s, i) {
            Some((v, e)) => Some((v as i64, e)),
            None => None,
        }
    } else {
        None
    }
}

/// A decimal member's text, unless the member was already seen.
pub open spec fn num_field(s: Seq<char>, i: int, cur: Option<Seq<char>>) -> Option<
    (Seq<char>, int),
> {
    if cur is None {
        match scan_num_token(s, i) {
            Some(e) => Some((s.subrange(i, e), e)),
            None => None,
        }
    } else {
        None
    }
}

/// A string member's content, unless the member was already seen.
pub open spec fn str_field(s: Seq<char>, i: int, cur: Option<Seq<char>>) -> Option<
    (Seq<char>, int),
> {
    if cur is None {
        scan_string_token(s, i)
    } else {
        None
    }
}

/// Dispatches one member's value by its key.  An unknown key, a repeated
/// key, or a value of the wrong kind makes the payload invalid.
pub open spec fn parse_field(s: Seq<char>, i: int, pm: PartialModel, key: Seq<char>) -> Option<
    (PartialModel, int),
> {
    if key == "timestamp"@ {
        match str_field(s, i, pm.timestamp) {
            Some((t, e)) => Some((PartialModel { timestamp: Some(t), ..pm }, e)),
            None => None,
        }
    } else if key == "score"@ {
        match int_field(s, i, pm.score) {
            Some((v, e)) => Some((PartialModel { score: Some(v), ..pm }, e)),
            None => None,
        }
    } else if key == "dew_point"@ {
        match num_field(s, i, pm.dew_point) {
            Some((t, e)) => Some((PartialModel { dew_point: Some(t), ..pm }, e)),
            None => None,
        }
    } else if key == "temp"@ {
        match num_field(s, i, pm.temp) {
            Some((t, e)) => Some((PartialModel { temp: Some(t), ..pm }, e)),
            None => None,
        }
    } else if key == "humid"@ {
        match num_field(s, i, pm.humid) {
            Some((t, e)) => Some((PartialModel { humid: Some(t), ..pm }, e)),
            None => None,
        }
    } else if key == "abs_humid"@ {
        match num_field(s, i, pm.abs_humid) {
            Some((t, e)) => Some((PartialModel { abs_humid: Some(t), ..pm }, e)),
            None => None,
        }
    } else if key == "co2"@ {
        match int_field(s, i, pm.co2) {
            Some((v, e)) => Some((PartialModel { co2: Some(v), ..pm }, e)),
            None => None,
        }
    } else if key == "co2_est"@ {
        match int_field(s, i, pm.co2_est) {
            Some((v, e)) => Some((PartialModel { co2_est: Some(v), ..pm }, e)),
            None => None,
        }
    } else if key == "co2_est_baseline"@ {
        match int_field(s, i, pm.co2_est_baseline) {
            Some((v, e)) => Some((PartialModel { co2_est_baseline: Some(v), ..pm }, e)),
            None => None,
        }
    } else if key == "voc"@ {
        match int_field(s, i, pm.voc) {
            Some((v, e)) => Some((PartialModel { voc: Some(v), ..pm }, e)),
            None => None,
        }
    } else if key == "voc_baseline"@ {
        match int_field(s, i, pm.voc_baseline) {
            Some((v, e)) => Some((PartialModel { voc_baseline: Some(v), ..pm }, e)),
            None => None,
        }
    } else if key == "voc_h2_raw"@ {
        match int_field(s, i, pm.voc_h2_raw) {
            Some((v, e)) => Some((PartialModel { voc_h2_raw: Some(v), ..pm }, e)),
            None => None,
        }
    } else if key == "voc_ethanol_raw"@ {
        match int_field(s, i, pm.voc_ethanol_raw) {
            Some((v, e)) => Some((PartialModel { voc_ethanol_raw: Some(v), ..pm }, e)),
            None => None,
        }
    } else if key == "pm25"@ {
        match int_field(s, i, pm.pm25) {
            Some((v, e)) => Some((PartialModel { pm25: Some(v), ..pm }, e)),
            None => None,
        }
    } else if key == "pm10_est"@ {
        match int_field(s, i, pm.pm10_est) {
            Some((v, e)) => Some((PartialModel { pm10_est: Some(v), ..pm }, e)),
            None => None,
        }
    } else {
        None
    }
}

/// One member: a quoted key, a colon, and the value the key calls for,
/// with whitespace allowed around the tokens.
pub open spec fn parse_member(s: Seq<char>, i: int, pm: PartialModel) -> Option<
    (PartialModel, int),
> {
    let i1 = skip_ws(s, i);
    match scan_string_token(s, i1) {
        None => None,
        Some((key, j)) => {
            let j1 = skip_ws(s, j);
            if !(0 <= j1 < s.len() && s[j1] == ':') {
                None
            } else {
                let j2 = skip_ws(s, j1 + 1);
                parse_field(s, j2, pm, key)
            }
        },
    }
}

/// A comma-separated run of members.  Returns the members seen and the index
/// of the first character after the run's trailing whitespace.  Fifteen
/// distinct members can occur at most; the fuel bounds the walk without
/// cutting any payload short, since a sixteenth member must repeat a key.
pub open spec fn parse_members(s: Seq<char>, i: int, pm: PartialModel, fuel: nat) -> Option<
    (PartialModel, int),
>
    decreases fuel,
{
    if fuel == 0 {
        None
    } else {
        match parse_member(s, i, pm) {
            None => None,
            Some((pm1, e)) => {
                let j = skip_ws(s, e);
                if 0 <= j < s.len() && s[j] == ',' {
                    parse_members(s, j + 1, pm1, (fuel - 1) as nat)
                } else {
                    Some((pm1, j))
                }
            },
        }
    }
}

/// All fifteen members, assembled; `None` while any is missing.
pub open spec fn complete(pm: PartialModel) -> Option<AirModel> {
    match (pm.timestamp, pm.score, pm.dew_point, pm.temp, pm.humid, pm.abs_humid, pm.co2,
        pm.co2_est, pm.co2_est_baseline, pm.voc, pm.voc_baseline, pm.voc_h2_raw,
        pm.voc_ethanol_raw, pm.pm25, pm.pm10_est) {
        (
            Some(timestamp),
            Some(score),
            Some(dew_point),
            Some(temp),
            Some(humid),
            Some(abs_humid),
            Some(co2),
            Some(co2_est),
            Some(co2_est_baseline),
            Some(voc),
            Some(voc_baseline),
            Some(voc_h2_raw),
            Some(voc_ethanol_raw),
            Some(pm25),
            Some(pm10_est),
        ) => Some(
            AirModel {
                timestamp,
                score,
                dew_point,
                temp,
                humid,
                abs_humid,
                co2,
                co2_est,
                co2_est_baseline,
                voc,
                voc_baseline,
                voc_h2_raw,
                voc_ethanol_raw,
                pm25,
                pm10_est,
            },
        ),
        _ => None,
    }
}

/// The payload: one JSON object holding exactly the fifteen members, in any
/// order, and nothing after it but whitespace.
pub open spec fn spec_parse(s: Seq<char>) -> Option<AirModel> {
    let i0 = skip_ws(s, 0);
    if !(0 <= i0 < s.len() && s[i0] == '{') {
        None
    } else {
        match parse_members(s, i0 + 1, empty_partial(), 16) {
            None => None,
            Some((pm, j)) => {
                if !(0 <= j < s.len() && s[j] == '}') {
                    None
                } else if skip_ws(s, j + 1) != s.len() {
                    None
                } else {
                    complete(pm)
                }
            },
        }
    }
}

/// Reads one member's value, exactly as `parse_field` defines it.
fn parse_field_x(s: &str, i: usize, key: &str, pd: &mut PartialData) -> (r: Option<usize>)
    requires
        i <= s@.len(),
    ensures
        match parse_field(s@, i as int, old(pd)@, key@) {
            None => r is None && final(pd)@ == old(pd)@,
            Some((pmf, e)) => r matches Some(u) && u as int == e && final(pd)@ == pmf && i < e
                <= s@.len(),
        },
        partial_wf(old(pd)@) ==> partial_wf(final(pd)@),
{
    if str_eq(key, "timestamp") {
        match parse_string_x(s, i) {
            None => None,
            Some((t, e)) => {
                if pd.timestamp.is_some() {
                    None
                } else {
                    pd.timestamp = Some(t);
                    Some(e)
                }
            },
        }
    } else if str_eq(key, "score") {
        match parse_int_x(s, i) {
            None => None,
            Some((v, e)) => {
                if pd.score.is_some() {
                    None
                } else {
                    pd.score = Some(v);
                    Some(e)
                }
            },
        }
    } else if str_eq(key, "dew_point") {
        match parse_num_x(s, i) {
            None => None,
            Some((t, e)) => {
                if pd.dew_point.is_some() {
                    None
                } else {
                    proof {
                        lemma_scan_num_shape(s@, i as int, e as int);
                    }
                    pd.dew_point = Some(t);
                    Some(e)
                }
            },
        }
    } else if str_eq(key, "temp") {
        match parse_num_x(s, i) {
            None => None,
            Some((t, e)) => {
                if pd.temp.is_some() {
                    None
                } else {
                    proof {
                        lemma_scan_num_shape(s@, i as int, e as int);
                    }
                    pd.temp = Some(t);
                    Some(e)
                }
            },
        }
    } else if str_eq(key, "humid") {
        match parse_num_x(s, i) {
            None => None,
            Some((t, e)) => {
                if pd.humid.is_some() {
                    None
                } else {
                    proof {
                        lemma_scan_num_shape(s@, i as int, e as int);
                    }
                    pd.humid = Some(t);
                    Some(e)
                }
            },
        }
    } else if str_eq(key, "abs_humid") {
        match parse_num_x(s, i) {
            None => None,
            Some((t, e)) => {
                if pd.abs_humid.is_some() {
                    None
                } else {
                    proof {
                        lemma_scan_num_shape(s@, i as int, e as int);
                    }
                    pd.abs_humid = Some(t);
                    Some(e)
                }
            },
        }
    } else if str_eq(key, "co2") {
        match parse_int_x(s, i) {
            None => None,
            Some((v, e)) => {
                if pd.co2.is_some() {
                    None
                } else {
                    pd.co2 = Some(v);
                    Some(e)
                }
            },
        }
    } else if str_eq(key, "co2_est") {
        match parse_int_x(s, i) {
            None => None,
            Some((v, e)) => {
                if pd.co2_est.is_some() {
                    None
                } else {
                    pd.co2_est = Some(v);
                    Some(e)
                }
            },
        }
    } else if str_eq(key, "co2_est_baseline") {
        match parse_int_x(s, i) {
            None => None,
            Some((v, e)) => {
                if pd.co2_est_baseline.is_some() {
                    None
                } else {
                    pd.co2_est_baseline = Some(v);
                    Some(e)
                }
            },
        }
    } else if str_eq(key, "voc") {
        match parse_int_x(s, i) {
            None => None,
            Some((v, e)) => {
                if pd.voc.is_some() {
                    None
                } else {
                    pd.voc = Some(v);
                    Some(e)
                }
            },
        }
    } else if str_eq(key, "voc_baseline") {
        match parse_int_x(s, i) {
            None => None,
            Some((v, e)) => {
                if pd.voc_baseline.is_some() {
                    None
                } else {
                    pd.voc_baseline = Some(v);
                    Some(e)
                }
            },
        }
    } else if str_eq(key, "voc_h2_raw") {
        match parse_int_x(s, i) {
            None => None,
            Some((v, e)) => {
                if pd.voc_h2_raw.is_some() {
                    None
                } else {
                    pd.voc_h2_raw = Some(v);
                    Some(e)
                }
            },
        }
    } else if str_eq(key, "voc_ethanol_raw") {
        match parse_int_x(s, i) {
            None => None,
            Some((v, e)) => {
                if pd.voc_ethanol_raw.is_some() {
                    None
                } else {
                    pd.voc_ethanol_raw = Some(v);
                    Some(e)
                }
            },
        }
    } else if str_eq(key, "pm25") {
        match parse_int_x(s, i) {
            None => None,
            Some((v, e)) => {
                if pd.pm25.is_some() {
                    None
                } else {
                    pd.pm25 = Some(v);
                    Some(e)
                }
            },
        }
    } else if str_eq(key, "pm10_est") {
        match parse_int_x(s, i) {
            None => None,
            Some((v, e)) => {
                if pd.pm10_est.is_some() {
                    None
                } else {
                    pd.pm10_est = Some(v);
                    Some(e)
                }
            },
        }
    } else {
        None
    }
}

/// Reads one member, exactly as `parse_member` defines it.
fn parse_member_x(s: &str, i: usize, pd: &mut PartialData) -> (r: Option<usize>)
    requires
        i <= s@.len(),
    ensures
        match parse_member(s@, i as int, old(pd)@) {
            None => r is None && final(pd)@ == old(pd)@,
            Some((pmf, e)) => r matches Some(u) && u as int == e && final(pd)@ == pmf && i <= e
                <= s@.len(),
        },
        partial_wf(old(pd)@) ==> partial_wf(final(pd)@),
{
    let i1 = skip_ws_x(s, i);
    match parse_string_x(s, i1) {
        None => None,
        Some((key, j)) => {
            let j1 = skip_ws_x(s, j);
            let n = s.unicode_len();
            if j1 < n && s.get_char(j1) == ':' {
                let j2 = skip_ws_x(s, j1 + 1);
                parse_field_x(s, j2, key.as_str(), pd)
            } else {
                None
            }
        },
    }
}

/// Reads a run of members, exactly as `parse_members` defines it.
fn parse_members_x(s: &str, i: usize, pd: &mut PartialData, fuel: u32) -> (r: Option<usize>)
    requires
        i <= s@.len(),
    ensures
        match parse_members(s@, i as int, old(pd)@, fuel as nat) {
            None => r is None,
            Some((pmf, e)) => r matches Some(u) && u as int == e && final(pd)@ == pmf && e
                <= s@.len(),
        },
        partial_wf(old(pd)@) ==> partial_wf(final(pd)@),
    decreases fuel,
{
    if fuel == 0 {
        return None;
    }
    match parse_member_x(s, i, pd) {
        None => None,
        Some(e) => {
            let j = skip_ws_x(s, e);
            let n = s.unicode_len();
            if j < n && s.get_char(j) == ',' {
                parse_members_x(s, j + 1, pd, fuel - 1)
            } else {
                Some(j)
            }
        },
    }
}

/// Assembles the payload once every member has been seen.
fn complete_x(pd: PartialData) -> (r: Option<AirData>)
    ensures
        match complete(pd@) {
            None => r is None,
            Some(m) => r matches Some(d) && d@ == m,
        },
{
    match (pd.timestamp, pd.score, pd.dew_point, pd.temp, pd.humid, pd.abs_humid, pd.co2,
        pd.co2_est, pd.co2_est_baseline, pd.voc, pd.voc_baseline, pd.voc_h2_raw,
        pd.voc_ethanol_raw, pd.pm25, pd.pm10_est) {
        (
            Some(timestamp),
            Some(score),
            Some(dew_point),
            Some(temp),
            Some(humid),
            Some(abs_humid),
            Some(co2),
            Some(co2_est),
            Some(co2_est_baseline),
            Some(voc),
            Some(voc_baseline),
            Some(voc_h2_raw),
            Some(voc_ethanol_raw),
            Some(pm25),
            Some(pm10_est),
        ) => {
            let d = AirData {
                timestamp,
                score,
                dew_point,
                temp,
                humid,
                abs_humid,
                co2,
                co2_est,
                co2_est_baseline,
                voc,
                voc_baseline,
                voc_h2_raw,
                voc_ethanol_raw,
                pm25,
                pm10_est,
            };
            Some(d)
        },
        _ => None,
    }
}

/// Decodes one payload, exactly as `spec_parse` defines it.  A decoded
/// payload is well-formed: its decimal members are number-shaped text.
pub fn parse_payload(s: &str) -> (r: Option<AirData>)
    ensures
        match spec_parse(s@) {
            None => r is None,
            Some(m) => r matches Some(d) && d@ == m && d.wf(),
        },
{
    let i0 = skip_ws_x(s, 0);
    let n = s.unicode_len();
    if !(i0 < n && s.get_char(i0) == '{') {
        return None;
    }
    let mut pd = PartialData {
        timestamp: None,
        score: None,
        dew_point: None,
        temp: None,
        humid: None,
        abs_humid: None,
        co2: None,
        co2_est: None,
        co2_est_baseline: None,
        voc: None,
        voc_baseline: None,
        voc_h2_raw: None,
        voc_ethanol_raw: None,
        pm25: None,
        pm10_est: None,
    };
    proof {
        assert(pd@ =~= empty_partial());
    }
    match parse_members_x(s, i0 + 1, &mut pd, 16) {
        None => None,
        Some(j) => {
            if !(j < n && s.get_char(j) == '}') {
                return None;
            }
            let e2 = skip_ws_x(s, j + 1);
            if e2 != n {
                return None;
            }
            complete_x(pd)
        },
    }
}

} // verus!
