//! Decimal tokens from the event stream ("0.25", "-1.97", "12") are read as
//! fixed-point integers in thousandths of a device unit ("milli-units").
//!
//! The grammar is an optional sign, then digits with at most one decimal
//! point and at least one digit. A token outside the grammar denotes 0, as a
//! malformed numeric field must not abort the interpreter. Magnitudes
//! saturate at [`TOKEN_MILLI_SAT`] so that a token of any length yields a
//! value on which the accumulator arithmetic cannot overflow.

use vstd::prelude::*;

verus! {

/// Integer-part saturation bound, in whole device units.
pub const INT_UNITS_SAT: i32 = 1_000_000;

/// Magnitude saturation bound of a whole token, in milli-units.
pub const TOKEN_MILLI_SAT: i32 = 1_000_000_000;

pub open spec fn is_digit(c: char) -> bool {
    '0' <= c && c <= '9'
}

pub open spec fn digit_value(c: char) -> int {
    c as u32 - '0' as u32
}

pub open spec fn all_digits(s: Seq<char>) -> bool {
    forall|i: int| 0 <= i < s.len() ==> is_digit(#[trigger] s[i])
}

/// Index of the first '.' in `s`, or `s.len()` if there is none.
pub open spec fn first_dot(s: Seq<char>) -> int
    decreases s.len(),
{
    if s.len() == 0 {
        0
    } else if s[0] == '.' {
        0
    } else {
        1 + first_dot(s.skip(1))
    }
}

/// The value of a digit string, folded left to right and saturated at
/// [`INT_UNITS_SAT`].
pub open spec fn digits_value_sat(s: Seq<char>, acc: int) -> int
    decreases s.len(),
{
    if s.len() == 0 {
        acc
    } else {
        let next = acc * 10 + digit_value(s[0]);
        digits_value_sat(s.skip(1), if next > INT_UNITS_SAT as int {
            INT_UNITS_SAT as int
        } else {
            next
        })
    }
}

/// The first three fractional digits, scaled to milli-units.
pub open spec fn frac_milli(s: Seq<char>) -> int {
    if s.len() == 0 {
        0
    } else if s.len() == 1 {
        digit_value(s[0]) * 100
    } else if s.len() == 2 {
        digit_value(s[0]) * 100 + digit_value(s[1]) * 10
    } else {
        digit_value(s[0]) * 100 + digit_value(s[1]) * 10 + digit_value(s[2])
    }
}

/// An unsigned decimal: digits with at most one '.' and at least one digit.
pub open spec fn valid_unsigned_decimal(s: Seq<char>) -> bool {
    let d = first_dot(s);
    if d == s.len() {
        s.len() >= 1 && all_digits(s)
    } else {
        s.len() >= 2 && all_digits(s.take(d)) && all_digits(s.skip(d + 1))
    }
}

/// Milli-unit value of an unsigned decimal token; 0 if malformed, saturated
/// at [`TOKEN_MILLI_SAT`].
pub open spec fn unsigned_milli_of(s: Seq<char>) -> int {
    if valid_unsigned_decimal(s) {
        let d = first_dot(s);
        let ip = s.take(d);
        let fp = if d == s.len() {
            Seq::<char>::empty()
        } else {
            s.skip(d + 1)
        };
        let total = digits_value_sat(ip, 0) * 1000 + frac_milli(fp);
        if total > TOKEN_MILLI_SAT as int {
            TOKEN_MILLI_SAT as int
        } else {
            total
        }
    } else {
        0
    }
}

/// Milli-unit value of a possibly signed decimal token.
pub open spec fn milli_of(s: Seq<char>) -> int {
    if s.len() > 0 && s[0] == '-' {
        -unsigned_milli_of(s.skip(1))
    } else if s.len() > 0 && s[0] == '+' {
        unsigned_milli_of(s.skip(1))
    } else {
        unsigned_milli_of(s)
    }
}

/// Finger-count value of a token: a plain digit string, saturated; 0 if
/// malformed.
pub open spec fn fingers_of(s: Seq<char>) -> int {
    if s.len() >= 1 && all_digits(s) {
        digits_value_sat(s, 0)
    } else {
        0
    }
}

proof fn lemma_first_dot_at(s: Seq<char>, k: int)
    requires
        0 <= k <= s.len(),
        forall|j: int| 0 <= j < k ==> #[trigger] s[j] != '.',
        k < s.len() ==> s[k] == '.',
    ensures
        first_dot(s) == k,
    decreases s.len(),
{
    if s.len() == 0 {
    } else if s[0] == '.' {
        assert(k == 0);
    } else {
        assert(k >= 1) by {
            if k == 0 {
                assert(s[0] == '.');
            }
        }
        let t = s.skip(1);
        assert(forall|j: int| 0 <= j < k - 1 ==> #[trigger] t[j] != '.');
        assert(k - 1 < t.len() ==> t[k - 1] == '.');
        lemma_first_dot_at(t, k - 1);
    }
}

fn all_digits_exec(v: &Vec<char>) -> (b: bool)
    ensures
        b == all_digits(v@),
{
    let mut i: usize = 0;
    while i < v.len()
        invariant
            i <= v@.len(),
            forall|j: int| 0 <= j < i ==> is_digit(#[trigger] v@[j]),
        decreases v@.len() - i,
    {
        let c = v[i];
        if !('0' <= c && c <= '9') {
            return false;
        }
        i = i + 1;
    }
    true
}

/// Saturated value of a digit string.
fn digits_sat_exec(v: &Vec<char>) -> (u: i32)
    requires
        all_digits(v@),
    ensures
        u as int == digits_value_sat(v@, 0),
        0 <= u <= INT_UNITS_SAT,
{
    let mut acc: i32 = 0;
    let mut i: usize = 0;
    proof {
        assert(v@.skip(0) =~= v@);
    }
    while i < v.len()
        invariant
            all_digits(v@),
            i <= v@.len(),
            0 <= acc <= INT_UNITS_SAT,
            digits_value_sat(v@, 0) == digits_value_sat(v@.skip(i as int), acc as int),
        decreases v@.len() - i,
    {
        let c = v[i];
        assert(is_digit(v@[i as int]));
        let dv: i32 = ((c as u32) - 48) as i32;
        let next: i32 = acc * 10 + dv;
        let capped: i32 = if next > INT_UNITS_SAT {
            INT_UNITS_SAT
        } else {
            next
        };
        proof {
            assert(v@.skip(i as int)[0] == v@[i as int]);
            assert(v@.skip(i as int).skip(1) =~= v@.skip(i + 1 as int));
        }
        acc = capped;
        i = i + 1;
    }
    proof {
        assert(v@.skip(v@.len() as int) =~= Seq::<char>::empty());
    }
    acc
}

/// Milli-unit value of the first three fractional digits.
fn frac_exec(v: &Vec<char>) -> (f: i32)
    requires
        all_digits(v@),
    ensures
        f as int == frac_milli(v@),
        0 <= f <= 999,
{
    if v.len() == 0 {
        0
    } else if v.len() == 1 {
        let d0: i32 = ((v[0] as u32) - 48) as i32;
        d0 * 100
    } else if v.len() == 2 {
        let d0: i32 = ((v[0] as u32) - 48) as i32;
        let d1: i32 = ((v[1] as u32) - 48) as i32;
        d0 * 100 + d1 * 10
    } else {
        let d0: i32 = ((v[0] as u32) - 48) as i32;
        let d1: i32 = ((v[1] as u32) - 48) as i32;
        let d2: i32 = ((v[2] as u32) - 48) as i32;
        d0 * 100 + d1 * 10 + d2
    }
}

/// Milli-unit value of an unsigned decimal token.
fn parse_unsigned_milli(v: &Vec<char>) -> (r: i32)
    ensures
        r as int == unsigned_milli_of(v@),
        0 <= r <= TOKEN_MILLI_SAT,
{
    let n = v.len();
    let mut d: usize = 0;
    while d < n && v[d] != '.'
        invariant
            n == v@.len(),
            d <= n,
            forall|j: int| 0 <= j < d ==> #[trigger] v@[j] != '.',
        decreases n - d,
    {
        d = d + 1;
    }
    proof {
        lemma_first_dot_at(v@, d as int);
    }
    if d == n {
        if n == 0 {
            return 0;
        }
    } else {
        if n < 2 {
            return 0;
        }
    }
    let ip = crate::text::copy_range(v, 0, d);
    proof {
        assert(ip@ =~= v@.take(d as int));
    }
    if !all_digits_exec(&ip) {
        return 0;
    }
    let fp = if d == n {
        Vec::<char>::new()
    } else {
        crate::text::copy_range(v, d + 1, n)
    };
    proof {
        if d < n {
            assert(fp@ =~= v@.skip(d + 1 as int));
        } else {
            assert(fp@ =~= Seq::<char>::empty());
        }
    }
    if !all_digits_exec(&fp) {
        return 0;
    }
    let units = digits_sat_exec(&ip);
    let frac = frac_exec(&fp);
    proof {
        assert(v@.take(n as int) =~= v@);
        assert(valid_unsigned_decimal(v@));
        assert(first_dot(v@) == d as int);
        assert(ip@ == v@.take(d as int));
    }
    let total: i64 = (units as i64) * 1000 + (frac as i64);
    if total > TOKEN_MILLI_SAT as i64 {
        TOKEN_MILLI_SAT
    } else {
        total as i32
    }
}

/// Milli-unit value of a possibly signed decimal token; 0 if malformed.
pub fn parse_milli(tok: &Vec<char>) -> (r: i32)
    ensures
        r as int == milli_of(tok@),
        -TOKEN_MILLI_SAT <= r <= TOKEN_MILLI_SAT,
{
    if tok.len() == 0 {
        return 0;
    }
    let c = tok[0];
    if c == '-' || c == '+' {
        let body = crate::text::copy_range(tok, 1, tok.len());
        proof {
            assert(body@ =~= tok@.skip(1));
        }
        let mag = parse_unsigned_milli(&body);
        if c == '-' {
            -mag
        } else {
            mag
        }
    } else {
        parse_unsigned_milli(tok)
    }
}

/// Finger-count value of a token; 0 if malformed.
pub fn parse_fingers(tok: &Vec<char>) -> (r: i32)
    ensures
        r as int == fingers_of(tok@),
        0 <= r <= INT_UNITS_SAT,
{
    if tok.len() == 0 {
        return 0;
    }
    if !all_digits_exec(tok) {
        return 0;
    }
    digits_sat_exec(tok)
}

} // verus!
