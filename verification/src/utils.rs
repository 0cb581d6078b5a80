//! Small string helpers shared by the lexer, the resolution machinery and
//! the error constructors, together with the literal parsers for float and
//! timedelta values.

use vstd::prelude::*;
use vstd::string::*;

verus! {

use crate::errors::{FloatSyntaxError, TimedeltaSyntaxError};
use crate::lexer::{digits_end, digits_value, is_digit};
use crate::number::{
    Decimal,
    lemma_digits_combine,
    lemma_pow10_18,
    lemma_pow10_8,
    lemma_pow10_adds,
    lemma_pow10_increases,
    lemma_pow10_pos,
    pow10,
    pow10_u64,
};
use vstd::arithmetic::div_mod::{lemma_fundamental_div_mod, lemma_mod_bound};

/// The character for a single decimal digit.
pub open spec fn decimal_digit_char(d: nat) -> char {
    if d == 0 {
        '0'
    } else if d == 1 {
        '1'
    } else if d == 2 {
        '2'
    } else if d == 3 {
        '3'
    } else if d == 4 {
        '4'
    } else if d == 5 {
        '5'
    } else if d == 6 {
        '6'
    } else if d == 7 {
        '7'
    } else if d == 8 {
        '8'
    } else {
        '9'
    }
}

/// The usual decimal rendering of a natural number, most significant digit
/// first and without leading zeros (except for zero itself).
pub open spec fn nat_to_string(n: nat) -> Seq<char>
    decreases n,
{
    if n < 10 {
        seq![decimal_digit_char(n)]
    } else {
        nat_to_string(n / 10).push(decimal_digit_char(n % 10))
    }
}

/// Relies on core::fmt's decimal rendering of `usize` through `format!`,
/// which prints the digits of the number in base ten without leading zeros.
#[verifier::external_body]
pub fn format_usize(n: usize) -> (r: String)
    ensures
        r@ == nat_to_string(n as nat),
{
    format!("{}", n)
}

/// Character-by-character string comparison, so that verified code does not
/// have to rely on an unspecified standard-library equality.
pub fn str_equal(a: &str, b: &str) -> (r: bool)
    ensures
        r == (a@ == b@),
{
    let n: usize = a.unicode_len();
    let m: usize = b.unicode_len();
    if n != m {
        assert(a@ != b@);
        return false;
    }
    let mut i: usize = 0;
    while i < n
        invariant
            n == a@.len(),
            n == b@.len(),
            i <= n,
            forall|j: int| 0 <= j < i ==> a@[j] == b@[j],
        decreases n - i,
    {
        let ca = a.get_char(i);
        let cb = b.get_char(i);
        if ca != cb {
            assert(a@[i as int] != b@[i as int]);
            return false;
        }
        i = i + 1;
    }
    assert(a@ =~= b@);
    true
}

/// The views of a sequence of owned strings.
pub open spec fn keys_views(keys: Seq<String>) -> Seq<Seq<char>> {
    keys.map_values(|k: String| k@)
}

/// The segments of an attribute path joined back with dots.
pub open spec fn join_with_dots(keys: Seq<Seq<char>>) -> Seq<char>
    decreases keys.len(),
{
    if keys.len() == 0 {
        Seq::<char>::empty()
    } else if keys.len() == 1 {
        keys[0]
    } else {
        keys[0] + seq!['.'] + join_with_dots(keys.drop_first())
    }
}

/// Appending one more segment extends the joined path by a dot and the
/// segment.
pub proof fn lemma_join_snoc(keys: Seq<Seq<char>>, last: Seq<char>)
    ensures
        keys.len() == 0 ==> join_with_dots(keys.push(last)) == last,
        keys.len() > 0 ==> join_with_dots(keys.push(last)) == join_with_dots(keys) + seq!['.']
            + last,
    decreases keys.len(),
{
    if keys.len() == 0 {
        assert(keys.push(last)[0] == last);
        assert(join_with_dots(keys.push(last)) == last);
    } else if keys.len() == 1 {
        let p = keys.push(last);
        assert(p.len() == 2);
        assert(p[0] == keys[0]);
        assert(p.drop_first() =~= seq![last]);
        assert(join_with_dots(p.drop_first()) == last);
    } else {
        let p = keys.push(last);
        assert(p.drop_first() =~= keys.drop_first().push(last));
        lemma_join_snoc(keys.drop_first(), last);
        assert(join_with_dots(p) == p[0] + seq!['.'] + join_with_dots(p.drop_first()));
        assert(p[0] == keys[0]);
        assert(join_with_dots(keys) + seq!['.'] + last == keys[0] + seq!['.'] + (join_with_dots(
            keys.drop_first(),
        ) + seq!['.'] + last)) by {
            assert((keys[0] + seq!['.'] + join_with_dots(keys.drop_first())) + seq!['.'] + last
                =~= keys[0] + seq!['.'] + (join_with_dots(keys.drop_first()) + seq!['.'] + last));
        }
    }
}

/// Joins the segments of an attribute path with dots, for error messages.
pub fn join_keys(keys: &Vec<String>) -> (r: String)
    ensures
        r@ == join_with_dots(keys_views(keys@)),
{
    let mut r = String::new();
    let mut j: usize = 0;
    while j < keys.len()
        invariant
            j <= keys@.len(),
            r@ == join_with_dots(keys_views(keys@).subrange(0, j as int)),
        decreases keys@.len() - j,
    {
        if j > 0 {
            r.append(".");
        }
        r.append(keys[j].as_str());
        proof {
            reveal_strlit(".");
            let kv = keys_views(keys@);
            assert(kv.subrange(0, j + 1 as int) =~= kv.subrange(0, j as int).push(kv[j as int]));
            lemma_join_snoc(kv.subrange(0, j as int), kv[j as int]);
            assert(kv[j as int] == keys@[j as int]@);
            if j > 0 {
                assert("."@ =~= seq!['.']);
                assert(r@ =~= join_with_dots(kv.subrange(0, j as int)) + seq!['.'] + kv[j as int]);
            } else {
                assert(kv.subrange(0, 0) =~= Seq::<Seq<char>>::empty());
                assert(r@ =~= kv[0]);
            }
        }
        j = j + 1;
    }
    proof {
        assert(keys_views(keys@).subrange(0, keys@.len() as int) =~= keys_views(keys@));
    }
    r
}

/// Clones a vector of strings, keeping every element exactly.
pub fn clone_strings(v: &Vec<String>) -> (r: Vec<String>)
    ensures
        r@ == v@,
{
    let mut r: Vec<String> = Vec::new();
    let mut k: usize = 0;
    while k < v.len()
        invariant
            k <= v@.len(),
            r@ =~= v@.subrange(0, k as int),
        decreases v@.len() - k,
    {
        r.push(v[k].clone());
        proof {
            assert(r@ =~= v@.subrange(0, k + 1 as int));
        }
        k = k + 1;
    }
    proof {
        assert(r@ =~= v@);
    }
    r
}

/// The exact value of a float literal: an optional minus sign, digits with
/// no redundant leading zero, and optionally a dot followed by fraction
/// digits, with at most eighteen digits in all so the mantissa is exact.
/// The result is the mantissa and the scale.
pub open spec fn spec_parse_float(s: Seq<char>) -> Option<(int, nat)> {
    let neg = s.len() > 0 && s[0] == '-';
    let i: nat = if neg {
        1nat
    } else {
        0nat
    };
    if i >= s.len() || !is_digit(s[i as int]) {
        None
    } else {
        let j = digits_end(s, i);
        if s[i as int] == '0' && j > i + 1 {
            None
        } else if j == s.len() {
            if j - i > 18 {
                None
            } else {
                Some(
                    (
                        if neg {
                            -(digits_value(s, i, j) as int)
                        } else {
                            digits_value(s, i, j) as int
                        },
                        0nat,
                    ),
                )
            }
        } else if s[j as int] == '.' {
            let k = digits_end(s, j + 1);
            if k == j + 1 || k != s.len() {
                None
            } else if (j - i) + (k - j - 1) > 18 {
                None
            } else {
                let u = (digits_value(s, i, j) * pow10((k - j - 1) as nat) + digits_value(
                    s,
                    (j + 1) as nat,
                    k,
                )) as int;
                Some(
                    (
                        if neg {
                            -u
                        } else {
                            u
                        },
                        (k - j - 1) as nat,
                    ),
                )
            }
        } else {
            None
        }
    }
}

/// Parses a float literal into an exact decimal, or reports exactly why it
/// is not one.
pub fn parse_float(string: &str) -> (r: Result<Decimal, FloatSyntaxError>)
    ensures
        match spec_parse_float(string@) {
            Some((u, sc)) => r matches Ok(d) && d.spec_units() == u && d.spec_scale() == sc,
            None => r is Err,
        },
{
    let n: usize = string.unicode_len();
    let neg: bool = n > 0 && string.get_char(0) == '-';
    let i: usize = if neg {
        1
    } else {
        0
    };
    if i >= n {
        return Err(FloatSyntaxError::new("Invalid floating point literal", string));
    }
    let c0 = string.get_char(i);
    if !crate::lexer::is_digit_exec(c0) {
        return Err(FloatSyntaxError::new("Invalid floating point literal", string));
    }
    let j = crate::lexer::scan_digits(string, i);
    proof {
        assert forall|m: int| i <= m < j implies is_digit(string@[m]) by {
            crate::lexer::lemma_digits_run(string@, i as nat, m);
        }
        crate::number::lemma_pow10_18();
    }
    if c0 == '0' && j > i + 1 {
        return Err(
            FloatSyntaxError::new(
                "Invalid floating point literal (leading zeros in decimal literals are not permitted)",
                string,
            ),
        );
    }
    if j == n {
        if j - i > 18 {
            return Err(FloatSyntaxError::new("Invalid floating point literal (too many digits)", string));
        }
        let v: u64 = crate::lexer::digits_to_u64(string, i, j);
        proof {
            crate::number::lemma_pow10_increases((j - i) as nat, 18);
        }
        let units: i64 = if neg {
            -(v as i64)
        } else {
            v as i64
        };
        Ok(Decimal::new(units, 0))
    } else if string.get_char(j) == '.' {
        let k = crate::lexer::scan_digits(string, j + 1);
        proof {
            assert forall|m: int| j + 1 <= m < k implies is_digit(string@[m]) by {
                crate::lexer::lemma_digits_run(string@, (j + 1) as nat, m);
            }
        }
        if k == j + 1 || k != n {
            return Err(FloatSyntaxError::new("Invalid floating point literal", string));
        }
        if (j - i) + (k - j - 1) > 18 {
            return Err(FloatSyntaxError::new("Invalid floating point literal (too many digits)", string));
        }
        let int_part: u64 = crate::lexer::digits_to_u64(string, i, j);
        let frac_part: u64 = crate::lexer::digits_to_u64(string, j + 1, k);
        let scale: u32 = (k - j - 1) as u32;
        proof {
            crate::number::lemma_digits_combine(
                digits_value(string@, i as nat, j as nat),
                digits_value(string@, (j + 1) as nat, k as nat),
                (j - i) as nat,
                scale as nat,
            );
            crate::number::lemma_pow10_increases(((j - i) + scale) as nat, 18);
            crate::number::lemma_pow10_pos(scale as nat);
            crate::number::lemma_pow10_increases(scale as nat, 18);
        }
        let units_mag: u64 = int_part * crate::number::pow10_u64(scale) + frac_part;
        let units: i64 = if neg {
            -(units_mag as i64)
        } else {
            units_mag as i64
        };
        Ok(Decimal::new(units, scale))
    } else {
        Err(FloatSyntaxError::new("Invalid floating point literal", string))
    }
}


// ---------------------------------------------------------------------------
// Timedelta literals
// ---------------------------------------------------------------------------
/// One duration component starting at `i`: digits (at most ten, so the
/// whole part is exact), optionally a decimal mark (`.` or `,`) and at most
/// eight fraction digits, then the given marker letter.  The result is the
/// mantissa, the scale and the index just past the marker.
pub open spec fn spec_td_component(s: Seq<char>, i: nat, marker: char) -> Option<(nat, nat, nat)> {
    if i >= s.len() || !is_digit(s[i as int]) {
        None
    } else {
        let j = digits_end(s, i);
        if j - i > 10 {
            None
        } else if j < s.len() && (s[j as int] == '.' || s[j as int] == ',') {
            let k = digits_end(s, j + 1);
            if k == j + 1 || k - (j + 1) > 8 {
                None
            } else if k < s.len() && s[k as int] == marker {
                Some(
                    (
                        digits_value(s, i, j) * pow10((k - j - 1) as nat) + digits_value(
                            s,
                            (j + 1) as nat,
                            k,
                        ),
                        (k - j - 1) as nat,
                        k + 1,
                    ),
                )
            } else {
                None
            }
        } else if j < s.len() && s[j as int] == marker {
            Some((digits_value(s, i, j), 0nat, j + 1))
        } else {
            None
        }
    }
}

/// A component if its marker is present at `i`, else nothing consumed: a
/// zero value and the unchanged position.
pub open spec fn spec_td_take(s: Seq<char>, i: nat, marker: char) -> (nat, nat, nat) {
    match spec_td_component(s, i, marker) {
        Some(t) => t,
        None => (0, 0, i),
    }
}

/// The contribution of one component to the duration, in seconds scaled by
/// eight fraction digits: `units * factor * 10^(8 - scale)`.
pub open spec fn spec_td_scaled(units: nat, scale: nat, factor: nat) -> int
    recommends
        scale <= 8,
{
    (units * factor * pow10((8 - scale) as nat)) as int
}

/// The whole seconds of a duration `P[nW][nD][T[nH][nM][nS]]`: the exact
/// sum of the components' values, truncated toward zero.  The bare `P` and
/// anything outside the grammar parse to nothing.
pub open spec fn spec_parse_timedelta(s: Seq<char>) -> Option<int> {
    if s.len() < 2 || s[0] != 'P' {
        None
    } else {
        let w = spec_td_take(s, 1, 'W');
        let d = spec_td_take(s, w.2, 'D');
        if d.2 < s.len() && s[d.2 as int] == 'T' {
            let h = spec_td_take(s, d.2 + 1, 'H');
            let m = spec_td_take(s, h.2, 'M');
            let x = spec_td_take(s, m.2, 'S');
            if x.2 == s.len() {
                Some(
                    (spec_td_scaled(w.0, w.1, 604800) + spec_td_scaled(d.0, d.1, 86400)
                        + spec_td_scaled(h.0, h.1, 3600) + spec_td_scaled(m.0, m.1, 60)
                        + spec_td_scaled(x.0, x.1, 1)) / (pow10(8) as int),
                )
            } else {
                None
            }
        } else {
            if d.2 == s.len() {
                Some(
                    (spec_td_scaled(w.0, w.1, 604800) + spec_td_scaled(d.0, d.1, 86400)) / (
                    pow10(8) as int),
                )
            } else {
                None
            }
        }
    }
}

/// A component's scaled contribution stays below `604800 * 10^18`, since
/// its whole part has at most ten digits and its factor is at most a week
/// of seconds.
proof fn lemma_td_component_bound(u: nat, sc: nat, f: nat)
    requires
        sc <= 8,
        u < pow10((10 + sc) as nat),
        f <= 604800,
    ensures
        u * f < 604800000000000000000000,
        u * f * pow10((8 - sc) as nat) < 604800000000000000000000,
{
    lemma_pow10_adds((10 + sc) as nat, (8 - sc) as nat);
    assert((10 + sc) + (8 - sc) == 18);
    lemma_pow10_18();
    lemma_pow10_pos((8 - sc) as nat);
    lemma_pow10_pos((10 + sc) as nat);
    lemma_pow10_increases((10 + sc) as nat, 18);
    assert(u * f * pow10((8 - sc) as nat) < 604800 * pow10(18)) by (nonlinear_arith)
        requires
            u < pow10((10 + sc) as nat),
            f <= 604800,
            pow10((10 + sc) as nat) * pow10((8 - sc) as nat) == pow10(18),
            pow10((8 - sc) as nat) >= 1,
            pow10((10 + sc) as nat) >= 1,
    ;
    assert(u * f < 604800 * pow10(18)) by (nonlinear_arith)
        requires
            u < pow10(18),
            f <= 604800,
            pow10(18) >= 1,
    ;
}

/// One duration component at `i` ending in `marker`.
fn td_component(text: &str, i: usize, marker: char) -> (r: Option<(u64, u32, usize)>)
    requires
        i <= text@.len(),
    ensures
        match spec_td_component(text@, i as nat, marker) {
            Some((u, sc, j)) => {
                &&& r matches Some((ru, rsc, rj))
                &&& ru as nat == u
                &&& rsc as nat == sc
                &&& rj as nat == j
                &&& i < rj <= text@.len()
                &&& rsc <= 8
                &&& (ru as nat) < pow10((10 + rsc) as nat)
            },
            None => r is None,
        },
{
    let n: usize = text.unicode_len();
    if i >= n {
        return None;
    }
    if !crate::lexer::is_digit_exec(text.get_char(i)) {
        return None;
    }
    let j = crate::lexer::scan_digits(text, i);
    proof {
        assert forall|q: int| i <= q < j implies is_digit(text@[q]) by {
            crate::lexer::lemma_digits_run(text@, i as nat, q);
        }
        assert(digits_end(text@, i as nat) == digits_end(text@, (i + 1) as nat));
        crate::lexer::lemma_digits_end_bounds(text@, (i + 1) as nat);
    }
    if j - i > 10 {
        return None;
    }
    if j < n && (text.get_char(j) == '.' || text.get_char(j) == ',') {
        let k = crate::lexer::scan_digits(text, j + 1);
        proof {
            assert forall|q: int| j + 1 <= q < k implies is_digit(text@[q]) by {
                crate::lexer::lemma_digits_run(text@, (j + 1) as nat, q);
            }
        }
        if k == j + 1 || k - (j + 1) > 8 {
            return None;
        }
        if k < n && text.get_char(k) == marker {
            let int_part: u64 = crate::lexer::digits_to_u64(text, i, j);
            let frac_part: u64 = crate::lexer::digits_to_u64(text, j + 1, k);
            let scale: u32 = (k - j - 1) as u32;
            proof {
                lemma_digits_combine(
                    digits_value(text@, i as nat, j as nat),
                    digits_value(text@, (j + 1) as nat, k as nat),
                    (j - i) as nat,
                    scale as nat,
                );
                lemma_pow10_increases(((j - i) + scale) as nat, 18);
                lemma_pow10_increases(((j - i) + scale) as nat, (10 + scale) as nat);
                lemma_pow10_18();
                lemma_pow10_pos(scale as nat);
                lemma_pow10_increases(scale as nat, 18);
            }
            let units: u64 = int_part * pow10_u64(scale) + frac_part;
            Some((units, scale, k + 1))
        } else {
            None
        }
    } else if j < n && text.get_char(j) == marker {
        let v: u64 = crate::lexer::digits_to_u64(text, i, j);
        proof {
            lemma_pow10_increases((j - i) as nat, 10);
            lemma_pow10_increases(10, 18);
            lemma_pow10_18();
        }
        Some((v, 0, j + 1))
    } else {
        None
    }
}

/// Takes a component if its marker is present, else consumes nothing.
fn td_take(text: &str, i: usize, marker: char) -> (r: (u64, u32, usize))
    requires
        i <= text@.len(),
    ensures
        r.0 as nat == spec_td_take(text@, i as nat, marker).0,
        r.1 as nat == spec_td_take(text@, i as nat, marker).1,
        r.2 as nat == spec_td_take(text@, i as nat, marker).2,
        i <= r.2 <= text@.len(),
        r.1 <= 8,
        (r.0 as nat) < pow10((10 + r.1) as nat),
{
    match td_component(text, i, marker) {
        Some(t) => t,
        None => {
            proof {
                lemma_pow10_pos(10);
            }
            (0, 0, i)
        },
    }
}

/// One component's contribution, in seconds scaled by eight fraction
/// digits.
fn td_scaled(units: u64, scale: u32, factor: u64) -> (r: u128)
    requires
        scale <= 8,
        (units as nat) < pow10((10 + scale) as nat),
        1 <= factor <= 604800,
    ensures
        r == spec_td_scaled(units as nat, scale as nat, factor as nat),
        r < 604800000000000000000000,
{
    proof {
        lemma_td_component_bound(units as nat, scale as nat, factor as nat);
        lemma_pow10_pos((8 - scale) as nat);
    }
    let a: u128 = (units as u128) * (factor as u128);
    let p: u128 = pow10_u64(8 - scale) as u128;
    a * p
}

/// Parses a duration literal `P[nW][nD][T[nH][nM][nS]]` into whole
/// seconds, truncating any fraction of a second; each component is a
/// decimal number with `.` or `,` as the decimal mark.  The bare `P` is an
/// empty duration and an error, as is anything outside the grammar.
pub fn parse_timedelta(periodstring: &str) -> (r: Result<i64, TimedeltaSyntaxError>)
    ensures
        match spec_parse_timedelta(periodstring@) {
            Some(total) => r matches Ok(v) && v == total,
            None => r is Err,
        },
{
    let n: usize = periodstring.unicode_len();
    if n == 0 || periodstring.get_char(0) != 'P' {
        return Err(TimedeltaSyntaxError::new("Invalid timedelta string", periodstring));
    }
    if n == 1 {
        return Err(TimedeltaSyntaxError::new("Empty timedelta string", periodstring));
    }
    let w = td_take(periodstring, 1, 'W');
    let d = td_take(periodstring, w.2, 'D');
    proof {
        lemma_pow10_8();
    }
    if d.2 < n && periodstring.get_char(d.2) == 'T' {
        let h = td_take(periodstring, d.2 + 1, 'H');
        let m = td_take(periodstring, h.2, 'M');
        let x = td_take(periodstring, m.2, 'S');
        if x.2 != n {
            return Err(TimedeltaSyntaxError::new("Invalid timedelta string", periodstring));
        }
        let total_scaled: u128 = td_scaled(w.0, w.1, 604800) + td_scaled(d.0, d.1, 86400)
            + td_scaled(h.0, h.1, 3600) + td_scaled(m.0, m.1, 60) + td_scaled(x.0, x.1, 1);
        let q: u128 = total_scaled / 100000000;
        proof {
            lemma_fundamental_div_mod(total_scaled as int, 100000000);
            lemma_mod_bound(total_scaled as int, 100000000);
        }
        Ok(q as i64)
    } else {
        if d.2 != n {
            return Err(TimedeltaSyntaxError::new("Invalid timedelta string", periodstring));
        }
        let total_scaled: u128 = td_scaled(w.0, w.1, 604800) + td_scaled(d.0, d.1, 86400);
        let q: u128 = total_scaled / 100000000;
        proof {
            lemma_fundamental_div_mod(total_scaled as int, 100000000);
            lemma_mod_bound(total_scaled as int, 100000000);
        }
        Ok(q as i64)
    }
}

} // verus!
