//! Decimal strings.
//!
//! Monetary amounts and provider prices travel as decimal strings
//! (`"1.10"`, `"988.28"`, `"-12.5"`).  This module gives those strings an
//! exact mathematical reading — sign, integer digits, fractional digits —
//! and a verified scanner that the `Money` factory and the price parser
//! build on.  Amounts are ultimately carried in hundredths (cents), the
//! resolution that a two-fractional-digit amount needs.

use vstd::prelude::*;

verus! {

/// `c` is one of the ten decimal digits.
pub open spec fn is_ascii_digit(c: char) -> bool {
    '0' <= c && c <= '9'
}

/// The numeric value of a digit character.
pub open spec fn digit_value(c: char) -> int {
    c as int - '0' as int
}

/// Every character of `s` is a decimal digit.
pub open spec fn all_digits(s: Seq<char>) -> bool {
    forall|i: int| 0 <= i < s.len() ==> is_ascii_digit(#[trigger] s[i])
}

/// The value of a digit string read in base ten, most significant first.
pub open spec fn digits_value(s: Seq<char>) -> int
    decreases s.len(),
{
    if s.len() == 0 {
        0
    } else {
        digits_value(s.drop_last()) * 10 + digit_value(s.last())
    }
}

/// The string starts with a minus sign.
pub open spec fn has_minus(s: Seq<char>) -> bool {
    s.len() > 0 && s[0] == '-'
}

/// The string with a leading minus sign, if any, removed.
pub open spec fn unsigned_part(s: Seq<char>) -> Seq<char> {
    if has_minus(s) {
        s.subrange(1, s.len() as int)
    } else {
        s
    }
}

/// The index of the first `'.'` in `u`, or `u.len()` if there is none.
pub open spec fn dot_pos(u: Seq<char>) -> int
    decreases u.len(),
{
    if u.len() == 0 {
        0
    } else if u[0] == '.' {
        0
    } else {
        1 + dot_pos(u.subrange(1, u.len() as int))
    }
}

/// The digits before the first `'.'` (the whole string if there is no dot).
pub open spec fn int_digits(u: Seq<char>) -> Seq<char> {
    u.subrange(0, dot_pos(u))
}

/// The digits after the first `'.'`, empty if there is no dot.
pub open spec fn frac_digits(u: Seq<char>) -> Seq<char> {
    if dot_pos(u) == u.len() {
        Seq::empty()
    } else {
        u.subrange(dot_pos(u) + 1, u.len() as int)
    }
}

/// An unsigned decimal: one or more integer digits, then optionally a dot
/// followed by one or more fractional digits.
pub open spec fn valid_unsigned_decimal(u: Seq<char>) -> bool {
    &&& int_digits(u).len() >= 1
    &&& all_digits(int_digits(u))
    &&& (dot_pos(u) == u.len() || frac_digits(u).len() >= 1)
    &&& all_digits(frac_digits(u))
}

/// A decimal string: an unsigned decimal with an optional leading minus.
pub open spec fn valid_decimal(s: Seq<char>) -> bool {
    valid_unsigned_decimal(unsigned_part(s))
}

/// `s` with its trailing `'0'` characters removed.
pub open spec fn trim_trailing_zeros(s: Seq<char>) -> Seq<char>
    decreases s.len(),
{
    if s.len() > 0 && s.last() == '0' {
        trim_trailing_zeros(s.drop_last())
    } else {
        s
    }
}

/// How many fractional digits remain once trailing zeros are trimmed:
/// `"1.7382300"` has five, `"1.10"` has one, `"1.00"` has none.
pub open spec fn significant_frac_len(s: Seq<char>) -> int {
    trim_trailing_zeros(frac_digits(unsigned_part(s))).len() as int
}

/// The numeric value of the string is exactly zero (`"0"`, `"-0.00"`, ...).
pub open spec fn numeric_zero(s: Seq<char>) -> bool {
    digits_value(int_digits(unsigned_part(s))) == 0
        && digits_value(frac_digits(unsigned_part(s))) == 0
}

/// The string denotes a value strictly below zero.  A minus sign in front
/// of a zero value (`"-0"`) does not count.
pub open spec fn negative_value(s: Seq<char>) -> bool {
    has_minus(s) && !numeric_zero(s)
}

/// The first two fractional digits read as a count of cents.  When no more
/// than two fractional digits are significant this is exact; for longer
/// fractions it truncates toward zero.
pub open spec fn frac_cents(f: Seq<char>) -> int {
    if f.len() == 0 {
        0
    } else if f.len() == 1 {
        10 * digit_value(f[0])
    } else {
        10 * digit_value(f[0]) + digit_value(f[1])
    }
}

/// The magnitude of the string in cents, truncated toward zero beyond two
/// fractional digits.
pub open spec fn cents_value(s: Seq<char>) -> int {
    100 * digits_value(int_digits(unsigned_part(s))) + frac_cents(frac_digits(unsigned_part(s)))
}

/// The signed value of the string in cents, truncated toward zero.
pub open spec fn signed_cents(s: Seq<char>) -> int {
    if has_minus(s) {
        -cents_value(s)
    } else {
        cents_value(s)
    }
}

/// `dot_pos` lies in `[0, len]`, points at a dot when it is inside the
/// string, and nothing before it is a dot.
pub proof fn lemma_dot_pos_bounds(u: Seq<char>)
    ensures
        0 <= dot_pos(u) <= u.len(),
        dot_pos(u) < u.len() ==> u[dot_pos(u)] == '.',
        forall|k: int| 0 <= k < dot_pos(u) ==> #[trigger] u[k] != '.',
    decreases u.len(),
{
    if u.len() == 0 {
    } else if u[0] == '.' {
    } else {
        let t = u.subrange(1, u.len() as int);
        lemma_dot_pos_bounds(t);
        assert(forall|k: int| 0 <= k < dot_pos(t) ==> #[trigger] t[k] != '.');
        assert forall|k: int| 0 <= k < dot_pos(u) implies #[trigger] u[k] != '.' by {
            if k > 0 {
                assert(u[k] == t[k - 1]);
            }
        }
    }
}

/// Any position with no dot before it, and a dot (or the end) at it, is
/// `dot_pos`.
pub proof fn lemma_dot_pos_of(u: Seq<char>, p: int)
    requires
        0 <= p <= u.len(),
        forall|k: int| 0 <= k < p ==> #[trigger] u[k] != '.',
        p == u.len() || u[p] == '.',
    ensures
        dot_pos(u) == p,
    decreases u.len(),
{
    if u.len() == 0 {
    } else if u[0] == '.' {
        assert(p == 0);
    } else {
        let t = u.subrange(1, u.len() as int);
        assert(p >= 1);
        assert forall|k: int| 0 <= k < p - 1 implies #[trigger] t[k] != '.' by {
            assert(t[k] == u[k + 1]);
        }
        assert(p - 1 == t.len() || t[p - 1] == '.');
        lemma_dot_pos_of(t, p - 1);
    }
}

/// A digit string has a non-negative value.
pub proof fn lemma_digits_value_nonneg(s: Seq<char>)
    requires
        all_digits(s),
    ensures
        digits_value(s) >= 0,
    decreases s.len(),
{
    if s.len() > 0 {
        assert(all_digits(s.drop_last())) by {
            assert(forall|i: int|
                0 <= i < s.drop_last().len() ==> s.drop_last()[i] == #[trigger] s[i]);
        }
        lemma_digits_value_nonneg(s.drop_last());
        assert(is_ascii_digit(s.last()));
    }
}

/// Appending a digit multiplies the value by ten and adds the digit.
pub proof fn lemma_digits_value_push(s: Seq<char>, c: char)
    ensures
        digits_value(s.push(c)) == 10 * digits_value(s) + digit_value(c),
{
    assert(s.push(c).drop_last() =~= s);
    assert(s.push(c).last() == c);
}

/// A digit string is all zeros exactly when its value is zero.
pub proof fn lemma_digits_value_zero(s: Seq<char>)
    requires
        all_digits(s),
    ensures
        digits_value(s) == 0 <==> (forall|k: int| 0 <= k < s.len() ==> #[trigger] s[k] == '0'),
    decreases s.len(),
{
    if s.len() > 0 {
        let d = s.drop_last();
        assert(all_digits(d)) by {
            assert(forall|i: int| 0 <= i < d.len() ==> d[i] == #[trigger] s[i]);
        }
        lemma_digits_value_zero(d);
        lemma_digits_value_nonneg(d);
        assert(is_ascii_digit(s.last()));
        if digits_value(s) == 0 {
            assert(digits_value(d) * 10 + digit_value(s.last()) == 0);
            assert(digits_value(d) == 0 && digit_value(s.last()) == 0) by (nonlinear_arith)
                requires
                    digits_value(d) >= 0,
                    0 <= digit_value(s.last()) <= 9,
                    digits_value(d) * 10 + digit_value(s.last()) == 0,
            ;
            assert forall|k: int| 0 <= k < s.len() implies #[trigger] s[k] == '0' by {
                if k < s.len() - 1 {
                    assert(s[k] == d[k]);
                } else {
                    assert(s[k] == s.last());
                    assert(digit_value(s.last()) == 0);
                    assert(is_ascii_digit(s.last()));
                    assert(s.last() == '0');
                }
            }
        } else {
            if forall|k: int| 0 <= k < s.len() ==> #[trigger] s[k] == '0' {
                assert(forall|k: int| 0 <= k < d.len() ==> #[trigger] d[k] == '0');
                assert(digits_value(d) == 0);
                assert(s.last() == s[s.len() - 1]);
                assert(s.last() == '0');
                assert(digits_value(s) == 0);
            }
        }
    }
}

/// Appending a zero leaves the trimmed string alone; appending any other
/// character makes the whole string trimmed.
pub proof fn lemma_trim_push(s: Seq<char>, c: char)
    ensures
        c == '0' ==> trim_trailing_zeros(s.push(c)) == trim_trailing_zeros(s),
        c != '0' ==> trim_trailing_zeros(s.push(c)) == s.push(c),
{
    assert(s.push(c).drop_last() =~= s);
    assert(s.push(c).last() == c);
}

/// Read a provider price string as a signed count of cents, truncating
/// toward zero past the second fractional digit.  `None` when the string is
/// not a decimal or its magnitude exceeds what an `i64` of cents can hold.
pub fn parse_cents(s: &str) -> (r: Option<i64>)
    ensures
        (valid_decimal(s@) && cents_value(s@) <= i64::MAX) <==> r is Some,
        r matches Some(v) ==> v == signed_cents(s@),
{
    let d = scan_decimal(s);
    if !d.valid {
        return None;
    }
    if d.int_over {
        return None;
    }
    let limit = ((i64::MAX as u64) - d.fc) / 100;
    proof {
        vstd::arithmetic::div_mod::lemma_fundamental_div_mod(
            (i64::MAX as u64 - d.fc) as int,
            100,
        );
    }
    if d.int_val > limit {
        return None;
    }
    let mag = (d.int_val * 100 + d.fc) as i64;
    if d.neg {
        Some(-mag)
    } else {
        Some(mag)
    }
}

/// Everything the scanner learns about a decimal string.
pub(crate) struct ScannedDecimal {
    /// The string is a well-formed decimal.
    pub valid: bool,
    /// A leading minus sign is present.
    pub neg: bool,
    /// The integer digits overflow a `u64`.
    pub int_over: bool,
    /// The value of the integer digits, when they fit.
    pub int_val: u64,
    /// The first two fractional digits as cents, `0..=99`.
    pub fc: u64,
    /// How many fractional digits are significant (trailing zeros trimmed).
    pub sig: usize,
    /// The numeric value of the whole string is zero.
    pub zero: bool,
}

/// `b` says whether `c` is a decimal digit.
fn is_digit_char(c: char) -> (b: bool)
    ensures
        b == is_ascii_digit(c),
{
    let v = c as u32;
    48 <= v && v <= 57
}

/// `b` says whether the character of `s` at `i` is a decimal digit.
fn digit_at(s: &str, i: usize) -> (b: bool)
    requires
        i < s@.len(),
    ensures
        b == is_ascii_digit(s@[i as int]),
{
    is_digit_char(s.get_char(i))
}

/// Scan a decimal string once, reporting its shape and its exact reading.
pub(crate) fn scan_decimal(s: &str) -> (d: ScannedDecimal)
    ensures
        d.valid == valid_decimal(s@),
        d.valid ==> d.neg == has_minus(s@),
        d.valid ==> (!d.int_over ==> d.int_val == digits_value(int_digits(unsigned_part(s@)))),
        d.valid ==> (d.int_over ==> digits_value(int_digits(unsigned_part(s@))) > u64::MAX),
        d.valid ==> d.fc == frac_cents(frac_digits(unsigned_part(s@))),
        d.valid ==> d.sig == trim_trailing_zeros(frac_digits(unsigned_part(s@))).len(),
        d.valid ==> d.zero == numeric_zero(s@),
{
    let invalid = ScannedDecimal {
        valid: false,
        neg: false,
        int_over: false,
        int_val: 0,
        fc: 0,
        sig: 0,
        zero: false,
    };
    let n = s.unicode_len();
    let neg = if n > 0 {
        s.get_char(0) == '-'
    } else {
        false
    };
    let start: usize = if neg {
        1
    } else {
        0
    };
    let ghost u = unsigned_part(s@);
    proof {
        assert(u =~= s@.subrange(start as int, n as int));
    }

    // Integer digits, up to the first dot or the end of the string.
    let mut i = start;
    let mut int_val: u64 = 0;
    let mut int_over = false;
    while i < n && digit_at(s, i)
        invariant
            n == s@.len(),
            start <= i <= n,
            neg == has_minus(s@),
            start == if neg { 1int } else { 0int },
            u == unsigned_part(s@),
            u =~= s@.subrange(start as int, n as int),
            forall|k: int| start <= k < i ==> is_ascii_digit(#[trigger] s@[k]),
            !int_over ==> int_val == digits_value(s@.subrange(start as int, i as int)),
            int_over ==> digits_value(s@.subrange(start as int, i as int)) > u64::MAX,
        decreases n - i,
    {
        let c = s.get_char(i);
        let dv: u64 = (c as u32 - 48) as u64;
        proof {
            assert(dv == digit_value(c));
            assert(s@.subrange(start as int, i + 1) =~= s@.subrange(start as int, i as int).push(
                s@[i as int],
            ));
            lemma_digits_value_push(s@.subrange(start as int, i as int), s@[i as int]);
        }
        if !int_over {
            let limit = (u64::MAX - dv) / 10;
            proof {
                vstd::arithmetic::div_mod::lemma_fundamental_div_mod((u64::MAX - dv) as int, 10);
            }
            if int_val <= limit {
                int_val = int_val * 10 + dv;
            } else {
                int_over = true;
            }
        } else {
            proof {
                let prev = digits_value(s@.subrange(start as int, i as int));
                assert(10 * prev + dv > u64::MAX);
            }
        }
        i += 1;
    }

    // The integer digits run from `start` to `i`; decide what stopped them.
    if i < n && !digit_at(s, i) && s.get_char(i) != '.' {
        proof {
            // A character that is neither a digit nor a dot always lands
            // inside the integer digits, wherever the first dot is.
            lemma_dot_pos_bounds(u);
            let p = dot_pos(u);
            if p < i - start {
                assert(u[p] == s@[p + start]);
                assert(is_ascii_digit(u[p]));
                assert(false);
            } else if p == i - start {
                assert(u[p] == s@[i as int]);
                assert(false);
            } else {
                assert(int_digits(u)[i - start] == u[i - start]);
                assert(!is_ascii_digit(int_digits(u)[i - start]));
            }
        }
        return invalid;
    }
    if i == start {
        // No integer digits at all.
        proof {
            lemma_dot_pos_bounds(u);
            if int_digits(u).len() >= 1 {
                assert(int_digits(u)[0] == u[0]);
                if u.len() > 0 && u[0] == '.' {
                    assert(dot_pos(u) == 0);
                }
            }
        }
        return invalid;
    }

    let ghost p = (i - start) as int;
    if i == n {
        // No fractional part.
        proof {
            assert(forall|k: int| 0 <= k < p ==> u[k] == #[trigger] s@[k + start]);
            lemma_dot_pos_of(u, p);
            assert(int_digits(u) =~= s@.subrange(start as int, i as int));
            assert(frac_digits(u) =~= Seq::<char>::empty());
            assert(trim_trailing_zeros(frac_digits(u)) =~= Seq::<char>::empty());
            if !int_over {
                lemma_digits_value_zero(int_digits(u));
            }
        }
        return ScannedDecimal {
            valid: true,
            neg,
            int_over,
            int_val,
            fc: 0,
            sig: 0,
            zero: !int_over && int_val == 0,
        };
    }

    // A dot: fractional digits must follow.
    proof {
        assert(s@[i as int] == '.');
        assert(forall|k: int| 0 <= k < p ==> u[k] == #[trigger] s@[k + start]);
        lemma_dot_pos_of(u, p);
        assert(int_digits(u) =~= s@.subrange(start as int, i as int));
    }
    if i + 1 == n {
        // "1." — a dot with nothing after it.
        proof {
            assert(frac_digits(u) =~= Seq::<char>::empty());
        }
        return invalid;
    }

    let mut j = i + 1;
    let mut fc: u64 = 0;
    let mut sig: usize = 0;
    let mut frac_zero = true;
    while j < n && digit_at(s, j)
        invariant
            n == s@.len(),
            start <= i < n,
            i + 1 <= j <= n,
            u == unsigned_part(s@),
            u =~= s@.subrange(start as int, n as int),
            neg == has_minus(s@),
            start == if neg { 1int } else { 0int },
            dot_pos(u) == i - start,
            int_digits(u) =~= s@.subrange(start as int, i as int),
            !int_over ==> int_val == digits_value(int_digits(u)),
            int_over ==> digits_value(int_digits(u)) > u64::MAX,
            forall|k: int| start <= k < i ==> is_ascii_digit(#[trigger] s@[k]),
            forall|k: int| i + 1 <= k < j ==> is_ascii_digit(#[trigger] s@[k]),
            fc == frac_cents(s@.subrange(i + 1, j as int)),
            fc <= 99,
            sig == trim_trailing_zeros(s@.subrange(i + 1, j as int)).len(),
            sig <= j - i - 1,
            frac_zero == (forall|k: int| i + 1 <= k < j ==> #[trigger] s@[k] == '0'),
        decreases n - j,
    {
        let c = s.get_char(j);
        let dv: u64 = (c as u32 - 48) as u64;
        let ghost f = s@.subrange(i + 1, j as int);
        proof {
            assert(dv == digit_value(c));
            assert(s@.subrange(i + 1, j + 1) =~= f.push(s@[j as int]));
            lemma_trim_push(f, s@[j as int]);
            if f.len() >= 1 {
                assert(f.push(s@[j as int])[0] == f[0]);
            }
            if f.len() >= 2 {
                assert(f.push(s@[j as int])[1] == f[1]);
            }
        }
        if j == i + 1 {
            fc = 10 * dv;
        } else if j == i + 2 {
            fc = fc + dv;
        }
        if c != '0' {
            sig = j - i;
            frac_zero = false;
        }
        j += 1;
    }
    if j < n {
        // A non-digit inside the fractional part.
        proof {
            assert(frac_digits(u) =~= s@.subrange(i + 1, n as int));
            assert(frac_digits(u)[j - i - 1] == s@[j as int]);
        }
        return invalid;
    }

    proof {
        let f = frac_digits(u);
        assert(f =~= s@.subrange(i + 1, n as int));
        assert(all_digits(int_digits(u)));
        assert(all_digits(f));
        assert(f.len() >= 1);
        if !int_over {
            lemma_digits_value_zero(int_digits(u));
        }
        lemma_digits_value_zero(f);
        if frac_zero {
            assert forall|k: int| 0 <= k < f.len() implies #[trigger] f[k] == '0' by {
                assert(f[k] == s@[i + 1 + k]);
            }
        } else {
            assert(!(forall|k: int| i + 1 <= k < n ==> #[trigger] s@[k] == '0'));
            let k = choose|k: int| i + 1 <= k < n && #[trigger] s@[k] != '0';
            assert(f[k - i - 1] == s@[k]);
            assert(!(forall|k2: int| 0 <= k2 < f.len() ==> #[trigger] f[k2] == '0'));
        }
    }
    ScannedDecimal {
        valid: true,
        neg,
        int_over,
        int_val,
        fc,
        sig,
        zero: !int_over && int_val == 0 && frac_zero,
    }
}

} // verus!
