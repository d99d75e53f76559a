//! Percentage validation. A progress record carries its percentage as the
//! decimal numeral the client sent and the store keeps; acceptance means the
//! string is a plain decimal numeral whose value lies in `[0, 100]`.

use vstd::prelude::*;
use vstd::string::*;

use crate::numerals::all_digits;
use crate::numerals::all_zeros;
use crate::numerals::digit_val;
use crate::numerals::digits_value;
use crate::numerals::is_digit;
use crate::numerals::lemma_digits_value_nonneg;

verus! {

/// Index of the first `'.'` in `s`, or `s.len()` if there is none.
pub open spec fn dot_index(s: Seq<char>) -> int
    decreases s.len(),
{
    if s.len() == 0 {
        0
    } else if s[0] == '.' {
        0
    } else {
        1 + dot_index(s.skip(1))
    }
}

/// An unsigned decimal numeral: one or more digits, optionally followed by a
/// dot and one or more digits.
pub open spec fn numeral_shape(s: Seq<char>) -> bool {
    let d = dot_index(s);
    &&& d >= 1
    &&& all_digits(s.take(d))
    &&& (d == s.len() || (d + 1 < s.len() && all_digits(s.skip(d + 1))))
}

/// The integer part of an unsigned numeral: everything before the first dot.
pub open spec fn int_part(s: Seq<char>) -> Seq<char> {
    s.take(dot_index(s))
}

/// The fractional part is absent or denotes zero.
pub open spec fn frac_zero(s: Seq<char>) -> bool {
    dot_index(s) == s.len() || all_zeros(s.skip(dot_index(s) + 1))
}

/// The value of the unsigned numeral `s` lies in `[0, 100]`.
pub open spec fn unsigned_in_range(s: Seq<char>) -> bool {
    &&& numeral_shape(s)
    &&& digits_value(int_part(s)) <= 100
    &&& (digits_value(int_part(s)) == 100 ==> frac_zero(s))
}

/// The unsigned numeral `s` denotes exactly zero.
pub open spec fn unsigned_is_zero(s: Seq<char>) -> bool {
    &&& numeral_shape(s)
    &&& all_zeros(int_part(s))
    &&& frac_zero(s)
}

/// A percentage string is accepted exactly when it denotes a decimal value in
/// `[0, 100]`: an unsigned numeral in range, or a negative-signed numeral
/// denoting exactly zero.
pub open spec fn percentage_in_range(s: Seq<char>) -> bool {
    if s.len() > 0 && s[0] == '-' {
        unsigned_is_zero(s.skip(1))
    } else {
        unsigned_in_range(s)
    }
}

/// `dot_index` is the position witnessed by a dot-free prefix.
proof fn lemma_dot_index_at(s: Seq<char>, d: int)
    requires
        0 <= d <= s.len(),
        forall|k: int| 0 <= k < d ==> #[trigger] s[k] != '.',
        d < s.len() ==> s[d] == '.',
    ensures
        dot_index(s) == d,
    decreases d,
{
    if d == 0 {
    } else {
        let t = s.skip(1);
        assert forall|k: int| 0 <= k < d - 1 implies #[trigger] t[k] != '.' by {
            assert(t[k] == s[k + 1]);
        }
        assert(d - 1 < t.len() ==> t[d - 1] == s[d]);
        lemma_dot_index_at(t, d - 1);
    }
}

/// First index at or after `from` that does not carry a digit (or `n`).
fn scan_digits(s: &str, from: usize, n: usize) -> (j: usize)
    requires
        n == s@.len(),
        from <= n,
    ensures
        from <= j <= n,
        forall|k: int| from <= k < j ==> is_digit(#[trigger] s@[k]),
        j < n ==> !is_digit(s@[j as int]),
{
    let mut j = from;
    while j < n
        invariant
            n == s@.len(),
            from <= j <= n,
            forall|k: int| from <= k < j ==> is_digit(#[trigger] s@[k]),
        decreases n - j,
    {
        let c = s.get_char(j);
        if c < '0' || c > '9' {
            return j;
        }
        j += 1;
    }
    j
}

/// Whether every character in `s[from..to]` is `'0'`.
fn scan_zeros(s: &str, from: usize, to: usize) -> (r: bool)
    requires
        to <= s@.len(),
        from <= to,
    ensures
        r == all_zeros(s@.subrange(from as int, to as int)),
{
    let mut j = from;
    while j < to
        invariant
            to <= s@.len(),
            from <= j <= to,
            forall|k: int| from <= k < j ==> #[trigger] s@[k] == '0',
        decreases to - j,
    {
        if s.get_char(j) != '0' {
            proof {
                let sub = s@.subrange(from as int, to as int);
                assert(sub[j - from] == s@[j as int]);
            }
            return false;
        }
        j += 1;
    }
    proof {
        let sub = s@.subrange(from as int, to as int);
        assert forall|k: int| 0 <= k < sub.len() implies #[trigger] sub[k] == '0' by {
            assert(sub[k] == s@[k + from]);
        }
    }
    true
}

/// Value of the digit run `s[from..to]`, saturated just above 100: the result
/// equals the run's value when that value is at most 100, and exceeds 100
/// exactly when the run's value does.
fn digits_value_capped(s: &str, from: usize, to: usize) -> (v: u32)
    requires
        to <= s@.len(),
        from <= to,
        forall|k: int| from <= k < to ==> is_digit(#[trigger] s@[k]),
    ensures
        digits_value(s@.subrange(from as int, to as int)) <= 100 ==> v == digits_value(
            s@.subrange(from as int, to as int),
        ),
        (digits_value(s@.subrange(from as int, to as int)) > 100) <==> (v > 100),
{
    let mut j = from;
    let mut v: u32 = 0;
    while j < to
        invariant
            to <= s@.len(),
            from <= j <= to,
            forall|k: int| from <= k < to ==> is_digit(#[trigger] s@[k]),
            v <= 1009,
            digits_value(s@.subrange(from as int, j as int)) <= 100 ==> v == digits_value(
                s@.subrange(from as int, j as int),
            ),
            (digits_value(s@.subrange(from as int, j as int)) > 100) <==> (v > 100),
        decreases to - j,
    {
        let c = s.get_char(j);
        let d: u32 = c as u32 - '0' as u32;
        proof {
            let pre = s@.subrange(from as int, j as int);
            let ext = s@.subrange(from as int, j + 1);
            assert(ext.drop_last() =~= pre);
            assert(ext.last() == s@[j as int]);
            assert(d == digit_val(s@[j as int]));
            assert(digits_value(ext) == 10 * digits_value(pre) + digit_val(s@[j as int]));
            assert forall|k: int| 0 <= k < pre.len() implies is_digit(#[trigger] pre[k]) by {
                assert(pre[k] == s@[k + from]);
            }
            lemma_digits_value_nonneg(pre);
        }
        if v > 100 {
            v = 101;
        } else {
            v = v * 10 + d;
        }
        j += 1;
    }
    v
}

/// Decides [`percentage_in_range`] on the string representation of a
/// percentage.
pub fn is_valid_percentage(s: &str) -> (r: bool)
    ensures
        r == percentage_in_range(s@),
{
    let n = s.unicode_len();
    let neg = n > 0 && s.get_char(0) == '-';
    let start: usize = if neg { 1 } else { 0 };
    let ghost t: Seq<char> = if neg { s@.skip(1) } else { s@ };
    proof {
        assert forall|k: int| 0 <= k < t.len() implies #[trigger] t[k] == s@[k + start] by {}
    }
    let j = scan_digits(s, start, n);
    if j == start {
        // no integer digit at all
        proof {
            if t.len() > 0 && is_digit(t[0]) {
                assert(s@[start as int] == t[0]);
            }
            if numeral_shape(t) {
                lemma_digits_in_prefix(t);
            }
        }
        return false;
    }
    let ghost dt: int = j - start;
    proof {
        assert forall|k: int| 0 <= k < dt implies #[trigger] t[k] != '.' by {
            assert(t[k] == s@[k + start]);
            assert(is_digit(s@[k + start]));
        }
        assert forall|k: int| 0 <= k < dt implies is_digit(#[trigger] t.take(dt)[k]) by {
            assert(t.take(dt)[k] == s@[k + start]);
        }
    }
    if j == n {
        proof {
            lemma_dot_index_at(t, dt);
            assert(t.take(dt) =~= s@.subrange(start as int, j as int));
        }
        if neg {
            let z = scan_zeros(s, start, j);
            proof {
                assert(int_part(t) =~= s@.subrange(start as int, j as int));
            }
            return z;
        } else {
            let v = digits_value_capped(s, start, j);
            proof {
                assert(int_part(t) =~= s@.subrange(start as int, j as int));
            }
            return v <= 100;
        }
    }
    let c = s.get_char(j);
    if c != '.' {
        proof {
            assert(t[dt] == s@[j as int]);
            if numeral_shape(t) {
                lemma_shape_dot(t, dt);
            }
        }
        return false;
    }
    if j + 1 >= n {
        proof {
            lemma_dot_index_at(t, dt);
        }
        return false;
    }
    let j2 = scan_digits(s, j + 1, n);
    if j2 < n {
        proof {
            lemma_dot_index_at(t, dt);
            assert(t.skip(dt + 1)[j2 - start - dt - 1] == s@[j2 as int]);
        }
        return false;
    }
    proof {
        lemma_dot_index_at(t, dt);
        assert forall|k: int| 0 <= k < t.skip(dt + 1).len() implies is_digit(
            #[trigger] t.skip(dt + 1)[k],
        ) by {
            assert(t.skip(dt + 1)[k] == s@[k + start + dt + 1]);
        }
        assert(int_part(t) =~= s@.subrange(start as int, j as int));
        assert(t.skip(dt + 1) =~= s@.subrange(j + 1, n as int));
    }
    if neg {
        let z1 = scan_zeros(s, start, j);
        let z2 = scan_zeros(s, j + 1, n);
        z1 && z2
    } else {
        let v = digits_value_capped(s, start, j);
        if v > 100 {
            false
        } else if v == 100 {
            scan_zeros(s, j + 1, n)
        } else {
            true
        }
    }
}

/// In a well-shaped numeral the first character is a digit.
proof fn lemma_digits_in_prefix(t: Seq<char>)
    requires
        numeral_shape(t),
    ensures
        t.len() > 0 && is_digit(t[0]),
{
    let d = dot_index(t);
    lemma_dot_index_le_len(t);
    assert(t.take(d)[0] == t[0]);
    assert(is_digit(t.take(d)[0]));
}

/// `dot_index` never exceeds the length.
proof fn lemma_dot_index_le_len(s: Seq<char>)
    ensures
        0 <= dot_index(s) <= s.len(),
        dot_index(s) < s.len() ==> s[dot_index(s)] == '.',
        forall|k: int| 0 <= k < dot_index(s) ==> #[trigger] s[k] != '.',
    decreases s.len(),
{
    if s.len() == 0 || s[0] == '.' {
    } else {
        let t = s.skip(1);
        lemma_dot_index_le_len(t);
        assert forall|k: int| 0 <= k < dot_index(s) implies #[trigger] s[k] != '.' by {
            if k > 0 {
                assert(t[k - 1] == s[k]);
            }
        }
        assert(dot_index(s) < s.len() ==> s[dot_index(s)] == t[dot_index(s) - 1]);
    }
}

/// In a well-shaped numeral whose digit prefix ends at `dt`, position `dt` is
/// either the end or a dot.
proof fn lemma_shape_dot(t: Seq<char>, dt: int)
    requires
        numeral_shape(t),
        0 <= dt < t.len(),
        forall|k: int| 0 <= k < dt ==> is_digit(#[trigger] t[k]),
        !is_digit(t[dt]),
    ensures
        t[dt] == '.',
{
    let d = dot_index(t);
    lemma_dot_index_le_len(t);
    if d < dt {
        assert(is_digit(t[d]));
        assert(t[d] == '.');
    } else if d > dt {
        assert(t.take(d)[dt] == t[dt]);
        assert(is_digit(t[dt]));
    }
}

} // verus!
