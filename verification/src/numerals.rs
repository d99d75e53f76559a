//! Decimal numerals: the store keeps every progress field as a string, so the
//! record model needs an exact account of digit strings — their numeric value,
//! rendering an unsigned integer, and parsing one back with a zero default.

use vstd::prelude::*;
use vstd::string::*;

verus! {

/// True of an ASCII decimal digit.
pub open spec fn is_digit(c: char) -> bool {
    '0' as int <= c as int && c as int <= '9' as int
}

/// Numeric value of a single digit character.
pub open spec fn digit_val(c: char) -> int {
    c as int - '0' as int
}

pub open spec fn all_digits(s: Seq<char>) -> bool {
    forall|i: int| 0 <= i < s.len() ==> is_digit(#[trigger] s[i])
}

pub open spec fn all_zeros(s: Seq<char>) -> bool {
    forall|i: int| 0 <= i < s.len() ==> #[trigger] s[i] == '0'
}

/// Numeric value of a digit string, most significant digit first.
pub open spec fn digits_value(s: Seq<char>) -> int
    decreases s.len(),
{
    if s.len() == 0 {
        0
    } else {
        10 * digits_value(s.drop_last()) + digit_val(s.last())
    }
}

/// The digit character for a value in `0..10`.
pub open spec fn dec_digit(d: int) -> char {
    if d == 0 {
        '0'
    } else if d == 1 {
        '1'
    } else if d == 2 {
        '2'
    } else if d == 3 {
        '3'
    } else if d == 4 {
        '4'
    } else if d == 5 {
        '5'
    } else if d == 6 {
        '6'
    } else if d == 7 {
        '7'
    } else if d == 8 {
        '8'
    } else {
        '9'
    }
}

/// The canonical decimal numeral of an unsigned integer (no sign, no leading
/// zeros except for zero itself).
pub open spec fn dec_of(n: nat) -> Seq<char>
    decreases n,
{
    if n < 10 {
        seq![dec_digit(n as int)]
    } else {
        dec_of(n / 10).push(dec_digit((n % 10) as int))
    }
}

/// What parsing a decimal numeral yields: the value for a non-empty all-digit
/// string whose value fits in a `u64`, and nothing otherwise.
pub open spec fn parse_dec(s: Seq<char>) -> Option<u64> {
    if s.len() > 0 && all_digits(s) && digits_value(s) <= u64::MAX {
        Some(digits_value(s) as u64)
    } else {
        None
    }
}

/// Parsing with the record model's zero default for absent or malformed input.
pub open spec fn parse_dec_or_zero(s: Seq<char>) -> u64 {
    match parse_dec(s) {
        Some(v) => v,
        None => 0,
    }
}

pub proof fn lemma_digits_value_nonneg(s: Seq<char>)
    requires
        all_digits(s),
    ensures
        digits_value(s) >= 0,
    decreases s.len(),
{
    if s.len() > 0 {
        let t = s.drop_last();
        assert forall|i: int| 0 <= i < t.len() implies is_digit(#[trigger] t[i]) by {
            assert(t[i] == s[i]);
        }
        lemma_digits_value_nonneg(t);
        assert(is_digit(s.last()));
    }
}

/// Extending a digit string on the right never lowers its value.
pub proof fn lemma_digits_value_prefix_le(s: Seq<char>, k: int)
    requires
        all_digits(s),
        0 <= k <= s.len(),
    ensures
        digits_value(s.take(k)) <= digits_value(s),
    decreases s.len() - k,
{
    if k < s.len() {
        let t = s.take(k);
        let t1 = s.take(k + 1);
        assert forall|i: int| 0 <= i < t.len() implies is_digit(#[trigger] t[i]) by {
            assert(t[i] == s[i]);
        }
        lemma_digits_value_nonneg(t);
        assert(t1.drop_last() =~= t);
        assert(t1.last() == s[k]);
        assert(is_digit(s[k]));
        assert(digits_value(t1) == 10 * digits_value(t) + digit_val(s[k]));
        lemma_digits_value_prefix_le(s, k + 1);
    } else {
        assert(s.take(k) =~= s);
    }
}

/// Rendering then parsing an unsigned integer gives it back: the timestamp a
/// record carries survives the trip through the store's string representation.
pub proof fn lemma_parse_dec_of(n: u64)
    ensures
        parse_dec(dec_of(n as nat)) == Some(n),
    decreases n,
{
    let s = dec_of(n as nat);
    if n < 10 {
        assert(s == seq![dec_digit(n as int)]);
        assert(is_digit(dec_digit(n as int)));
        assert(s.drop_last() =~= Seq::<char>::empty());
        assert(digits_value(Seq::<char>::empty()) == 0);
        assert(digits_value(s) == digit_val(dec_digit(n as int)));
        assert(digit_val(dec_digit(n as int)) == n as int);
    } else {
        lemma_parse_dec_of(n / 10);
        let t = dec_of((n / 10) as nat);
        let c = dec_digit((n % 10) as int);
        assert(s == t.push(c));
        assert(s.drop_last() =~= t);
        assert(s.last() == c);
        assert(is_digit(c));
        assert(digit_val(c) == (n % 10) as int);
        assert forall|i: int| 0 <= i < s.len() implies is_digit(#[trigger] s[i]) by {
            if i < t.len() {
                assert(s[i] == t[i]);
            } else {
                assert(s[i] == c);
            }
        }
        assert(digits_value(s) == 10 * digits_value(t) + digit_val(c));
        assert(all_digits(t));
        lemma_digits_value_nonneg(t);
        assert(digits_value(t) == n as int / 10);
        assert(n as int == 10 * (n as int / 10) + (n as int % 10));
    }
}

/// Renders an unsigned integer as its canonical decimal numeral.
pub fn u64_to_dec(n: u64) -> (s: String)
    ensures
        s@ == dec_of(n as nat),
    decreases n,
{
    let d: u64 = n % 10;
    let ds: &str = if d == 0 {
        "0"
    } else if d == 1 {
        "1"
    } else if d == 2 {
        "2"
    } else if d == 3 {
        "3"
    } else if d == 4 {
        "4"
    } else if d == 5 {
        "5"
    } else if d == 6 {
        "6"
    } else if d == 7 {
        "7"
    } else if d == 8 {
        "8"
    } else {
        "9"
    };
    proof {
        reveal_strlit("0");
        reveal_strlit("1");
        reveal_strlit("2");
        reveal_strlit("3");
        reveal_strlit("4");
        reveal_strlit("5");
        reveal_strlit("6");
        reveal_strlit("7");
        reveal_strlit("8");
        reveal_strlit("9");
        assert(ds@ =~= seq![dec_digit(d as int)]);
    }
    if n < 10 {
        let r = String::from_str(ds);
        proof {
            assert(r@ =~= dec_of(n as nat));
        }
        r
    } else {
        let mut r = u64_to_dec(n / 10);
        r.append(ds);
        proof {
            assert(r@ =~= dec_of(n as nat));
        }
        r
    }
}

/// Parses a decimal numeral: `None` on empty input, any non-digit character,
/// or a value past `u64::MAX`.
pub fn parse_u64_dec(s: &str) -> (r: Option<u64>)
    ensures
        r == parse_dec(s@),
{
    let n = s.unicode_len();
    if n == 0 {
        return None;
    }
    let mut i: usize = 0;
    let mut val: u64 = 0;
    while i < n
        invariant
            n == s@.len(),
            0 < n,
            i <= n,
            all_digits(s@.take(i as int)),
            val == digits_value(s@.take(i as int)),
        decreases n - i,
    {
        let c = s.get_char(i);
        if c < '0' || c > '9' {
            proof {
                assert(!is_digit(s@[i as int]));
                assert(!all_digits(s@));
            }
            return None;
        }
        let d: u64 = (c as u32 - '0' as u32) as u64;
        proof {
            assert(s@.take(i + 1).drop_last() =~= s@.take(i as int));
            assert(s@.take(i + 1).last() == s@[i as int]);
            assert(d == digit_val(s@[i as int]));
            assert forall|k: int| 0 <= k < i + 1 implies is_digit(#[trigger] s@.take(i + 1)[k]) by {
                if k < i {
                    assert(s@.take(i + 1)[k] == s@.take(i as int)[k]);
                } else {
                    assert(s@.take(i + 1)[k] == s@[i as int]);
                }
            }
        }
        if val > (u64::MAX - d) / 10 {
            proof {
                assert(10 * val + d > u64::MAX) by (nonlinear_arith)
                    requires
                        val > (u64::MAX - d) / 10,
                        d <= 9,
                ;
                assert(digits_value(s@.take(i + 1)) == 10 * val + d);
                if all_digits(s@) {
                    lemma_digits_value_prefix_le(s@, i + 1);
                    assert(digits_value(s@) > u64::MAX);
                }
            }
            return None;
        }
        proof {
            assert(10 * val + d <= u64::MAX) by (nonlinear_arith)
                requires
                    val <= (u64::MAX - d) / 10,
                    d <= 9,
            ;
        }
        val = val * 10 + d;
        i += 1;
    }
    proof {
        assert(s@.take(n as int) =~= s@);
        lemma_digits_value_nonneg(s@);
    }
    Some(val)
}

} // verus!
