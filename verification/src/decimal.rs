//! Decimal text of 64-bit integers: a verified parser and formatter.
//!
//! The offer directory stores the expiry instant as the decimal text of its
//! epoch-seconds value, so reading an offer back needs a parser and writing
//! one needs a formatter, each pinned to the same specification
//! [`parsed_i64`].

use vstd::prelude::*;
use vstd::arithmetic::div_mod::lemma_fundamental_div_mod;
use vstd::arithmetic::div_mod::lemma_mod_division_less_than_divisor;

verus! {

/// True when `c` is a decimal digit.
pub open spec fn is_dec_digit(c: char) -> bool {
    48 <= c as int <= 57
}

/// The numeric value of a digit character.
pub open spec fn digit_val(c: char) -> int {
    c as int - 48
}

/// True when every character of `s` is a decimal digit.
pub open spec fn all_dec_digits(s: Seq<char>) -> bool {
    forall|i: int| 0 <= i < s.len() ==> is_dec_digit(s[i])
}

/// The value of a digit string, most significant digit first.
pub open spec fn digits_value(s: Seq<char>) -> int
    decreases s.len(),
{
    if s.len() == 0 {
        0
    } else {
        10 * digits_value(s.drop_last()) + digit_val(s.last())
    }
}

/// What a 64-bit integer looks like in text: an optional `+` or `-` sign
/// followed by one or more digits, with a value in range. Anything else is
/// `None`.
pub open spec fn parsed_i64(s: Seq<char>) -> Option<int> {
    let signed = s.len() > 0 && (s[0] == '-' || s[0] == '+');
    let negative = s.len() > 0 && s[0] == '-';
    let digits = if signed {
        s.drop_first()
    } else {
        s
    };
    if digits.len() == 0 || !all_dec_digits(digits) {
        None
    } else {
        let v = if negative {
            -digits_value(digits)
        } else {
            digits_value(digits)
        };
        if i64::MIN as int <= v <= i64::MAX as int {
            Some(v)
        } else {
            None
        }
    }
}

/// A string of digits has a value of at least zero.
pub proof fn lemma_digits_value_nonneg(s: Seq<char>)
    requires
        all_dec_digits(s),
    ensures
        digits_value(s) >= 0,
    decreases s.len(),
{
    if s.len() > 0 {
        assert forall|i: int| 0 <= i < s.drop_last().len() implies is_dec_digit(
            s.drop_last()[i],
        ) by {
            assert(s.drop_last()[i] == s[i]);
        }
        lemma_digits_value_nonneg(s.drop_last());
        assert(is_dec_digit(s[s.len() - 1]));
    }
}

/// A string of digits is worth at least any of its prefixes.
pub proof fn lemma_digits_value_prefix(s: Seq<char>, i: int)
    requires
        all_dec_digits(s),
        0 <= i <= s.len(),
    ensures
        digits_value(s) >= digits_value(s.subrange(0, i)),
    decreases s.len() - i,
{
    if i == s.len() {
        assert(s.subrange(0, i) =~= s);
    } else {
        assert forall|j: int| 0 <= j < i implies is_dec_digit(s.subrange(0, i)[j]) by {
            assert(s.subrange(0, i)[j] == s[j]);
        }
        lemma_digits_value_nonneg(s.subrange(0, i));
        assert(s.subrange(0, i + 1).drop_last() =~= s.subrange(0, i));
        assert(s.subrange(0, i + 1).last() == s[i]);
        assert(is_dec_digit(s[i]));
        assert(digits_value(s.subrange(0, i + 1)) >= digits_value(s.subrange(0, i)));
        lemma_digits_value_prefix(s, i + 1);
    }
}

/// Parses the decimal text of an `i64`: an optional sign and one or more
/// digits. Returns `None` exactly when the text is not of that shape or its
/// value does not fit.
pub fn parse_i64(s: &str) -> (r: Option<i64>)
    ensures
        match r {
            Some(v) => parsed_i64(s@) == Some(v as int),
            None => parsed_i64(s@) is None,
        },
{
    let n: usize = s.unicode_len();
    if n == 0 {
        return None;
    }
    let first: char = s.get_char(0);
    let negative = first == '-';
    let start: usize = if first == '-' || first == '+' {
        1
    } else {
        0
    };
    let ghost digits = if start == 1 {
        s@.drop_first()
    } else {
        s@
    };
    proof {
        if start == 1 {
            assert(digits =~= s@.subrange(1, n as int));
        } else {
            assert(digits =~= s@.subrange(0, n as int));
        }
    }
    if start == n {
        return None;
    }
    let limit: u64 = if negative {
        9223372036854775808
    } else {
        9223372036854775807
    };
    let mut acc: u64 = 0;
    let mut i: usize = start;
    while i < n
        invariant
            start <= i <= n,
            n == s@.len(),
            start == 0 || start == 1,
            start == 1 <==> (s@[0] == '-' || s@[0] == '+'),
            negative <==> (s@[0] == '-'),
            digits == s@.subrange(start as int, n as int),
            digits.len() == n - start,
            limit == if negative {
                9223372036854775808u64
            } else {
                9223372036854775807u64
            },
            all_dec_digits(digits.subrange(0, i - start)),
            acc == digits_value(digits.subrange(0, i - start)),
            acc <= limit,
        decreases n - i,
    {
        let c: char = s.get_char(i);
        let cv: u32 = c as u32;
        if cv < 48 || cv > 57 {
            proof {
                assert(digits[(i - start) as int] == s@[i as int]);
                assert(!is_dec_digit(digits[(i - start) as int]));
                if start == 1 {
                    assert(s@.drop_first() =~= digits);
                } else {
                    assert(s@ =~= digits);
                }
            }
            return None;
        }
        let d: u64 = (cv - 48) as u64;
        proof {
            lemma_fundamental_div_mod(limit as int, 10);
            lemma_mod_division_less_than_divisor(limit as int, 10);
        }
        if acc > limit / 10 || (acc == limit / 10 && d > limit % 10) {
            proof {
                let k = (i - start) as int;
                assert(digits.subrange(0, k + 1).drop_last() =~= digits.subrange(0, k));
                assert(digits.subrange(0, k + 1).last() == digits[k]);
                assert(digits[k] == s@[i as int]);
                assert(is_dec_digit(digits[k]));
                assert(all_dec_digits(digits.subrange(0, k + 1)));
                assert(digits_value(digits.subrange(0, k + 1)) == 10 * (acc as int) + d as int);
                assert(10 * (acc as int) + d as int > limit as int);
                if all_dec_digits(digits) {
                    lemma_digits_value_prefix(digits, k + 1);
                    assert(digits_value(digits) > limit as int);
                }
                if start == 1 {
                    assert(s@.drop_first() =~= digits);
                } else {
                    assert(s@ =~= digits);
                }
            }
            return None;
        }
        acc = acc * 10 + d;
        i = i + 1;
        proof {
            let k = (i - start) as int;
            assert(digits.subrange(0, k).drop_last() =~= digits.subrange(0, k - 1));
            assert(digits.subrange(0, k).last() == digits[k - 1]);
            assert(digits[k - 1] == s@[(i - 1) as int]);
        }
    }
    proof {
        assert(digits.subrange(0, (n - start) as int) =~= digits);
        lemma_digits_value_nonneg(digits);
        if start == 1 {
            assert(s@.drop_first() =~= digits);
        } else {
            assert(s@ =~= digits);
        }
    }
    if negative {
        if acc == 9223372036854775808 {
            Some(i64::MIN)
        } else {
            Some(-(acc as i64))
        }
    } else {
        Some(acc as i64)
    }
}

/// The character of a single digit value.
pub open spec fn digit_char(d: int) -> char {
    if d == 0 {
        '0'
    } else if d == 1 {
        '1'
    } else if d == 2 {
        '2'
    } else if d == 3 {
        '3'
    } else if d == 4 {
        '4'
    } else if d == 5 {
        '5'
    } else if d == 6 {
        '6'
    } else if d == 7 {
        '7'
    } else if d == 8 {
        '8'
    } else {
        '9'
    }
}

/// Powers of ten.
pub open spec fn pow10(n: nat) -> int
    decreases n,
{
    if n == 0 {
        1
    } else {
        10 * pow10((n - 1) as nat)
    }
}

/// The value of a list of digit values, least significant digit first.
pub open spec fn le_digits_value(ds: Seq<u8>) -> int
    decreases ds.len(),
{
    if ds.len() == 0 {
        0
    } else {
        le_digits_value(ds.drop_last()) + (ds.last() as int) * pow10((ds.len() - 1) as nat)
    }
}

/// The one-character string of a digit value.
fn digit_str(d: u8) -> (r: &'static str)
    requires
        d < 10,
    ensures
        r@.len() == 1,
        r@[0] == digit_char(d as int),
{
    proof {
        reveal_strlit("0");
        reveal_strlit("1");
        reveal_strlit("2");
        reveal_strlit("3");
        reveal_strlit("4");
        reveal_strlit("5");
        reveal_strlit("6");
        reveal_strlit("7");
        reveal_strlit("8");
        reveal_strlit("9");
    }
    if d == 0 {
        "0"
    } else if d == 1 {
        "1"
    } else if d == 2 {
        "2"
    } else if d == 3 {
        "3"
    } else if d == 4 {
        "4"
    } else if d == 5 {
        "5"
    } else if d == 6 {
        "6"
    } else if d == 7 {
        "7"
    } else if d == 8 {
        "8"
    } else {
        "9"
    }
}

/// Formats an `i64` as decimal text that [`parsed_i64`] reads back as the
/// same value.
pub fn i64_to_decimal(v: i64) -> (r: String)
    ensures
        parsed_i64(r@) == Some(v as int),
{
    if v == 0 {
        let r = "0".to_owned();
        proof {
            reveal_strlit("0");
            assert(r@.drop_last() =~= Seq::<char>::empty());
            assert(digits_value(Seq::<char>::empty()) == 0);
            assert(digits_value(r@) == 10 * digits_value(r@.drop_last()) + digit_val(r@.last()));
            assert(digits_value(r@) == 0);
        }
        return r;
    }
    let negative = v < 0;
    let m_start: u64 = if v < 0 {
        (-(v as i128)) as u64
    } else {
        v as u64
    };
    let ghost m0 = m_start as int;
    let mut m: u64 = m_start;
    let mut ds: Vec<u8> = Vec::new();
    while m > 0
        invariant
            m0 == le_digits_value(ds@) + (m as int) * pow10(ds@.len() as nat),
            forall|k: int| 0 <= k < ds@.len() ==> ds@[k] < 10,
            ds@.len() == 0 ==> m as int == m0,
            m0 >= 1,
        decreases m,
    {
        let ghost ds0 = ds@;
        let ghost mm = m as int;
        let d: u64 = m % 10;
        ds.push(d as u8);
        m = m / 10;
        proof {
            lemma_fundamental_div_mod(mm, 10);
            assert(ds@.drop_last() =~= ds0);
            assert(le_digits_value(ds@) == le_digits_value(ds0) + (d as int) * pow10(
                ds0.len() as nat,
            ));
            assert(pow10(ds@.len() as nat) == 10 * pow10(ds0.len() as nat));
            assert(mm * pow10(ds0.len() as nat) == (d as int) * pow10(ds0.len() as nat) + (m as int)
                * (10 * pow10(ds0.len() as nat))) by (nonlinear_arith)
                requires
                    mm == 10 * (m as int) + d as int,
            ;
        }
    }
    let mut out = String::new();
    if negative {
        out.append("-");
    }
    let ghost prefix = out@;
    let ghost mut chars = Seq::<char>::empty();
    let mut j: usize = ds.len();
    proof {
        assert(ds@.subrange(0, j as int) =~= ds@);
    }
    while j > 0
        invariant
            j <= ds@.len(),
            out@ == prefix + chars,
            all_dec_digits(chars),
            chars.len() == ds@.len() - j,
            digits_value(chars) * pow10(j as nat) + le_digits_value(ds@.subrange(0, j as int))
                == m0,
            forall|k: int| 0 <= k < ds@.len() ==> ds@[k] < 10,
            ds@.len() >= 1,
            m0 >= 1,
        decreases j,
    {
        let ghost chars0 = chars;
        let ghost jj = j as int;
        j = j - 1;
        let c = digit_str(ds[j]);
        out.append(c);
        proof {
            let d = ds@[j as int] as int;
            chars = chars0.push(digit_char(d));
            assert(out@ == prefix + chars) by {
                assert(prefix + chars0.push(digit_char(d)) =~= (prefix + chars0) + c@);
            }
            assert(chars.drop_last() =~= chars0);
            assert(is_dec_digit(digit_char(d)) && digit_val(digit_char(d)) == d);
            assert(all_dec_digits(chars)) by {
                assert forall|i: int| 0 <= i < chars.len() implies is_dec_digit(chars[i]) by {
                    if i < chars0.len() {
                        assert(chars[i] == chars0[i]);
                    }
                }
            }
            assert(digits_value(chars) == 10 * digits_value(chars0) + d);
            assert(ds@.subrange(0, jj).drop_last() =~= ds@.subrange(0, jj - 1));
            assert(ds@.subrange(0, jj).last() == ds@[jj - 1]);
            assert(le_digits_value(ds@.subrange(0, jj)) == le_digits_value(
                ds@.subrange(0, jj - 1),
            ) + d * pow10((jj - 1) as nat));
            assert(pow10(jj as nat) == 10 * pow10((jj - 1) as nat));
            assert((10 * digits_value(chars0) + d) * pow10((jj - 1) as nat) == digits_value(chars0)
                * (10 * pow10((jj - 1) as nat)) + d * pow10((jj - 1) as nat))
                by (nonlinear_arith);
        }
    }
    proof {
        assert(ds@.subrange(0, 0) =~= Seq::<u8>::empty());
        assert(le_digits_value(Seq::<u8>::empty()) == 0);
        assert(pow10(0) == 1);
        assert(pow10(j as nat) == 1);
        assert(le_digits_value(ds@.subrange(0, j as int)) == 0);
        assert(digits_value(chars) * 1 == digits_value(chars));
        assert(digits_value(chars) == m0);
        assert(chars.len() >= 1);
        assert(is_dec_digit(chars[0]));
        if negative {
            reveal_strlit("-");
            assert(out@[0] == '-');
            assert(out@.drop_first() =~= chars);
        } else {
            assert(out@ =~= chars);
            assert(out@[0] != '-' && out@[0] != '+');
        }
    }
    out
}

} // verus!
