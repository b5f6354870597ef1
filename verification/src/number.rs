use vstd::prelude::*;
use crate::text::chars_of;
use crate::text::string_of;

verus! {

// ---------------------------------------------------------------------------
// Decimal digits
// ---------------------------------------------------------------------------

/// The ASCII character of the decimal digit `d` (for `0 <= d < 10`).
pub open spec fn digit_char(d: int) -> char {
    (d + 48) as char
}

/// Whether `c` is one of the ASCII digits `0`..`9`.
pub open spec fn is_ascii_digit(c: char) -> bool {
    48 <= (c as u32) && (c as u32) <= 57
}

/// The value of the ASCII digit `c`.
pub open spec fn digit_value(c: char) -> int {
    (c as u32) - 48
}

/// Whether every character of `s` is an ASCII digit.
pub open spec fn all_digits(s: Seq<char>) -> bool {
    forall|k: int| 0 <= k < s.len() ==> is_ascii_digit(#[trigger] s[k])
}

/// The number written by the ASCII digits `s`, most significant first.
pub open spec fn digits_value(s: Seq<char>) -> int
    decreases s.len(),
{
    if s.len() == 0 {
        0
    } else {
        10 * digits_value(s.drop_last()) + digit_value(s.last())
    }
}

/// The decimal digits of `n`, most significant first, without leading zeros.
pub open spec fn decimal(n: nat) -> Seq<char>
    decreases n,
{
    if n < 10 {
        seq![digit_char(n as int)]
    } else {
        decimal(n / 10).push(digit_char((n % 10) as int))
    }
}

/// How `i64`'s `Display` writes `n`: a minus sign for negative numbers, then the digits.
pub open spec fn i64_text(n: int) -> Seq<char> {
    if n < 0 {
        seq!['-'] + decimal((-n) as nat)
    } else {
        decimal(n as nat)
    }
}

/// What `str::parse::<i64>` returns: an optional `+` or `-`, then at least one ASCII digit,
/// and a value that fits in `i64`.
pub open spec fn parsed_i64(s: Seq<char>) -> Option<i64> {
    let signed = s.len() > 0 && (s[0] == '-' || s[0] == '+');
    let body = if signed {
        s.drop_first()
    } else {
        s
    };
    let v = if s.len() > 0 && s[0] == '-' {
        -digits_value(body)
    } else {
        digits_value(body)
    };
    if body.len() == 0 || !all_digits(body) || v < i64::MIN || v > i64::MAX {
        None
    } else {
        Some(v as i64)
    }
}

proof fn lemma_digits_value_nonneg(s: Seq<char>)
    requires
        all_digits(s),
    ensures
        digits_value(s) >= 0,
    decreases s.len(),
{
    if s.len() > 0 {
        assert(all_digits(s.drop_last())) by {
            assert forall|k: int| 0 <= k < s.drop_last().len() implies is_ascii_digit(
                #[trigger] s.drop_last()[k],
            ) by {
                assert(s.drop_last()[k] == s[k]);
            }
        }
        lemma_digits_value_nonneg(s.drop_last());
        assert(is_ascii_digit(s[s.len() - 1]));
    }
}

proof fn lemma_digits_value_monotone(s: Seq<char>, k: int)
    requires
        all_digits(s),
        0 <= k <= s.len(),
    ensures
        digits_value(s.take(k)) <= digits_value(s),
    decreases s.len() - k,
{
    if k < s.len() {
        let t = s.take(k + 1);
        assert(all_digits(t)) by {
            assert forall|j: int| 0 <= j < t.len() implies is_ascii_digit(#[trigger] t[j]) by {
                assert(t[j] == s[j]);
            }
        }
        assert(t.drop_last() =~= s.take(k));
        assert(is_ascii_digit(t.last()));
        lemma_digits_value_nonneg(s.take(k));
        lemma_digits_value_monotone(s, k + 1);
    } else {
        assert(s.take(k) =~= s);
    }
}

/// Parses a decimal integer as `str::parse::<i64>` does; `None` where it returns an error.
pub fn parse_i64(s: &str) -> (res: Option<i64>)
    ensures
        res == parsed_i64(s@),
{
    let cs = chars_of(s);
    let n = cs.len();
    let negative = n > 0 && cs[0] == '-';
    let start: usize = if n > 0 && (cs[0] == '-' || cs[0] == '+') {
        1
    } else {
        0
    };
    let ghost body = if start == 1 {
        cs@.drop_first()
    } else {
        cs@
    };
    assert(body =~= cs@.skip(start as int));
    if start == n {
        return None;
    }
    let mut acc: i128 = 0;
    let mut k: usize = start;
    while k < n
        invariant
            n == cs.len(),
            cs@ == s@,
            start == (if n > 0 && (cs@[0] == '-' || cs@[0] == '+') {
                1usize
            } else {
                0usize
            }),
            negative == (n > 0 && cs@[0] == '-'),
            start < n,
            start <= k <= n,
            body == cs@.skip(start as int),
            all_digits(body.take(k - start)),
            acc == digits_value(body.take(k - start)),
            0 <= acc <= 0x8000_0000_0000_0000,
        decreases n - k,
    {
        let c = cs[k];
        let u = c as u32;
        if u < 48 || u > 57 {
            assert(!is_ascii_digit(body[k - start]));
            return None;
        }
        let ghost prev = body.take(k - start);
        let ghost next = body.take(k - start + 1);
        assert(next.drop_last() =~= prev);
        assert(next.last() == c);
        assert(all_digits(next)) by {
            assert forall|j: int| 0 <= j < next.len() implies is_ascii_digit(#[trigger] next[j]) by {
                if j < prev.len() {
                    assert(next[j] == prev[j]);
                }
            }
        }
        acc = acc * 10 + ((u - 48) as i128);
        k = k + 1;
        assert(acc == digits_value(next));
        if acc > 0x8000_0000_0000_0000 {
            proof {
                if start == 1 {
                    assert(body =~= s@.drop_first());
                } else {
                    assert(body =~= s@);
                }
                if all_digits(body) {
                    lemma_digits_value_monotone(body, (k - start) as int);
                    assert(digits_value(body) > 0x8000_0000_0000_0000);
                }
            }
            return None;
        }
    }
    assert(body.take(n - start) =~= body);
    if negative {
        Some((-acc) as i64)
    } else if acc > 0x7fff_ffff_ffff_ffff {
        None
    } else {
        Some(acc as i64)
    }
}

fn push_decimal(m: u64, out: &mut Vec<char>)
    ensures
        final(out)@ == old(out)@ + decimal(m as nat),
    decreases m,
{
    if m >= 10 {
        push_decimal(m / 10, out);
    }
    let d = ((m % 10) as u8 + 48u8) as char;
    out.push(d);
    assert(old(out)@ + decimal(m as nat) =~= final(out)@);
}

/// The decimal text of `n`, as `i64`'s `Display` writes it.
pub fn format_i64(n: i64) -> (res: String)
    ensures
        res@ == i64_text(n as int),
{
    let mut out: Vec<char> = Vec::new();
    let magnitude: u64 = if n < 0 {
        out.push('-');
        (-(n as i128)) as u64
    } else {
        n as u64
    };
    push_decimal(magnitude, &mut out);
    assert(out@ =~= i64_text(n as int));
    string_of(&out)
}

// ---------------------------------------------------------------------------
// Laws
// ---------------------------------------------------------------------------

proof fn lemma_decimal_digits(m: nat)
    ensures
        decimal(m).len() > 0,
        all_digits(decimal(m)),
        digits_value(decimal(m)) == m,
    decreases m,
{
    if m >= 10 {
        lemma_decimal_digits(m / 10);
        let x = decimal(m / 10);
        let y = x.push(digit_char((m % 10) as int));
        assert(y.drop_last() =~= x);
        assert(digit_value(digit_char((m % 10) as int)) == m % 10);
        assert(10 * (m / 10) + m % 10 == m);
        assert(y.last() == digit_char((m % 10) as int));
        assert(digits_value(y) == 10 * digits_value(x) + digit_value(y.last()));
        assert(all_digits(y)) by {
            assert forall|j: int| 0 <= j < y.len() implies is_ascii_digit(#[trigger] y[j]) by {
                if j < x.len() {
                    assert(y[j] == x[j]);
                }
            }
        }
    } else {
        let y = decimal(m);
        assert(y.drop_last() =~= Seq::<char>::empty());
        assert(digit_value(digit_char(m as int)) == m);
        assert(digits_value(y) == 10 * digits_value(y.drop_last()) + digit_value(y.last()));
    }
}

/// Reading back the text that `format_i64` writes gives the same number:
/// `parse_i64(format_i64(n)) == Some(n)` for every `i64`.
pub proof fn lemma_parse_format_roundtrip(n: i64)
    ensures
        parsed_i64(i64_text(n as int)) == Some(n),
{
    if n < 0 {
        let m = (-(n as int)) as nat;
        lemma_decimal_digits(m);
        let s = i64_text(n as int);
        assert(s.drop_first() =~= decimal(m));
    } else {
        lemma_decimal_digits(n as nat);
        assert(is_ascii_digit(decimal(n as nat)[0]));
    }
}

} // verus!
