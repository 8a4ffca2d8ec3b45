//! Decimal integers as text: writing an `i32` and reading one back.

use vstd::prelude::*;
use vstd::string::*;

verus! {

/// Whether `c` is one of `0` to `9`.
pub open spec fn is_digit(c: char) -> bool {
    '0' <= c && c <= '9'
}

/// The digit char that stands for `d`, for `0 <= d <= 9`.
pub open spec fn digit_char(d: int) -> char {
    ('0' as int + d) as char
}

/// The number that a run of digits stands for; leading zeros count for
/// nothing.
pub open spec fn digits_value(s: Seq<char>) -> int
    decreases s.len(),
{
    if s.len() == 0 {
        0
    } else {
        digits_value(s.drop_last()) * 10 + (s.last() as int - '0' as int)
    }
}

/// Whether every char of `s` is a digit.
pub open spec fn all_digits(s: Seq<char>) -> bool {
    forall|i: int| 0 <= i < s.len() ==> is_digit(#[trigger] s[i])
}

/// The shortest decimal text of a natural number.
pub open spec fn nat_text(n: nat) -> Seq<char>
    decreases n,
{
    if n < 10 {
        seq![digit_char(n as int)]
    } else {
        nat_text(n / 10).push(digit_char((n % 10) as int))
    }
}

/// The decimal text of an integer: a `-` before the digits of a negative
/// one, no sign otherwise.
pub open spec fn int_text(v: int) -> Seq<char> {
    if v < 0 {
        seq!['-'] + nat_text((-v) as nat)
    } else {
        nat_text(v as nat)
    }
}

/// The digits of `s` once an optional leading `+` or `-` is set aside.
pub open spec fn unsigned_part(s: Seq<char>) -> Seq<char> {
    if s.len() > 0 && (s[0] == '-' || s[0] == '+') {
        s.skip(1)
    } else {
        s
    }
}

/// The integer that `s` denotes, if `s` is an optional sign followed by at
/// least one digit and the number fits in an `i32`.
pub open spec fn parse_int_text(s: Seq<char>) -> Option<i32> {
    let body = unsigned_part(s);
    let magnitude = digits_value(body);
    let value = if s.len() > 0 && s[0] == '-' {
        -magnitude
    } else {
        magnitude
    };
    if body.len() > 0 && all_digits(body) && i32::MIN <= value <= i32::MAX {
        Some(value as i32)
    } else {
        None
    }
}

/// The decimal text of every natural number is a non-empty run of digits
/// whose value is that number.
pub proof fn lemma_nat_text_reads_back(n: nat)
    ensures
        nat_text(n).len() > 0,
        all_digits(nat_text(n)),
        digits_value(nat_text(n)) == n,
    decreases n,
{
    if n < 10 {
        let s = nat_text(n);
        assert(s.drop_last() =~= Seq::<char>::empty());
        assert(digits_value(s.drop_last()) == 0);
    } else {
        lemma_nat_text_reads_back(n / 10);
        let head = nat_text(n / 10);
        let s = nat_text(n);
        assert(s.drop_last() =~= head);
        assert(s.last() == digit_char((n % 10) as int));
        assert forall|i: int| 0 <= i < s.len() implies is_digit(#[trigger] s[i]) by {
            if i < head.len() {
                assert(s[i] == head[i]);
            }
        }
    }
}

/// Reading the decimal text of an `i32` gives the number back.
pub proof fn lemma_int_text_round_trip(v: i32)
    ensures
        parse_int_text(int_text(v as int)) == Some(v),
{
    let s = int_text(v as int);
    if v < 0 {
        let digits = nat_text((-v) as nat);
        lemma_nat_text_reads_back((-v) as nat);
        assert(s[0] == '-');
        assert(s.skip(1) =~= digits);
    } else {
        lemma_nat_text_reads_back(v as nat);
        assert(is_digit(s[0]));
    }
}

/// A text that holds a char other than a digit past its first position, or
/// no digit at all, denotes no integer.
pub proof fn lemma_non_numeric_text(s: Seq<char>, i: int)
    requires
        0 <= i < s.len(),
        !is_digit(s[i]),
        i > 0 || (s[0] != '-' && s[0] != '+'),
    ensures
        parse_int_text(s) is None,
{
    let body = unsigned_part(s);
    if s[0] == '-' || s[0] == '+' {
        assert(!is_digit(body[i - 1]));
    } else {
        assert(!is_digit(body[i]));
    }
}

fn digit_str(d: u32) -> (text: &'static str)
    requires
        d < 10,
    ensures
        text@ == seq![digit_char(d as int)],
{
    proof {
        reveal_strlit("0");
        reveal_strlit("1");
        reveal_strlit("2");
        reveal_strlit("3");
        reveal_strlit("4");
        reveal_strlit("5");
        reveal_strlit("6");
        reveal_strlit("7");
        reveal_strlit("8");
        reveal_strlit("9");
    }
    let text = if d == 0 {
        "0"
    } else if d == 1 {
        "1"
    } else if d == 2 {
        "2"
    } else if d == 3 {
        "3"
    } else if d == 4 {
        "4"
    } else if d == 5 {
        "5"
    } else if d == 6 {
        "6"
    } else if d == 7 {
        "7"
    } else if d == 8 {
        "8"
    } else {
        "9"
    };
    assert(text@ =~= seq![digit_char(d as int)]);
    text
}

/// Writes `v` in decimal.
pub fn i32_to_text(v: i32) -> (text: String)
    ensures
        text@ == int_text(v as int),
{
    let magnitude: u32 = if v < 0 {
        (-(v as i64)) as u32
    } else {
        v as u32
    };
    let mut digits = String::from_str(digit_str(magnitude % 10));
    let mut rest: u32 = magnitude / 10;
    while rest > 0
        invariant
            rest > 0 ==> nat_text(magnitude as nat) == nat_text(rest as nat) + digits@,
            rest == 0 ==> nat_text(magnitude as nat) == digits@,
        decreases rest,
    {
        let mut longer = String::from_str(digit_str(rest % 10));
        longer.append(digits.as_str());
        proof {
            let d = seq![digit_char((rest % 10) as int)];
            if rest >= 10 {
                assert(nat_text(rest as nat) + digits@ =~= nat_text((rest / 10) as nat) + (d
                    + digits@));
            }
        }
        digits = longer;
        rest = rest / 10;
    }
    if v < 0 {
        let mut signed = String::from_str("-");
        proof {
            reveal_strlit("-");
        }
        signed.append(digits.as_str());
        assert(signed@ =~= seq!['-'] + digits@);
        signed
    } else {
        digits
    }
}

/// Reads a decimal `i32`: an optional `+` or `-`, then digits. Anything else,
/// and any number outside the range of `i32`, gives `None`.
pub fn parse_i32(s: &str) -> (value: Option<i32>)
    ensures
        value == parse_int_text(s@),
{
    let n: usize = s.unicode_len();
    if n == 0 {
        return None;
    }
    let first = s.get_char(0);
    let negative = first == '-';
    let start: usize = if first == '-' || first == '+' {
        1
    } else {
        0
    };
    if start == n {
        return None;
    }
    let ghost body = unsigned_part(s@);
    let limit: u64 = 2147483648;
    let mut magnitude: u64 = 0;
    let mut too_large = false;
    let mut i: usize = start;
    assert(body.take(0) =~= Seq::<char>::empty());
    while i < n
        invariant
            n == s@.len(),
            start <= i <= n,
            body == unsigned_part(s@),
            body == s@.skip(start as int) || (start == 0 && body == s@),
            body.len() == n - start,
            forall|j: int| 0 <= j < i - start ==> is_digit(#[trigger] body[j]),
            !too_large ==> magnitude == digits_value(body.take(i - start)) && magnitude <= limit,
            too_large ==> digits_value(body.take(i - start)) > limit,
            limit == 2147483648,
        decreases n - i,
    {
        let c = s.get_char(i);
        assert(c == body[i - start]);
        if !(c >= '0' && c <= '9') {
            assert(!is_digit(body[i - start]));
            return None;
        }
        proof {
            let longer = body.take(i - start + 1);
            assert(longer.drop_last() =~= body.take(i - start));
            assert(longer.last() == c);
        }
        if !too_large {
            let d: u64 = (c as u32 - '0' as u32) as u64;
            magnitude = magnitude * 10 + d;
            if magnitude > limit {
                too_large = true;
            }
        }
        i = i + 1;
    }
    assert(body.take(n - start) =~= body);
    if too_large {
        None
    } else if negative {
        if magnitude == limit {
            Some(i32::MIN)
        } else {
            Some(-(magnitude as i32))
        }
    } else if magnitude < limit {
        Some(magnitude as i32)
    } else {
        None
    }
}

} // verus!
