//! Decimal text of integers: written, as it appears in the addresses that
//! the coordinator builds, and read, as it appears in the paths of the
//! requests that it serves.

use vstd::prelude::*;
use vstd::string::StringExecFns;

verus! {

/// The character of one decimal digit.
pub open spec fn digit(d: int) -> char {
    if d == 0 {
        '0'
    } else if d == 1 {
        '1'
    } else if d == 2 {
        '2'
    } else if d == 3 {
        '3'
    } else if d == 4 {
        '4'
    } else if d == 5 {
        '5'
    } else if d == 6 {
        '6'
    } else if d == 7 {
        '7'
    } else if d == 8 {
        '8'
    } else {
        '9'
    }
}

/// The decimal digits of `n`, most significant first, without leading zeros.
pub open spec fn digits(n: nat) -> Seq<char>
    decreases n,
{
    if n < 10 {
        seq![digit(n as int)]
    } else {
        digits(n / 10).push(digit((n % 10) as int))
    }
}

/// The decimal text of `n`: a minus sign where `n` is negative, then the
/// digits of its magnitude.
pub open spec fn decimal(n: int) -> Seq<char> {
    if n < 0 {
        seq!['-'] + digits((-n) as nat)
    } else {
        digits(n as nat)
    }
}

/// The text of one decimal digit.
fn digit_text(d: u32) -> (text: &'static str)
    requires
        d < 10,
    ensures
        text@ == seq![digit(d as int)],
{
    proof {
        reveal_strlit("0");
        reveal_strlit("1");
        reveal_strlit("2");
        reveal_strlit("3");
        reveal_strlit("4");
        reveal_strlit("5");
        reveal_strlit("6");
        reveal_strlit("7");
        reveal_strlit("8");
        reveal_strlit("9");
    }
    let text = if d == 0 {
        "0"
    } else if d == 1 {
        "1"
    } else if d == 2 {
        "2"
    } else if d == 3 {
        "3"
    } else if d == 4 {
        "4"
    } else if d == 5 {
        "5"
    } else if d == 6 {
        "6"
    } else if d == 7 {
        "7"
    } else if d == 8 {
        "8"
    } else {
        "9"
    };
    assert(text@ =~= seq![digit(d as int)]);
    text
}

/// Appends the decimal digits of `n` to `out`.
fn push_digits(out: &mut String, n: u32)
    ensures
        final(out)@ == old(out)@ + digits(n as nat),
    decreases n,
{
    if n >= 10 {
        push_digits(out, n / 10);
    }
    out.append(digit_text(n % 10));
    assert(out@ =~= old(out)@ + digits(n as nat));
}

/// Appends the decimal text of `n` to `out`.
pub fn push_decimal(out: &mut String, n: i32)
    ensures
        final(out)@ == old(out)@ + decimal(n as int),
{
    if n < 0 {
        proof {
            reveal_strlit("-");
        }
        out.append("-");
        let magnitude: u32 = (0 - (n as i64)) as u32;
        push_digits(out, magnitude);
        assert(out@ =~= old(out)@ + decimal(n as int));
    } else {
        push_digits(out, n as u32);
    }
}

/// The byte of each character of a text whose characters are all ASCII.
pub open spec fn ascii(text: Seq<char>) -> Seq<u8> {
    Seq::new(text.len(), |i: int| text[i] as u8)
}

/// `b` is the byte of a decimal digit.
pub open spec fn is_digit(b: u8) -> bool {
    48 <= b && b <= 57
}

/// Every byte of `s` is a decimal digit.
pub open spec fn all_digits(s: Seq<u8>) -> bool {
    forall|i: int| 0 <= i < s.len() ==> is_digit(#[trigger] s[i])
}

/// The number that the decimal digits `s` write, most significant first.
pub open spec fn digits_value(s: Seq<u8>) -> nat
    decreases s.len(),
{
    if s.len() == 0 {
        0
    } else {
        digits_value(s.drop_last()) * 10 + (s.last() - 48) as nat
    }
}

/// The 32-bit integer that `s` writes in decimal: an optional sign, `+` or
/// `-`, then one digit or more, leading zeros allowed. `None` where `s` is
/// not of that form or the number does not fit.
pub open spec fn parse_decimal(s: Seq<u8>) -> Option<i32> {
    let negative = s.len() > 0 && s[0] == 45u8;
    let signed = negative || (s.len() > 0 && s[0] == 43u8);
    let body = if signed {
        s.subrange(1, s.len() as int)
    } else {
        s
    };
    let value: int = if negative {
        -(digits_value(body) as int)
    } else {
        digits_value(body) as int
    };
    if body.len() > 0 && all_digits(body) && i32::MIN <= value <= i32::MAX {
        Some(value as i32)
    } else {
        None
    }
}

/// The bytes of the digits of `n` are digits, at least one, and write `n`.
proof fn lemma_digits_value(n: nat)
    ensures
        ascii(digits(n)).len() == digits(n).len(),
        digits(n).len() >= 1,
        all_digits(ascii(digits(n))),
        digits_value(ascii(digits(n))) == n,
    decreases n,
{
    let text = digits(n);
    let bytes = ascii(text);
    if n < 10 {
        assert(text =~= seq![digit(n as int)]);
        assert(bytes =~= seq![(48 + n) as u8]);
        assert(bytes.drop_last() =~= Seq::<u8>::empty());
        assert(digits_value(bytes.drop_last()) == 0);
        assert(bytes.last() == (48 + n) as u8);
    } else {
        lemma_digits_value(n / 10);
        let front = digits(n / 10);
        let d = (n % 10) as int;
        assert(text =~= front.push(digit(d)));
        assert(bytes =~= ascii(front).push((48 + d) as u8));
        assert(bytes.drop_last() =~= ascii(front));
        assert(bytes.last() == (48 + d) as u8);
        assert forall|i: int| 0 <= i < bytes.len() implies is_digit(#[trigger] bytes[i]) by {
            if i < front.len() {
                assert(bytes[i] == ascii(front)[i]);
            }
        }
    }
}

/// What `push_decimal` writes, `parse_i32` reads back: the decimal text of a
/// 32-bit integer parses to that integer.
pub proof fn lemma_decimal_round_trip(n: i32)
    ensures
        parse_decimal(ascii(decimal(n as int))) == Some(n),
{
    let bytes = ascii(decimal(n as int));
    if n < 0 {
        let magnitude = (-(n as int)) as nat;
        lemma_digits_value(magnitude);
        let body = ascii(digits(magnitude));
        assert(bytes =~= seq![45u8] + body);
        assert(bytes[0] == 45u8);
        assert(bytes.subrange(1, bytes.len() as int) =~= body);
    } else {
        lemma_digits_value(n as nat);
        assert(bytes == ascii(digits(n as nat)));
        assert(is_digit(bytes[0]));
    }
}

/// Reads the 32-bit integer that `s` writes in decimal.
pub fn parse_i32(s: &[u8]) -> (parsed: Option<i32>)
    ensures
        parsed == parse_decimal(s@),
{
    let n = s.len();
    if n == 0 {
        return None;
    }
    let negative = s[0] == 45;
    let signed = negative || s[0] == 43;
    let start: usize = if signed {
        1
    } else {
        0
    };
    let ghost body = s@.subrange(start as int, n as int);
    assert(!signed ==> body =~= s@);
    if start == n {
        return None;
    }
    let limit: i64 = 2147483648;
    let mut magnitude: i64 = 0;
    let mut over = false;
    let mut i: usize = start;
    while i < n
        invariant
            start <= i <= n,
            n == s.len(),
            limit == 2147483648,
            n > 0,
            negative == (s@[0] == 45u8),
            signed == (negative || s@[0] == 43u8),
            start == (if signed {
                1usize
            } else {
                0usize
            }),
            body == s@.subrange(start as int, n as int),
            !signed ==> body == s@,
            all_digits(body.take(i - start)),
            !over ==> magnitude == digits_value(body.take(i - start)) && 0 <= magnitude <= limit,
            over ==> digits_value(body.take(i - start)) > limit,
        decreases n - i,
    {
        let b = s[i];
        let ghost shorter = body.take(i - start);
        let ghost longer = body.take(i + 1 - start);
        proof {
            assert(body[i - start] == b);
            assert(longer.drop_last() =~= shorter);
            assert(longer.last() == b);
        }
        if b < 48 || b > 57 {
            assert(!is_digit(body[i - start]));
            return None;
        }
        assert forall|k: int| 0 <= k < longer.len() implies is_digit(#[trigger] longer[k]) by {
            if k < shorter.len() {
                assert(shorter[k] == longer[k]);
            }
        }
        if !over {
            magnitude = magnitude * 10 + (b - 48) as i64;
            if magnitude > limit {
                over = true;
            }
        }
        i += 1;
    }
    assert(body.take(n - start) =~= body);
    if over {
        return None;
    }
    let value: i64 = if negative {
        -magnitude
    } else {
        magnitude
    };
    if value < -2147483648 || value > 2147483647 {
        None
    } else {
        Some(value as i32)
    }
}

} // verus!
