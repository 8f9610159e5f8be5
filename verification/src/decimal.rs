//! Decimal text: reading an unsigned count out of a reply and writing
//! integers into command arguments.

use vstd::prelude::*;

verus! {

/// `c` is one of the ten ASCII digits.
pub open spec fn is_digit(c: char) -> bool {
    '0' <= c && c <= '9'
}

/// The number a digit stands for.
pub open spec fn digit_value(c: char) -> nat {
    (c as u32 - 48) as nat
}

/// Every character of `s` is a digit.
pub open spec fn all_digits(s: Seq<char>) -> bool {
    forall|i: int| 0 <= i < s.len() ==> is_digit(#[trigger] s[i])
}

/// The number that a run of digits denotes in base ten; 0 for the empty run.
pub open spec fn digits_value(s: Seq<char>) -> nat
    decreases s.len(),
{
    if s.len() == 0 {
        0
    } else {
        digits_value(s.drop_last()) * 10 + digit_value(s.last())
    }
}

/// `s` without a leading plus sign, if it has one.
pub open spec fn without_plus(s: Seq<char>) -> Seq<char> {
    if s.len() > 0 && s[0] == '+' {
        s.drop_first()
    } else {
        s
    }
}

/// What a text means as a `u32`: an optional `+`, then at least one digit and
/// nothing else, denoting a number that fits. Anything else means nothing.
pub open spec fn parse_u32(s: Seq<char>) -> Option<u32> {
    let d = without_plus(s);
    if d.len() > 0 && all_digits(d) && digits_value(d) <= u32::MAX {
        Some(digits_value(d) as u32)
    } else {
        None
    }
}

/// Extending a run of digits never makes its value smaller.
pub proof fn lemma_digits_value_prefix(s: Seq<char>, k: int)
    requires
        0 <= k <= s.len(),
    ensures
        digits_value(s.subrange(0, k)) <= digits_value(s),
    decreases s.len(),
{
    if k == s.len() {
        assert(s.subrange(0, k) =~= s);
    } else {
        lemma_digits_value_prefix(s.drop_last(), k);
        assert(s.drop_last().subrange(0, k) =~= s.subrange(0, k));
    }
}

/// Reads `s` as a `u32`.
pub fn parse_uint(s: &str) -> (r: Option<u32>)
    ensures
        r == parse_u32(s@),
{
    broadcast use vstd::string::is_ascii_spec_bytes;

    if !s.is_ascii() {
        proof {
            let j = choose|j: int|
                #![trigger s@[j]]
                0 <= j < s@.len() && !('\0' <= s@[j] <= '\u{7f}');
            let d = without_plus(s@);
            if s@[0] == '+' {
                assert(d[j - 1] == s@[j]);
            } else {
                assert(d[j] == s@[j]);
            }
        }
        return None;
    }
    let bytes = s.as_bytes();
    let n: usize = bytes.len();
    let start: usize = if n > 0 && bytes[0] == 43 { 1 } else { 0 };
    let ghost d = without_plus(s@);
    assert(d =~= s@.subrange(start as int, n as int));
    if start == n {
        return None;
    }
    let mut i: usize = start;
    let mut acc: u32 = 0;
    while i < n
        invariant
            start <= i <= n,
            n == s@.len(),
            n == bytes@.len(),
            forall|j: int| 0 <= j < n ==> bytes@[j] == s@[j] as u8,
            vstd::string::is_ascii(s),
            d == s@.subrange(start as int, n as int),
            d == without_plus(s@),
            all_digits(d.subrange(0, i - start)),
            acc == digits_value(d.subrange(0, i - start)),
        decreases n - i,
    {
        let b: u8 = bytes[i];
        let ghost c = s@[i as int];
        assert(d[i - start] == c);
        assert('\0' <= c <= '\u{7f}');
        if b < 48 || b > 57 {
            return None;
        }
        let digit: u32 = (b - 48) as u32;
        let ghost next = d.subrange(0, i - start + 1);
        assert(next.drop_last() =~= d.subrange(0, i - start));
        assert(digits_value(next) == acc * 10 + digit);
        if acc > (u32::MAX - digit) / 10 {
            proof {
                lemma_digits_value_prefix(d, i - start + 1);
            }
            return None;
        }
        acc = acc * 10 + digit;
        assert forall|j: int| 0 <= j < next.len() implies is_digit(#[trigger] next[j]) by {
            if j < i - start {
                assert(d.subrange(0, i - start)[j] == next[j]);
            }
        }
        i = i + 1;
    }
    assert(d.subrange(0, i - start) =~= d);
    Some(acc)
}

/// The decimal digits of `n` as ASCII bytes, most significant first and
/// without leading zeros.
pub open spec fn decimal(n: nat) -> Seq<u8>
    decreases n,
{
    if n < 10 {
        seq![(48 + n) as u8]
    } else {
        decimal(n / 10).push((48 + n % 10) as u8)
    }
}

/// The decimal text of an integer: a minus sign before the digits of a
/// negative one.
pub open spec fn signed_decimal(v: int) -> Seq<u8> {
    if v < 0 {
        seq![45u8] + decimal((-v) as nat)
    } else {
        decimal(v as nat)
    }
}

/// The characters that ASCII bytes stand for.
pub open spec fn ascii_text(bytes: Seq<u8>) -> Seq<char> {
    Seq::new(bytes.len(), |i: int| bytes[i] as char)
}

fn push_decimal(n: u32, out: &mut Vec<u8>)
    ensures
        final(out)@ == old(out)@ + decimal(n as nat),
    decreases n,
{
    if n >= 10 {
        push_decimal(n / 10, out);
    }
    let digit: u8 = (n % 10) as u8;
    out.push(48 + digit);
}

/// Writes `n` in decimal.
pub fn render_u32(n: u32) -> (r: Vec<u8>)
    ensures
        r@ == decimal(n as nat),
{
    let mut out: Vec<u8> = Vec::new();
    push_decimal(n, &mut out);
    out
}

/// Writes `v` in decimal, with a minus sign if it is negative.
pub fn render_i32(v: i32) -> (r: Vec<u8>)
    ensures
        r@ == signed_decimal(v as int),
{
    let mut out: Vec<u8> = Vec::new();
    if v < 0 {
        out.push(45);
        let magnitude: u32 = (-(v as i64)) as u32;
        push_decimal(magnitude, &mut out);
    } else {
        push_decimal(v as u32, &mut out);
    }
    out
}

/// The decimal text of a number is all digits and denotes that number.
pub proof fn lemma_decimal_denotes(n: nat)
    ensures
        decimal(n).len() > 0,
        all_digits(ascii_text(decimal(n))),
        digits_value(ascii_text(decimal(n))) == n,
    decreases n,
{
    let t = ascii_text(decimal(n));
    if n < 10 {
        assert(t.drop_last() =~= Seq::<char>::empty());
        assert(digits_value(t.drop_last()) == 0);
        assert(digit_value(t.last()) == n);
    } else {
        lemma_decimal_denotes(n / 10);
        let shorter = ascii_text(decimal(n / 10));
        assert(t.drop_last() =~= shorter);
        assert(digit_value(t.last()) == n % 10);
        assert forall|i: int| 0 <= i < t.len() implies is_digit(#[trigger] t[i]) by {
            if i < shorter.len() {
                assert(t[i] == shorter[i]);
            }
        }
    }
}

/// Reading back the decimal text of a `u32` gives that number.
pub proof fn lemma_parse_decimal(n: u32)
    ensures
        parse_u32(ascii_text(decimal(n as nat))) == Some(n),
{
    lemma_decimal_denotes(n as nat);
    let t = ascii_text(decimal(n as nat));
    assert(is_digit(t[0]));
    assert(without_plus(t) == t);
}

} // verus!
