//! Decimal numerals: the text that `to_string` and `{}` give for integers,
//! zero padding as `{:0w}` gives it, and the parsing that `str::parse` does
//! for integer types.

use vstd::prelude::*;
use crate::text::{chars_of, push_char};

verus! {

/// The ASCII digit for `d` (`d < 10`).
pub open spec fn digit_char(d: nat) -> char {
    if d == 0 { '0' }
    else if d == 1 { '1' }
    else if d == 2 { '2' }
    else if d == 3 { '3' }
    else if d == 4 { '4' }
    else if d == 5 { '5' }
    else if d == 6 { '6' }
    else if d == 7 { '7' }
    else if d == 8 { '8' }
    else { '9' }
}

/// `c` is an ASCII decimal digit.
pub open spec fn is_digit(c: char) -> bool {
    '0' <= c && c <= '9'
}

/// The value of a decimal digit.
pub open spec fn digit_value(c: char) -> int {
    (c as int) - 48
}

/// Every character of `d` is a decimal digit.
pub open spec fn all_digits(d: Seq<char>) -> bool {
    forall|i: int| 0 <= i < d.len() ==> is_digit(#[trigger] d[i])
}

/// The number that a string of decimal digits denotes.
pub open spec fn digits_value(d: Seq<char>) -> int
    decreases d.len(),
{
    if d.len() == 0 {
        0
    } else {
        digits_value(d.drop_last()) * 10 + digit_value(d.last())
    }
}

/// The shortest decimal numeral of `n`.
pub open spec fn dec_nat(n: nat) -> Seq<char>
    decreases n,
{
    if n < 10 {
        seq![digit_char(n)]
    } else {
        dec_nat(n / 10).push(digit_char(n % 10))
    }
}

/// The decimal numeral of `n`, with a leading `-` when `n` is negative.
pub open spec fn dec_int(n: int) -> Seq<char> {
    if n < 0 {
        seq!['-'] + dec_nat((-n) as nat)
    } else {
        dec_nat(n as nat)
    }
}

/// `s` preceded by as many `'0'` as it takes to reach `width` characters.
pub open spec fn zero_padded(s: Seq<char>, width: nat) -> Seq<char> {
    if s.len() >= width {
        s
    } else {
        Seq::new((width - s.len()) as nat, |i: int| '0') + s
    }
}

/// What `str::parse` accepts for a signed integer type, as a mathematical
/// integer: an optional `+` or `-` followed by one or more ASCII digits.
pub open spec fn parse_signed(s: Seq<char>) -> Option<int> {
    if s.len() == 0 {
        None
    } else if s[0] == '+' || s[0] == '-' {
        let rest = s.drop_first();
        if rest.len() > 0 && all_digits(rest) {
            Some(if s[0] == '-' { -digits_value(rest) } else { digits_value(rest) })
        } else {
            None
        }
    } else if all_digits(s) {
        Some(digits_value(s))
    } else {
        None
    }
}

/// What `str::parse` accepts for an unsigned integer type: an optional `+`
/// followed by one or more ASCII digits.
pub open spec fn parse_unsigned(s: Seq<char>) -> Option<int> {
    if s.len() == 0 {
        None
    } else if s[0] == '+' {
        let rest = s.drop_first();
        if rest.len() > 0 && all_digits(rest) {
            Some(digits_value(rest))
        } else {
            None
        }
    } else if all_digits(s) {
        Some(digits_value(s))
    } else {
        None
    }
}

/// `s.parse::<i64>().ok()`.
pub open spec fn parse_i64_spec(s: Seq<char>) -> Option<i64> {
    match parse_signed(s) {
        Some(v) => if i64::MIN <= v <= i64::MAX { Some(v as i64) } else { None },
        None => None,
    }
}

/// `s.parse::<u8>().ok()`.
pub open spec fn parse_u8_spec(s: Seq<char>) -> Option<u8> {
    match parse_unsigned(s) {
        Some(v) => if 0 <= v <= u8::MAX { Some(v as u8) } else { None },
        None => None,
    }
}

proof fn lemma_digits_value_nonneg(d: Seq<char>)
    requires
        all_digits(d),
    ensures
        digits_value(d) >= 0,
    decreases d.len(),
{
    if d.len() > 0 {
        assert(is_digit(d[d.len() - 1]));
        assert(all_digits(d.drop_last())) by {
            assert forall|i: int| 0 <= i < d.drop_last().len() implies is_digit(
                #[trigger] d.drop_last()[i],
            ) by {
                assert(d.drop_last()[i] == d[i]);
            }
        }
        lemma_digits_value_nonneg(d.drop_last());
    }
}

/// A string of digits denotes at least what any of its prefixes denotes.
proof fn lemma_digits_value_prefix(d: Seq<char>, k: int)
    requires
        all_digits(d),
        0 <= k <= d.len(),
    ensures
        digits_value(d) >= digits_value(d.take(k)),
    decreases d.len(),
{
    if k == d.len() {
        assert(d.take(k) =~= d);
    } else {
        let e = d.drop_last();
        assert(all_digits(e)) by {
            assert forall|i: int| 0 <= i < e.len() implies is_digit(#[trigger] e[i]) by {
                assert(e[i] == d[i]);
            }
        }
        assert(is_digit(d[d.len() - 1]));
        lemma_digits_value_nonneg(e);
        lemma_digits_value_prefix(e, k);
        assert(e.take(k) =~= d.take(k));
    }
}

proof fn lemma_digits_value_push(d: Seq<char>, c: char)
    ensures
        digits_value(d.push(c)) == digits_value(d) * 10 + digit_value(c),
{
    assert(d.push(c).drop_last() =~= d);
}

proof fn lemma_digit_char_value(k: nat)
    requires
        k < 10,
    ensures
        digit_value(digit_char(k)) == k,
        is_digit(digit_char(k)),
{
    assert(('0' as int) == 48 && ('9' as int) == 57);
}

/// The numeral of `n` is a non-empty string of digits that denotes `n`.
pub proof fn lemma_dec_nat_digits(n: nat)
    ensures
        dec_nat(n).len() > 0,
        all_digits(dec_nat(n)),
        digits_value(dec_nat(n)) == n,
    decreases n,
{
    if n >= 10 {
        lemma_dec_nat_digits(n / 10);
        let d = dec_nat(n / 10);
        assert(all_digits(d.push(digit_char(n % 10)))) by {
            assert forall|i: int| 0 <= i < d.len() + 1 implies is_digit(
                #[trigger] d.push(digit_char(n % 10))[i],
            ) by {
                if i < d.len() {
                    assert(d.push(digit_char(n % 10))[i] == d[i]);
                }
            }
        }
        lemma_digits_value_push(d, digit_char(n % 10));
        lemma_digit_char_value(n % 10);
        assert(dec_nat(n) == d.push(digit_char(n % 10)));
        assert(digits_value(dec_nat(n)) == (n / 10) * 10 + n % 10);
    } else {
        lemma_digit_char_value(n);
        assert(digits_value(Seq::<char>::empty()) == 0);
        assert(dec_nat(n).drop_last() =~= Seq::<char>::empty());
    }
}

/// The character of a digit value.
fn digit_to_char(d: u64) -> (c: char)
    requires
        d < 10,
    ensures
        c == digit_char(d as nat),
        is_digit(c),
{
    if d == 0 { '0' }
    else if d == 1 { '1' }
    else if d == 2 { '2' }
    else if d == 3 { '3' }
    else if d == 4 { '4' }
    else if d == 5 { '5' }
    else if d == 6 { '6' }
    else if d == 7 { '7' }
    else if d == 8 { '8' }
    else { '9' }
}

/// Appends the decimal numeral of `n` to `out`.
pub fn push_dec_u64(out: &mut String, n: u64)
    ensures
        final(out)@ == old(out)@ + dec_nat(n as nat),
    decreases n,
{
    if n >= 10 {
        push_dec_u64(out, n / 10);
    }
    let c = digit_to_char(n % 10);
    push_char(out, c);
    proof {
        if n >= 10 {
            assert(dec_nat(n as nat) == dec_nat((n / 10) as nat).push(digit_char((n % 10) as nat)));
        }
    }
}

/// `n.to_string()` for an unsigned integer.
pub fn fmt_u64(n: u64) -> (s: String)
    ensures
        s@ == dec_nat(n as nat),
{
    let mut s = String::new();
    push_dec_u64(&mut s, n);
    assert(s@ =~= dec_nat(n as nat));
    s
}

/// Appends the decimal numeral of `n` (with `-` when negative) to `out`.
pub fn push_dec_i64(out: &mut String, n: i64)
    ensures
        final(out)@ == old(out)@ + dec_int(n as int),
{
    if n < 0 {
        push_char(out, '-');
        let m: u64 = ((-(n + 1)) as u64) + 1;
        push_dec_u64(out, m);
        assert(final(out)@ =~= old(out)@ + dec_int(n as int));
    } else {
        push_dec_u64(out, n as u64);
    }
}

/// `n.to_string()` for a signed integer.
pub fn fmt_i64(n: i64) -> (s: String)
    ensures
        s@ == dec_int(n as int),
{
    let mut s = String::new();
    push_dec_i64(&mut s, n);
    assert(s@ =~= dec_int(n as int));
    s
}

/// `format!("{:0width$}", n)` for an unsigned integer.
pub fn fmt_u64_padded(n: u64, width: usize) -> (s: String)
    ensures
        s@ == zero_padded(dec_nat(n as nat), width as nat),
{
    let digits = fmt_u64(n);
    let len = digits.unicode_len();
    let mut s = String::new();
    if len < width {
        let mut i: usize = 0;
        while i < width - len
            invariant
                len < width,
                i <= width - len,
                s@ =~= Seq::new(i as nat, |k: int| '0'),
            decreases width - len - i,
        {
            push_char(&mut s, '0');
            i = i + 1;
        }
    }
    s.append(digits.as_str());
    assert(s@ =~= zero_padded(dec_nat(n as nat), width as nat));
    s
}

/// The value of the digits `d[from..]` when they are all digits, there is at
/// least one, and the value is at most `limit`; `None` otherwise.
fn digits_up_to(d: &Vec<char>, from: usize, limit: u64) -> (r: Option<u64>)
    requires
        from <= d@.len(),
        limit >= 9,
    ensures
        r matches Some(v) ==> d@.skip(from as int).len() > 0 && all_digits(d@.skip(from as int))
            && v == digits_value(d@.skip(from as int)) && v <= limit,
        r is None ==> !(d@.skip(from as int).len() > 0 && all_digits(d@.skip(from as int))
            && digits_value(d@.skip(from as int)) <= limit),
{
    let ghost rest = d@.skip(from as int);
    if from == d.len() {
        return None;
    }
    let mut acc: u64 = 0;
    let mut i: usize = from;
    assert(rest.take(0) =~= Seq::<char>::empty());
    while i < d.len()
        invariant
            from <= i <= d@.len(),
            rest == d@.skip(from as int),
            all_digits(rest.take(i - from)),
            acc == digits_value(rest.take(i - from)),
            acc <= limit,
            limit >= 9,
        decreases d@.len() - i,
    {
        let c = d[i];
        assert(rest[i - from] == c);
        if !('0' <= c && c <= '9') {
            assert(!all_digits(rest)) by {
                assert(!is_digit(rest[i - from]));
            }
            return None;
        }
        let v: u64 = (c as u64) - 48;
        proof {
            assert(rest.take(i - from + 1) =~= rest.take(i - from).push(c));
            lemma_digits_value_push(rest.take(i - from), c);
            assert(all_digits(rest.take(i - from + 1))) by {
                assert forall|k: int| 0 <= k < i - from + 1 implies is_digit(
                    #[trigger] rest.take(i - from + 1)[k],
                ) by {
                    if k < i - from {
                        assert(rest.take(i - from + 1)[k] == rest.take(i - from)[k]);
                    }
                }
            }
        }
        if acc > (limit - v) / 10 {
            proof {
                let ghost nxt = (acc as int) * 10 + (v as int);
                assert(nxt > limit) by (nonlinear_arith)
                    requires
                        acc > (limit - v) / 10,
                        v <= limit || v > limit,
                        nxt == (acc as int) * 10 + (v as int),
                        v < 10,
                        limit >= 0,
                {
                }
                if all_digits(rest) {
                    lemma_digits_value_prefix(rest, i - from + 1);
                }
            }
            return None;
        }
        acc = acc * 10 + v;
        i = i + 1;
    }
    assert(rest.take(i - from) =~= rest);
    Some(acc)
}

/// `s.parse::<i64>().ok()`: an optional sign and one or more ASCII digits whose
/// value lies in the range of `i64`.
pub fn parse_i64(s: &str) -> (r: Option<i64>)
    ensures
        r == parse_i64_spec(s@),
{
    let d = chars_of(s);
    if d.len() == 0 {
        return None;
    }
    let neg = d[0] == '-';
    let signed = d[0] == '+' || d[0] == '-';
    let from: usize = if signed { 1 } else { 0 };
    let limit: u64 = if neg { 0x8000_0000_0000_0000u64 } else { 0x7fff_ffff_ffff_ffffu64 };
    assert(d@.skip(0) =~= s@);
    assert(d@.skip(1) =~= s@.drop_first());
    match digits_up_to(&d, from, limit) {
        Some(m) => {
            if neg {
                if m == 0x8000_0000_0000_0000u64 {
                    Some(i64::MIN)
                } else {
                    Some(-(m as i64))
                }
            } else {
                Some(m as i64)
            }
        },
        None => {
            proof {
                let rest = s@.skip(from as int);
                if rest.len() > 0 && all_digits(rest) {
                    lemma_digits_value_nonneg(rest);
                }
            }
            None
        },
    }
}

/// `s.parse::<u8>().ok()`: an optional `+` and one or more ASCII digits whose
/// value is at most 255.
pub fn parse_u8(s: &str) -> (r: Option<u8>)
    ensures
        r == parse_u8_spec(s@),
{
    let d = chars_of(s);
    if d.len() == 0 {
        return None;
    }
    let from: usize = if d[0] == '+' { 1 } else { 0 };
    assert(d@.skip(0) =~= s@);
    assert(d@.skip(1) =~= s@.drop_first());
    match digits_up_to(&d, from, 255) {
        Some(m) => Some(m as u8),
        None => {
            proof {
                let rest = s@.skip(from as int);
                if rest.len() > 0 && all_digits(rest) {
                    lemma_digits_value_nonneg(rest);
                }
            }
            None
        },
    }
}

/// Parsing the numeral of an `i64` gives the number back.
pub proof fn lemma_parse_fmt_i64(n: i64)
    ensures
        parse_i64_spec(dec_int(n as int)) == Some(n),
{
    if n < 0 {
        let m = (-n) as nat;
        lemma_dec_nat_digits(m);
        let s = dec_int(n as int);
        assert(s[0] == '-');
        assert(s.drop_first() =~= dec_nat(m));
    } else {
        lemma_dec_nat_digits(n as nat);
        let s = dec_nat(n as nat);
        assert(is_digit(s[0]));
    }
}

/// Parsing the numeral of a `u8` gives the number back.
pub proof fn lemma_parse_fmt_u8(n: u8)
    ensures
        parse_u8_spec(dec_nat(n as nat)) == Some(n),
{
    lemma_dec_nat_digits(n as nat);
    let s = dec_nat(n as nat);
    assert(is_digit(s[0]));
}

} // verus!
