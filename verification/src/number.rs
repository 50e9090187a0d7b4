//! Integers in base ten: reading them from text and writing them out.

use vstd::prelude::*;
use vstd::string::*;
use crate::parse::Parse;
use crate::text::chars_of;

verus! {

/// Whether `c` is one of the ten decimal digits.
pub open spec fn is_digit(c: char) -> bool {
    '0' <= c <= '9'
}

/// The number that the digit `c` stands for.
pub open spec fn digit_value(c: char) -> nat {
    (c as int - '0' as int) as nat
}

/// Whether `s` holds decimal digits only.
pub open spec fn is_digits(s: Seq<char>) -> bool {
    forall|i: int| 0 <= i < s.len() ==> is_digit(#[trigger] s[i])
}

/// The number that the digits `s` write in base ten; 0 for no digits.
pub open spec fn digits_value(s: Seq<char>) -> nat
    decreases s.len(),
{
    if s.len() == 0 {
        0
    } else {
        10 * digits_value(s.drop_last()) + digit_value(s.last())
    }
}

/// Whether `s` is a number in base ten: at least one digit, nothing else.
pub open spec fn is_number(s: Seq<char>) -> bool {
    s.len() > 0 && is_digits(s)
}

/// `s` without its sign, where it starts with one of the characters that
/// `minus` admits (`+` always, `-` if `minus` holds) and more follows.
pub open spec fn unsigned_part(s: Seq<char>, minus: bool) -> Seq<char> {
    if s.len() > 1 && (s[0] == '+' || (minus && s[0] == '-')) {
        s.drop_first()
    } else {
        s
    }
}

/// What `s` stands for as an unsigned integer no greater than `max`: an
/// optional `+`, then a number within the bound.
pub open spec fn unsigned_spec(s: Seq<char>, max: nat) -> Option<nat> {
    let body = unsigned_part(s, false);
    if is_number(body) && digits_value(body) <= max {
        Some(digits_value(body))
    } else {
        None
    }
}

/// What `s` stands for as a signed integer from `min` to `max`: an optional
/// `+` or `-`, then a number that, with its sign, is within the bounds.
pub open spec fn signed_spec(s: Seq<char>, min: int, max: int) -> Option<int> {
    let body = unsigned_part(s, true);
    let value = if s.len() > 1 && s[0] == '-' {
        -(digits_value(body) as int)
    } else {
        digits_value(body) as int
    };
    if is_number(body) && min <= value <= max {
        Some(value)
    } else {
        None
    }
}

/// A number is no smaller than the number that its first `k` digits write.
pub proof fn lemma_digits_prefix(s: Seq<char>, k: int)
    requires
        0 <= k <= s.len(),
    ensures
        digits_value(s.take(k)) <= digits_value(s),
    decreases s.len() - k,
{
    if k == s.len() {
        assert(s.take(k) =~= s);
    } else {
        lemma_digits_prefix(s.drop_last(), k);
        assert(s.drop_last().take(k) =~= s.take(k));
    }
}

/// Reads the digits of `chars` from `from` to the end as a number no greater
/// than `max`.
fn parse_number(chars: &Vec<char>, from: usize, max: u128) -> (r: Option<u128>)
    requires
        from <= chars@.len(),
    ensures
        ({
            let body = chars@.subrange(from as int, chars@.len() as int);
            r == if is_number(body) && digits_value(body) <= max {
                Some(digits_value(body) as u128)
            } else {
                None
            }
        }),
{
    let n: usize = chars.len();
    let ghost body = chars@.subrange(from as int, n as int);
    if from == n {
        return None;
    }
    let mut acc: u128 = 0;
    let mut i: usize = from;
    while i < n
        invariant
            from <= i <= n == chars@.len(),
            body == chars@.subrange(from as int, n as int),
            is_digits(body.take(i - from)),
            acc == digits_value(body.take(i - from)),
            acc <= max,
        decreases n - i,
    {
        let c: char = chars[i];
        let ghost next = body.take(i - from + 1);
        proof {
            assert(body[i - from] == c);
            assert(next.drop_last() =~= body.take(i - from));
            assert(next.last() == c);
        }
        if !('0' <= c && c <= '9') {
            return None;
        }
        let d: u128 = (c as u32 - '0' as u32) as u128;
        if d > max || acc > (max - d) / 10 {
            proof {
                assert(is_digits(body) ==> digits_value(next) > max);
                lemma_digits_prefix(body, i - from + 1);
            }
            return None;
        }
        acc = acc * 10 + d;
        i += 1;
        proof {
            assert forall|j: int| 0 <= j < next.len() implies is_digit(#[trigger] next[j]) by {
                if j < next.len() - 1 {
                    assert(next[j] == body.take(i - from - 1)[j]);
                }
            }
        }
    }
    proof {
        assert(body.take(n - from) =~= body);
    }
    Some(acc)
}

/// The digit that writes `d`, for `d` below ten.
pub open spec fn digit_char(d: nat) -> char {
    ('0' as int + d) as char
}

/// `n` written in base ten, without a sign or leading zeros.
pub open spec fn decimal_text(n: nat) -> Seq<char>
    decreases n,
{
    if n < 10 {
        seq![digit_char(n)]
    } else {
        decimal_text(n / 10).push(digit_char(n % 10))
    }
}

/// Writing a number out and reading the digits back gives the number.
pub proof fn lemma_decimal_reads_back(n: nat)
    ensures
        is_number(decimal_text(n)),
        digits_value(decimal_text(n)) == n,
    decreases n,
{
    let s = decimal_text(n);
    if n < 10 {
        assert(s.drop_last() =~= Seq::<char>::empty());
        assert(digits_value(s.drop_last()) == 0);
    } else {
        lemma_decimal_reads_back(n / 10);
        assert(s.drop_last() =~= decimal_text(n / 10));
    }
}

/// A number written out is read as that number by every unsigned type that
/// can hold it, and by none that cannot.
pub proof fn lemma_unsigned_round_trip(n: nat, max: nat)
    ensures
        unsigned_spec(decimal_text(n), max) == if n <= max {
            Some(n)
        } else {
            None
        },
{
    lemma_decimal_reads_back(n);
}

/// A number written out is read as that number by every signed type that
/// can hold it; with `-` before it, as its negative.
pub proof fn lemma_signed_round_trip(n: nat, min: int, max: int)
    ensures
        signed_spec(decimal_text(n), min, max) == if min <= n <= max {
            Some(n as int)
        } else {
            None
        },
        signed_spec(seq!['-'] + decimal_text(n), min, max) == if min <= -n <= max {
            Some(-(n as int))
        } else {
            None
        },
{
    lemma_decimal_reads_back(n);
    let s = seq!['-'] + decimal_text(n);
    assert(s.drop_first() =~= decimal_text(n));
}

/// The one-character text of the digit `d`.
fn digit_text(d: usize) -> (r: &'static str)
    requires
        d < 10,
    ensures
        r@ == seq![digit_char(d as nat)],
{
    proof {
        reveal_strlit("0");
        reveal_strlit("1");
        reveal_strlit("2");
        reveal_strlit("3");
        reveal_strlit("4");
        reveal_strlit("5");
        reveal_strlit("6");
        reveal_strlit("7");
        reveal_strlit("8");
        reveal_strlit("9");
    }
    let r = match d {
        0 => "0",
        1 => "1",
        2 => "2",
        3 => "3",
        4 => "4",
        5 => "5",
        6 => "6",
        7 => "7",
        8 => "8",
        _ => "9",
    };
    assert(r@ =~= seq![digit_char(d as nat)]);
    r
}

/// Writes `n` in base ten.
pub fn decimal(n: usize) -> (r: String)
    ensures
        r@ == decimal_text(n as nat),
    decreases n,
{
    if n < 10 {
        digit_text(n).to_owned()
    } else {
        let mut r = decimal(n / 10);
        r.append(digit_text(n % 10));
        r
    }
}

/// Reads `text` as an unsigned integer no greater than `max`.
fn parse_unsigned(text: &str, max: u128) -> (r: Option<u128>)
    ensures
        match unsigned_spec(text@, max as nat) {
            Some(v) => r == Some(v as u128),
            None => r is None,
        },
{
    let chars = chars_of(text);
    let from: usize = if chars.len() > 1 && chars[0] == '+' {
        1
    } else {
        0
    };
    proof {
        assert(chars@.subrange(from as int, chars@.len() as int) =~= unsigned_part(text@, false));
    }
    parse_number(&chars, from, max)
}

/// Reads `text` as a signed integer from `min` to `max`.
fn parse_signed(text: &str, min: i128, max: i128) -> (r: Option<i128>)
    requires
        min <= 0 <= max,
    ensures
        match signed_spec(text@, min as int, max as int) {
            Some(v) => r == Some(v as i128),
            None => r is None,
        },
{
    let chars = chars_of(text);
    let signed: bool = chars.len() > 1 && (chars[0] == '+' || chars[0] == '-');
    let from: usize = if signed {
        1
    } else {
        0
    };
    proof {
        assert(chars@.subrange(from as int, chars@.len() as int) =~= unsigned_part(text@, true));
    }
    if signed && chars[0] == '-' {
        let bound: u128 = if min == i128::MIN {
            0x8000_0000_0000_0000_0000_0000_0000_0000
        } else {
            (-min) as u128
        };
        match parse_number(&chars, from, bound) {
            Some(m) => if m == 0x8000_0000_0000_0000_0000_0000_0000_0000 {
                Some(i128::MIN)
            } else {
                Some(-(m as i128))
            },
            None => None,
        }
    } else {
        match parse_number(&chars, from, max as u128) {
            Some(m) => Some(m as i128),
            None => None,
        }
    }
}

impl Parse for u8 {
    open spec fn parse_spec(text: Seq<char>) -> Option<u8> {
        match unsigned_spec(text, u8::MAX as nat) {
            Some(v) => Some(v as u8),
            None => None,
        }
    }

    fn parse(text: &str) -> (r: Option<u8>) {
        match parse_unsigned(text, u8::MAX as u128) {
            Some(v) => Some(v as u8),
            None => None,
        }
    }
}

impl Parse for u16 {
    open spec fn parse_spec(text: Seq<char>) -> Option<u16> {
        match unsigned_spec(text, u16::MAX as nat) {
            Some(v) => Some(v as u16),
            None => None,
        }
    }

    fn parse(text: &str) -> (r: Option<u16>) {
        match parse_unsigned(text, u16::MAX as u128) {
            Some(v) => Some(v as u16),
            None => None,
        }
    }
}

impl Parse for u32 {
    open spec fn parse_spec(text: Seq<char>) -> Option<u32> {
        match unsigned_spec(text, u32::MAX as nat) {
            Some(v) => Some(v as u32),
            None => None,
        }
    }

    fn parse(text: &str) -> (r: Option<u32>) {
        match parse_unsigned(text, u32::MAX as u128) {
            Some(v) => Some(v as u32),
            None => None,
        }
    }
}

impl Parse for u64 {
    open spec fn parse_spec(text: Seq<char>) -> Option<u64> {
        match unsigned_spec(text, u64::MAX as nat) {
            Some(v) => Some(v as u64),
            None => None,
        }
    }

    fn parse(text: &str) -> (r: Option<u64>) {
        match parse_unsigned(text, u64::MAX as u128) {
            Some(v) => Some(v as u64),
            None => None,
        }
    }
}

impl Parse for usize {
    open spec fn parse_spec(text: Seq<char>) -> Option<usize> {
        match unsigned_spec(text, usize::MAX as nat) {
            Some(v) => Some(v as usize),
            None => None,
        }
    }

    fn parse(text: &str) -> (r: Option<usize>) {
        match parse_unsigned(text, usize::MAX as u128) {
            Some(v) => Some(v as usize),
            None => None,
        }
    }
}

impl Parse for i8 {
    open spec fn parse_spec(text: Seq<char>) -> Option<i8> {
        match signed_spec(text, i8::MIN as int, i8::MAX as int) {
            Some(v) => Some(v as i8),
            None => None,
        }
    }

    fn parse(text: &str) -> (r: Option<i8>) {
        match parse_signed(text, i8::MIN as i128, i8::MAX as i128) {
            Some(v) => Some(v as i8),
            None => None,
        }
    }
}

impl Parse for i16 {
    open spec fn parse_spec(text: Seq<char>) -> Option<i16> {
        match signed_spec(text, i16::MIN as int, i16::MAX as int) {
            Some(v) => Some(v as i16),
            None => None,
        }
    }

    fn parse(text: &str) -> (r: Option<i16>) {
        match parse_signed(text, i16::MIN as i128, i16::MAX as i128) {
            Some(v) => Some(v as i16),
            None => None,
        }
    }
}

impl Parse for i32 {
    open spec fn parse_spec(text: Seq<char>) -> Option<i32> {
        match signed_spec(text, i32::MIN as int, i32::MAX as int) {
            Some(v) => Some(v as i32),
            None => None,
        }
    }

    fn parse(text: &str) -> (r: Option<i32>) {
        match parse_signed(text, i32::MIN as i128, i32::MAX as i128) {
            Some(v) => Some(v as i32),
            None => None,
        }
    }
}

impl Parse for i64 {
    open spec fn parse_spec(text: Seq<char>) -> Option<i64> {
        match signed_spec(text, i64::MIN as int, i64::MAX as int) {
            Some(v) => Some(v as i64),
            None => None,
        }
    }

    fn parse(text: &str) -> (r: Option<i64>) {
        match parse_signed(text, i64::MIN as i128, i64::MAX as i128) {
            Some(v) => Some(v as i64),
            None => None,
        }
    }
}

impl Parse for isize {
    open spec fn parse_spec(text: Seq<char>) -> Option<isize> {
        match signed_spec(text, isize::MIN as int, isize::MAX as int) {
            Some(v) => Some(v as isize),
            None => None,
        }
    }

    fn parse(text: &str) -> (r: Option<isize>) {
        match parse_signed(text, isize::MIN as i128, isize::MAX as i128) {
            Some(v) => Some(v as isize),
            None => None,
        }
    }
}

impl Parse for u128 {
    open spec fn parse_spec(text: Seq<char>) -> Option<u128> {
        match unsigned_spec(text, u128::MAX as nat) {
            Some(v) => Some(v as u128),
            None => None,
        }
    }

    fn parse(text: &str) -> (r: Option<u128>) {
        parse_unsigned(text, u128::MAX)
    }
}

impl Parse for i128 {
    open spec fn parse_spec(text: Seq<char>) -> Option<i128> {
        match signed_spec(text, i128::MIN as int, i128::MAX as int) {
            Some(v) => Some(v as i128),
            None => None,
        }
    }

    fn parse(text: &str) -> (r: Option<i128>) {
        parse_signed(text, i128::MIN, i128::MAX)
    }
}

} // verus!
