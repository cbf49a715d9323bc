//! Whole numbers written in decimal, as they come on the command line.
//!
//! A number is an optional sign, `+` or `-`, followed by one or more of the
//! digits `0` to `9`, and nothing else: no blanks, no separators, no fraction.

use vstd::prelude::*;
use vstd::string::*;

verus! {

/// Whether `c` is one of the ten decimal digits.
pub open spec fn is_digit(c: char) -> bool {
    '0' <= c && c <= '9'
}

/// The number a decimal digit stands for.
pub open spec fn digit_value(c: char) -> int {
    c as int - 48
}

/// Whether every character of `s` is a decimal digit.
pub open spec fn all_digits(s: Seq<char>) -> bool {
    forall|i: int| 0 <= i < s.len() ==> is_digit(#[trigger] s[i])
}

/// The number a run of digits stands for, the first digit counting most.
pub open spec fn digits_value(s: Seq<char>) -> int
    decreases s.len(),
{
    if s.len() == 0 {
        0
    } else {
        10 * digits_value(s.drop_last()) + digit_value(s.last())
    }
}

/// What is left of `s` once a leading sign is taken off.
pub open spec fn unsigned_part(s: Seq<char>) -> Seq<char> {
    if s.len() > 0 && (s[0] == '-' || s[0] == '+') {
        s.subrange(1, s.len() as int)
    } else {
        s
    }
}

/// The number that `s` is the decimal text of, if it is one.
pub open spec fn decimal_value(s: Seq<char>) -> Option<int> {
    let digits = unsigned_part(s);
    if digits.len() == 0 || !all_digits(digits) {
        None
    } else if s[0] == '-' {
        Some(-digits_value(digits))
    } else {
        Some(digits_value(digits))
    }
}

/// The channel value that `s` is the decimal text of: the number it stands
/// for, if it stands for one and that number fits a channel.
pub open spec fn channel_value(s: Seq<char>) -> Option<i32> {
    match decimal_value(s) {
        Some(v) => if i32::MIN <= v <= i32::MAX {
            Some(v as i32)
        } else {
            None
        },
        None => None,
    }
}

/// The digit that stands for `d`, for `d` from 0 to 9.
pub open spec fn digit_char(d: int) -> char {
    (d + 48) as char
}

/// The digits of `n` in decimal, without leading zeros; `0` is one digit.
pub open spec fn digits_text(n: nat) -> Seq<char>
    decreases n,
{
    if n < 10 {
        seq![digit_char(n as int)]
    } else {
        digits_text(n / 10).push(digit_char((n % 10) as int))
    }
}

/// The usual decimal text of `n`: its digits, after a `-` if it is negative.
pub open spec fn decimal_text(n: int) -> Seq<char> {
    if n < 0 {
        seq!['-'] + digits_text((-n) as nat)
    } else {
        digits_text(n as nat)
    }
}

/// A run of digits stands for a number that is not negative.
pub proof fn lemma_digits_value_nonnegative(s: Seq<char>)
    requires
        all_digits(s),
    ensures
        digits_value(s) >= 0,
    decreases s.len(),
{
    if s.len() > 0 {
        lemma_digits_value_nonnegative(s.drop_last());
    }
}

/// Digits added at the end never make the number smaller.
pub proof fn lemma_digits_value_prefix(s: Seq<char>, k: int)
    requires
        all_digits(s),
        0 <= k <= s.len(),
    ensures
        digits_value(s.take(k)) <= digits_value(s),
    decreases s.len(),
{
    if k == s.len() {
        assert(s.take(k) =~= s);
    } else {
        lemma_digits_value_prefix(s.drop_last(), k);
        lemma_digits_value_nonnegative(s.drop_last());
        assert(s.drop_last().take(k) =~= s.take(k));
    }
}

/// The digits of a number are digits, and stand for that number.
pub proof fn lemma_digits_text_value(n: nat)
    ensures
        digits_text(n).len() > 0,
        all_digits(digits_text(n)),
        digits_value(digits_text(n)) == n,
    decreases n,
{
    if n < 10 {
        let s = digits_text(n);
        assert(s.drop_last() =~= Seq::<char>::empty());
        assert(digits_value(s.drop_last()) == 0);
    } else {
        lemma_digits_text_value(n / 10);
        let s = digits_text(n);
        assert(s.drop_last() =~= digits_text(n / 10));
    }
}

/// Reading the decimal text of a number gives the number back.
pub proof fn lemma_decimal_text_value(n: int)
    ensures
        decimal_value(decimal_text(n)) == Some(n),
{
    if n < 0 {
        let m = (-n) as nat;
        lemma_digits_text_value(m);
        assert(unsigned_part(decimal_text(n)) =~= digits_text(m));
    } else {
        lemma_digits_text_value(n as nat);
        assert(is_digit(digits_text(n as nat)[0]));
    }
}

/// The byte that encodes an ASCII character is the character's own number.
proof fn lemma_ascii_byte(c: char)
    requires
        c <= '\u{7f}',
    ensures
        c as u8 as int == c as int,
{
    let scalar = c as u32;
    assert(scalar as u8 == scalar) by (bit_vector)
        requires
            scalar < 128,
    ;
}

/// Text that holds a character outside ASCII is no number.
proof fn lemma_beyond_ascii_is_no_number(s: Seq<char>)
    requires
        !vstd::utf8::is_ascii_chars(s),
    ensures
        decimal_value(s) is None,
{
    let i = choose|i: int| 0 <= i < s.len() && !('\0' <= #[trigger] s[i] <= '\u{7f}');
    let digits = unsigned_part(s);
    if digits.len() == s.len() {
        assert(!is_digit(digits[i]));
    } else {
        assert(i >= 1);
        assert(!is_digit(digits[i - 1]));
    }
}

/// Reads a colour channel from the text of an argument.
///
/// Gives the number when `token` is the decimal text of a whole number that
/// fits a channel, and nothing otherwise.
pub fn parse_channel(token: &str) -> (value: Option<i32>)
    ensures
        value == channel_value(token@),
{
    if !token.is_ascii() {
        proof {
            lemma_beyond_ascii_is_no_number(token@);
        }
        return None;
    }
    let bytes = token.as_bytes();
    proof {
        is_ascii_spec_bytes(token);
        assert forall|j: int| 0 <= j < bytes@.len() implies #[trigger] bytes@[j] as int
            == token@[j] as int by {
            lemma_ascii_byte(token@[j]);
        }
    }
    let n = bytes.len();
    if n == 0 {
        return None;
    }
    let negative = bytes[0] == 45u8;
    let start: usize = if negative || bytes[0] == 43u8 {
        1
    } else {
        0
    };
    let ghost digits = unsigned_part(token@);
    if start == n {
        return None;
    }
    let mut acc: i64 = 0;
    let mut i: usize = start;
    assert(digits.take(0) =~= Seq::<char>::empty());
    while i < n
        invariant
            start <= i <= n,
            n == bytes@.len(),
            n == token@.len(),
            start <= 1,
            digits == unsigned_part(token@),
            digits.len() == n - start,
            forall|j: int| 0 <= j < n ==> #[trigger] bytes@[j] as int == token@[j] as int,
            forall|j: int| 0 <= j < digits.len() ==> #[trigger] digits[j] == token@[j + start],
            all_digits(digits.take(i - start)),
            acc == digits_value(digits.take(i - start)),
            0 <= acc <= 0x8000_0000,
        decreases n - i,
    {
        let b = bytes[i];
        let ghost c = digits[i - start];
        assert(c as int == b as int);
        if b < 48 || b > 57 {
            assert(!is_digit(c));
            return None;
        }
        let ghost longer = digits.take(i - start + 1);
        assert(longer.drop_last() =~= digits.take(i - start));
        acc = acc * 10 + (b - 48) as i64;
        assert(all_digits(longer)) by {
            assert forall|j: int| 0 <= j < longer.len() implies is_digit(#[trigger] longer[j]) by {
                if j < longer.len() - 1 {
                    assert(longer[j] == digits.take(i - start)[j]);
                }
            }
        }
        if acc > 0x8000_0000 {
            proof {
                if all_digits(digits) {
                    lemma_digits_value_prefix(digits, i - start + 1);
                }
            }
            return None;
        }
        i = i + 1;
    }
    assert(digits.take(i - start) =~= digits);
    if negative {
        Some((-acc) as i32)
    } else if acc > 0x7fff_ffff {
        None
    } else {
        Some(acc as i32)
    }
}

} // verus!
