//! Writing numbers as text: decimal, zero-padded decimal and fixed-width
//! lowercase hexadecimal.

use vstd::prelude::*;
use crate::text::{push_char, string_of};

verus! {

/// The character of a digit value below 16 (`0`-`9`, then `a`-`f`).
pub open spec fn digit_char(d: nat) -> char
    recommends
        d < 16,
{
    if d < 10 {
        (48 + d) as char
    } else {
        (87 + d) as char
    }
}

/// Whether every character is an ASCII digit.
pub open spec fn all_digits(s: Seq<char>) -> bool {
    forall|i: int| 0 <= i < s.len() ==> '0' <= #[trigger] s[i] <= '9'
}

/// The number that a run of ASCII digits denotes.
pub open spec fn digits_value(s: Seq<char>) -> nat
    decreases s.len(),
{
    if s.len() == 0 {
        0
    } else {
        digits_value(s.drop_last()) * 10 + ((s.last() as nat) - 48) as nat
    }
}

/// The decimal writing of `n`, without leading zeros (`0` for zero).
pub open spec fn decimal(n: nat) -> Seq<char>
    decreases n,
{
    if n < 10 {
        seq![digit_char(n)]
    } else {
        decimal(n / 10).push(digit_char(n % 10))
    }
}

/// The decimal writing of `n` padded with zeros to at least two digits
/// (what `{:02}` prints).
pub open spec fn decimal2(n: nat) -> Seq<char> {
    if n < 10 {
        seq!['0'].push(digit_char(n))
    } else {
        decimal(n)
    }
}

/// The lowest `width` hexadecimal digits of `n`, most significant first
/// (what `{:0width$x}` prints for a value below `16^width`).
pub open spec fn hex_digits(n: nat, width: nat) -> Seq<char>
    decreases width,
{
    if width == 0 {
        Seq::empty()
    } else {
        hex_digits(n / 16, (width - 1) as nat).push(digit_char(n % 16))
    }
}

/// The character of one digit value.
pub fn digit(d: u64) -> (c: char)
    requires
        d < 16,
    ensures
        c == digit_char(d as nat),
{
    if d < 10 {
        ((48 + d) as u8) as char
    } else {
        ((87 + d) as u8) as char
    }
}

/// The decimal digits of `n`, most significant first.
fn decimal_chars(n: u64) -> (v: Vec<char>)
    ensures
        v@ == decimal(n as nat),
    decreases n,
{
    if n < 10 {
        let mut v = Vec::new();
        v.push(digit(n));
        v
    } else {
        let mut v = decimal_chars(n / 10);
        v.push(digit(n % 10));
        v
    }
}

/// `n` written in decimal.
pub fn decimal_string(n: u64) -> (s: String)
    ensures
        s@ == decimal(n as nat),
{
    let v = decimal_chars(n);
    string_of(v.as_slice())
}

/// `n` written in decimal with at least two digits.
pub fn decimal2_string(n: u64) -> (s: String)
    ensures
        s@ == decimal2(n as nat),
{
    if n < 10 {
        let mut s = String::new();
        push_char(&mut s, '0');
        push_char(&mut s, digit(n));
        assert(s@ =~= seq!['0'].push(digit_char(n as nat)));
        s
    } else {
        decimal_string(n)
    }
}

fn hex_chars(n: u64, width: usize) -> (v: Vec<char>)
    ensures
        v@ == hex_digits(n as nat, width as nat),
    decreases width,
{
    if width == 0 {
        Vec::new()
    } else {
        let mut v = hex_chars(n / 16, width - 1);
        v.push(digit(n % 16));
        v
    }
}

/// `n` as exactly sixteen lowercase hexadecimal digits (`{:016x}`).
pub fn hex16(n: u64) -> (s: String)
    ensures
        s@ == hex_digits(n as nat, 16),
        s@.len() == 16,
{
    let v = hex_chars(n, 16);
    proof {
        lemma_hex_digits_len(n as nat, 16);
    }
    string_of(v.as_slice())
}

/// `hex_digits` always produces exactly `width` characters.
pub proof fn lemma_hex_digits_len(n: nat, width: nat)
    ensures
        hex_digits(n, width).len() == width,
    decreases width,
{
    if width > 0 {
        lemma_hex_digits_len(n / 16, (width - 1) as nat);
    }
}

/// A digit character below ten stands for its value.
proof fn lemma_digit_char_value(d: nat)
    requires
        d < 10,
    ensures
        '0' <= digit_char(d) <= '9',
        ((digit_char(d) as nat) - 48) as nat == d,
{
    assert(digit_char(d) == (48 + d) as char);
    assert(((48 + d) as char) as nat == 48 + d);
}

/// The decimal writing of a number is made of digits and reads back as the
/// number.
pub proof fn lemma_decimal_reads_back(n: nat)
    ensures
        decimal(n).len() >= 1,
        n >= 10 ==> decimal(n).len() >= 2,
        all_digits(decimal(n)),
        digits_value(decimal(n)) == n,
    decreases n,
{
    let d = decimal(n);
    if n < 10 {
        assert(d.drop_last() =~= Seq::<char>::empty());
        assert(d.last() == digit_char(n));
        lemma_digit_char_value(n);
        assert(digits_value(Seq::<char>::empty()) == 0);
        assert(digits_value(d) == digits_value(d.drop_last()) * 10 + ((d.last() as nat) - 48) as nat);
    } else {
        lemma_decimal_reads_back(n / 10);
        assert(d.drop_last() =~= decimal(n / 10));
        assert(d.last() == digit_char(n % 10));
        lemma_digit_char_value(n % 10);
        assert(digits_value(d) == digits_value(d.drop_last()) * 10 + ((d.last() as nat) - 48) as nat);
        assert(n == (n / 10) * 10 + n % 10);
        assert forall|i: int| 0 <= i < d.len() implies '0' <= #[trigger] d[i] <= '9' by {
            if i < d.len() - 1 {
                assert(d[i] == decimal(n / 10)[i]);
            }
        }
    }
}

/// The two-digit writing of a number reads back as the number too.
pub proof fn lemma_decimal2_reads_back(n: nat)
    ensures
        decimal2(n).len() >= 2,
        all_digits(decimal2(n)),
        digits_value(decimal2(n)) == n,
{
    if n < 10 {
        let d = decimal2(n);
        assert(d.drop_last() =~= seq!['0']);
        assert(seq!['0'].drop_last() =~= Seq::<char>::empty());
        assert(d[0] == '0' && d[1] == digit_char(n));
        lemma_digit_char_value(n);
        lemma_digit_char_value(0);
        let z = seq!['0'];
        assert(digits_value(Seq::<char>::empty()) == 0);
        assert(digits_value(z) == digits_value(z.drop_last()) * 10 + ((z.last() as nat) - 48) as nat);
        assert(digit_char(0) == '0');
        assert(digits_value(z) == 0);
        assert(digits_value(d) == digits_value(d.drop_last()) * 10 + ((d.last() as nat) - 48) as nat);
    } else {
        lemma_decimal_reads_back(n);
    }
}

/// Whether a character is a lowercase hexadecimal digit.
pub open spec fn is_lower_hex(c: char) -> bool {
    ('0' <= c && c <= '9') || ('a' <= c && c <= 'f')
}

/// Every character that `hex_digits` produces is a lowercase hexadecimal
/// digit.
pub proof fn lemma_hex_digits_chars(n: nat, width: nat)
    ensures
        forall|i: int| 0 <= i < width ==> is_lower_hex(#[trigger] hex_digits(n, width)[i]),
    decreases width,
{
    lemma_hex_digits_len(n, width);
    if width > 0 {
        lemma_hex_digits_chars(n / 16, (width - 1) as nat);
        lemma_hex_digits_len(n / 16, (width - 1) as nat);
        let d = n % 16;
        assert(is_lower_hex(digit_char(d)));
        assert forall|i: int| 0 <= i < width implies is_lower_hex(
            #[trigger] hex_digits(n, width)[i],
        ) by {
            if i < width - 1 {
                assert(hex_digits(n, width)[i] == hex_digits(n / 16, (width - 1) as nat)[i]);
            }
        }
    }
}

} // verus!
