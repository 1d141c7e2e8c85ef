//! Characters as UTF-8 and numbers as decimal digits.
use vstd::prelude::*;
use vstd::arithmetic::div_mod::lemma_div_denominator;
use vstd::arithmetic::power::{
    lemma_pow0, lemma_pow1, lemma_pow_adds, lemma_pow_positive, pow,
};
use vstd::utf8::{
    decode_utf8, encode_scalar, encode_utf8, encode_utf8_decode_utf8, encode_utf8_valid_utf8,
    valid_utf8,
};

verus! {

/// Optional bytes as an optional sequence.
pub open spec fn bytes_of(data: Option<Vec<u8>>) -> Option<Seq<u8>> {
    match data {
        Some(bytes) => Some(bytes@),
        None => None,
    }
}

/// The UTF-8 encoding of one character.
pub open spec fn utf8(c: char) -> Seq<u8> {
    encode_scalar(c as u32)
}

/// Encodes one character in UTF-8.
pub fn encode_utf8_char(c: char) -> (r: Vec<u8>)
    ensures
        r@ == utf8(c),
{
    let v: u32 = c as u32;
    let mut out: Vec<u8> = Vec::new();
    if v <= 0x7F {
        out.push((v & 0x7F) as u8);
    } else if v <= 0x7FF {
        out.push(0xC0 | ((v >> 6) & 0x1F) as u8);
        out.push(0x80 | (v & 0x3F) as u8);
    } else if v <= 0xFFFF {
        out.push(0xE0 | ((v >> 12) & 0x0F) as u8);
        out.push(0x80 | ((v >> 6) & 0x3F) as u8);
        out.push(0x80 | (v & 0x3F) as u8);
    } else {
        out.push(0xF0 | ((v >> 18) & 0x7) as u8);
        out.push(0x80 | ((v >> 12) & 0x3F) as u8);
        out.push(0x80 | ((v >> 6) & 0x3F) as u8);
        out.push(0x80 | (v & 0x3F) as u8);
    }
    out
}

/// The decimal digits of `n` in ASCII, most significant first, without leading zeros.
pub open spec fn decimal(n: nat) -> Seq<u8>
    decreases n,
{
    let digit = (0x30 + n % 10) as u8;
    if n < 10 {
        seq![digit]
    } else {
        decimal(n / 10).push(digit)
    }
}

/// Appends the decimal digits of `n`.
pub fn push_decimal(out: &mut Vec<u8>, n: u16)
    ensures
        final(out)@ == old(out)@ + decimal(n as nat),
    decreases n,
{
    if n >= 10 {
        push_decimal(out, n / 10);
    }
    out.push(0x30 + (n % 10) as u8);
}

/// Every byte of `s` is an ASCII digit.
pub open spec fn all_digits(s: Seq<u8>) -> bool {
    forall|i: int| 0 <= i < s.len() ==> 0x30 <= #[trigger] s[i] <= 0x39
}

/// The number that a digit string denotes.
pub open spec fn decimal_value(s: Seq<u8>) -> int
    decreases s.len(),
{
    if s.len() == 0 {
        0
    } else {
        decimal_value(s.drop_last()) * 10 + (s.last() - 0x30)
    }
}

/// Decimal digits denote the number that they were written for: no two numbers
/// have the same digits.
pub proof fn law_decimal_reads_back(n: nat)
    ensures
        decimal(n).len() > 0,
        all_digits(decimal(n)),
        decimal_value(decimal(n)) == n,
    decreases n,
{
    reveal_with_fuel(decimal_value, 2);
    if n >= 10 {
        law_decimal_reads_back(n / 10);
        assert(decimal(n).drop_last() =~= decimal(n / 10));
    } else {
        assert(decimal(n).drop_last() =~= Seq::<u8>::empty());
    }
}

/// The encoding of a character is never empty, and that of an ASCII character
/// is the character's own byte.
pub proof fn law_utf8_char(c: char)
    ensures
        utf8(c).len() > 0,
        (c as u32) < 0x80 ==> utf8(c) == seq![c as u8],
{
    let v = c as u32;
    if v < 0x80 {
        assert((v & 0x7F) as u8 == v as u8) by (bit_vector)
            requires
                v < 0x80u32,
        ;
    }
}

/// The encoding of a character is that of the string of this one character, and
/// reads back as the character.
pub proof fn law_utf8_reads_back(c: char)
    ensures
        utf8(c) == encode_scalar(c as u32),
        utf8(c) == encode_utf8(seq![c]),
        valid_utf8(utf8(c)),
        decode_utf8(utf8(c)) == seq![c],
{
    let one = seq![c];
    assert(one.drop_first() =~= Seq::<char>::empty());
    reveal_with_fuel(encode_utf8, 2);
    assert(encode_utf8(one) =~= encode_scalar(c as u32));
    encode_utf8_valid_utf8(one);
    encode_utf8_decode_utf8(one);
}

/// The digit of the place `i`, counted from the right, is that of the number;
/// there are as many digits as the number needs, so that zero has one and no
/// other number starts with a zero.
pub proof fn law_decimal_digit_by_digit(n: nat, i: nat)
    requires
        i < decimal(n).len(),
    ensures
        decimal(n)[decimal(n).len() - 1 - i] == 0x30 + (n as int / pow(10, i)) % 10,
        n < pow(10, decimal(n).len()),
        n > 0 ==> pow(10, (decimal(n).len() - 1) as nat) <= n,
        n == 0 ==> decimal(n).len() == 1,
    decreases n,
{
    lemma_pow0(10);
    lemma_pow1(10);
    if n >= 10 {
        let rest = decimal(n / 10);
        let len = decimal(n).len();
        lemma_pow_positive(10, i);
        law_decimal_reads_back(n / 10);
        law_decimal_digit_by_digit(n / 10, if i == 0 { 0 } else { (i - 1) as nat });
        lemma_pow_adds(10, 1, rest.len());
        lemma_pow_adds(10, 1, (rest.len() - 1) as nat);
        assert(len == rest.len() + 1);
        assert(n < pow(10, len)) by {
            assert(n / 10 < pow(10, rest.len()));
            assert(pow(10, len) == 10 * pow(10, rest.len()));
        }
        assert(pow(10, (len - 1) as nat) <= n) by {
            assert(pow(10, rest.len()) == 10 * pow(10, (rest.len() - 1) as nat));
        }
        if i > 0 {
            let j = (i - 1) as nat;
            assert(decimal(n)[len - 1 - i] == rest[rest.len() - 1 - j]);
            lemma_pow_adds(10, 1, j);
            lemma_pow_positive(10, j);
            lemma_div_denominator(n as int, 10, pow(10, j));
            assert(n as int / pow(10, i) == (n / 10) as int / pow(10, j));
        }
    }
}

/// Optional bytes keep their contents as an optional sequence.
pub proof fn law_bytes_of_keeps_contents(bytes: Vec<u8>)
    ensures
        bytes_of(Some(bytes)) == Some(bytes@),
        bytes_of(None) == None::<Seq<u8>>,
{
}

/// Only the number zero starts with a zero.
pub proof fn law_decimal_has_no_leading_zero(n: nat)
    ensures
        decimal(n).len() > 0,
        decimal(n)[0] == 0x30 <==> n == 0,
        n == 0 ==> decimal(n).len() == 1,
    decreases n,
{
    if n >= 10 {
        law_decimal_has_no_leading_zero(n / 10);
        assert(decimal(n)[0] == decimal(n / 10)[0]);
    }
}

} // verus!
