//! Numbers written out as text: the digits of a result code in hexadecimal
//! and of a bit-field in decimal.

use crate::result_code::{raw_bits, OsResultCode};
use vstd::prelude::*;

verus! {

/// The digit that stands for `d`, a value below sixteen. The first ten are
/// the decimal digits.
pub open spec fn digit(d: nat) -> char {
    "0123456789ABCDEF"@[d as int]
}

/// The `width` lowest hexadecimal digits of `value`, the highest of them
/// first, in upper case and with leading zeros.
pub open spec fn hex_text(value: nat, width: nat) -> Seq<char>
    decreases width,
{
    if width == 0 {
        Seq::empty()
    } else {
        hex_text(value / 16, (width - 1) as nat).push(digit(value % 16))
    }
}

/// `value` in decimal, without sign and without leading zeros.
pub open spec fn decimal_text(value: nat) -> Seq<char>
    decreases value,
{
    if value < 10 {
        seq![digit(value)]
    } else {
        decimal_text(value / 10).push(digit(value % 10))
    }
}

/// The eight hexadecimal digits of the 32 bits of `code`.
pub open spec fn hex8(code: OsResultCode) -> Seq<char> {
    hex_text(raw_bits(code), 8)
}

/// Whether `c` is a digit of upper-case hexadecimal.
pub open spec fn is_upper_hex_digit(c: char) -> bool {
    '0' <= c <= '9' || 'A' <= c <= 'F'
}

/// A number written with `width` hexadecimal digits has that many
/// characters, and each of them is a digit of upper-case hexadecimal. So a
/// result code, whatever its sign, is written with exactly eight.
pub proof fn lemma_hex_text_shape(value: nat, width: nat)
    ensures
        hex_text(value, width).len() == width,
        forall|i: int|
            0 <= i < width ==> is_upper_hex_digit(#[trigger] hex_text(value, width)[i]),
    decreases width,
{
    reveal_strlit("0123456789ABCDEF");
    if width > 0 {
        lemma_hex_text_shape(value / 16, (width - 1) as nat);
    }
}

/// Appends the digit for `d` to `text`.
fn push_digit(text: &mut String, d: u32)
    requires
        d < 16,
    ensures
        final(text)@ == old(text)@.push(digit(d as nat)),
{
    let digits = "0123456789ABCDEF";
    proof {
        reveal_strlit("0123456789ABCDEF");
    }
    let at = d as usize;
    let one = digits.substring_char(at, at + 1);
    text.append(one);
}

/// Appends the `width` lowest hexadecimal digits of `value` to `text`.
fn push_hex(text: &mut String, value: u32, width: u32)
    requires
        width <= 8,
    ensures
        final(text)@ == old(text)@ + hex_text(value as nat, width as nat),
    decreases width,
{
    if width > 0 {
        push_hex(text, value / 16, width - 1);
        push_digit(text, value % 16);
    }
}

/// Appends `value` in decimal to `text`.
pub fn push_decimal(text: &mut String, value: u32)
    ensures
        final(text)@ == old(text)@ + decimal_text(value as nat),
    decreases value,
{
    if value >= 10 {
        push_decimal(text, value / 10);
    }
    push_digit(text, value % 10);
}

/// Appends the eight hexadecimal digits of `code` to `text`.
pub fn push_hex8(text: &mut String, code: OsResultCode)
    ensures
        final(text)@ == old(text)@ + hex8(code),
{
    let bits = #[verifier::truncate] (code as u32);
    assert(bits == raw_bits(code)) by {
        assert(code < 0 ==> (code as u32) == code + 0x1_0000_0000) by (bit_vector);
        assert(code >= 0 ==> (code as u32) == code) by (bit_vector);
    }
    push_hex(text, bits, 8);
}

} // verus!
