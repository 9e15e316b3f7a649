//! Text forms of binary data and of numbers.

use vstd::prelude::*;
use vstd::string::*;

verus! {

/// The standard base64 text of a byte sequence, with padding.
pub uninterp spec fn base64_text(bytes: Seq<u8>) -> Seq<char>;

/// Whether a buffer of `len` bytes is short enough for its base64 text to
/// be measured in a `usize`.
pub open spec fn base64_fits(len: nat) -> bool {
    (len / 3) * 4 + 4 <= usize::MAX
}

/// Calls `base64::Engine::encode` on the engine
/// `base64::engine::general_purpose::STANDARD`. The contract gives the text
/// a name: it depends on the bytes alone. It leaves out the lengths for
/// which the crate cannot size its buffer.
#[verifier::external_body]
pub(crate) fn base64_encode(bytes: &[u8]) -> (text: String)
    requires
        base64_fits(bytes@.len()),
    ensures
        text@ == base64_text(bytes@),
{
    base64::Engine::encode(&base64::engine::general_purpose::STANDARD, bytes)
}

/// Tests whether a buffer is short enough to be encoded.
pub fn fits_base64(len: usize) -> (fits: bool)
    ensures
        fits == base64_fits(len as nat),
{
    len / 3 <= (usize::MAX - 4) / 4
}

/// Calls `String::push`: the character is added at the end.
#[verifier::external_body]
pub(crate) fn push_char(text: &mut String, c: char)
    ensures
        final(text)@ == old(text)@.push(c),
{
    text.push(c)
}

/// The character of a decimal digit.
pub open spec fn digit_char(digit: nat) -> char
    recommends
        digit < 10,
{
    if digit == 0 {
        '0'
    } else if digit == 1 {
        '1'
    } else if digit == 2 {
        '2'
    } else if digit == 3 {
        '3'
    } else if digit == 4 {
        '4'
    } else if digit == 5 {
        '5'
    } else if digit == 6 {
        '6'
    } else if digit == 7 {
        '7'
    } else if digit == 8 {
        '8'
    } else {
        '9'
    }
}

/// A number in decimal, without sign or leading zeros.
pub open spec fn decimal(value: nat) -> Seq<char>
    decreases value,
{
    if value < 10 {
        seq![digit_char(value)]
    } else {
        decimal(value / 10).push(digit_char(value % 10))
    }
}

fn digit(value: u8) -> (c: char)
    requires
        value < 10,
    ensures
        c == digit_char(value as nat),
{
    if value == 0 {
        '0'
    } else if value == 1 {
        '1'
    } else if value == 2 {
        '2'
    } else if value == 3 {
        '3'
    } else if value == 4 {
        '4'
    } else if value == 5 {
        '5'
    } else if value == 6 {
        '6'
    } else if value == 7 {
        '7'
    } else if value == 8 {
        '8'
    } else {
        '9'
    }
}

/// Writes a number in decimal at the end of `text`.
pub fn push_decimal(text: &mut String, value: u128)
    ensures
        final(text)@ == old(text)@ + decimal(value as nat),
    decreases value,
{
    if value >= 10 {
        push_decimal(text, value / 10);
    }
    push_char(text, digit((value % 10) as u8));
    proof {
        if value < 10 {
            assert(old(text)@.push(digit_char(value as nat)) =~= old(text)@ + decimal(value as nat));
        } else {
            assert((old(text)@ + decimal((value / 10) as nat)).push(
                digit_char((value % 10) as nat),
            ) =~= old(text)@ + decimal(value as nat));
        }
    }
}

/// A number as decimal text.
pub fn to_decimal(value: u128) -> (text: String)
    ensures
        text@ == decimal(value as nat),
{
    let mut text = String::new();
    push_decimal(&mut text, value);
    proof {
        assert(Seq::<char>::empty() + decimal(value as nat) =~= decimal(value as nat));
    }
    text
}

} // verus!
