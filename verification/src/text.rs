//! Decimal rendering of readings into fixed-capacity text buffers.

use vstd::prelude::*;

verus! {

/// The fixed-capacity string of the `heapless` crate, held as an opaque value.
#[verifier::external_type_specification]
#[verifier::external_body]
pub struct ExHeaplessString<const N: usize>(heapless::String<N>);

/// The characters a five-byte text buffer holds, in order.
pub uninterp spec fn text_of(text: heapless::String<5>) -> Seq<char>;

/// The number of bytes of its capacity that a five-byte text buffer uses.
pub uninterp spec fn text_bytes(text: heapless::String<5>) -> nat;

/// The number of bytes that the UTF-8 encoding of a character takes.
pub open spec fn utf8_len(c: char) -> nat {
    if (c as u32) < 0x80 {
        1
    } else if (c as u32) < 0x800 {
        2
    } else if (c as u32) < 0x1_0000 {
        3
    } else {
        4
    }
}

/// The character that stands for a decimal digit.
pub open spec fn digit_char(d: nat) -> char {
    (d + 48) as char
}

/// The decimal text of a number: most significant digit first, without
/// leading zeros, and the single digit `0` for zero.
pub open spec fn decimal_text(n: nat) -> Seq<char>
    decreases n,
{
    if n < 10 {
        seq![digit_char(n)]
    } else {
        decimal_text(n / 10).push(digit_char(n % 10))
    }
}

/// `heapless::String::new`: the new buffer holds no character and uses no
/// byte.
#[verifier::external_body]
fn text_new() -> (text: heapless::String<5>)
    ensures
        text_of(text) == Seq::<char>::empty(),
        text_bytes(text) == 0,
{
    heapless::String::new()
}

/// `heapless::String::push`: the character is appended when its UTF-8
/// encoding fits into the bytes that are left; otherwise the call fails and
/// the buffer is unchanged.
#[verifier::external_body]
fn text_push(text: &mut heapless::String<5>, c: char) -> (res: Result<(), ()>)
    ensures
        text_bytes(*old(text)) + utf8_len(c) <= 5 ==> res is Ok
            && text_of(*final(text)) == text_of(*old(text)).push(c)
            && text_bytes(*final(text)) == text_bytes(*old(text)) + utf8_len(c),
        text_bytes(*old(text)) + utf8_len(c) > 5 ==> res is Err
            && text_of(*final(text)) == text_of(*old(text))
            && text_bytes(*final(text)) == text_bytes(*old(text)),
{
    text.push(c)
}

/// A number below one hundred thousand has at most five decimal digits.
pub proof fn lemma_decimal_text_len(n: nat)
    requires
        n < 100_000,
    ensures
        1 <= decimal_text(n).len() <= 5,
        n < 10 ==> decimal_text(n).len() == 1,
        n >= 10 ==> decimal_text(n).len() == decimal_text(n / 10).len() + 1,
    decreases n,
{
    if n >= 10 {
        lemma_decimal_text_len(n / 10);
        if n / 10 >= 10 {
            lemma_decimal_text_len(n / 100);
            if n / 100 >= 10 {
                lemma_decimal_text_len(n / 1000);
                if n / 1000 >= 10 {
                    lemma_decimal_text_len(n / 10000);
                }
            }
        }
    }
}

/// The character of a decimal digit.
fn digit(d: u8) -> (c: char)
    requires
        d < 10,
    ensures
        c == digit_char(d as nat),
        utf8_len(c) == 1,
{
    (d + 48) as char
}

/// Appends the decimal text of `n` to a buffer that has room for it.
fn push_decimal(text: &mut heapless::String<5>, n: u16)
    requires
        text_bytes(*old(text)) + decimal_text(n as nat).len() <= 5,
    ensures
        text_of(*final(text)) == text_of(*old(text)) + decimal_text(n as nat),
        text_bytes(*final(text)) == text_bytes(*old(text)) + decimal_text(n as nat).len(),
    decreases n,
{
    proof {
        lemma_decimal_text_len(n as nat);
    }
    if n >= 10 {
        push_decimal(text, n / 10);
    }
    let _ = text_push(text, digit((n % 10) as u8));
    assert(text_of(*text) =~= text_of(*old(text)) + decimal_text(n as nat));
}

/// Renders a reading as decimal text.
pub fn u16_to_string(n: u16) -> (text: heapless::String<5>)
    ensures
        text_of(text) == decimal_text(n as nat),
        text_bytes(text) == decimal_text(n as nat).len(),
{
    let mut text = text_new();
    proof {
        lemma_decimal_text_len(n as nat);
    }
    push_decimal(&mut text, n);
    assert(text_of(text) =~= decimal_text(n as nat));
    text
}

} // verus!
