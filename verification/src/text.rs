//! Rendering of identifiers as decimal text, and decoding of raw output as text.

use vstd::prelude::*;
use vstd::string::StringExecFns;
use vstd::utf8::{decode_utf8, encode_utf8, valid_utf8, encode_utf8_decode_utf8};

verus! {

/// The character that stands for the decimal digit `d`.
pub open spec fn digit_char(d: nat) -> char
    recommends
        d < 10,
{
    if d == 0 {
        '0'
    } else if d == 1 {
        '1'
    } else if d == 2 {
        '2'
    } else if d == 3 {
        '3'
    } else if d == 4 {
        '4'
    } else if d == 5 {
        '5'
    } else if d == 6 {
        '6'
    } else if d == 7 {
        '7'
    } else if d == 8 {
        '8'
    } else {
        '9'
    }
}

/// The decimal numeral of `n`: most significant digit first, no sign and no leading zero.
pub open spec fn decimal(n: nat) -> Seq<char>
    decreases n,
{
    if n < 10 {
        seq![digit_char(n)]
    } else {
        decimal(n / 10).push(digit_char(n % 10))
    }
}

/// The text of one decimal digit.
fn digit_text(d: u32) -> (text: &'static str)
    requires
        d < 10,
    ensures
        text@ == seq![digit_char(d as nat)],
{
    proof {
        reveal_strlit("0");
        reveal_strlit("1");
        reveal_strlit("2");
        reveal_strlit("3");
        reveal_strlit("4");
        reveal_strlit("5");
        reveal_strlit("6");
        reveal_strlit("7");
        reveal_strlit("8");
        reveal_strlit("9");
    }
    let text = if d == 0 {
        "0"
    } else if d == 1 {
        "1"
    } else if d == 2 {
        "2"
    } else if d == 3 {
        "3"
    } else if d == 4 {
        "4"
    } else if d == 5 {
        "5"
    } else if d == 6 {
        "6"
    } else if d == 7 {
        "7"
    } else if d == 8 {
        "8"
    } else {
        "9"
    };
    assert(text@ =~= seq![digit_char(d as nat)]);
    text
}

/// Appends the decimal numeral of `n` to `out`.
pub fn push_decimal(out: &mut String, n: u32)
    ensures
        final(out)@ == old(out)@ + decimal(n as nat),
    decreases n,
{
    if n >= 10 {
        push_decimal(out, n / 10);
    }
    let digit = digit_text(n % 10);
    out.append(digit);
    assert(out@ =~= old(out)@ + decimal(n as nat));
}

/// `prefix` followed by the decimal numeral of `n`.
pub fn with_decimal(prefix: &str, n: u32) -> (text: String)
    ensures
        text@ == prefix@ + decimal(n as nat),
{
    let mut text = String::from_str(prefix);
    push_decimal(&mut text, n);
    text
}

/// `prefix` followed by `detail`.
pub fn with_detail(prefix: &str, detail: &str) -> (text: String)
    ensures
        text@ == prefix@ + detail@,
{
    let mut text = String::from_str(prefix);
    text.append(detail);
    text
}

/// The error type of `core::str::from_utf8`. Nothing is read from it.
#[verifier::external_type_specification]
#[verifier::external_body]
pub struct ExUtf8Error(core::str::Utf8Error);

/// Stated of `core::str::from_utf8` without proof: it accepts exactly the byte slices that
/// are well-formed UTF-8, and on success hands back the same bytes seen as a string slice.
pub assume_specification[ core::str::from_utf8 ](bytes: &[u8]) -> (checked: Result<
    &str,
    core::str::Utf8Error,
>)
    ensures
        checked is Ok <==> valid_utf8(bytes@),
        checked matches Ok(text) ==> encode_utf8(text@) == bytes@,
;

/// The text that a chunk of raw bytes stands for: its characters where the bytes are
/// well-formed UTF-8 as a whole, and nothing where they are not.
pub open spec fn chunk_text(bytes: Seq<u8>) -> Option<Seq<char>> {
    if valid_utf8(bytes) {
        Some(decode_utf8(bytes))
    } else {
        None
    }
}

/// Decodes a chunk of raw bytes as UTF-8 text, all of it or none.
pub fn decode_chunk(bytes: &[u8]) -> (text: Option<String>)
    ensures
        match text {
            Some(t) => chunk_text(bytes@) == Some(t@),
            None => chunk_text(bytes@) is None,
        },
{
    match core::str::from_utf8(bytes) {
        Ok(slice) => {
            proof {
                encode_utf8_decode_utf8(slice@);
            }
            Some(String::from_str(slice))
        },
        Err(_) => None,
    }
}

} // verus!
