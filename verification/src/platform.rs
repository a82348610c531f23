//! The random source, the clock, the hex encoder and the text functions of the
//! standard library that vstd does not specify, each behind a function whose
//! contract is taken on trust.

use openssl::error::ErrorStack;
use std::time::{SystemTime, UNIX_EPOCH};
use vstd::prelude::*;

verus! {

/// The lower-case hex digit of a value below 16.
pub open spec fn spec_hex_digit(nibble: int) -> char {
    if nibble == 0 {
        '0'
    } else if nibble == 1 {
        '1'
    } else if nibble == 2 {
        '2'
    } else if nibble == 3 {
        '3'
    } else if nibble == 4 {
        '4'
    } else if nibble == 5 {
        '5'
    } else if nibble == 6 {
        '6'
    } else if nibble == 7 {
        '7'
    } else if nibble == 8 {
        '8'
    } else if nibble == 9 {
        '9'
    } else if nibble == 10 {
        'a'
    } else if nibble == 11 {
        'b'
    } else if nibble == 12 {
        'c'
    } else if nibble == 13 {
        'd'
    } else if nibble == 14 {
        'e'
    } else {
        'f'
    }
}

/// Two lower-case hex digits for each byte, the high half first.
pub open spec fn spec_hex(bytes: Seq<u8>) -> Seq<char> {
    Seq::new(
        2 * bytes.len(),
        |i: int|
            if i % 2 == 0 {
                spec_hex_digit(bytes[i / 2] as int / 16)
            } else {
                spec_hex_digit(bytes[i / 2] as int % 16)
            },
    )
}

/// `hex::encode`: the bytes as lower-case hex, two digits each.
#[verifier::external_body]
pub(crate) fn hex_encode(bytes: &[u8]) -> (text: String)
    ensures
        text@ == spec_hex(bytes@),
{
    hex::encode(bytes)
}

/// `core::str::from_utf8`: whether the bytes are well-formed UTF-8.
#[verifier::external_body]
pub(crate) fn is_utf8(bytes: &[u8]) -> (ok: bool)
    ensures
        ok == vstd::utf8::valid_utf8(bytes@),
{
    core::str::from_utf8(bytes).is_ok()
}

/// The text that `String::from_utf8_lossy` reads from bytes: their characters,
/// with the replacement character where they are no UTF-8.
pub uninterp spec fn spec_utf8_lossy(bytes: Seq<u8>) -> Seq<char>;

/// `String::from_utf8_lossy`: the named text of the bytes.
#[verifier::external_body]
pub(crate) fn utf8_lossy(bytes: &[u8]) -> (text: String)
    ensures
        text@ == spec_utf8_lossy(bytes@),
{
    String::from_utf8_lossy(bytes).to_string()
}

/// `ErrorStack::to_string`: the provider's errors as text. Nothing is claimed
/// of it.
#[verifier::external_body]
pub(crate) fn error_stack_text(stack: &ErrorStack) -> (text: String) {
    stack.to_string()
}

/// `rand::random` for four bytes. Nothing is claimed of them.
#[verifier::external_body]
pub(crate) fn random_word() -> (bytes: [u8; 4]) {
    rand::random::<[u8; 4]>()
}

/// `rand::random` for sixteen bytes. Nothing is claimed of them.
#[verifier::external_body]
pub(crate) fn random_block() -> (bytes: [u8; 16]) {
    rand::random::<[u8; 16]>()
}

/// `rand::random` for a 32-bit number. Nothing is claimed of it.
#[verifier::external_body]
pub(crate) fn random_u32() -> (value: u32) {
    rand::random::<u32>()
}

/// `SystemTime::now` as whole seconds since the Unix epoch; `None` where the
/// clock stands before it. Nothing is claimed of the value.
#[verifier::external_body]
pub(crate) fn current_time() -> (seconds: Option<u64>) {
    match SystemTime::now().duration_since(UNIX_EPOCH) {
        Ok(elapsed) => Some(elapsed.as_secs()),
        Err(_) => None,
    }
}

} // verus!
