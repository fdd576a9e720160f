//! Contracts for the functions of std's `String` that the crate calls and for
//! which vstd has none. Verus takes them on trust.

use vstd::prelude::*;
use vstd::utf8::{decode_utf8, valid_utf8};

verus! {

/// The error of `String::from_utf8`. Nothing is stated of what it holds.
#[verifier::external_type_specification]
#[verifier::external_body]
pub struct ExFromUtf8Error(std::string::FromUtf8Error);

/// `String::from_utf8` succeeds exactly on the byte sequences that are valid
/// UTF-8, and the string it then returns holds the characters that those bytes
/// encode.
pub assume_specification[ String::from_utf8 ](bytes: Vec<u8>) -> (r: Result<
    String,
    std::string::FromUtf8Error,
>)
    ensures
        r is Ok <==> valid_utf8(bytes@),
        r matches Ok(text) ==> text@ == decode_utf8(bytes@),
;

/// `String::push` appends `ch` to the end of the string and leaves the rest of
/// it as it was.
pub assume_specification[ String::push ](s: &mut String, ch: char)
    ensures
        final(s)@ == old(s)@.push(ch),
;

} // verus!
