//! Text on the wire: a pipe carries bytes, and text travels as UTF-8.

use vstd::prelude::*;
use vstd::utf8::*;
use vstd::string::*;

verus! {

/// The reason `String::from_utf8` gives for refusing its bytes. Opaque here.
#[verifier::external_type_specification]
#[verifier::external_body]
pub struct ExFromUtf8Error(std::string::FromUtf8Error);

/// `String::from_utf8` succeeds exactly on valid UTF-8, and the string it
/// then returns is stored as the very bytes it was given.
pub assume_specification[ String::from_utf8 ](vec: Vec<u8>) -> (res: Result<
    String,
    std::string::FromUtf8Error,
>)
    ensures
        res is Ok <==> valid_utf8(vec@),
        res matches Ok(s) ==> encode_utf8(s@) == vec@,
;

/// The text that `bytes` spell, if they are valid UTF-8.
pub open spec fn text_of(bytes: Seq<u8>) -> Option<Seq<char>> {
    if valid_utf8(bytes) {
        Some(decode_utf8(bytes))
    } else {
        None
    }
}

/// The bytes that carry `text` through a pipe: its UTF-8 encoding.
pub fn encode(text: &str) -> (bytes: &[u8])
    ensures
        bytes@ == encode_utf8(text@),
{
    text.as_bytes()
}

/// The text that `bytes` spell, or `None` where they are not valid UTF-8.
pub fn decode(bytes: Vec<u8>) -> (text: Option<String>)
    ensures
        text is Some <==> valid_utf8(bytes@),
        text matches Some(s) ==> s@ == decode_utf8(bytes@),
        (match text {
            Some(s) => Some(s@),
            None => None,
        }) == text_of(bytes@),
{
    match String::from_utf8(bytes) {
        Ok(s) => {
            proof {
                encode_utf8_decode_utf8(s@);
            }
            Some(s)
        },
        Err(_) => None,
    }
}

/// Encoding never produces bytes that decoding refuses, and decoding what was
/// encoded gives the text back unchanged. This holds of every text: the empty
/// one, and text with characters outside ASCII.
pub proof fn lemma_text_round_trip(text: Seq<char>)
    ensures
        text_of(encode_utf8(text)) == Some(text),
{
    encode_utf8_valid_utf8(text);
    encode_utf8_decode_utf8(text);
}

/// Bytes that are not valid UTF-8 spell no text, and bytes that are valid
/// spell exactly one: the text whose encoding they are.
pub proof fn lemma_text_of_exact(bytes: Seq<u8>)
    ensures
        !valid_utf8(bytes) <==> text_of(bytes) is None,
        forall|text: Seq<char>| text_of(bytes) == Some(text) <==> encode_utf8(text) == bytes,
{
    assert forall|text: Seq<char>| text_of(bytes) == Some(text) <==> encode_utf8(text)
        == bytes by {
        if text_of(bytes) == Some(text) {
            decode_utf8_encode_utf8(bytes);
        }
        if encode_utf8(text) == bytes {
            lemma_text_round_trip(text);
        }
    }
}

} // verus!
