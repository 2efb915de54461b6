//! Telling text from binary data.
//!
//! A buffer that is valid UTF-8 is text, and is scanned character by
//! character. Any other buffer is binary data, kept as it is and scanned byte
//! by byte. An input that could not be read at all is neither.

use vstd::prelude::*;
use vstd::utf8::{decode_utf8, encode_utf8, valid_utf8};

verus! {

/// One input as the scanner takes it.
#[derive(Debug, PartialEq, Eq)]
pub enum ReadResult {
    /// Text: the content was valid UTF-8.
    Utf8(String),
    /// Binary data: the content as it was read.
    Binary(Vec<u8>),
    /// The content could not be read. The string says why.
    ReadError(String),
}

/// The mathematical content of [`ReadResult`].
pub enum Classified {
    Text(Seq<char>),
    Bytes(Seq<u8>),
    Unreadable(Seq<char>),
}

impl View for ReadResult {
    type V = Classified;

    open spec fn view(&self) -> Classified {
        match self {
            ReadResult::Utf8(text) => Classified::Text(text@),
            ReadResult::Binary(bytes) => Classified::Bytes(bytes@),
            ReadResult::ReadError(reason) => Classified::Unreadable(reason@),
        }
    }
}

/// What a buffer is: the text that it encodes where it is valid UTF-8, and
/// else the bytes themselves.
pub open spec fn classified(bytes: Seq<u8>) -> Classified {
    if valid_utf8(bytes) {
        Classified::Text(decode_utf8(bytes))
    } else {
        Classified::Bytes(bytes)
    }
}

/// What the outcome of a read is: the content classified, or the reason why
/// there is none.
pub open spec fn classified_read(outcome: Result<Seq<u8>, Seq<char>>) -> Classified {
    match outcome {
        Ok(bytes) => classified(bytes),
        Err(reason) => Classified::Unreadable(reason),
    }
}

/// `core::str::Utf8Error`, what `core::str::from_utf8` returns for a buffer
/// that it does not accept. Nothing is assumed of its content.
#[verifier::external_type_specification]
#[verifier::external_body]
pub struct ExUtf8Error(core::str::Utf8Error);

/// `core::str::from_utf8` checks that the bytes are valid UTF-8. Assumed here:
/// it succeeds exactly on the buffers that [`valid_utf8`] accepts, and the
/// string slice it then returns is made of the very bytes it was given, so
/// that they are the UTF-8 encoding of its characters.
pub assume_specification[ core::str::from_utf8 ](v: &[u8]) -> (r: Result<
    &str,
    core::str::Utf8Error,
>)
    ensures
        r is Ok <==> valid_utf8(v@),
        r matches Ok(text) ==> encode_utf8(text@) == v@,
;

/// Classifies a buffer as text or as binary data.
///
/// Text is decoded strictly: overlong encodings, stray continuation bytes and
/// surrogates make the buffer binary. Binary data is handed back unchanged.
pub fn classify(bytes: Vec<u8>) -> (input: ReadResult)
    ensures
        input@ == classified(bytes@),
{
    match core::str::from_utf8(bytes.as_slice()) {
        Ok(text) => {
            proof {
                vstd::utf8::encode_utf8_decode_utf8(text@);
            }
            ReadResult::Utf8(String::from_str(text))
        },
        Err(_) => ReadResult::Binary(bytes),
    }
}

/// Classifies the outcome of a read: the content where there is one, and the
/// failure, with its reason, where there is none.
pub fn classify_read(outcome: Result<Vec<u8>, String>) -> (input: ReadResult)
    ensures
        input@ == classified_read(
            match outcome {
                Ok(bytes) => Ok(bytes@),
                Err(reason) => Err(reason@),
            },
        ),
{
    match outcome {
        Ok(bytes) => classify(bytes),
        Err(reason) => ReadResult::ReadError(reason),
    }
}

} // verus!
