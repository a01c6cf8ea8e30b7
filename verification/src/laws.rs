//! What holds across the boundary: a text that is written as a result and
//! read back as a value is the same text, and the other way round.

use vstd::prelude::*;
use crate::context::HostCallView;
use crate::results::text_call;
use crate::text::{bytes_of, nul_free, nul_position, until_nul, until_nul_is_nul_free};
use crate::value::text_read;

verus! {

/// A text without a zero byte, short enough for the host's length, goes out
/// as its own bytes with their number; and a value that holds those bytes
/// reads as the same text, character for character.
pub proof fn text_round_trip(text: Seq<char>)
    requires
        nul_free(bytes_of(text)),
        bytes_of(text).len() <= i32::MAX,
    ensures
        text_call(bytes_of(text)) == Ok::<HostCallView, crate::error::Error>(
            HostCallView::Text { bytes: bytes_of(text), len: bytes_of(text).len() as i32 },
        ),
        text_read(bytes_of(text)) == Ok::<Seq<char>, crate::error::Error>(text),
{
    let bytes = bytes_of(text);
    assert(nul_position(bytes).is_none());
    assert(until_nul(bytes) == bytes);
    vstd::utf8::encode_utf8_valid_utf8(text);
    vstd::utf8::encode_utf8_decode_utf8(text);
}

/// Whatever text the text setter lets through, the text accessor reads back
/// unchanged from the bytes that went out.
pub proof fn written_text_reads_back(text: Seq<char>)
    requires
        text_call(bytes_of(text)).is_ok(),
    ensures
        text_call(bytes_of(text)).unwrap() is Text,
        text_read(text_call(bytes_of(text)).unwrap()->Text_bytes) == Ok::<
            Seq<char>,
            crate::error::Error,
        >(text),
{
    let bytes = bytes_of(text);
    if !nul_free(bytes) {
        crate::text::first_nul_exists(bytes);
    }
    text_round_trip(text);
}

/// A text that was read from a value can always go out again, and goes out
/// as the bytes it was read from: those before the first zero byte.
pub proof fn read_text_writes_back(data: Seq<u8>)
    requires
        data.len() <= i32::MAX,
        text_read(data).is_ok(),
    ensures
        text_call(bytes_of(text_read(data).unwrap())) == Ok::<HostCallView, crate::error::Error>(
            HostCallView::Text { bytes: until_nul(data), len: until_nul(data).len() as i32 },
        ),
{
    let seen = until_nul(data);
    until_nul_is_nul_free(data);
    vstd::utf8::decode_utf8_encode_utf8(seen);
    assert(bytes_of(text_read(data).unwrap()) == seen);
    assert(nul_position(seen).is_none());
}

} // verus!
