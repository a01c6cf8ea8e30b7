//! The result setters: each writes one result of one kind onto a context,
//! after checking what has to hold of it before the host sees it.

use vstd::prelude::*;
use vstd::slice::slice_to_vec;
use crate::context::{Context, HostCall, HostCallView};
use crate::error::Error;
use crate::text::{bytes_of, first_nul, nul_position};

verus! {

/// The subtype that marks a text result as JSON: the letter `J`.
pub const JSON_SUBTYPE: u8 = 74;

/// What becomes of a string, given by its bytes, that is to cross to the
/// host as nul-terminated text: refused where it holds a zero byte, with the
/// place of the first one, refused where it is longer than 32 signed bits
/// can say, and else passed on whole with its length.
pub open spec fn checked_text(bytes: Seq<u8>) -> Result<(Seq<u8>, i32), Error> {
    match nul_position(bytes) {
        Some(at) => Err(Error::NulByteInSource { position: at as usize }),
        None => if bytes.len() > i32::MAX {
            Err(Error::LengthOverflow)
        } else {
            Ok((bytes, bytes.len() as i32))
        },
    }
}

/// The call that a text result makes, where the text may cross.
pub open spec fn text_call(bytes: Seq<u8>) -> Result<HostCallView, Error> {
    match checked_text(bytes) {
        Ok((bytes, len)) => Ok(HostCallView::Text { bytes, len }),
        Err(e) => Err(e),
    }
}

/// The call that an error result makes, where the message may cross.
pub open spec fn error_call(bytes: Seq<u8>) -> Result<HostCallView, Error> {
    match checked_text(bytes) {
        Ok((bytes, len)) => Ok(HostCallView::Error { bytes, len }),
        Err(e) => Err(e),
    }
}

/// The calls on `before` followed by `call`, or `before` unchanged together
/// with the error where there is no call to make.
pub open spec fn recorded(
    before: Seq<HostCallView>,
    call: Result<HostCallView, Error>,
    after: Seq<HostCallView>,
    outcome: Result<(), Error>,
) -> bool {
    match call {
        Ok(c) => outcome.is_ok() && after == before.push(c),
        Err(e) => outcome == Err::<(), Error>(e) && after == before,
    }
}

/// Checks that `text` may cross to the host, and copies its bytes.
pub fn check_text(text: &str) -> (checked: Result<(Vec<u8>, i32), Error>)
    ensures
        match checked_text(bytes_of(text@)) {
            Ok((bytes, len)) => checked.is_ok() && checked.unwrap().0@ == bytes
                && checked.unwrap().1 == len,
            Err(e) => checked == Err::<(Vec<u8>, i32), Error>(e),
        },
{
    let bytes = text.as_bytes();
    match first_nul(bytes) {
        Some(position) => Err(Error::NulByteInSource { position }),
        None => {
            let n: usize = bytes.len();
            if n > 0x7fff_ffff {
                Err(Error::LengthOverflow)
            } else {
                Ok((slice_to_vec(bytes), n as i32))
            }
        },
    }
}

/// Sets the result to `text`. Fails, and writes nothing, where `text` holds
/// a zero byte or is too long for the host's length.
pub fn result_text(context: &mut Context, text: &str) -> (outcome: Result<(), Error>)
    ensures
        recorded(old(context)@, text_call(bytes_of(text@)), final(context)@, outcome),
{
    match check_text(text) {
        Ok((bytes, len)) => {
            context.record(HostCall::Text { bytes, len });
            Ok(())
        },
        Err(e) => Err(e),
    }
}

/// Sets the result to the 32-bit integer `i`.
pub fn result_int(context: &mut Context, i: i32)
    ensures
        final(context)@ == old(context)@.push(HostCallView::Int(i)),
{
    context.record(HostCall::Int(i));
}

/// Sets the result to the 64-bit integer `i`.
pub fn result_int64(context: &mut Context, i: i64)
    ensures
        final(context)@ == old(context)@.push(HostCallView::Int64(i)),
{
    context.record(HostCall::Int64(i));
}

/// Sets the result to the floating-point number whose bits are `bits`.
pub fn result_double(context: &mut Context, bits: u64)
    ensures
        final(context)@ == old(context)@.push(HostCallView::Double(bits)),
{
    context.record(HostCall::Double(bits));
}

/// Sets the result to a copy of `blob`. The host is told the length cut to
/// 32 signed bits.
pub fn result_blob(context: &mut Context, blob: &[u8])
    ensures
        final(context)@ == old(context)@.push(
            HostCallView::Blob { bytes: blob@, len: blob@.len() as i32 },
        ),
{
    let len: i32 = #[verifier::truncate]
    (blob.len() as i32);
    context.record(HostCall::Blob { bytes: slice_to_vec(blob), len });
}

/// Sets the result to null.
pub fn result_null(context: &mut Context)
    ensures
        final(context)@ == old(context)@.push(HostCallView::Null),
{
    context.record(HostCall::Null);
}

/// Sets the result to an error with the message `text`. Fails, and writes
/// nothing, where `text` holds a zero byte or is too long for the host's
/// length.
pub fn result_error(context: &mut Context, text: &str) -> (outcome: Result<(), Error>)
    ensures
        recorded(old(context)@, error_call(bytes_of(text@)), final(context)@, outcome),
{
    match check_text(text) {
        Ok((bytes, len)) => {
            context.record(HostCall::Error { bytes, len });
            Ok(())
        },
        Err(e) => Err(e),
    }
}

/// Sets the result to the error that the host knows under `code`.
pub fn result_error_code(context: &mut Context, code: i32)
    ensures
        final(context)@ == old(context)@.push(HostCallView::ErrorCode(code)),
{
    context.record(HostCall::ErrorCode(code));
}

/// Sets the result to the integer 1 for `true` and 0 for `false`.
pub fn result_bool(context: &mut Context, value: bool)
    ensures
        final(context)@ == old(context)@.push(
            HostCallView::Int(
                if value {
                    1i32
                } else {
                    0i32
                },
            ),
        ),
{
    if value {
        result_int(context, 1)
    } else {
        result_int(context, 0)
    }
}

/// Marks the result with `subtype`. The host keeps the lower eight bits of a
/// subtype, so eight bits are all that can be given.
pub fn result_subtype(context: &mut Context, subtype: u8)
    ensures
        final(context)@ == old(context)@.push(HostCallView::Subtype(subtype as u32)),
{
    context.record(HostCall::Subtype(subtype as u32));
}

} // verus!
