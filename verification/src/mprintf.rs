//! Strings in memory of the host's own allocator, for the fields that the
//! host frees by itself. Preparing the string and judging what the
//! allocator answered are the two halves; the call between them is the
//! caller's.

use vstd::prelude::*;
use crate::error::MprintfError;
use crate::text::{bytes_of, first_nul, nul_position};

verus! {

/// The nul-terminated string that the host's formatter is given for `base`:
/// the bytes of `base` and one zero byte. None where `base` holds a zero
/// byte itself, which is then named by its place.
pub open spec fn mprintf_request(base: Seq<char>) -> Result<Seq<u8>, MprintfError> {
    match nul_position(bytes_of(base)) {
        Some(at) => Err(MprintfError::Nul(at as usize)),
        None => Ok(bytes_of(base).push(0u8)),
    }
}

/// Prepares `base` for the host's formatting allocator: its bytes with the
/// terminating zero byte. Fails where `base` holds a zero byte.
pub fn mprintf(base: &str) -> (request: Result<Vec<u8>, MprintfError>)
    ensures
        match mprintf_request(base@) {
            Ok(bytes) => request.is_ok() && request.unwrap()@ == bytes,
            Err(e) => request == Err::<Vec<u8>, MprintfError>(e),
        },
{
    let bytes = base.as_bytes();
    match first_nul(bytes) {
        Some(at) => Err(MprintfError::Nul(at)),
        None => {
            let mut request: Vec<u8> = Vec::new();
            let mut i: usize = 0;
            while i < bytes.len()
                invariant
                    i <= bytes@.len(),
                    request@ == bytes@.take(i as int),
                decreases bytes@.len() - i,
            {
                request.push(bytes[i]);
                assert(request@ =~= bytes@.take(i + 1));
                i += 1;
            }
            assert(bytes@.take(i as int) =~= bytes@);
            request.push(0);
            Ok(request)
        },
    }
}

/// Judges what the host's allocator answered: the address of the string, or
/// the null address where it had no memory.
pub fn mprintf_allocated(address: usize) -> (allocated: Result<usize, MprintfError>)
    ensures
        address == 0 ==> allocated == Err::<usize, MprintfError>(MprintfError::Oom),
        address != 0 ==> allocated == Ok::<usize, MprintfError>(address),
{
    if address == 0 {
        Err(MprintfError::Oom)
    } else {
        Ok(address)
    }
}

} // verus!
