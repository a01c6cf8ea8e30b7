//! What can go wrong while a value crosses to or from the host.

use vstd::prelude::*;

verus! {

/// A failure of a conversion at the boundary.
#[derive(Clone, Copy, Debug, PartialEq, Eq, Structural)]
pub enum Error {
    /// A string holds a zero byte, at `position`, and so cannot cross a
    /// nul-terminated interface.
    NulByteInSource { position: usize },
    /// Text that the host reported is not valid UTF-8.
    Utf8DecodeFailure,
    /// A value of type null stood where another was required.
    UnexpectedNull,
    /// A buffer is longer than the host's length type can say.
    LengthOverflow,
    /// The host's allocator had no memory to give.
    AllocationFailure,
}

impl Error {
    /// The words that say what `self` is, as a sequence of characters.
    pub open spec fn message_text(self) -> Seq<char> {
        match self {
            Error::NulByteInSource { .. } => "nul byte found in provided data"@,
            Error::Utf8DecodeFailure => "invalid utf-8 sequence"@,
            Error::UnexpectedNull => "Unexpected null value"@,
            Error::LengthOverflow => "i32 overflow, string to large"@,
            Error::AllocationFailure => "out of memory"@,
        }
    }

    /// A short description of the failure, fit for an error result.
    pub fn message(&self) -> (words: &'static str)
        ensures
            words@ == self.message_text(),
    {
        match self {
            Error::NulByteInSource { .. } => "nul byte found in provided data",
            Error::Utf8DecodeFailure => "invalid utf-8 sequence",
            Error::UnexpectedNull => "Unexpected null value",
            Error::LengthOverflow => "i32 overflow, string to large",
            Error::AllocationFailure => "out of memory",
        }
    }
}

/// Why a string could not be formatted into memory of the host.
#[derive(Clone, Copy, Debug, PartialEq, Eq, Structural)]
pub enum MprintfError {
    /// The string holds a zero byte, at this position.
    Nul(usize),
    /// The host's allocator returned no memory.
    Oom,
}

impl MprintfError {
    /// The general error that `self` amounts to.
    pub open spec fn as_error(self) -> Error {
        match self {
            MprintfError::Nul(position) => Error::NulByteInSource { position },
            MprintfError::Oom => Error::AllocationFailure,
        }
    }

    /// Turns `self` into the general error of the same meaning.
    pub fn into_error(self) -> (error: Error)
        ensures
            error == self.as_error(),
    {
        match self {
            MprintfError::Nul(position) => Error::NulByteInSource { position },
            MprintfError::Oom => Error::AllocationFailure,
        }
    }
}

} // verus!
