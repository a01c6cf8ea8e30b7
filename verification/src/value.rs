//! Values that the host hands in: what it reports of one value, held as
//! plain data for the length of one invocation, and the typed, null-checked
//! accessors on it.

use vstd::prelude::*;
use vstd::slice::slice_subrange;
use vstd::utf8::{decode_utf8, valid_utf8};
use crate::error::Error;
use crate::text::{bytes_of, first_nul, until_nul};

verus! {

/// The host's tag for an integer value.
pub const SQLITE_INTEGER: i32 = 1;

/// The host's tag for a floating-point value.
pub const SQLITE_FLOAT: i32 = 2;

/// The host's tag for a text value.
pub const SQLITE_TEXT: i32 = 3;

/// The host's tag for a blob.
pub const SQLITE_BLOB: i32 = 4;

/// The host's tag for null.
pub const SQLITE_NULL: i32 = 5;

/// The kinds of value that the host tells apart.
#[derive(Clone, Copy, Debug, PartialEq, Eq, Structural)]
pub enum ValueType {
    /// Text, tagged `SQLITE_TEXT`.
    Text,
    /// An integer, tagged `SQLITE_INTEGER`.
    Integer,
    /// A floating-point number, tagged `SQLITE_FLOAT`.
    Float,
    /// A blob, tagged `SQLITE_BLOB`.
    Blob,
    /// Null, tagged `SQLITE_NULL`.
    Null,
}

impl ValueType {
    /// The kind that the tag `code` stands for; `None` for a number that is
    /// no tag of the host.
    pub open spec fn of_code(code: i32) -> Option<ValueType> {
        if code == SQLITE_TEXT {
            Some(ValueType::Text)
        } else if code == SQLITE_INTEGER {
            Some(ValueType::Integer)
        } else if code == SQLITE_FLOAT {
            Some(ValueType::Float)
        } else if code == SQLITE_BLOB {
            Some(ValueType::Blob)
        } else if code == SQLITE_NULL {
            Some(ValueType::Null)
        } else {
            None
        }
    }

    /// The host's tag for this kind.
    pub open spec fn tag(self) -> i32 {
        match self {
            ValueType::Text => SQLITE_TEXT,
            ValueType::Integer => SQLITE_INTEGER,
            ValueType::Float => SQLITE_FLOAT,
            ValueType::Blob => SQLITE_BLOB,
            ValueType::Null => SQLITE_NULL,
        }
    }

    /// Resolves a tag of the host to its kind.
    pub fn from_code(code: i32) -> (kind: Option<ValueType>)
        ensures
            kind == Self::of_code(code),
            kind.is_some() <==> SQLITE_INTEGER <= code <= SQLITE_NULL,
    {
        if code == SQLITE_TEXT {
            Some(ValueType::Text)
        } else if code == SQLITE_INTEGER {
            Some(ValueType::Integer)
        } else if code == SQLITE_FLOAT {
            Some(ValueType::Float)
        } else if code == SQLITE_BLOB {
            Some(ValueType::Blob)
        } else if code == SQLITE_NULL {
            Some(ValueType::Null)
        } else {
            None
        }
    }

    /// The host's tag for this kind.
    pub fn code(self) -> (code: i32)
        ensures
            code == self.tag(),
            Self::of_code(code) == Some(self),
    {
        match self {
            ValueType::Text => SQLITE_TEXT,
            ValueType::Integer => SQLITE_INTEGER,
            ValueType::Float => SQLITE_FLOAT,
            ValueType::Blob => SQLITE_BLOB,
            ValueType::Null => SQLITE_NULL,
        }
    }
}

/// Resolving a tag is a total function on the host's five tags: each has
/// its kind, the kind's own tag is the same tag again, and so no two tags
/// share a kind.
pub proof fn every_tag_has_its_kind(code: i32)
    requires
        SQLITE_INTEGER <= code <= SQLITE_NULL,
    ensures
        ValueType::of_code(code).is_some(),
        ValueType::of_code(code).unwrap().tag() == code,
{
}

/// What the host reports of one value, as mathematics sees it.
pub struct HostValueView {
    /// The type tag.
    pub type_code: i32,
    /// What the 32-bit integer accessor returns.
    pub int32: i32,
    /// What the 64-bit integer accessor returns.
    pub int64: i64,
    /// The bits of what the floating-point accessor returns.
    pub double: u64,
    /// The bytes that the text and blob accessors point to.
    pub data: Seq<u8>,
}

impl HostValueView {
    /// The tag is one of the host's five, the length of the data is one
    /// that the host can report, and a null has no data.
    pub open spec fn wf(self) -> bool {
        &&& ValueType::of_code(self.type_code).is_some()
        &&& self.data.len() <= i32::MAX
        &&& self.type_code == SQLITE_NULL ==> self.data.len() == 0
    }

    /// The kind of the value.
    pub open spec fn value_type(self) -> ValueType {
        ValueType::of_code(self.type_code).unwrap()
    }
}

/// One value of the host, read out: the tag and the answers of the host's
/// accessors. It stands for a handle that is valid during one invocation.
#[derive(Debug, PartialEq, Eq)]
pub struct HostValue {
    type_code: i32,
    int32: i32,
    int64: i64,
    double: u64,
    data: Vec<u8>,
}

impl View for HostValue {
    type V = HostValueView;

    closed spec fn view(&self) -> HostValueView {
        HostValueView {
            type_code: self.type_code,
            int32: self.int32,
            int64: self.int64,
            double: self.double,
            data: self.data@,
        }
    }
}

impl HostValue {
    /// What holds of every value of this type: its view is well formed.
    #[verifier::type_invariant]
    pub open spec fn well_formed(&self) -> bool {
        self@.wf()
    }

    /// Builds a value from what the host reported. `None` where `type_code`
    /// is none of the host's tags, `data` is longer than the host can say,
    /// or a null comes with data.
    pub fn new(type_code: i32, int32: i32, int64: i64, double: u64, data: Vec<u8>) -> (made: Option<
        HostValue,
    >)
        ensures
            made.is_some() <==> (HostValueView { type_code, int32, int64, double, data: data@ }).wf(),
            made.is_some() ==> made.unwrap()@ == (HostValueView {
                type_code,
                int32,
                int64,
                double,
                data: data@,
            }),
    {
        if ValueType::from_code(type_code).is_none() || data.len() > 0x7fff_ffff || (type_code
            == SQLITE_NULL && data.len() != 0) {
            None
        } else {
            Some(HostValue { type_code, int32, int64, double, data })
        }
    }

    /// A null value.
    pub fn null() -> (made: HostValue)
        ensures
            made@ == (HostValueView {
                type_code: SQLITE_NULL,
                int32: 0,
                int64: 0,
                double: 0,
                data: Seq::<u8>::empty(),
            }),
    {
        HostValue { type_code: SQLITE_NULL, int32: 0, int64: 0, double: 0, data: Vec::new() }
    }

    /// The type tag.
    pub fn type_code(&self) -> (code: i32)
        ensures
            code == self@.type_code,
    {
        self.type_code
    }

    /// The bytes that the text and blob accessors point to.
    pub fn data(&self) -> (bytes: &[u8])
        ensures
            bytes@ == self@.data,
    {
        self.data.as_slice()
    }
}

/// What the text accessor reads of `data`: the bytes before the first zero
/// byte, as UTF-8. An error where they are no valid UTF-8.
pub open spec fn text_read(data: Seq<u8>) -> Result<Seq<char>, Error> {
    if valid_utf8(until_nul(data)) {
        Ok(decode_utf8(until_nul(data)))
    } else {
        Err(Error::Utf8DecodeFailure)
    }
}

/// Calls `core::str::from_utf8`, which checks that the bytes are valid
/// UTF-8 and then hands the same bytes back as a string slice. Claimed, not
/// proved: it succeeds exactly on valid UTF-8, and the string it returns is
/// written by the bytes it was given.
#[verifier::external_body]
fn from_utf8(bytes: &[u8]) -> (text: Option<&str>)
    ensures
        text.is_some() == valid_utf8(bytes@),
        text.is_some() ==> bytes_of(text.unwrap()@) == bytes@,
{
    core::str::from_utf8(bytes).ok()
}

/// The kind of `value`, resolved from its tag.
pub fn value_type(value: &HostValue) -> (kind: ValueType)
    ensures
        kind == value@.value_type(),
        value@.wf(),
{
    proof {
        use_type_invariant(value);
    }
    ValueType::from_code(value.type_code).unwrap()
}

/// The text of `value`: what the host's text accessor points to, read up to
/// the first zero byte and decoded as UTF-8. A null has no text to read:
/// check the kind first.
pub fn value_text(value: &HostValue) -> (text: Result<&str, Error>)
    requires
        value@.value_type() != ValueType::Null,
    ensures
        match text_read(value@.data) {
            Ok(chars) => text.is_ok() && text.unwrap()@ == chars,
            Err(e) => text == Err::<&str, Error>(e),
        },
{
    let data = value.data.as_slice();
    let seen = match first_nul(data) {
        Some(at) => slice_subrange(data, 0, at),
        None => data,
    };
    assert(seen@ =~= until_nul(value@.data));
    match from_utf8(seen) {
        Some(text) => {
            proof {
                vstd::utf8::encode_utf8_decode_utf8(text@);
            }
            Ok(text)
        },
        None => Err(Error::Utf8DecodeFailure),
    }
}

/// The text of `value`, or the error `UnexpectedNull` where `value` is a
/// null.
pub fn value_text_notnull(value: &HostValue) -> (text: Result<&str, Error>)
    ensures
        value@.value_type() == ValueType::Null ==> text == Err::<&str, Error>(
            Error::UnexpectedNull,
        ),
        value@.value_type() != ValueType::Null ==> match text_read(value@.data) {
            Ok(chars) => text.is_ok() && text.unwrap()@ == chars,
            Err(e) => text == Err::<&str, Error>(e),
        },
{
    if value_type(value) == ValueType::Null {
        return Err(Error::UnexpectedNull);
    }
    value_text(value)
}

/// What the host's 32-bit integer accessor returns for `value`.
pub fn value_int(value: &HostValue) -> (i: i32)
    ensures
        i == value@.int32,
{
    value.int32
}

/// What the host's 64-bit integer accessor returns for `value`.
pub fn value_int64(value: &HostValue) -> (i: i64)
    ensures
        i == value@.int64,
{
    value.int64
}

/// The bits of what the host's floating-point accessor returns for `value`.
pub fn value_double(value: &HostValue) -> (bits: u64)
    ensures
        bits == value@.double,
{
    value.double
}

/// The bytes of `value`, as many as the host reports. A null has no bytes
/// to point to: check the kind first.
pub fn value_blob(value: &HostValue) -> (bytes: &[u8])
    requires
        value@.value_type() != ValueType::Null,
    ensures
        bytes@ == value@.data,
{
    value.data.as_slice()
}

/// The number of bytes of `value` that the host reports.
pub fn value_bytes(value: &HostValue) -> (n: i32)
    ensures
        n == value@.data.len(),
{
    proof {
        use_type_invariant(value);
    }
    value.data.len() as i32
}

/// One value of the host together with its kind, which is resolved once,
/// when the wrapper is made.
#[derive(Debug)]
pub struct Value<'a> {
    value: &'a HostValue,
    value_type: ValueType,
}

impl<'a> Value<'a> {
    /// What holds of every wrapper: the kind it keeps is the kind of its
    /// value.
    #[verifier::type_invariant]
    pub closed spec fn well_formed(&self) -> bool {
        self.value_type == self.value@.value_type()
    }

    /// The value that is wrapped.
    pub closed spec fn handle(&self) -> &HostValue {
        self.value
    }

    /// The kind that was resolved when the wrapper was made.
    pub closed spec fn kind(&self) -> ValueType {
        self.value_type
    }

    /// Wraps `value`, resolving its kind.
    pub fn from(value: &'a HostValue) -> (made: Result<Value<'a>, Error>)
        ensures
            made.is_ok(),
            made.unwrap().handle() == value,
            made.unwrap().kind() == value@.value_type(),
    {
        let value_type = value_type(value);
        Ok(Value { value, value_type })
    }

    /// Wraps the value at place `at` of `values`; `None` where there is no
    /// such place.
    pub fn at(values: &'a [HostValue], at: usize) -> (made: Option<Value<'a>>)
        ensures
            made.is_some() <==> at < values@.len(),
            made.is_some() ==> made.unwrap().handle() == &values@[at as int]
                && made.unwrap().kind() == values@[at as int]@.value_type(),
    {
        if at >= values.len() {
            return None;
        }
        let value = &values[at];
        let value_type = value_type(value);
        Some(Value { value, value_type })
    }

    /// The value that is wrapped.
    pub fn value(&self) -> (value: &'a HostValue)
        ensures
            value == self.handle(),
            self.kind() == value@.value_type(),
    {
        proof {
            use_type_invariant(self);
        }
        self.value
    }

    /// The kind of the value.
    pub fn value_type(&self) -> (kind: ValueType)
        ensures
            kind == self.kind(),
            kind == self.handle()@.value_type(),
    {
        proof {
            use_type_invariant(self);
        }
        self.value_type
    }

    /// `self` where the value is no null, the error `error` where it is.
    pub fn notnull_or(&self, error: Error) -> (checked: Result<&Self, Error>)
        ensures
            self.kind() != ValueType::Null ==> checked == Ok::<&Self, Error>(self),
            self.kind() == ValueType::Null ==> checked == Err::<&Self, Error>(error),
    {
        if self.value_type != ValueType::Null {
            Ok(self)
        } else {
            Err(error)
        }
    }

    /// `self` where the value is no null, the error that `err` makes where
    /// it is. `err` is called only for a null.
    pub fn notnull_or_else<F>(&self, err: F) -> (checked: Result<&Self, Error>) where
        F: FnOnce() -> Error,

        requires
            self.kind() == ValueType::Null ==> err.requires(()),
        ensures
            self.kind() != ValueType::Null ==> checked == Ok::<&Self, Error>(self),
            self.kind() == ValueType::Null ==> checked.is_err() && err.ensures(
                (),
                checked.unwrap_err(),
            ),
    {
        if self.value_type != ValueType::Null {
            Ok(self)
        } else {
            Err(err())
        }
    }

    /// The text of the value, or what `error` makes of the error where the
    /// text is no valid UTF-8. A null has no text to read: check with
    /// `notnull_or` first.
    pub fn text_or_else<F>(&self, error: F) -> (text: Result<&str, Error>) where
        F: FnOnce(Error) -> Error,

        requires
            self.kind() != ValueType::Null,
            text_read(self.handle()@.data).is_err() ==> error.requires(
                (Error::Utf8DecodeFailure,),
            ),
        ensures
            match text_read(self.handle()@.data) {
                Ok(chars) => text.is_ok() && text.unwrap()@ == chars,
                Err(e) => text.is_err() && error.ensures((e,), text.unwrap_err()),
            },
    {
        proof {
            use_type_invariant(self);
        }
        match value_text(self.value) {
            Ok(value) => Ok(value),
            Err(err) => Err(error(err)),
        }
    }
}

} // verus!
