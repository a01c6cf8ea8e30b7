//! Column affinity: which coercion a declared column type asks for, and what
//! a textual value becomes under it.

use vstd::prelude::*;
use crate::context::{Context, HostCallView};
use crate::error::Error;
use crate::number::{parse_i32, parse_i64, parsed_i32, parsed_i64};
use crate::results::{recorded, result_double, result_int, result_int64, result_text, text_call};
use crate::text::{
    bytes_of,
    chars_of,
    contains,
    contains_text,
    lowercased,
    to_lowercase,
    trim,
    trimmed,
};

verus! {

/// The affinity of a column: how a textual value is coerced on its way out.
#[derive(Clone, Copy, Debug, PartialEq, Eq, Structural)]
pub enum ColumnAffinity {
    /// Declared with "char", "clob" or "text".
    Text,
    /// Declared with "int".
    Integer,
    /// Declared with "real", "floa" or "doub".
    Real,
    /// Declared with "blob", or with nothing.
    Blob,
    /// Declared with anything else.
    Numeric,
}

/// The affinities with the kinds that the host does not know by itself.
#[derive(Clone, Copy, Debug, PartialEq, Eq, Structural)]
pub enum ExtendedColumnAffinity {
    /// Declared with "char", "clob" or "text".
    Text,
    /// Declared with "int".
    Integer,
    /// Declared with "real", "floa" or "doub".
    Real,
    /// Declared with "blob", or with nothing.
    Blob,
    /// Declared with "boolean".
    Boolean,
    /// Declared with "json".
    Json,
    /// A date and a time.
    Datetime,
    /// A date.
    Date,
    /// A time.
    Time,
    /// Declared with anything else.
    Numeric,
}

/// `lowered` holds one of the marks of text: "char", "clob", "text".
pub open spec fn has_text_mark(lowered: Seq<char>) -> bool {
    contains_text(lowered, "char"@) || contains_text(lowered, "clob"@) || contains_text(
        lowered,
        "text"@,
    )
}

/// `lowered` holds one of the marks of a real number: "real", "floa",
/// "doub".
pub open spec fn has_real_mark(lowered: Seq<char>) -> bool {
    contains_text(lowered, "real"@) || contains_text(lowered, "floa"@) || contains_text(
        lowered,
        "doub"@,
    )
}

/// The affinity of a declared type that is trimmed and in lowercase
/// already. The first rule that applies decides.
pub open spec fn affinity_of(lowered: Seq<char>) -> ColumnAffinity {
    if contains_text(lowered, "int"@) {
        ColumnAffinity::Integer
    } else if has_text_mark(lowered) {
        ColumnAffinity::Text
    } else if contains_text(lowered, "blob"@) || lowered.len() == 0 {
        ColumnAffinity::Blob
    } else if has_real_mark(lowered) {
        ColumnAffinity::Real
    } else {
        ColumnAffinity::Numeric
    }
}

/// The extended affinity of a declared type that is trimmed and in
/// lowercase already. The first rule that applies decides.
pub open spec fn extended_affinity_of(lowered: Seq<char>) -> ExtendedColumnAffinity {
    if contains_text(lowered, "int"@) {
        ExtendedColumnAffinity::Integer
    } else if has_text_mark(lowered) {
        ExtendedColumnAffinity::Text
    } else if contains_text(lowered, "blob"@) || lowered.len() == 0 {
        ExtendedColumnAffinity::Blob
    } else if has_real_mark(lowered) {
        ExtendedColumnAffinity::Real
    } else if contains_text(lowered, "json"@) {
        ExtendedColumnAffinity::Json
    } else if contains_text(lowered, "boolean"@) {
        ExtendedColumnAffinity::Boolean
    } else {
        ExtendedColumnAffinity::Numeric
    }
}

/// The form in which a declared type is searched: trimmed, then lowercase.
pub open spec fn normalized(declared_type: Seq<char>) -> Seq<char> {
    lowercased(trimmed(declared_type))
}

/// A declared type that holds "int", in whatever case, has integer
/// affinity, whatever else it holds: the rule for "int" comes first.
pub proof fn int_decides_first(declared_type: Seq<char>)
    requires
        contains_text(normalized(declared_type), "int"@),
    ensures
        affinity_of(normalized(declared_type)) == ColumnAffinity::Integer,
        extended_affinity_of(normalized(declared_type)) == ExtendedColumnAffinity::Integer,
{
}

/// The extended affinity is the plain one wherever the plain one is not
/// numeric: the extended kinds are told apart only among what is left.
pub proof fn extended_refines_plain(lowered: Seq<char>)
    ensures
        match affinity_of(lowered) {
            ColumnAffinity::Integer => extended_affinity_of(lowered)
                == ExtendedColumnAffinity::Integer,
            ColumnAffinity::Text => extended_affinity_of(lowered) == ExtendedColumnAffinity::Text,
            ColumnAffinity::Blob => extended_affinity_of(lowered) == ExtendedColumnAffinity::Blob,
            ColumnAffinity::Real => extended_affinity_of(lowered) == ExtendedColumnAffinity::Real,
            ColumnAffinity::Numeric => {
                ||| extended_affinity_of(lowered) == ExtendedColumnAffinity::Json
                ||| extended_affinity_of(lowered) == ExtendedColumnAffinity::Boolean
                ||| extended_affinity_of(lowered) == ExtendedColumnAffinity::Numeric
            },
        },
{
}

/// What a textual value becomes under an affinity.
#[derive(Clone, Copy, Debug, PartialEq, Eq, Structural)]
pub enum Coerced {
    /// An integer of 32 bits.
    Int(i32),
    /// An integer of 64 bits.
    Int64(i64),
    /// A floating-point number, by its bits.
    Double(u64),
    /// The text itself.
    Text,
}

impl ColumnAffinity {
    /// What the text `value` becomes under this affinity, where `double` is
    /// what `value` parses to as a floating-point number: the most specific
    /// number that the affinity allows, and else the text.
    pub open spec fn coerced(self, value: Seq<char>, double: Option<u64>) -> Coerced {
        match self {
            ColumnAffinity::Numeric => if parsed_i32(value).is_some() {
                Coerced::Int(parsed_i32(value).unwrap())
            } else if parsed_i64(value).is_some() {
                Coerced::Int64(parsed_i64(value).unwrap())
            } else if double.is_some() {
                Coerced::Double(double.unwrap())
            } else {
                Coerced::Text
            },
            ColumnAffinity::Integer => if parsed_i32(value).is_some() {
                Coerced::Int(parsed_i32(value).unwrap())
            } else if parsed_i64(value).is_some() {
                Coerced::Int64(parsed_i64(value).unwrap())
            } else {
                Coerced::Text
            },
            ColumnAffinity::Real => if double.is_some() {
                Coerced::Double(double.unwrap())
            } else {
                Coerced::Text
            },
            ColumnAffinity::Blob | ColumnAffinity::Text => Coerced::Text,
        }
    }

    /// The call by which `value` goes out under this affinity; an error
    /// where it goes out as text and the text may not cross.
    pub open spec fn coerced_call(self, value: Seq<char>, double: Option<u64>) -> Result<
        HostCallView,
        Error,
    > {
        match self.coerced(value, double) {
            Coerced::Int(i) => Ok(HostCallView::Int(i)),
            Coerced::Int64(i) => Ok(HostCallView::Int64(i)),
            Coerced::Double(bits) => Ok(HostCallView::Double(bits)),
            Coerced::Text => text_call(bytes_of(value)),
        }
    }

    /// The affinity of a declared type that is trimmed and in lowercase
    /// already.
    pub fn from_lowered_type(lowered: &str) -> (affinity: ColumnAffinity)
        ensures
            affinity == affinity_of(lowered@),
    {
        let chars = chars_of(lowered);
        if contains(&chars, "int") {
            ColumnAffinity::Integer
        } else if contains(&chars, "char") || contains(&chars, "clob") || contains(
            &chars,
            "text",
        ) {
            ColumnAffinity::Text
        } else if contains(&chars, "blob") || chars.len() == 0 {
            ColumnAffinity::Blob
        } else if contains(&chars, "real") || contains(&chars, "floa") || contains(
            &chars,
            "doub",
        ) {
            ColumnAffinity::Real
        } else {
            ColumnAffinity::Numeric
        }
    }

    /// The affinity of a column from the type it was declared with, by the
    /// host's rules: the declared type is trimmed and put in lowercase, and
    /// the first rule that applies to it decides.
    pub fn from_declared_type(declared_type: &str) -> (affinity: ColumnAffinity)
        ensures
            affinity == affinity_of(normalized(declared_type@)),
    {
        let lowered = to_lowercase(trim(declared_type));
        Self::from_lowered_type(lowered.as_str())
    }

    /// Decides what `value` becomes under this affinity. `double` is what
    /// `value` parses to as a floating-point number, by its bits, or `None`
    /// where it does not parse as one.
    pub fn coerce(&self, value: &str, double: Option<u64>) -> (coerced: Coerced)
        ensures
            coerced == self.coerced(value@, double),
    {
        match self {
            ColumnAffinity::Numeric => {
                if let Some(i) = parse_i32(value) {
                    Coerced::Int(i)
                } else if let Some(i) = parse_i64(value) {
                    Coerced::Int64(i)
                } else if let Some(bits) = double {
                    Coerced::Double(bits)
                } else {
                    Coerced::Text
                }
            },
            ColumnAffinity::Integer => {
                if let Some(i) = parse_i32(value) {
                    Coerced::Int(i)
                } else if let Some(i) = parse_i64(value) {
                    Coerced::Int64(i)
                } else {
                    Coerced::Text
                }
            },
            ColumnAffinity::Real => {
                if let Some(bits) = double {
                    Coerced::Double(bits)
                } else {
                    Coerced::Text
                }
            },
            ColumnAffinity::Blob | ColumnAffinity::Text => Coerced::Text,
        }
    }

    /// Sets the result to `value` under this affinity: as an integer of 32
    /// or of 64 bits, as a floating-point number, or as the text itself.
    /// `double` is what `value` parses to as a floating-point number, by its
    /// bits, or `None` where it does not parse as one. Fails, and writes
    /// nothing, only where `value` goes out as text and may not cross.
    pub fn result_text(&self, context: &mut Context, value: &str, double: Option<u64>) -> (outcome:
        Result<(), Error>)
        ensures
            recorded(
                old(context)@,
                self.coerced_call(value@, double),
                final(context)@,
                outcome,
            ),
    {
        match self.coerce(value, double) {
            Coerced::Int(i) => {
                result_int(context, i);
                Ok(())
            },
            Coerced::Int64(i) => {
                result_int64(context, i);
                Ok(())
            },
            Coerced::Double(bits) => {
                result_double(context, bits);
                Ok(())
            },
            Coerced::Text => result_text(context, value),
        }
    }
}

/// Under integer affinity nothing goes out as a floating-point number,
/// whatever the text and whatever it parses to as one.
pub proof fn integer_affinity_emits_no_double(value: Seq<char>, double: Option<u64>)
    ensures
        !(ColumnAffinity::Integer.coerced(value, double) is Double),
        !(ColumnAffinity::Integer.coerced_call(value, double) matches Ok(
            HostCallView::Double(_),
        )),
{
}

/// Under text and blob affinity every value goes out as the text it is.
pub proof fn text_and_blob_affinity_emit_text(value: Seq<char>, double: Option<u64>)
    ensures
        ColumnAffinity::Text.coerced(value, double) == Coerced::Text,
        ColumnAffinity::Blob.coerced(value, double) == Coerced::Text,
        ColumnAffinity::Text.coerced_call(value, double) == text_call(bytes_of(value)),
        ColumnAffinity::Blob.coerced_call(value, double) == text_call(bytes_of(value)),
{
}

/// A number goes out as 64 bits only where 32 bits cannot hold it.
pub proof fn widest_integer_last(affinity: ColumnAffinity, value: Seq<char>, double: Option<u64>)
    requires
        affinity.coerced(value, double) is Int64,
    ensures
        parsed_i32(value).is_none(),
        parsed_i64(value) == Some(affinity.coerced(value, double)->Int64_0),
        affinity.coerced(value, double)->Int64_0 < i32::MIN || affinity.coerced(
            value,
            double,
        )->Int64_0 > i32::MAX,
{
}

impl ExtendedColumnAffinity {
    /// The extended affinity of a declared type that is trimmed and in
    /// lowercase already.
    pub fn from_lowered_type(lowered: &str) -> (affinity: ExtendedColumnAffinity)
        ensures
            affinity == extended_affinity_of(lowered@),
    {
        let chars = chars_of(lowered);
        if contains(&chars, "int") {
            ExtendedColumnAffinity::Integer
        } else if contains(&chars, "char") || contains(&chars, "clob") || contains(
            &chars,
            "text",
        ) {
            ExtendedColumnAffinity::Text
        } else if contains(&chars, "blob") || chars.len() == 0 {
            ExtendedColumnAffinity::Blob
        } else if contains(&chars, "real") || contains(&chars, "floa") || contains(
            &chars,
            "doub",
        ) {
            ExtendedColumnAffinity::Real
        } else if contains(&chars, "json") {
            ExtendedColumnAffinity::Json
        } else if contains(&chars, "boolean") {
            ExtendedColumnAffinity::Boolean
        } else {
            ExtendedColumnAffinity::Numeric
        }
    }

    /// The extended affinity of a column from the type it was declared
    /// with: the declared type is trimmed and put in lowercase, and the
    /// first rule that applies to it decides.
    pub fn extended_column_affinity_from_type(declared_type: &str) -> (affinity:
        ExtendedColumnAffinity)
        ensures
            affinity == extended_affinity_of(normalized(declared_type@)),
    {
        let lowered = to_lowercase(trim(declared_type));
        Self::from_lowered_type(lowered.as_str())
    }
}

} // verus!
