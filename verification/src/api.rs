//! Everything a function of an extension needs, under one path.

pub use crate::affinity::{Coerced, ColumnAffinity, ExtendedColumnAffinity};
pub use crate::auxdata::auxdata_set;
pub use crate::context::{Context, HostCall};
pub use crate::error::{Error, MprintfError};
pub use crate::json::{result_json, result_json_text};
pub use crate::mprintf::{mprintf, mprintf_allocated};
pub use crate::pointer::{result_pointer, value_pointer, TaggedPointer};
pub use crate::results::{
    result_blob, result_bool, result_double, result_error, result_error_code, result_int,
    result_int64, result_null, result_subtype, result_text,
};
pub use crate::value::{
    value_blob, value_bytes, value_double, value_int, value_int64, value_text,
    value_text_notnull, value_type, HostValue, Value, ValueType,
};
