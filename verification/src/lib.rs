//! Typed, checked marshalling between an extension and the SQLite host that
//! loads it: what the host hands in is read as plain values, what goes back
//! is recorded as the calls that the host is to receive.

pub mod affinity;
pub mod api;
pub mod auxdata;
pub mod context;
pub mod error;
pub mod json;
pub mod laws;
pub mod mprintf;
pub mod number;
pub mod pointer;
pub mod results;
pub mod text;
pub mod value;
