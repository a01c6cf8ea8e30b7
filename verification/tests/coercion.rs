use sqlite_loadable::affinity::{Coerced, ColumnAffinity};
use sqlite_loadable::context::{Context, HostCall};
use sqlite_loadable::error::Error;

fn double_of(text: &str) -> Option<u64> {
    text.parse::<f64>().ok().map(f64::to_bits)
}

fn emitted(affinity: ColumnAffinity, text: &str) -> HostCall {
    let mut context = Context::new();
    affinity.result_text(&mut context, text, double_of(text)).unwrap();
    assert_eq!(context.calls().len(), 1);
    let mut calls = context.into_calls();
    calls.pop().unwrap()
}

fn text_call(text: &str) -> HostCall {
    HostCall::Text { bytes: text.as_bytes().to_vec(), len: text.len() as i32 }
}

#[test]
fn numeric_affinity_emits_int_for_42() {
    assert_eq!(emitted(ColumnAffinity::Numeric, "42"), HostCall::Int(42));
}

#[test]
fn numeric_affinity_emits_int64_beyond_32_bits() {
    assert_eq!(emitted(ColumnAffinity::Numeric, "9999999999"), HostCall::Int64(9999999999));
}

#[test]
fn numeric_affinity_emits_double_for_fraction() {
    match emitted(ColumnAffinity::Numeric, "3.14") {
        HostCall::Double(bits) => assert_eq!(f64::from_bits(bits), 3.14),
        other => panic!("expected a double, got {:?}", other),
    }
}

#[test]
fn numeric_affinity_falls_back_to_text() {
    assert_eq!(emitted(ColumnAffinity::Numeric, "abc"), text_call("abc"));
}

#[test]
fn integer_affinity_never_emits_double() {
    assert_eq!(emitted(ColumnAffinity::Integer, "3.14"), text_call("3.14"));
    assert_eq!(emitted(ColumnAffinity::Integer, "1e5"), text_call("1e5"));
    assert_eq!(
        ColumnAffinity::Integer.coerce("3.14", Some(3.14f64.to_bits())),
        Coerced::Text
    );
}

#[test]
fn integer_affinity_emits_integers() {
    assert_eq!(emitted(ColumnAffinity::Integer, "42"), HostCall::Int(42));
    assert_eq!(emitted(ColumnAffinity::Integer, "-7"), HostCall::Int(-7));
    assert_eq!(emitted(ColumnAffinity::Integer, "9999999999"), HostCall::Int64(9999999999));
    assert_eq!(emitted(ColumnAffinity::Integer, "abc"), text_call("abc"));
}

#[test]
fn real_affinity_emits_double_even_for_integers() {
    match emitted(ColumnAffinity::Real, "42") {
        HostCall::Double(bits) => assert_eq!(f64::from_bits(bits), 42.0),
        other => panic!("expected a double, got {:?}", other),
    }
    match emitted(ColumnAffinity::Real, "2.5") {
        HostCall::Double(bits) => assert_eq!(f64::from_bits(bits), 2.5),
        other => panic!("expected a double, got {:?}", other),
    }
    assert_eq!(emitted(ColumnAffinity::Real, "abc"), text_call("abc"));
}

#[test]
fn text_and_blob_affinity_emit_text_verbatim() {
    assert_eq!(emitted(ColumnAffinity::Text, "42"), text_call("42"));
    assert_eq!(emitted(ColumnAffinity::Blob, "42"), text_call("42"));
    assert_eq!(emitted(ColumnAffinity::Text, "3.14"), text_call("3.14"));
    assert_eq!(emitted(ColumnAffinity::Blob, ""), text_call(""));
}

#[test]
fn the_bounds_of_32_bits() {
    assert_eq!(emitted(ColumnAffinity::Numeric, "2147483647"), HostCall::Int(i32::MAX));
    assert_eq!(emitted(ColumnAffinity::Numeric, "2147483648"), HostCall::Int64(2147483648));
    assert_eq!(emitted(ColumnAffinity::Numeric, "-2147483648"), HostCall::Int(i32::MIN));
    assert_eq!(emitted(ColumnAffinity::Numeric, "-2147483649"), HostCall::Int64(-2147483649));
}

#[test]
fn the_bounds_of_64_bits() {
    assert_eq!(
        emitted(ColumnAffinity::Numeric, "9223372036854775807"),
        HostCall::Int64(i64::MAX)
    );
    assert_eq!(
        emitted(ColumnAffinity::Numeric, "-9223372036854775808"),
        HostCall::Int64(i64::MIN)
    );
    match emitted(ColumnAffinity::Numeric, "9223372036854775808") {
        HostCall::Double(bits) => assert_eq!(f64::from_bits(bits), 9223372036854775808.0),
        other => panic!("expected a double, got {:?}", other),
    }
    assert_eq!(
        emitted(ColumnAffinity::Integer, "9223372036854775808"),
        text_call("9223372036854775808")
    );
}

#[test]
fn parsing_is_strict() {
    assert_eq!(emitted(ColumnAffinity::Numeric, " 42"), text_call(" 42"));
    assert_eq!(emitted(ColumnAffinity::Numeric, "42 "), text_call("42 "));
    assert_eq!(emitted(ColumnAffinity::Numeric, "42abc"), text_call("42abc"));
    assert_eq!(emitted(ColumnAffinity::Numeric, ""), text_call(""));
    assert_eq!(emitted(ColumnAffinity::Integer, "4 2"), text_call("4 2"));
}

#[test]
fn the_double_that_is_handed_in_decides_the_real_tier() {
    assert_eq!(ColumnAffinity::Numeric.coerce("abc", None), Coerced::Text);
    assert_eq!(ColumnAffinity::Numeric.coerce("abc", Some(5)), Coerced::Double(5));
    assert_eq!(ColumnAffinity::Numeric.coerce("12", Some(5)), Coerced::Int(12));
    assert_eq!(ColumnAffinity::Real.coerce("12", Some(5)), Coerced::Double(5));
    assert_eq!(ColumnAffinity::Real.coerce("12", None), Coerced::Text);
    assert_eq!(ColumnAffinity::Text.coerce("12", Some(5)), Coerced::Text);
    assert_eq!(ColumnAffinity::Blob.coerce("12", Some(5)), Coerced::Text);
}

#[test]
fn text_fallback_reports_a_nul_byte() {
    let mut context = Context::new();
    let outcome = ColumnAffinity::Numeric.result_text(&mut context, "ab\0c", None);
    assert_eq!(outcome, Err(Error::NulByteInSource { position: 2 }));
    assert!(context.calls().is_empty());
}
