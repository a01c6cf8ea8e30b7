use sqlite_loadable::affinity::{ColumnAffinity, ExtendedColumnAffinity};

#[test]
fn empty_declared_type_is_blob() {
    assert_eq!(ColumnAffinity::from_declared_type(""), ColumnAffinity::Blob);
}

#[test]
fn whitespace_only_declared_type_is_blob() {
    assert_eq!(ColumnAffinity::from_declared_type("   "), ColumnAffinity::Blob);
    assert_eq!(ColumnAffinity::from_declared_type("\t\n"), ColumnAffinity::Blob);
}

#[test]
fn varchar_is_text() {
    assert_eq!(ColumnAffinity::from_declared_type("VARCHAR(255)"), ColumnAffinity::Text);
}

#[test]
fn double_is_real() {
    assert_eq!(ColumnAffinity::from_declared_type("DOUBLE"), ColumnAffinity::Real);
}

#[test]
fn unknown_declared_type_is_numeric() {
    assert_eq!(ColumnAffinity::from_declared_type("FOO"), ColumnAffinity::Numeric);
    assert_eq!(ColumnAffinity::from_declared_type("DECIMAL(10,5)"), ColumnAffinity::Numeric);
    assert_eq!(ColumnAffinity::from_declared_type("DATE"), ColumnAffinity::Numeric);
}

#[test]
fn int_beats_every_other_mark() {
    assert_eq!(ColumnAffinity::from_declared_type("integer text"), ColumnAffinity::Integer);
    assert_eq!(ColumnAffinity::from_declared_type("text integer"), ColumnAffinity::Integer);
    assert_eq!(ColumnAffinity::from_declared_type("char int real blob"), ColumnAffinity::Integer);
    assert_eq!(ColumnAffinity::from_declared_type("FLOATING POINT"), ColumnAffinity::Integer);
    assert_eq!(
        ExtendedColumnAffinity::extended_column_affinity_from_type("json integer"),
        ExtendedColumnAffinity::Integer
    );
}

#[test]
fn int_is_found_in_any_case_and_place() {
    for declared in ["INT", "Integer", "BIGINT", "tinyInt", "UNSIGNED BIG INT", "  int8  ", "xxintxx"] {
        assert_eq!(ColumnAffinity::from_declared_type(declared), ColumnAffinity::Integer);
    }
}

#[test]
fn text_marks() {
    for declared in ["CHARACTER(20)", "NCHAR(55)", "CLOB", "TEXT", "nvarchar(100)", " Text "] {
        assert_eq!(ColumnAffinity::from_declared_type(declared), ColumnAffinity::Text);
    }
}

#[test]
fn text_beats_blob_and_real() {
    assert_eq!(ColumnAffinity::from_declared_type("blob text"), ColumnAffinity::Text);
    assert_eq!(ColumnAffinity::from_declared_type("real clob"), ColumnAffinity::Text);
}

#[test]
fn blob_beats_real() {
    assert_eq!(ColumnAffinity::from_declared_type("BLOB"), ColumnAffinity::Blob);
    assert_eq!(ColumnAffinity::from_declared_type("double blob"), ColumnAffinity::Blob);
}

#[test]
fn real_marks() {
    for declared in ["REAL", "DOUBLE PRECISION", "FLOAT", "floa", "doub"] {
        assert_eq!(ColumnAffinity::from_declared_type(declared), ColumnAffinity::Real);
    }
}

#[test]
fn partial_marks_do_not_count() {
    assert_eq!(ColumnAffinity::from_declared_type("in"), ColumnAffinity::Numeric);
    assert_eq!(ColumnAffinity::from_declared_type("i n t"), ColumnAffinity::Numeric);
    assert_eq!(ColumnAffinity::from_declared_type("flo"), ColumnAffinity::Numeric);
    assert_eq!(ColumnAffinity::from_declared_type("tni"), ColumnAffinity::Numeric);
}

#[test]
fn lowered_type_is_searched_as_it_is() {
    assert_eq!(ColumnAffinity::from_lowered_type("int"), ColumnAffinity::Integer);
    assert_eq!(ColumnAffinity::from_lowered_type("INT"), ColumnAffinity::Numeric);
    assert_eq!(ColumnAffinity::from_lowered_type(" "), ColumnAffinity::Numeric);
    assert_eq!(ColumnAffinity::from_lowered_type(""), ColumnAffinity::Blob);
    assert_eq!(
        ExtendedColumnAffinity::from_lowered_type("JSON"),
        ExtendedColumnAffinity::Numeric
    );
}

#[test]
fn non_ascii_declared_types() {
    assert_eq!(ColumnAffinity::from_declared_type("ÉTÉ"), ColumnAffinity::Numeric);
    assert_eq!(ColumnAffinity::from_declared_type("ÜBERTEXT"), ColumnAffinity::Text);
    assert_eq!(ColumnAffinity::from_declared_type("\u{3000}blob\u{3000}"), ColumnAffinity::Blob);
    assert_eq!(ColumnAffinity::from_declared_type("\u{3000}"), ColumnAffinity::Blob);
}

#[test]
fn extended_affinity_keeps_the_plain_rules() {
    let e = ExtendedColumnAffinity::extended_column_affinity_from_type;
    assert_eq!(e("INTEGER"), ExtendedColumnAffinity::Integer);
    assert_eq!(e("VARCHAR(255)"), ExtendedColumnAffinity::Text);
    assert_eq!(e("BLOB"), ExtendedColumnAffinity::Blob);
    assert_eq!(e(""), ExtendedColumnAffinity::Blob);
    assert_eq!(e("DOUBLE"), ExtendedColumnAffinity::Real);
    assert_eq!(e("FOO"), ExtendedColumnAffinity::Numeric);
}

#[test]
fn extended_affinity_knows_json_and_boolean() {
    let e = ExtendedColumnAffinity::extended_column_affinity_from_type;
    assert_eq!(e("JSON"), ExtendedColumnAffinity::Json);
    assert_eq!(e("json"), ExtendedColumnAffinity::Json);
    assert_eq!(e("BOOLEAN"), ExtendedColumnAffinity::Boolean);
    assert_eq!(e("Boolean"), ExtendedColumnAffinity::Boolean);
    assert_eq!(e("bool"), ExtendedColumnAffinity::Numeric);
    assert_eq!(e("json boolean"), ExtendedColumnAffinity::Json);
    assert_eq!(e("jsonb real"), ExtendedColumnAffinity::Real);
    assert_eq!(e("datetime"), ExtendedColumnAffinity::Numeric);
}

#[test]
fn classification_is_the_same_on_every_call() {
    for declared in ["", "INT", "VARCHAR(255)", "DOUBLE", "FOO", "blob"] {
        assert_eq!(
            ColumnAffinity::from_declared_type(declared),
            ColumnAffinity::from_declared_type(declared)
        );
    }
}
