use sqlite_loadable::context::{Context, HostCall};
use sqlite_loadable::error::{Error, MprintfError};
use sqlite_loadable::mprintf::{mprintf, mprintf_allocated};
use sqlite_loadable::pointer::{names_match, result_pointer, value_pointer, TaggedPointer};

#[test]
fn pointer_comes_back_under_the_same_name() {
    let mut context = Context::new();
    let bound = result_pointer(&mut context, b"my_type\0", vec![1, 2, 3]);
    assert_eq!(context.calls(), &vec![HostCall::Pointer { name: b"my_type\0".to_vec() }]);
    assert_eq!(bound.tag(), b"my_type\0");
    assert_eq!(value_pointer(bound, b"my_type\0"), Some(Box::new(vec![1, 2, 3])));
}

#[test]
fn pointer_is_not_present_under_another_name() {
    let mut context = Context::new();
    let bound = result_pointer(&mut context, b"my_type\0", 7u64);
    assert_eq!(value_pointer(bound, b"other\0"), None);
    let bound = result_pointer(&mut context, b"my_type\0", 7u64);
    assert_eq!(value_pointer(bound, b"my_typ\0"), None);
    let bound = result_pointer(&mut context, b"my_type\0", 7u64);
    assert_eq!(value_pointer(bound, b"my_type2\0"), None);
    let bound = result_pointer(&mut context, b"my_type\0", 7u64);
    assert_eq!(value_pointer(bound, b"\0"), None);
}

#[test]
fn names_are_read_up_to_the_first_nul() {
    assert!(names_match(b"abc\0", b"abc\0"));
    assert!(names_match(b"abc\0def", b"abc\0xyz"));
    assert!(names_match(b"abc", b"abc\0"));
    assert!(names_match(b"", b"\0"));
    assert!(!names_match(b"abc\0", b"abd\0"));
    assert!(!names_match(b"abc\0", b"ab\0"));
    assert!(!names_match(b"\0abc", b"abc"));
    let bound = TaggedPointer::bind("payload".to_string(), b"name\0junk");
    assert_eq!(bound.reclaim(b"name\0"), Some(Box::new("payload".to_string())));
}

#[test]
fn binding_comes_apart_unchanged() {
    let bound = TaggedPointer::bind((1, 'x'), b"pair\0");
    let (name, object) = bound.into_parts();
    assert_eq!(name, b"pair\0".to_vec());
    assert_eq!(*object, (1, 'x'));
}

#[test]
fn mprintf_adds_the_terminating_nul() {
    assert_eq!(mprintf("hello"), Ok(b"hello\0".to_vec()));
    assert_eq!(mprintf(""), Ok(vec![0]));
    assert_eq!(mprintf("é"), Ok(vec![0xc3, 0xa9, 0]));
}

#[test]
fn mprintf_refuses_a_nul_byte() {
    assert_eq!(mprintf("he\0llo"), Err(MprintfError::Nul(2)));
    assert_eq!(mprintf("\0"), Err(MprintfError::Nul(0)));
}

#[test]
fn mprintf_without_memory_is_oom() {
    assert_eq!(mprintf_allocated(0), Err(MprintfError::Oom));
    assert_eq!(mprintf_allocated(0x7f00_1000), Ok(0x7f00_1000));
    assert_eq!(mprintf_allocated(usize::MAX), Ok(usize::MAX));
}

#[test]
fn mprintf_errors_as_general_errors() {
    assert_eq!(MprintfError::Nul(4).into_error(), Error::NulByteInSource { position: 4 });
    assert_eq!(MprintfError::Oom.into_error(), Error::AllocationFailure);
}
