use notmuch::{c_string, c_string_opt, path_argument, split_string, Error, Status};

#[test]
fn c_string_adds_nul() {
    assert_eq!(c_string("tag"), Some(vec![b't', b'a', b'g', 0]));
    assert_eq!(c_string(""), Some(vec![0]));
    assert_eq!(c_string("a\0b"), None);
    assert_eq!(c_string("é"), Some(vec![0xc3, 0xa9, 0]));
}

#[test]
fn optional_c_string() {
    assert_eq!(c_string_opt(None), Some(None));
    assert_eq!(c_string_opt(Some("x")), Some(Some(vec![b'x', 0])));
    assert_eq!(c_string_opt(Some("\0")), None);
}

#[test]
fn path_arguments() {
    assert_eq!(path_argument(Some("/tmp/m")).unwrap(), b"/tmp/m\0".to_vec());
    assert!(matches!(path_argument(None), Err(Error::NotmuchError(Status::FileError))));
    assert!(matches!(path_argument(Some("a\0")), Err(Error::NotmuchError(Status::FileError))));
}

#[test]
fn split_like_str_split() {
    assert_eq!(split_string("a,b", ','), vec!["a", "b"]);
    assert_eq!(split_string("", ','), vec![""]);
    assert_eq!(split_string("a,", ','), vec!["a", ""]);
    assert_eq!(split_string(",,x", ','), vec!["", "", "x"]);
    assert_eq!(split_string("Ünïcode, ok", ','), vec!["Ünïcode", " ok"]);
}
