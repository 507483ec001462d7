use notmuch::{ToStr, ToString};

#[test]
fn valid_bytes_decode() {
    let b = "Test mail".as_bytes().to_vec();
    assert_eq!(b.to_str().unwrap(), "Test mail");
    assert_eq!(ToStr::to_string_lossy(&b), "Test mail");
    assert_eq!(ToString::to_string(&b), "Test mail");
}

#[test]
fn invalid_bytes_are_a_decoding_failure() {
    let b = vec![b'a', 0xff, b'b'];
    assert!(b.to_str().is_err());
    assert_eq!(ToStr::to_string_lossy(&b), "a\u{fffd}b");
    assert_eq!(ToString::to_string(&b), "a\u{fffd}b");
}
