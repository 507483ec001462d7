use vstd::prelude::*;
use vstd::utf8::{decode_utf8, valid_utf8};

verus! {

/// std's error for bytes that are not UTF-8.
#[verifier::external_type_specification]
#[verifier::external_body]
pub struct ExUtf8Error(std::str::Utf8Error);

/// What `String::from_utf8_lossy` makes of some bytes.
pub uninterp spec fn lossy_of(b: Seq<u8>) -> Seq<char>;

/// Relies on `std::str::from_utf8`: `Ok` exactly when the bytes are valid
/// UTF-8, and then the characters they encode.
#[verifier::external_body]
fn decode(b: &[u8]) -> (r: core::result::Result<String, std::str::Utf8Error>)
    ensures
        valid_utf8(b@) <==> r is Ok,
        r matches Ok(s) ==> s@ == decode_utf8(b@),
{
    match std::str::from_utf8(b) {
        Ok(s) => Ok(s.to_owned()),
        Err(e) => Err(e),
    }
}

/// Relies on `String::from_utf8_lossy`: valid UTF-8 is decoded as it is;
/// each invalid sequence becomes U+FFFD.
#[verifier::external_body]
fn decode_lossy(b: &[u8]) -> (r: String)
    ensures
        r@ == lossy_of(b@),
        valid_utf8(b@) ==> r@ == decode_utf8(b@),
{
    String::from_utf8_lossy(b).into_owned()
}

/// Strings that the native library hands out, as the bytes before their
/// closing NUL, decoded into owned strings.
pub trait ToStr {
    spec fn bytes(&self) -> Seq<u8>;

    /// The string, or the decoding error where the bytes are not UTF-8.
    fn to_str(&self) -> (r: core::result::Result<String, std::str::Utf8Error>)
        ensures
            valid_utf8(self.bytes()) <==> r is Ok,
            r matches Ok(s) ==> s@ == decode_utf8(self.bytes()),
    ;

    /// The string, with each invalid sequence replaced.
    fn to_string_lossy(&self) -> (r: String)
        ensures
            r@ == lossy_of(self.bytes()),
            valid_utf8(self.bytes()) ==> r@ == decode_utf8(self.bytes()),
    ;
}

impl ToStr for Vec<u8> {
    open spec fn bytes(&self) -> Seq<u8> {
        self@
    }

    fn to_str(&self) -> (r: core::result::Result<String, std::str::Utf8Error>) {
        decode(self.as_slice())
    }

    fn to_string_lossy(&self) -> (r: String) {
        decode_lossy(self.as_slice())
    }
}

/// An owned string made from native bytes, whatever they hold.
pub trait ToString: ToStr {
    fn to_string(&self) -> (r: String)
        ensures
            r@ == lossy_of(self.bytes()),
    ;
}

impl ToString for Vec<u8> {
    fn to_string(&self) -> (r: String) {
        self.to_string_lossy()
    }
}

} // verus!
