use vstd::prelude::*;
use vstd::string::StringSliceAdditionalSpecFns;
use vstd::utf8::{decode_utf8, valid_utf8};

use crate::model::WrapError;

verus! {

broadcast use vstd::utf8::group_utf8_lib;

/// Relies on `std::str::from_utf8`: it accepts exactly the well-formed UTF-8 byte sequences,
/// and the text it hands back is made of those same bytes.
#[verifier::external_body]
fn utf8_text(bytes: &[u8]) -> (r: Option<&str>)
    ensures
        r is Some <==> valid_utf8(bytes@),
        r matches Some(s) ==> s.spec_bytes() == bytes@,
{
    std::str::from_utf8(bytes).ok()
}

/// Reads a path, held as the bytes of an OS string, as text.
pub trait ToUtf8 {
    /// The bytes of the path.
    spec fn path_bytes(&self) -> Seq<u8>;

    fn to_utf8(&self) -> (r: Result<&str, WrapError>)
        ensures
            r is Ok <==> valid_utf8(self.path_bytes()),
            r matches Ok(s) ==> s@ == decode_utf8(self.path_bytes()) && s.spec_bytes()
                == self.path_bytes(),
            r matches Err(e) ==> e == WrapError::InvalidPath,
    ;
}

impl ToUtf8 for [u8] {
    open spec fn path_bytes(&self) -> Seq<u8> {
        self@
    }

    fn to_utf8(&self) -> (r: Result<&str, WrapError>) {
        match utf8_text(self) {
            Some(s) => {
                proof {
                    vstd::utf8::encode_utf8_decode_utf8(s@);
                }
                Ok(s)
            },
            None => Err(WrapError::InvalidPath),
        }
    }
}

impl ToUtf8 for Vec<u8> {
    open spec fn path_bytes(&self) -> Seq<u8> {
        self@
    }

    fn to_utf8(&self) -> (r: Result<&str, WrapError>) {
        self.as_slice().to_utf8()
    }
}

} // verus!
