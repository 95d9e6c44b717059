//! Strings: their byte representation is their UTF-8 encoding, and a
//! rewrite is committed only when it is still UTF-8.
use vstd::prelude::*;
use vstd::slice::slice_to_vec;
use vstd::utf8::{decode_utf8, decode_utf8_encode_utf8, encode_utf8, encode_utf8_valid_utf8, valid_utf8};

use crate::{Element, InvalidRepresentation, Visitor, VisitorMut};

verus! {

/// The error of std's `String::from_utf8`, carried as an opaque value.
#[verifier::external_type_specification]
#[verifier::external_body]
pub struct ExFromUtf8Error(std::string::FromUtf8Error);

/// Relies on String::from_utf8: it succeeds exactly on valid UTF-8, and the
/// string it then returns holds the characters those bytes encode.
pub assume_specification[ String::from_utf8 ](vec: Vec<u8>) -> (r: Result<String, std::string::FromUtf8Error>)
    ensures
        r is Ok <==> valid_utf8(vec@),
        r is Ok ==> r->Ok_0@ == decode_utf8(vec@),
;

impl Element for String {
    open spec fn bytes(&self) -> Seq<u8> {
        encode_utf8(self@)
    }

    open spec fn admits(bytes: Seq<u8>) -> bool {
        valid_utf8(bytes)
    }

    proof fn lemma_bytes_admitted(&self) {
        encode_utf8_valid_utf8(self@);
    }

    fn accept<V: Visitor>(&self, visitor: &mut V) {
        visitor.visit_bytes(self.as_str().as_bytes());
    }

    /// The visitor works on a scratch copy; on failure the string is left
    /// as it was.
    fn accept_mut<V: VisitorMut>(&mut self, visitor: &mut V) -> (r: Result<(), InvalidRepresentation>)
        ensures
            r is Ok ==> exists|b: Seq<u8>|
                #[trigger] V::rewrites(old(visitor), encode_utf8(old(self)@), final(visitor), b)
                    && valid_utf8(b) && final(self)@ == decode_utf8(b),
            r is Err ==> *final(self) == *old(self),
    {
        let mut scratch = slice_to_vec(self.as_str().as_bytes());
        visitor.visit_bytes(scratch.as_mut_slice());
        let ghost rewritten_bytes = scratch@;
        assert(V::rewrites(old(visitor), old(self).bytes(), visitor, rewritten_bytes));
        match String::from_utf8(scratch) {
            Ok(s) => {
                proof {
                    decode_utf8_encode_utf8(rewritten_bytes);
                }
                *self = s;
                Ok(())
            },
            Err(_) => Err(InvalidRepresentation),
        }
    }
}

} // verus!
