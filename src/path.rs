//! UTF-8 path buffers: they expose the bytes of their text and delegate
//! rewriting to that text, so a rewrite is committed only when it is still
//! UTF-8.
use camino::Utf8PathBuf;
use vstd::prelude::*;
use vstd::utf8::{decode_utf8, encode_utf8, encode_utf8_valid_utf8, valid_utf8};

use crate::{Element, InvalidRepresentation, Visitor, VisitorMut};

verus! {

/// camino's owned UTF-8 path, carried as an opaque value; what it holds is
/// spoken of through `path_text`.
#[verifier::external_type_specification]
#[verifier::external_body]
pub struct ExUtf8PathBuf(camino::Utf8PathBuf);

/// The text a path buffer holds.
pub uninterp spec fn path_text(p: Utf8PathBuf) -> Seq<char>;

/// Relies on camino's `Utf8Path::as_str` (reached through `Deref`): it
/// borrows the path's text.
#[verifier::external_body]
fn path_str(p: &Utf8PathBuf) -> (r: &str)
    ensures
        r@ == path_text(*p),
{
    p.as_str()
}

/// Relies on camino's `From<String> for Utf8PathBuf`: the path holds the
/// string's text unchanged.
#[verifier::external_body]
fn path_from_string(s: String) -> (r: Utf8PathBuf)
    ensures
        path_text(r) == s@,
{
    Utf8PathBuf::from(s)
}

impl Element for Utf8PathBuf {
    open spec fn bytes(&self) -> Seq<u8> {
        encode_utf8(path_text(*self))
    }

    open spec fn admits(bytes: Seq<u8>) -> bool {
        valid_utf8(bytes)
    }

    proof fn lemma_bytes_admitted(&self) {
        encode_utf8_valid_utf8(path_text(*self));
    }

    fn accept<V: Visitor>(&self, visitor: &mut V) {
        visitor.visit_bytes(path_str(self).as_bytes());
    }

    /// Rewrites a copy of the path's text as a string; on failure the path is
    /// left as it was.
    fn accept_mut<V: VisitorMut>(&mut self, visitor: &mut V) -> (r: Result<(), InvalidRepresentation>)
        ensures
            r is Ok ==> exists|b: Seq<u8>|
                #[trigger] V::rewrites(old(visitor), encode_utf8(path_text(*old(self))), final(visitor), b)
                    && valid_utf8(b) && path_text(*final(self)) == decode_utf8(b),
            r is Err ==> *final(self) == *old(self),
    {
        let mut text = String::from_str(path_str(self));
        let r = text.accept_mut(visitor);
        if r.is_ok() {
            *self = path_from_string(text);
        }
        r
    }
}

} // verus!
