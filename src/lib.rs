//! A visitor pattern over byte sequences, for rewriting bytes held in
//! heterogeneous containers (raw byte slices, strings, UTF-8 path buffers).
use vstd::prelude::*;

pub mod laws;
pub mod path;
pub mod raw;
pub mod text;

verus! {

/// The single failure of a mutating traversal: the visitor left bytes that
/// the element cannot hold (for text elements, bytes that are not UTF-8).
#[derive(Debug, Clone, Copy, PartialEq, Eq, Structural)]
pub struct InvalidRepresentation;

/// A read-only algorithm applied to the bytes an element exposes.
pub trait Visitor {
    /// How the visitor's state `next` follows from `self` after it handled
    /// `bytes`. A visitor that states nothing of itself keeps the default.
    open spec fn visits(&self, bytes: Seq<u8>, next: &Self) -> bool {
        true
    }

    fn visit_bytes(&mut self, bytes: &[u8])
        ensures
            Self::visits(old(self), bytes@, final(self)),
    ;
}

/// An algorithm that may rewrite, in place, the bytes an element exposes.
pub trait VisitorMut {
    /// How the visitor's state `next` and the rewritten bytes `after` follow
    /// from `self` after it handled `before`. A visitor that states nothing
    /// of itself keeps the default.
    open spec fn rewrites(&self, before: Seq<u8>, next: &Self, after: Seq<u8>) -> bool {
        true
    }

    fn visit_bytes(&mut self, bytes: &mut [u8])
        ensures
            Self::rewrites(old(self), old(bytes)@, final(self), final(bytes)@),
    ;
}

/// A value that exposes one byte region to visitors.
pub trait Element {
    /// The bytes this element exposes.
    spec fn bytes(&self) -> Seq<u8>;

    /// Whether this kind of element can hold `bytes` as its content.
    spec fn admits(bytes: Seq<u8>) -> bool;

    /// Every element's own bytes are admitted.
    proof fn lemma_bytes_admitted(&self)
        ensures
            Self::admits(self.bytes()),
    ;

    /// Hands the element's bytes to `visitor`, once.
    fn accept<V: Visitor>(&self, visitor: &mut V)
        ensures
            V::visits(old(visitor), self.bytes(), final(visitor)),
    ;

    /// Hands the element's bytes to `visitor`, once, for rewriting. The
    /// rewrite is committed when the element admits the result; otherwise
    /// the element keeps its content and the error is returned.
    fn accept_mut<V: VisitorMut>(&mut self, visitor: &mut V) -> (r: Result<(), InvalidRepresentation>)
        ensures
            rewritten(old(self).bytes(), *old(visitor), final(self).bytes(), *final(visitor), r, |b: Seq<u8>| Self::admits(b)),
    ;
}

/// The outcome of one mutating traversal: the visitor rewrote `before` into
/// some `b`; if `admits(b)` the element now holds `b`, else it still holds
/// `before` and the call failed.
pub open spec fn rewritten<V: VisitorMut>(
    before: Seq<u8>,
    visitor: V,
    after: Seq<u8>,
    visitor_after: V,
    r: Result<(), InvalidRepresentation>,
    admits: spec_fn(Seq<u8>) -> bool,
) -> bool {
    exists|b: Seq<u8>|
        #[trigger] V::rewrites(&visitor, before, &visitor_after, b) && if admits(b) {
            r is Ok && after == b
        } else {
            r is Err && after == before
        }
}

} // verus!
