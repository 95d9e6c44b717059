//! Raw byte slices: their content is their byte representation.
use vstd::prelude::*;

use crate::{Element, InvalidRepresentation, Visitor, VisitorMut};

verus! {

impl Element for [u8] {
    open spec fn bytes(&self) -> Seq<u8> {
        self@
    }

    open spec fn admits(bytes: Seq<u8>) -> bool {
        true
    }

    proof fn lemma_bytes_admitted(&self) {
    }

    fn accept<V: Visitor>(&self, visitor: &mut V)
        ensures
            V::visits(old(visitor), self@, final(visitor)),
    {
        visitor.visit_bytes(self);
    }

    /// Always succeeds: the slice holds exactly what the visitor wrote.
    fn accept_mut<V: VisitorMut>(&mut self, visitor: &mut V) -> (r: Result<(), InvalidRepresentation>)
        ensures
            r is Ok,
            V::rewrites(old(visitor), old(self)@, final(visitor), final(self)@),
    {
        visitor.visit_bytes(self);
        Ok(())
    }
}

} // verus!
