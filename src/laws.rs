//! What holds of every traversal, whatever the visitor.
use camino::Utf8PathBuf;
use vstd::prelude::*;
use vstd::utf8::{decode_utf8, encode_utf8_decode_utf8, valid_utf8};

use crate::path::path_text;
use crate::{rewritten, Element, InvalidRepresentation, Visitor, VisitorMut};

verus! {

/// A visitor that never alters the bytes it is handed (it may still update
/// its own state).
pub open spec fn leaves_bytes<V: VisitorMut>(v: V) -> bool {
    forall|before: Seq<u8>, next: V, after: Seq<u8>|
        #[trigger] V::rewrites(&v, before, &next, after) ==> after == before
}

/// Round trip: a mutating traversal with a visitor that leaves bytes alone
/// succeeds and leaves the element's bytes exactly as they were.
pub proof fn lemma_identity_rewrite<E: Element + ?Sized, V: VisitorMut>(
    e: &E,
    v: V,
    after: Seq<u8>,
    v_after: V,
    r: Result<(), InvalidRepresentation>,
)
    requires
        leaves_bytes(v),
        rewritten(e.bytes(), v, after, v_after, r, |b: Seq<u8>| E::admits(b)),
    ensures
        r is Ok,
        after == e.bytes(),
{
    e.lemma_bytes_admitted();
}

/// A raw byte slice hands its visitor exactly its own content.
pub proof fn lemma_raw_visit_sees_content<V: Visitor>(b: &[u8], v: V, v_after: V)
    requires
        V::visits(&v, b.bytes(), &v_after),
    ensures
        V::visits(&v, b@, &v_after),
{
}

/// A raw byte slice commits whatever its visitor writes: the traversal
/// succeeds and the slice holds the visitor's output.
pub proof fn lemma_raw_rewrite_commits<V: VisitorMut>(
    b: &[u8],
    v: V,
    after: Seq<u8>,
    v_after: V,
    r: Result<(), InvalidRepresentation>,
)
    requires
        rewritten(b.bytes(), v, after, v_after, r, |x: Seq<u8>| <[u8] as Element>::admits(x)),
    ensures
        r is Ok,
        V::rewrites(&v, b@, &v_after, after),
{
}

/// A visitor that, handed `before` in state `v`, always writes valid UTF-8.
pub open spec fn keeps_utf8<V: VisitorMut>(v: V, before: Seq<u8>) -> bool {
    forall|next: V, after: Seq<u8>| #[trigger] V::rewrites(&v, before, &next, after) ==> valid_utf8(after)
}

/// A visitor that, handed `before` in state `v`, never writes valid UTF-8.
pub open spec fn breaks_utf8<V: VisitorMut>(v: V, before: Seq<u8>) -> bool {
    forall|next: V, after: Seq<u8>| #[trigger] V::rewrites(&v, before, &next, after) ==> !valid_utf8(after)
}

/// A string rewritten into valid UTF-8 is committed: the traversal succeeds
/// and the new text is the decoding of the visitor's output.
pub proof fn lemma_text_rewrite_commits<V: VisitorMut>(
    s: String,
    v: V,
    s_after: String,
    v_after: V,
    r: Result<(), InvalidRepresentation>,
)
    requires
        keeps_utf8(v, s.bytes()),
        rewritten(s.bytes(), v, s_after.bytes(), v_after, r, |b: Seq<u8>| <String as Element>::admits(b)),
    ensures
        r is Ok,
        exists|b: Seq<u8>| #[trigger] V::rewrites(&v, s.bytes(), &v_after, b) && s_after@ == decode_utf8(b),
{
    encode_utf8_decode_utf8(s_after@);
}

/// A string rewritten into bytes that are not UTF-8 is not changed: the
/// traversal fails and the text stays as it was.
pub proof fn lemma_text_rewrite_rejected<V: VisitorMut>(
    s: String,
    v: V,
    s_after: String,
    v_after: V,
    r: Result<(), InvalidRepresentation>,
)
    requires
        breaks_utf8(v, s.bytes()),
        rewritten(s.bytes(), v, s_after.bytes(), v_after, r, |b: Seq<u8>| <String as Element>::admits(b)),
    ensures
        r is Err,
        s_after@ == s@,
{
    encode_utf8_decode_utf8(s@);
    encode_utf8_decode_utf8(s_after@);
}

/// A path rewritten into valid UTF-8 is committed: the traversal succeeds
/// and the new path text is the decoding of the visitor's output.
pub proof fn lemma_path_rewrite_commits<V: VisitorMut>(
    p: Utf8PathBuf,
    v: V,
    p_after: Utf8PathBuf,
    v_after: V,
    r: Result<(), InvalidRepresentation>,
)
    requires
        keeps_utf8(v, p.bytes()),
        rewritten(p.bytes(), v, p_after.bytes(), v_after, r, |b: Seq<u8>| <Utf8PathBuf as Element>::admits(b)),
    ensures
        r is Ok,
        exists|b: Seq<u8>| #[trigger] V::rewrites(&v, p.bytes(), &v_after, b) && path_text(p_after) == decode_utf8(b),
{
    encode_utf8_decode_utf8(path_text(p_after));
}

/// A path rewritten into bytes that are not UTF-8 is not changed: the
/// traversal fails and the path text stays as it was.
pub proof fn lemma_path_rewrite_rejected<V: VisitorMut>(
    p: Utf8PathBuf,
    v: V,
    p_after: Utf8PathBuf,
    v_after: V,
    r: Result<(), InvalidRepresentation>,
)
    requires
        breaks_utf8(v, p.bytes()),
        rewritten(p.bytes(), v, p_after.bytes(), v_after, r, |b: Seq<u8>| <Utf8PathBuf as Element>::admits(b)),
    ensures
        r is Err,
        path_text(p_after) == path_text(p),
{
    encode_utf8_decode_utf8(path_text(p));
    encode_utf8_decode_utf8(path_text(p_after));
}

} // verus!
