//! The spec-level model of a chunked byte stream.
//!
//! Both the raster assembler and the compressor sink accept bytes in
//! chunks and promise that each chunk is appended exactly. This module
//! names the resulting byte stream - the fold of concatenation over the
//! chunks - and relates it to the flat concatenation, so that laws about
//! chunking can be stated once.

use vstd::prelude::*;

verus! {

/// The byte stream accepted after the given chunks arrive in order: each
/// accepted chunk is appended exactly, so this is the fold of
/// concatenation over the chunks.
pub open spec fn fed_bytes(chunks: Seq<Seq<u8>>) -> Seq<u8>
    decreases chunks.len(),
{
    if chunks.len() == 0 {
        Seq::<u8>::empty()
    } else {
        fed_bytes(chunks.drop_last()) + chunks.last()
    }
}

/// Feeding chunks accumulates exactly their concatenation.
pub proof fn lemma_fed_bytes_is_flatten(chunks: Seq<Seq<u8>>)
    ensures
        fed_bytes(chunks) == chunks.flatten(),
    decreases chunks.len(),
{
    if chunks.len() == 0 {
        assert(fed_bytes(chunks) =~= chunks.flatten());
    } else {
        lemma_fed_bytes_is_flatten(chunks.drop_last());
        chunks.lemma_flatten_and_flatten_alt_are_equivalent();
        chunks.drop_last().lemma_flatten_and_flatten_alt_are_equivalent();
    }
}

/// Feeding one more chunk appends exactly that chunk.
pub proof fn lemma_fed_bytes_take_step(chunks: Seq<Seq<u8>>, i: int)
    requires
        0 <= i < chunks.len(),
    ensures
        fed_bytes(chunks.take(i + 1)) == fed_bytes(chunks.take(i)) + chunks[i],
{
    assert(chunks.take(i + 1).drop_last() =~= chunks.take(i));
    assert(chunks.take(i + 1).last() == chunks[i]);
}

/// Taking the whole sequence changes nothing.
pub proof fn lemma_fed_bytes_take_all(chunks: Seq<Seq<u8>>)
    ensures
        fed_bytes(chunks.take(chunks.len() as int)) == fed_bytes(chunks),
{
    assert(chunks.take(chunks.len() as int) =~= chunks);
}

} // verus!
