//! Moving socket data out to the module: the chunks it goes in, and the
//! check of the module's answer to each.

use super::Error;
use crate::socket::Handle;
use vstd::prelude::*;

verus! {

/// The most bytes written to the module in one command.
pub const EGRESS_CHUNK_SIZE: usize = 1024;

/// Whether `chunks` cut `len` bytes into consecutive ranges `(start, end)`
/// that cover them in order: full chunks of [EGRESS_CHUNK_SIZE] bytes and a
/// last one of the rest (no chunk at all for no data).
pub open spec fn chunks_of(len: usize, chunks: Seq<(usize, usize)>) -> bool {
    &&& (len == 0 <==> chunks.len() == 0)
    &&& chunks.len() > 0 ==> chunks[0].0 == 0 && chunks.last().1 == len
    &&& forall|i: int| 0 <= i < chunks.len() ==> 0 < #[trigger] chunks[i].1 - chunks[i].0 <= EGRESS_CHUNK_SIZE
    &&& forall|i: int| 0 <= i < chunks.len() - 1 ==> #[trigger] chunks[i].1 == chunks[i + 1].0
    &&& forall|i: int| 0 <= i < chunks.len() - 1 ==> #[trigger] chunks[i].1 - chunks[i].0 == EGRESS_CHUNK_SIZE
}

/// The chunks that `len` bytes of data are written in.
pub fn egress_chunks(len: usize) -> (r: Vec<(usize, usize)>)
    ensures
        chunks_of(len, r@),
{
    let mut r: Vec<(usize, usize)> = Vec::new();
    let mut start: usize = 0;
    while start < len
        invariant
            start <= len,
            r@.len() == 0 <==> start == 0,
            r@.len() > 0 ==> r@[0].0 == 0 && r@.last().1 == start,
            forall|i: int| 0 <= i < r@.len() ==> 0 < #[trigger] r@[i].1 - r@[i].0 <= EGRESS_CHUNK_SIZE,
            forall|i: int| 0 <= i < r@.len() - 1 ==> #[trigger] r@[i].1 == r@[i + 1].0,
            forall|i: int| 0 <= i < r@.len() - 1 ==> #[trigger] r@[i].1 - r@[i].0 == EGRESS_CHUNK_SIZE,
            r@.len() > 0 && start < len ==> r@.last().1 - r@.last().0 == EGRESS_CHUNK_SIZE,
        decreases len - start,
    {
        let end = if len - start > EGRESS_CHUNK_SIZE {
            start + EGRESS_CHUNK_SIZE
        } else {
            len
        };
        let ghost before = r@;
        r.push((start, end));
        proof {
            assert forall|i: int| 0 <= i < r@.len() - 1 implies #[trigger] r@[i].1 == r@[i + 1].0 by {
                if i < before.len() - 1 {
                    assert(r@[i] == before[i] && r@[i + 1] == before[i + 1]);
                }
            }
            assert forall|i: int| 0 <= i < r@.len() - 1 implies #[trigger] r@[i].1 - r@[i].0 == EGRESS_CHUNK_SIZE by {
                assert(r@[i] == before[i]);
            }
        }
        start = end;
    }
    r
}

/// Check the module's answer to the write of a chunk of `chunk_len` bytes on
/// `socket`: it must report that many bytes (else `Err(Error::BadLength)`),
/// written on that socket (else `Err(Error::WrongSocketType)`).
pub fn check_write_reply(socket: Handle, chunk_len: usize, reply_socket: Handle, reply_len: usize) -> (r: Result<
    (),
    Error,
>)
    ensures
        reply_len != chunk_len ==> r == Err::<(), Error>(Error::BadLength),
        reply_len == chunk_len && reply_socket != socket ==> r == Err::<(), Error>(Error::WrongSocketType),
        reply_len == chunk_len && reply_socket == socket ==> r is Ok,
{
    if reply_len != chunk_len {
        return Err(Error::BadLength);
    }
    if reply_socket != socket {
        return Err(Error::WrongSocketType);
    }
    Ok(())
}

/// The chunks of a write follow one another with no gap and no overlap, so
/// together they are the whole data: chunk `i` starts `i` full chunks in.
pub proof fn lemma_chunks_cover_the_data(len: usize, chunks: Seq<(usize, usize)>, i: int)
    requires
        chunks_of(len, chunks),
        0 <= i < chunks.len(),
    ensures
        chunks[i].0 == i * EGRESS_CHUNK_SIZE,
        chunks[i].1 <= len,
    decreases i,
{
    if i > 0 {
        lemma_chunks_cover_the_data(len, chunks, i - 1);
        assert(chunks[i - 1].1 == chunks[i].0);
    }
    lemma_chunk_end_bounded(len, chunks, i);
}

proof fn lemma_chunk_end_bounded(len: usize, chunks: Seq<(usize, usize)>, i: int)
    requires
        chunks_of(len, chunks),
        0 <= i < chunks.len(),
    ensures
        chunks[i].1 <= len,
    decreases chunks.len() - i,
{
    if i < chunks.len() - 1 {
        lemma_chunk_end_bounded(len, chunks, i + 1);
        assert(chunks[i].1 == chunks[i + 1].0);
        assert(0 < chunks[i + 1].1 - chunks[i + 1].0);
    }
}

} // verus!
