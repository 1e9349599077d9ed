//! Splitting a write request into page-program chunks that never cross a page.
use vstd::prelude::*;

use crate::command::{ADDRESS_LIMIT, MEMORY_PAGE_SIZE};

verus! {

/// One page-program operation: `len` bytes taken from `offset` in the source
/// buffer, programmed at device address `address`.
#[derive(Clone, Copy, Debug, PartialEq, Eq)]
pub struct PageChunk {
    pub address: u32,
    pub offset: usize,
    pub len: usize,
}

/// Offset of an address within its page.
pub open spec fn page_offset(address: int) -> int {
    address % (MEMORY_PAGE_SIZE as int)
}

/// The chunk is non-empty, starts `offset` bytes after `start` and stays in one page.
pub open spec fn chunk_in_page(start: int, c: PageChunk) -> bool {
    &&& c.len >= 1
    &&& c.address == start + c.offset
    &&& page_offset(c.address as int) + c.len <= MEMORY_PAGE_SIZE
}

/// The chunk runs up to the end of its page.
pub open spec fn chunk_fills_page(c: PageChunk) -> bool {
    page_offset(c.address as int) + c.len == MEMORY_PAGE_SIZE
}

/// Chunk `i + 1` starts in the source buffer where chunk `i` ends.
pub open spec fn follows(chunks: Seq<PageChunk>, i: int) -> bool {
    chunks[i + 1].offset == chunks[i].offset + chunks[i].len
}

/// `chunks` cover `[start, start + n)` in order, one page at a time, each
/// chunk clipped only by the end of its page or the end of the request.
pub open spec fn page_split(start: int, n: int, chunks: Seq<PageChunk>) -> bool {
    &&& n == 0 <==> chunks.len() == 0
    &&& forall|i: int| 0 <= i < chunks.len() ==> #[trigger] chunk_in_page(start, chunks[i])
    &&& chunks.len() > 0 ==> chunks[0].offset == 0
    &&& chunks.len() > 0 ==> chunks.last().offset + chunks.last().len == n
    &&& forall|i: int| 0 <= i < chunks.len() - 1 ==> #[trigger] follows(chunks, i)
    &&& forall|i: int| 0 <= i < chunks.len() - 1 ==> #[trigger] chunk_fills_page(chunks[i])
}

/// The bytes of `data` that `c` programs.
pub open spec fn chunk_bytes(data: Seq<u8>, c: PageChunk) -> Seq<u8> {
    data.subrange(c.offset as int, c.offset + c.len)
}

/// The bytes that `chunks` program, concatenated in order.
pub open spec fn joined(data: Seq<u8>, chunks: Seq<PageChunk>) -> Seq<u8>
    decreases chunks.len(),
{
    if chunks.len() == 0 {
        Seq::empty()
    } else {
        joined(data, chunks.drop_last()) + chunk_bytes(data, chunks.last())
    }
}

/// Splits the write of `len` bytes at `address` into page-program chunks.
pub fn page_chunks(address: u32, len: usize) -> (r: Vec<PageChunk>)
    requires
        address as int + len <= ADDRESS_LIMIT,
    ensures
        page_split(address as int, len as int, r@),
{
    let mut chunks: Vec<PageChunk> = Vec::new();
    let mut done: usize = 0;
    while done < len
        invariant
            address as int + len <= ADDRESS_LIMIT,
            done <= len,
            done == 0 <==> chunks@.len() == 0,
            forall|i: int| 0 <= i < chunks@.len() ==> #[trigger] chunk_in_page(address as int, chunks@[i]),
            chunks@.len() > 0 ==> chunks@[0].offset == 0,
            chunks@.len() > 0 ==> chunks@.last().offset + chunks@.last().len == done,
            chunks@.len() > 0 && done < len ==> chunk_fills_page(chunks@.last()),
            forall|i: int|
                0 <= i < chunks@.len() - 1 ==> #[trigger] follows(chunks@, i),
            forall|i: int| 0 <= i < chunks@.len() - 1 ==> #[trigger] chunk_fills_page(chunks@[i]),
        decreases len - done,
    {
        let place: u32 = address + done as u32;
        let room: usize = MEMORY_PAGE_SIZE - (place % (MEMORY_PAGE_SIZE as u32)) as usize;
        let left: usize = len - done;
        let size: usize = if left >= room { room } else { left };
        let chunk = PageChunk { address: place, offset: done, len: size };
        let ghost before = chunks@;
        chunks.push(chunk);
        done = done + size;
        assert(forall|i: int| 0 <= i < before.len() ==> chunks@[i] == before[i]);
        assert forall|i: int| 0 <= i < chunks@.len() - 1 implies #[trigger] follows(chunks@, i) by {
            if i < before.len() - 1 {
                assert(follows(before, i));
            }
        }
    }
    chunks
}

/// Every chunk of a page split stays within one page, and the chunks'
/// bytes, concatenated in order, give back the whole source buffer.
pub proof fn lemma_split_reconstructs(start: int, data: Seq<u8>, chunks: Seq<PageChunk>)
    requires
        page_split(start, data.len() as int, chunks),
    ensures
        forall|i: int|
            0 <= i < chunks.len() ==> page_offset(#[trigger] chunks[i].address as int)
                + chunks[i].len <= MEMORY_PAGE_SIZE,
        forall|i: int| 0 <= i < chunks.len() ==> #[trigger] chunks[i].address == start + chunks[i].offset,
        joined(data, chunks) == data,
{
    assert forall|i: int| 0 <= i < chunks.len() implies page_offset(
        #[trigger] chunks[i].address as int,
    ) + chunks[i].len <= MEMORY_PAGE_SIZE && chunks[i].address == start + chunks[i].offset by {
        assert(chunk_in_page(start, chunks[i]));
    }
    if chunks.len() > 0 {
        lemma_prefix_joined(data, chunks, chunks.len() as int);
        assert(chunks.subrange(0, chunks.len() as int) =~= chunks);
        assert(data.subrange(0, data.len() as int) =~= data);
    }
}

/// The first `k` chunks of a page split program exactly the bytes before the
/// end of chunk `k - 1`.
proof fn lemma_prefix_joined(data: Seq<u8>, chunks: Seq<PageChunk>, k: int)
    requires
        chunks[0].offset == 0,
        forall|i: int| 0 <= i < chunks.len() - 1 ==> #[trigger] follows(chunks, i),
        1 <= k <= chunks.len(),
        chunks[k - 1].offset + chunks[k - 1].len <= data.len(),
    ensures
        joined(data, chunks.subrange(0, k)) == data.subrange(
            0,
            chunks[k - 1].offset + chunks[k - 1].len,
        ),
    decreases k,
{
    let pre = chunks.subrange(0, k);
    let last = chunks[k - 1];
    assert(pre.drop_last() =~= chunks.subrange(0, k - 1));
    assert(pre.last() == last);
    assert(joined(data, pre) == joined(data, chunks.subrange(0, k - 1)) + chunk_bytes(data, last));
    if k == 1 {
        assert(joined(data, chunks.subrange(0, 0)) =~= Seq::<u8>::empty());
        assert(joined(data, pre) =~= data.subrange(0, last.offset + last.len));
    } else {
        assert(follows(chunks, k - 2));
        lemma_prefix_joined(data, chunks, k - 1);
        assert(joined(data, pre) =~= data.subrange(0, last.offset + last.len));
    }
}

/// Each chunk of a page split lies within the source buffer.
pub proof fn lemma_split_bounds(start: int, n: int, chunks: Seq<PageChunk>, i: int)
    requires
        page_split(start, n, chunks),
        0 <= i < chunks.len(),
    ensures
        chunks[i].offset + chunks[i].len <= n,
    decreases chunks.len() - i,
{
    if i < chunks.len() - 1 {
        assert(chunk_in_page(start, chunks[i + 1]));
        assert(follows(chunks, i));
        lemma_split_bounds(start, n, chunks, i + 1);
    }
}

} // verus!
