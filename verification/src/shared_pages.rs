//! Handing a byte buffer to the hypervisor page by page: the buffer is cut
//! into chunks, one fresh 4 KiB page each.
use vstd::prelude::*;
use crate::initrd::page_size_4k;

verus! {

/// The chunks of a `len`-byte buffer, as `(offset, len)`: whole pages in
/// order, the last one holding what is left.
pub open spec fn page_chunks(len: nat) -> Seq<(usize, usize)> {
    Seq::new(
        (len + 0xfff) / 0x1000,
        |i: int| ((i * 0x1000) as usize, (if len - i * 0x1000 < 0x1000 { len - i * 0x1000 } else { 0x1000 }) as usize),
    )
}

/// Cuts a buffer of `len` bytes into page-sized chunks (see
/// [`page_chunks`]); each chunk goes into a fresh page at offset zero.
pub fn shared_page_chunks(len: usize) -> (r: Vec<(usize, usize)>)
    ensures
        r@ == page_chunks(len as nat),
{
    let page = page_size_4k();
    let mut chunks: Vec<(usize, usize)> = Vec::new();
    let mut offset: usize = 0;
    let mut left: usize = len;
    while left > 0
        invariant
            page == 0x1000,
            offset + left == len,
            left > 0 ==> offset == chunks@.len() * 0x1000,
            left == 0 ==> chunks@.len() == (len + 0xfff) / 0x1000,
            chunks@ =~= page_chunks(len as nat).subrange(0, chunks@.len() as int),
            chunks@.len() <= (len + 0xfff) / 0x1000,
        decreases left,
    {
        let page_offset = offset % page;
        let space = page - page_offset;
        let to_copy = if space < left { space } else { left };
        proof {
            let k = chunks@.len() as int;
            assert(offset % 0x1000 == 0) by (nonlinear_arith)
                requires
                    offset == k * 0x1000,
                    k >= 0,
            ;
            assert(k < (len + 0xfff) / 0x1000) by (nonlinear_arith)
                requires
                    offset == k * 0x1000,
                    offset + left == len,
                    left > 0,
            ;
            if left <= 0x1000 {
                assert((len + 0xfff) / 0x1000 == k + 1) by (nonlinear_arith)
                    requires
                        offset == k * 0x1000,
                        offset + left == len,
                        0 < left <= 0x1000,
                ;
            }
        }
        chunks.push((offset, to_copy));
        offset = offset + to_copy;
        left = left - to_copy;
        proof {
            assert(chunks@ =~= page_chunks(len as nat).subrange(0, chunks@.len() as int));
        }
    }
    proof {
        assert(page_chunks(len as nat).subrange(0, chunks@.len() as int) =~= page_chunks(len as nat));
    }
    chunks
}

/// The chunks cover the buffer exactly: each starts where the previous
/// one ended, none is empty or longer than a page, and the last ends at
/// the buffer's end.
pub proof fn lemma_page_chunks_tile(len: nat)
    requires
        len <= usize::MAX,
    ensures
        forall|i: int| 0 <= i < page_chunks(len).len() ==> 0 < (#[trigger] page_chunks(len)[i]).1 <= 0x1000,
        forall|i: int| 0 <= i < page_chunks(len).len() ==> (#[trigger] page_chunks(len)[i]).0 == i * 0x1000,
        page_chunks(len).len() > 0 ==> page_chunks(len).last().0 + page_chunks(len).last().1 == len,
        page_chunks(len).len() == 0 <==> len == 0,
{
}

} // verus!
