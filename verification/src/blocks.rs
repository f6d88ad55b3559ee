//! Splitting a sector-addressed transfer into device-block spans.
//!
//! A block backend serves 512-byte-sector requests from a device whose own
//! block size may differ.  The plan computed here drives that loop: it lists
//! the device blocks a transfer touches, with the offset into the first
//! block and the byte count taken from each, covering the request
//! contiguously and completely.

use vstd::prelude::*;

use crate::errors::DeviceError;

verus! {

/// Bytes per sector in a sector-addressed request.
pub const SECTOR_SIZE: u64 = 512;

/// One span of a transfer plan: a device block id, the offset into that
/// block, and the byte count taken from it.
#[derive(Debug, Clone, Copy, PartialEq, Eq, Structural)]
pub struct BlockSpan {
    /// The device block the span reads or writes.
    pub block_id: u64,
    /// Offset of the span within the block.
    pub offset: u64,
    /// Number of bytes the span covers.
    pub len: u64,
}

/// The number of bytes covered by the first `n` spans.
pub open spec fn spans_prefix_len(spans: Seq<BlockSpan>, n: int) -> int
    decreases n,
{
    if n <= 0 {
        0
    } else {
        spans_prefix_len(spans, n - 1) + spans[n - 1].len
    }
}

/// Whether a span list is a transfer plan for `len` bytes starting at
/// absolute byte `start` on a device with the given block size: spans lie
/// inside their blocks, walk consecutive blocks, open at the start's offset
/// and continue at offset zero, tile the byte range contiguously, and cover
/// it completely.
pub open spec fn spans_cover(
    spans: Seq<BlockSpan>,
    start: int,
    len: int,
    block_size: int,
) -> bool {
    &&& (spans.len() == 0 <==> len == 0)
    &&& forall|i: int| 0 <= i < spans.len() ==> {
        &&& 1 <= (#[trigger] spans[i]).len
        &&& spans[i].offset + spans[i].len <= block_size
        &&& spans[i].block_id == spans[0].block_id + i
        &&& (i >= 1 ==> spans[i].offset == 0)
        &&& spans[i].block_id * block_size + spans[i].offset
            == start + spans_prefix_len(spans, i)
    }
    &&& spans.len() > 0 ==> spans[0].offset == start % block_size
        && spans[0].block_id == start / block_size
    &&& spans_prefix_len(spans, spans.len() as int) == len
}

/// Law: a transfer plan never repeats a byte.  Distinct spans of a plan lie
/// in distinct blocks, so their absolute byte ranges are disjoint.
pub proof fn lemma_spans_distinct_blocks(
    spans: Seq<BlockSpan>,
    start: int,
    len: int,
    block_size: int,
    i: int,
    j: int,
)
    requires
        spans_cover(spans, start, len, block_size),
        0 <= i < j < spans.len(),
    ensures
        spans[i].block_id != spans[j].block_id,
{
    assert(spans[i].block_id == spans[0].block_id + i);
    assert(spans[j].block_id == spans[0].block_id + j);
}

/// Computes the transfer plan for `len` bytes starting at the given
/// 512-byte sector, on a device with block size `block_size`.
///
/// Fails with `InvalidInput` exactly when the block size is zero; the
/// transfer itself must fit the 64-bit byte space.
pub fn block_spans(sector: u64, len: u64, block_size: u64)
    -> (r: Result<Vec<BlockSpan>, DeviceError>)
    requires
        sector * SECTOR_SIZE + len <= u64::MAX,
    ensures
        block_size == 0 ==> r == Err::<Vec<BlockSpan>, DeviceError>(DeviceError::InvalidInput),
        block_size >= 1 ==> r is Ok && spans_cover(
            r->Ok_0@,
            sector * SECTOR_SIZE as int,
            len as int,
            block_size as int,
        ),
{
    if block_size == 0 {
        return Err(DeviceError::InvalidInput);
    }

    let start: u64 = sector * SECTOR_SIZE;
    let first_block: u64 = start / block_size;
    let first_offset: u64 = start % block_size;
    proof {
        assert(first_block * block_size + first_offset == start && first_offset < block_size)
            by (nonlinear_arith)
            requires
                block_size >= 1,
                first_block == start / block_size,
                first_offset == start % block_size,
        ;
    }

    let ghost gstart = start as int;
    let mut out: Vec<BlockSpan> = Vec::new();
    let mut block: u64 = first_block;
    let mut offset: u64 = first_offset;
    let mut remaining: u64 = len;

    while remaining > 0
        invariant
            block_size >= 1,
            gstart == sector * SECTOR_SIZE,
            gstart + len <= u64::MAX,
            remaining <= len,
            out@.len() == 0 <==> len == remaining,
            remaining > 0 ==> offset < block_size
                && block * block_size + offset == gstart + (len - remaining)
                && (out@.len() == 0 ==> block == first_block && offset == first_offset)
                && (out@.len() > 0 ==> offset == 0 && block == first_block + out@.len()),
            forall|i: int| 0 <= i < out@.len() ==> {
                &&& 1 <= (#[trigger] out@[i]).len
                &&& out@[i].offset + out@[i].len <= block_size
                &&& out@[i].block_id == first_block + i
                &&& (i >= 1 ==> out@[i].offset == 0)
                &&& out@[i].block_id * block_size + out@[i].offset
                    == gstart + spans_prefix_len(out@, i)
            },
            out@.len() > 0 ==> out@[0].offset == first_offset,
            spans_prefix_len(out@, out@.len() as int) == len - remaining,
        decreases remaining,
    {
        let gap = block_size - offset;
        let copy = if gap <= remaining {
            gap
        } else {
            remaining
        };
        let ghost out0 = out@;
        out.push(BlockSpan { block_id: block, offset, len: copy });
        proof {
            assert(forall|n: int| 0 <= n <= out0.len()
                ==> spans_prefix_len(out@, n) == spans_prefix_len(out0, n)) by {
                lemma_prefix_len_stable(out0, out@);
            }
        }
        remaining = remaining - copy;
        if remaining > 0 {
            proof {
                assert(block <= block * block_size) by (nonlinear_arith)
                    requires
                        block_size >= 1,
                ;
                assert((block + 1) * block_size == block * block_size + block_size)
                    by (nonlinear_arith);
            }
            block = block + 1;
            offset = 0;
        }
    }
    proof {
        if len > 0 {
            assert(out@[0].block_id == first_block);
        }
    }
    Ok(out)
}

/// The byte count of a prefix is unchanged by appending spans.
proof fn lemma_prefix_len_stable(shorter: Seq<BlockSpan>, longer: Seq<BlockSpan>)
    requires
        shorter.len() <= longer.len(),
        forall|i: int| 0 <= i < shorter.len() ==> shorter[i] == longer[i],
    ensures
        forall|n: int| 0 <= n <= shorter.len()
            ==> spans_prefix_len(longer, n) == spans_prefix_len(shorter, n),
{
    assert forall|n: int| 0 <= n <= shorter.len()
        implies spans_prefix_len(longer, n) == spans_prefix_len(shorter, n) by {
        lemma_prefix_len_stable_upto(shorter, longer, n);
    }
}

/// Induction helper for one prefix length.
proof fn lemma_prefix_len_stable_upto(shorter: Seq<BlockSpan>, longer: Seq<BlockSpan>, n: int)
    requires
        shorter.len() <= longer.len(),
        forall|i: int| 0 <= i < shorter.len() ==> shorter[i] == longer[i],
        0 <= n <= shorter.len(),
    ensures
        spans_prefix_len(longer, n) == spans_prefix_len(shorter, n),
    decreases n,
{
    if n > 0 {
        lemma_prefix_len_stable_upto(shorter, longer, n - 1);
    }
}

} // verus!
