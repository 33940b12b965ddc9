//! The indirect message queue: a ring of descriptor slots and data blocks in a
//! memory region shared with the other world.
//!
//! Layout of the region (little-endian):
//! - bytes 0..8: header {version: u16, count: u16, reserved: u32};
//! - bytes 8..128: 15 descriptors of 8 bytes each
//!   {seq_num: u16, length: u16, state: u8, reserved: u8, reserved: u16};
//! - data block `i` (256 bytes) at `256 * (i + 1)`.
//!
//! The other world may write the region at any time, so every field read from
//! it is treated as untrusted: the header count is clamped to the table size
//! and lengths to the block size.
use vstd::prelude::*;

use crate::error::{FfaError, Result};

verus! {

/// Entry count written into the header at initialization. It matches the
/// size of the descriptor table, so that the count the other world reads is
/// the number of slots that actually exist.
pub const QUEUE_ENTRY_COUNT: u16 = 15;

/// Number of descriptor slots in the table.
pub const QUEUE_TABLE_SIZE: usize = 15;

pub const QUEUE_BLOCK_SIZE: usize = 0x100;

pub const QUEUE_STATE_FREE: u8 = 0x0;

pub const QUEUE_STATE_VALID: u8 = 0x1;

/// Smallest region that holds the header, the table and every data block.
pub const QUEUE_REGION_SIZE: usize = 0x1000;

/// One descriptor of the table, as read from the region.
#[derive(Clone, Copy, Debug, PartialEq, Eq, Structural)]
pub struct AsyncMsgBitmap {
    pub seq_num: u16,
    pub length: u16,
    pub state: u8,
    pub res0: u8,
    pub res1: u16,
}

/// The header and descriptor table, as read from the region.
#[derive(Clone, Copy, Debug)]
pub struct AsyncMsgHeader {
    pub version: u16,
    pub count: u16,
    pub res0: u32,
    pub bitmap: [AsyncMsgBitmap; 15],
}

/// The little-endian `u16` at `off`.
pub open spec fn le16(r: Seq<u8>, off: int) -> u16 {
    (r[off] + 256 * r[off + 1]) as u16
}

/// Offset of descriptor `i`.
pub open spec fn desc_off(i: int) -> int {
    8 + 8 * i
}

/// Offset of data block `i`.
pub open spec fn block_off(i: int) -> int {
    256 * (i + 1)
}

/// Descriptor `i` of a region.
pub open spec fn slot_view(r: Seq<u8>, i: int) -> AsyncMsgBitmap {
    let d = desc_off(i);
    AsyncMsgBitmap {
        seq_num: le16(r, d),
        length: le16(r, d + 2),
        state: r[d + 4],
        res0: r[d + 5],
        res1: le16(r, d + 6),
    }
}

/// Number of slots in use: the header count, clamped to the table size.
pub open spec fn entry_count(r: Seq<u8>) -> int {
    if le16(r, 2) < 15 {
        le16(r, 2) as int
    } else {
        15
    }
}

pub open spec fn is_free(r: Seq<u8>, i: int) -> bool {
    r[desc_off(i) + 4] == QUEUE_STATE_FREE
}

/// Number of free slots among the first `i`.
pub open spec fn free_before(r: Seq<u8>, i: int) -> nat
    decreases i,
{
    if i <= 0 {
        0
    } else {
        free_before(r, i - 1) + if is_free(r, i - 1) {
            1nat
        } else {
            0nat
        }
    }
}

/// Slots that a message of `len` bytes needs: one per started block, and one
/// for an empty message.
pub open spec fn blocks_needed(len: int) -> int {
    if len == 0 {
        1
    } else {
        (len + 255) / 256
    }
}

/// Length of block `j` of a message of `len` bytes.
pub open spec fn chunk_len(len: int, j: int) -> int {
    if len - 256 * j < 256 {
        len - 256 * j
    } else {
        256
    }
}

/// Whether a write of `len` bytes places a block in slot `i`: the slot is in
/// use, free, and fewer free slots than needed come before it.
pub open spec fn takes_slot(r: Seq<u8>, i: int, len: int) -> bool {
    0 <= i < entry_count(r) && is_free(r, i) && free_before(r, i) < blocks_needed(len)
}

/// Whether the free slots suffice for a message of `len` bytes.
pub open spec fn write_fits(r: Seq<u8>, len: int) -> bool {
    free_before(r, entry_count(r)) >= blocks_needed(len)
}

/// Byte `o` of a descriptor holding `seq`, `length` and `state`, where `old`
/// is the byte that was there (the reserved bytes are kept).
pub open spec fn desc_byte(seq: u16, length: u16, state: u8, o: int, old: u8) -> u8 {
    if o == 0 {
        (seq % 256) as u8
    } else if o == 1 {
        (seq / 256) as u8
    } else if o == 2 {
        (length % 256) as u8
    } else if o == 3 {
        (length / 256) as u8
    } else if o == 4 {
        state
    } else {
        old
    }
}

/// Byte `p` of the region after writing `msg` with sequence number `seq`.
pub open spec fn write_image(r: Seq<u8>, seq: u16, msg: Seq<u8>, p: int) -> u8 {
    if 8 <= p < 128 {
        let i = (p - 8) / 8;
        if takes_slot(r, i, msg.len() as int) {
            let length = chunk_len(msg.len() as int, free_before(r, i) as int) as u16;
            desc_byte(seq, length, QUEUE_STATE_VALID, (p - 8) % 8, r[p])
        } else {
            r[p]
        }
    } else if 256 <= p < 4096 {
        let i = p / 256 - 1;
        let j = free_before(r, i) as int;
        if takes_slot(r, i, msg.len() as int) && p % 256 < chunk_len(msg.len() as int, j) {
            msg[256 * j + p % 256]
        } else {
            r[p]
        }
    } else {
        r[p]
    }
}

/// Whether slot `i` holds unconsumed data for `seq`.
pub open spec fn slot_matches(r: Seq<u8>, i: int, seq: u16) -> bool {
    slot_view(r, i).state == QUEUE_STATE_VALID && slot_view(r, i).seq_num == seq
}

/// Whether slot `i` is the first slot in use that matches `seq`.
pub open spec fn first_match(r: Seq<u8>, seq: u16, i: int) -> bool {
    &&& 0 <= i < entry_count(r)
    &&& slot_matches(r, i, seq)
    &&& forall|j: int| 0 <= j < i ==> !slot_matches(r, j, seq)
}

/// Bytes that a read takes out of slot `i`: its length, clamped to a block.
pub open spec fn read_len(r: Seq<u8>, i: int) -> int {
    if slot_view(r, i).length < 256 {
        slot_view(r, i).length as int
    } else {
        256
    }
}

/// Byte `p` of the region after consuming slot `i`: its sequence number,
/// length and state are zeroed, everything else is kept.
pub open spec fn clear_image(r: Seq<u8>, i: int, p: int) -> u8 {
    if desc_off(i) <= p < desc_off(i) + 8 {
        desc_byte(0, 0, QUEUE_STATE_FREE, p - desc_off(i), r[p])
    } else {
        r[p]
    }
}

/// The slot that byte `p` belongs to (descriptor or data block); 15 for the
/// header and for bytes past the last block.
pub open spec fn owner(p: int) -> int {
    if 8 <= p < 128 {
        (p - 8) / 8
    } else if 256 <= p < 4096 {
        p / 256 - 1
    } else {
        15
    }
}

proof fn lemma_owner(p: int)
    ensures
        8 <= p < 128 ==> {
            &&& owner(p) == (p - 8) / 8
            &&& 0 <= owner(p) < 15
            &&& desc_off(owner(p)) <= p < desc_off(owner(p)) + 8
            &&& (p - 8) % 8 == p - desc_off(owner(p))
        },
        256 <= p < 4096 ==> {
            &&& owner(p) == p / 256 - 1
            &&& 0 <= owner(p) < 15
            &&& block_off(owner(p)) <= p < block_off(owner(p)) + 256
            &&& p % 256 == p - block_off(owner(p))
        },
        !(8 <= p < 128) && !(256 <= p < 4096) ==> owner(p) == 15,
{
}

proof fn lemma_free_before_mono(r: Seq<u8>, a: int, b: int)
    requires
        a <= b,
    ensures
        free_before(r, a) <= free_before(r, b),
    decreases b - a,
{
    if a < b {
        lemma_free_before_mono(r, a, b - 1);
    }
}

/// Reads the little-endian `u16` at `off`.
fn load16(region: &[u8], off: usize) -> (v: u16)
    requires
        off + 1 < region@.len(),
    ensures
        v == le16(region@, off as int),
{
    region[off] as u16 + 256 * region[off + 1] as u16
}

/// Reads descriptor `i`.
fn load_slot(region: &[u8], i: usize) -> (s: AsyncMsgBitmap)
    requires
        i < QUEUE_TABLE_SIZE,
        region@.len() >= 128,
    ensures
        s == slot_view(region@, i as int),
{
    let d = 8 + 8 * i;
    AsyncMsgBitmap {
        seq_num: load16(region, d),
        length: load16(region, d + 2),
        state: region[d + 4],
        res0: region[d + 5],
        res1: load16(region, d + 6),
    }
}

/// Number of slots in use, from the header count clamped to the table size.
fn load_entry_count(region: &[u8]) -> (n: usize)
    requires
        region@.len() >= 128,
    ensures
        n as int == entry_count(region@),
        n <= QUEUE_TABLE_SIZE,
{
    let count = load16(region, 2);
    if count < 15 {
        count as usize
    } else {
        QUEUE_TABLE_SIZE
    }
}

/// Stores sequence number, length and state into descriptor `i`, keeping its
/// reserved bytes.
fn store_slot(region: &mut [u8], i: usize, seq: u16, length: u16, state: u8)
    requires
        i < QUEUE_TABLE_SIZE,
        old(region)@.len() >= 128,
    ensures
        final(region)@.len() == old(region)@.len(),
        forall|p: int|
            0 <= p < old(region)@.len() ==> #[trigger] final(region)@[p] == if desc_off(i as int)
                <= p < desc_off(i as int) + 8 {
                desc_byte(seq, length, state, p - desc_off(i as int), old(region)@[p])
            } else {
                old(region)@[p]
            },
{
    let d = 8 + 8 * i;
    region[d] = (seq % 256) as u8;
    region[d + 1] = (seq / 256) as u8;
    region[d + 2] = (length % 256) as u8;
    region[d + 3] = (length / 256) as u8;
    region[d + 4] = state;
}

/// The typed view of the queue's header and descriptor table.
impl AsyncMsgHeader {
    pub fn parse(region: &[u8]) -> (h: AsyncMsgHeader)
        requires
            region@.len() >= 128,
        ensures
            h.version == le16(region@, 0),
            h.count == le16(region@, 2),
            h.res0 == le16(region@, 4) + 65536 * le16(region@, 6),
            forall|i: int| 0 <= i < 15 ==> #[trigger] h.bitmap[i] == slot_view(region@, i),
    {
        let empty = AsyncMsgBitmap { seq_num: 0, length: 0, state: 0, res0: 0, res1: 0 };
        let mut bitmap = [empty; 15];
        let mut i: usize = 0;
        while i < QUEUE_TABLE_SIZE
            invariant
                i <= QUEUE_TABLE_SIZE,
                region@.len() >= 128,
                forall|j: int| 0 <= j < i ==> #[trigger] bitmap[j] == slot_view(region@, j),
            decreases QUEUE_TABLE_SIZE - i,
        {
            bitmap[i] = load_slot(region, i);
            i = i + 1;
        }
        AsyncMsgHeader {
            version: load16(region, 0),
            count: load16(region, 2),
            res0: load16(region, 4) as u32 + 65536 * load16(region, 6) as u32,
            bitmap,
        }
    }
}

/// Producer and consumer operations on an indirect message queue.
pub struct FfaIndirectMsg {}

impl FfaIndirectMsg {
    pub fn new() -> (r: Self) {
        FfaIndirectMsg {  }
    }

    /// Zeroes the region and writes the entry count into the header.
    pub fn init_indirect_msg(&self, region: &mut [u8]) -> (r: FfaError)
        ensures
            final(region)@.len() == old(region)@.len(),
            old(region)@.len() < QUEUE_REGION_SIZE ==> r == FfaError::InvalidParameters
                && final(region)@ == old(region)@,
            old(region)@.len() >= QUEUE_REGION_SIZE ==> r == FfaError::Success && forall|p: int|
                0 <= p < old(region)@.len() ==> #[trigger] final(region)@[p] == if p == 2 {
                    QUEUE_ENTRY_COUNT as u8
                } else {
                    0u8
                },
    {
        if region.len() < QUEUE_REGION_SIZE {
            return FfaError::InvalidParameters;
        }
        let mut i: usize = 0;
        while i < region.len()
            invariant
                i <= region@.len(),
                region@.len() == old(region)@.len(),
                forall|p: int| 0 <= p < i ==> #[trigger] region@[p] == 0u8,
            decreases region@.len() - i,
        {
            region[i] = 0;
            i = i + 1;
        }
        region[2] = (QUEUE_ENTRY_COUNT % 256) as u8;
        region[3] = (QUEUE_ENTRY_COUNT / 256) as u8;
        FfaError::Success
    }

    /// Consumes the first slot in use that holds data for `seq_num`: copies
    /// its payload (at most one block) into `buf`, returns its length, and
    /// resets the slot to free with zero sequence number and length. With no
    /// such slot the queue is left as it is and `Retry` comes back.
    pub fn read_indirect_msg(
        &self,
        region: &mut [u8],
        seq_num: u16,
        buf: &mut [u8; 256],
    ) -> (r: Result<usize>)
        ensures
            final(region)@.len() == old(region)@.len(),
            old(region)@.len() < QUEUE_REGION_SIZE ==> r == Err::<usize, FfaError>(
                FfaError::InvalidParameters,
            ) && final(region)@ == old(region)@ && final(buf)@ == old(buf)@,
            old(region)@.len() >= QUEUE_REGION_SIZE ==> match r {
                Ok(n) => exists|i: int|
                    {
                        &&& first_match(old(region)@, seq_num, i)
                        &&& n == read_len(old(region)@, i)
                        &&& forall|t: int|
                            0 <= t < 256 ==> #[trigger] final(buf)@[t] == if t < n {
                                old(region)@[block_off(i) + t]
                            } else {
                                old(buf)@[t]
                            }
                        &&& forall|p: int|
                            0 <= p < old(region)@.len() ==> #[trigger] final(region)@[p]
                                == clear_image(old(region)@, i, p)
                    },
                Err(e) => e == FfaError::Retry && final(region)@ == old(region)@ && final(buf)@
                    == old(buf)@ && forall|i: int|
                    0 <= i < entry_count(old(region)@) ==> !slot_matches(old(region)@, i, seq_num),
            },
    {
        if region.len() < QUEUE_REGION_SIZE {
            return Err(FfaError::InvalidParameters);
        }
        let n = load_entry_count(region);
        let mut i: usize = 0;
        while i < n
            invariant
                i <= n <= QUEUE_TABLE_SIZE,
                n == entry_count(region@),
                region@.len() >= QUEUE_REGION_SIZE,
                region@ == old(region)@,
                buf@ == old(buf)@,
                forall|j: int| 0 <= j < i ==> !slot_matches(region@, j, seq_num),
            decreases n - i,
        {
            let slot = load_slot(region, i);
            if slot.seq_num == seq_num && slot.state == QUEUE_STATE_VALID {
                let len: usize = if (slot.length as usize) < QUEUE_BLOCK_SIZE {
                    slot.length as usize
                } else {
                    QUEUE_BLOCK_SIZE
                };
                let base = QUEUE_BLOCK_SIZE * (i + 1);
                let mut t: usize = 0;
                while t < len
                    invariant
                        t <= len <= 256,
                        base == block_off(i as int),
                        i < 15,
                        region@ == old(region)@,
                        region@.len() >= QUEUE_REGION_SIZE,
                        forall|u: int|
                            0 <= u < 256 ==> #[trigger] buf@[u] == if u < t {
                                old(region)@[base + u]
                            } else {
                                old(buf)@[u]
                            },
                    decreases len - t,
                {
                    buf[t] = region[base + t];
                    t = t + 1;
                }
                store_slot(region, i, 0, 0, QUEUE_STATE_FREE);
                assert(first_match(old(region)@, seq_num, i as int));
                assert(len == read_len(old(region)@, i as int));
                assert(forall|p: int|
                    0 <= p < old(region)@.len() ==> #[trigger] region@[p] == clear_image(
                        old(region)@,
                        i as int,
                        p,
                    ));
                return Ok(len);
            }
            i = i + 1;
        }
        Err(FfaError::Retry)
    }

    /// Places `buf` into the free slots in use, in table order, one block per
    /// slot, each tagged with `seq_num`. An empty message takes one slot of
    /// length zero. When the free slots run out first, `NoMemory` comes back
    /// and the blocks already placed stay in the queue.
    pub fn write_indirect_msg(&self, region: &mut [u8], seq_num: u16, buf: &[u8]) -> (r: FfaError)
        ensures
            final(region)@.len() == old(region)@.len(),
            old(region)@.len() < QUEUE_REGION_SIZE ==> r == FfaError::InvalidParameters
                && final(region)@ == old(region)@,
            old(region)@.len() >= QUEUE_REGION_SIZE ==> {
                &&& r == if write_fits(old(region)@, buf@.len() as int) {
                    FfaError::Success
                } else {
                    FfaError::NoMemory
                }
                &&& forall|p: int|
                    0 <= p < old(region)@.len() ==> #[trigger] final(region)@[p] == write_image(
                        old(region)@,
                        seq_num,
                        buf@,
                        p,
                    )
            },
    {
        if region.len() < QUEUE_REGION_SIZE {
            return FfaError::InvalidParameters;
        }
        let ghost r0 = region@;
        let ghost len = buf@.len() as int;
        let n = load_entry_count(region);
        let total = buf.len();
        let needed: usize = if total == 0 {
            1
        } else {
            total / QUEUE_BLOCK_SIZE + if total % QUEUE_BLOCK_SIZE == 0 {
                0
            } else {
                1
            }
        };
        assert(needed == blocks_needed(len));
        let mut placed: usize = 0;
        let mut data_index: usize = 0;
        let mut i: usize = 0;
        while i < n && placed < needed
            invariant
                i <= n <= QUEUE_TABLE_SIZE,
                n == entry_count(r0),
                region@.len() == r0.len(),
                r0.len() >= QUEUE_REGION_SIZE,
                total == len,
                len == buf@.len(),
                needed == blocks_needed(len),
                placed == free_before(r0, i as int),
                placed <= needed,
                placed < needed ==> 256 * placed < len || (len == 0 && placed == 0),
                data_index == if 256 * placed < len {
                    256 * placed
                } else {
                    len
                },
                forall|p: int|
                    0 <= p < r0.len() ==> #[trigger] region@[p] == if owner(p) < i {
                        write_image(r0, seq_num, buf@, p)
                    } else {
                        r0[p]
                    },
            decreases n - i,
        {
            let state = region[8 + 8 * i + 4];
            if state == QUEUE_STATE_FREE {
                assert(takes_slot(r0, i as int, len));
                let copy_len: usize = if total - data_index < QUEUE_BLOCK_SIZE {
                    total - data_index
                } else {
                    QUEUE_BLOCK_SIZE
                };
                assert(copy_len == chunk_len(len, placed as int));
                let base = QUEUE_BLOCK_SIZE * (i + 1);
                let mut t: usize = 0;
                while t < copy_len
                    invariant
                        t <= copy_len <= 256,
                        i < n <= QUEUE_TABLE_SIZE,
                        base == block_off(i as int),
                        n == entry_count(r0),
                        region@.len() == r0.len(),
                        r0.len() >= QUEUE_REGION_SIZE,
                        total == len,
                        len == buf@.len(),
                        data_index + copy_len <= len,
                        data_index == 256 * placed,
                        copy_len == chunk_len(len, placed as int),
                        placed == free_before(r0, i as int),
                        takes_slot(r0, i as int, len),
                        forall|p: int|
                            0 <= p < r0.len() ==> #[trigger] region@[p] == if owner(p) < i || (base
                                <= p < base + t) {
                                write_image(r0, seq_num, buf@, p)
                            } else {
                                r0[p]
                            },
                    decreases copy_len - t,
                {
                    proof {
                        lemma_owner(base + t);
                    }
                    region[base + t] = buf[data_index + t];
                    t = t + 1;
                    assert forall|p: int| 0 <= p < r0.len() implies #[trigger] region@[p] == if owner(p)
                        < i || (base <= p < base + t) {
                        write_image(r0, seq_num, buf@, p)
                    } else {
                        r0[p]
                    } by {
                        lemma_owner(p);
                    }
                }
                let ghost mid = region@;
                store_slot(region, i, seq_num, copy_len as u16, QUEUE_STATE_VALID);
                assert forall|p: int| 0 <= p < r0.len() implies #[trigger] region@[p] == if owner(p)
                    < i + 1 {
                    write_image(r0, seq_num, buf@, p)
                } else {
                    r0[p]
                } by {
                    lemma_owner(p);
                    assert(mid[p] == (if owner(p) < i || (base <= p < base + copy_len) {
                        write_image(r0, seq_num, buf@, p)
                    } else {
                        r0[p]
                    }));
                }
                data_index = data_index + copy_len;
                placed = placed + 1;
            } else {
                assert forall|p: int| 0 <= p < r0.len() implies #[trigger] region@[p] == if owner(p)
                    < i + 1 {
                    write_image(r0, seq_num, buf@, p)
                } else {
                    r0[p]
                } by {
                    lemma_owner(p);
                }
            }
            i = i + 1;
        }
        proof {
            assert forall|p: int| 0 <= p < r0.len() && owner(p) >= i implies write_image(
                r0,
                seq_num,
                buf@,
                p,
            ) == r0[p] by {
                if owner(p) < 15 && owner(p) < n {
                    lemma_free_before_mono(r0, i as int, owner(p));
                }
            }
            lemma_free_before_mono(r0, i as int, n as int);
        }
        if placed == needed {
            FfaError::Success
        } else {
            FfaError::NoMemory
        }
    }
}

/// A write into a queue whose slots in use all hold data fails with
/// `NoMemory` and changes nothing.
pub proof fn lemma_write_full_queue(r: Seq<u8>, seq: u16, msg: Seq<u8>)
    requires
        forall|i: int| 0 <= i < entry_count(r) ==> !is_free(r, i),
    ensures
        !write_fits(r, msg.len() as int),
        forall|p: int| 0 <= p < r.len() ==> #[trigger] write_image(r, seq, msg, p) == r[p],
{
    assert forall|i: int| 0 <= i <= entry_count(r) implies free_before(r, i) == 0 by {
        lemma_free_before_zero(r, i);
    }
}

/// The region after writing `msg` with sequence number `seq`.
pub open spec fn after_write(r: Seq<u8>, seq: u16, msg: Seq<u8>) -> Seq<u8> {
    Seq::new(r.len(), |p: int| write_image(r, seq, msg, p))
}

/// With at least one free slot in use, the first of them has no free slot
/// before it.
proof fn lemma_first_free(r: Seq<u8>, n: int) -> (i: int)
    requires
        free_before(r, n) >= 1,
    ensures
        0 <= i < n,
        is_free(r, i),
        free_before(r, i) == 0,
    decreases n,
{
    if n <= 0 {
        assert(false);
        0
    } else if free_before(r, n - 1) >= 1 {
        lemma_first_free(r, n - 1)
    } else {
        n - 1
    }
}

/// Descriptor `j` of the region is read from bytes that a write computes
/// for slot `j`.
proof fn lemma_desc_bytes(j: int)
    requires
        0 <= j < 15,
    ensures
        forall|o: int|
            0 <= o < 8 ==> #[trigger] owner(desc_off(j) + o) == j && (desc_off(j) + o - 8) / 8 == j
                && (desc_off(j) + o - 8) % 8 == o && 8 <= desc_off(j) + o < 128,
{
}

/// A message of at most one block, written with a sequence number that no
/// slot in use holds data for, is what the next read of that number
/// returns: the slot it went to is the first match, with the message's
/// length and bytes.
pub proof fn lemma_write_then_read(r: Seq<u8>, seq: u16, msg: Seq<u8>) -> (i: int)
    requires
        r.len() >= QUEUE_REGION_SIZE,
        msg.len() <= QUEUE_BLOCK_SIZE,
        write_fits(r, msg.len() as int),
        forall|j: int| 0 <= j < entry_count(r) ==> !slot_matches(r, j, seq),
    ensures
        first_match(after_write(r, seq, msg), seq, i),
        read_len(after_write(r, seq, msg), i) == msg.len(),
        forall|t: int|
            0 <= t < msg.len() ==> #[trigger] after_write(r, seq, msg)[block_off(i) + t] == msg[t],
{
    let w = after_write(r, seq, msg);
    let n = entry_count(r);
    let len = msg.len() as int;
    assert(blocks_needed(len) == 1);
    let i = lemma_first_free(r, n);
    assert(w[2] == r[2] && w[3] == r[3]);
    assert(entry_count(w) == n);
    assert forall|j: int| 0 <= j < i implies !slot_matches(w, j, seq) by {
        lemma_free_before_mono(r, j + 1, i);
        lemma_desc_bytes(j);
        assert(!takes_slot(r, j, len));
        assert(w[desc_off(j)] == r[desc_off(j)]);
        assert(w[desc_off(j) + 1] == r[desc_off(j) + 1]);
        assert(w[desc_off(j) + 4] == r[desc_off(j) + 4]);
        assert(slot_view(w, j).seq_num == slot_view(r, j).seq_num);
        assert(!slot_matches(r, j, seq));
    }
    lemma_desc_bytes(i);
    assert(takes_slot(r, i, len));
    assert(chunk_len(len, 0) == len);
    let d = desc_off(i);
    assert(w[d] == (seq % 256) as u8);
    assert(w[d + 1] == (seq / 256) as u8);
    assert(w[d + 2] == (len as u16 % 256) as u8);
    assert(w[d + 3] == (len as u16 / 256) as u8);
    assert(w[d + 4] == QUEUE_STATE_VALID);
    assert(slot_view(w, i).seq_num == seq);
    assert(slot_view(w, i).length == len);
    assert forall|t: int| 0 <= t < len implies #[trigger] w[block_off(i) + t] == msg[t] by {
        lemma_owner(block_off(i) + t);
    }
    i
}

/// The region after a read consumes slot `i`.
pub open spec fn after_read(r: Seq<u8>, i: int) -> Seq<u8> {
    Seq::new(r.len(), |p: int| clear_image(r, i, p))
}

/// A read leaves the slot it consumed free, with zero sequence number and
/// length; when that slot was the only one holding data for `seq`, a second
/// read of `seq` finds nothing.
pub proof fn lemma_read_consumes(r: Seq<u8>, seq: u16, i: int)
    requires
        r.len() >= QUEUE_REGION_SIZE,
        first_match(r, seq, i),
        forall|j: int| 0 <= j < entry_count(r) && j != i ==> !slot_matches(r, j, seq),
    ensures
        slot_view(after_read(r, i), i).seq_num == 0,
        slot_view(after_read(r, i), i).length == 0,
        slot_view(after_read(r, i), i).state == QUEUE_STATE_FREE,
        entry_count(after_read(r, i)) == entry_count(r),
        forall|j: int|
            0 <= j < entry_count(after_read(r, i)) ==> !slot_matches(after_read(r, i), j, seq),
{
    let c = after_read(r, i);
    let d = desc_off(i);
    assert(c[2] == r[2] && c[3] == r[3]);
    assert(c[d] == 0 && c[d + 1] == 0 && c[d + 2] == 0 && c[d + 3] == 0);
    assert(c[d + 4] == QUEUE_STATE_FREE);
    assert(le16(c, 2) == le16(r, 2));
    assert(entry_count(c) == entry_count(r));
    assert forall|j: int| 0 <= j < entry_count(c) implies !slot_matches(c, j, seq) by {
        if j != i {
            let e = desc_off(j);
            assert(c[e] == r[e] && c[e + 1] == r[e + 1] && c[e + 4] == r[e + 4]);
            assert(slot_view(c, j).seq_num == slot_view(r, j).seq_num);
            assert(slot_view(c, j).state == slot_view(r, j).state);
            assert(!slot_matches(r, j, seq));
        } else {
            assert(slot_view(c, j).state == QUEUE_STATE_FREE);
        }
    }
}

proof fn lemma_free_before_zero(r: Seq<u8>, i: int)
    requires
        i <= entry_count(r),
        forall|j: int| 0 <= j < entry_count(r) ==> !is_free(r, j),
    ensures
        free_before(r, i) == 0,
    decreases i,
{
    if i > 0 {
        lemma_free_before_zero(r, i - 1);
    }
}

} // verus!
