use vstd::prelude::*;

use crate::counter::SizeCounter;
use crate::op::{
    be_bytes, encode_all, encoding, le_bytes, store_accepts, total_width, width,
    WriteOp,
};

verus! {

/// Counting two lists of writes one after the other counts as much as
/// counting their concatenation: the size after any replay is the sum of
/// the widths of its writes, however the replay is split.
pub proof fn lemma_replay_concat(first: Seq<WriteOp>, second: Seq<WriteOp>)
    ensures
        total_width(first + second) == total_width(first) + total_width(second),
    decreases second.len(),
{
    if second.len() > 0 {
        assert((first + second).drop_last() == first + second.drop_last());
        lemma_replay_concat(first, second.drop_last());
    } else {
        assert(first + second == first);
    }
}

/// Measuring the same writes with two fresh counters gives the same size:
/// a counter holds nothing but its count.
pub proof fn lemma_measure_repeatable(a: SizeCounter, b: SizeCounter, ops: Seq<WriteOp>)
    requires
        a@ == 0,
        b@ == 0,
    ensures
        a@ + total_width(ops) == b@ + total_width(ops),
{
}

/// Big-endian bytes of width `w` are `w` bytes long.
proof fn lemma_be_bytes_len(x: int, w: nat)
    ensures
        be_bytes(x, w).len() == w,
    decreases w,
{
    if w > 0 {
        lemma_be_bytes_len(x / 256, (w - 1) as nat);
    }
}

/// Little-endian bytes of width `w` are `w` bytes long.
proof fn lemma_le_bytes_len(x: int, w: nat)
    ensures
        le_bytes(x, w).len() == w,
    decreases w,
{
    if w > 0 {
        lemma_le_bytes_len(x / 256, (w - 1) as nat);
    }
}

/// The count that one write adds is the length of the bytes that a real
/// byte store receives for it.
pub proof fn lemma_width_is_encoded_len(op: WriteOp)
    requires
        store_accepts(op),
    ensures
        encoding(op).len() == width(op),
{
    let (x, w): (int, nat) = match op {
        WriteOp::U8(n) => (n as int, 1),
        WriteOp::I8(n) => (n as int, 1),
        WriteOp::U16(n, _) => (n as int, 2),
        WriteOp::I16(n, _) => (n as int, 2),
        WriteOp::U32(n, _) => (n as int, 4),
        WriteOp::I32(n, _) => (n as int, 4),
        WriteOp::U64(n, _) => (n as int, 8),
        WriteOp::I64(n, _) => (n as int, 8),
        WriteOp::U128(n, _) => (n as int, 16),
        WriteOp::I128(n, _) => (n as int, 16),
        WriteOp::Uint(n, nbytes, _) => (n as int, nbytes as nat),
        WriteOp::Int(n, nbytes, _) => (n as int, nbytes as nat),
        WriteOp::F32(bits, _) => (bits as int, 4),
        WriteOp::F64(bits, _) => (bits as int, 8),
        WriteOp::Slice(_) => (0, 0),
    };
    lemma_be_bytes_len(x, w);
    lemma_le_bytes_len(x, w);
}

/// For any list of writes that a real growable byte store accepts, the
/// count equals the length of the bytes that the store ends up holding.
pub proof fn lemma_count_matches_store(ops: Seq<WriteOp>)
    requires
        forall|i: int| 0 <= i < ops.len() ==> store_accepts(#[trigger] ops[i]),
    ensures
        encode_all(ops).len() == total_width(ops),
    decreases ops.len(),
{
    if ops.len() > 0 {
        lemma_count_matches_store(ops.drop_last());
        lemma_width_is_encoded_len(ops.last());
    }
}

} // verus!
