use vstd::prelude::*;

use crate::counter::SizeCounter;

verus! {

/// Byte order of a multi-byte value.
#[derive(Clone, Copy, Debug, PartialEq, Eq, Structural)]
pub enum Endian {
    Big,
    Little,
}

/// One write into a byte sink, described as data.
///
/// Floats are given by their IEEE 754 bit pattern.
#[derive(Clone, Debug)]
pub enum WriteOp {
    U8(u8),
    I8(i8),
    U16(u16, Endian),
    I16(i16, Endian),
    U32(u32, Endian),
    I32(i32, Endian),
    U64(u64, Endian),
    I64(i64, Endian),
    U128(u128, Endian),
    I128(i128, Endian),
    /// An unsigned integer written in the given number of bytes.
    Uint(u64, usize, Endian),
    /// A signed integer written in the given number of bytes.
    Int(i64, usize, Endian),
    F32(u32, Endian),
    F64(u64, Endian),
    Slice(Vec<u8>),
}

/// How many bytes `op` adds to a sink.
pub open spec fn width(op: WriteOp) -> nat {
    match op {
        WriteOp::U8(_) | WriteOp::I8(_) => 1,
        WriteOp::U16(..) | WriteOp::I16(..) => 2,
        WriteOp::U32(..) | WriteOp::I32(..) | WriteOp::F32(..) => 4,
        WriteOp::U64(..) | WriteOp::I64(..) | WriteOp::F64(..) => 8,
        WriteOp::U128(..) | WriteOp::I128(..) => 16,
        WriteOp::Uint(_, nbytes, _) | WriteOp::Int(_, nbytes, _) => nbytes as nat,
        WriteOp::Slice(v) => v@.len(),
    }
}

/// How many bytes a list of writes adds to a sink, in all.
pub open spec fn total_width(ops: Seq<WriteOp>) -> nat
    decreases ops.len(),
{
    if ops.len() == 0 {
        0
    } else {
        total_width(ops.drop_last()) + width(ops.last())
    }
}

/// The lowest `w` bytes of `x` in two's complement, most significant first.
pub open spec fn be_bytes(x: int, w: nat) -> Seq<u8>
    decreases w,
{
    if w == 0 {
        seq![]
    } else {
        be_bytes(x / 256, (w - 1) as nat).push((x % 256) as u8)
    }
}

/// The lowest `w` bytes of `x` in two's complement, least significant first.
pub open spec fn le_bytes(x: int, w: nat) -> Seq<u8>
    decreases w,
{
    if w == 0 {
        seq![]
    } else {
        seq![(x % 256) as u8] + le_bytes(x / 256, (w - 1) as nat)
    }
}

/// The lowest `w` bytes of `x` in the byte order `e`.
pub open spec fn ordered_bytes(x: int, w: nat, e: Endian) -> Seq<u8> {
    match e {
        Endian::Big => be_bytes(x, w),
        Endian::Little => le_bytes(x, w),
    }
}

/// The bytes that a real byte store receives for `op`.
pub open spec fn encoding(op: WriteOp) -> Seq<u8> {
    match op {
        WriteOp::U8(n) => seq![n],
        WriteOp::I8(n) => be_bytes(n as int, 1),
        WriteOp::U16(n, e) => ordered_bytes(n as int, 2, e),
        WriteOp::I16(n, e) => ordered_bytes(n as int, 2, e),
        WriteOp::U32(n, e) => ordered_bytes(n as int, 4, e),
        WriteOp::I32(n, e) => ordered_bytes(n as int, 4, e),
        WriteOp::U64(n, e) => ordered_bytes(n as int, 8, e),
        WriteOp::I64(n, e) => ordered_bytes(n as int, 8, e),
        WriteOp::U128(n, e) => ordered_bytes(n as int, 16, e),
        WriteOp::I128(n, e) => ordered_bytes(n as int, 16, e),
        WriteOp::Uint(n, nbytes, e) => ordered_bytes(n as int, nbytes as nat, e),
        WriteOp::Int(n, nbytes, e) => ordered_bytes(n as int, nbytes as nat, e),
        WriteOp::F32(bits, e) => ordered_bytes(bits as int, 4, e),
        WriteOp::F64(bits, e) => ordered_bytes(bits as int, 8, e),
        WriteOp::Slice(v) => v@,
    }
}

/// The bytes that a real byte store receives for a list of writes, in order.
pub open spec fn encode_all(ops: Seq<WriteOp>) -> Seq<u8>
    decreases ops.len(),
{
    if ops.len() == 0 {
        seq![]
    } else {
        encode_all(ops.drop_last()) + encoding(ops.last())
    }
}

/// Whether a real byte store accepts `op`: one that writes a variable-width
/// integer takes at most the eight bytes of a 64-bit value.
pub open spec fn store_accepts(op: WriteOp) -> bool {
    match op {
        WriteOp::Uint(_, nbytes, _) | WriteOp::Int(_, nbytes, _) => nbytes <= 8,
        _ => true,
    }
}

impl SizeCounter {
    /// Counts one write described as data.
    pub fn put_op(&mut self, op: &WriteOp)
        requires
            old(self)@ + width(*op) <= usize::MAX,
        ensures
            final(self)@ == old(self)@ + width(*op),
    {
        match op {
            WriteOp::U8(n) => self.put_u8(*n),
            WriteOp::I8(n) => self.put_i8(*n),
            WriteOp::U16(n, Endian::Big) => self.put_u16(*n),
            WriteOp::U16(n, Endian::Little) => self.put_u16_le(*n),
            WriteOp::I16(n, Endian::Big) => self.put_i16(*n),
            WriteOp::I16(n, Endian::Little) => self.put_i16_le(*n),
            WriteOp::U32(n, Endian::Big) => self.put_u32(*n),
            WriteOp::U32(n, Endian::Little) => self.put_u32_le(*n),
            WriteOp::I32(n, Endian::Big) => self.put_i32(*n),
            WriteOp::I32(n, Endian::Little) => self.put_i32_le(*n),
            WriteOp::U64(n, Endian::Big) => self.put_u64(*n),
            WriteOp::U64(n, Endian::Little) => self.put_u64_le(*n),
            WriteOp::I64(n, Endian::Big) => self.put_i64(*n),
            WriteOp::I64(n, Endian::Little) => self.put_i64_le(*n),
            WriteOp::U128(n, Endian::Big) => self.put_u128(*n),
            WriteOp::U128(n, Endian::Little) => self.put_u128_le(*n),
            WriteOp::I128(n, Endian::Big) => self.put_i128(*n),
            WriteOp::I128(n, Endian::Little) => self.put_i128_le(*n),
            WriteOp::Uint(n, nbytes, Endian::Big) => self.put_uint(*n, *nbytes),
            WriteOp::Uint(n, nbytes, Endian::Little) => self.put_uint_le(*n, *nbytes),
            WriteOp::Int(n, nbytes, Endian::Big) => self.put_int(*n, *nbytes),
            WriteOp::Int(n, nbytes, Endian::Little) => self.put_int_le(*n, *nbytes),
            WriteOp::F32(bits, Endian::Big) => self.put_f32(*bits),
            WriteOp::F32(bits, Endian::Little) => self.put_f32_le(*bits),
            WriteOp::F64(bits, Endian::Big) => self.put_f64(*bits),
            WriteOp::F64(bits, Endian::Little) => self.put_f64_le(*bits),
            WriteOp::Slice(v) => self.put_slice(v.as_slice()),
        }
    }

    /// Counts a list of writes, in order: the count grows by the sum of
    /// their widths.
    pub fn put_all(&mut self, ops: &[WriteOp])
        requires
            old(self)@ + total_width(ops@) <= usize::MAX,
        ensures
            final(self)@ == old(self)@ + total_width(ops@),
    {
        let mut i: usize = 0;
        while i < ops.len()
            invariant
                i <= ops@.len(),
                self@ == old(self)@ + total_width(ops@.take(i as int)),
                old(self)@ + total_width(ops@) <= usize::MAX,
            decreases ops@.len() - i,
        {
            proof {
                assert(ops@.take(i as int + 1).drop_last() == ops@.take(i as int));
                lemma_total_width_prefix(ops@, i as int + 1);
            }
            self.put_op(&ops[i]);
            i = i + 1;
        }
        assert(ops@.take(ops@.len() as int) == ops@);
    }
}

/// The widths of a prefix of a list never add up to more than the whole.
proof fn lemma_total_width_prefix(ops: Seq<WriteOp>, k: int)
    requires
        0 <= k <= ops.len(),
    ensures
        total_width(ops.take(k)) <= total_width(ops),
    decreases ops.len(),
{
    if k < ops.len() {
        assert(ops.drop_last().take(k) == ops.take(k));
        lemma_total_width_prefix(ops.drop_last(), k);
    } else {
        assert(ops.take(k) == ops);
    }
}

} // verus!
