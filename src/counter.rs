use vstd::prelude::*;

use crate::buf::{bytes_contents, bytes_remaining};

verus! {

/// A byte sink that keeps no bytes: every write adds the length of its
/// encoding to a running count, and the payload is dropped.
#[derive(Debug)]
pub struct SizeCounter {
    count: usize,
}

/// Makes `std::io::Error` known, as the error type of the stream methods'
/// results; none of them ever returns one.
#[verifier::external_type_specification]
#[verifier::external_body]
pub struct ExIoError(std::io::Error);

/// The total length of a list of byte slices.
pub open spec fn total_len(bufs: Seq<&[u8]>) -> nat
    decreases bufs.len(),
{
    if bufs.len() == 0 {
        0
    } else {
        total_len(bufs.drop_last()) + bufs.last()@.len()
    }
}

impl View for SizeCounter {
    /// The number of bytes counted so far.
    type V = nat;

    closed spec fn view(&self) -> nat {
        self.count as nat
    }
}

impl SizeCounter {
    /// A counter that has seen no writes.
    pub fn new() -> (r: SizeCounter)
        ensures
            r@ == 0,
    {
        SizeCounter { count: 0 }
    }

    /// The number of bytes counted so far.
    pub fn size(&self) -> (r: usize)
        ensures
            r == self@,
    {
        self.count
    }

    /// Adds `len` to the count.
    fn tally(&mut self, len: usize)
        requires
            old(self)@ + len <= usize::MAX,
        ensures
            final(self)@ == old(self)@ + len,
    {
        self.count = self.count + len;
    }

    /// The room left for writes: always the largest `usize`, however much
    /// has been counted.
    pub fn remaining_mut(&self) -> (r: usize)
        ensures
            r == usize::MAX,
    {
        usize::MAX
    }

    /// Whether writes can still be taken: always.
    pub fn has_remaining_mut(&self) -> (r: bool)
        ensures
            r,
    {
        true
    }

    /// Accepts the news that `cnt` bytes were written directly into the
    /// sink's storage. There is no such storage, so nothing changes.
    pub fn advance_mut(&mut self, cnt: usize)
        ensures
            *final(self) == *old(self),
    {
        let _ = cnt;
    }

    /// Counts one unsigned byte.
    pub fn put_u8(&mut self, _n: u8)
        requires
            old(self)@ + 1 <= usize::MAX,
        ensures
            final(self)@ == old(self)@ + 1,
    {
        self.tally(1);
    }

    /// Counts one signed byte.
    pub fn put_i8(&mut self, _n: i8)
        requires
            old(self)@ + 1 <= usize::MAX,
        ensures
            final(self)@ == old(self)@ + 1,
    {
        self.tally(1);
    }

    /// Counts a big-endian unsigned 16-bit integer: 2 bytes.
    pub fn put_u16(&mut self, _n: u16)
        requires
            old(self)@ + 2 <= usize::MAX,
        ensures
            final(self)@ == old(self)@ + 2,
    {
        self.tally(2);
    }

    /// Counts a little-endian unsigned 16-bit integer: 2 bytes.
    pub fn put_u16_le(&mut self, _n: u16)
        requires
            old(self)@ + 2 <= usize::MAX,
        ensures
            final(self)@ == old(self)@ + 2,
    {
        self.tally(2);
    }

    /// Counts a big-endian signed 16-bit integer: 2 bytes.
    pub fn put_i16(&mut self, _n: i16)
        requires
            old(self)@ + 2 <= usize::MAX,
        ensures
            final(self)@ == old(self)@ + 2,
    {
        self.tally(2);
    }

    /// Counts a little-endian signed 16-bit integer: 2 bytes.
    pub fn put_i16_le(&mut self, _n: i16)
        requires
            old(self)@ + 2 <= usize::MAX,
        ensures
            final(self)@ == old(self)@ + 2,
    {
        self.tally(2);
    }

    /// Counts a big-endian unsigned 32-bit integer: 4 bytes.
    pub fn put_u32(&mut self, _n: u32)
        requires
            old(self)@ + 4 <= usize::MAX,
        ensures
            final(self)@ == old(self)@ + 4,
    {
        self.tally(4);
    }

    /// Counts a little-endian unsigned 32-bit integer: 4 bytes.
    pub fn put_u32_le(&mut self, _n: u32)
        requires
            old(self)@ + 4 <= usize::MAX,
        ensures
            final(self)@ == old(self)@ + 4,
    {
        self.tally(4);
    }

    /// Counts a big-endian signed 32-bit integer: 4 bytes.
    pub fn put_i32(&mut self, _n: i32)
        requires
            old(self)@ + 4 <= usize::MAX,
        ensures
            final(self)@ == old(self)@ + 4,
    {
        self.tally(4);
    }

    /// Counts a little-endian signed 32-bit integer: 4 bytes.
    pub fn put_i32_le(&mut self, _n: i32)
        requires
            old(self)@ + 4 <= usize::MAX,
        ensures
            final(self)@ == old(self)@ + 4,
    {
        self.tally(4);
    }

    /// Counts a big-endian unsigned 64-bit integer: 8 bytes.
    pub fn put_u64(&mut self, _n: u64)
        requires
            old(self)@ + 8 <= usize::MAX,
        ensures
            final(self)@ == old(self)@ + 8,
    {
        self.tally(8);
    }

    /// Counts a little-endian unsigned 64-bit integer: 8 bytes.
    pub fn put_u64_le(&mut self, _n: u64)
        requires
            old(self)@ + 8 <= usize::MAX,
        ensures
            final(self)@ == old(self)@ + 8,
    {
        self.tally(8);
    }

    /// Counts a big-endian signed 64-bit integer: 8 bytes.
    pub fn put_i64(&mut self, _n: i64)
        requires
            old(self)@ + 8 <= usize::MAX,
        ensures
            final(self)@ == old(self)@ + 8,
    {
        self.tally(8);
    }

    /// Counts a little-endian signed 64-bit integer: 8 bytes.
    pub fn put_i64_le(&mut self, _n: i64)
        requires
            old(self)@ + 8 <= usize::MAX,
        ensures
            final(self)@ == old(self)@ + 8,
    {
        self.tally(8);
    }

    /// Counts a big-endian unsigned 128-bit integer: 16 bytes.
    pub fn put_u128(&mut self, _n: u128)
        requires
            old(self)@ + 16 <= usize::MAX,
        ensures
            final(self)@ == old(self)@ + 16,
    {
        self.tally(16);
    }

    /// Counts a little-endian unsigned 128-bit integer: 16 bytes.
    pub fn put_u128_le(&mut self, _n: u128)
        requires
            old(self)@ + 16 <= usize::MAX,
        ensures
            final(self)@ == old(self)@ + 16,
    {
        self.tally(16);
    }

    /// Counts a big-endian signed 128-bit integer: 16 bytes.
    pub fn put_i128(&mut self, _n: i128)
        requires
            old(self)@ + 16 <= usize::MAX,
        ensures
            final(self)@ == old(self)@ + 16,
    {
        self.tally(16);
    }

    /// Counts a little-endian signed 128-bit integer: 16 bytes.
    pub fn put_i128_le(&mut self, _n: i128)
        requires
            old(self)@ + 16 <= usize::MAX,
        ensures
            final(self)@ == old(self)@ + 16,
    {
        self.tally(16);
    }

    /// Counts a big-endian 32-bit float, given by its IEEE 754 bit pattern: 4 bytes.
    pub fn put_f32(&mut self, _n: u32)
        requires
            old(self)@ + 4 <= usize::MAX,
        ensures
            final(self)@ == old(self)@ + 4,
    {
        self.tally(4);
    }

    /// Counts a little-endian 32-bit float, given by its IEEE 754 bit pattern: 4 bytes.
    pub fn put_f32_le(&mut self, _n: u32)
        requires
            old(self)@ + 4 <= usize::MAX,
        ensures
            final(self)@ == old(self)@ + 4,
    {
        self.tally(4);
    }

    /// Counts a big-endian 64-bit float, given by its IEEE 754 bit pattern: 8 bytes.
    pub fn put_f64(&mut self, _n: u64)
        requires
            old(self)@ + 8 <= usize::MAX,
        ensures
            final(self)@ == old(self)@ + 8,
    {
        self.tally(8);
    }

    /// Counts a little-endian 64-bit float, given by its IEEE 754 bit pattern: 8 bytes.
    pub fn put_f64_le(&mut self, _n: u64)
        requires
            old(self)@ + 8 <= usize::MAX,
        ensures
            final(self)@ == old(self)@ + 8,
    {
        self.tally(8);
    }

    /// Counts a big-endian unsigned integer written in `nbytes` bytes,
    /// whatever its value.
    pub fn put_uint(&mut self, _n: u64, nbytes: usize)
        requires
            old(self)@ + nbytes <= usize::MAX,
        ensures
            final(self)@ == old(self)@ + nbytes,
    {
        self.tally(nbytes);
    }

    /// Counts a little-endian unsigned integer written in `nbytes` bytes,
    /// whatever its value.
    pub fn put_uint_le(&mut self, _n: u64, nbytes: usize)
        requires
            old(self)@ + nbytes <= usize::MAX,
        ensures
            final(self)@ == old(self)@ + nbytes,
    {
        self.tally(nbytes);
    }

    /// Counts a big-endian signed integer written in `nbytes` bytes,
    /// whatever its value.
    pub fn put_int(&mut self, _n: i64, nbytes: usize)
        requires
            old(self)@ + nbytes <= usize::MAX,
        ensures
            final(self)@ == old(self)@ + nbytes,
    {
        self.tally(nbytes);
    }

    /// Counts a little-endian signed integer written in `nbytes` bytes,
    /// whatever its value.
    pub fn put_int_le(&mut self, _n: i64, nbytes: usize)
        requires
            old(self)@ + nbytes <= usize::MAX,
        ensures
            final(self)@ == old(self)@ + nbytes,
    {
        self.tally(nbytes);
    }

    /// Counts the bytes that `src` has left to read; `src` itself is
    /// dropped.
    pub fn put(&mut self, src: bytes::Bytes)
        requires
            old(self)@ + bytes_contents(src).len() <= usize::MAX,
        ensures
            final(self)@ == old(self)@ + bytes_contents(src).len(),
    {
        let len = bytes_remaining(&src);
        self.tally(len);
    }

    /// Counts the bytes that `src` has left to read, where the count has
    /// room for them, and says whether it did; otherwise the count stays as
    /// it was.
    pub fn try_put(&mut self, src: bytes::Bytes) -> (r: bool)
        ensures
            r == (old(self)@ + bytes_contents(src).len() <= usize::MAX),
            r ==> final(self)@ == old(self)@ + bytes_contents(src).len(),
            !r ==> *final(self) == *old(self),
    {
        let len = bytes_remaining(&src);
        if len <= usize::MAX - self.count {
            self.tally(len);
            true
        } else {
            false
        }
    }

    /// Counts the bytes of `src`.
    pub fn put_slice(&mut self, src: &[u8])
        requires
            old(self)@ + src@.len() <= usize::MAX,
        ensures
            final(self)@ == old(self)@ + src@.len(),
    {
        self.tally(src.len());
    }

    /// Stream write: counts the bytes of `buf` and reports all of them
    /// written.
    pub fn write(&mut self, buf: &[u8]) -> (r: std::io::Result<usize>)
        requires
            old(self)@ + buf@.len() <= usize::MAX,
        ensures
            final(self)@ == old(self)@ + buf@.len(),
            r matches Ok(n) && n == buf@.len(),
    {
        self.tally(buf.len());
        Ok(buf.len())
    }

    /// Stream write of a whole buffer: counts its bytes and succeeds.
    pub fn write_all(&mut self, buf: &[u8]) -> (r: std::io::Result<()>)
        requires
            old(self)@ + buf@.len() <= usize::MAX,
        ensures
            final(self)@ == old(self)@ + buf@.len(),
            r is Ok,
    {
        self.tally(buf.len());
        Ok(())
    }

    /// Stream write of several buffers: counts the bytes of all of them and
    /// reports their total written.
    pub fn write_vectored(&mut self, bufs: &[&[u8]]) -> (r: std::io::Result<usize>)
        requires
            old(self)@ + total_len(bufs@) <= usize::MAX,
        ensures
            final(self)@ == old(self)@ + total_len(bufs@),
            r matches Ok(n) && n == total_len(bufs@),
    {
        let mut sum: usize = 0;
        let mut i: usize = 0;
        while i < bufs.len()
            invariant
                i <= bufs@.len(),
                sum == total_len(bufs@.take(i as int)),
                old(self)@ + total_len(bufs@) <= usize::MAX,
                *self == *old(self),
            decreases bufs@.len() - i,
        {
            proof {
                lemma_total_len_prefix(bufs@, i as int + 1);
                assert(bufs@.take(i as int + 1).drop_last() == bufs@.take(i as int));
            }
            sum = sum + bufs[i].len();
            i = i + 1;
        }
        assert(bufs@.take(bufs@.len() as int) == bufs@);
        self.tally(sum);
        Ok(sum)
    }

    /// Stream flush: there is nothing to flush, so it succeeds and changes
    /// nothing.
    pub fn flush(&mut self) -> (r: std::io::Result<()>)
        ensures
            *final(self) == *old(self),
            r is Ok,
    {
        Ok(())
    }
}

/// The total of a prefix never exceeds the total of the whole list.
proof fn lemma_total_len_prefix(bufs: Seq<&[u8]>, k: int)
    requires
        0 <= k <= bufs.len(),
    ensures
        total_len(bufs.take(k)) <= total_len(bufs),
    decreases bufs.len(),
{
    if k < bufs.len() {
        assert(bufs.drop_last().take(k) == bufs.take(k));
        lemma_total_len_prefix(bufs.drop_last(), k);
    } else {
        assert(bufs.take(k) == bufs);
    }
}

} // verus!
