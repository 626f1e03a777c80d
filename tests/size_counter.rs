use bufsize::{Endian, SizeCounter, WriteOp};
use bytes::{Buf, BufMut, Bytes};

fn sample_ops() -> Vec<WriteOp> {
    vec![
        WriteOp::U8(5),
        WriteOp::Slice(b"hello".to_vec()),
        WriteOp::U32(9999, Endian::Little),
        WriteOp::F32(1.0f32.to_bits(), Endian::Little),
        WriteOp::I16(-2, Endian::Big),
        WriteOp::U64(1 << 40, Endian::Big),
        WriteOp::I128(-1, Endian::Little),
        WriteOp::Uint(0x01_0203, 3, Endian::Big),
        WriteOp::Int(-7, 5, Endian::Little),
        WriteOp::F64(2.5f64.to_bits(), Endian::Big),
    ]
}

fn write_to_vec(ops: &[WriteOp], out: &mut Vec<u8>) {
    for op in ops {
        match op {
            WriteOp::U8(n) => out.put_u8(*n),
            WriteOp::I8(n) => out.put_i8(*n),
            WriteOp::U16(n, Endian::Big) => out.put_u16(*n),
            WriteOp::U16(n, Endian::Little) => out.put_u16_le(*n),
            WriteOp::I16(n, Endian::Big) => out.put_i16(*n),
            WriteOp::I16(n, Endian::Little) => out.put_i16_le(*n),
            WriteOp::U32(n, Endian::Big) => out.put_u32(*n),
            WriteOp::U32(n, Endian::Little) => out.put_u32_le(*n),
            WriteOp::I32(n, Endian::Big) => out.put_i32(*n),
            WriteOp::I32(n, Endian::Little) => out.put_i32_le(*n),
            WriteOp::U64(n, Endian::Big) => out.put_u64(*n),
            WriteOp::U64(n, Endian::Little) => out.put_u64_le(*n),
            WriteOp::I64(n, Endian::Big) => out.put_i64(*n),
            WriteOp::I64(n, Endian::Little) => out.put_i64_le(*n),
            WriteOp::U128(n, Endian::Big) => out.put_u128(*n),
            WriteOp::U128(n, Endian::Little) => out.put_u128_le(*n),
            WriteOp::I128(n, Endian::Big) => out.put_i128(*n),
            WriteOp::I128(n, Endian::Little) => out.put_i128_le(*n),
            WriteOp::Uint(n, w, Endian::Big) => out.put_uint(*n, *w),
            WriteOp::Uint(n, w, Endian::Little) => out.put_uint_le(*n, *w),
            WriteOp::Int(n, w, Endian::Big) => out.put_int(*n, *w),
            WriteOp::Int(n, w, Endian::Little) => out.put_int_le(*n, *w),
            WriteOp::F32(b, Endian::Big) => out.put_f32(f32::from_bits(*b)),
            WriteOp::F32(b, Endian::Little) => out.put_f32_le(f32::from_bits(*b)),
            WriteOp::F64(b, Endian::Big) => out.put_f64(f64::from_bits(*b)),
            WriteOp::F64(b, Endian::Little) => out.put_f64_le(f64::from_bits(*b)),
            WriteOp::Slice(v) => out.put_slice(v),
        }
    }
}

#[test]
fn new_counter_is_empty() {
    assert_eq!(SizeCounter::new().size(), 0);
}

#[test]
fn documented_scenario_counts_fourteen() {
    let mut c = SizeCounter::new();
    c.put_u8(5);
    c.put_slice(b"abcde");
    c.put_u32_le(9999);
    c.put_f32_le(1.0f32.to_bits());
    assert_eq!(c.size(), 14);
}

#[test]
fn variable_width_counts_given_width() {
    for n in [0u64, 1, 0xff_ffff, u64::MAX] {
        let mut c = SizeCounter::new();
        c.put_uint(n, 3);
        assert_eq!(c.size(), 3);
        c.put_uint_le(n, 3);
        assert_eq!(c.size(), 6);
    }
    let mut c = SizeCounter::new();
    c.put_int(-1, 5);
    c.put_int_le(i64::MIN, 2);
    assert_eq!(c.size(), 7);
    c.put_uint(1, 0);
    assert_eq!(c.size(), 7);
    c.put_uint(1, 12);
    assert_eq!(c.size(), 19);
}

#[test]
fn fixed_widths_match_table() {
    let mut c = SizeCounter::new();
    c.put_u8(1);
    c.put_i8(-1);
    assert_eq!(c.size(), 2);
    c.put_u16(1);
    c.put_u16_le(1);
    c.put_i16(1);
    c.put_i16_le(1);
    assert_eq!(c.size(), 10);
    c.put_u32(1);
    c.put_u32_le(1);
    c.put_i32(1);
    c.put_i32_le(1);
    assert_eq!(c.size(), 26);
    c.put_u64(1);
    c.put_u64_le(1);
    c.put_i64(1);
    c.put_i64_le(1);
    assert_eq!(c.size(), 58);
    c.put_u128(1);
    c.put_u128_le(1);
    c.put_i128(1);
    c.put_i128_le(1);
    assert_eq!(c.size(), 122);
    c.put_f32(0.5f32.to_bits());
    c.put_f32_le(0.5f32.to_bits());
    assert_eq!(c.size(), 130);
    c.put_f64(0.5f64.to_bits());
    c.put_f64_le(0.5f64.to_bits());
    assert_eq!(c.size(), 146);
}

#[test]
fn empty_slice_counts_nothing() {
    let mut c = SizeCounter::new();
    c.put_slice(&[]);
    assert_eq!(c.size(), 0);
}

#[test]
fn capacity_is_always_unbounded() {
    let mut c = SizeCounter::new();
    assert_eq!(c.remaining_mut(), usize::MAX);
    assert!(c.has_remaining_mut());
    c.put_slice(&[0u8; 1000]);
    c.put_u128(7);
    assert_eq!(c.remaining_mut(), usize::MAX);
    assert!(c.has_remaining_mut());
}

#[test]
fn advance_mut_changes_nothing() {
    let mut c = SizeCounter::new();
    c.put_u32(3);
    c.advance_mut(100);
    assert_eq!(c.size(), 4);
}

#[test]
fn stream_writes_report_success() {
    let mut c = SizeCounter::new();
    assert_eq!(c.write(b"abc").unwrap(), 3);
    assert!(c.write_all(b"defg").is_ok());
    assert_eq!(c.size(), 7);
    assert!(c.flush().is_ok());
    assert_eq!(c.size(), 7);
    assert!(c.write_all(&[]).is_ok());
    assert_eq!(c.size(), 7);
}

#[test]
fn write_vectored_counts_all_buffers() {
    let mut c = SizeCounter::new();
    let parts: Vec<&[u8]> = vec![b"ab", b"", b"cdef"];
    assert_eq!(c.write_vectored(&parts).unwrap(), 6);
    assert_eq!(c.size(), 6);
    assert_eq!(c.write_vectored(&[]).unwrap(), 0);
    assert_eq!(c.size(), 6);
}

#[test]
fn put_counts_remaining_bytes() {
    let mut c = SizeCounter::new();
    c.put(Bytes::from_static(b"hello"));
    assert_eq!(c.size(), 5);
    let mut b = Bytes::from_static(b"abcdefgh");
    b.advance(3);
    c.put(b);
    assert_eq!(c.size(), 10);
    c.put(Bytes::new());
    assert_eq!(c.size(), 10);
}

#[test]
fn try_put_counts_when_room() {
    let mut c = SizeCounter::new();
    assert!(c.try_put(Bytes::from_static(b"xyz")));
    assert_eq!(c.size(), 3);
}

#[test]
fn put_all_sums_widths() {
    let mut c = SizeCounter::new();
    c.put_all(&sample_ops());
    assert_eq!(c.size(), 1 + 5 + 4 + 4 + 2 + 8 + 16 + 3 + 5 + 8);
    let mut d = SizeCounter::new();
    for op in sample_ops() {
        d.put_op(&op);
    }
    assert_eq!(d.size(), c.size());
}

#[test]
fn measuring_twice_gives_same_size() {
    let mut first = SizeCounter::new();
    first.put_all(&sample_ops());
    let mut second = SizeCounter::new();
    second.put_all(&sample_ops());
    assert_eq!(first.size(), second.size());
}

#[test]
fn count_matches_real_vec_output() {
    let ops = sample_ops();
    let mut c = SizeCounter::new();
    c.put_all(&ops);
    let mut out: Vec<u8> = Vec::with_capacity(c.size());
    write_to_vec(&ops, &mut out);
    assert_eq!(c.size(), out.len());
}
