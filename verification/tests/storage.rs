use ratchet_core::buffer::{RawCPUBuffer, TensorDType};
use ratchet_core::dtype::DType;
use ratchet_core::error::OperationError;
use ratchet_core::shape::Shape;

#[test]
fn u32_round_trip() {
    let data: Vec<u32> = vec![1, 2, 3, 0xDEADBEEF];
    let shape = Shape::new(vec![2, 2]);
    let buf = RawCPUBuffer::from_slice(&data, &shape);
    assert_eq!(buf.n_bytes(), 16);
    let back: Vec<u32> = buf.read_slice();
    assert_eq!(back, data);
}

#[test]
fn u32_little_endian_layout() {
    let data: Vec<u32> = vec![0x04030201];
    let shape = Shape::new(vec![1]);
    let buf = RawCPUBuffer::from_slice(&data, &shape);
    assert_eq!(buf.as_bytes(), &[0x01, 0x02, 0x03, 0x04]);
}

#[test]
fn i32_round_trip() {
    let data: Vec<i32> = vec![-1, 0, 2147483647, -2147483648];
    let shape = Shape::new(vec![4]);
    let buf = RawCPUBuffer::from_slice(&data, &shape);
    let back: Vec<i32> = buf.read_slice();
    assert_eq!(back, data);
}

#[test]
fn f32_round_trip_via_bytes() {
    let values: Vec<f32> = vec![1.5f32, -0.25f32, 3.1415926f32, 0.0f32];
    let mut bytes: Vec<u8> = Vec::new();
    for v in &values {
        bytes.extend_from_slice(&v.to_le_bytes());
    }
    let buf = RawCPUBuffer::from_bytes(&bytes, 4);
    let raw = buf.as_bytes();
    for (i, v) in values.iter().enumerate() {
        let mut w = [0u8; 4];
        w.copy_from_slice(&raw[4 * i..4 * i + 4]);
        assert_eq!(f32::from_le_bytes(w), *v);
    }
}

#[test]
fn from_bytes_copies_verbatim() {
    let bytes = [7u8, 8, 9, 10, 11];
    let buf = RawCPUBuffer::from_bytes(&bytes, 1);
    assert_eq!(buf.as_bytes(), &bytes);
    let (data, alignment) = buf.inner();
    assert_eq!(data.as_slice(), &bytes);
    assert_eq!(alignment, 1);
}

#[test]
fn clone_independence() {
    let source = RawCPUBuffer::from_bytes(&[1u8, 2, 3], 1);
    let mut copy = source.clone();
    assert_eq!(source.as_bytes(), copy.as_bytes());
    copy.set_byte(0, 99);
    assert_eq!(source.as_bytes(), &[1, 2, 3]);
    assert_eq!(copy.as_bytes(), &[99, 2, 3]);

    let mut source = source;
    source.set_byte(2, 42);
    assert_eq!(copy.as_bytes(), &[99, 2, 3]);
    assert_eq!(source.as_bytes(), &[1, 2, 42]);
}

#[test]
fn zero_length_buffer() {
    let buf = RawCPUBuffer::from_bytes(&[], 4);
    assert_eq!(buf.n_bytes(), 0);
    assert!(buf.as_bytes().is_empty());
    drop(buf);

    let buf = RawCPUBuffer::uninitialized(0, 1);
    assert_eq!(buf.n_bytes(), 0);
    assert!(buf.as_bytes().is_empty());
    drop(buf);
}

#[test]
fn uninitialized_starts_zeroed() {
    let buf = RawCPUBuffer::uninitialized(5, 1);
    assert_eq!(buf.as_bytes(), &[0u8; 5]);
}

#[test]
fn transfer_to_device_preserves_bytes() {
    let buf = RawCPUBuffer::from_bytes(&[5u8, 6, 7], 1);
    let gpu = buf.to_device();
    assert_eq!(gpu.n_bytes(), 3);
}

#[test]
fn to_cpu_is_identity() {
    let buf = RawCPUBuffer::from_bytes(&[5u8, 6], 2);
    let same = buf.to_cpu();
    assert_eq!(same.as_bytes(), &[5, 6]);
}

#[test]
fn dump_plan_truncates_to_64() {
    let data: Vec<u32> = (0..100u32).collect();
    let shape = Shape::new(vec![100]);
    let buf = RawCPUBuffer::from_slice(&data, &shape);
    let plan = buf.dump_plan(DType::U32, false).unwrap();
    assert_eq!(plan.n_elems, 100);
    assert_eq!(plan.head_end, 64);
    assert_eq!(plan.tail_start, 36);
    assert!(!plan.full);
}

#[test]
fn dump_plan_full() {
    let data: Vec<u32> = (0..100u32).collect();
    let shape = Shape::new(vec![100]);
    let buf = RawCPUBuffer::from_slice(&data, &shape);
    let plan = buf.dump_plan(DType::U32, true).unwrap();
    assert_eq!(plan.head_end, 100);
    assert_eq!(plan.tail_start, 100);
    assert!(plan.full);
}

#[test]
fn dump_plan_short_buffer() {
    let data: Vec<i32> = vec![-5, 6];
    let shape = Shape::new(vec![2]);
    let buf = RawCPUBuffer::from_slice(&data, &shape);
    let plan = buf.dump_plan(DType::I32, false).unwrap();
    assert_eq!(plan.n_elems, 2);
    assert_eq!(plan.head_end, 2);
    assert_eq!(plan.tail_start, 0);
}

#[test]
fn dump_plan_rejects_unsupported_dtype() {
    let buf = RawCPUBuffer::from_bytes(&[0u8, 0], 2);
    let r = buf.dump_plan(DType::F16, false);
    assert_eq!(r, Err(OperationError::UnsupportedDType(DType::F16)));
}

#[test]
fn dtype_sizes() {
    assert_eq!(DType::F32.size_of(), 4);
    assert_eq!(DType::F16.size_of(), 2);
    assert_eq!(DType::I32.size_of(), 4);
    assert_eq!(DType::U32.size_of(), 4);
    assert_eq!(<u32 as TensorDType>::size_of(), 4);
    assert_eq!(<i32 as TensorDType>::dt(), DType::I32);
}

#[test]
fn shape_numel() {
    assert_eq!(Shape::new(vec![2, 3, 4]).numel(), 24);
    assert_eq!(Shape::new(vec![]).numel(), 1);
    assert_eq!(Shape::new(vec![5, 0, 7]).numel(), 0);
    assert_eq!(Shape::new(vec![2, 3, 4]).numel_range(0, 2), 6);
    assert_eq!(Shape::new(vec![2, 3, 4]).rank(), 3);
}
