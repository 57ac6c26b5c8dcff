use offload_core::accel::{checksum, offload_operation};
use offload_core::transport::connect;
use offload_core::{IoDesc, IoFlags, IoOp, SpscRing};
use std::sync::Arc;
use std::task::{Wake, Waker};

struct NoopWake;

impl Wake for NoopWake {
    fn wake(self: Arc<Self>) {}
}

#[test]
fn op_labels() {
    assert_eq!(IoOp::Read.as_str(), "read");
    assert_eq!(IoOp::Write.as_str(), "write");
    assert_eq!(IoOp::Flush.as_str(), "flush");
    assert_eq!(IoOp::Discard.as_str(), "discard");
}

#[test]
fn descriptor_keeps_its_fields() {
    let flags = IoFlags { fua: true, barrier: false };
    let desc = IoDesc::new(IoOp::Write, 7, 1 << 40, 256, flags, None);
    assert_eq!(desc.op, IoOp::Write);
    assert_eq!(desc.namespace_id, 7);
    assert_eq!(desc.lba, 1 << 40);
    assert_eq!(desc.length, 256);
    assert_eq!(desc.flags, flags);
    assert!(!desc.has_completion());
}

#[test]
fn completion_is_taken_at_most_once() {
    let waker = Waker::from(Arc::new(NoopWake));
    let mut desc = IoDesc::new(IoOp::Read, 1, 0, 8, IoFlags::default(), Some(waker));
    assert!(desc.has_completion());
    assert!(desc.take_completion().is_some());
    assert!(!desc.has_completion());
    assert!(desc.take_completion().is_none());
    assert_eq!(desc.op, IoOp::Read);
    assert_eq!(desc.length, 8);
}

#[test]
fn descriptors_cross_the_ring_in_order() {
    let mut ring = SpscRing::with_capacity(2);
    let flags = IoFlags { fua: false, barrier: true };
    assert!(ring.push(IoDesc::new(IoOp::Flush, 3, 10, 1, flags, None)).is_ok());
    assert!(ring.push(IoDesc::new(IoOp::Discard, 3, 20, 2, flags, None)).is_ok());
    assert!(ring.push(IoDesc::new(IoOp::Read, 3, 30, 3, flags, None)).is_err());
    let first = ring.pop().ok().unwrap();
    let second = ring.pop().ok().unwrap();
    assert_eq!((first.op, first.lba, first.length), (IoOp::Flush, 10, 1));
    assert_eq!((second.op, second.lba, second.length), (IoOp::Discard, 20, 2));
    assert!(second.flags.barrier);
}

#[test]
fn checksum_sums_bytes() {
    assert_eq!(checksum(&[]).unwrap(), 0);
    assert_eq!(checksum(&[1, 2, 3]).unwrap(), 6);
    assert_eq!(checksum(&[255, 255]).unwrap(), 510);
}

#[test]
fn checksum_wraps_at_u32() {
    let data = vec![255u8; 16_843_010];
    // 255 * 16_843_010 = 4_294_967_550 = 2^32 + 254
    assert_eq!(checksum(&data).unwrap(), 254);
}

#[test]
fn offload_and_connect_accept() {
    assert!(offload_operation("crc").is_ok());
    assert!(connect("127.0.0.1:4420").is_ok());
}
