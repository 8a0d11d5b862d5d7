use mellow::blk::{virtio_blk_write, VirtBlkReq, VIRTIO_BLK_S_OK, VIRTIO_BLK_T_OUT};
use mellow::queue::{
    SplitVirtQueue, VirtQueueAvail, VirtQueueDesc, VirtQueueDescFeat, VirtQueueUsed, VirtQueueUsedElem,
    DESC_TABLE_CAPACITY, RING_SIZE,
};

#[test]
fn fresh_rings_are_zero() {
    let a = VirtQueueAvail::new();
    assert_eq!((a.flags, a.idx, a.ring, a.used_event), (0, 0, [0; RING_SIZE], 0));
    let u = VirtQueueUsed::new();
    assert_eq!((u.flags, u.idx, u.used_ring, u.avail_event), (0, 0, [0; RING_SIZE], 0));
}

#[test]
fn fresh_queue() {
    let q = SplitVirtQueue::new();
    assert_eq!(q.desc.len(), DESC_TABLE_CAPACITY);
    assert!(q.desc.len() >= RING_SIZE);
    assert!(q.desc.iter().all(|d| *d == VirtQueueDesc { addr: 0, len: 0, flags: 0, next: 0 }));
    assert_eq!(q.avail.ring, [0, 0]);
    assert_eq!(q.used.used_ring, [0, 0]);
    let (d, a, u) = q.get_ring_ptrs();
    assert_eq!(d.len(), DESC_TABLE_CAPACITY);
    assert!(std::ptr::eq(a, &*q.avail));
    assert!(std::ptr::eq(u, &*q.used));
}

#[test]
fn used_elem_unpacking() {
    let e = VirtQueueUsedElem::from(0x0000_0005_abcd_1234u64);
    assert_eq!(e, VirtQueueUsedElem { id: 0xabcd_1234, len: 5 });
    let e: VirtQueueUsedElem = 0xffff_ffff_ffff_ffffu64.into();
    assert_eq!(e, VirtQueueUsedElem { id: 0xffff_ffff, len: 0xffff_ffff });
    let e = VirtQueueUsedElem::from(0x0000_0200_0000_0003u64);
    assert_eq!(e, VirtQueueUsedElem { id: 3, len: 0x200 });
    assert_eq!(VirtQueueUsedElem::from(0u64), VirtQueueUsedElem { id: 0, len: 0 });
}

#[test]
fn descriptor_flag_values() {
    assert_eq!(VirtQueueDescFeat::Ro.bits(), 0);
    assert_eq!(VirtQueueDescFeat::Next.bits(), 1);
    assert_eq!(VirtQueueDescFeat::Write.bits(), 2);
    assert_eq!(VirtQueueDescFeat::Indirect.bits(), 4);
    assert_eq!(DESC_TABLE_CAPACITY, 256);
}

#[test]
fn block_write_takes_data() {
    let req = VirtBlkReq {
        flavor: VIRTIO_BLK_T_OUT,
        reserved: 0,
        sector: 0,
        data: vec![1, 2, 3],
        status: VIRTIO_BLK_S_OK,
    };
    virtio_blk_write(req.data);
}
