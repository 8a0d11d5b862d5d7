//! Split virtqueues (virtio 1.1, sections 2.5 and 2.6): the descriptor table,
//! the available ring the driver fills and the used ring the device fills.
use vstd::prelude::*;

verus! {

/// Size of a memory page on the target.
pub const PAGE_SIZE: usize = 4096;

/// Number of entries in each ring. Queue sizes are powers of two, and the
/// available and used rings of one queue have the same size.
pub const RING_SIZE: usize = 2;

/// Number of descriptors that fit in one page: in the device's layout
/// (section 2.6.5) a descriptor takes 16 bytes, a 64-bit address, a 32-bit
/// length and two 16-bit fields.
pub const DESC_TABLE_CAPACITY: usize = PAGE_SIZE / 16;

/// Flags of a descriptor (section 2.6.5).
#[derive(PartialEq, Eq, Structural, Clone, Copy, Debug)]
pub enum VirtQueueDescFeat {
    /// The buffer is read only for the device.
    Ro,
    /// The buffer continues in the descriptor named by `next`.
    Next,
    /// The buffer is write only for the device.
    Write,
    /// The buffer holds a list of buffer descriptors.
    Indirect,
}

impl VirtQueueDescFeat {
    pub open spec fn spec_bits(self) -> u16 {
        match self {
            VirtQueueDescFeat::Ro => 0x0,
            VirtQueueDescFeat::Next => 0x1,
            VirtQueueDescFeat::Write => 0x2,
            VirtQueueDescFeat::Indirect => 0x4,
        }
    }

    /// The value of this flag in a descriptor's `flags` field.
    #[verifier::when_used_as_spec(spec_bits)]
    pub fn bits(self) -> (r: u16)
        ensures
            r == self.spec_bits(),
    {
        match self {
            VirtQueueDescFeat::Ro => 0x0,
            VirtQueueDescFeat::Next => 0x1,
            VirtQueueDescFeat::Write => 0x2,
            VirtQueueDescFeat::Indirect => 0x4,
        }
    }
}

/// One entry of the descriptor table (section 2.6.5).
///
/// This type holds the contents; its memory layout is Rust's default and is
/// not fixed here. What the device reads must be laid out in C order, little
/// endian, as the section says; the caller builds that copy.
#[derive(PartialEq, Eq, Structural, Clone, Copy, Debug)]
pub struct VirtQueueDesc {
    /// Guest physical address of the buffer.
    pub addr: usize,
    /// Length of the buffer in bytes.
    pub len: u32,
    /// `VirtQueueDescFeat` bits.
    pub flags: u16,
    /// Index of the next descriptor of the chain, if `Next` is set.
    pub next: u16,
}

impl VirtQueueDesc {
    /// A descriptor with every field zero.
    pub open spec fn zeroed() -> Self {
        VirtQueueDesc { addr: 0, len: 0, flags: 0, next: 0 }
    }
}

/// The driver area, or available ring (section 2.6.6).
///
/// This type holds the contents; its memory layout is Rust's default and is
/// not fixed here. What the device reads must be laid out in C order, little
/// endian, as the section says; the caller builds that copy.
#[derive(Clone, Copy, Debug)]
pub struct VirtQueueAvail {
    /// Bit 0 is `VIRTQ_AVAIL_F_NO_INTERRUPT`.
    pub flags: u16,
    /// Where the driver puts the next descriptor entry, modulo the queue size.
    pub idx: u16,
    /// Heads of the descriptor chains offered to the device.
    pub ring: [u16; RING_SIZE],
    /// Only used when the `EVENT_IDX` feature is negotiated.
    pub used_event: u16,
}

impl VirtQueueAvail {
    /// An available ring with every field zero.
    pub fn new() -> (r: Self)
        ensures
            r.flags == 0,
            r.idx == 0,
            forall|i: int| 0 <= i < RING_SIZE ==> #[trigger] r.ring@[i] == 0,
            r.used_event == 0,
    {
        Self { flags: 0, idx: 0, ring: [0u16; RING_SIZE], used_event: 0 }
    }
}

/// The device area, or used ring (section 2.6.8).
///
/// This type holds the contents; its memory layout is Rust's default and is
/// not fixed here. What the device reads must be laid out in C order, little
/// endian, as the section says; the caller builds that copy.
#[derive(Clone, Copy, Debug)]
pub struct VirtQueueUsed {
    pub flags: u16,
    /// Where the device puts the next used element, modulo the queue size.
    pub idx: u16,
    /// Used elements, each packed in 64 bits (see `VirtQueueUsedElem`).
    pub used_ring: [u64; RING_SIZE],
    /// Only used when the `EVENT_IDX` feature is negotiated.
    pub avail_event: u16,
}

impl VirtQueueUsed {
    /// A used ring with every field zero.
    pub fn new() -> (r: Self)
        ensures
            r.flags == 0,
            r.idx == 0,
            forall|i: int| 0 <= i < RING_SIZE ==> #[trigger] r.used_ring@[i] == 0,
            r.avail_event == 0,
    {
        Self { flags: 0, idx: 0, used_ring: [0u64; RING_SIZE], avail_event: 0 }
    }
}

/// An element of the used ring: the head of a finished descriptor chain and
/// the number of bytes the device wrote into it.
#[derive(PartialEq, Eq, Structural, Clone, Copy, Debug)]
pub struct VirtQueueUsedElem {
    pub id: u32,
    pub len: u32,
}

impl VirtQueueUsedElem {
    /// The element stored little endian in a used-ring slot (section 2.6.8):
    /// `id` in the low 32 bits, `len` in the high 32 bits.
    pub open spec fn unpack(num: u64) -> Self {
        VirtQueueUsedElem { id: (num % 0x1_0000_0000) as u32, len: (num / 0x1_0000_0000) as u32 }
    }
}

impl From<u64> for VirtQueueUsedElem {
    fn from(num: u64) -> (r: Self) {
        assert(num as u32 == (num % 0x1_0000_0000u64) as u32) by (bit_vector);
        assert((num >> 32u64) as u32 == (num / 0x1_0000_0000u64) as u32) by (bit_vector);
        Self { id: num as u32, len: (num >> 32u64) as u32 }
    }
}

impl vstd::std_specs::convert::FromSpecImpl<u64> for VirtQueueUsedElem {
    open spec fn obeys_from_spec() -> bool {
        true
    }

    open spec fn from_spec(num: u64) -> Self {
        VirtQueueUsedElem::unpack(num)
    }
}

/// Unpacking keeps all 64 bits: the packed value is `len * 2^32 + id`.
pub proof fn lemma_used_elem_fields(num: u64)
    ensures
        VirtQueueUsedElem::unpack(num).len as int * 0x1_0000_0000 + VirtQueueUsedElem::unpack(
            num,
        ).id as int == num as int,
{
    assert(num / 0x1_0000_0000u64 < 0x1_0000_0000u64) by (bit_vector);
}

/// A split virtqueue: descriptor area, driver area and device area.
pub struct SplitVirtQueue {
    /// Descriptor area.
    pub desc: Vec<VirtQueueDesc>,
    /// Driver area (available ring): extra information from driver to device.
    pub avail: Box<VirtQueueAvail>,
    /// Device area (used ring): extra information from device to driver.
    pub used: Box<VirtQueueUsed>,
}

impl SplitVirtQueue {
    /// A fresh queue: a table of `DESC_TABLE_CAPACITY` descriptors and both
    /// rings, everything zeroed.
    pub fn new() -> (r: Self)
        ensures
            r.desc@.len() == DESC_TABLE_CAPACITY,
            DESC_TABLE_CAPACITY >= RING_SIZE,
            forall|i: int| 0 <= i < r.desc@.len() ==> #[trigger] r.desc@[i] == VirtQueueDesc::zeroed(),
            r.avail.flags == 0,
            r.avail.idx == 0,
            forall|i: int| 0 <= i < RING_SIZE ==> #[trigger] r.avail.ring@[i] == 0,
            r.avail.used_event == 0,
            r.used.flags == 0,
            r.used.idx == 0,
            forall|i: int| 0 <= i < RING_SIZE ==> #[trigger] r.used.used_ring@[i] == 0,
            r.used.avail_event == 0,
    {
        let mut desc: Vec<VirtQueueDesc> = Vec::with_capacity(DESC_TABLE_CAPACITY);
        let mut i: usize = 0;
        while i < DESC_TABLE_CAPACITY
            invariant
                0 <= i <= DESC_TABLE_CAPACITY,
                desc@.len() == i,
                forall|j: int| 0 <= j < i ==> #[trigger] desc@[j] == VirtQueueDesc::zeroed(),
            decreases DESC_TABLE_CAPACITY - i,
        {
            desc.push(VirtQueueDesc { addr: 0, len: 0, flags: 0, next: 0 });
            i = i + 1;
        }
        let avail = Box::new(VirtQueueAvail::new());
        let used = Box::new(VirtQueueUsed::new());
        Self { desc, avail, used }
    }

    /// The three areas of the queue, whose addresses the device is told.
    pub fn get_ring_ptrs(&self) -> (r: (&[VirtQueueDesc], &VirtQueueAvail, &VirtQueueUsed))
        ensures
            r.0@ == self.desc@,
            *r.1 == *self.avail,
            *r.2 == *self.used,
    {
        (self.desc.as_slice(), &*self.avail, &*self.used)
    }
}

} // verus!
