//! Register layout of the virtio MMIO transport (virtio 1.1, section 4.2.2),
//! the device status bits (section 2.1) and the block device feature bits
//! (section 5.2.3).
use vstd::prelude::*;

verus! {

/// Physical base address of the virtio MMIO window on the QEMU `virt` board.
/// Device discovery is not possible over MMIO, so the address is fixed.
pub const VIRTIO_BASE: usize = 0x10001000;

/// Magic value; reads as 0x74726976, "virt" in little endian.
pub const VIRTIO_MAGIC: usize = 0x0;
/// Device version number: 0x2, or 0x1 for legacy devices.
pub const VIRTIO_VERSION: usize = 0x004;
/// Virtio subsystem device id.
pub const VIRTIO_DEVICE_ID: usize = 0x008;
/// Virtio subsystem vendor id.
pub const VIRTIO_VENDOR_ID: usize = 0x00c;
/// Features the device supports, as a bit map.
pub const VIRTIO_DEVICE_FEATURES: usize = 0x010;
/// Selects which 32 feature bits `VIRTIO_DEVICE_FEATURES` shows.
pub const VIRTIO_DEVICE_FEATURES_SEL: usize = 0x014;
/// Features the driver accepts.
pub const VIRTIO_DRIVER_FEATURES: usize = 0x020;
/// Selects which 32 feature bits `VIRTIO_DRIVER_FEATURES` sets.
pub const VIRTIO_DRIVER_FEATURES_SEL: usize = 0x024;
/// Zero-based index of the queue the queue registers below refer to.
pub const VIRTIO_QUEUE_SEL: usize = 0x030;
/// Largest queue size the device supports for the selected queue.
pub const VIRTIO_QUEUE_NUM_MAX: usize = 0x034;
/// Queue size the driver uses for the selected queue.
pub const VIRTIO_QUEUE_NUM: usize = 0x038;
/// Writing 0x1 lets the device run requests from the selected queue.
pub const VIRTIO_QUEUE_READY: usize = 0x044;
/// Tells the device that there are new buffers in a queue.
pub const VIRTIO_QUEUE_NOTIFY: usize = 0x050;
/// Bit mask of the events that caused an interrupt.
pub const VIRTIO_INTERRUPT_STATUS: usize = 0x060;
/// Acknowledges the events of an interrupt.
pub const VIRTIO_INTERRUPT_ACK: usize = 0x064;
/// Device status: a read returns the status bits, a write sets them.
pub const VIRTIO_STATUS: usize = 0x070;
/// Low 32 bits of the descriptor area address of the selected queue.
pub const VIRTIO_QUEUE_DESC_LOW: usize = 0x080;
/// High 32 bits of the descriptor area address of the selected queue.
pub const VIRTIO_QUEUE_DESC_HIGH: usize = 0x084;
/// Low 32 bits of the driver area (available ring) address.
pub const VIRTIO_QUEUE_DRIVER_LOW: usize = 0x090;
/// High 32 bits of the driver area (available ring) address.
pub const VIRTIO_QUEUE_DRIVER_HIGH: usize = 0x094;
/// Low 32 bits of the device area (used ring) address.
pub const VIRTIO_QUEUE_DEVICE_LOW: usize = 0x0a0;
/// High 32 bits of the device area (used ring) address.
pub const VIRTIO_QUEUE_DEVICE_HIGH: usize = 0x0a4;
/// Configuration atomicity value.
pub const VIRTIO_CONFIG_GENERATION: usize = 0x0fc;
/// Start of the device specific configuration space.
pub const VIRTIO_CONFIG: usize = 0x100;

/// The magic value a virtio MMIO device shows ("virt").
pub const MAGIC_VALUE: u32 = 0x74726976;
/// The only device version this driver supports (non-legacy).
pub const SUPPORTED_VERSION: u32 = 0x2;
/// Device id of a block device.
pub const BLOCK_DEVICE_ID: u32 = 0x2;
/// Vendor id that QEMU reports ("QEMU").
pub const QEMU_VENDOR_ID: u32 = 0x554d4551;

/// Device status bits (section 2.1). They record which steps of the
/// initialisation sequence are done; the driver only ever sets them.
#[derive(PartialEq, Eq, Structural, Clone, Copy, Debug)]
pub enum VirtioDeviceStatus {
    /// The driver found the device and recognises it.
    Ack,
    /// The driver knows how to drive the device.
    Driver,
    /// The driver is ready to drive the device.
    DriverOk,
    /// Feature negotiation is complete.
    FeaturesOk,
    /// The device hit an unrecoverable error.
    DeviceNeedsReset,
    /// Something went wrong in the driver, or it gave up on the device.
    Failed,
}

impl VirtioDeviceStatus {
    pub open spec fn spec_bits(self) -> u32 {
        match self {
            VirtioDeviceStatus::Ack => 1,
            VirtioDeviceStatus::Driver => 2,
            VirtioDeviceStatus::DriverOk => 4,
            VirtioDeviceStatus::FeaturesOk => 8,
            VirtioDeviceStatus::DeviceNeedsReset => 0x40,
            VirtioDeviceStatus::Failed => 0x80,
        }
    }

    /// The bit of the status register that stands for this step.
    #[verifier::when_used_as_spec(spec_bits)]
    pub fn bits(self) -> (r: u32)
        ensures
            r == self.spec_bits(),
    {
        match self {
            VirtioDeviceStatus::Ack => 1,
            VirtioDeviceStatus::Driver => 2,
            VirtioDeviceStatus::DriverOk => 4,
            VirtioDeviceStatus::FeaturesOk => 8,
            VirtioDeviceStatus::DeviceNeedsReset => 0x40,
            VirtioDeviceStatus::Failed => 0x80,
        }
    }
}

// Block device feature bits (section 5.2.3). Bits 0 to 23 are specific to
// the device type, 24 to 37 are reserved for queue and feature negotiation.
/// Device supports request barriers (legacy).
pub const VIRTIO_BLK_F_BARRIER: u32 = 0;
/// Maximum size of a segment is in `size_max`.
pub const VIRTIO_BLK_F_SIZE_MAX: u32 = 1;
/// Maximum number of segments in a request is in `seg_max`.
pub const VIRTIO_BLK_F_SEG_MAX: u32 = 2;
/// Disk-style geometry is in `geometry`.
pub const VIRTIO_BLK_F_GEOMETRY: u32 = 4;
/// Device is read-only.
pub const VIRTIO_BLK_F_RO: u32 = 5;
/// Block size of the disk is in `blk_size`.
pub const VIRTIO_BLK_F_BLK_SIZE: u32 = 6;
/// Device supports SCSI packet commands (legacy).
pub const VIRTIO_BLK_F_SCSI: u32 = 7;
/// Cache flush command support.
pub const VIRTIO_BLK_F_FLUSH: u32 = 9;
/// Device exports information on optimal I/O alignment.
pub const VIRTIO_BLK_F_TOPOLOGY: u32 = 10;
/// Device can toggle its cache between write through and write back.
pub const VIRTIO_BLK_F_CONFIG_WCE: u32 = 11;
/// Device supports multiqueue.
pub const VIRTIO_BLK_F_MQ: u32 = 12;
/// Device can support the discard command.
pub const VIRTIO_BLK_F_DISCARD: u32 = 13;
/// Device can support the write zeroes command.
pub const VIRTIO_BLK_F_WRITE_ZEROES: u32 = 14;
/// Device accepts arbitrary descriptor layouts.
pub const VIRTIO_BLK_F_ANY_LAYOUT: u32 = 27;
/// The `used_event` and `avail_event` fields are in use.
pub const VIRTIO_RING_F_EVENT_IDX: u32 = 28;
/// Indirect descriptors are supported.
pub const VIRTIO_RING_F_INDIRECT_DESC: u32 = 29;

/// Number of feature bits the driver clears during negotiation.
pub const FEATURE_CLEAR_COUNT: usize = 7;

/// The feature bits that the driver clears during negotiation, in order.
pub open spec fn spec_device_feature_clear() -> Seq<u32> {
    seq![
        VIRTIO_BLK_F_RO,
        VIRTIO_BLK_F_SCSI,
        VIRTIO_BLK_F_WRITE_ZEROES,
        VIRTIO_BLK_F_MQ,
        VIRTIO_BLK_F_ANY_LAYOUT,
        VIRTIO_RING_F_EVENT_IDX,
        VIRTIO_RING_F_INDIRECT_DESC,
    ]
}

/// The feature bits that the driver clears during negotiation.
pub fn device_feature_clear() -> (r: [u32; FEATURE_CLEAR_COUNT])
    ensures
        r@ == spec_device_feature_clear(),
{
    let r: [u32; FEATURE_CLEAR_COUNT] = [
        VIRTIO_BLK_F_RO,
        VIRTIO_BLK_F_SCSI,
        VIRTIO_BLK_F_WRITE_ZEROES,
        VIRTIO_BLK_F_MQ,
        VIRTIO_BLK_F_ANY_LAYOUT,
        VIRTIO_RING_F_EVENT_IDX,
        VIRTIO_RING_F_INDIRECT_DESC,
    ];
    assert(r@ =~= spec_device_feature_clear());
    r
}

/// The mask with one bit set for each of the first `n` feature bits of `bits`.
pub open spec fn clear_mask(bits: Seq<u32>, n: nat) -> u32
    decreases n,
{
    if n == 0 {
        0
    } else {
        clear_mask(bits, (n - 1) as nat) | (1u32 << bits[n - 1])
    }
}

/// The mask of all feature bits that negotiation clears:
/// bits 5, 7, 12, 14, 27, 28 and 29.
pub const FEATURE_CLEAR_MASK: u32 = 0x380050a0;

proof fn lemma_clear_mask_value()
    ensures
        clear_mask(spec_device_feature_clear(), 7) == FEATURE_CLEAR_MASK,
{
    let s = spec_device_feature_clear();
    assert(s[0] == 5 && s[1] == 7 && s[2] == 14 && s[3] == 12);
    assert(s[4] == 27 && s[5] == 28 && s[6] == 29);
    assert(clear_mask(s, 0) == 0);
    assert((0u32 | (1u32 << 5u32)) == 0x20u32) by (bit_vector);
    assert(clear_mask(s, 1) == 0x20);
    assert((0x20u32 | (1u32 << 7u32)) == 0xa0u32) by (bit_vector);
    assert(clear_mask(s, 2) == 0xa0);
    assert((0xa0u32 | (1u32 << 14u32)) == 0x40a0u32) by (bit_vector);
    assert(clear_mask(s, 3) == 0x40a0);
    assert((0x40a0u32 | (1u32 << 12u32)) == 0x50a0u32) by (bit_vector);
    assert(clear_mask(s, 4) == 0x50a0);
    assert((0x50a0u32 | (1u32 << 27u32)) == 0x080050a0u32) by (bit_vector);
    assert(clear_mask(s, 5) == 0x080050a0);
    assert((0x080050a0u32 | (1u32 << 28u32)) == 0x180050a0u32) by (bit_vector);
    assert(clear_mask(s, 6) == 0x180050a0);
    assert((0x180050a0u32 | (1u32 << 29u32)) == 0x380050a0u32) by (bit_vector);
}

/// Feature negotiation: the features the device offers, with the features
/// this driver does not support (`FEATURE_CLEAR_MASK`) cleared. Every other
/// bit is kept as the device offered it.
pub fn negotiate_features(device_feature: u32) -> (r: u32)
    ensures
        r == device_feature & !FEATURE_CLEAR_MASK,
        r & FEATURE_CLEAR_MASK == 0,
        r | (device_feature & FEATURE_CLEAR_MASK) == device_feature,
{
    let clear = device_feature_clear();
    let mut feature = device_feature;
    let mut i: usize = 0;
    assert(device_feature & !0u32 == device_feature) by (bit_vector);
    while i < FEATURE_CLEAR_COUNT
        invariant
            0 <= i <= FEATURE_CLEAR_COUNT,
            clear@ == spec_device_feature_clear(),
            feature == device_feature & !clear_mask(clear@, i as nat),
        decreases FEATURE_CLEAR_COUNT - i,
    {
        let bit = clear[i];
        assert(bit < 32) by {
            assert(clear@[i as int] == spec_device_feature_clear()[i as int]);
        }
        let ghost m = clear_mask(clear@, i as nat);
        assert((device_feature & !m) & !(1u32 << bit) == device_feature & !(m | (1u32 << bit)))
            by (bit_vector);
        feature = feature & !(1u32 << bit);
        i = i + 1;
    }
    proof {
        lemma_clear_mask_value();
    }
    let f = device_feature;
    assert((f & !0x380050a0u32) & 0x380050a0u32 == 0) by (bit_vector);
    assert((f & !0x380050a0u32) | (f & 0x380050a0u32) == f) by (bit_vector);
    feature
}

} // verus!
