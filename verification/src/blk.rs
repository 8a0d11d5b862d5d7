//! Block device requests (virtio 1.1, section 5.2.6).
use vstd::prelude::*;

verus! {

/// Request type: read from the device.
pub const VIRTIO_BLK_T_IN: u32 = 0;
/// Request type: write to the device.
pub const VIRTIO_BLK_T_OUT: u32 = 1;
/// Request type: flush the device's cache.
pub const VIRTIO_BLK_T_FLUSH: u32 = 4;
/// Request type: discard sectors.
pub const VIRTIO_BLK_T_DISCARD: u32 = 11;
/// Request type: write zeroes to sectors.
pub const VIRTIO_BLK_T_WRITE_ZEROES: u32 = 13;

/// Request status: success.
pub const VIRTIO_BLK_S_OK: u8 = 0;
/// Request status: device or driver error.
pub const VIRTIO_BLK_S_IOERR: u8 = 1;
/// Request status: request unsupported by the device.
pub const VIRTIO_BLK_S_UNSUPP: u8 = 2;

/// A block device request.
pub struct VirtBlkReq {
    /// `VIRTIO_BLK_T_IN`, `VIRTIO_BLK_T_OUT`, ...
    pub flavor: u32,
    pub reserved: u32,
    /// First sector, in units of 512 bytes.
    pub sector: u64,
    pub data: Vec<u8>,
    /// `VIRTIO_BLK_S_OK`, ..., filled in by the device.
    pub status: u8,
}

/// Writing to the block device is not implemented yet: the call takes the
/// data and has no effect.
pub fn virtio_blk_write(data: Vec<u8>) {
}

} // verus!
