//! Driver logic for a virtio block device reached through the MMIO transport
//! (virtio 1.1, sections 2, 3.1 and 4.2). The library decides what to read and
//! write; the register accesses themselves are made by the caller.
pub mod mmio;
pub mod queue;
pub mod init;
pub mod blk;
pub mod sequence;
