use mellow::init::{Action, Event, InitError, Phase, RingAddrs, VirtioInit, Warning, split_addr};
use mellow::mmio::{
    BLOCK_DEVICE_ID, MAGIC_VALUE, QEMU_VENDOR_ID, SUPPORTED_VERSION, VIRTIO_DEVICE_FEATURES,
    VIRTIO_DEVICE_ID, VIRTIO_MAGIC, VIRTIO_QUEUE_DESC_HIGH, VIRTIO_QUEUE_DESC_LOW,
    VIRTIO_QUEUE_DEVICE_HIGH, VIRTIO_QUEUE_DEVICE_LOW, VIRTIO_QUEUE_DRIVER_HIGH,
    VIRTIO_QUEUE_DRIVER_LOW, VIRTIO_QUEUE_NUM, VIRTIO_QUEUE_NUM_MAX, VIRTIO_QUEUE_READY,
    VIRTIO_QUEUE_SEL, VIRTIO_STATUS, VIRTIO_VENDOR_ID, VIRTIO_VERSION,
};

/// A device model: fixed register values, a status register that keeps
/// what is written to it (masked), and an allocator that may fail.
struct FakeDevice {
    magic: u32,
    version: u32,
    device_id: u32,
    vendor_id: u32,
    features: u32,
    status_mask: u32,
    queue_ready: u32,
    queue_max: u32,
    alloc_ok: bool,
    status: u32,
}

fn qemu_blk() -> FakeDevice {
    FakeDevice {
        magic: MAGIC_VALUE,
        version: SUPPORTED_VERSION,
        device_id: BLOCK_DEVICE_ID,
        vendor_id: QEMU_VENDOR_ID,
        features: 0xffff_ffff,
        status_mask: 0xffff_ffff,
        queue_ready: 0,
        queue_max: 1024,
        alloc_ok: true,
        status: 0,
    }
}

const RINGS: RingAddrs = RingAddrs {
    desc: 0x0000_0001_8000_1000,
    driver: 0x0000_0002_8000_2000,
    device: 0x0000_0003_8000_3000,
};

fn run(dev: &mut FakeDevice) -> (Vec<Action>, Result<(), InitError>) {
    let mut m = VirtioInit::new();
    let mut trace = Vec::new();
    for _ in 0..40 {
        let a = m.action();
        trace.push(a);
        let e = match a {
            Action::Read(off) => Event::Value(match off {
                VIRTIO_MAGIC => dev.magic,
                VIRTIO_VERSION => dev.version,
                VIRTIO_DEVICE_ID => dev.device_id,
                VIRTIO_VENDOR_ID => dev.vendor_id,
                VIRTIO_DEVICE_FEATURES => dev.features,
                VIRTIO_STATUS => dev.status,
                VIRTIO_QUEUE_READY => dev.queue_ready,
                VIRTIO_QUEUE_NUM_MAX => dev.queue_max,
                _ => panic!("unexpected read"),
            }),
            Action::Write(off, v) => {
                if off == VIRTIO_STATUS {
                    dev.status = v & dev.status_mask;
                }
                Event::Done
            }
            Action::Warn(_) => Event::Done,
            Action::AllocateRings => {
                if dev.alloc_ok {
                    Event::Allocated(RINGS)
                } else {
                    Event::AllocFailed
                }
            }
            Action::Finish(r) => return (trace, r),
        };
        assert!(m.expects_event(&e));
        m.advance(e);
    }
    panic!("initialisation did not finish");
}

#[test]
fn full_initialisation_sequence() {
    let mut dev = qemu_blk();
    let (trace, r) = run(&mut dev);
    assert_eq!(r, Ok(()));
    let expected = vec![
        Action::Read(VIRTIO_MAGIC),
        Action::Read(VIRTIO_VERSION),
        Action::Read(VIRTIO_DEVICE_ID),
        Action::Read(VIRTIO_VENDOR_ID),
        Action::Write(VIRTIO_STATUS, 0),
        Action::Write(VIRTIO_STATUS, 1),
        Action::Write(VIRTIO_STATUS, 3),
        Action::Read(VIRTIO_DEVICE_FEATURES),
        Action::Write(VIRTIO_DEVICE_FEATURES, 0xc7ff_af5f),
        Action::Write(VIRTIO_STATUS, 11),
        Action::Read(VIRTIO_STATUS),
        Action::Write(VIRTIO_QUEUE_SEL, 0),
        Action::Read(VIRTIO_QUEUE_READY),
        Action::Read(VIRTIO_QUEUE_NUM_MAX),
        Action::AllocateRings,
        Action::Write(VIRTIO_QUEUE_NUM, 2),
        Action::Write(VIRTIO_QUEUE_DESC_LOW, 0x8000_1000),
        Action::Write(VIRTIO_QUEUE_DESC_HIGH, 1),
        Action::Write(VIRTIO_QUEUE_DRIVER_LOW, 0x8000_2000),
        Action::Write(VIRTIO_QUEUE_DRIVER_HIGH, 2),
        Action::Write(VIRTIO_QUEUE_DEVICE_LOW, 0x8000_3000),
        Action::Write(VIRTIO_QUEUE_DEVICE_HIGH, 3),
        Action::Write(VIRTIO_QUEUE_READY, 1),
        Action::Write(VIRTIO_STATUS, 15),
        Action::Finish(Ok(())),
    ];
    assert_eq!(trace, expected);
    assert_eq!(dev.status, 15);
}

#[test]
fn status_writes_only_add_bits() {
    let mut dev = qemu_blk();
    let (trace, _) = run(&mut dev);
    let mut last = 0u32;
    let mut writes = 0;
    for a in trace {
        if let Action::Write(VIRTIO_STATUS, v) = a {
            assert_eq!(v & last, last);
            last = v;
            writes += 1;
        }
    }
    assert_eq!(writes, 5);
}

#[test]
fn written_features_drop_unsupported_bits() {
    let mut dev = qemu_blk();
    dev.features = 0x3800_50a0 | 0x0000_0046;
    let (trace, r) = run(&mut dev);
    assert_eq!(r, Ok(()));
    assert!(trace.contains(&Action::Write(VIRTIO_DEVICE_FEATURES, 0x0000_0046)));
}

fn assert_fails_with(dev: &mut FakeDevice, err: InitError, actions: usize) {
    let (trace, r) = run(dev);
    assert_eq!(r, Err(err));
    assert_eq!(trace.len(), actions);
    assert_eq!(trace.last(), Some(&Action::Finish(Err(err))));
}

#[test]
fn wrong_magic_is_incompatible() {
    let mut dev = qemu_blk();
    dev.magic = 0x1234_5678;
    assert_fails_with(&mut dev, InitError::IncompatibleDevice, 5);
    assert_eq!(dev.status, 0);
}

#[test]
fn legacy_version_is_incompatible() {
    let mut dev = qemu_blk();
    dev.version = 1;
    assert_fails_with(&mut dev, InitError::IncompatibleDevice, 5);
}

#[test]
fn network_device_is_incompatible() {
    let mut dev = qemu_blk();
    dev.device_id = 1;
    assert_fails_with(&mut dev, InitError::IncompatibleDevice, 5);
}

#[test]
fn other_vendor_is_incompatible() {
    let mut dev = qemu_blk();
    dev.vendor_id = 0x1af4;
    assert_fails_with(&mut dev, InitError::IncompatibleDevice, 5);
}

#[test]
fn queue_in_use_fails() {
    let mut dev = qemu_blk();
    dev.queue_ready = 1;
    assert_fails_with(&mut dev, InitError::QueueInUse, 14);
    assert_eq!(dev.status, 11);
}

#[test]
fn queue_of_size_zero_is_unavailable() {
    let mut dev = qemu_blk();
    dev.queue_max = 0;
    assert_fails_with(&mut dev, InitError::QueueUnavailable, 15);
}

#[test]
fn queue_smaller_than_ring_is_unavailable() {
    let mut dev = qemu_blk();
    dev.queue_max = 1;
    assert_fails_with(&mut dev, InitError::QueueUnavailable, 15);
}

#[test]
fn queue_exactly_ring_size_is_enough() {
    let mut dev = qemu_blk();
    dev.queue_max = 2;
    let (_, r) = run(&mut dev);
    assert_eq!(r, Ok(()));
}

#[test]
fn failed_allocation_fails() {
    let mut dev = qemu_blk();
    dev.alloc_ok = false;
    assert_fails_with(&mut dev, InitError::RingMemory, 16);
}

#[test]
fn features_not_accepted_warns_and_goes_on() {
    let mut dev = qemu_blk();
    dev.status_mask = !8;
    let (trace, r) = run(&mut dev);
    assert_eq!(r, Ok(()));
    assert_eq!(trace[10], Action::Read(VIRTIO_STATUS));
    assert_eq!(trace[11], Action::Warn(Warning::FeaturesNotAccepted));
    assert_eq!(trace[12], Action::Write(VIRTIO_QUEUE_SEL, 0));
    assert_eq!(trace.len(), 26);
}

#[test]
fn machine_expects_matching_events() {
    let mut m = VirtioInit::new();
    assert_eq!(m.phase, Phase::ReadMagic);
    assert!(m.expects_event(&Event::Value(0)));
    assert!(!m.expects_event(&Event::Done));
    assert!(!m.expects_event(&Event::AllocFailed));
    m.advance(Event::Value(0));
    m.advance(Event::Value(0));
    m.advance(Event::Value(0));
    m.advance(Event::Value(0));
    assert_eq!(m.phase, Phase::Failed(InitError::IncompatibleDevice));
    assert!(!m.expects_event(&Event::Value(0)));
    assert!(!m.expects_event(&Event::Done));
}

#[test]
fn error_messages() {
    assert_eq!(InitError::IncompatibleDevice.message(), "Device info is incompatible.");
    assert_eq!(InitError::QueueInUse.message(), "Selected Queue already in use.");
    assert_eq!(InitError::QueueUnavailable.message(), "Queue is not available.");
    assert_eq!(InitError::RingMemory.message(), "Unable to init memory for ring queues.");
    assert_eq!(
        Warning::FeaturesNotAccepted.message(),
        "FeaturesOK (not supported || not accepted)."
    );
}

#[test]
fn split_addr_halves() {
    assert_eq!(split_addr(0x1234_5678_9abc_def0), (0x9abc_def0, 0x1234_5678));
    assert_eq!(split_addr(0), (0, 0));
    assert_eq!(split_addr(u64::MAX), (u32::MAX, u32::MAX));
    let (lo, hi) = split_addr(0x0000_0000_8020_0000);
    assert_eq!((lo, hi), (0x8020_0000, 0));
    assert_eq!(((hi as u64) << 32) | lo as u64, 0x0000_0000_8020_0000);
}
