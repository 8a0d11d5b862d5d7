//! Initialisation of the block device (virtio 1.1, sections 3.1 and 4.2.3),
//! written as a state machine. `VirtioInit::action` names the next register
//! access (or allocation) to make; the caller makes it and hands the outcome
//! to `VirtioInit::advance`. The sequence ends with a `Finish` action.
use vstd::prelude::*;
use crate::mmio::{
    negotiate_features, VirtioDeviceStatus, BLOCK_DEVICE_ID, FEATURE_CLEAR_MASK, MAGIC_VALUE,
    QEMU_VENDOR_ID, SUPPORTED_VERSION, VIRTIO_DEVICE_FEATURES, VIRTIO_DEVICE_ID, VIRTIO_MAGIC,
    VIRTIO_QUEUE_DESC_HIGH, VIRTIO_QUEUE_DESC_LOW, VIRTIO_QUEUE_DEVICE_HIGH,
    VIRTIO_QUEUE_DEVICE_LOW, VIRTIO_QUEUE_DRIVER_HIGH, VIRTIO_QUEUE_DRIVER_LOW, VIRTIO_QUEUE_NUM,
    VIRTIO_QUEUE_NUM_MAX, VIRTIO_QUEUE_READY, VIRTIO_QUEUE_SEL, VIRTIO_STATUS, VIRTIO_VENDOR_ID,
    VIRTIO_VERSION,
};
use crate::queue::RING_SIZE;

verus! {

/// Why initialisation gave up.
#[derive(PartialEq, Eq, Structural, Clone, Copy, Debug)]
pub enum InitError {
    /// Magic value, version, device id or vendor id is not the expected one.
    IncompatibleDevice,
    /// Queue 0 is already in use (`QueueReady` did not read 0).
    QueueInUse,
    /// Queue 0 is not available, or smaller than `RING_SIZE`.
    QueueUnavailable,
    /// The rings could not be set up in memory.
    RingMemory,
}

impl InitError {
    pub open spec fn spec_message(self) -> &'static str {
        match self {
            InitError::IncompatibleDevice => "Device info is incompatible.",
            InitError::QueueInUse => "Selected Queue already in use.",
            InitError::QueueUnavailable => "Queue is not available.",
            InitError::RingMemory => "Unable to init memory for ring queues.",
        }
    }

    /// The text that reports this error.
    pub fn message(&self) -> (r: &'static str)
        ensures
            r@ == self.spec_message()@,
    {
        match self {
            InitError::IncompatibleDevice => "Device info is incompatible.",
            InitError::QueueInUse => "Selected Queue already in use.",
            InitError::QueueUnavailable => "Queue is not available.",
            InitError::RingMemory => "Unable to init memory for ring queues.",
        }
    }
}

/// Something the driver reports without stopping.
#[derive(PartialEq, Eq, Structural, Clone, Copy, Debug)]
pub enum Warning {
    /// The device did not keep `FeaturesOk` set: it does not support, or did
    /// not accept, the features the driver chose.
    FeaturesNotAccepted,
}

impl Warning {
    pub open spec fn spec_message(self) -> &'static str {
        match self {
            Warning::FeaturesNotAccepted => "FeaturesOK (not supported || not accepted).",
        }
    }

    /// The text that reports this warning.
    pub fn message(&self) -> (r: &'static str)
        ensures
            r@ == self.spec_message()@,
    {
        match self {
            Warning::FeaturesNotAccepted => "FeaturesOK (not supported || not accepted).",
        }
    }
}

/// Physical addresses of the three areas of queue 0.
#[derive(PartialEq, Eq, Structural, Clone, Copy, Debug)]
pub struct RingAddrs {
    /// Descriptor area.
    pub desc: u64,
    /// Driver area (available ring).
    pub driver: u64,
    /// Device area (used ring).
    pub device: u64,
}

/// Where initialisation stands: the step whose action comes next.
#[derive(PartialEq, Eq, Structural, Clone, Copy, Debug)]
pub enum Phase {
    /// Read the device information registers, one per phase.
    ReadMagic,
    ReadVersion,
    ReadDeviceId,
    ReadVendorId,
    /// Reset the device by writing 0 to the status register.
    Reset,
    /// Set the status bits one step at a time.
    Acknowledge,
    DriverLoaded,
    /// Feature negotiation.
    ReadFeatures,
    WriteFeatures,
    FeaturesOk,
    /// Check that the device kept `FeaturesOk` set.
    ReadStatus,
    WarnFeatures,
    /// Set up queue 0.
    SelectQueue,
    ReadQueueReady,
    ReadQueueMax,
    AllocRings,
    WriteQueueNum,
    WriteDescLow,
    WriteDescHigh,
    WriteDriverLow,
    WriteDriverHigh,
    WriteDeviceLow,
    WriteDeviceHigh,
    QueueReady,
    DriverOk,
    /// Initialisation succeeded.
    Done,
    /// Initialisation gave up with this error.
    Failed(InitError),
}

/// What the caller does next.
#[derive(PartialEq, Eq, Clone, Copy, Debug)]
pub enum Action {
    /// Read the 32-bit register at this offset from `VIRTIO_BASE`.
    Read(usize),
    /// Write this value to the 32-bit register at this offset.
    Write(usize, u32),
    /// Allocate and zero the rings of queue 0, and keep them for the device.
    AllocateRings,
    /// Report a warning and go on.
    Warn(Warning),
    /// Initialisation is over, with this result.
    Finish(Result<(), InitError>),
}

/// The outcome of an action, handed back to the state machine.
#[derive(PartialEq, Eq, Structural, Clone, Copy, Debug)]
pub enum Event {
    /// The value a `Read` gave.
    Value(u32),
    /// A `Write` or a `Warn` was carried out.
    Done,
    /// `AllocateRings` succeeded; the rings are at these addresses.
    Allocated(RingAddrs),
    /// `AllocateRings` failed.
    AllocFailed,
}

/// Low 32 bits of an address.
pub open spec fn low_half(a: u64) -> u32 {
    (a % 0x1_0000_0000) as u32
}

/// High 32 bits of an address.
pub open spec fn high_half(a: u64) -> u32 {
    (a / 0x1_0000_0000) as u32
}

/// The two 32-bit halves of a 64-bit address, low half first.
pub fn split_addr(a: u64) -> (r: (u32, u32))
    ensures
        r.0 == low_half(a),
        r.1 == high_half(a),
        r.1 as int * 0x1_0000_0000 + r.0 as int == a as int,
{
    let low = a as u32;
    let high = (a >> 32u64) as u32;
    assert(a as u32 == (a % 0x1_0000_0000u64) as u32) by (bit_vector);
    assert((a >> 32u64) as u32 == (a / 0x1_0000_0000u64) as u32) by (bit_vector);
    assert(a / 0x1_0000_0000u64 < 0x1_0000_0000u64) by (bit_vector);
    (low, high)
}

/// The device shows the virtio magic value, version 2, the block device id
/// and QEMU's vendor id.
pub open spec fn device_info_valid(magic: u32, version: u32, device_id: u32, vendor_id: u32) -> bool {
    &&& magic == MAGIC_VALUE
    &&& version == SUPPORTED_VERSION
    &&& device_id == BLOCK_DEVICE_ID
    &&& vendor_id == QEMU_VENDOR_ID
}

/// Queue 0 can hold `RING_SIZE` entries.
pub open spec fn queue_max_ok(queue_max: u32) -> bool {
    queue_max != 0 && queue_max >= RING_SIZE
}

/// Status bits that are set once every step of initialisation is done.
pub const STATUS_ALL_DONE: u32 = 0xf;

/// Initialisation of the block device, one register access at a time.
#[derive(PartialEq, Eq, Structural, Clone, Copy, Debug)]
pub struct VirtioInit {
    pub phase: Phase,
    /// Values read from the device information registers.
    pub magic: u32,
    pub version: u32,
    pub device_id: u32,
    pub vendor_id: u32,
    /// The status bits the driver has set so far (and last wrote).
    pub device_status: u32,
    /// The features the device offered.
    pub device_feature: u32,
    /// The status read back after `FeaturesOk` was set.
    pub status_read: u32,
    /// What `QueueReady` read for queue 0.
    pub queue_ready: u32,
    /// What `QueueNumMax` read for queue 0.
    pub queue_max: u32,
    /// Where the rings of queue 0 are.
    pub rings: RingAddrs,
}

impl VirtioInit {
    /// The state before anything has been read or written.
    pub open spec fn initial() -> Self {
        VirtioInit {
            phase: Phase::ReadMagic,
            magic: 0,
            version: 0,
            device_id: 0,
            vendor_id: 0,
            device_status: 0,
            device_feature: 0,
            status_read: 0,
            queue_ready: 0,
            queue_max: 0,
            rings: RingAddrs { desc: 0, driver: 0, device: 0 },
        }
    }

    /// The next thing to do in each phase.
    pub open spec fn spec_action(self) -> Action {
        match self.phase {
            Phase::ReadMagic => Action::Read(VIRTIO_MAGIC),
            Phase::ReadVersion => Action::Read(VIRTIO_VERSION),
            Phase::ReadDeviceId => Action::Read(VIRTIO_DEVICE_ID),
            Phase::ReadVendorId => Action::Read(VIRTIO_VENDOR_ID),
            Phase::Reset => Action::Write(VIRTIO_STATUS, self.device_status),
            Phase::Acknowledge => Action::Write(
                VIRTIO_STATUS,
                self.device_status | VirtioDeviceStatus::Ack.spec_bits(),
            ),
            Phase::DriverLoaded => Action::Write(
                VIRTIO_STATUS,
                self.device_status | VirtioDeviceStatus::Driver.spec_bits(),
            ),
            Phase::ReadFeatures => Action::Read(VIRTIO_DEVICE_FEATURES),
            Phase::WriteFeatures => Action::Write(
                VIRTIO_DEVICE_FEATURES,
                self.device_feature & !FEATURE_CLEAR_MASK,
            ),
            Phase::FeaturesOk => Action::Write(
                VIRTIO_STATUS,
                self.device_status | VirtioDeviceStatus::FeaturesOk.spec_bits(),
            ),
            Phase::ReadStatus => Action::Read(VIRTIO_STATUS),
            Phase::WarnFeatures => Action::Warn(Warning::FeaturesNotAccepted),
            Phase::SelectQueue => Action::Write(VIRTIO_QUEUE_SEL, 0),
            Phase::ReadQueueReady => Action::Read(VIRTIO_QUEUE_READY),
            Phase::ReadQueueMax => Action::Read(VIRTIO_QUEUE_NUM_MAX),
            Phase::AllocRings => Action::AllocateRings,
            Phase::WriteQueueNum => Action::Write(VIRTIO_QUEUE_NUM, RING_SIZE as u32),
            Phase::WriteDescLow => Action::Write(VIRTIO_QUEUE_DESC_LOW, low_half(self.rings.desc)),
            Phase::WriteDescHigh => Action::Write(
                VIRTIO_QUEUE_DESC_HIGH,
                high_half(self.rings.desc),
            ),
            Phase::WriteDriverLow => Action::Write(
                VIRTIO_QUEUE_DRIVER_LOW,
                low_half(self.rings.driver),
            ),
            Phase::WriteDriverHigh => Action::Write(
                VIRTIO_QUEUE_DRIVER_HIGH,
                high_half(self.rings.driver),
            ),
            Phase::WriteDeviceLow => Action::Write(
                VIRTIO_QUEUE_DEVICE_LOW,
                low_half(self.rings.device),
            ),
            Phase::WriteDeviceHigh => Action::Write(
                VIRTIO_QUEUE_DEVICE_HIGH,
                high_half(self.rings.device),
            ),
            Phase::QueueReady => Action::Write(VIRTIO_QUEUE_READY, 1),
            Phase::DriverOk => Action::Write(
                VIRTIO_STATUS,
                self.device_status | VirtioDeviceStatus::DriverOk.spec_bits(),
            ),
            Phase::Done => Action::Finish(Ok(())),
            Phase::Failed(e) => Action::Finish(Err(e)),
        }
    }

    /// The kind of event that answers the current action: a value for a
    /// read, `Done` for a write or a warning, the outcome of an allocation;
    /// nothing once initialisation is over.
    pub open spec fn expects(self, e: Event) -> bool {
        match self.spec_action() {
            Action::Read(_) => e is Value,
            Action::Write(_, _) => e is Done,
            Action::Warn(_) => e is Done,
            Action::AllocateRings => e is Allocated || e is AllocFailed,
            Action::Finish(_) => false,
        }
    }

    /// The state after the current action had the outcome `e`.
    pub open spec fn spec_advance(self, e: Event) -> Self {
        match self.phase {
            Phase::ReadMagic => VirtioInit {
                phase: Phase::ReadVersion,
                magic: e->Value_0,
                ..self
            },
            Phase::ReadVersion => VirtioInit {
                phase: Phase::ReadDeviceId,
                version: e->Value_0,
                ..self
            },
            Phase::ReadDeviceId => VirtioInit {
                phase: Phase::ReadVendorId,
                device_id: e->Value_0,
                ..self
            },
            Phase::ReadVendorId => {
                let v = e->Value_0;
                if device_info_valid(self.magic, self.version, self.device_id, v) {
                    VirtioInit { phase: Phase::Reset, vendor_id: v, ..self }
                } else {
                    VirtioInit {
                        phase: Phase::Failed(InitError::IncompatibleDevice),
                        vendor_id: v,
                        ..self
                    }
                }
            },
            Phase::Reset => VirtioInit { phase: Phase::Acknowledge, ..self },
            Phase::Acknowledge => VirtioInit {
                phase: Phase::DriverLoaded,
                device_status: self.device_status | VirtioDeviceStatus::Ack.spec_bits(),
                ..self
            },
            Phase::DriverLoaded => VirtioInit {
                phase: Phase::ReadFeatures,
                device_status: self.device_status | VirtioDeviceStatus::Driver.spec_bits(),
                ..self
            },
            Phase::ReadFeatures => VirtioInit {
                phase: Phase::WriteFeatures,
                device_feature: e->Value_0,
                ..self
            },
            Phase::WriteFeatures => VirtioInit { phase: Phase::FeaturesOk, ..self },
            Phase::FeaturesOk => VirtioInit {
                phase: Phase::ReadStatus,
                device_status: self.device_status | VirtioDeviceStatus::FeaturesOk.spec_bits(),
                ..self
            },
            Phase::ReadStatus => {
                let v = e->Value_0;
                if v & VirtioDeviceStatus::FeaturesOk.spec_bits() == 0 {
                    VirtioInit { phase: Phase::WarnFeatures, status_read: v, ..self }
                } else {
                    VirtioInit { phase: Phase::SelectQueue, status_read: v, ..self }
                }
            },
            Phase::WarnFeatures => VirtioInit { phase: Phase::SelectQueue, ..self },
            Phase::SelectQueue => VirtioInit { phase: Phase::ReadQueueReady, ..self },
            Phase::ReadQueueReady => {
                let v = e->Value_0;
                if v != 0 {
                    VirtioInit {
                        phase: Phase::Failed(InitError::QueueInUse),
                        queue_ready: v,
                        ..self
                    }
                } else {
                    VirtioInit { phase: Phase::ReadQueueMax, queue_ready: v, ..self }
                }
            },
            Phase::ReadQueueMax => {
                let v = e->Value_0;
                if queue_max_ok(v) {
                    VirtioInit { phase: Phase::AllocRings, queue_max: v, ..self }
                } else {
                    VirtioInit {
                        phase: Phase::Failed(InitError::QueueUnavailable),
                        queue_max: v,
                        ..self
                    }
                }
            },
            Phase::AllocRings => match e {
                Event::Allocated(r) => VirtioInit { phase: Phase::WriteQueueNum, rings: r, ..self },
                _ => VirtioInit { phase: Phase::Failed(InitError::RingMemory), ..self },
            },
            Phase::WriteQueueNum => VirtioInit { phase: Phase::WriteDescLow, ..self },
            Phase::WriteDescLow => VirtioInit { phase: Phase::WriteDescHigh, ..self },
            Phase::WriteDescHigh => VirtioInit { phase: Phase::WriteDriverLow, ..self },
            Phase::WriteDriverLow => VirtioInit { phase: Phase::WriteDriverHigh, ..self },
            Phase::WriteDriverHigh => VirtioInit { phase: Phase::WriteDeviceLow, ..self },
            Phase::WriteDeviceLow => VirtioInit { phase: Phase::WriteDeviceHigh, ..self },
            Phase::WriteDeviceHigh => VirtioInit { phase: Phase::QueueReady, ..self },
            Phase::QueueReady => VirtioInit { phase: Phase::DriverOk, ..self },
            Phase::DriverOk => VirtioInit {
                phase: Phase::Done,
                device_status: self.device_status | VirtioDeviceStatus::DriverOk.spec_bits(),
                ..self
            },
            Phase::Done => self,
            Phase::Failed(_) => self,
        }
    }

    /// A machine at the start of initialisation.
    pub fn new() -> (r: Self)
        ensures
            r == Self::initial(),
    {
        VirtioInit {
            phase: Phase::ReadMagic,
            magic: 0,
            version: 0,
            device_id: 0,
            vendor_id: 0,
            device_status: 0,
            device_feature: 0,
            status_read: 0,
            queue_ready: 0,
            queue_max: 0,
            rings: RingAddrs { desc: 0, driver: 0, device: 0 },
        }
    }

    /// The next thing to do.
    pub fn action(&self) -> (a: Action)
        ensures
            a == self.spec_action(),
    {
        match self.phase {
            Phase::ReadMagic => Action::Read(VIRTIO_MAGIC),
            Phase::ReadVersion => Action::Read(VIRTIO_VERSION),
            Phase::ReadDeviceId => Action::Read(VIRTIO_DEVICE_ID),
            Phase::ReadVendorId => Action::Read(VIRTIO_VENDOR_ID),
            Phase::Reset => Action::Write(VIRTIO_STATUS, self.device_status),
            Phase::Acknowledge => Action::Write(
                VIRTIO_STATUS,
                self.device_status | VirtioDeviceStatus::Ack.bits(),
            ),
            Phase::DriverLoaded => Action::Write(
                VIRTIO_STATUS,
                self.device_status | VirtioDeviceStatus::Driver.bits(),
            ),
            Phase::ReadFeatures => Action::Read(VIRTIO_DEVICE_FEATURES),
            Phase::WriteFeatures => Action::Write(
                VIRTIO_DEVICE_FEATURES,
                negotiate_features(self.device_feature),
            ),
            Phase::FeaturesOk => Action::Write(
                VIRTIO_STATUS,
                self.device_status | VirtioDeviceStatus::FeaturesOk.bits(),
            ),
            Phase::ReadStatus => Action::Read(VIRTIO_STATUS),
            Phase::WarnFeatures => Action::Warn(Warning::FeaturesNotAccepted),
            Phase::SelectQueue => Action::Write(VIRTIO_QUEUE_SEL, 0),
            Phase::ReadQueueReady => Action::Read(VIRTIO_QUEUE_READY),
            Phase::ReadQueueMax => Action::Read(VIRTIO_QUEUE_NUM_MAX),
            Phase::AllocRings => Action::AllocateRings,
            Phase::WriteQueueNum => Action::Write(VIRTIO_QUEUE_NUM, RING_SIZE as u32),
            Phase::WriteDescLow => Action::Write(VIRTIO_QUEUE_DESC_LOW, split_addr(self.rings.desc).0),
            Phase::WriteDescHigh => Action::Write(
                VIRTIO_QUEUE_DESC_HIGH,
                split_addr(self.rings.desc).1,
            ),
            Phase::WriteDriverLow => Action::Write(
                VIRTIO_QUEUE_DRIVER_LOW,
                split_addr(self.rings.driver).0,
            ),
            Phase::WriteDriverHigh => Action::Write(
                VIRTIO_QUEUE_DRIVER_HIGH,
                split_addr(self.rings.driver).1,
            ),
            Phase::WriteDeviceLow => Action::Write(
                VIRTIO_QUEUE_DEVICE_LOW,
                split_addr(self.rings.device).0,
            ),
            Phase::WriteDeviceHigh => Action::Write(
                VIRTIO_QUEUE_DEVICE_HIGH,
                split_addr(self.rings.device).1,
            ),
            Phase::QueueReady => Action::Write(VIRTIO_QUEUE_READY, 1),
            Phase::DriverOk => Action::Write(
                VIRTIO_STATUS,
                self.device_status | VirtioDeviceStatus::DriverOk.bits(),
            ),
            Phase::Done => Action::Finish(Ok(())),
            Phase::Failed(e) => Action::Finish(Err(e)),
        }
    }

    /// Whether `e` is the kind of event that answers the current action.
    pub fn expects_event(&self, e: &Event) -> (r: bool)
        ensures
            r == self.expects(*e),
    {
        match self.action() {
            Action::Read(_) => matches!(e, Event::Value(_)),
            Action::Write(_, _) => matches!(e, Event::Done),
            Action::Warn(_) => matches!(e, Event::Done),
            Action::AllocateRings => matches!(e, Event::Allocated(_) | Event::AllocFailed),
            Action::Finish(_) => false,
        }
    }

    /// Takes in the outcome of the current action and moves to the next step.
    pub fn advance(&mut self, e: Event)
        requires
            old(self).expects(e),
        ensures
            *final(self) == old(self).spec_advance(e),
    {
        match self.phase {
            Phase::ReadMagic => {
                if let Event::Value(v) = e {
                    self.magic = v;
                }
                self.phase = Phase::ReadVersion;
            },
            Phase::ReadVersion => {
                if let Event::Value(v) = e {
                    self.version = v;
                }
                self.phase = Phase::ReadDeviceId;
            },
            Phase::ReadDeviceId => {
                if let Event::Value(v) = e {
                    self.device_id = v;
                }
                self.phase = Phase::ReadVendorId;
            },
            Phase::ReadVendorId => {
                if let Event::Value(v) = e {
                    self.vendor_id = v;
                }
                if self.magic != MAGIC_VALUE || self.version != SUPPORTED_VERSION
                    || self.device_id != BLOCK_DEVICE_ID || self.vendor_id != QEMU_VENDOR_ID {
                    self.phase = Phase::Failed(InitError::IncompatibleDevice);
                } else {
                    self.phase = Phase::Reset;
                }
            },
            Phase::Reset => {
                self.phase = Phase::Acknowledge;
            },
            Phase::Acknowledge => {
                self.device_status = self.device_status | VirtioDeviceStatus::Ack.bits();
                self.phase = Phase::DriverLoaded;
            },
            Phase::DriverLoaded => {
                self.device_status = self.device_status | VirtioDeviceStatus::Driver.bits();
                self.phase = Phase::ReadFeatures;
            },
            Phase::ReadFeatures => {
                if let Event::Value(v) = e {
                    self.device_feature = v;
                }
                self.phase = Phase::WriteFeatures;
            },
            Phase::WriteFeatures => {
                self.phase = Phase::FeaturesOk;
            },
            Phase::FeaturesOk => {
                self.device_status = self.device_status | VirtioDeviceStatus::FeaturesOk.bits();
                self.phase = Phase::ReadStatus;
            },
            Phase::ReadStatus => {
                if let Event::Value(v) = e {
                    self.status_read = v;
                }
                if self.status_read & VirtioDeviceStatus::FeaturesOk.bits() == 0 {
                    self.phase = Phase::WarnFeatures;
                } else {
                    self.phase = Phase::SelectQueue;
                }
            },
            Phase::WarnFeatures => {
                self.phase = Phase::SelectQueue;
            },
            Phase::SelectQueue => {
                self.phase = Phase::ReadQueueReady;
            },
            Phase::ReadQueueReady => {
                if let Event::Value(v) = e {
                    self.queue_ready = v;
                }
                if self.queue_ready != 0 {
                    self.phase = Phase::Failed(InitError::QueueInUse);
                } else {
                    self.phase = Phase::ReadQueueMax;
                }
            },
            Phase::ReadQueueMax => {
                if let Event::Value(v) = e {
                    self.queue_max = v;
                }
                if self.queue_max == 0 || (self.queue_max as usize) < RING_SIZE {
                    self.phase = Phase::Failed(InitError::QueueUnavailable);
                } else {
                    self.phase = Phase::AllocRings;
                }
            },
            Phase::AllocRings => {
                match e {
                    Event::Allocated(r) => {
                        self.rings = r;
                        self.phase = Phase::WriteQueueNum;
                    },
                    _ => {
                        self.phase = Phase::Failed(InitError::RingMemory);
                    },
                }
            },
            Phase::WriteQueueNum => {
                self.phase = Phase::WriteDescLow;
            },
            Phase::WriteDescLow => {
                self.phase = Phase::WriteDescHigh;
            },
            Phase::WriteDescHigh => {
                self.phase = Phase::WriteDriverLow;
            },
            Phase::WriteDriverLow => {
                self.phase = Phase::WriteDriverHigh;
            },
            Phase::WriteDriverHigh => {
                self.phase = Phase::WriteDeviceLow;
            },
            Phase::WriteDeviceLow => {
                self.phase = Phase::WriteDeviceHigh;
            },
            Phase::WriteDeviceHigh => {
                self.phase = Phase::QueueReady;
            },
            Phase::QueueReady => {
                self.phase = Phase::DriverOk;
            },
            Phase::DriverOk => {
                self.device_status = self.device_status | VirtioDeviceStatus::DriverOk.bits();
                self.phase = Phase::Done;
            },
            Phase::Done => {},
            Phase::Failed(_) => {},
        }
    }
}

/// Status bits set after `Acknowledge` and `DriverLoaded`.
pub const STATUS_DRIVER_KNOWN: u32 = 0x3;
/// Status bits set after `FeaturesOk`.
pub const STATUS_FEATURES_DONE: u32 = 0xb;

impl VirtioInit {
    /// Queue 0 was free and large enough.
    pub open spec fn queue_ok(self) -> bool {
        self.queue_ready == 0 && queue_max_ok(self.queue_max)
    }

    /// The device information read was the expected one.
    pub open spec fn info_ok(self) -> bool {
        device_info_valid(self.magic, self.version, self.device_id, self.vendor_id)
    }

    /// What holds in each phase of a run that started at `initial()`: which
    /// checks were passed (or failed) to get there, and which status bits the
    /// driver has set.
    pub open spec fn wf(self) -> bool {
        match self.phase {
            Phase::ReadMagic | Phase::ReadVersion | Phase::ReadDeviceId | Phase::ReadVendorId => {
                self.device_status == 0
            },
            Phase::Reset | Phase::Acknowledge => self.info_ok() && self.device_status == 0,
            Phase::DriverLoaded => self.info_ok() && self.device_status
                == VirtioDeviceStatus::Ack.spec_bits(),
            Phase::ReadFeatures | Phase::WriteFeatures | Phase::FeaturesOk => self.info_ok()
                && self.device_status == STATUS_DRIVER_KNOWN,
            Phase::ReadStatus | Phase::SelectQueue | Phase::ReadQueueReady => self.info_ok()
                && self.device_status == STATUS_FEATURES_DONE,
            Phase::WarnFeatures => self.info_ok() && self.device_status == STATUS_FEATURES_DONE
                && self.status_read & VirtioDeviceStatus::FeaturesOk.spec_bits() == 0,
            Phase::ReadQueueMax => self.info_ok() && self.device_status == STATUS_FEATURES_DONE
                && self.queue_ready == 0,
            Phase::AllocRings | Phase::WriteQueueNum | Phase::WriteDescLow | Phase::WriteDescHigh
            | Phase::WriteDriverLow | Phase::WriteDriverHigh | Phase::WriteDeviceLow
            | Phase::WriteDeviceHigh | Phase::QueueReady | Phase::DriverOk => self.info_ok()
                && self.device_status == STATUS_FEATURES_DONE && self.queue_ok(),
            Phase::Done => self.info_ok() && self.queue_ok() && self.device_status
                == STATUS_ALL_DONE,
            Phase::Failed(InitError::IncompatibleDevice) => !self.info_ok() && self.device_status
                == 0,
            Phase::Failed(InitError::QueueInUse) => self.info_ok() && self.device_status
                == STATUS_FEATURES_DONE && self.queue_ready != 0,
            Phase::Failed(InitError::QueueUnavailable) => self.info_ok() && self.device_status
                == STATUS_FEATURES_DONE && self.queue_ready == 0 && !queue_max_ok(self.queue_max),
            Phase::Failed(InitError::RingMemory) => self.info_ok() && self.device_status
                == STATUS_FEATURES_DONE && self.queue_ok(),
        }
    }

    /// An upper bound on the number of actions left before `Finish`.
    pub open spec fn steps_left(self) -> nat {
        match self.phase {
            Phase::ReadMagic => 25,
            Phase::ReadVersion => 24,
            Phase::ReadDeviceId => 23,
            Phase::ReadVendorId => 22,
            Phase::Reset => 21,
            Phase::Acknowledge => 20,
            Phase::DriverLoaded => 19,
            Phase::ReadFeatures => 18,
            Phase::WriteFeatures => 17,
            Phase::FeaturesOk => 16,
            Phase::ReadStatus => 15,
            Phase::WarnFeatures => 14,
            Phase::SelectQueue => 13,
            Phase::ReadQueueReady => 12,
            Phase::ReadQueueMax => 11,
            Phase::AllocRings => 10,
            Phase::WriteQueueNum => 9,
            Phase::WriteDescLow => 8,
            Phase::WriteDescHigh => 7,
            Phase::WriteDriverLow => 6,
            Phase::WriteDriverHigh => 5,
            Phase::WriteDeviceLow => 4,
            Phase::WriteDeviceHigh => 3,
            Phase::QueueReady => 2,
            Phase::DriverOk => 1,
            Phase::Done => 0,
            Phase::Failed(_) => 0,
        }
    }
}

/// A run starts in a well-formed state.
pub proof fn lemma_initial_wf()
    ensures
        VirtioInit::initial().wf(),
        VirtioInit::initial().spec_action() == Action::Read(VIRTIO_MAGIC),
{
}

/// Every step of a run keeps the machine well formed.
pub proof fn lemma_advance_preserves_wf(s: VirtioInit, e: Event)
    requires
        s.wf(),
        s.expects(e),
    ensures
        s.spec_advance(e).wf(),
{
    assert(0u32 | 1u32 == 1u32) by (bit_vector);
    assert(1u32 | 2u32 == 3u32) by (bit_vector);
    assert(3u32 | 8u32 == 11u32) by (bit_vector);
    assert(11u32 | 4u32 == 15u32) by (bit_vector);
}

/// Initialisation always ends: each step brings `Finish` nearer, and only a
/// machine whose action is `Finish` takes no more events.
pub proof fn lemma_advance_progresses(s: VirtioInit, e: Event)
    ensures
        s.expects(e) ==> s.spec_advance(e).steps_left() < s.steps_left(),
        s.steps_left() == 0 <==> s.spec_action() is Finish,
{
}

/// Initialisation reports success only for a device whose information is the
/// expected one and whose queue 0 was free and large enough, once every
/// status bit up to `DriverOk` is set; each error names the check that failed.
pub proof fn lemma_finish_outcome(s: VirtioInit)
    requires
        s.wf(),
    ensures
        s.spec_action() == Action::Finish(Ok(())) ==> s.info_ok() && s.queue_ok()
            && s.device_status == STATUS_ALL_DONE,
        s.spec_action() == Action::Finish(Err(InitError::IncompatibleDevice)) ==> !s.info_ok(),
        s.spec_action() == Action::Finish(Err(InitError::QueueInUse)) ==> s.info_ok()
            && s.queue_ready != 0,
        s.spec_action() == Action::Finish(Err(InitError::QueueUnavailable)) ==> s.info_ok()
            && s.queue_ready == 0 && !queue_max_ok(s.queue_max),
        s.spec_action() == Action::Finish(Err(InitError::RingMemory)) ==> s.info_ok()
            && s.queue_ok(),
{
}

/// The driver never clears a status bit: each step keeps every bit it had set,
/// and a write to the status register writes exactly the bits set after it.
pub proof fn lemma_status_bits_only_set(s: VirtioInit, e: Event)
    ensures
        s.expects(e) ==> s.spec_advance(e).device_status & s.device_status == s.device_status,
        s.spec_action() matches Action::Write(off, v) ==> (off == VIRTIO_STATUS ==> v
            == s.spec_advance(Event::Done).device_status && v & s.device_status
            == s.device_status),
{
    let x = s.device_status;
    assert(x & x == x) by (bit_vector);
    assert((x | 1u32) & x == x) by (bit_vector);
    assert((x | 2u32) & x == x) by (bit_vector);
    assert((x | 4u32) & x == x) by (bit_vector);
    assert((x | 8u32) & x == x) by (bit_vector);
}

/// The features the driver writes back never hold a feature it does not
/// support, and hold every other feature the device offered.
pub proof fn lemma_written_features(s: VirtioInit)
    ensures
        s.spec_action() matches Action::Write(off, v) ==> (off == VIRTIO_DEVICE_FEATURES ==> v
            & FEATURE_CLEAR_MASK == 0 && v | (s.device_feature & FEATURE_CLEAR_MASK)
            == s.device_feature),
{
    let f = s.device_feature;
    assert((f & !0x380050a0u32) & 0x380050a0u32 == 0) by (bit_vector);
    assert((f & !0x380050a0u32) | (f & 0x380050a0u32) == f) by (bit_vector);
}

/// The low and high halves written for a ring address put together give the
/// address back.
pub proof fn lemma_halves_recompose(a: u64)
    ensures
        high_half(a) as int * 0x1_0000_0000 + low_half(a) as int == a as int,
{
    assert(a / 0x1_0000_0000u64 < 0x1_0000_0000u64) by (bit_vector);
}

} // verus!
