//! The whole initialisation run at once: the actions the driver takes, as a
//! function of what the device answers, and the law that the state machine of
//! `crate::init` takes exactly those actions.
use vstd::prelude::*;
use crate::init::{
    device_info_valid, high_half, low_half, queue_max_ok, Action, Event, InitError, RingAddrs,
    VirtioInit, Warning,
};
use crate::mmio::{
    FEATURE_CLEAR_MASK, VIRTIO_DEVICE_FEATURES, VIRTIO_DEVICE_ID, VIRTIO_MAGIC,
    VIRTIO_QUEUE_DESC_HIGH, VIRTIO_QUEUE_DESC_LOW, VIRTIO_QUEUE_DEVICE_HIGH,
    VIRTIO_QUEUE_DEVICE_LOW, VIRTIO_QUEUE_DRIVER_HIGH, VIRTIO_QUEUE_DRIVER_LOW, VIRTIO_QUEUE_NUM,
    VIRTIO_QUEUE_NUM_MAX, VIRTIO_QUEUE_READY, VIRTIO_QUEUE_SEL, VIRTIO_STATUS, VIRTIO_VENDOR_ID,
    VIRTIO_VERSION,
};

verus! {

/// What a device answers during initialisation: the value of each register
/// the driver reads, and where the rings were put (`None` if allocating them
/// failed).
pub struct DeviceAnswers {
    pub magic: u32,
    pub version: u32,
    pub device_id: u32,
    pub vendor_id: u32,
    pub features: u32,
    /// The status register as read back after `FeaturesOk` was written.
    pub status: u32,
    pub queue_ready: u32,
    pub queue_max: u32,
    pub rings: Option<RingAddrs>,
}

/// The outcome of action `a` on a device that answers `d`.
pub open spec fn respond(d: DeviceAnswers, a: Action) -> Event {
    match a {
        Action::Read(off) => Event::Value(
            if off == VIRTIO_MAGIC {
                d.magic
            } else if off == VIRTIO_VERSION {
                d.version
            } else if off == VIRTIO_DEVICE_ID {
                d.device_id
            } else if off == VIRTIO_VENDOR_ID {
                d.vendor_id
            } else if off == VIRTIO_DEVICE_FEATURES {
                d.features
            } else if off == VIRTIO_STATUS {
                d.status
            } else if off == VIRTIO_QUEUE_READY {
                d.queue_ready
            } else {
                d.queue_max
            },
        ),
        Action::AllocateRings => match d.rings {
            Some(r) => Event::Allocated(r),
            None => Event::AllocFailed,
        },
        _ => Event::Done,
    }
}

/// The actions the machine takes from state `s` on a device that answers `d`,
/// up to and including its `Finish`.
pub open spec fn run_from(s: VirtioInit, d: DeviceAnswers) -> Seq<Action>
    decreases s.steps_left(),
{
    let a = s.spec_action();
    let e = respond(d, a);
    if s.steps_left() > 0 && s.expects(e) && s.spec_advance(e).steps_left() < s.steps_left() {
        seq![a] + run_from(s.spec_advance(e), d)
    } else {
        seq![a]
    }
}

/// The next state on a device that answers `d`.
pub open spec fn next(s: VirtioInit, d: DeviceAnswers) -> VirtioInit {
    s.spec_advance(respond(d, s.spec_action()))
}

/// Reading the device information.
pub open spec fn identify_actions() -> Seq<Action> {
    seq![
        Action::Read(VIRTIO_MAGIC),
        Action::Read(VIRTIO_VERSION),
        Action::Read(VIRTIO_DEVICE_ID),
        Action::Read(VIRTIO_VENDOR_ID),
    ]
}

/// Reset, acknowledge and claim the device, negotiate the features the device
/// offers, set `FeaturesOk` and read the status back.
pub open spec fn negotiate_actions(features: u32) -> Seq<Action> {
    seq![
        Action::Write(VIRTIO_STATUS, 0),
        Action::Write(VIRTIO_STATUS, 1),
        Action::Write(VIRTIO_STATUS, 3),
        Action::Read(VIRTIO_DEVICE_FEATURES),
        Action::Write(VIRTIO_DEVICE_FEATURES, features & !FEATURE_CLEAR_MASK),
        Action::Write(VIRTIO_STATUS, 11),
        Action::Read(VIRTIO_STATUS),
    ]
}

/// The warning given when the status read back lacks `FeaturesOk`.
pub open spec fn warn_actions(status: u32) -> Seq<Action> {
    if status & 8 == 0 {
        seq![Action::Warn(Warning::FeaturesNotAccepted)]
    } else {
        Seq::empty()
    }
}

/// Telling the device about rings at `r` and finishing with success.
pub open spec fn ring_setup_actions(r: RingAddrs) -> Seq<Action> {
    seq![
        Action::Write(VIRTIO_QUEUE_NUM, 2),
        Action::Write(VIRTIO_QUEUE_DESC_LOW, low_half(r.desc)),
        Action::Write(VIRTIO_QUEUE_DESC_HIGH, high_half(r.desc)),
        Action::Write(VIRTIO_QUEUE_DRIVER_LOW, low_half(r.driver)),
        Action::Write(VIRTIO_QUEUE_DRIVER_HIGH, high_half(r.driver)),
        Action::Write(VIRTIO_QUEUE_DEVICE_LOW, low_half(r.device)),
        Action::Write(VIRTIO_QUEUE_DEVICE_HIGH, high_half(r.device)),
        Action::Write(VIRTIO_QUEUE_READY, 1),
        Action::Write(VIRTIO_STATUS, 15),
        Action::Finish(Ok(())),
    ]
}

/// Selecting and checking queue 0, allocating its rings and setting it up.
pub open spec fn queue_actions(d: DeviceAnswers) -> Seq<Action> {
    let select = seq![Action::Write(VIRTIO_QUEUE_SEL, 0), Action::Read(VIRTIO_QUEUE_READY)];
    if d.queue_ready != 0 {
        select.push(Action::Finish(Err(InitError::QueueInUse)))
    } else if !queue_max_ok(d.queue_max) {
        select + seq![
            Action::Read(VIRTIO_QUEUE_NUM_MAX),
            Action::Finish(Err(InitError::QueueUnavailable)),
        ]
    } else {
        let alloc = select + seq![Action::Read(VIRTIO_QUEUE_NUM_MAX), Action::AllocateRings];
        match d.rings {
            None => alloc.push(Action::Finish(Err(InitError::RingMemory))),
            Some(r) => alloc + ring_setup_actions(r),
        }
    }
}

/// The initialisation sequence on a device that answers `d`: read the device
/// information and stop if it is not a QEMU virtio block device; reset,
/// acknowledge and claim the device; negotiate features and set `FeaturesOk`,
/// warning if the device does not keep it; select queue 0 and stop if it is
/// in use or too small; allocate the rings and stop if that fails; tell the
/// device the queue size and ring addresses, mark the queue ready, and set
/// `DriverOk`.
pub open spec fn init_sequence(d: DeviceAnswers) -> Seq<Action> {
    if !device_info_valid(d.magic, d.version, d.device_id, d.vendor_id) {
        identify_actions().push(Action::Finish(Err(InitError::IncompatibleDevice)))
    } else {
        identify_actions() + negotiate_actions(d.features) + warn_actions(d.status)
            + queue_actions(d)
    }
}

proof fn lemma_step(s: VirtioInit, d: DeviceAnswers)
    requires
        s.steps_left() > 0,
        s.expects(respond(d, s.spec_action())),
    ensures
        run_from(s, d) == seq![s.spec_action()] + run_from(next(s, d), d),
{
    crate::init::lemma_advance_progresses(s, respond(d, s.spec_action()));
}

proof fn lemma_last(s: VirtioInit, d: DeviceAnswers)
    requires
        s.steps_left() == 0,
    ensures
        run_from(s, d) == seq![s.spec_action()],
{
}

proof fn lemma_ring_setup(s: VirtioInit, d: DeviceAnswers)
    requires
        s.phase == crate::init::Phase::WriteQueueNum,
        s.device_status == 11,
    ensures
        run_from(s, d) == ring_setup_actions(s.rings),
{
    assert(11u32 | 4u32 == 15u32) by (bit_vector);
    let s1 = next(s, d);
    let s2 = next(s1, d);
    let s3 = next(s2, d);
    let s4 = next(s3, d);
    let s5 = next(s4, d);
    let s6 = next(s5, d);
    let s7 = next(s6, d);
    let s8 = next(s7, d);
    let s9 = next(s8, d);
    lemma_step(s, d);
    lemma_step(s1, d);
    lemma_step(s2, d);
    lemma_step(s3, d);
    lemma_step(s4, d);
    lemma_step(s5, d);
    lemma_step(s6, d);
    lemma_step(s7, d);
    lemma_step(s8, d);
    lemma_last(s9, d);
    assert(run_from(s, d) =~= ring_setup_actions(s.rings));
}

proof fn lemma_queue(s: VirtioInit, d: DeviceAnswers)
    requires
        s.phase == crate::init::Phase::SelectQueue,
        s.device_status == 11,
    ensures
        run_from(s, d) == queue_actions(d),
{
    let select = seq![Action::Write(VIRTIO_QUEUE_SEL, 0), Action::Read(VIRTIO_QUEUE_READY)];
    let s1 = next(s, d);
    let s2 = next(s1, d);
    lemma_step(s, d);
    lemma_step(s1, d);
    assert(run_from(s, d) =~= select + run_from(s2, d));
    if d.queue_ready != 0 {
        lemma_last(s2, d);
        assert(run_from(s, d) =~= queue_actions(d));
    } else {
        let s3 = next(s2, d);
        lemma_step(s2, d);
        if !queue_max_ok(d.queue_max) {
            lemma_last(s3, d);
            assert(run_from(s, d) =~= queue_actions(d));
        } else {
            let s4 = next(s3, d);
            lemma_step(s3, d);
            match d.rings {
                None => {
                    lemma_last(s4, d);
                    assert(run_from(s, d) =~= queue_actions(d));
                },
                Some(r) => {
                    lemma_ring_setup(s4, d);
                    assert(run_from(s, d) =~= queue_actions(d));
                },
            }
        }
    }
}

proof fn lemma_negotiate(s: VirtioInit, d: DeviceAnswers)
    requires
        s.phase == crate::init::Phase::Reset,
        s.device_status == 0,
    ensures
        run_from(s, d) == negotiate_actions(d.features) + warn_actions(d.status) + queue_actions(
            d,
        ),
{
    assert(0u32 | 1u32 == 1u32) by (bit_vector);
    assert(1u32 | 2u32 == 3u32) by (bit_vector);
    assert(3u32 | 8u32 == 11u32) by (bit_vector);
    let s1 = next(s, d);
    let s2 = next(s1, d);
    let s3 = next(s2, d);
    let s4 = next(s3, d);
    let s5 = next(s4, d);
    let s6 = next(s5, d);
    let s7 = next(s6, d);
    lemma_step(s, d);
    lemma_step(s1, d);
    lemma_step(s2, d);
    lemma_step(s3, d);
    lemma_step(s4, d);
    lemma_step(s5, d);
    lemma_step(s6, d);
    assert(run_from(s, d) =~= negotiate_actions(d.features) + run_from(s7, d));
    if d.status & 8 == 0 {
        let s8 = next(s7, d);
        lemma_step(s7, d);
        lemma_queue(s8, d);
        assert(run_from(s, d) =~= negotiate_actions(d.features) + warn_actions(d.status)
            + queue_actions(d));
    } else {
        lemma_queue(s7, d);
        assert(run_from(s, d) =~= negotiate_actions(d.features) + warn_actions(d.status)
            + queue_actions(d));
    }
}

/// Run from the start against any device, the machine takes exactly the
/// actions of `init_sequence`.
pub proof fn lemma_run_follows_sequence(d: DeviceAnswers)
    ensures
        run_from(VirtioInit::initial(), d) == init_sequence(d),
{
    let s = VirtioInit::initial();
    let s1 = next(s, d);
    let s2 = next(s1, d);
    let s3 = next(s2, d);
    let s4 = next(s3, d);
    lemma_step(s, d);
    lemma_step(s1, d);
    lemma_step(s2, d);
    lemma_step(s3, d);
    assert(run_from(s, d) =~= identify_actions() + run_from(s4, d));
    if !device_info_valid(d.magic, d.version, d.device_id, d.vendor_id) {
        lemma_last(s4, d);
        assert(run_from(s, d) =~= init_sequence(d));
    } else {
        lemma_negotiate(s4, d);
        assert(run_from(s, d) =~= init_sequence(d));
    }
}

/// The device answers identify a QEMU virtio block device: magic "virt",
/// version 2, device id 2 (block), vendor "QEMU". Written with the literal
/// values of the virtio MMIO specification.
pub open spec fn is_qemu_block_device(d: DeviceAnswers) -> bool {
    &&& d.magic == 0x74726976
    &&& d.version == 2
    &&& d.device_id == 2
    &&& d.vendor_id == 0x554d4551
}

/// How a run from the start ends, in terms of the device's answers alone:
/// - a device that is not a QEMU virtio block device is refused right after
///   the four identity reads (offsets 0x0, 0x4, 0x8, 0xc), with nothing written;
/// - otherwise the driver writes status 0, 1 and 3, writes the offered
///   features less bits 5, 7, 12, 14, 27, 28, 29 to offset 0x10, and writes
///   status 11;
/// - it then fails with `QueueInUse` if queue 0 reads as ready, with
///   `QueueUnavailable` if queue 0 holds fewer than 2 entries, with
///   `RingMemory` if the rings cannot be allocated;
/// - it succeeds exactly when none of this happens, and then its last write
///   sets status 15 (Ack, Driver, FeaturesOk, DriverOk).
pub proof fn lemma_run_outcome(d: DeviceAnswers)
    ensures
        !is_qemu_block_device(d) ==> run_from(VirtioInit::initial(), d) == seq![
            Action::Read(0x0),
            Action::Read(0x4),
            Action::Read(0x8),
            Action::Read(0xc),
            Action::Finish(Err(InitError::IncompatibleDevice)),
        ],
        is_qemu_block_device(d) ==> {
            let r = run_from(VirtioInit::initial(), d);
            &&& r[4] == Action::Write(0x70, 0)
            &&& r[5] == Action::Write(0x70, 1)
            &&& r[6] == Action::Write(0x70, 3)
            &&& r[7] == Action::Read(0x10)
            &&& r[8] == Action::Write(0x10, d.features & !0x380050a0u32)
            &&& r[9] == Action::Write(0x70, 11)
        },
        (run_from(VirtioInit::initial(), d).last() == Action::Finish(Ok(()))) <==> (
        is_qemu_block_device(d) && d.queue_ready == 0 && d.queue_max >= 2 && d.rings is Some),
        run_from(VirtioInit::initial(), d).last() == Action::Finish(Ok(())) ==> run_from(
            VirtioInit::initial(),
            d,
        )[run_from(VirtioInit::initial(), d).len() - 2] == Action::Write(0x70, 15),
        is_qemu_block_device(d) && d.queue_ready != 0 ==> run_from(VirtioInit::initial(), d).last()
            == Action::Finish(Err(InitError::QueueInUse)),
        is_qemu_block_device(d) && d.queue_ready == 0 && d.queue_max < 2 ==> run_from(
            VirtioInit::initial(),
            d,
        ).last() == Action::Finish(Err(InitError::QueueUnavailable)),
        is_qemu_block_device(d) && d.queue_ready == 0 && d.queue_max >= 2 && d.rings is None
            ==> run_from(VirtioInit::initial(), d).last() == Action::Finish(
            Err(InitError::RingMemory),
        ),
{
    lemma_run_follows_sequence(d);
    let r = run_from(VirtioInit::initial(), d);
    assert(r == init_sequence(d));
    if !is_qemu_block_device(d) {
        assert(r =~= seq![
            Action::Read(0x0),
            Action::Read(0x4),
            Action::Read(0x8),
            Action::Read(0xc),
            Action::Finish(Err(InitError::IncompatibleDevice)),
        ]);
    } else {
        let prefix = identify_actions() + negotiate_actions(d.features) + warn_actions(d.status);
        assert(r == prefix + queue_actions(d));
        assert(r[4] == prefix[4]);
        assert(r[8] == prefix[8]);
        assert(r[9] == prefix[9]);
        assert(r[5] == prefix[5] && r[6] == prefix[6] && r[7] == prefix[7]);
        let q = queue_actions(d);
        assert(r.last() == q.last());
        if d.queue_ready == 0 && d.queue_max >= 2 && d.rings is Some {
            assert(r[r.len() - 2] == q[q.len() - 2]);
        }
    }
}

} // verus!
