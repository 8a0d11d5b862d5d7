use mellow::mmio::{
    device_feature_clear, negotiate_features, VirtioDeviceStatus, FEATURE_CLEAR_MASK,
};

#[test]
fn status_bit_values() {
    assert_eq!(VirtioDeviceStatus::Ack.bits(), 1);
    assert_eq!(VirtioDeviceStatus::Driver.bits(), 2);
    assert_eq!(VirtioDeviceStatus::DriverOk.bits(), 4);
    assert_eq!(VirtioDeviceStatus::FeaturesOk.bits(), 8);
    assert_eq!(VirtioDeviceStatus::DeviceNeedsReset.bits(), 0x40);
    assert_eq!(VirtioDeviceStatus::Failed.bits(), 0x80);
}

#[test]
fn cleared_feature_bits() {
    assert_eq!(device_feature_clear(), [5, 7, 14, 12, 27, 28, 29]);
    let mut mask = 0u32;
    for b in device_feature_clear() {
        mask |= 1 << b;
    }
    assert_eq!(mask, FEATURE_CLEAR_MASK);
}

#[test]
fn negotiation_clears_only_unsupported_features() {
    assert_eq!(negotiate_features(0xffff_ffff), 0xc7ff_af5f);
    assert_eq!(negotiate_features(0), 0);
    assert_eq!(negotiate_features(FEATURE_CLEAR_MASK), 0);
    assert_eq!(negotiate_features(1 << 9 | 1 << 6 | 1 << 5), 1 << 9 | 1 << 6);
    let f = 0x1234_5678;
    let r = negotiate_features(f);
    assert_eq!(r & FEATURE_CLEAR_MASK, 0);
    assert_eq!(r | (f & FEATURE_CLEAR_MASK), f);
}
