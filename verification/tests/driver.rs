use virtio_net::driver::{find_dev_cfg, find_region, VirtioNetDriver, COMMON_CFG_LEN, ISR_LEN, NOTIFY_LEN};
use virtio_net::error::VirtioNetError;
use virtio_net::features::required_features;
use virtio_net::handshake::{Action, Event, HandshakeState};
use virtio_net::region::{CfgType, PciBar, PciCap};

const DEV: u16 = 0x1041;

fn cap(cfg_type: CfgType, offset: u64, length: u64) -> PciCap {
    PciCap { cfg_type, bar: PciBar::new(4, 0xfe00_0000, 0x4000).unwrap(), offset, length, dev_id: DEV }
}

fn full() -> Vec<PciCap> {
    vec![
        cap(CfgType::CommonCfg, 0x0000, 56),
        cap(CfgType::IsrCfg, 0x1000, 1),
        cap(CfgType::DeviceCfg, 0x2000, 12),
        cap(CfgType::NotifyCfg, 0x3000, 4),
        cap(CfgType::PciCfg, 0, 4),
    ]
}

#[test]
fn driver_is_built_on_the_four_regions() {
    let drv = VirtioNetDriver::new(&full(), DEV).unwrap();
    assert_eq!(drv.com_cfg().base(), 0xfe00_0000);
    assert_eq!(drv.com_cfg().length(), 56);
    assert_eq!(drv.com_cfg().kind(), CfgType::CommonCfg);
    assert_eq!(drv.isr_stat().base(), 0xfe00_1000);
    assert_eq!(drv.isr_stat().length(), 1);
    assert_eq!(drv.isr_stat().kind(), CfgType::IsrCfg);
    assert_eq!(drv.notif_cfg().base(), 0xfe00_3000);
    assert_eq!(drv.notif_cfg().length(), 4);
    assert_eq!(drv.notif_cfg().kind(), CfgType::NotifyCfg);
    assert_eq!(drv.dev_cfg().region().base(), 0xfe00_2000);
    assert_eq!(drv.dev_cfg().region().length(), 12);
    assert_eq!(drv.dev_cfg().dev_id(), DEV);
    assert_eq!(drv.pending(), Action::Reset);
    assert_eq!(drv.state(), HandshakeState::Reset);
    assert!(!drv.is_live());
}

#[test]
fn structure_sizes() {
    assert_eq!(COMMON_CFG_LEN, 56);
    assert_eq!(ISR_LEN, 1);
    assert_eq!(NOTIFY_LEN, 2);
}

#[test]
fn missing_isr_region_names_the_device() {
    let caps: Vec<PciCap> =
        full().into_iter().filter(|c| c.cfg_type != CfgType::IsrCfg).collect();
    let r = VirtioNetDriver::new(&caps, DEV);
    assert_eq!(r.unwrap_err(), VirtioNetError::NoIsrCfg(DEV));
    assert_eq!(VirtioNetError::NoIsrCfg(DEV).dev_id(), Some(DEV));
}

#[test]
fn each_missing_region_has_its_error() {
    for (kind, error) in [
        (CfgType::CommonCfg, VirtioNetError::NoComCfg(7)),
        (CfgType::IsrCfg, VirtioNetError::NoIsrCfg(7)),
        (CfgType::NotifyCfg, VirtioNetError::NoNotifCfg(7)),
        (CfgType::DeviceCfg, VirtioNetError::NoDevCfg(7)),
    ] {
        let caps: Vec<PciCap> = full().into_iter().filter(|c| c.cfg_type != kind).collect();
        assert_eq!(VirtioNetDriver::new(&caps, 7).unwrap_err(), error);
    }
    assert_eq!(VirtioNetDriver::new(&Vec::new(), 7).unwrap_err(), VirtioNetError::NoComCfg(7));
}

#[test]
fn missing_regions_are_reported_in_a_fixed_order() {
    let caps = vec![cap(CfgType::DeviceCfg, 0x2000, 12)];
    assert_eq!(VirtioNetDriver::new(&caps, 7).unwrap_err(), VirtioNetError::NoComCfg(7));
    let caps = vec![cap(CfgType::DeviceCfg, 0x2000, 12), cap(CfgType::CommonCfg, 0, 56)];
    assert_eq!(VirtioNetDriver::new(&caps, 7).unwrap_err(), VirtioNetError::NoIsrCfg(7));
    let caps = vec![cap(CfgType::IsrCfg, 0x100, 1), cap(CfgType::CommonCfg, 0, 56)];
    assert_eq!(VirtioNetDriver::new(&caps, 7).unwrap_err(), VirtioNetError::NoNotifCfg(7));
}

#[test]
fn device_config_of_four_bytes_leaves_no_driver() {
    let mut caps = full();
    caps[2] = cap(CfgType::DeviceCfg, 0x2000, 4);
    assert_eq!(VirtioNetDriver::new(&caps, DEV).unwrap_err(), VirtioNetError::NoDevCfg(DEV));
}

#[test]
fn a_later_valid_device_config_is_taken() {
    let mut caps = full();
    caps[2] = cap(CfgType::DeviceCfg, 0x2000, 4);
    caps.push(cap(CfgType::DeviceCfg, 0x3ff8, 12));
    caps.push(cap(CfgType::DeviceCfg, 0x2800, 12));
    caps.push(cap(CfgType::DeviceCfg, 0x2900, 12));
    let drv = VirtioNetDriver::new(&caps, DEV).unwrap();
    assert_eq!(drv.dev_cfg().region().base(), 0xfe00_2800);
    assert_eq!(drv.dev_cfg().region().length(), 12);
}

#[test]
fn invalid_capabilities_of_the_other_kinds_are_passed_over() {
    let caps = vec![
        cap(CfgType::CommonCfg, 0x3ff0, 56),
        cap(CfgType::CommonCfg, 0x0100, 55),
        cap(CfgType::CommonCfg, 0x0200, 64),
        cap(CfgType::IsrCfg, 0x4000, 1),
        cap(CfgType::IsrCfg, 0x1000, 0),
        cap(CfgType::IsrCfg, 0x1004, 1),
        cap(CfgType::NotifyCfg, 0x3000, 1),
        cap(CfgType::NotifyCfg, 0x3008, 2),
        cap(CfgType::DeviceCfg, 0x2000, 12),
    ];
    let drv = VirtioNetDriver::new(&caps, DEV).unwrap();
    assert_eq!(drv.com_cfg().base(), 0xfe00_0200);
    assert_eq!(drv.com_cfg().length(), 64);
    assert_eq!(drv.isr_stat().base(), 0xfe00_1004);
    assert_eq!(drv.notif_cfg().base(), 0xfe00_3008);
    let only_invalid = vec![
        cap(CfgType::CommonCfg, 0x0100, 55),
        cap(CfgType::IsrCfg, 0x1004, 1),
        cap(CfgType::NotifyCfg, 0x3008, 2),
        cap(CfgType::DeviceCfg, 0x2000, 12),
    ];
    assert_eq!(VirtioNetDriver::new(&only_invalid, 3).unwrap_err(), VirtioNetError::NoComCfg(3));
}

#[test]
fn find_region_takes_the_first_that_is_valid() {
    let caps = vec![
        cap(CfgType::IsrCfg, 0x10, 8),
        cap(CfgType::NotifyCfg, 0x20, 1),
        cap(CfgType::NotifyCfg, 0x30, 2),
        cap(CfgType::NotifyCfg, 0x40, 2),
    ];
    let r = find_region(&caps, CfgType::NotifyCfg, 2).unwrap();
    assert_eq!(r.base(), 0xfe00_0030);
    assert_eq!(r.kind(), CfgType::NotifyCfg);
    assert!(find_region(&caps, CfgType::NotifyCfg, 3).is_none());
    assert!(find_region(&caps, CfgType::CommonCfg, 0).is_none());
    assert!(find_region(&Vec::new(), CfgType::IsrCfg, 1).is_none());
    assert!(find_dev_cfg(&caps).is_none());
    let caps = vec![cap(CfgType::DeviceCfg, 0x10, 11), cap(CfgType::DeviceCfg, 0x20, 13)];
    let cfg = find_dev_cfg(&caps).unwrap();
    assert_eq!(cfg.region().base(), 0xfe00_0020);
    assert_eq!(cfg.region().length(), 13);
}

#[test]
fn driver_goes_live_through_the_handshake() {
    let mut drv = VirtioNetDriver::new(&full(), DEV).unwrap();
    assert_eq!(drv.init_dev(Event::Done), Action::Acknowledge);
    assert_eq!(drv.init_dev(Event::Done), Action::ClaimDriver);
    assert_eq!(drv.init_dev(Event::Done), Action::ReadDeviceFeatures);
    assert_eq!(
        drv.init_dev(Event::DeviceFeatures(u64::MAX)),
        Action::WriteDriverFeatures(required_features())
    );
    assert_eq!(drv.init_dev(Event::Done), Action::SetFeaturesOk);
    assert_eq!(drv.init_dev(Event::Done), Action::CheckFeaturesOk);
    assert_eq!(drv.init_dev(Event::FeaturesOk(true)), Action::InitDeviceSpecific);
    assert_eq!(drv.init_dev(Event::DeviceSpecific(Ok(()))), Action::SetDriverOk);
    assert!(!drv.is_live());
    assert_eq!(drv.init_dev(Event::Done), Action::Done);
    assert!(drv.is_live());
    assert_eq!(drv.state(), HandshakeState::DriverOk);
    assert_eq!(drv.com_cfg().base(), 0xfe00_0000);
    assert_eq!(drv.dev_cfg().region().base(), 0xfe00_2000);
}

#[test]
fn driver_names_the_device_of_its_configuration_on_failure() {
    let mut caps = full();
    caps[2].dev_id = 0x1000;
    let mut drv = VirtioNetDriver::new(&caps, DEV).unwrap();
    for _ in 0..3 {
        drv.init_dev(Event::Done);
    }
    assert_eq!(drv.init_dev(Event::DeviceFeatures(0)), Action::SetFailed);
    assert_eq!(drv.init_dev(Event::Done), Action::Fail(VirtioNetError::FailFeatureNeg(0x1000)));
    assert!(!drv.is_live());
    assert_eq!(drv.state(), HandshakeState::Failed);
}

#[test]
fn driver_reads_the_status_word() {
    let drv = VirtioNetDriver::new(&full(), DEV).unwrap();
    let mem: [u8; 12] = [0, 0, 0, 0, 0, 0, 0x01, 0x00, 0, 0, 0, 0];
    assert_eq!(drv.dev_status(&mem), 1);
    let mem: [u8; 12] = [9, 9, 9, 9, 9, 9, 0x02, 0x01, 9, 9, 9, 9];
    assert_eq!(drv.dev_status(&mem), 0x0102);
}
