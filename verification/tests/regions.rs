use virtio_net::config::{map_cfg, NET_DEV_CFG_LEN};
use virtio_net::error::RegionError;
use virtio_net::region::{map_region, CfgType, PciBar, PciCap};
use virtio_net::status::{has_status, Status};

fn cap(cfg_type: CfgType, bar_len: u64, offset: u64, length: u64) -> PciCap {
    PciCap { cfg_type, bar: PciBar::new(0, 0xfe00_0000, bar_len).unwrap(), offset, length, dev_id: 0x1041 }
}

#[test]
fn bar_must_be_addressable() {
    assert!(PciBar::new(1, 0, 0).is_some());
    assert!(PciBar::new(1, u64::MAX, 0).is_some());
    assert!(PciBar::new(1, u64::MAX - 4096, 4096).is_some());
    assert!(PciBar::new(1, u64::MAX - 4095, 4096).is_none());
    assert!(PciBar::new(1, 1, u64::MAX).is_none());
    assert!(PciBar::new(1, u64::MAX, u64::MAX).is_none());
    let bar = PciBar::new(4, 0x1000, 0x200).unwrap();
    assert_eq!(bar.index(), 4);
    assert_eq!(bar.mem_addr(), 0x1000);
    assert_eq!(bar.length(), 0x200);
}

#[test]
fn region_is_the_declared_extent() {
    let c = cap(CfgType::CommonCfg, 0x4000, 0x1000, 56);
    let region = map_region(&c, 56).unwrap();
    assert_eq!(region.kind(), CfgType::CommonCfg);
    assert_eq!(region.base(), 0xfe00_1000);
    assert_eq!(region.length(), 56);
}

#[test]
fn region_may_end_with_the_bar() {
    let c = cap(CfgType::IsrCfg, 0x1000, 0xfff, 1);
    let region = map_region(&c, 1).unwrap();
    assert_eq!(region.base(), 0xfe00_0fff);
    assert_eq!(region.length(), 1);
    let whole = cap(CfgType::NotifyCfg, 0x1000, 0, 0x1000);
    assert_eq!(map_region(&whole, 2).unwrap().length(), 0x1000);
}

#[test]
fn extent_beyond_bar_is_rejected() {
    let c = cap(CfgType::DeviceCfg, 0x1000, 0xff8, 12);
    assert_eq!(map_region(&c, 12).unwrap_err(), RegionError::ExceedsBar);
    let c = cap(CfgType::DeviceCfg, 0x1000, 0x1000, 1);
    assert_eq!(map_region(&c, 1).unwrap_err(), RegionError::ExceedsBar);
    let c = cap(CfgType::DeviceCfg, 0x1000, 0x1001, 0);
    assert_eq!(map_region(&c, 0).unwrap_err(), RegionError::ExceedsBar);
    let c = cap(CfgType::DeviceCfg, 0, 0, 12);
    assert_eq!(map_region(&c, 12).unwrap_err(), RegionError::ExceedsBar);
}

#[test]
fn extent_whose_end_overflows_is_rejected() {
    let c = cap(CfgType::DeviceCfg, 0x1000, u64::MAX, 12);
    assert_eq!(map_region(&c, 12).unwrap_err(), RegionError::ExceedsBar);
    let c = cap(CfgType::DeviceCfg, 0x1000, 8, u64::MAX);
    assert_eq!(map_region(&c, 12).unwrap_err(), RegionError::ExceedsBar);
    let c = cap(CfgType::DeviceCfg, 0x1000, u64::MAX, u64::MAX);
    assert_eq!(map_region(&c, 12).unwrap_err(), RegionError::ExceedsBar);
}

#[test]
fn extent_shorter_than_structure_is_rejected() {
    let c = cap(CfgType::DeviceCfg, 0x1000, 0, 11);
    assert_eq!(map_region(&c, 12).unwrap_err(), RegionError::TooSmall);
    let c = cap(CfgType::CommonCfg, 0x1000, 0x100, 55);
    assert_eq!(map_region(&c, 56).unwrap_err(), RegionError::TooSmall);
    let c = cap(CfgType::IsrCfg, 0x1000, 0x100, 0);
    assert_eq!(map_region(&c, 1).unwrap_err(), RegionError::TooSmall);
}

#[test]
fn extent_beyond_bar_is_reported_before_its_size() {
    let c = cap(CfgType::DeviceCfg, 0x1000, 0xffe, 4);
    assert_eq!(map_region(&c, 12).unwrap_err(), RegionError::ExceedsBar);
}

#[test]
fn device_config_of_four_bytes_is_rejected() {
    assert_eq!(NET_DEV_CFG_LEN, 12);
    let c = cap(CfgType::DeviceCfg, 0x1000, 0x200, 4);
    assert_eq!(map_cfg(&c).unwrap_err(), RegionError::TooSmall);
}

#[test]
fn device_config_view_over_valid_capability() {
    let c = cap(CfgType::DeviceCfg, 0x1000, 0x200, 12);
    let cfg = map_cfg(&c).unwrap();
    assert_eq!(cfg.dev_id(), 0x1041);
    assert_eq!(cfg.region().base(), 0xfe00_0200);
    assert_eq!(cfg.region().length(), 12);
    assert_eq!(cfg.region().kind(), CfgType::DeviceCfg);
    let c = cap(CfgType::DeviceCfg, 0x1000, 0xff8, 12);
    assert_eq!(map_cfg(&c).unwrap_err(), RegionError::ExceedsBar);
}

#[test]
fn device_config_fields_are_read_from_their_offsets() {
    let c = cap(CfgType::DeviceCfg, 0x1000, 0x200, 12);
    let cfg = map_cfg(&c).unwrap();
    let mem: [u8; 12] = [0x52, 0x54, 0x00, 0x12, 0x34, 0x56, 0x01, 0x00, 0x04, 0x00, 0xdc, 0x05];
    assert_eq!(cfg.mac(&mem), [0x52, 0x54, 0x00, 0x12, 0x34, 0x56]);
    assert_eq!(cfg.status(&mem), 1);
    assert_eq!(cfg.max_virtqueue_pairs(&mem), 4);
    assert_eq!(cfg.mtu(&mem), 1500);
    let mem: [u8; 12] = [0, 0, 0, 0, 0, 0, 0x02, 0x80, 0xff, 0xff, 0x34, 0x12];
    assert_eq!(cfg.status(&mem), 0x8002);
    assert_eq!(cfg.max_virtqueue_pairs(&mem), 0xffff);
    assert_eq!(cfg.mtu(&mem), 0x1234);
}

#[test]
fn device_config_reads_a_longer_region() {
    let c = cap(CfgType::DeviceCfg, 0x1000, 0x200, 16);
    let cfg = map_cfg(&c).unwrap();
    let mem: [u8; 16] = [1, 2, 3, 4, 5, 6, 3, 0, 1, 0, 0, 1, 9, 9, 9, 9];
    assert_eq!(cfg.mac(&mem), [1, 2, 3, 4, 5, 6]);
    assert_eq!(cfg.status(&mem), 3);
    assert_eq!(cfg.max_virtqueue_pairs(&mem), 1);
    assert_eq!(cfg.mtu(&mem), 256);
}

#[test]
fn status_flags() {
    assert_eq!(u16::from(Status::VIRTIO_NET_S_LINK_UP), 1);
    assert_eq!(u16::from(Status::VIRTIO_NET_S_ANNOUNCE), 2);
    assert!(has_status(1, Status::VIRTIO_NET_S_LINK_UP));
    assert!(has_status(3, Status::VIRTIO_NET_S_LINK_UP));
    assert!(!has_status(2, Status::VIRTIO_NET_S_LINK_UP));
    assert!(has_status(2, Status::VIRTIO_NET_S_ANNOUNCE));
    assert!(!has_status(0, Status::VIRTIO_NET_S_ANNOUNCE));
    assert!(!has_status(0xfffc, Status::VIRTIO_NET_S_LINK_UP));
}
