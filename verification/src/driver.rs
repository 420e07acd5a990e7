//! The driver of one network device: the regions it was built on and the
//! handshake it holds with the device.

use vstd::prelude::*;
use crate::config::{map_cfg, NetDevCfg, NET_DEV_CFG_LEN, STATUS_OFFSET, field16};
use crate::error::VirtioNetError;
use crate::features::{required_features, spec_required_features};
use crate::handshake::{Action, Event, Handshake, HandshakeState, Progress};
use crate::region::{map_region, region_check, CfgType, MappedRegion, PciCap};

verus! {

/// The size in bytes of the common configuration structure: four 32-bit
/// feature windows, two 16-bit words, two bytes, five 16-bit queue fields
/// and three 64-bit queue addresses.
pub const COMMON_CFG_LEN: u64 = 56;

/// The size in bytes of the interrupt status: one byte.
pub const ISR_LEN: u64 = 1;

/// The least size in bytes of the notification area: the 16-bit index of
/// one queue.
pub const NOTIFY_LEN: u64 = 2;

/// Whether `cap` can serve as the structure of kind `kind`, which takes
/// `required_len` bytes: it is of that kind and passes validation.
pub open spec fn usable(cap: PciCap, kind: CfgType, required_len: u64) -> bool {
    cap.cfg_type == kind && region_check(cap, required_len) is Ok
}

/// The place of the first capability from place `from` on that can serve
/// as the structure of kind `kind`.
pub open spec fn first_usable(
    caps: Seq<PciCap>,
    kind: CfgType,
    required_len: u64,
    from: int,
) -> Option<int>
    decreases caps.len() - from,
{
    if from < 0 || from >= caps.len() {
        None
    } else if usable(caps[from], kind, required_len) {
        Some(from)
    } else {
        first_usable(caps, kind, required_len, from + 1)
    }
}

/// The mandatory structure that the capabilities `caps` of device
/// `dev_id` fail to provide, if there is one. The structures are looked
/// for in a fixed order, and the first that is missing is reported.
pub open spec fn missing(caps: Seq<PciCap>, dev_id: u16) -> Option<VirtioNetError> {
    if first_usable(caps, CfgType::CommonCfg, COMMON_CFG_LEN, 0) is None {
        Some(VirtioNetError::NoComCfg(dev_id))
    } else if first_usable(caps, CfgType::IsrCfg, ISR_LEN, 0) is None {
        Some(VirtioNetError::NoIsrCfg(dev_id))
    } else if first_usable(caps, CfgType::NotifyCfg, NOTIFY_LEN, 0) is None {
        Some(VirtioNetError::NoNotifCfg(dev_id))
    } else if first_usable(caps, CfgType::DeviceCfg, NET_DEV_CFG_LEN, 0) is None {
        Some(VirtioNetError::NoDevCfg(dev_id))
    } else {
        None
    }
}

/// Looks through `caps` in order for the first capability that can serve
/// as the structure of kind `kind`, and maps it.
pub fn find_region(caps: &Vec<PciCap>, kind: CfgType, required_len: u64) -> (r: Option<
    MappedRegion,
>)
    ensures
        match first_usable(caps@, kind, required_len, 0) {
            Some(i) => r matches Some(region) && region.covers(caps@[i]),
            None => r is None,
        },
{
    let mut i: usize = 0;
    while i < caps.len()
        invariant
            i <= caps.len(),
            first_usable(caps@, kind, required_len, 0) == first_usable(
                caps@,
                kind,
                required_len,
                i as int,
            ),
        decreases caps.len() - i,
    {
        if caps[i].cfg_type == kind {
            match map_region(&caps[i], required_len) {
                Ok(region) => {
                    return Some(region);
                },
                Err(_) => {},
            }
        }
        i += 1;
    }
    None
}

/// Looks through `caps` in order for the first capability that can serve
/// as the configuration of a network device, and gives the view of it.
pub fn find_dev_cfg(caps: &Vec<PciCap>) -> (r: Option<NetDevCfg>)
    ensures
        match first_usable(caps@, CfgType::DeviceCfg, NET_DEV_CFG_LEN, 0) {
            Some(i) => r matches Some(cfg) && cfg.spec_region().covers(caps@[i])
                && cfg.spec_dev_id() == caps@[i].dev_id,
            None => r is None,
        },
{
    let mut i: usize = 0;
    while i < caps.len()
        invariant
            i <= caps.len(),
            first_usable(caps@, CfgType::DeviceCfg, NET_DEV_CFG_LEN, 0) == first_usable(
                caps@,
                CfgType::DeviceCfg,
                NET_DEV_CFG_LEN,
                i as int,
            ),
        decreases caps.len() - i,
    {
        if caps[i].cfg_type == CfgType::DeviceCfg {
            match map_cfg(&caps[i]) {
                Ok(cfg) => {
                    return Some(cfg);
                },
                Err(_) => {},
            }
        }
        i += 1;
    }
    None
}

/// The driver of one network device. It exists only once all four
/// mandatory structures were found and validated, and it leads the
/// device through the handshake from there.
#[derive(Debug)]
pub struct VirtioNetDriver {
    dev_cfg: NetDevCfg,
    com_cfg: MappedRegion,
    isr_stat: MappedRegion,
    notif_cfg: MappedRegion,
    handshake: Handshake,
}

impl VirtioNetDriver {
    #[verifier::type_invariant]
    spec fn regions_hold_structures(self) -> bool {
        &&& self.dev_cfg.spec_region().spec_kind() == CfgType::DeviceCfg
        &&& self.com_cfg.spec_kind() == CfgType::CommonCfg
        &&& self.com_cfg.spec_length() >= COMMON_CFG_LEN
        &&& self.isr_stat.spec_kind() == CfgType::IsrCfg
        &&& self.isr_stat.spec_length() >= ISR_LEN
        &&& self.notif_cfg.spec_kind() == CfgType::NotifyCfg
        &&& self.notif_cfg.spec_length() >= NOTIFY_LEN
    }

    /// The view of the device-specific configuration.
    pub closed spec fn spec_dev_cfg(self) -> NetDevCfg {
        self.dev_cfg
    }

    /// The region of the common configuration.
    pub closed spec fn spec_com_cfg(self) -> MappedRegion {
        self.com_cfg
    }

    /// The region of the interrupt status.
    pub closed spec fn spec_isr_stat(self) -> MappedRegion {
        self.isr_stat
    }

    /// The region of the notification area.
    pub closed spec fn spec_notif_cfg(self) -> MappedRegion {
        self.notif_cfg
    }

    /// How far the handshake has come.
    pub closed spec fn progress(self) -> Progress {
        self.handshake@
    }

    /// The driver is built on the first usable capability of each kind in
    /// `caps`.
    pub open spec fn built_on(self, caps: Seq<PciCap>) -> bool {
        &&& first_usable(caps, CfgType::CommonCfg, COMMON_CFG_LEN, 0) matches Some(i)
            && self.spec_com_cfg().covers(caps[i])
        &&& first_usable(caps, CfgType::IsrCfg, ISR_LEN, 0) matches Some(i)
            && self.spec_isr_stat().covers(caps[i])
        &&& first_usable(caps, CfgType::NotifyCfg, NOTIFY_LEN, 0) matches Some(i)
            && self.spec_notif_cfg().covers(caps[i])
        &&& first_usable(caps, CfgType::DeviceCfg, NET_DEV_CFG_LEN, 0) matches Some(i)
            && self.spec_dev_cfg().spec_region().covers(caps[i])
            && self.spec_dev_cfg().spec_dev_id() == caps[i].dev_id
    }

    /// Builds the driver of device `dev_id` from the capabilities that the
    /// scan of the bus found, in the order of the scan. Of each kind the
    /// first capability that passes validation is taken. Where a kind has
    /// none, there is no driver, and the error names the kind and the
    /// device.
    ///
    /// The handshake of the new driver is at its start, with the features
    /// that this driver cannot do without.
    pub fn new(caps: &Vec<PciCap>, dev_id: u16) -> (r: Result<VirtioNetDriver, VirtioNetError>)
        ensures
            match missing(caps@, dev_id) {
                Some(e) => r matches Err(err) && err == e,
                None => r matches Ok(drv) && drv.built_on(caps@) && drv.progress()
                    == Progress::start(drv.spec_dev_cfg().spec_dev_id(), spec_required_features()),
            },
    {
        let com_cfg = match find_region(caps, CfgType::CommonCfg, COMMON_CFG_LEN) {
            Some(region) => region,
            None => {
                return Err(VirtioNetError::NoComCfg(dev_id));
            },
        };
        let isr_stat = match find_region(caps, CfgType::IsrCfg, ISR_LEN) {
            Some(region) => region,
            None => {
                return Err(VirtioNetError::NoIsrCfg(dev_id));
            },
        };
        let notif_cfg = match find_region(caps, CfgType::NotifyCfg, NOTIFY_LEN) {
            Some(region) => region,
            None => {
                return Err(VirtioNetError::NoNotifCfg(dev_id));
            },
        };
        let dev_cfg = match find_dev_cfg(caps) {
            Some(cfg) => cfg,
            None => {
                return Err(VirtioNetError::NoDevCfg(dev_id));
            },
        };
        proof {
            lemma_first_usable(caps@, CfgType::CommonCfg, COMMON_CFG_LEN, 0);
            lemma_first_usable(caps@, CfgType::IsrCfg, ISR_LEN, 0);
            lemma_first_usable(caps@, CfgType::NotifyCfg, NOTIFY_LEN, 0);
            lemma_first_usable(caps@, CfgType::DeviceCfg, NET_DEV_CFG_LEN, 0);
        }
        let handshake = Handshake::new(dev_cfg.dev_id(), required_features());
        Ok(VirtioNetDriver { dev_cfg, com_cfg, isr_stat, notif_cfg, handshake })
    }

    /// The view of the device-specific configuration.
    pub fn dev_cfg(&self) -> (r: &NetDevCfg)
        ensures
            *r == self.spec_dev_cfg(),
            r.spec_region().spec_kind() == CfgType::DeviceCfg,
    {
        proof {
            use_type_invariant(self);
        }
        &self.dev_cfg
    }

    /// The region of the common configuration, which holds the structure.
    pub fn com_cfg(&self) -> (r: &MappedRegion)
        ensures
            *r == self.spec_com_cfg(),
            r.spec_kind() == CfgType::CommonCfg,
            r.spec_length() >= COMMON_CFG_LEN,
    {
        proof {
            use_type_invariant(self);
        }
        &self.com_cfg
    }

    /// The region of the interrupt status, which holds the structure.
    pub fn isr_stat(&self) -> (r: &MappedRegion)
        ensures
            *r == self.spec_isr_stat(),
            r.spec_kind() == CfgType::IsrCfg,
            r.spec_length() >= ISR_LEN,
    {
        proof {
            use_type_invariant(self);
        }
        &self.isr_stat
    }

    /// The region of the notification area, which holds the structure.
    pub fn notif_cfg(&self) -> (r: &MappedRegion)
        ensures
            *r == self.spec_notif_cfg(),
            r.spec_kind() == CfgType::NotifyCfg,
            r.spec_length() >= NOTIFY_LEN,
    {
        proof {
            use_type_invariant(self);
        }
        &self.notif_cfg
    }

    /// The action that was issued last and awaits its event. For a new
    /// driver it is the reset.
    pub fn pending(&self) -> (r: Action)
        ensures
            r == self.progress().pending,
    {
        self.handshake.pending()
    }

    /// The stage of the handshake the driver is in.
    pub fn state(&self) -> (r: HandshakeState)
        ensures
            r == self.progress().state(),
    {
        self.handshake.state()
    }

    /// Whether the handshake is complete: the device is live, and only
    /// then may its queues be used.
    pub fn is_live(&self) -> (r: bool)
        ensures
            r == (self.progress().pending == Action::Done),
    {
        match self.handshake.pending() {
            Action::Done => true,
            _ => false,
        }
    }

    /// Takes the handshake one step on: `event` says what came of the
    /// pending action, and the result is the action to perform next. The
    /// regions of the driver stay as they are.
    pub fn init_dev(&mut self, event: Event) -> (action: Action)
        ensures
            (final(self).progress(), action) == old(self).progress().next(event),
            final(self).spec_dev_cfg() == old(self).spec_dev_cfg(),
            final(self).spec_com_cfg() == old(self).spec_com_cfg(),
            final(self).spec_isr_stat() == old(self).spec_isr_stat(),
            final(self).spec_notif_cfg() == old(self).spec_notif_cfg(),
    {
        proof {
            use_type_invariant(&*self);
        }
        let mut handshake = self.handshake;
        let action = handshake.step(event);
        self.handshake = handshake;
        action
    }

    /// The status word of the device, read from the content `mem` of the
    /// region of the device-specific configuration.
    pub fn dev_status(&self, mem: &[u8]) -> (r: u16)
        requires
            self.spec_dev_cfg().reads(mem@),
        ensures
            r == field16(mem@, STATUS_OFFSET as int),
    {
        self.dev_cfg.status(mem)
    }
}

/// Where there is no driver, the error says that a mandatory capability is
/// missing and names the device.
pub proof fn lemma_missing_names_device(caps: Seq<PciCap>, dev_id: u16)
    ensures
        missing(caps, dev_id) matches Some(e) ==> e.is_missing_capability() && e.spec_dev_id()
            == Some(dev_id),
        first_usable(caps, CfgType::IsrCfg, ISR_LEN, 0) is None ==> missing(caps, dev_id)
            is Some,
        first_usable(caps, CfgType::DeviceCfg, NET_DEV_CFG_LEN, 0) is None ==> missing(
            caps,
            dev_id,
        ) is Some,
{
}

/// The first usable capability is usable, and none before it is.
pub proof fn lemma_first_usable(caps: Seq<PciCap>, kind: CfgType, required_len: u64, from: int)
    requires
        0 <= from,
    ensures
        match first_usable(caps, kind, required_len, from) {
            Some(i) => from <= i < caps.len() && usable(caps[i], kind, required_len) && forall|
                j: int,
            |
                from <= j < i ==> !usable(#[trigger] caps[j], kind, required_len),
            None => forall|j: int|
                from <= j < caps.len() ==> !usable(#[trigger] caps[j], kind, required_len),
        },
    decreases caps.len() - from,
{
    if from < caps.len() && !usable(caps[from], kind, required_len) {
        lemma_first_usable(caps, kind, required_len, from + 1);
    }
}

} // verus!
