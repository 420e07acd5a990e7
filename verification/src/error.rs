//! Errors reported while a network device is brought up.

use vstd::prelude::*;

verus! {

/// Why a capability could not be turned into a mapped region.
#[derive(Copy, Clone, Debug, PartialEq, Eq, Structural)]
pub enum RegionError {
    /// The declared extent reaches past the end of the bar.
    ExceedsBar,
    /// The declared extent is shorter than the structure it should hold.
    TooSmall,
}

/// Why the bring-up of a network device failed. Every variant but
/// `General` carries the id of the device concerned.
#[derive(Copy, Clone, Debug, PartialEq, Eq, Structural)]
pub enum VirtioNetError {
    /// A failure that is tied to no capability and no negotiation.
    General,
    /// No usable device-specific configuration capability.
    NoDevCfg(u16),
    /// No usable common configuration capability.
    NoComCfg(u16),
    /// No usable interrupt status capability.
    NoIsrCfg(u16),
    /// No usable notification capability.
    NoNotifCfg(u16),
    /// The feature negotiation failed.
    FailFeatureNeg(u16),
}

impl VirtioNetError {
    /// Whether the error says that a mandatory capability is missing.
    pub open spec fn is_missing_capability(self) -> bool {
        self is NoDevCfg || self is NoComCfg || self is NoIsrCfg || self is NoNotifCfg
    }

    /// The device the error names, if it names one.
    pub open spec fn spec_dev_id(self) -> Option<u16> {
        match self {
            VirtioNetError::General => None,
            VirtioNetError::NoDevCfg(id) => Some(id),
            VirtioNetError::NoComCfg(id) => Some(id),
            VirtioNetError::NoIsrCfg(id) => Some(id),
            VirtioNetError::NoNotifCfg(id) => Some(id),
            VirtioNetError::FailFeatureNeg(id) => Some(id),
        }
    }

    /// The device the error names, if it names one.
    pub fn dev_id(&self) -> (r: Option<u16>)
        ensures
            r == self.spec_dev_id(),
    {
        match self {
            VirtioNetError::General => None,
            VirtioNetError::NoDevCfg(id) => Some(*id),
            VirtioNetError::NoComCfg(id) => Some(*id),
            VirtioNetError::NoIsrCfg(id) => Some(*id),
            VirtioNetError::NoNotifCfg(id) => Some(*id),
            VirtioNetError::FailFeatureNeg(id) => Some(*id),
        }
    }
}

} // verus!
