//! Capability descriptors and the check that turns one into a region of
//! device memory that is safe to address.

use vstd::prelude::*;
use crate::error::RegionError;

verus! {

/// The kind of structure a capability points to.
#[derive(Copy, Clone, Debug, PartialEq, Eq, Structural)]
pub enum CfgType {
    /// The common configuration: status handshake and feature windows.
    CommonCfg,
    /// The notification area.
    NotifyCfg,
    /// The interrupt status.
    IsrCfg,
    /// The configuration specific to the device class.
    DeviceCfg,
    /// The alternate access window through the configuration space.
    PciCfg,
    /// A shared memory region.
    SharedMemoryCfg,
}

/// A base address register of the device, as the bus mapped it: the bytes
/// from `mem_addr` up to `mem_addr + length`, all of them addressable.
#[derive(Copy, Clone, Debug)]
pub struct PciBar {
    index: u8,
    mem_addr: u64,
    length: u64,
}

impl PciBar {
    #[verifier::type_invariant]
    spec fn addressable(self) -> bool {
        self.mem_addr + self.length <= u64::MAX
    }

    /// The number of the bar.
    pub closed spec fn spec_index(self) -> u8 {
        self.index
    }

    /// The address of the bar's first byte.
    pub closed spec fn spec_mem_addr(self) -> u64 {
        self.mem_addr
    }

    /// The length of the bar in bytes.
    pub closed spec fn spec_length(self) -> u64 {
        self.length
    }

    /// Describes a bar of `length` bytes mapped at `mem_addr`. There is no
    /// such bar where its end lies beyond the last address.
    pub fn new(index: u8, mem_addr: u64, length: u64) -> (r: Option<PciBar>)
        ensures
            r is Some <==> mem_addr + length <= u64::MAX,
            r matches Some(bar) ==> bar.spec_index() == index && bar.spec_mem_addr() == mem_addr
                && bar.spec_length() == length,
    {
        if length <= u64::MAX - mem_addr {
            Some(PciBar { index, mem_addr, length })
        } else {
            None
        }
    }

    /// The number of the bar.
    pub fn index(&self) -> (r: u8)
        ensures
            r == self.spec_index(),
    {
        self.index
    }

    /// The address of the bar's first byte.
    pub fn mem_addr(&self) -> (r: u64)
        ensures
            r == self.spec_mem_addr(),
            r + self.spec_length() <= u64::MAX,
    {
        proof {
            use_type_invariant(self);
        }
        self.mem_addr
    }

    /// The length of the bar in bytes.
    pub fn length(&self) -> (r: u64)
        ensures
            r == self.spec_length(),
    {
        self.length
    }
}

/// A capability as the bus scan produced it: where in which bar the
/// structure lies, how long it claims to be, and what it is.
#[derive(Copy, Clone, Debug)]
pub struct PciCap {
    pub cfg_type: CfgType,
    pub bar: PciBar,
    pub offset: u64,
    pub length: u64,
    pub dev_id: u16,
}

impl PciCap {
    /// The declared extent lies inside the bar.
    pub open spec fn fits_bar(self) -> bool {
        self.offset + self.length <= self.bar.spec_length()
    }

    /// The address of the first byte of the declared extent.
    pub open spec fn start(self) -> int {
        self.bar.spec_mem_addr() + self.offset
    }
}

/// A stretch of device memory that passed validation: `length` bytes from
/// `base` on, holding a structure of kind `kind`.
#[derive(Debug)]
pub struct MappedRegion {
    kind: CfgType,
    base: u64,
    length: u64,
}

impl MappedRegion {
    #[verifier::type_invariant]
    spec fn addressable(self) -> bool {
        self.base + self.length <= u64::MAX
    }

    /// The kind of structure the region holds.
    pub closed spec fn spec_kind(self) -> CfgType {
        self.kind
    }

    /// The address of the region's first byte.
    pub closed spec fn spec_base(self) -> u64 {
        self.base
    }

    /// The length of the region in bytes.
    pub closed spec fn spec_length(self) -> u64 {
        self.length
    }

    /// The region is the extent that `cap` declares.
    pub open spec fn covers(self, cap: PciCap) -> bool {
        &&& self.spec_kind() == cap.cfg_type
        &&& self.spec_base() == cap.start()
        &&& self.spec_length() == cap.length
    }

    /// The kind of structure the region holds.
    pub fn kind(&self) -> (r: CfgType)
        ensures
            r == self.spec_kind(),
    {
        self.kind
    }

    /// The address of the region's first byte.
    pub fn base(&self) -> (r: u64)
        ensures
            r == self.spec_base(),
            r + self.spec_length() <= u64::MAX,
    {
        proof {
            use_type_invariant(self);
        }
        self.base
    }

    /// The length of the region in bytes.
    pub fn length(&self) -> (r: u64)
        ensures
            r == self.spec_length(),
    {
        self.length
    }
}

/// What mapping `cap` gives when the structure behind it takes
/// `required_len` bytes: the extent must lie inside the bar, and must be
/// long enough for the structure. The first of the two that fails is
/// reported.
pub open spec fn region_check(cap: PciCap, required_len: u64) -> Result<(), RegionError> {
    if !cap.fits_bar() {
        Err(RegionError::ExceedsBar)
    } else if cap.length < required_len {
        Err(RegionError::TooSmall)
    } else {
        Ok(())
    }
}

/// Validates the extent that `cap` declares against its bar and against
/// the size of the structure it should hold, and gives the region.
pub fn map_region(cap: &PciCap, required_len: u64) -> (r: Result<MappedRegion, RegionError>)
    ensures
        match r {
            Ok(region) => region_check(*cap, required_len) is Ok && region.covers(*cap),
            Err(e) => region_check(*cap, required_len) == Err::<(), RegionError>(e),
        },
{
    let bar_len = cap.bar.length();
    let bar_addr = cap.bar.mem_addr();
    if cap.offset > bar_len || cap.length > bar_len - cap.offset {
        return Err(RegionError::ExceedsBar);
    }
    if cap.length < required_len {
        return Err(RegionError::TooSmall);
    }
    Ok(MappedRegion { kind: cap.cfg_type, base: bar_addr + cap.offset, length: cap.length })
}

/// A capability whose extent reaches past the end of its bar is never
/// mapped, whatever the structure.
pub proof fn lemma_exceeding_extent_rejected(cap: PciCap, required_len: u64)
    requires
        cap.offset + cap.length > cap.bar.spec_length(),
    ensures
        region_check(cap, required_len) == Err::<(), RegionError>(RegionError::ExceedsBar),
{
}

/// A capability shorter than the structure it should hold is never mapped.
pub proof fn lemma_short_extent_rejected(cap: PciCap, required_len: u64)
    requires
        cap.length < required_len,
    ensures
        region_check(cap, required_len) is Err,
{
}

} // verus!
