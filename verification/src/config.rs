//! The device-specific configuration of a network device, read through a
//! validated view.

use vstd::prelude::*;
use crate::error::RegionError;
use crate::region::{map_region, region_check, MappedRegion, PciCap};

verus! {

/// The size in bytes of the network device configuration: the hardware
/// address, then three 16-bit fields.
pub const NET_DEV_CFG_LEN: u64 = 12;

/// Where the hardware address starts.
pub const MAC_OFFSET: usize = 0;

/// Where the status word starts.
pub const STATUS_OFFSET: usize = 6;

/// Where the number of queue pairs starts.
pub const MAX_VIRTQUEUE_PAIRS_OFFSET: usize = 8;

/// Where the maximum transmission unit starts.
pub const MTU_OFFSET: usize = 10;

/// The 16-bit value that the bytes `lo`, `hi` hold, least significant
/// byte first.
pub open spec fn le16(lo: u8, hi: u8) -> u16 {
    (lo + 256 * hi) as u16
}

/// The 16-bit field that starts at `offset` in `mem`.
pub open spec fn field16(mem: Seq<u8>, offset: int) -> u16 {
    le16(mem[offset], mem[offset + 1])
}

/// A view of the configuration of one network device. It exists only for
/// a region that was validated, so every field lies inside the region. The
/// fields belong to the device: the view reads them and never writes.
#[derive(Debug)]
pub struct NetDevCfg {
    region: MappedRegion,
    dev_id: u16,
}

impl NetDevCfg {
    #[verifier::type_invariant]
    spec fn holds_structure(self) -> bool {
        self.region.spec_length() >= NET_DEV_CFG_LEN
    }

    /// The region the view reads.
    pub closed spec fn spec_region(self) -> MappedRegion {
        self.region
    }

    /// The device the configuration belongs to.
    pub closed spec fn spec_dev_id(self) -> u16 {
        self.dev_id
    }

    /// `mem` can be the content of the viewed region: it has its length.
    pub open spec fn reads(self, mem: Seq<u8>) -> bool {
        mem.len() == self.spec_region().spec_length()
    }

    /// The region the view reads. It holds the whole structure.
    pub fn region(&self) -> (r: &MappedRegion)
        ensures
            *r == self.spec_region(),
            r.spec_length() >= NET_DEV_CFG_LEN,
    {
        proof {
            use_type_invariant(self);
        }
        &self.region
    }

    /// The device the configuration belongs to.
    pub fn dev_id(&self) -> (r: u16)
        ensures
            r == self.spec_dev_id(),
    {
        self.dev_id
    }

    /// The hardware address, read from the region's content `mem`.
    pub fn mac(&self, mem: &[u8]) -> (r: [u8; 6])
        requires
            self.reads(mem@),
        ensures
            r@ == mem@.subrange(MAC_OFFSET as int, MAC_OFFSET + 6),
    {
        proof {
            use_type_invariant(self);
        }
        let r = [mem[0], mem[1], mem[2], mem[3], mem[4], mem[5]];
        assert(r@ =~= mem@.subrange(0, 6));
        r
    }

    /// The status word, read from the region's content `mem`. The device
    /// may change it at any time, so it is read anew at each call.
    pub fn status(&self, mem: &[u8]) -> (r: u16)
        requires
            self.reads(mem@),
        ensures
            r == field16(mem@, STATUS_OFFSET as int),
    {
        proof {
            use_type_invariant(self);
        }
        read16(mem, STATUS_OFFSET)
    }

    /// The largest number of queue pairs the device offers, read from the
    /// region's content `mem`.
    pub fn max_virtqueue_pairs(&self, mem: &[u8]) -> (r: u16)
        requires
            self.reads(mem@),
        ensures
            r == field16(mem@, MAX_VIRTQUEUE_PAIRS_OFFSET as int),
    {
        proof {
            use_type_invariant(self);
        }
        read16(mem, MAX_VIRTQUEUE_PAIRS_OFFSET)
    }

    /// The maximum transmission unit, read from the region's content `mem`.
    pub fn mtu(&self, mem: &[u8]) -> (r: u16)
        requires
            self.reads(mem@),
        ensures
            r == field16(mem@, MTU_OFFSET as int),
    {
        proof {
            use_type_invariant(self);
        }
        read16(mem, MTU_OFFSET)
    }
}

fn read16(mem: &[u8], offset: usize) -> (r: u16)
    requires
        offset + 1 < mem@.len(),
    ensures
        r == field16(mem@, offset as int),
{
    let lo = mem[offset] as u16;
    let hi = mem[offset + 1] as u16;
    lo + 256 * hi
}

/// Validates a capability as the configuration of a network device and
/// gives the view of it.
pub fn map_cfg(cap: &PciCap) -> (r: Result<NetDevCfg, RegionError>)
    ensures
        match r {
            Ok(cfg) => region_check(*cap, NET_DEV_CFG_LEN) is Ok && cfg.spec_region().covers(*cap)
                && cfg.spec_dev_id() == cap.dev_id,
            Err(e) => region_check(*cap, NET_DEV_CFG_LEN) == Err::<(), RegionError>(e),
        },
{
    match map_region(cap, NET_DEV_CFG_LEN) {
        Ok(region) => Ok(NetDevCfg { region, dev_id: cap.dev_id }),
        Err(e) => Err(e),
    }
}

} // verus!
