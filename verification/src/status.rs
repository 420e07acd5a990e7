//! The link status word of the device configuration.

use vstd::prelude::*;
use vstd::std_specs::convert::FromSpecImpl;

verus! {

/// Flags the device reports in the `status` field of its configuration.
#[allow(non_camel_case_types)]
#[derive(Copy, Clone, Debug)]
pub enum Status {
    /// The link is up.
    VIRTIO_NET_S_LINK_UP,
    /// The device asks the driver to announce itself on the network.
    VIRTIO_NET_S_ANNOUNCE,
}

impl Status {
    /// The bit this flag occupies in the status word.
    pub open spec fn mask(self) -> u16 {
        match self {
            Status::VIRTIO_NET_S_LINK_UP => 1,
            Status::VIRTIO_NET_S_ANNOUNCE => 2,
        }
    }
}

impl From<Status> for u16 {
    fn from(stat: Status) -> (ret: u16) {
        match stat {
            Status::VIRTIO_NET_S_LINK_UP => 1,
            Status::VIRTIO_NET_S_ANNOUNCE => 2,
        }
    }
}

impl FromSpecImpl<Status> for u16 {
    open spec fn obeys_from_spec() -> bool {
        true
    }

    open spec fn from_spec(stat: Status) -> u16 {
        stat.mask()
    }
}

/// Whether `flag` is set in the status word `word`.
pub open spec fn status_has(word: u16, flag: Status) -> bool {
    word & flag.mask() == flag.mask()
}

/// Tests the status word for a flag.
pub fn has_status(word: u16, flag: Status) -> (r: bool)
    ensures
        r == status_has(word, flag),
{
    let m = u16::from(flag);
    word & m == m
}

} // verus!
