//! Feature bits of a network device and their negotiation.

use vstd::prelude::*;
use vstd::std_specs::convert::FromSpecImpl;
use vstd::std_specs::ops::BitOrSpecImpl;
use core::ops::BitOr;
use crate::error::VirtioNetError;

verus! {

/// The feature bits of a network device, by name. Each names one position
/// in the 64-bit feature set.
#[allow(non_camel_case_types)]
#[derive(Copy, Clone, Debug, PartialEq, Eq, Structural)]
pub enum NetFeatures {
    VIRTIO_NET_F_CSUM,
    VIRTIO_NET_F_GUEST_CSUM,
    VIRTIO_NET_F_CTRL_GUEST_OFFLOADS,
    VIRTIO_NET_F_MTU,
    VIRTIO_NET_F_MAC,
    VIRTIO_NET_F_GUEST_TSO4,
    VIRTIO_NET_F_GUEST_TSO6,
    VIRTIO_NET_F_GUEST_ECN,
    VIRTIO_NET_F_GUEST_UFO,
    VIRTIO_NET_F_HOST_TSO4,
    VIRTIO_NET_F_HOST_TSO6,
    VIRTIO_NET_F_HOST_ECN,
    VIRTIO_NET_F_HOST_UFO,
    VIRTIO_NET_F_MRG_RXBUF,
    VIRTIO_NET_F_STATUS,
    VIRTIO_NET_F_CTRL_VQ,
    VIRTIO_NET_F_CTRL_RX,
    VIRTIO_NET_F_CTRL_VLAN,
    VIRTIO_NET_F_CTRL_RX_EXTRA,
    VIRTIO_NET_F_GUEST_ANNOUNCE,
    VIRTIO_NET_F_MQ,
    VIRTIO_NET_F_CTRL_MAC_ADDR,
    VIRTIO_NET_F_GSO,
}

impl NetFeatures {
    /// The position of the feature's bit, counted from the least
    /// significant bit of the feature set.
    pub open spec fn spec_bit(self) -> u32 {
        match self {
            NetFeatures::VIRTIO_NET_F_CSUM => 0,
            NetFeatures::VIRTIO_NET_F_GUEST_CSUM => 1,
            NetFeatures::VIRTIO_NET_F_CTRL_GUEST_OFFLOADS => 2,
            NetFeatures::VIRTIO_NET_F_MTU => 3,
            NetFeatures::VIRTIO_NET_F_MAC => 5,
            NetFeatures::VIRTIO_NET_F_GSO => 6,
            NetFeatures::VIRTIO_NET_F_GUEST_TSO4 => 7,
            NetFeatures::VIRTIO_NET_F_GUEST_TSO6 => 8,
            NetFeatures::VIRTIO_NET_F_GUEST_ECN => 9,
            NetFeatures::VIRTIO_NET_F_GUEST_UFO => 10,
            NetFeatures::VIRTIO_NET_F_HOST_TSO4 => 11,
            NetFeatures::VIRTIO_NET_F_HOST_TSO6 => 12,
            NetFeatures::VIRTIO_NET_F_HOST_ECN => 13,
            NetFeatures::VIRTIO_NET_F_HOST_UFO => 14,
            NetFeatures::VIRTIO_NET_F_MRG_RXBUF => 15,
            NetFeatures::VIRTIO_NET_F_STATUS => 16,
            NetFeatures::VIRTIO_NET_F_CTRL_VQ => 17,
            NetFeatures::VIRTIO_NET_F_CTRL_RX => 18,
            NetFeatures::VIRTIO_NET_F_CTRL_VLAN => 19,
            NetFeatures::VIRTIO_NET_F_CTRL_RX_EXTRA => 20,
            NetFeatures::VIRTIO_NET_F_GUEST_ANNOUNCE => 21,
            NetFeatures::VIRTIO_NET_F_MQ => 22,
            NetFeatures::VIRTIO_NET_F_CTRL_MAC_ADDR => 23,
        }
    }

    /// The position of the feature's bit.
    pub fn bit(self) -> (r: u32)
        ensures
            r == self.spec_bit(),
            r < 64,
    {
        match self {
            NetFeatures::VIRTIO_NET_F_CSUM => 0,
            NetFeatures::VIRTIO_NET_F_GUEST_CSUM => 1,
            NetFeatures::VIRTIO_NET_F_CTRL_GUEST_OFFLOADS => 2,
            NetFeatures::VIRTIO_NET_F_MTU => 3,
            NetFeatures::VIRTIO_NET_F_MAC => 5,
            NetFeatures::VIRTIO_NET_F_GSO => 6,
            NetFeatures::VIRTIO_NET_F_GUEST_TSO4 => 7,
            NetFeatures::VIRTIO_NET_F_GUEST_TSO6 => 8,
            NetFeatures::VIRTIO_NET_F_GUEST_ECN => 9,
            NetFeatures::VIRTIO_NET_F_GUEST_UFO => 10,
            NetFeatures::VIRTIO_NET_F_HOST_TSO4 => 11,
            NetFeatures::VIRTIO_NET_F_HOST_TSO6 => 12,
            NetFeatures::VIRTIO_NET_F_HOST_ECN => 13,
            NetFeatures::VIRTIO_NET_F_HOST_UFO => 14,
            NetFeatures::VIRTIO_NET_F_MRG_RXBUF => 15,
            NetFeatures::VIRTIO_NET_F_STATUS => 16,
            NetFeatures::VIRTIO_NET_F_CTRL_VQ => 17,
            NetFeatures::VIRTIO_NET_F_CTRL_RX => 18,
            NetFeatures::VIRTIO_NET_F_CTRL_VLAN => 19,
            NetFeatures::VIRTIO_NET_F_CTRL_RX_EXTRA => 20,
            NetFeatures::VIRTIO_NET_F_GUEST_ANNOUNCE => 21,
            NetFeatures::VIRTIO_NET_F_MQ => 22,
            NetFeatures::VIRTIO_NET_F_CTRL_MAC_ADDR => 23,
        }
    }
}

/// The features a driver can select, each standing for the one-bit set
/// that holds it. `u64::from` gives that set, and `|` joins sets.
#[allow(non_camel_case_types)]
#[derive(Copy, Clone, Debug, PartialEq, Eq, Structural)]
pub enum Features {
    VIRTIO_NET_F_CSUM,
    VIRTIO_NET_F_GUEST_CSUM,
    VIRTIO_NET_F_CTRL_GUEST_OFFLOADS,
    VIRTIO_NET_F_MTU,
    VIRTIO_NET_F_MAC,
    VIRTIO_NET_F_GUEST_TSO4,
    VIRTIO_NET_F_GUEST_TSO6,
    VIRTIO_NET_F_GUEST_ECN,
    VIRTIO_NET_F_GUEST_UFO,
    VIRTIO_NET_F_HOST_TSO4,
    VIRTIO_NET_F_HOST_TSO6,
    VIRTIO_NET_F_HOST_ECN,
    VIRTIO_NET_F_HOST_UFO,
    VIRTIO_NET_F_MRG_RXBUF,
    VIRTIO_NET_F_STATUS,
    VIRTIO_NET_F_CTRL_VQ,
    VIRTIO_NET_F_CTRL_RX,
    VIRTIO_NET_F_CTRL_VLAN,
    VIRTIO_NET_F_GUEST_ANNOUNCE,
    VIRTIO_NET_F_MQ,
    VIRTIO_NET_F_CTRL_MAC_ADDR,
    VIRTIO_NET_F_GUEST_HDRLEN,
    VIRTIO_NET_F_RSC_EXT,
    VIRTIO_NET_F_STANDBY,
}

impl Features {
    /// The position of the feature's bit. A feature that `NetFeatures`
    /// names has the position given there.
    pub open spec fn spec_bit(self) -> u32 {
        match self {
            Features::VIRTIO_NET_F_CSUM => NetFeatures::VIRTIO_NET_F_CSUM.spec_bit(),
            Features::VIRTIO_NET_F_GUEST_CSUM => NetFeatures::VIRTIO_NET_F_GUEST_CSUM.spec_bit(),
            Features::VIRTIO_NET_F_CTRL_GUEST_OFFLOADS =>
                NetFeatures::VIRTIO_NET_F_CTRL_GUEST_OFFLOADS.spec_bit(),
            Features::VIRTIO_NET_F_MTU => NetFeatures::VIRTIO_NET_F_MTU.spec_bit(),
            Features::VIRTIO_NET_F_MAC => NetFeatures::VIRTIO_NET_F_MAC.spec_bit(),
            Features::VIRTIO_NET_F_GUEST_TSO4 => NetFeatures::VIRTIO_NET_F_GUEST_TSO4.spec_bit(),
            Features::VIRTIO_NET_F_GUEST_TSO6 => NetFeatures::VIRTIO_NET_F_GUEST_TSO6.spec_bit(),
            Features::VIRTIO_NET_F_GUEST_ECN => NetFeatures::VIRTIO_NET_F_GUEST_ECN.spec_bit(),
            Features::VIRTIO_NET_F_GUEST_UFO => NetFeatures::VIRTIO_NET_F_GUEST_UFO.spec_bit(),
            Features::VIRTIO_NET_F_HOST_TSO4 => NetFeatures::VIRTIO_NET_F_HOST_TSO4.spec_bit(),
            Features::VIRTIO_NET_F_HOST_TSO6 => NetFeatures::VIRTIO_NET_F_HOST_TSO6.spec_bit(),
            Features::VIRTIO_NET_F_HOST_ECN => NetFeatures::VIRTIO_NET_F_HOST_ECN.spec_bit(),
            Features::VIRTIO_NET_F_HOST_UFO => NetFeatures::VIRTIO_NET_F_HOST_UFO.spec_bit(),
            Features::VIRTIO_NET_F_MRG_RXBUF => NetFeatures::VIRTIO_NET_F_MRG_RXBUF.spec_bit(),
            Features::VIRTIO_NET_F_STATUS => NetFeatures::VIRTIO_NET_F_STATUS.spec_bit(),
            Features::VIRTIO_NET_F_CTRL_VQ => NetFeatures::VIRTIO_NET_F_CTRL_VQ.spec_bit(),
            Features::VIRTIO_NET_F_CTRL_RX => NetFeatures::VIRTIO_NET_F_CTRL_RX.spec_bit(),
            Features::VIRTIO_NET_F_CTRL_VLAN => NetFeatures::VIRTIO_NET_F_CTRL_VLAN.spec_bit(),
            Features::VIRTIO_NET_F_GUEST_ANNOUNCE =>
                NetFeatures::VIRTIO_NET_F_GUEST_ANNOUNCE.spec_bit(),
            Features::VIRTIO_NET_F_MQ => NetFeatures::VIRTIO_NET_F_MQ.spec_bit(),
            Features::VIRTIO_NET_F_CTRL_MAC_ADDR =>
                NetFeatures::VIRTIO_NET_F_CTRL_MAC_ADDR.spec_bit(),
            Features::VIRTIO_NET_F_GUEST_HDRLEN => 59,
            Features::VIRTIO_NET_F_RSC_EXT => 61,
            Features::VIRTIO_NET_F_STANDBY => 62,
        }
    }

    /// The set that holds this feature and no other.
    pub open spec fn mask(self) -> u64 {
        1u64 << self.spec_bit()
    }
}

impl From<Features> for u64 {
    fn from(val: Features) -> (ret: u64) {
        let ret: u64 = match val {
            Features::VIRTIO_NET_F_CSUM => 1 << 0,
            Features::VIRTIO_NET_F_GUEST_CSUM => 1 << 1,
            Features::VIRTIO_NET_F_CTRL_GUEST_OFFLOADS => 1 << 2,
            Features::VIRTIO_NET_F_MTU => 1 << 3,
            Features::VIRTIO_NET_F_MAC => 1 << 5,
            Features::VIRTIO_NET_F_GUEST_TSO4 => 1 << 7,
            Features::VIRTIO_NET_F_GUEST_TSO6 => 1 << 8,
            Features::VIRTIO_NET_F_GUEST_ECN => 1 << 9,
            Features::VIRTIO_NET_F_GUEST_UFO => 1 << 10,
            Features::VIRTIO_NET_F_HOST_TSO4 => 1 << 11,
            Features::VIRTIO_NET_F_HOST_TSO6 => 1 << 12,
            Features::VIRTIO_NET_F_HOST_ECN => 1 << 13,
            Features::VIRTIO_NET_F_HOST_UFO => 1 << 14,
            Features::VIRTIO_NET_F_MRG_RXBUF => 1 << 15,
            Features::VIRTIO_NET_F_STATUS => 1 << 16,
            Features::VIRTIO_NET_F_CTRL_VQ => 1 << 17,
            Features::VIRTIO_NET_F_CTRL_RX => 1 << 18,
            Features::VIRTIO_NET_F_CTRL_VLAN => 1 << 19,
            Features::VIRTIO_NET_F_GUEST_ANNOUNCE => 1 << 21,
            Features::VIRTIO_NET_F_MQ => 1 << 22,
            Features::VIRTIO_NET_F_CTRL_MAC_ADDR => 1 << 23,
            Features::VIRTIO_NET_F_GUEST_HDRLEN => 1 << 59,
            Features::VIRTIO_NET_F_RSC_EXT => 1 << 61,
            Features::VIRTIO_NET_F_STANDBY => 1 << 62,
        };
        ret
    }
}

impl FromSpecImpl<Features> for u64 {
    open spec fn obeys_from_spec() -> bool {
        true
    }

    open spec fn from_spec(val: Features) -> u64 {
        val.mask()
    }
}

impl BitOr for Features {
    type Output = u64;

    fn bitor(self, rhs: Self) -> (ret: u64) {
        u64::from(self) | u64::from(rhs)
    }
}

impl BitOrSpecImpl for Features {
    open spec fn obeys_bitor_spec() -> bool {
        true
    }

    open spec fn bitor_req(self, rhs: Self) -> bool {
        true
    }

    open spec fn bitor_spec(self, rhs: Self) -> u64 {
        self.mask() | rhs.mask()
    }
}

impl BitOr<Features> for u64 {
    type Output = u64;

    fn bitor(self, rhs: Features) -> (ret: u64) {
        self | u64::from(rhs)
    }
}

impl BitOrSpecImpl<Features> for u64 {
    open spec fn obeys_bitor_spec() -> bool {
        true
    }

    open spec fn bitor_req(self, rhs: Features) -> bool {
        true
    }

    open spec fn bitor_spec(self, rhs: Features) -> u64 {
        self | rhs.mask()
    }
}


impl Features {
    /// Every feature, once, by rising position.
    pub open spec fn spec_all() -> Seq<Features> {
        seq![
            Features::VIRTIO_NET_F_CSUM,
            Features::VIRTIO_NET_F_GUEST_CSUM,
            Features::VIRTIO_NET_F_CTRL_GUEST_OFFLOADS,
            Features::VIRTIO_NET_F_MTU,
            Features::VIRTIO_NET_F_MAC,
            Features::VIRTIO_NET_F_GUEST_TSO4,
            Features::VIRTIO_NET_F_GUEST_TSO6,
            Features::VIRTIO_NET_F_GUEST_ECN,
            Features::VIRTIO_NET_F_GUEST_UFO,
            Features::VIRTIO_NET_F_HOST_TSO4,
            Features::VIRTIO_NET_F_HOST_TSO6,
            Features::VIRTIO_NET_F_HOST_ECN,
            Features::VIRTIO_NET_F_HOST_UFO,
            Features::VIRTIO_NET_F_MRG_RXBUF,
            Features::VIRTIO_NET_F_STATUS,
            Features::VIRTIO_NET_F_CTRL_VQ,
            Features::VIRTIO_NET_F_CTRL_RX,
            Features::VIRTIO_NET_F_CTRL_VLAN,
            Features::VIRTIO_NET_F_GUEST_ANNOUNCE,
            Features::VIRTIO_NET_F_MQ,
            Features::VIRTIO_NET_F_CTRL_MAC_ADDR,
            Features::VIRTIO_NET_F_GUEST_HDRLEN,
            Features::VIRTIO_NET_F_RSC_EXT,
            Features::VIRTIO_NET_F_STANDBY,
        ]
    }

    /// Every feature, once, by rising position.
    pub fn all() -> (r: [Features; 24])
        ensures
            r@ == Features::spec_all(),
            forall|f: Features| r@.contains(f),
    {
        let r = [
            Features::VIRTIO_NET_F_CSUM,
            Features::VIRTIO_NET_F_GUEST_CSUM,
            Features::VIRTIO_NET_F_CTRL_GUEST_OFFLOADS,
            Features::VIRTIO_NET_F_MTU,
            Features::VIRTIO_NET_F_MAC,
            Features::VIRTIO_NET_F_GUEST_TSO4,
            Features::VIRTIO_NET_F_GUEST_TSO6,
            Features::VIRTIO_NET_F_GUEST_ECN,
            Features::VIRTIO_NET_F_GUEST_UFO,
            Features::VIRTIO_NET_F_HOST_TSO4,
            Features::VIRTIO_NET_F_HOST_TSO6,
            Features::VIRTIO_NET_F_HOST_ECN,
            Features::VIRTIO_NET_F_HOST_UFO,
            Features::VIRTIO_NET_F_MRG_RXBUF,
            Features::VIRTIO_NET_F_STATUS,
            Features::VIRTIO_NET_F_CTRL_VQ,
            Features::VIRTIO_NET_F_CTRL_RX,
            Features::VIRTIO_NET_F_CTRL_VLAN,
            Features::VIRTIO_NET_F_GUEST_ANNOUNCE,
            Features::VIRTIO_NET_F_MQ,
            Features::VIRTIO_NET_F_CTRL_MAC_ADDR,
            Features::VIRTIO_NET_F_GUEST_HDRLEN,
            Features::VIRTIO_NET_F_RSC_EXT,
            Features::VIRTIO_NET_F_STANDBY,
        ];
        assert(r@ =~= Features::spec_all());
        assert forall|f: Features| r@.contains(f) by {
            let i: int = match f {
                Features::VIRTIO_NET_F_CSUM => 0,
                Features::VIRTIO_NET_F_GUEST_CSUM => 1,
                Features::VIRTIO_NET_F_CTRL_GUEST_OFFLOADS => 2,
                Features::VIRTIO_NET_F_MTU => 3,
                Features::VIRTIO_NET_F_MAC => 4,
                Features::VIRTIO_NET_F_GUEST_TSO4 => 5,
                Features::VIRTIO_NET_F_GUEST_TSO6 => 6,
                Features::VIRTIO_NET_F_GUEST_ECN => 7,
                Features::VIRTIO_NET_F_GUEST_UFO => 8,
                Features::VIRTIO_NET_F_HOST_TSO4 => 9,
                Features::VIRTIO_NET_F_HOST_TSO6 => 10,
                Features::VIRTIO_NET_F_HOST_ECN => 11,
                Features::VIRTIO_NET_F_HOST_UFO => 12,
                Features::VIRTIO_NET_F_MRG_RXBUF => 13,
                Features::VIRTIO_NET_F_STATUS => 14,
                Features::VIRTIO_NET_F_CTRL_VQ => 15,
                Features::VIRTIO_NET_F_CTRL_RX => 16,
                Features::VIRTIO_NET_F_CTRL_VLAN => 17,
                Features::VIRTIO_NET_F_GUEST_ANNOUNCE => 18,
                Features::VIRTIO_NET_F_MQ => 19,
                Features::VIRTIO_NET_F_CTRL_MAC_ADDR => 20,
                Features::VIRTIO_NET_F_GUEST_HDRLEN => 21,
                Features::VIRTIO_NET_F_RSC_EXT => 22,
                Features::VIRTIO_NET_F_STANDBY => 23,
            };
            assert(r@[i] == f);
        }
        r
    }

    /// The features of which at least one must be selected wherever this
    /// one is; the empty set where it depends on none.
    pub open spec fn spec_prerequisites(self) -> u64 {
        match self {
            Features::VIRTIO_NET_F_GUEST_TSO4
            | Features::VIRTIO_NET_F_GUEST_TSO6
            | Features::VIRTIO_NET_F_GUEST_UFO => Features::VIRTIO_NET_F_GUEST_CSUM.mask(),
            Features::VIRTIO_NET_F_GUEST_ECN => Features::VIRTIO_NET_F_GUEST_TSO4.mask()
                | Features::VIRTIO_NET_F_GUEST_TSO6.mask(),
            Features::VIRTIO_NET_F_HOST_TSO4
            | Features::VIRTIO_NET_F_HOST_TSO6
            | Features::VIRTIO_NET_F_HOST_UFO => Features::VIRTIO_NET_F_CSUM.mask(),
            Features::VIRTIO_NET_F_HOST_ECN
            | Features::VIRTIO_NET_F_RSC_EXT => Features::VIRTIO_NET_F_HOST_TSO4.mask()
                | Features::VIRTIO_NET_F_HOST_TSO6.mask(),
            Features::VIRTIO_NET_F_CTRL_RX
            | Features::VIRTIO_NET_F_CTRL_VLAN
            | Features::VIRTIO_NET_F_GUEST_ANNOUNCE
            | Features::VIRTIO_NET_F_MQ
            | Features::VIRTIO_NET_F_CTRL_MAC_ADDR => Features::VIRTIO_NET_F_CTRL_VQ.mask(),
            _ => 0,
        }
    }

    /// The features of which at least one must be selected wherever this
    /// one is; the empty set where it depends on none.
    pub fn prerequisites(self) -> (r: u64)
        ensures
            r == self.spec_prerequisites(),
    {
        match self {
            Features::VIRTIO_NET_F_GUEST_TSO4
            | Features::VIRTIO_NET_F_GUEST_TSO6
            | Features::VIRTIO_NET_F_GUEST_UFO => u64::from(Features::VIRTIO_NET_F_GUEST_CSUM),
            Features::VIRTIO_NET_F_GUEST_ECN => Features::VIRTIO_NET_F_GUEST_TSO4
                | Features::VIRTIO_NET_F_GUEST_TSO6,
            Features::VIRTIO_NET_F_HOST_TSO4
            | Features::VIRTIO_NET_F_HOST_TSO6
            | Features::VIRTIO_NET_F_HOST_UFO => u64::from(Features::VIRTIO_NET_F_CSUM),
            Features::VIRTIO_NET_F_HOST_ECN
            | Features::VIRTIO_NET_F_RSC_EXT => Features::VIRTIO_NET_F_HOST_TSO4
                | Features::VIRTIO_NET_F_HOST_TSO6,
            Features::VIRTIO_NET_F_CTRL_RX
            | Features::VIRTIO_NET_F_CTRL_VLAN
            | Features::VIRTIO_NET_F_GUEST_ANNOUNCE
            | Features::VIRTIO_NET_F_MQ
            | Features::VIRTIO_NET_F_CTRL_MAC_ADDR => u64::from(Features::VIRTIO_NET_F_CTRL_VQ),
            _ => 0,
        }
    }
}

/// Whether the set `set` holds the feature `f`.
pub open spec fn contains(set: u64, f: Features) -> bool {
    set & f.mask() != 0
}

/// Whether every feature of `sub` is also in `sup`.
pub open spec fn is_subset(sub: u64, sup: u64) -> bool {
    sub & sup == sub
}

/// Whether `set` respects what `f` depends on: where it holds `f`, it also
/// holds one of the features that `f` needs.
pub open spec fn dependency_met(set: u64, f: Features) -> bool {
    contains(set, f) ==> f.spec_prerequisites() == 0 || set & f.spec_prerequisites() != 0
}

/// Whether `set` is consistent as a whole: it respects what each of its
/// features depends on.
pub open spec fn dependencies_met(set: u64) -> bool {
    forall|f: Features| dependency_met(set, f)
}

/// Tests whether the set holds the feature.
pub fn has_feature(set: u64, f: Features) -> (r: bool)
    ensures
        r == contains(set, f),
{
    set & u64::from(f) != 0
}

/// The features that both sets hold.
pub fn intersection(a: u64, b: u64) -> (r: u64)
    ensures
        r == a & b,
{
    a & b
}

/// Tests whether every feature of `sub` is also in `sup`.
pub fn subset(sub: u64, sup: u64) -> (r: bool)
    ensures
        r == is_subset(sub, sup),
{
    intersection(sub, sup) == sub
}

/// Tests whether the set respects what each of its features depends on.
pub fn check_dependencies(set: u64) -> (r: bool)
    ensures
        r == dependencies_met(set),
{
    let all = Features::all();
    let mut i: usize = 0;
    while i < 24
        invariant
            i <= 24,
            all@.len() == 24,
            forall|f: Features| all@.contains(f),
            forall|j: int| 0 <= j < i ==> dependency_met(set, #[trigger] all@[j]),
        decreases 24 - i,
    {
        let f = all[i];
        let needs = f.prerequisites();
        if has_feature(set, f) && needs != 0 && set & needs == 0 {
            assert(!dependency_met(set, f));
            return false;
        }
        i += 1;
    }
    proof {
        assert forall|f: Features| dependency_met(set, f) by {
            assert(all@.contains(f));
            let j = choose|j: int| 0 <= j < all@.len() && all@[j] == f;
            assert(dependency_met(set, all@[j]));
        }
    }
    true
}

/// The outcome of a negotiation between a device that advertises
/// `advertised` and a driver that cannot do without `required`: the
/// driver selects exactly `required`, provided that the device offers all
/// of it and that it is consistent as a whole. Otherwise there is no
/// agreement: nothing less than `required` is ever selected.
pub open spec fn negotiated(advertised: u64, required: u64) -> Option<u64> {
    if is_subset(required, advertised) && dependencies_met(required) {
        Some(required)
    } else {
        None
    }
}

/// Negotiates the features for device `dev_id`: gives the set the driver
/// writes back to the device, or the failure of the negotiation.
pub fn negotiate_features(advertised: u64, required: u64, dev_id: u16) -> (r: Result<
    u64,
    VirtioNetError,
>)
    ensures
        r == match negotiated(advertised, required) {
            Some(selected) => Ok::<u64, VirtioNetError>(selected),
            None => Err::<u64, VirtioNetError>(VirtioNetError::FailFeatureNeg(dev_id)),
        },
{
    let offered = intersection(required, advertised);
    if offered == required && check_dependencies(offered) {
        Ok(offered)
    } else {
        Err(VirtioNetError::FailFeatureNeg(dev_id))
    }
}

/// The features this driver cannot do without: the hardware address, the
/// link status, and checksum and segmentation offload on the receiving
/// side.
pub open spec fn spec_required_features() -> u64 {
    Features::VIRTIO_NET_F_MAC.mask() | Features::VIRTIO_NET_F_STATUS.mask()
        | Features::VIRTIO_NET_F_GUEST_UFO.mask() | Features::VIRTIO_NET_F_GUEST_TSO4.mask()
        | Features::VIRTIO_NET_F_GUEST_TSO6.mask() | Features::VIRTIO_NET_F_GUEST_CSUM.mask()
}

/// The features this driver cannot do without.
pub fn required_features() -> (r: u64)
    ensures
        r == spec_required_features(),
{
    Features::VIRTIO_NET_F_MAC | Features::VIRTIO_NET_F_STATUS | Features::VIRTIO_NET_F_GUEST_UFO
        | Features::VIRTIO_NET_F_GUEST_TSO4 | Features::VIRTIO_NET_F_GUEST_TSO6
        | Features::VIRTIO_NET_F_GUEST_CSUM
}

/// What the driver selects is always offered by the device, holds all
/// that is required, and is consistent as a whole.
pub proof fn lemma_selected_is_offered(advertised: u64, required: u64)
    ensures
        negotiated(advertised, required) matches Some(selected) ==> selected == required
            && is_subset(selected, advertised) && dependencies_met(selected),
{
}

/// A subset holds no feature that the larger set lacks.
pub proof fn lemma_subset_keeps_features(sub: u64, sup: u64, f: Features)
    requires
        is_subset(sub, sup),
        contains(sub, f),
    ensures
        contains(sup, f),
{
    let m = f.mask();
    assert(sup & m != 0) by (bit_vector)
        requires
            sub & sup == sub,
            sub & m != 0,
    ;
}

/// Two negotiations over the same sets end alike: whatever one call
/// returns, the other returns too.
pub proof fn lemma_negotiation_repeatable(
    advertised: u64,
    required: u64,
    dev_id: u16,
    first: Result<u64, VirtioNetError>,
    second: Result<u64, VirtioNetError>,
)
    requires
        call_ensures(negotiate_features, (advertised, required, dev_id), first),
        call_ensures(negotiate_features, (advertised, required, dev_id), second),
    ensures
        first == second,
{
}

/// Negotiating again over what was agreed on gives the same: a device
/// that advertises just the agreed set leads to the same agreement.
pub proof fn lemma_negotiation_idempotent(advertised: u64, required: u64)
    ensures
        negotiated(advertised, required) matches Some(selected) ==> negotiated(
            selected,
            required,
        ) == Some(selected),
{
    assert(required & required == required) by (bit_vector);
}

/// Where the device lacks a required feature there is no agreement.
pub proof fn lemma_missing_feature_fails(advertised: u64, required: u64)
    requires
        !is_subset(required, advertised),
    ensures
        negotiated(advertised, required) is None,
{
}

/// Where a feature is required without any of the features it depends
/// on, there is no agreement, whatever the device offers.
pub proof fn lemma_unmet_dependency_fails(advertised: u64, required: u64, f: Features)
    requires
        contains(required, f),
        f.spec_prerequisites() != 0,
        required & f.spec_prerequisites() == 0,
    ensures
        negotiated(advertised, required) is None,
{
    assert(!dependency_met(required, f));
}


/// The required features are bits 1, 5, 7, 8, 10 and 16, and the set is
/// consistent as a whole: a device that offers them all is agreed with.
pub proof fn lemma_required_features_consistent()
    ensures
        spec_required_features() == 0x1_05a2,
        dependencies_met(spec_required_features()),
        forall|advertised: u64|
            is_subset(spec_required_features(), advertised) ==> #[trigger] negotiated(
                advertised,
                spec_required_features(),
            ) == Some(spec_required_features()),
{
    let r = spec_required_features();
    assert(r == 0x1_05a2) by (bit_vector)
        requires
            r == (1u64 << 5u32) | (1u64 << 16u32) | (1u64 << 10u32) | (1u64 << 7u32) | (1u64
                << 8u32) | (1u64 << 1u32),
    ;
    assert(0x1_05a2u64 & (1u64 << 1u32) != 0 && 0x1_05a2u64 & (1u64 << 0u32) == 0 && 0x1_05a2u64
        & (1u64 << 9u32) == 0 && 0x1_05a2u64 & (1u64 << 11u32) == 0 && 0x1_05a2u64 & (1u64
        << 12u32) == 0 && 0x1_05a2u64 & (1u64 << 13u32) == 0 && 0x1_05a2u64 & (1u64 << 14u32)
        == 0 && 0x1_05a2u64 & (1u64 << 18u32) == 0 && 0x1_05a2u64 & (1u64 << 19u32) == 0
        && 0x1_05a2u64 & (1u64 << 21u32) == 0 && 0x1_05a2u64 & (1u64 << 22u32) == 0
        && 0x1_05a2u64 & (1u64 << 23u32) == 0 && 0x1_05a2u64 & (1u64 << 61u32) == 0)
        by (bit_vector);
    assert forall|f: Features| dependency_met(r, f) by {
        if f.spec_prerequisites() != 0 {
            assert(f.spec_prerequisites() == Features::VIRTIO_NET_F_GUEST_CSUM.mask()
                || !contains(r, f));
        }
    }
}

} // verus!
