//! Where packets are sent.

use vstd::prelude::*;

use crate::packet::PacketMeta;

verus! {

/// Port of event messages.
pub const EVENT_PORT: u16 = 319;

/// Port of general messages.
pub const GENERAL_PORT: u16 = 320;

/// Multicast group of every message but those of peer delay measurement.
pub const PRIMARY_MULTICAST: [u8; 4] = [224, 0, 1, 129];

/// Multicast group of peer delay measurement, which no router forwards.
pub const LINK_LOCAL_MULTICAST: [u8; 4] = [224, 0, 0, 107];

/// An IPv4 address and a port.
#[derive(Clone, Copy, Debug, PartialEq, Eq)]
pub struct IpEndpoint {
    /// The bytes of the address, in the order in which it is written.
    pub addr: [u8; 4],
    /// The port.
    pub port: u16,
}

/// Where a packet goes, and the metadata it carries.
#[derive(Clone, Copy, Debug, PartialEq, Eq)]
pub struct UdpMetadata {
    /// Where the packet goes.
    pub endpoint: IpEndpoint,
    /// The address that the packet is sent from. Where there is none, the
    /// network stack chooses it.
    pub local_address: Option<[u8; 4]>,
    /// The metadata of the packet.
    pub meta: PacketMeta,
}

/// The group that a packet is sent to.
pub open spec fn multicast_group(link_local: bool) -> Seq<u8> {
    if link_local {
        seq![224u8, 0, 0, 107]
    } else {
        seq![224u8, 0, 1, 129]
    }
}

/// The endpoint that a packet is sent to: the given port of the group for
/// packets that stay on the link, or of the group for all others.
pub fn multicast_endpoint(port: u16, link_local: bool) -> (endpoint: IpEndpoint)
    ensures
        endpoint.addr@ == multicast_group(link_local),
        endpoint.port == port,
{
    let addr: [u8; 4] = if link_local {
        LINK_LOCAL_MULTICAST
    } else {
        PRIMARY_MULTICAST
    };
    assert(addr@ =~= multicast_group(link_local));
    IpEndpoint { addr, port }
}

/// Both groups lie in the IPv4 multicast range, they differ, and only the
/// group for packets that stay on the link lies in the range of addresses that
/// are not forwarded.
pub proof fn groups_are_multicast(link_local: bool)
    ensures
        multicast_group(link_local).len() == 4,
        224 <= multicast_group(link_local)[0] <= 239,
        multicast_group(true) != multicast_group(false),
        multicast_group(link_local).take(3) == seq![224u8, 0, 0] <==> link_local,
{
    assert(multicast_group(true)[2] != multicast_group(false)[2]);
    assert(multicast_group(link_local).take(3)[2] == multicast_group(link_local)[2]);
    if link_local {
        assert(multicast_group(link_local).take(3) =~= seq![224u8, 0, 0]);
    }
}

/// Packets that stay on the link go to 224.0.0.107, and all others to
/// 224.0.1.129.
pub proof fn packets_go_to_one_of_two_groups(link_local: bool)
    ensures
        multicast_group(link_local).len() == 4,
        multicast_group(link_local)[0] == 224,
        multicast_group(link_local)[1] == 0,
        multicast_group(link_local)[2] == if link_local {
            0u8
        } else {
            1u8
        },
        multicast_group(link_local)[3] == if link_local {
            107u8
        } else {
            129u8
        },
{
}

} // verus!
