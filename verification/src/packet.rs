//! Packets of the Precision Time Protocol: their message type, the metadata
//! that ties a packet to its hardware timestamp, and the identifiers that the
//! metadata carries.

use vstd::prelude::*;

verus! {

/// Length of the header that every message starts with.
pub const HEADER_LEN: usize = 34;

/// Message type of a delay request.
pub const MSG_DELAY_REQ: u8 = 0x1;

/// Message type of a peer delay request.
pub const MSG_PDELAY_REQ: u8 = 0x2;

/// Message type of a peer delay response.
pub const MSG_PDELAY_RESP: u8 = 0x3;

/// Metadata that accompanies a packet through the network stack.
///
/// The identifier 0 marks a packet whose timestamp nobody asks for.
#[derive(Clone, Copy, Debug, PartialEq, Eq, Structural)]
pub struct PacketMeta {
    /// Identifier under which the driver stores the packet's timestamp.
    pub id: u32,
}

/// A hardware timestamp, in whole seconds and nanoseconds.
#[derive(Clone, Copy, Debug, PartialEq, Eq, Structural)]
pub struct PtpTimestamp {
    /// Whole seconds.
    pub seconds: u32,
    /// Nanoseconds past the whole seconds.
    pub nanos: u32,
}

/// The message type of a packet: the low four bits of its first byte, if the
/// packet holds a whole header.
pub open spec fn message_type(packet: Seq<u8>) -> Option<u8> {
    if packet.len() >= HEADER_LEN {
        Some((packet[0] % 16) as u8)
    } else {
        None
    }
}

/// The event messages that are passed over on arrival: those with which
/// another clock measures a path delay, and the answer to a peer's.
pub open spec fn is_passed_over(message_type: u8) -> bool {
    message_type == MSG_DELAY_REQ || message_type == MSG_PDELAY_REQ || message_type
        == MSG_PDELAY_RESP
}

/// The message type of an event packet whose receive timestamp is wanted.
pub open spec fn timestamped_type(packet: Seq<u8>) -> Option<u8> {
    match message_type(packet) {
        Some(kind) => if is_passed_over(kind) {
            None
        } else {
            Some(kind)
        },
        None => None,
    }
}

impl Default for PacketMeta {
    /// The metadata of a packet without an identifier.
    fn default() -> (meta: PacketMeta)
        ensures
            meta.id == 0,
    {
        PacketMeta { id: 0 }
    }
}

/// The message type of a packet, if it holds a whole header.
pub fn ptp_message_type(packet: &[u8]) -> (kind: Option<u8>)
    ensures
        kind == message_type(packet@),
{
    if packet.len() < HEADER_LEN {
        return None;
    }
    let first: u8 = packet[0];
    assert(first & 0x0f == first % 16) by (bit_vector);
    Some(first & 0x0f)
}

/// The message type of an event packet for which a receive timestamp has to
/// be looked up. For every other packet no timestamp is asked for.
pub fn rx_event_type(packet: &[u8]) -> (kind: Option<u8>)
    ensures
        kind == timestamped_type(packet@),
{
    match ptp_message_type(packet) {
        Some(kind) => {
            if kind == MSG_DELAY_REQ || kind == MSG_PDELAY_REQ || kind == MSG_PDELAY_RESP {
                None
            } else {
                Some(kind)
            }
        },
        None => None,
    }
}

/// The identifier that follows `id`: the next number, or 1 after the last.
pub open spec fn successor_id(id: u32) -> u32 {
    if id == u32::MAX {
        1
    } else {
        (id + 1) as u32
    }
}

/// The identifier that `n` calls of the generator later follows `id`.
pub open spec fn nth_id(id: u32, n: nat) -> u32
    decreases n,
{
    if n == 0 {
        id
    } else {
        successor_id(nth_id(id, (n - 1) as nat))
    }
}

/// Hands out packet identifiers, none of which is 0.
pub struct PacketIdGenerator {
    next: u32,
}

impl View for PacketIdGenerator {
    type V = u32;

    /// The identifier that comes next.
    closed spec fn view(&self) -> u32 {
        self.next
    }
}

impl PacketIdGenerator {
    #[verifier::type_invariant]
    spec fn never_zero(self) -> bool {
        self.next != 0
    }

    /// A generator whose first identifier is 1.
    pub fn new() -> (generator: PacketIdGenerator)
        ensures
            generator@ == 1,
    {
        PacketIdGenerator { next: 1 }
    }

    /// Metadata with the next identifier.
    pub fn next(&mut self) -> (meta: PacketMeta)
        ensures
            meta.id == old(self)@,
            meta.id != 0,
            final(self)@ == successor_id(old(self)@),
    {
        proof {
            use_type_invariant(&*self);
        }
        let id: u32 = self.next;
        self.next = match id.checked_add(1) {
            Some(following) => following,
            None => 1,
        };
        PacketMeta { id }
    }
}

/// A packet that is passed over has a whole header, and asks for no timestamp.
pub proof fn passed_over_packets_want_no_timestamp(packet: Seq<u8>)
    requires
        message_type(packet) matches Some(kind) && is_passed_over(kind),
    ensures
        packet.len() >= HEADER_LEN,
        timestamped_type(packet) is None,
{
}

/// Counting on from `id` gives `id + n` until the numbers run out.
proof fn nth_id_counts(id: u32, n: nat)
    requires
        id != 0,
        id + n <= u32::MAX,
    ensures
        nth_id(id, n) == id + n,
    decreases n,
{
    if n > 0 {
        nth_id_counts(id, (n - 1) as nat);
    }
}

/// Counting on past the largest number starts again from 1.
proof fn nth_id_wraps(id: u32, n: nat)
    requires
        id != 0,
        u32::MAX < id + n <= u32::MAX + u32::MAX,
    ensures
        nth_id(id, n) == id + n - u32::MAX,
    decreases n,
{
    if id + n == u32::MAX + 1 {
        nth_id_counts(id, (n - 1) as nat);
    } else {
        nth_id_wraps(id, (n - 1) as nat);
    }
}

/// The identifiers of any `u32::MAX` packets in a row are distinct and not 0,
/// and the identifier after them is the first again.
pub proof fn packet_ids_cycle(id: u32, m: nat, n: nat)
    requires
        id != 0,
        m < n < u32::MAX,
    ensures
        nth_id(id, m) != 0,
        nth_id(id, n) != 0,
        nth_id(id, m) != nth_id(id, n),
        nth_id(id, u32::MAX as nat) == id,
{
    if id + m <= u32::MAX {
        nth_id_counts(id, m);
    } else {
        nth_id_wraps(id, m);
    }
    if id + n <= u32::MAX {
        nth_id_counts(id, n);
    } else {
        nth_id_wraps(id, n);
    }
    nth_id_wraps(id, u32::MAX as nat);
}

/// A packet has a message type exactly when it has at least 34 bytes, and the
/// type is what is left of the first byte without its high four bits.
pub proof fn message_types_are_low_bits(packet: Seq<u8>)
    ensures
        message_type(packet) is Some <==> packet.len() >= 34,
        message_type(packet) is Some ==> message_type(packet)->0 < 16 && (packet[0] - message_type(
            packet,
        )->0) % 16 == 0,
{
}

/// The receive timestamp is wanted of every packet with a message type but 1, 2
/// and 3, and of no other.
pub proof fn all_but_three_types_want_a_timestamp(packet: Seq<u8>)
    ensures
        timestamped_type(packet) is Some <==> packet.len() >= 34 && packet[0] % 16 != 1 && packet[0]
            % 16 != 2 && packet[0] % 16 != 3,
        timestamped_type(packet) is Some ==> timestamped_type(packet)->0 == packet[0] % 16,
{
}

/// Identifiers go up by one, and from the largest number back to 1.
pub proof fn identifiers_go_up_by_one(id: u32)
    ensures
        id < u32::MAX ==> successor_id(id) - id == 1,
        id == u32::MAX ==> successor_id(id) == 1,
{
}

} // verus!
