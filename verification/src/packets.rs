//! Splitting a message into size-capped packets and putting it together again.
//!
//! A packet is an eight-byte little-endian header followed by payload bytes.
//! The header counts the packets of the same message that are still to come,
//! so a header of zero marks the last packet of a message.

use crate::identity::Id;
use std::collections::HashMap;
use vstd::bytes::{spec_u64_from_le_bytes, spec_u64_to_le_bytes, u64_from_le_bytes, u64_to_le_bytes};
use vstd::prelude::*;
use vstd::slice::{slice_subrange, slice_to_vec};

verus! {

/// Width of the sequence header in bytes.
pub const SEQ_HEADER_SIZE: usize = 8;

/// The largest packet the channel delivers.
pub const MATCHBOX_MAX_SIZE: usize = 65535;

/// The most payload bytes one packet carries.
pub const PACKET_SIZE: usize = MATCHBOX_MAX_SIZE - SEQ_HEADER_SIZE;

/// The most packets one message may be split into.
pub const MAX_NUM_PACKETS: u64 = u64::MAX - 1;

/// Why a packet or a message was refused.
#[derive(Clone, Copy, Debug, PartialEq, Eq, Structural)]
pub enum PacketError {
    /// An incoming packet has no payload behind its header.
    PacketTooShort,
    /// The message would need more packets than the header can count.
    MessageTooLong,
    /// The message has no bytes.
    MessageEmpty,
}

/// One packet: how many more follow, and the payload.
#[derive(Debug, Clone)]
pub struct Packet {
    pub remaining_packets: u64,
    pub data: Vec<u8>,
}

/// The bytes of a packet on the wire.
pub open spec fn spec_packet_bytes(remaining_packets: u64, data: Seq<u8>) -> Seq<u8> {
    spec_u64_to_le_bytes(remaining_packets) + data
}

/// Number of packets a message of `len` bytes is split into.
pub open spec fn spec_packets_needed(len: int) -> int {
    (len + PACKET_SIZE as int - 1) / (PACKET_SIZE as int)
}

/// The first message length that is refused as too long: the most packets
/// times the payload of one, capped at what a `u64` holds.
pub open spec fn spec_length_limit() -> int {
    if MAX_NUM_PACKETS as int * PACKET_SIZE as int > u64::MAX as int {
        u64::MAX as int
    } else {
        MAX_NUM_PACKETS as int * PACKET_SIZE as int
    }
}

/// Whether a message of `len` bytes is refused as too long.
pub open spec fn spec_too_long(len: int) -> bool {
    len >= spec_length_limit()
}

/// Rounding the quotient up is the quotient of the predecessor, plus one.
pub proof fn lemma_packets_needed(len: int)
    requires
        len > 0,
    ensures
        spec_packets_needed(len) == (len - 1) / (PACKET_SIZE as int) + 1,
        spec_packets_needed(len) >= 1,
        (spec_packets_needed(len) - 1) * PACKET_SIZE < len <= spec_packets_needed(len)
            * PACKET_SIZE,
{
    let ps = PACKET_SIZE as int;
    let q = (len - 1) / ps;
    let r = (len - 1) % ps;
    assert(len - 1 == ps * q + r && 0 <= r < ps) by {
        vstd::arithmetic::div_mod::lemma_fundamental_div_mod(len - 1, ps);
    }
    assert(len + ps - 1 == ps * (q + 1) + r) by (nonlinear_arith)
        requires
            len - 1 == ps * q + r,
    ;
    assert((len + ps - 1) / ps == q + 1) by {
        vstd::arithmetic::div_mod::lemma_fundamental_div_mod_converse(len + ps - 1, ps, q + 1, r);
    }
    assert(q * ps < len <= (q + 1) * ps) by (nonlinear_arith)
        requires
            len - 1 == ps * q + r,
            0 <= r < ps,
    ;
}

impl Packet {
    /// Parses a packet from the bytes that arrived.
    pub fn from_raw_bytes(bytes: Vec<u8>) -> (res: Result<Packet, PacketError>)
        ensures
            bytes@.len() > SEQ_HEADER_SIZE ==> res is Ok
                && res->Ok_0.remaining_packets == spec_u64_from_le_bytes(
                bytes@.subrange(0, SEQ_HEADER_SIZE as int),
            ) && res->Ok_0.data@ == bytes@.subrange(SEQ_HEADER_SIZE as int, bytes@.len() as int),
            bytes@.len() <= SEQ_HEADER_SIZE ==> res == Err::<Packet, PacketError>(
                PacketError::PacketTooShort,
            ),
    {
        let mut bytes = bytes;
        if bytes.len() > SEQ_HEADER_SIZE {
            let rest = bytes.split_off(SEQ_HEADER_SIZE);
            let remaining_packets = u64_from_le_bytes(bytes.as_slice());
            Ok(Packet { remaining_packets, data: rest })
        } else {
            Err(PacketError::PacketTooShort)
        }
    }

    /// The packet as it goes on the wire: header, then payload.
    pub fn into_bytes(self) -> (bytes: Vec<u8>)
        ensures
            bytes@ == spec_packet_bytes(self.remaining_packets, self.data@),
    {
        let mut bytes = u64_to_le_bytes(self.remaining_packets);
        let mut data = self.data;
        bytes.append(&mut data);
        bytes
    }

    /// How many packets a message of `len` bytes needs.
    pub fn packets_needed(len: u64) -> (res: Result<u64, PacketError>)
        ensures
            spec_too_long(len as int) ==> res == Err::<u64, PacketError>(
                PacketError::MessageTooLong,
            ),
            len == 0 ==> res == Err::<u64, PacketError>(PacketError::MessageEmpty),
            0 < len && !spec_too_long(len as int) ==> res == Ok::<u64, PacketError>(
                spec_packets_needed(len as int) as u64,
            ),
    {
        let limit = match MAX_NUM_PACKETS.checked_mul(PACKET_SIZE as u64) {
            Some(limit) => limit,
            None => u64::MAX,
        };
        assert(limit as int == spec_length_limit());
        if len >= limit {
            Err(PacketError::MessageTooLong)
        } else if len == 0 {
            Err(PacketError::MessageEmpty)
        } else {
            assert((len - 1) / (PACKET_SIZE as int) + 1 == spec_packets_needed(len as int)) by {
                lemma_packets_needed(len as int);
            }
            Ok((len - 1) / (PACKET_SIZE as u64) + 1)
        }
    }
}

/// Payload of the packet with index `i` of a message.
pub open spec fn spec_payload(msg: Seq<u8>, i: int) -> Seq<u8> {
    let start = i * PACKET_SIZE as int;
    let end = if start + PACKET_SIZE as int <= msg.len() {
        start + PACKET_SIZE as int
    } else {
        msg.len() as int
    };
    msg.subrange(start, end)
}

/// The packet with index `i` of a message, as it goes on the wire.
pub open spec fn spec_packet(msg: Seq<u8>, i: int) -> Seq<u8> {
    spec_packet_bytes((spec_packets_needed(msg.len() as int) - 1 - i) as u64, spec_payload(msg, i))
}

/// All packets of a message, in the order in which they are sent.
pub open spec fn spec_packets(msg: Seq<u8>) -> Seq<Seq<u8>> {
    Seq::new(spec_packets_needed(msg.len() as int) as nat, |i: int| spec_packet(msg, i))
}

/// The byte contents of a list of packets.
pub open spec fn spec_packet_views(packets: Seq<Vec<u8>>) -> Seq<Seq<u8>> {
    Seq::new(packets.len(), |i: int| packets[i]@)
}

/// What a handler with the pending bytes `pending` does with one packet:
/// the pending bytes afterwards, and what it hands back.
pub open spec fn spec_consume(pending: Map<Id, Seq<u8>>, peer: Id, bytes: Seq<u8>) -> (
    Map<Id, Seq<u8>>,
    Result<Option<Seq<u8>>, PacketError>,
) {
    if bytes.len() <= SEQ_HEADER_SIZE {
        (pending.remove(peer), Err(PacketError::PacketTooShort))
    } else {
        let remaining = spec_u64_from_le_bytes(bytes.subrange(0, SEQ_HEADER_SIZE as int));
        let data = bytes.subrange(SEQ_HEADER_SIZE as int, bytes.len() as int);
        let so_far = if pending.contains_key(peer) {
            pending[peer]
        } else {
            Seq::empty()
        };
        if remaining == 0 {
            (pending.remove(peer), Ok(Some(so_far + data)))
        } else {
            (pending.insert(peer, so_far + data), Ok(None))
        }
    }
}

/// Feeding a handler the packets of one sender, one after the other: the
/// pending bytes afterwards, and what the last packet handed back.
pub open spec fn spec_consume_all(pending: Map<Id, Seq<u8>>, peer: Id, packets: Seq<Seq<u8>>) -> (
    Map<Id, Seq<u8>>,
    Result<Option<Seq<u8>>, PacketError>,
)
    decreases packets.len(),
{
    if packets.len() == 0 {
        (pending, Ok(None))
    } else {
        spec_consume(spec_consume_all(pending, peer, packets.drop_last()).0, peer, packets.last())
    }
}

/// Whether what a handler handed back is what the model says.
pub open spec fn spec_same_outcome(
    res: Result<Option<Vec<u8>>, PacketError>,
    model: Result<Option<Seq<u8>>, PacketError>,
) -> bool {
    match (res, model) {
        (Ok(Some(bytes)), Ok(Some(expected))) => bytes@ == expected,
        (Ok(None), Ok(None)) => true,
        (Err(e), Err(expected)) => e == expected,
        _ => false,
    }
}

/// Reassembles messages, with one buffer of pending bytes for each sender.
#[derive(Debug, Clone)]
pub struct PacketHandler {
    partials: HashMap<Id, Vec<u8>>,
}

impl View for PacketHandler {
    type V = Map<Id, Seq<u8>>;

    /// The bytes that are pending for each sender.
    closed spec fn view(&self) -> Map<Id, Seq<u8>> {
        self.partials@.map_values(|pending: Vec<u8>| pending@)
    }
}

impl Default for PacketHandler {
    fn default() -> (handler: Self)
        ensures
            handler@ == Map::<Id, Seq<u8>>::empty(),
    {
        PacketHandler::new()
    }
}

impl PacketHandler {
    /// A handler with nothing pending.
    pub fn new() -> (handler: Self)
        ensures
            handler@ == Map::<Id, Seq<u8>>::empty(),
    {
        let handler = PacketHandler { partials: HashMap::new() };
        assert(handler@ =~= Map::<Id, Seq<u8>>::empty());
        handler
    }

    /// Splits the bytes of a message into packets.
    pub fn message_to_packets(msg: &Vec<u8>) -> (res: Result<Vec<Vec<u8>>, PacketError>)
        ensures
            spec_too_long(msg@.len() as int) ==> res == Err::<Vec<Vec<u8>>, PacketError>(
                PacketError::MessageTooLong,
            ),
            msg@.len() == 0 ==> res == Err::<Vec<Vec<u8>>, PacketError>(
                PacketError::MessageEmpty,
            ),
            0 < msg@.len() && !spec_too_long(msg@.len() as int) ==> res is Ok
                && spec_packet_views(res->Ok_0@) == spec_packets(msg@),
    {
        let len = msg.len();
        let needed = match Packet::packets_needed(len as u64) {
            Ok(needed) => needed,
            Err(e) => {
                return Err(e);
            },
        };
        proof {
            lemma_packets_needed(len as int);
        }
        let mut packets: Vec<Vec<u8>> = Vec::new();
        let mut i: u64 = 0;
        let mut start: usize = 0;
        while i < needed
            invariant
                0 < len == msg@.len(),
                needed == spec_packets_needed(len as int),
                (needed - 1) * PACKET_SIZE < len <= needed * PACKET_SIZE,
                i <= needed,
                start <= len,
                i < needed ==> start == i * PACKET_SIZE,
                packets@.len() == i,
                forall|k: int| 0 <= k < i ==> (#[trigger] packets@[k])@ == spec_packet(msg@, k),
            decreases needed - i,
        {
            assert(i * PACKET_SIZE <= (needed - 1) * PACKET_SIZE) by (nonlinear_arith)
                requires
                    i <= needed - 1,
            ;
            let end = if len - start > PACKET_SIZE {
                start + PACKET_SIZE
            } else {
                len
            };
            let data = slice_to_vec(slice_subrange(msg.as_slice(), start, end));
            assert(data@ == spec_payload(msg@, i as int));
            let packet = Packet { remaining_packets: needed - 1 - i, data };
            packets.push(packet.into_bytes());
            assert(i + 1 < needed ==> end == (i + 1) * PACKET_SIZE) by (nonlinear_arith)
                requires
                    start == i * PACKET_SIZE,
                    (needed - 1) * PACKET_SIZE < len,
                    end == if len - start > PACKET_SIZE {
                        start + PACKET_SIZE
                    } else {
                        len as int
                    },
            ;
            start = end;
            i = i + 1;
        }
        assert(spec_packet_views(packets@) =~= spec_packets(msg@));
        Ok(packets)
    }

    /// Takes in one packet from `peer`. A packet that completes a message
    /// hands back the bytes of the whole message and clears what was pending
    /// for that sender. A packet that cannot be parsed also clears it.
    pub fn consume_packet(&mut self, peer: Id, bytes: Vec<u8>) -> (res: Result<
        Option<Vec<u8>>,
        PacketError,
    >)
        ensures
            final(self)@ == spec_consume(old(self)@, peer, bytes@).0,
            spec_same_outcome(res, spec_consume(old(self)@, peer, bytes@).1),
    {
        broadcast use vstd::std_specs::hash::group_hash_axioms;

        match Packet::from_raw_bytes(bytes) {
            Ok(packet) => {
                let mut data = packet.data;
                let mut so_far = match self.partials.remove(&peer) {
                    Some(so_far) => so_far,
                    None => Vec::new(),
                };
                so_far.append(&mut data);
                if packet.remaining_packets == 0 {
                    assert(self@ =~= spec_consume(old(self)@, peer, bytes@).0);
                    Ok(Some(so_far))
                } else {
                    self.partials.insert(peer, so_far);
                    assert(self@ =~= spec_consume(old(self)@, peer, bytes@).0);
                    Ok(None)
                }
            },
            Err(why) => {
                self.partials.remove(&peer);
                assert(self@ =~= spec_consume(old(self)@, peer, bytes@).0);
                Err(why)
            },
        }
    }
}

/// Every packet of a message parses back into its header and its payload,
/// and fits the channel.
pub proof fn lemma_packet_parses(msg: Seq<u8>, i: int)
    requires
        0 < msg.len(),
        !spec_too_long(msg.len() as int),
        0 <= i < spec_packets_needed(msg.len() as int),
    ensures
        SEQ_HEADER_SIZE < spec_packet(msg, i).len() <= MATCHBOX_MAX_SIZE,
        0 < spec_payload(msg, i).len() <= PACKET_SIZE,
        spec_payload(msg, i) == msg.subrange(
            i * PACKET_SIZE,
            i * PACKET_SIZE + spec_payload(msg, i).len(),
        ),
        i < spec_packets_needed(msg.len() as int) - 1 ==> spec_payload(msg, i).len()
            == PACKET_SIZE,
        i == spec_packets_needed(msg.len() as int) - 1 ==> i * PACKET_SIZE + spec_payload(
            msg,
            i,
        ).len() == msg.len(),
        spec_u64_from_le_bytes(spec_packet(msg, i).subrange(0, SEQ_HEADER_SIZE as int))
            == spec_packets_needed(msg.len() as int) - 1 - i,
        spec_packet(msg, i).subrange(SEQ_HEADER_SIZE as int, spec_packet(msg, i).len() as int)
            == spec_payload(msg, i),
{
    let len = msg.len() as int;
    let needed = spec_packets_needed(len);
    lemma_packets_needed(len);
    assert(i * PACKET_SIZE <= (needed - 1) * PACKET_SIZE) by (nonlinear_arith)
        requires
            i <= needed - 1,
    ;
    assert(i < needed - 1 ==> (i + 1) * PACKET_SIZE <= (needed - 1) * PACKET_SIZE)
        by (nonlinear_arith);
    assert((i + 1) * PACKET_SIZE == i * PACKET_SIZE + PACKET_SIZE) by (nonlinear_arith);
    assert(needed * PACKET_SIZE == (needed - 1) * PACKET_SIZE + PACKET_SIZE) by (nonlinear_arith);
    let remaining = (needed - 1 - i) as u64;
    let header = spec_u64_to_le_bytes(remaining);
    let payload = spec_payload(msg, i);
    vstd::bytes::lemma_auto_spec_u64_to_from_le_bytes();
    assert(header.len() == 8 && spec_u64_from_le_bytes(header) == remaining);
    assert(spec_packet(msg, i).subrange(0, SEQ_HEADER_SIZE as int) =~= header);
    assert(spec_packet(msg, i).subrange(
        SEQ_HEADER_SIZE as int,
        spec_packet(msg, i).len() as int,
    ) =~= payload);
}

/// What is pending for a sender after the first `k` packets of a message
/// have arrived, where nothing was pending before: the first `k` payloads,
/// and no message has been handed back yet.
proof fn lemma_consume_prefix(pending: Map<Id, Seq<u8>>, peer: Id, msg: Seq<u8>, k: int)
    requires
        0 < msg.len(),
        !spec_too_long(msg.len() as int),
        !pending.contains_key(peer),
        0 <= k < spec_packets_needed(msg.len() as int),
    ensures
        spec_consume_all(pending, peer, spec_packets(msg).take(k)).1 == Ok::<
            Option<Seq<u8>>,
            PacketError,
        >(None),
        k == 0 ==> spec_consume_all(pending, peer, spec_packets(msg).take(k)).0 == pending,
        k > 0 ==> spec_consume_all(pending, peer, spec_packets(msg).take(k)).0 == pending.insert(
            peer,
            msg.subrange(0, k * PACKET_SIZE),
        ),
    decreases k,
{
    let packets = spec_packets(msg);
    if k > 0 {
        lemma_consume_prefix(pending, peer, msg, k - 1);
        lemma_packet_parses(msg, k - 1);
        assert(packets.take(k).drop_last() =~= packets.take(k - 1));
        assert(packets.take(k).last() == spec_packet(msg, k - 1));
        assert((k - 1) * PACKET_SIZE + PACKET_SIZE == k * PACKET_SIZE) by (nonlinear_arith);
        let before = spec_consume_all(pending, peer, packets.take(k - 1)).0;
        let so_far = if before.contains_key(peer) {
            before[peer]
        } else {
            Seq::<u8>::empty()
        };
        assert(so_far =~= msg.subrange(0, (k - 1) * PACKET_SIZE));
        assert(so_far + spec_payload(msg, k - 1) =~= msg.subrange(0, k * PACKET_SIZE));
        assert(before.insert(peer, msg.subrange(0, k * PACKET_SIZE)) =~= pending.insert(
            peer,
            msg.subrange(0, k * PACKET_SIZE),
        ));
    } else {
        assert(packets.take(0).len() == 0);
    }
}

/// Framing round trip. When the packets of a message reach a handler in
/// order, from a sender with nothing pending, no packet but the last hands
/// anything back, the last hands back the message byte for byte, and
/// afterwards the handler holds what it held before.
pub proof fn lemma_framing_round_trip(pending: Map<Id, Seq<u8>>, peer: Id, msg: Seq<u8>)
    requires
        0 < msg.len(),
        !spec_too_long(msg.len() as int),
        !pending.contains_key(peer),
    ensures
        spec_consume_all(pending, peer, spec_packets(msg)) == (
            pending,
            Ok::<Option<Seq<u8>>, PacketError>(Some(msg)),
        ),
        forall|k: int|
            0 <= k < spec_packets(msg).len() ==> (#[trigger] spec_consume_all(
                pending,
                peer,
                spec_packets(msg).take(k),
            )).1 == Ok::<Option<Seq<u8>>, PacketError>(None),
        forall|i: int|
            0 <= i < spec_packets(msg).len() ==> (#[trigger] spec_packets(msg)[i]).len()
                <= MATCHBOX_MAX_SIZE,
{
    let packets = spec_packets(msg);
    let needed = spec_packets_needed(msg.len() as int);
    lemma_packets_needed(msg.len() as int);
    lemma_consume_prefix(pending, peer, msg, needed - 1);
    lemma_packet_parses(msg, needed - 1);
    assert(packets.drop_last() =~= packets.take(needed - 1));
    let before = spec_consume_all(pending, peer, packets.take(needed - 1)).0;
    let so_far = if before.contains_key(peer) {
        before[peer]
    } else {
        Seq::<u8>::empty()
    };
    assert(so_far =~= msg.subrange(0, (needed - 1) * PACKET_SIZE));
    assert(so_far + spec_payload(msg, needed - 1) =~= msg);
    assert(before.remove(peer) =~= pending);
    assert forall|k: int| 0 <= k < packets.len() implies (#[trigger] spec_consume_all(
        pending,
        peer,
        packets.take(k),
    )).1 == Ok::<Option<Seq<u8>>, PacketError>(None) by {
        lemma_consume_prefix(pending, peer, msg, k);
    }
    assert forall|i: int| 0 <= i < packets.len() implies (#[trigger] packets[i]).len()
        <= MATCHBOX_MAX_SIZE by {
        lemma_packet_parses(msg, i);
    }
}

/// A packet changes what is pending for its own sender only.
pub proof fn lemma_consume_leaves_others(
    pending: Map<Id, Seq<u8>>,
    peer: Id,
    bytes: Seq<u8>,
    other: Id,
)
    requires
        other != peer,
    ensures
        spec_consume(pending, peer, bytes).0.contains_key(other) == pending.contains_key(other),
        pending.contains_key(other) ==> spec_consume(pending, peer, bytes).0[other]
            == pending[other],
{
}

} // verus!
