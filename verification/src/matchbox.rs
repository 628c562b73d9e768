//! What the transport decides: who the peers are, what goes to whom, what
//! comes into the inbox, and how the connection ends.
//!
//! The transport itself owns the connection and its queues. On every report
//! of the socket it asks this module what to do.

use crate::collections::set_members;
use crate::identity::Id;
use crate::packets::{spec_consume, spec_packet_views, spec_packets, spec_same_outcome, spec_too_long, PacketError, PacketHandler};
use crate::transport::{MessageModel, MsgPair, TransportMessage};
use std::collections::HashSet;
use vstd::prelude::*;

verus! {

/// Whether a peer has come or gone.
#[derive(Clone, Copy, Debug, PartialEq, Eq, Structural)]
pub enum PeerState {
    Connected,
    Disconnected,
}

/// How the connection came to its end.
#[derive(Debug)]
pub enum LoopEnd {
    /// The connection ended by itself, without an error.
    Finished,
    /// The connection failed, with this message.
    Failed(String),
    /// The user asked to disconnect.
    Cancelled,
}

/// What is left to do when the connection has ended.
#[derive(Debug)]
pub struct Closing {
    /// The last message for the inbox.
    pub message: TransportMessage,
    /// Whether the connection is still winding down and is to be awaited.
    pub await_socket: bool,
}

/// What is to be sent for one message.
#[derive(Debug)]
pub struct SendPlan {
    /// The packets to send, each with the peer it goes to, in order.
    pub packets: Vec<(Id, Vec<u8>)>,
    /// Whether the message also goes into the sender's own inbox.
    pub loopback: bool,
}

/// The state of a transport as plain values.
pub struct TransportModel {
    /// The identity of this participant.
    pub my_id: Id,
    /// The peers that are connected.
    pub peers: Set<Id>,
    /// The bytes of unfinished messages, by sender.
    pub pending: Map<Id, Seq<u8>>,
}

/// The packets of a message for each of `targets`: all packets for the
/// first target in order, then all for the second, and so on.
pub open spec fn spec_fan_out(targets: Seq<Id>, packets: Seq<Seq<u8>>) -> Seq<(Id, Seq<u8>)>
    decreases targets.len(),
{
    if targets.len() == 0 {
        Seq::empty()
    } else {
        spec_fan_out(targets.drop_last(), packets) + Seq::new(
            packets.len(),
            |i: int| (targets.last(), packets[i]),
        )
    }
}

/// The contents of a list of addressed packets.
pub open spec fn spec_addressed_views(packets: Seq<(Id, Vec<u8>)>) -> Seq<(Id, Seq<u8>)> {
    Seq::new(packets.len(), |i: int| (packets[i].0, packets[i].1@))
}

/// The part of a transport that decides.
#[derive(Debug)]
pub struct TransportCore {
    my_id: Id,
    all_peers: HashSet<Id>,
    handler: PacketHandler,
}

impl View for TransportCore {
    type V = TransportModel;

    closed spec fn view(&self) -> TransportModel {
        TransportModel { my_id: self.my_id, peers: self.all_peers@, pending: self.handler@ }
    }
}

/// What the first step of a connection comes to.
#[derive(Debug)]
pub enum Connecting {
    /// An identity has been assigned: the transport, and the first message
    /// for its inbox.
    Connected(TransportCore, MsgPair),
    /// Nothing has happened yet.
    Waiting,
    /// The connection ended before an identity was assigned, with this
    /// message.
    Failed(String),
}

impl TransportCore {
    /// A transport of the participant `my_id`, with no peers and nothing
    /// pending.
    pub fn new(my_id: Id) -> (core: TransportCore)
        ensures
            core@ == (TransportModel {
                my_id,
                peers: Set::<Id>::empty(),
                pending: Map::<Id, Seq<u8>>::empty(),
            }),
    {
        TransportCore { my_id, all_peers: HashSet::new(), handler: PacketHandler::new() }
    }

    /// The first step of a connection. The end of the connection counts
    /// before an identity: a connection that has ended has failed, however
    /// it ended. An identity makes a transport, and the news of the identity
    /// is the first message in its inbox.
    pub fn connect(assigned: Option<Id>, ended: Option<LoopEnd>) -> (step: Connecting)
        ensures
            ended is Some ==> step is Failed,
            ended matches Some(LoopEnd::Failed(why)) ==> step->Failed_0@ == why@,
            ended is Some && !(ended->0 is Failed) ==> step->Failed_0@
                == "Transport disconnected unexpectedly"@,
            ended is None && assigned is None ==> step is Waiting,
            ended is None && assigned is Some ==> step is Connected && step->Connected_0@
                == (TransportModel {
                my_id: assigned->0,
                peers: Set::<Id>::empty(),
                pending: Map::<Id, Seq<u8>>::empty(),
            }) && step->Connected_1.0 == assigned && step->Connected_1.1@
                == MessageModel::IdAssigned(assigned->0),
    {
        match ended {
            Some(LoopEnd::Failed(why)) => Connecting::Failed(why),
            Some(_) => Connecting::Failed("Transport disconnected unexpectedly".to_owned()),
            None => match assigned {
                Some(id) => Connecting::Connected(
                    TransportCore::new(id),
                    (Some(id), TransportMessage::IdAssigned(id)),
                ),
                None => Connecting::Waiting,
            },
        }
    }

    /// The identity of this participant.
    pub fn self_id(&self) -> (id: Id)
        ensures
            id == self@.my_id,
    {
        self.my_id
    }

    /// How many peers are connected.
    pub fn peer_count(&self) -> (count: usize)
        ensures
            count == self@.peers.len(),
    {
        broadcast use vstd::std_specs::hash::group_hash_axioms;

        self.all_peers.len()
    }

    /// Whether `peer` is connected.
    pub fn has_peer(&self, peer: Id) -> (connected: bool)
        ensures
            connected == self@.peers.contains(peer),
    {
        broadcast use vstd::std_specs::hash::group_hash_axioms;

        self.all_peers.contains(&peer)
    }

    /// A peer has come or gone: keeps the set of peers, and hands back the
    /// message that tells the inbox.
    pub fn handle_peer(&mut self, peer: Id, state: PeerState) -> (entry: MsgPair)
        ensures
            final(self)@.my_id == old(self)@.my_id,
            final(self)@.pending == old(self)@.pending,
            final(self)@.peers == match state {
                PeerState::Connected => old(self)@.peers.insert(peer),
                PeerState::Disconnected => old(self)@.peers.remove(peer),
            },
            entry.0 == Some(peer),
            entry.1@ == match state {
                PeerState::Connected => MessageModel::PeerConnect(peer),
                PeerState::Disconnected => MessageModel::PeerDisconnect(peer),
            },
    {
        broadcast use vstd::std_specs::hash::group_hash_axioms;

        let msg = match state {
            PeerState::Connected => {
                self.all_peers.insert(peer);
                TransportMessage::PeerConnect(peer)
            },
            PeerState::Disconnected => {
                self.all_peers.remove(&peer);
                TransportMessage::PeerDisconnect(peer)
            },
        };
        (Some(peer), msg)
    }

    /// A packet has arrived from `peer`. Hands back the bytes of a message
    /// that the packet completes, for the inbox once decoded. A packet that
    /// is refused costs the sender what was pending for it, and nobody else.
    pub fn handle_recv(&mut self, peer: Id, packet: Vec<u8>) -> (res: Result<
        Option<Vec<u8>>,
        PacketError,
    >)
        ensures
            final(self)@.my_id == old(self)@.my_id,
            final(self)@.peers == old(self)@.peers,
            final(self)@.pending == spec_consume(old(self)@.pending, peer, packet@).0,
            spec_same_outcome(res, spec_consume(old(self)@.pending, peer, packet@).1),
    {
        self.handler.consume_packet(peer, packet)
    }

    /// Plans the sending of a message of the given bytes: to `peer` alone,
    /// or, without one, to every peer and into the sender's own inbox. A
    /// message that cannot be split into packets is not sent at all.
    pub fn send(&self, peer: Option<Id>, bytes: &Vec<u8>) -> (res: Result<SendPlan, PacketError>)
        ensures
            spec_too_long(bytes@.len() as int) ==> res == Err::<SendPlan, PacketError>(
                PacketError::MessageTooLong,
            ),
            bytes@.len() == 0 ==> res == Err::<SendPlan, PacketError>(PacketError::MessageEmpty),
            0 < bytes@.len() && !spec_too_long(bytes@.len() as int) ==> res is Ok
                && res->Ok_0.loopback == peer is None && match peer {
                Some(peer) => spec_addressed_views(res->Ok_0.packets@) == spec_fan_out(
                    seq![peer],
                    spec_packets(bytes@),
                ),
                None => exists|targets: Seq<Id>|
                    {
                        &&& targets.no_duplicates()
                        &&& targets.to_set() == self@.peers
                        &&& spec_addressed_views(res->Ok_0.packets@) == #[trigger] spec_fan_out(
                            targets,
                            spec_packets(bytes@),
                        )
                    },
            },
    {
        let packets = match PacketHandler::message_to_packets(bytes) {
            Ok(packets) => packets,
            Err(why) => {
                return Err(why);
            },
        };
        let targets = match peer {
            Some(peer) => {
                let mut targets: Vec<Id> = Vec::new();
                targets.push(peer);
                assert(targets@ =~= seq![peer]);
                targets
            },
            None => set_members(&self.all_peers),
        };
        let mut out: Vec<(Id, Vec<u8>)> = Vec::new();
        let mut t: usize = 0;
        assert(targets@.subrange(0, 0) =~= Seq::<Id>::empty());
        while t < targets.len()
            invariant
                t <= targets@.len(),
                spec_packet_views(packets@) == spec_packets(bytes@),
                spec_addressed_views(out@) == spec_fan_out(
                    targets@.subrange(0, t as int),
                    spec_packets(bytes@),
                ),
            decreases targets@.len() - t,
        {
            let target = targets[t];
            let ghost before = spec_addressed_views(out@);
            let mut i: usize = 0;
            while i < packets.len()
                invariant
                    i <= packets@.len(),
                    t < targets@.len(),
                    target == targets@[t as int],
                    spec_packet_views(packets@) == spec_packets(bytes@),
                    spec_addressed_views(out@) == before + Seq::new(
                        i as nat,
                        |k: int| (target, spec_packets(bytes@)[k]),
                    ),
                decreases packets@.len() - i,
            {
                let ghost sent = spec_addressed_views(out@);
                let copy = vstd::slice::slice_to_vec(packets[i].as_slice());
                assert(copy@ == spec_packet_views(packets@)[i as int]);
                out.push((target, copy));
                assert(spec_addressed_views(out@) =~= sent.push(
                    (target, spec_packets(bytes@)[i as int]),
                ));
                assert(spec_addressed_views(out@) =~= before + Seq::new(
                    (i + 1) as nat,
                    |k: int| (target, spec_packets(bytes@)[k]),
                ));
                i = i + 1;
            }
            proof {
                let next = targets@.subrange(0, t + 1);
                assert(next.drop_last() =~= targets@.subrange(0, t as int));
                assert(next.last() == target);
                assert(spec_packet_views(packets@).len() == packets@.len());
                assert(Seq::new(i as nat, |k: int| (target, spec_packets(bytes@)[k]))
                    =~= Seq::new(
                    spec_packets(bytes@).len(),
                    |k: int| (next.last(), spec_packets(bytes@)[k]),
                ));
            }
            t = t + 1;
        }
        assert(targets@.subrange(0, t as int) =~= targets@);
        let plan = SendPlan { packets: out, loopback: peer.is_none() };
        proof {
            if peer is None {
                assert(targets@.no_duplicates() && targets@.to_set() == self@.peers
                    && spec_addressed_views(plan.packets@) == spec_fan_out(
                    targets@,
                    spec_packets(bytes@),
                ));
            }
        }
        Ok(plan)
    }

    /// The connection has ended: what goes into the inbox last, and whether
    /// the connection is to be awaited. A connection that ended by itself
    /// reports a disconnect, or its error; one that the user ended reports
    /// a disconnect and is awaited.
    pub fn closing(end: LoopEnd) -> (closing: Closing)
        ensures
            closing.await_socket == end is Cancelled,
            closing.message@ == match end {
                LoopEnd::Failed(why) => MessageModel::Error(why@),
                _ => MessageModel::Disconnected,
            },
    {
        match end {
            LoopEnd::Finished => Closing {
                message: TransportMessage::Disconnected,
                await_socket: false,
            },
            LoopEnd::Failed(why) => Closing {
                message: TransportMessage::Error(why),
                await_socket: false,
            },
            LoopEnd::Cancelled => Closing {
                message: TransportMessage::Disconnected,
                await_socket: true,
            },
        }
    }
}

} // verus!
