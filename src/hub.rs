use vstd::prelude::*;
use crate::finder::{DriverACK, DriverFinder, FinderAction, ack_transition, is_candidate_list, timeout_transition};
use crate::messages::{DriverMessages, Notice, PaymentMessages, TripMessages, TripStatus};
use crate::position::Position;
use crate::table::PositionTable;

verus! {

/// Where this process stands in the bully election.
#[derive(Debug, Clone, Copy, PartialEq, Eq, Structural)]
pub enum ElectionState {
    Idle,
    Electing,
    WaitingForCoordinator,
}

/// Work the hub hands to the local trip handler.
#[derive(Debug, Clone, Copy, PartialEq, Eq, Structural)]
pub enum TripCommand {
    /// The leader offers this driver a trip.
    CanHandleTrip { passenger_id: u32, passenger_location: Position, destination: Position },
    /// A passenger's channel closed: drop the trip if it is theirs.
    ClearPassenger { disconnected: bool, passenger_id: u32 },
    /// Publish the position now (a new leader needs it).
    ForceNotifyPosition,
}

/// What the driver process does after a hub event.
#[derive(Debug, Clone, Copy, PartialEq, Eq, Structural)]
pub enum HubAction {
    /// Write a message on the link to a peer driver.
    SendToPeer { peer_id: u32, message: DriverMessages },
    /// Hand a command to the local trip handler.
    Trip { command: TripCommand },
    /// Arm the election timeout.
    ArmElectionTimeout,
    /// Cancel a pending election timeout.
    CancelElectionTimeout,
    /// Arm the timeout of the offer made to a driver for a passenger.
    ArmOfferTimeout { passenger_id: u32, driver_id: u32 },
    /// Open a channel to the passenger and send it this notice.
    ConnectAndNotify { passenger_id: u32, notice: Notice },
}

/// Publish this driver's position to the leader.
#[derive(Debug, Clone, Copy, PartialEq, Eq, Structural)]
pub struct NotifyPositionToLeader {
    pub driver_location: Position,
}

/// Record a driver's position in the leader's table.
#[derive(Debug, Clone, Copy, PartialEq, Eq, Structural)]
pub struct SetDriverPosition {
    pub driver_id: u32,
    pub driver_position: Position,
}

/// Ask the payment service for a passenger's fare.
#[derive(Debug, Clone, Copy, PartialEq, Eq, Structural)]
pub struct CollectMoneyPassenger {
    pub passenger_id: u32,
}

/// The payment service's answer to a fare collection.
#[derive(Debug, Clone, Copy, PartialEq, Eq, Structural)]
pub struct CheckPaymentResponse {
    pub passenger_id: u32,
    pub response: bool,
}

/// A passenger's channel closed.
#[derive(Debug, Clone, Copy, PartialEq, Eq, Structural)]
pub struct RemovePassengerConnection {
    pub id: u32,
}

/// A peer's link closed.
#[derive(Debug, Clone, Copy, PartialEq, Eq, Structural)]
pub struct RemoveDriverConnection {
    pub id: u32,
}

/// Start a bully election.
#[derive(Debug, Clone, Copy, PartialEq, Eq, Structural)]
pub struct StartElection {}

/// A lower driver runs an election.
#[derive(Debug, Clone, Copy, PartialEq, Eq, Structural)]
pub struct Election {
    pub sender_id: u32,
}

/// A higher driver answered an election.
#[derive(Debug, Clone, Copy, PartialEq, Eq, Structural)]
pub struct Alive {
    pub responder_id: u32,
}

/// A driver announces itself as leader.
#[derive(Debug, Clone, Copy, PartialEq, Eq, Structural)]
pub struct Coordinator {
    pub leader_id: u32,
}

/// A trip request, to be dispatched by the leader.
#[derive(Debug, Clone, Copy, PartialEq, Eq, Structural)]
pub struct RedirectNewTrip {
    pub passenger_id: u32,
    pub source: Position,
    pub destination: Position,
}

/// Start a finder for a trip request (leader only).
#[derive(Debug, Clone, Copy, PartialEq, Eq, Structural)]
pub struct FindDriver {
    pub passenger_id: u32,
    pub source: Position,
    pub destination: Position,
}

/// Offer a trip to a driver.
#[derive(Debug, Clone, Copy, PartialEq, Eq, Structural)]
pub struct CanHandleTrip {
    pub passenger_id: u32,
    pub source: Position,
    pub destination: Position,
    pub driver_id: u32,
}

/// A driver's answer to an offer.
#[derive(Debug, Clone, Copy, PartialEq, Eq, Structural)]
pub struct CanHandleTripACK {
    pub passenger_id: u32,
    pub response: bool,
    pub driver_id: u32,
}

/// Open a direct channel to a passenger.
#[derive(Debug, Clone, Copy, PartialEq, Eq, Structural)]
pub struct ConnectWithPassenger {
    pub passenger_id: u32,
}

/// Write a trip response to a passenger.
#[derive(Debug, Clone, PartialEq, Eq)]
pub struct SendTripResponse {
    pub status: TripStatus,
    pub detail: String,
    pub passenger_id: u32,
}

/// A finder is done.
#[derive(Debug, Clone, Copy, PartialEq, Eq, Structural)]
pub struct RemoveDriverFinder {
    pub passenger_id: u32,
}

/// Why a direct channel to a passenger could not be recorded.
#[derive(Debug, Clone, Copy, PartialEq, Eq, Structural)]
pub enum ConnectError {
    /// The outside connection attempt failed.
    Unreachable { passenger_id: u32 },
}

/// The actions that send one message to each listed peer.
pub open spec fn broadcast(peers: Seq<u32>, m: DriverMessages) -> Seq<HubAction> {
    peers.map_values(|p: u32| HubAction::SendToPeer { peer_id: p, message: m })
}

/// The peers with an id above `id`, in link order.
pub open spec fn higher_peers(peers: Seq<u32>, id: u32) -> Seq<u32>
    decreases peers.len(),
{
    if peers.len() == 0 {
        Seq::empty()
    } else if peers.last() > id {
        higher_peers(peers.drop_last(), id).push(peers.last())
    } else {
        higher_peers(peers.drop_last(), id)
    }
}

proof fn lemma_higher_peers_empty(peers: Seq<u32>, id: u32)
    ensures
        higher_peers(peers, id).len() == 0 <==> forall|i: int| 0 <= i < peers.len() ==> peers[i] <= id,
    decreases peers.len(),
{
    if peers.len() > 0 {
        lemma_higher_peers_empty(peers.drop_last(), id);
        if higher_peers(peers, id).len() == 0 {
            assert forall|i: int| 0 <= i < peers.len() implies peers[i] <= id by {
                if i < peers.len() - 1 {
                    assert(peers.drop_last()[i] == peers[i]);
                }
            }
        }
    }
}

/// Index of the entry for `x` in `v`, if any.
fn find_id(v: &Vec<u32>, x: u32) -> (r: Option<usize>)
    ensures
        r.is_none() <==> !v@.contains(x),
        r.is_some() ==> r.unwrap() < v@.len() && v@[r.unwrap() as int] == x,
{
    let mut i: usize = 0;
    while i < v.len()
        invariant
            0 <= i <= v@.len(),
            forall|j: int| 0 <= j < i ==> v@[j] != x,
        decreases v@.len() - i,
    {
        if v[i] == x {
            return Some(i);
        }
        i += 1;
    }
    None
}

/// The per-process coordinator: links to peers and passengers, the leader,
/// the position table and the finders that run on the leader.
pub struct CentralDriver {
    id: u32,
    leader_id: Option<u32>,
    peers: Vec<u32>,
    passengers: Vec<u32>,
    driver_positions: PositionTable,
    finders: Vec<DriverFinder>,
    election: ElectionState,
    election_timeout: bool,
}

impl CentralDriver {
    pub closed spec fn id_spec(&self) -> u32 {
        self.id
    }

    pub closed spec fn leader(&self) -> Option<u32> {
        self.leader_id
    }

    /// Ids of the peers with an open link, in link order.
    pub closed spec fn peers_spec(&self) -> Seq<u32> {
        self.peers@
    }

    /// Ids of the passengers with an open channel.
    pub closed spec fn passengers_spec(&self) -> Seq<u32> {
        self.passengers@
    }

    pub closed spec fn positions(&self) -> Map<u32, Position> {
        self.driver_positions@
    }

    /// The finders that run on this process, keyed by passenger.
    pub closed spec fn finders_spec(&self) -> Seq<DriverFinder> {
        self.finders@
    }

    pub closed spec fn election_spec(&self) -> ElectionState {
        self.election
    }

    pub closed spec fn timeout_armed(&self) -> bool {
        self.election_timeout
    }

    /// Whether a finder runs for this passenger.
    pub open spec fn has_finder_spec(&self, pid: u32) -> bool {
        exists|i: int| 0 <= i < self.finders_spec().len() && self.finders_spec()[i].passenger() == pid
    }

    pub open spec fn is_leader_spec(&self) -> bool {
        self.leader() == Some(self.id_spec())
    }

    pub closed spec fn wf(&self) -> bool {
        &&& self.peers@.no_duplicates()
        &&& self.passengers@.no_duplicates()
        &&& self.driver_positions.wf()
        &&& forall|i: int| 0 <= i < self.finders@.len() ==> (#[trigger] self.finders@[i]).wf()
        &&& forall|i: int, j: int|
            0 <= i < j < self.finders@.len() ==> self.finders@[i].passenger()
                != self.finders@[j].passenger()
    }

    /// A hub for driver `id` with no link, no leader and an empty table.
    pub fn create_new(id: u32) -> (r: Self)
        ensures
            r.wf(),
            r.id_spec() == id,
            r.leader().is_none(),
            r.peers_spec().len() == 0,
            r.passengers_spec().len() == 0,
            r.positions() == Map::<u32, Position>::empty(),
            r.finders_spec().len() == 0,
            r.election_spec() == ElectionState::Idle,
            !r.timeout_armed(),
    {
        CentralDriver {
            id,
            leader_id: None,
            peers: Vec::new(),
            passengers: Vec::new(),
            driver_positions: PositionTable::new(),
            finders: Vec::new(),
            election: ElectionState::Idle,
            election_timeout: false,
        }
    }

    /// This driver's id.
    pub fn id(&self) -> (r: u32)
        ensures
            r == self.id_spec(),
    {
        self.id
    }

    /// The current leader, if known.
    pub fn leader_id(&self) -> (r: Option<u32>)
        ensures
            r == self.leader(),
    {
        self.leader_id
    }

    /// Where this process stands in the election.
    pub fn election_state(&self) -> (r: ElectionState)
        ensures
            r == self.election_spec(),
    {
        self.election
    }

    /// Whether this driver is the leader.
    pub fn im_leader(&self) -> (r: bool)
        ensures
            r == self.is_leader_spec(),
    {
        match self.leader_id {
            Some(lid) => lid == self.id,
            None => false,
        }
    }

    /// Whether a link to peer `id` is open.
    pub fn has_peer(&self, id: u32) -> (r: bool)
        ensures
            r == self.peers_spec().contains(id),
    {
        find_id(&self.peers, id).is_some()
    }

    /// Whether a channel to passenger `id` is open.
    pub fn has_passenger(&self, id: u32) -> (r: bool)
        ensures
            r == self.passengers_spec().contains(id),
    {
        find_id(&self.passengers, id).is_some()
    }

    /// The recorded position of driver `id`, if any.
    pub fn driver_position(&self, id: u32) -> (r: Option<Position>)
        requires
            self.wf(),
        ensures
            r == (if self.positions().contains_key(id) {
                Some(self.positions()[id])
            } else {
                None::<Position>
            }),
    {
        self.driver_positions.get(id)
    }

    /// Records a link to peer `id`.
    pub fn insert_driver_connection(&mut self, id: u32)
        requires
            old(self).wf(),
        ensures
            final(self).wf(),
            final(self).peers_spec().to_set() == old(self).peers_spec().to_set().insert(id),
            final(self).leader() == old(self).leader(),
            final(self).id_spec() == old(self).id_spec(),
            final(self).election_spec() == old(self).election_spec(),
            final(self).positions() == old(self).positions(),
            final(self).id_spec() == old(self).id_spec(),
            final(self).leader() == old(self).leader(),
            final(self).passengers_spec() == old(self).passengers_spec(),
            final(self).positions() == old(self).positions(),
            final(self).finders_spec() == old(self).finders_spec(),
            final(self).election_spec() == old(self).election_spec(),
            final(self).timeout_armed() == old(self).timeout_armed(),
    {
        proof {
            broadcast use vstd::seq_lib::group_seq_properties;
        }
        if find_id(&self.peers, id).is_none() {
            self.peers.push(id);
            proof {
                assert(self.peers@.to_set() =~= old(self).peers@.to_set().insert(id));
            }
        } else {
            proof {
                assert(self.peers@.to_set() =~= old(self).peers@.to_set().insert(id));
            }
        }
    }

    /// Drops the link to peer `id`.
    pub fn remove_driver_connection(&mut self, msg: RemoveDriverConnection)
        requires
            old(self).wf(),
        ensures
            final(self).wf(),
            final(self).peers_spec().to_set() == old(self).peers_spec().to_set().remove(msg.id),
            final(self).leader() == old(self).leader(),
            final(self).id_spec() == old(self).id_spec(),
            final(self).election_spec() == old(self).election_spec(),
            final(self).positions() == old(self).positions(),
            final(self).id_spec() == old(self).id_spec(),
            final(self).leader() == old(self).leader(),
            final(self).passengers_spec() == old(self).passengers_spec(),
            final(self).positions() == old(self).positions(),
            final(self).finders_spec() == old(self).finders_spec(),
            final(self).election_spec() == old(self).election_spec(),
            final(self).timeout_armed() == old(self).timeout_armed(),
    {
        let id = msg.id;
        proof {
            broadcast use vstd::seq_lib::group_seq_properties;
        }
        match find_id(&self.peers, id) {
            Some(i) => {
                self.peers.remove(i);
                proof {
                    let s = old(self).peers@;
                    assert(self.peers@ =~= s.remove(i as int));
                    assert forall|x: u32| self.peers@.contains(x) <==> s.contains(x) && x != id by {
                        if s.contains(x) && x != id {
                            let k = choose|k: int| 0 <= k < s.len() && s[k] == x;
                            if k < i {
                                assert(self.peers@[k] == x);
                            } else {
                                assert(self.peers@[k - 1] == x);
                            }
                        }
                    }
                    assert(self.peers@.to_set() =~= s.to_set().remove(id));
                }
            },
            None => {
                proof {
                    assert(self.peers@.to_set() =~= old(self).peers@.to_set().remove(id));
                }
            },
        }
    }

    /// Records a channel to passenger `id`.
    pub fn insert_passenger(&mut self, id: u32)
        requires
            old(self).wf(),
        ensures
            final(self).wf(),
            final(self).passengers_spec().to_set() == old(self).passengers_spec().to_set().insert(
                id,
            ),
            final(self).peers_spec() == old(self).peers_spec(),
            final(self).leader() == old(self).leader(),
            final(self).id_spec() == old(self).id_spec(),
            final(self).id_spec() == old(self).id_spec(),
            final(self).leader() == old(self).leader(),
            final(self).peers_spec() == old(self).peers_spec(),
            final(self).positions() == old(self).positions(),
            final(self).finders_spec() == old(self).finders_spec(),
            final(self).election_spec() == old(self).election_spec(),
            final(self).timeout_armed() == old(self).timeout_armed(),
    {
        proof {
            broadcast use vstd::seq_lib::group_seq_properties;
        }
        if find_id(&self.passengers, id).is_none() {
            self.passengers.push(id);
        }
        proof {
            assert(self.passengers@.to_set() =~= old(self).passengers@.to_set().insert(id));
        }
    }

    /// Drops the channel to passenger `id`; when there was one, the local
    /// trip handler is told to drop that passenger's trip.
    pub fn remove_passenger_connection(&mut self, msg: RemovePassengerConnection) -> (r: Vec<HubAction>)
        requires
            old(self).wf(),
        ensures
            final(self).wf(),
            final(self).passengers_spec().to_set() == old(self).passengers_spec().to_set().remove(
                msg.id,
            ),
            final(self).peers_spec() == old(self).peers_spec(),
            final(self).leader() == old(self).leader(),
            final(self).id_spec() == old(self).id_spec(),
            old(self).passengers_spec().contains(msg.id) ==> r@ == seq![
                HubAction::Trip {
                    command: TripCommand::ClearPassenger { disconnected: true, passenger_id: msg.id },
                },
            ],
            !old(self).passengers_spec().contains(msg.id) ==> r@.len() == 0,
            final(self).id_spec() == old(self).id_spec(),
            final(self).leader() == old(self).leader(),
            final(self).peers_spec() == old(self).peers_spec(),
            final(self).positions() == old(self).positions(),
            final(self).finders_spec() == old(self).finders_spec(),
            final(self).election_spec() == old(self).election_spec(),
            final(self).timeout_armed() == old(self).timeout_armed(),
    {
        let id = msg.id;
        proof {
            broadcast use vstd::seq_lib::group_seq_properties;
        }
        let mut r: Vec<HubAction> = Vec::new();
        match find_id(&self.passengers, id) {
            Some(i) => {
                self.passengers.remove(i);
                proof {
                    let s = old(self).passengers@;
                    assert(self.passengers@ =~= s.remove(i as int));
                    assert forall|x: u32| self.passengers@.contains(x) <==> s.contains(x) && x
                        != id by {
                        if s.contains(x) && x != id {
                            let k = choose|k: int| 0 <= k < s.len() && s[k] == x;
                            if k < i {
                                assert(self.passengers@[k] == x);
                            } else {
                                assert(self.passengers@[k - 1] == x);
                            }
                        }
                    }
                    assert(self.passengers@.to_set() =~= s.to_set().remove(id));
                }
                r.push(
                    HubAction::Trip {
                        command: TripCommand::ClearPassenger {
                            disconnected: true,
                            passenger_id: id,
                        },
                    },
                );
            },
            None => {
                proof {
                    assert(self.passengers@.to_set() =~= old(self).passengers@.to_set().remove(id));
                }
            },
        }
        r
    }

    /// Records the position of driver `driver_id` in the table.
    pub fn set_driver_position(&mut self, msg: SetDriverPosition)
        requires
            old(self).wf(),
        ensures
            final(self).wf(),
            final(self).positions() == old(self).positions().insert(msg.driver_id, msg.driver_position),
            final(self).peers_spec() == old(self).peers_spec(),
            final(self).leader() == old(self).leader(),
            final(self).id_spec() == old(self).id_spec(),
            final(self).election_spec() == old(self).election_spec(),
            final(self).finders_spec() == old(self).finders_spec(),
            final(self).id_spec() == old(self).id_spec(),
            final(self).leader() == old(self).leader(),
            final(self).peers_spec() == old(self).peers_spec(),
            final(self).passengers_spec() == old(self).passengers_spec(),
            final(self).finders_spec() == old(self).finders_spec(),
            final(self).election_spec() == old(self).election_spec(),
            final(self).timeout_armed() == old(self).timeout_armed(),
    {
        let driver_id = msg.driver_id;
        let driver_position = msg.driver_position;
        self.driver_positions.insert(driver_id, driver_position);
    }

    /// Publishes this driver's position: nothing without a leader; into the
    /// table when this driver leads; else a `NotifyPosition` to the leader,
    /// when its link is open.
    pub fn notify_position_to_leader(&mut self, msg: NotifyPositionToLeader) -> (r: Vec<HubAction>)
        requires
            old(self).wf(),
        ensures
            final(self).wf(),
            final(self).peers_spec() == old(self).peers_spec(),
            final(self).leader() == old(self).leader(),
            final(self).id_spec() == old(self).id_spec(),
            final(self).election_spec() == old(self).election_spec(),
            old(self).leader().is_none() ==> r@.len() == 0 && final(self).positions() == old(
                self,
            ).positions(),
            old(self).is_leader_spec() ==> r@.len() == 0 && final(self).positions() == old(
                self,
            ).positions().insert(old(self).id_spec(), msg.driver_location),
            old(self).leader().is_some() && !old(self).is_leader_spec() ==> {
                &&& final(self).positions() == old(self).positions()
                &&& old(self).peers_spec().contains(old(self).leader().unwrap()) ==> r@ == seq![
                    HubAction::SendToPeer {
                        peer_id: old(self).leader().unwrap(),
                        message: DriverMessages::NotifyPosition {
                            driver_id: old(self).id_spec(),
                            driver_position: msg.driver_location,
                        },
                    },
                ]
                &&& !old(self).peers_spec().contains(old(self).leader().unwrap()) ==> r@.len() == 0
            },
            final(self).id_spec() == old(self).id_spec(),
            final(self).leader() == old(self).leader(),
            final(self).peers_spec() == old(self).peers_spec(),
            final(self).passengers_spec() == old(self).passengers_spec(),
            final(self).finders_spec() == old(self).finders_spec(),
            final(self).election_spec() == old(self).election_spec(),
            final(self).timeout_armed() == old(self).timeout_armed(),
    {
        let driver_location = msg.driver_location;
        let mut r: Vec<HubAction> = Vec::new();
        match self.leader_id {
            None => {},
            Some(lid) => {
                if lid == self.id {
                    self.driver_positions.insert(self.id, driver_location);
                } else if self.has_peer(lid) {
                    r.push(
                        HubAction::SendToPeer {
                            peer_id: lid,
                            message: DriverMessages::NotifyPosition {
                                driver_id: self.id,
                                driver_position: driver_location,
                            },
                        },
                    );
                }
            },
        }
        r
    }
}


/// How the hub carries out an offer of `pid`'s trip to driver `did`: to the
/// local trip handler when `did` is this driver, else over the peer link.
pub open spec fn offer_route(
    id: u32,
    peers: Seq<u32>,
    pid: u32,
    src: Position,
    dst: Position,
    did: u32,
) -> Seq<HubAction> {
    if did == id {
        seq![
            HubAction::Trip {
                command: TripCommand::CanHandleTrip {
                    passenger_id: pid,
                    passenger_location: src,
                    destination: dst,
                },
            },
        ]
    } else if peers.contains(did) {
        seq![
            HubAction::SendToPeer {
                peer_id: did,
                message: DriverMessages::CanHandleTrip {
                    passenger_id: pid,
                    driver_id: did,
                    passenger_location: src,
                    destination: dst,
                },
            },
        ]
    } else {
        Seq::empty()
    }
}

/// The hub's actions for what a finder asked for.
pub open spec fn routed(
    id: u32,
    peers: Seq<u32>,
    a: FinderAction,
    src: Position,
    dst: Position,
) -> Seq<HubAction> {
    match a {
        FinderAction::Offer { passenger_id, driver_id } => offer_route(
            id,
            peers,
            passenger_id,
            src,
            dst,
            driver_id,
        ).push(HubAction::ArmOfferTimeout { passenger_id, driver_id }),
        FinderAction::NoDrivers { passenger_id } => seq![
            HubAction::ConnectAndNotify { passenger_id, notice: Notice::NoDriversNear },
        ],
        _ => Seq::empty(),
    }
}

/// A driver that knows the ids `peers` declares itself leader at once on
/// starting an election exactly when none of them is higher.
pub open spec fn declares_at_once(id: u32, peers: Set<u32>) -> bool {
    forall|p: u32| peers.contains(p) ==> p <= id
}

/// In a fully connected group of drivers with distinct ids, at most one
/// declares itself leader at once on starting an election, and that one
/// has the highest id of the group.
pub proof fn lemma_only_highest_declares(alive: Set<u32>, a: u32, b: u32)
    requires
        alive.contains(a),
        alive.contains(b),
        declares_at_once(a, alive.remove(a)),
    ensures
        b <= a,
        declares_at_once(b, alive.remove(b)) ==> a == b,
{
    if b != a {
        assert(alive.remove(a).contains(b));
    }
    if declares_at_once(b, alive.remove(b)) && a != b {
        assert(alive.remove(b).contains(a));
    }
}

impl CentralDriver {
    /// Takes this process's own leadership: every peer is told, and the
    /// local trip handler publishes its position to the new table.
    fn declare_leader(&mut self) -> (r: Vec<HubAction>)
        requires
            old(self).wf(),
        ensures
            final(self).wf(),
            final(self).leader() == Some(old(self).id_spec()),
            final(self).election_spec() == ElectionState::Idle,
            !final(self).timeout_armed(),
            final(self).id_spec() == old(self).id_spec(),
            final(self).peers_spec() == old(self).peers_spec(),
            final(self).passengers_spec() == old(self).passengers_spec(),
            final(self).positions() == old(self).positions(),
            final(self).finders_spec() == old(self).finders_spec(),
            r@ == broadcast(
                old(self).peers_spec(),
                DriverMessages::Coordinator { leader_id: old(self).id_spec() },
            ).push(HubAction::Trip { command: TripCommand::ForceNotifyPosition }),
    {
        let m = DriverMessages::Coordinator { leader_id: self.id };
        let mut r: Vec<HubAction> = Vec::new();
        let mut i: usize = 0;
        while i < self.peers.len()
            invariant
                0 <= i <= self.peers@.len(),
                r@ == broadcast(self.peers@.take(i as int), m),
            decreases self.peers@.len() - i,
        {
            r.push(HubAction::SendToPeer { peer_id: self.peers[i], message: m });
            proof {
                assert(self.peers@.take(i + 1) =~= self.peers@.take(i as int).push(self.peers@[i as int]));
                assert(r@ =~= broadcast(self.peers@.take(i + 1), m));
            }
            i += 1;
        }
        proof {
            assert(self.peers@.take(i as int) =~= self.peers@);
        }
        r.push(HubAction::Trip { command: TripCommand::ForceNotifyPosition });
        self.leader_id = Some(self.id);
        self.election = ElectionState::Idle;
        self.election_timeout = false;
        r
    }

    /// Starts an election: the leader is forgotten and every higher peer
    /// gets `Election`; with no higher peer this driver declares itself at
    /// once, else the election timeout is armed.
    pub fn start_election(&mut self, _msg: StartElection) -> (r: Vec<HubAction>)
        requires
            old(self).wf(),
        ensures
            final(self).wf(),
            election_started(*old(self), *final(self)),
            r@ =~= election_actions(old(self).id_spec(), old(self).peers_spec()),
    {
        self.leader_id = None;
        let m = DriverMessages::Election { sender_id: self.id };
        let mut r: Vec<HubAction> = Vec::new();
        let mut i: usize = 0;
        while i < self.peers.len()
            invariant
                0 <= i <= self.peers@.len(),
                self.peers@ == old(self).peers@,
                r@ == broadcast(higher_peers(self.peers@.take(i as int), self.id), m),
            decreases self.peers@.len() - i,
        {
            let p = self.peers[i];
            proof {
                assert(self.peers@.take(i + 1).drop_last() =~= self.peers@.take(i as int));
            }
            if p > self.id {
                r.push(HubAction::SendToPeer { peer_id: p, message: m });
                proof {
                    assert(r@ =~= broadcast(higher_peers(self.peers@.take(i + 1), self.id), m));
                }
            }
            i += 1;
        }
        proof {
            assert(self.peers@.take(i as int) =~= self.peers@);
            lemma_higher_peers_empty(self.peers@, self.id);
            broadcast use vstd::seq_lib::group_seq_properties;
            if declares_at_once(self.id, self.peers@.to_set()) {
                assert forall|k: int| 0 <= k < self.peers@.len() implies self.peers@[k] <= self.id by {
                    assert(self.peers@.to_set().contains(self.peers@[k]));
                }
            } else {
                let q = choose|q: u32| self.peers@.to_set().contains(q) && q > self.id;
                assert(self.peers@.contains(q));
            }
        }
        if r.len() == 0 {
            self.declare_leader()
        } else {
            r.push(HubAction::ArmElectionTimeout);
            self.election = ElectionState::Electing;
            self.election_timeout = true;
            r
        }
    }

    /// The election timeout fired: with no `Alive` received meanwhile, this
    /// driver declares itself leader.
    pub fn on_election_timeout(&mut self) -> (r: Vec<HubAction>)
        requires
            old(self).wf(),
        ensures
            final(self).wf(),
            same_links(*old(self), *final(self)),
            same_dispatch(*old(self), *final(self)),
            old(self).timeout_armed() ==> {
                &&& final(self).leader() == Some(old(self).id_spec())
                &&& final(self).election_spec() == ElectionState::Idle
                &&& !final(self).timeout_armed()
                &&& r@ == broadcast(
                    old(self).peers_spec(),
                    DriverMessages::Coordinator { leader_id: old(self).id_spec() },
                ).push(HubAction::Trip { command: TripCommand::ForceNotifyPosition })
            },
            !old(self).timeout_armed() ==> r@.len() == 0 && *final(self) == *old(self),
    {
        if self.election_timeout {
            self.declare_leader()
        } else {
            Vec::new()
        }
    }

    /// An `Election` from `sender_id`: a higher driver answers `Alive` and
    /// starts its own election; a lower one ignores it.
    pub fn on_election(&mut self, msg: Election) -> (r: Vec<HubAction>)
        requires
            old(self).wf(),
        ensures
            final(self).wf(),
            election_transition(*old(self), msg.sender_id, *final(self), r@),
    {
        let sender_id = msg.sender_id;
        let mut r: Vec<HubAction> = Vec::new();
        if self.id > sender_id {
            if self.has_peer(sender_id) {
                r.push(
                    HubAction::SendToPeer {
                        peer_id: sender_id,
                        message: DriverMessages::Alive { responder_id: self.id },
                    },
                );
            }
            let mut rest = self.start_election(StartElection {});
            r.append(&mut rest);
        }
        r
    }

    /// An `Alive` answer: a higher driver is running, so the election
    /// timeout is cancelled and this driver waits for its `Coordinator`.
    pub fn on_alive(&mut self, _msg: Alive) -> (r: Vec<HubAction>)
        requires
            old(self).wf(),
        ensures
            final(self).wf(),
            alive_transition(*old(self), *final(self), r@),
    {
        let mut r: Vec<HubAction> = Vec::new();
        if self.election_timeout {
            self.election_timeout = false;
            r.push(HubAction::CancelElectionTimeout);
        }
        if self.election == ElectionState::Electing {
            self.election = ElectionState::WaitingForCoordinator;
        }
        r
    }

    /// A `Coordinator` announcement: `leader_id` leads from now on; a
    /// pending election timeout is cancelled and the local trip handler
    /// publishes its position so the new leader learns it.
    pub fn on_coordinator(&mut self, msg: Coordinator) -> (r: Vec<HubAction>)
        requires
            old(self).wf(),
        ensures
            final(self).wf(),
            coordinator_transition(*old(self), msg.leader_id, *final(self), r@),
    {
        let leader_id = msg.leader_id;
        let mut r: Vec<HubAction> = Vec::new();
        if self.election_timeout {
            self.election_timeout = false;
            r.push(HubAction::CancelElectionTimeout);
        }
        self.leader_id = Some(leader_id);
        self.election = ElectionState::Idle;
        r.push(HubAction::Trip { command: TripCommand::ForceNotifyPosition });
        r
    }
}


impl CentralDriver {
    /// Index of the finder that works for `pid`, if any.
    fn finder_index(&self, pid: u32) -> (r: Option<usize>)
        ensures
            r.is_none() <==> !self.has_finder_spec(pid),
            r.is_some() ==> r.unwrap() < self.finders_spec().len() && self.finders_spec()[r.unwrap() as int].passenger() == pid,
    {
        let mut i: usize = 0;
        while i < self.finders.len()
            invariant
                0 <= i <= self.finders@.len(),
                forall|j: int| 0 <= j < i ==> self.finders@[j].passenger() != pid,
            decreases self.finders@.len() - i,
        {
            if self.finders[i].passenger_id() == pid {
                return Some(i);
            }
            i += 1;
        }
        None
    }

    /// Takes the finder of `pid` out of the hub.
    fn take_finder(&mut self, pid: u32) -> (r: Option<DriverFinder>)
        requires
            old(self).wf(),
        ensures
            final(self).wf(),
            !final(self).has_finder_spec(pid),
            r.is_some() <==> old(self).has_finder_spec(pid),
            r.is_some() ==> r.unwrap().wf() && r.unwrap().passenger() == pid,
            r.is_some() ==> r.unwrap().source_spec() == finder_source(*old(self), pid)
                && r.unwrap().destination_spec() == finder_destination(*old(self), pid),
            r.is_none() ==> final(self).finders_spec() == old(self).finders_spec(),
            forall|q: u32| q != pid ==> (final(self).has_finder_spec(q) <==> old(self).has_finder_spec(q)),
            final(self).id_spec() == old(self).id_spec(),
            final(self).leader() == old(self).leader(),
            final(self).peers_spec() == old(self).peers_spec(),
            final(self).passengers_spec() == old(self).passengers_spec(),
            final(self).positions() == old(self).positions(),
            final(self).election_spec() == old(self).election_spec(),
            final(self).timeout_armed() == old(self).timeout_armed(),
            r.is_some() ==> r.unwrap() == old(self).finders_spec()[finder_slot(*old(self), pid)],
    {
        match self.finder_index(pid) {
            None => None,
            Some(i) => {
                let ghost s = self.finders@;
                proof {
                    lemma_finder_request(*old(self), pid);
                }
                let f = self.finders.remove(i);
                proof {
                    assert(self.finders@ =~= s.remove(i as int));
                    assert(s[i as int].wf());
                    assert forall|k: int| 0 <= k < self.finders@.len() implies (
                    #[trigger] self.finders@[k]).wf() by {
                        if k < i {
                            assert(self.finders@[k] == s[k]);
                        } else {
                            assert(self.finders@[k] == s[k + 1]);
                        }
                    }
                    assert forall|a: int, b: int|
                        0 <= a < b < self.finders@.len() implies self.finders@[a].passenger()
                        != self.finders@[b].passenger() by {
                        let a2 = if a < i { a } else { a + 1 };
                        let b2 = if b < i { b } else { b + 1 };
                        assert(self.finders@[a] == s[a2]);
                        assert(self.finders@[b] == s[b2]);
                    }
                    if self.has_finder_spec(pid) {
                        let k = choose|k: int| 0 <= k < self.finders@.len() && self.finders@[k].passenger() == pid;
                        let k2 = if k < i { k } else { k + 1 };
                        assert(self.finders@[k] == s[k2]);
                    }
                    assert forall|q: u32| q != pid implies (self.has_finder_spec(q) <==> old(self).has_finder_spec(q)) by {
                        if old(self).has_finder_spec(q) {
                            let k = choose|k: int| 0 <= k < s.len() && s[k].passenger() == q;
                            if k < i {
                                assert(self.finders@[k] == s[k]);
                                assert(self.finders_spec()[k].passenger() == q);
                            } else {
                                assert(k != i);
                                assert(self.finders@[k - 1] == s[k]);
                                assert(self.finders_spec()[k - 1].passenger() == q);
                            }
                        }
                        if self.has_finder_spec(q) {
                            let k = choose|k: int| 0 <= k < self.finders@.len() && self.finders@[k].passenger() == q;
                            let k2 = if k < i { k } else { k + 1 };
                            assert(self.finders@[k] == s[k2]);
                        }
                    }
                }
                Some(f)
            },
        }
    }

    /// Puts a finder back, unless it has finished.
    fn keep_finder(&mut self, f: DriverFinder)
        requires
            old(self).wf(),
            f.wf(),
            !old(self).has_finder_spec(f.passenger()),
        ensures
            final(self).wf(),
            final(self).has_finder_spec(f.passenger()) == f.active(),
            forall|q: u32| q != f.passenger() ==> (final(self).has_finder_spec(q) <==> old(self).has_finder_spec(q)),
            final(self).id_spec() == old(self).id_spec(),
            final(self).leader() == old(self).leader(),
            final(self).peers_spec() == old(self).peers_spec(),
            final(self).passengers_spec() == old(self).passengers_spec(),
            final(self).positions() == old(self).positions(),
            final(self).election_spec() == old(self).election_spec(),
            final(self).timeout_armed() == old(self).timeout_armed(),
    {
        if f.is_active() {
            let ghost s = self.finders@;
            self.finders.push(f);
            proof {
                assert(self.finders@[s.len() as int] == f);
                assert(self.finders_spec()[s.len() as int].passenger() == f.passenger());
                assert forall|q: u32| q != f.passenger() implies (self.has_finder_spec(q) <==> old(self).has_finder_spec(q)) by {
                    if self.has_finder_spec(q) {
                        let k = choose|k: int| 0 <= k < self.finders@.len() && self.finders@[k].passenger() == q;
                        assert(self.finders@[k] == s[k]);
                        assert(old(self).finders_spec()[k].passenger() == q);
                    }
                    if old(self).has_finder_spec(q) {
                        let k = choose|k: int| 0 <= k < s.len() && s[k].passenger() == q;
                        assert(self.finders@[k] == s[k]);
                        assert(self.finders_spec()[k].passenger() == q);
                    }
                }
                assert forall|k: int| 0 <= k < self.finders@.len() implies (
                #[trigger] self.finders@[k]).wf() by {
                    if k < s.len() {
                        assert(self.finders@[k] == s[k]);
                    }
                }
                assert forall|a: int, b: int|
                    0 <= a < b < self.finders@.len() implies self.finders@[a].passenger()
                    != self.finders@[b].passenger() by {
                    assert(self.finders@[a] == s[a]);
                    if b < s.len() {
                        assert(self.finders@[b] == s[b]);
                    } else if s[a].passenger() == f.passenger() {
                        assert(old(self).finders_spec()[a].passenger() == f.passenger());
                    }
                }
            }
        }
    }

    /// Carries out an offer of `pid`'s trip to driver `did`.
    fn route_offer(&self, pid: u32, src: Position, dst: Position, did: u32) -> (r: Vec<HubAction>)
        ensures
            r@ == offer_route(self.id_spec(), self.peers_spec(), pid, src, dst, did),
    {
        let mut r: Vec<HubAction> = Vec::new();
        if did == self.id {
            r.push(
                HubAction::Trip {
                    command: TripCommand::CanHandleTrip {
                        passenger_id: pid,
                        passenger_location: src,
                        destination: dst,
                    },
                },
            );
        } else if self.has_peer(did) {
            r.push(
                HubAction::SendToPeer {
                    peer_id: did,
                    message: DriverMessages::CanHandleTrip {
                        passenger_id: pid,
                        driver_id: did,
                        passenger_location: src,
                        destination: dst,
                    },
                },
            );
        }
        r
    }

    /// The hub's actions for what a finder asked for.
    fn route(&self, a: FinderAction, src: Position, dst: Position) -> (r: Vec<HubAction>)
        ensures
            r@ == routed(self.id_spec(), self.peers_spec(), a, src, dst),
    {
        match a {
            FinderAction::Offer { passenger_id, driver_id } => {
                let mut r = self.route_offer(passenger_id, src, dst, driver_id);
                r.push(HubAction::ArmOfferTimeout { passenger_id, driver_id });
                r
            },
            FinderAction::NoDrivers { passenger_id } => {
                let mut r: Vec<HubAction> = Vec::new();
                r.push(HubAction::ConnectAndNotify { passenger_id, notice: Notice::NoDriversNear });
                r
            },
            _ => Vec::new(),
        }
    }

    /// Forwards an offer of `passenger_id`'s trip to `driver_id`: to the
    /// local trip handler when it names this driver, else over its link.
    pub fn can_handle_trip(&self, msg: CanHandleTrip) -> (r: Vec<HubAction>)
        ensures
            r@ == offer_route(
                self.id_spec(),
                self.peers_spec(),
                msg.passenger_id,
                msg.source,
                msg.destination,
                msg.driver_id,
            ),
    {
        self.route_offer(msg.passenger_id, msg.source, msg.destination, msg.driver_id)
    }

    /// On the leader, starts a finder for the request (replacing any earlier
    /// one of the same passenger) and makes its first offer; elsewhere
    /// nothing.
    pub fn find_driver(&mut self, msg: FindDriver) -> (r: Vec<HubAction>)
        requires
            old(self).wf(),
        ensures
            final(self).wf(),
            same_links(*old(self), *final(self)),
            same_election(*old(self), *final(self)),
            final(self).positions() == old(self).positions(),
            !old(self).is_leader_spec() ==> r@.len() == 0 && final(self).finders_spec() == old(self).finders_spec(),
            old(self).is_leader_spec() ==> dispatch_started(*old(self), msg.passenger_id, msg.source, msg.destination, *final(self), r@),
    {
        let passenger_id = msg.passenger_id;
        let source = msg.source;
        let destination = msg.destination;
        if !self.im_leader() {
            return Vec::new();
        }
        let _ = self.take_finder(passenger_id);
        let mut f = DriverFinder::new(passenger_id, source, destination, &self.driver_positions);
        let ghost c = f.candidates();
        let a = f.ask_next();
        let r = self.route(a, source, destination);
        self.keep_finder(f);
        proof {
            assert(is_candidate_list(old(self).positions(), source, c));
        }
        r
    }

    /// A trip request from a passenger or a peer: the leader dispatches it;
    /// another driver forwards it to the leader; without a leader it is
    /// dropped.
    pub fn redirect_new_trip(&mut self, msg: RedirectNewTrip) -> (r: Vec<HubAction>)
        requires
            old(self).wf(),
        ensures
            final(self).wf(),
            redirect_transition(*old(self), msg, *final(self), r@),
    {
        let passenger_id = msg.passenger_id;
        let source = msg.source;
        let destination = msg.destination;
        match self.leader_id {
            None => Vec::new(),
            Some(lid) => {
                if lid == self.id {
                    self.find_driver(FindDriver { passenger_id, source, destination })
                } else {
                    let mut r: Vec<HubAction> = Vec::new();
                    if self.has_peer(lid) {
                        r.push(HubAction::SendToPeer {
                            peer_id: lid,
                            message: DriverMessages::TripRequest {
                                passenger_id,
                                passenger_location: source,
                                destination,
                            },
                        });
                    }
                    r
                }
            },
        }
    }

    /// A driver's answer to an offer. On the leader it goes to the finder of
    /// that passenger, and an acceptance ends that finder; elsewhere it is
    /// forwarded to the leader under this driver's id.
    pub fn can_handle_trip_ack(&mut self, msg: CanHandleTripACK) -> (r: Vec<HubAction>)
        requires
            old(self).wf(),
        ensures
            final(self).wf(),
            ack_hub_transition(*old(self), msg, *final(self), r@),
    {
        let passenger_id = msg.passenger_id;
        let response = msg.response;
        let driver_id = msg.driver_id;
        if self.im_leader() {
            match self.take_finder(passenger_id) {
                None => {
                    proof {
                        assert(Seq::<HubAction>::empty() == routed(self.id, self.peers@, FinderAction::Nothing, finder_source(*old(self), passenger_id), finder_destination(*old(self), passenger_id)));
                    }
                    Vec::new()
                },
                Some(mut f) => {
                    let ghost src = f.source_spec();
                    let ghost dst = f.destination_spec();
                    let a = f.on_ack(DriverACK { driver_id, response });
                    let r = self.route(a, f.source(), f.destination());
                    self.keep_finder(f);
                    proof {
                        assert(r@ == routed(old(self).id_spec(), old(self).peers_spec(), a, src, dst));
                    }
                    r
                },
            }
        } else {
            let mut r: Vec<HubAction> = Vec::new();
            match self.leader_id {
                None => {},
                Some(lid) => {
                    if self.has_peer(lid) {
                        r.push(HubAction::SendToPeer {
                            peer_id: lid,
                            message: DriverMessages::CanHandleTripACK {
                                response,
                                passenger_id,
                                driver_id: self.id,
                            },
                        });
                    }
                },
            }
            r
        }
    }

    /// The offer timeout for `driver_id` on `passenger_id`'s request fired:
    /// when that answer is still awaited, the finder moves on.
    pub fn offer_timeout(&mut self, passenger_id: u32, driver_id: u32) -> (r: Vec<HubAction>)
        requires
            old(self).wf(),
        ensures
            final(self).wf(),
            offer_timeout_transition(*old(self), passenger_id, driver_id, *final(self), r@),
    {
        match self.take_finder(passenger_id) {
            None => {
                proof {
                    assert(Seq::<HubAction>::empty() == routed(self.id, self.peers@, FinderAction::Nothing, finder_source(*old(self), passenger_id), finder_destination(*old(self), passenger_id)));
                }
                Vec::new()
            },
            Some(mut f) => {
                let ghost src = f.source_spec();
                let ghost dst = f.destination_spec();
                let a = f.on_timeout(driver_id);
                let r = self.route(a, f.source(), f.destination());
                self.keep_finder(f);
                proof {
                    assert(r@ == routed(old(self).id_spec(), old(self).peers_spec(), a, src, dst));
                }
                r
            },
        }
    }

    /// Drops the finder of `passenger_id`, if any.
    pub fn remove_driver_finder(&mut self, msg: RemoveDriverFinder)
        requires
            old(self).wf(),
        ensures
            final(self).wf(),
            !final(self).has_finder_spec(msg.passenger_id),
            forall|q: u32| q != msg.passenger_id ==> (final(self).has_finder_spec(q) <==> old(self).has_finder_spec(q)),
            final(self).id_spec() == old(self).id_spec(),
            final(self).leader() == old(self).leader(),
            final(self).peers_spec() == old(self).peers_spec(),
            final(self).positions() == old(self).positions(),
            final(self).id_spec() == old(self).id_spec(),
            final(self).leader() == old(self).leader(),
            final(self).peers_spec() == old(self).peers_spec(),
            final(self).passengers_spec() == old(self).passengers_spec(),
            final(self).positions() == old(self).positions(),
            final(self).election_spec() == old(self).election_spec(),
            final(self).timeout_armed() == old(self).timeout_armed(),
    {
        let passenger_id = msg.passenger_id;
        let _ = self.take_finder(passenger_id);
    }

    /// Whether a finder runs for `passenger_id`.
    pub fn has_finder(&self, passenger_id: u32) -> (r: bool)
        ensures
            r == self.has_finder_spec(passenger_id),
    {
        self.finder_index(passenger_id).is_some()
    }
}

impl CentralDriver {
    /// Serves a message that arrived on a peer link.
    pub fn handle_peer_message(&mut self, message: DriverMessages) -> (r: Vec<HubAction>)
        requires
            old(self).wf(),
        ensures
            final(self).wf(),
            match message {
                DriverMessages::Coordinator { leader_id } => coordinator_transition(*old(self), leader_id, *final(self), r@),
                DriverMessages::Election { sender_id } => election_transition(*old(self), sender_id, *final(self), r@),
                DriverMessages::Alive { .. } => alive_transition(*old(self), *final(self), r@),
                DriverMessages::NotifyPosition { driver_id, driver_position } => {
                    &&& r@.len() == 0
                    &&& final(self).positions() == old(self).positions().insert(driver_id, driver_position)
                    &&& same_links(*old(self), *final(self))
                    &&& same_election(*old(self), *final(self))
                    &&& final(self).finders_spec() == old(self).finders_spec()
                },
                DriverMessages::CanHandleTrip { passenger_id, driver_id, passenger_location, destination } => {
                    &&& *final(self) == *old(self)
                    &&& r@ == offer_route(old(self).id_spec(), old(self).peers_spec(), passenger_id, passenger_location, destination, driver_id)
                },
                DriverMessages::CanHandleTripACK { response, passenger_id, driver_id } => ack_hub_transition(
                    *old(self),
                    CanHandleTripACK { passenger_id, response, driver_id },
                    *final(self),
                    r@,
                ),
                DriverMessages::TripRequest { passenger_id, passenger_location, destination } => redirect_transition(
                    *old(self),
                    RedirectNewTrip { passenger_id, source: passenger_location, destination },
                    *final(self),
                    r@,
                ),
            },
    {
        match message {
            DriverMessages::Coordinator { leader_id } => self.on_coordinator(Coordinator { leader_id }),
            DriverMessages::Election { sender_id } => self.on_election(Election { sender_id }),
            DriverMessages::Alive { responder_id } => self.on_alive(Alive { responder_id }),
            DriverMessages::NotifyPosition { driver_id, driver_position } => {
                self.set_driver_position(SetDriverPosition { driver_id, driver_position });
                Vec::new()
            },
            DriverMessages::CanHandleTrip {
                passenger_id,
                driver_id,
                passenger_location,
                destination,
            } => self.can_handle_trip(
                CanHandleTrip { passenger_id, source: passenger_location, destination, driver_id },
            ),
            DriverMessages::CanHandleTripACK { response, passenger_id, driver_id } => {
                self.can_handle_trip_ack(CanHandleTripACK { passenger_id, response, driver_id })
            },
            DriverMessages::TripRequest { passenger_id, passenger_location, destination } => {
                self.redirect_new_trip(
                    RedirectNewTrip { passenger_id, source: passenger_location, destination },
                )
            },
        }
    }
}

impl CentralDriver {
    /// Records the direct channel to a passenger once the outside connection
    /// attempt is over: on success the passenger is remembered, else the
    /// attempt fails.
    pub fn connect_with_passenger(&mut self, msg: ConnectWithPassenger, connected: bool) -> (r: Result<(), ConnectError>)
        requires
            old(self).wf(),
        ensures
            final(self).wf(),
            connected ==> r.is_ok() && final(self).passengers_spec().to_set() == old(self).passengers_spec().to_set().insert(msg.passenger_id),
            !connected ==> r == Err::<(), ConnectError>(ConnectError::Unreachable { passenger_id: msg.passenger_id }) && final(self).passengers_spec() == old(self).passengers_spec(),
            final(self).peers_spec() == old(self).peers_spec(),
            final(self).leader() == old(self).leader(),
            final(self).id_spec() == old(self).id_spec(),
            final(self).id_spec() == old(self).id_spec(),
            final(self).leader() == old(self).leader(),
            final(self).peers_spec() == old(self).peers_spec(),
            final(self).positions() == old(self).positions(),
            final(self).finders_spec() == old(self).finders_spec(),
            final(self).election_spec() == old(self).election_spec(),
            final(self).timeout_armed() == old(self).timeout_armed(),
    {
        if connected {
            self.insert_passenger(msg.passenger_id);
            Ok(())
        } else {
            Err(ConnectError::Unreachable { passenger_id: msg.passenger_id })
        }
    }

    /// The trip response to write on a passenger's channel, when that
    /// channel is open.
    pub fn send_trip_response(&self, msg: SendTripResponse) -> (r: Option<TripMessages>)
        ensures
            self.passengers_spec().contains(msg.passenger_id) ==> r == Some(
                TripMessages::TripResponse { status: msg.status, detail: msg.detail },
            ),
            !self.passengers_spec().contains(msg.passenger_id) ==> r.is_none(),
    {
        if self.has_passenger(msg.passenger_id) {
            Some(TripMessages::TripResponse { status: msg.status, detail: msg.detail })
        } else {
            None
        }
    }

    /// The request that collects a passenger's fare for this driver.
    pub fn collect_money_passenger(&self, msg: CollectMoneyPassenger) -> (r: PaymentMessages)
        ensures
            r == (PaymentMessages::CollectPayment {
                driver_id: self.id_spec(),
                passenger_id: msg.passenger_id,
            }),
    {
        PaymentMessages::CollectPayment { driver_id: self.id, passenger_id: msg.passenger_id }
    }
}

/// Identity, peer links and passenger channels are as they were.
pub open spec fn same_links(pre: CentralDriver, post: CentralDriver) -> bool {
    &&& post.id_spec() == pre.id_spec()
    &&& post.peers_spec() == pre.peers_spec()
    &&& post.passengers_spec() == pre.passengers_spec()
}

/// Leader, election state and election timeout are as they were.
pub open spec fn same_election(pre: CentralDriver, post: CentralDriver) -> bool {
    &&& post.leader() == pre.leader()
    &&& post.election_spec() == pre.election_spec()
    &&& post.timeout_armed() == pre.timeout_armed()
}

/// The position table and the finders are as they were.
pub open spec fn same_dispatch(pre: CentralDriver, post: CentralDriver) -> bool {
    &&& post.positions() == pre.positions()
    &&& post.finders_spec() == pre.finders_spec()
}

/// What starting an election sends: the `Coordinator` broadcast when no peer
/// is higher, else `Election` to each higher peer and the timeout.
pub open spec fn election_actions(id: u32, peers: Seq<u32>) -> Seq<HubAction> {
    if declares_at_once(id, peers.to_set()) {
        broadcast(peers, DriverMessages::Coordinator { leader_id: id }).push(
            HubAction::Trip { command: TripCommand::ForceNotifyPosition },
        )
    } else {
        broadcast(higher_peers(peers, id), DriverMessages::Election { sender_id: id }).push(
            HubAction::ArmElectionTimeout,
        )
    }
}

/// The state after starting an election: leader at once when no peer is
/// higher, else electing with the timeout armed; nothing else changes.
pub open spec fn election_started(pre: CentralDriver, post: CentralDriver) -> bool {
    &&& same_links(pre, post)
    &&& same_dispatch(pre, post)
    &&& declares_at_once(pre.id_spec(), pre.peers_spec().to_set()) ==> {
        &&& post.leader() == Some(pre.id_spec())
        &&& post.election_spec() == ElectionState::Idle
        &&& !post.timeout_armed()
    }
    &&& !declares_at_once(pre.id_spec(), pre.peers_spec().to_set()) ==> {
        &&& post.leader().is_none()
        &&& post.election_spec() == ElectionState::Electing
        &&& post.timeout_armed()
    }
}

/// The `Alive` answer to a lower driver's election, when its link is open.
pub open spec fn alive_reply(pre: CentralDriver, sender_id: u32) -> Seq<HubAction> {
    if pre.peers_spec().contains(sender_id) {
        seq![
            HubAction::SendToPeer {
                peer_id: sender_id,
                message: DriverMessages::Alive { responder_id: pre.id_spec() },
            },
        ]
    } else {
        Seq::empty()
    }
}

/// Handling `Election { sender_id }`.
pub open spec fn election_transition(pre: CentralDriver, sender_id: u32, post: CentralDriver, r: Seq<HubAction>) -> bool {
    if pre.id_spec() > sender_id {
        &&& election_started(pre, post)
        &&& r =~= alive_reply(pre, sender_id) + election_actions(pre.id_spec(), pre.peers_spec())
    } else {
        post == pre && r.len() == 0
    }
}

/// Handling `Alive`: the election timeout is cancelled and an election in
/// progress waits for its coordinator.
pub open spec fn alive_transition(pre: CentralDriver, post: CentralDriver, r: Seq<HubAction>) -> bool {
    &&& same_links(pre, post)
    &&& same_dispatch(pre, post)
    &&& post.leader() == pre.leader()
    &&& !post.timeout_armed()
    &&& r =~= (if pre.timeout_armed() {
        seq![HubAction::CancelElectionTimeout]
    } else {
        Seq::empty()
    })
    &&& post.election_spec() == (if pre.election_spec() == ElectionState::Electing {
        ElectionState::WaitingForCoordinator
    } else {
        pre.election_spec()
    })
}

/// Handling `Coordinator { leader_id }`.
pub open spec fn coordinator_transition(pre: CentralDriver, leader_id: u32, post: CentralDriver, r: Seq<HubAction>) -> bool {
    &&& same_links(pre, post)
    &&& same_dispatch(pre, post)
    &&& post.leader() == Some(leader_id)
    &&& post.election_spec() == ElectionState::Idle
    &&& !post.timeout_armed()
    &&& r =~= (if pre.timeout_armed() {
        seq![
            HubAction::CancelElectionTimeout,
            HubAction::Trip { command: TripCommand::ForceNotifyPosition },
        ]
    } else {
        seq![HubAction::Trip { command: TripCommand::ForceNotifyPosition }]
    })
}

/// The leader's dispatch of a new request: a finder for `pid` whose first
/// offer goes to the nearest candidate, or "no drivers near" when there is
/// none; the other finders stay.
pub open spec fn dispatch_started(pre: CentralDriver, pid: u32, src: Position, dst: Position, post: CentralDriver, r: Seq<HubAction>) -> bool {
    &&& exists|c: Seq<u32>| {
        &&& is_candidate_list(pre.positions(), src, c)
        &&& c.len() > 0 ==> post.has_finder_spec(pid) && r == routed(
            pre.id_spec(),
            pre.peers_spec(),
            FinderAction::Offer { passenger_id: pid, driver_id: c[0] },
            src,
            dst,
        )
        &&& c.len() == 0 ==> !post.has_finder_spec(pid) && r == seq![
            HubAction::ConnectAndNotify { passenger_id: pid, notice: Notice::NoDriversNear },
        ]
    }
    &&& forall|q: u32| q != pid ==> (post.has_finder_spec(q) <==> pre.has_finder_spec(q))
}

/// The forwarding of a message to the leader's link, when the leader is
/// another driver whose link is open.
pub open spec fn to_leader(pre: CentralDriver, m: DriverMessages) -> Seq<HubAction> {
    if pre.leader().is_some() && !pre.is_leader_spec() && pre.peers_spec().contains(pre.leader().unwrap()) {
        seq![HubAction::SendToPeer { peer_id: pre.leader().unwrap(), message: m }]
    } else {
        Seq::empty()
    }
}

/// Handling a trip request.
pub open spec fn redirect_transition(pre: CentralDriver, msg: RedirectNewTrip, post: CentralDriver, r: Seq<HubAction>) -> bool {
    &&& same_links(pre, post)
    &&& same_election(pre, post)
    &&& post.positions() == pre.positions()
    &&& !pre.is_leader_spec() ==> post.finders_spec() == pre.finders_spec() && r =~= to_leader(
        pre,
        DriverMessages::TripRequest {
            passenger_id: msg.passenger_id,
            passenger_location: msg.source,
            destination: msg.destination,
        },
    )
    &&& pre.is_leader_spec() ==> dispatch_started(pre, msg.passenger_id, msg.source, msg.destination, post, r)
}

/// Handling a driver's answer to an offer.
pub open spec fn ack_hub_transition(pre: CentralDriver, msg: CanHandleTripACK, post: CentralDriver, r: Seq<HubAction>) -> bool {
    &&& same_links(pre, post)
    &&& same_election(pre, post)
    &&& post.positions() == pre.positions()
    &&& !pre.is_leader_spec() ==> post.finders_spec() == pre.finders_spec() && r =~= to_leader(
        pre,
        DriverMessages::CanHandleTripACK {
            response: msg.response,
            passenger_id: msg.passenger_id,
            driver_id: pre.id_spec(),
        },
    )
    &&& pre.is_leader_spec() && !pre.has_finder_spec(msg.passenger_id) ==> post.finders_spec()
        == pre.finders_spec() && r.len() == 0
    &&& pre.is_leader_spec() && pre.has_finder_spec(msg.passenger_id) ==> exists|f: DriverFinder, a: FinderAction| {
        &&& ack_transition(
            pre.finders_spec()[finder_slot(pre, msg.passenger_id)],
            DriverACK { driver_id: msg.driver_id, response: msg.response },
            f,
            a,
        )
        &&& r == routed(
            pre.id_spec(),
            pre.peers_spec(),
            a,
            finder_source(pre, msg.passenger_id),
            finder_destination(pre, msg.passenger_id),
        )
        &&& post.has_finder_spec(msg.passenger_id) <==> f.active()
    }
    &&& pre.is_leader_spec() ==> forall|q: u32| q != msg.passenger_id ==> (post.has_finder_spec(q) <==> pre.has_finder_spec(q))
}

/// Handling the expiry of the offer of `passenger_id`'s trip to `driver_id`.
pub open spec fn offer_timeout_transition(pre: CentralDriver, passenger_id: u32, driver_id: u32, post: CentralDriver, r: Seq<HubAction>) -> bool {
    &&& same_links(pre, post)
    &&& same_election(pre, post)
    &&& post.positions() == pre.positions()
    &&& !pre.has_finder_spec(passenger_id) ==> post.finders_spec() == pre.finders_spec() && r.len() == 0
    &&& pre.has_finder_spec(passenger_id) ==> exists|f: DriverFinder, a: FinderAction| {
        &&& timeout_transition(pre.finders_spec()[finder_slot(pre, passenger_id)], driver_id, f, a)
        &&& r == routed(
            pre.id_spec(),
            pre.peers_spec(),
            a,
            finder_source(pre, passenger_id),
            finder_destination(pre, passenger_id),
        )
        &&& post.has_finder_spec(passenger_id) <==> f.active()
    }
    &&& forall|q: u32| q != passenger_id ==> (post.has_finder_spec(q) <==> pre.has_finder_spec(q))
}

/// Pickup point of the request that `pid`'s finder works on.
pub open spec fn finder_source(h: CentralDriver, pid: u32) -> Position {
    h.finders_spec()[finder_slot(h, pid)].source_spec()
}

/// Destination of the request that `pid`'s finder works on.
pub open spec fn finder_destination(h: CentralDriver, pid: u32) -> Position {
    h.finders_spec()[finder_slot(h, pid)].destination_spec()
}

/// Where `pid`'s finder stands among the hub's finders.
pub open spec fn finder_slot(h: CentralDriver, pid: u32) -> int {
    choose|i: int| 0 <= i < h.finders_spec().len() && h.finders_spec()[i].passenger() == pid
}

proof fn lemma_finder_request(h: CentralDriver, pid: u32)
    requires
        h.wf(),
        h.has_finder_spec(pid),
    ensures
        forall|i: int| 0 <= i < h.finders_spec().len() && h.finders_spec()[i].passenger() == pid ==> finder_source(h, pid) == h.finders_spec()[i].source_spec() && finder_destination(h, pid) == h.finders_spec()[i].destination_spec(),
{
    let k = finder_slot(h, pid);
    assert forall|i: int| 0 <= i < h.finders_spec().len() && h.finders_spec()[i].passenger() == pid implies i == k by {
        if i != k {
            if i < k {
                assert(h.finders@[i].passenger() != h.finders@[k].passenger());
            } else {
                assert(h.finders@[k].passenger() != h.finders@[i].passenger());
            }
        }
    }
}

} // verus!
