use rayon::slice::ParallelSliceMut;
use vstd::prelude::*;
use crate::position::{Position, grid_distance};
use crate::table::PositionTable;

verus! {

/// Largest distance from the pickup point at which a driver is offered a trip.
pub const MAX_DISTANCE: u32 = 10;

/// Strict lexicographic order on `(distance, driver id)` pairs.
pub open spec fn pair_lt(a: (u32, u32), b: (u32, u32)) -> bool {
    a.0 < b.0 || (a.0 == b.0 && a.1 < b.1)
}

pub open spec fn sorted_pairs(s: Seq<(u32, u32)>) -> bool {
    forall|i: int, j: int| 0 <= i < j < s.len() ==> pair_lt(s[i], s[j]) || s[i] == s[j]
}

/// The ranking key of driver `id` for a request picked up at `source`.
pub open spec fn rank_key(table: Map<u32, Position>, source: Position, id: u32) -> (u32, u32) {
    (grid_distance(table[id], source), id)
}

/// Whether a driver may be offered a trip picked up at `source`.
pub open spec fn is_nearby(table: Map<u32, Position>, source: Position, id: u32) -> bool {
    table.contains_key(id) && grid_distance(table[id], source) <= MAX_DISTANCE
}

/// `r` lists exactly the nearby drivers, by increasing distance, ties by
/// increasing id.
pub open spec fn is_candidate_list(table: Map<u32, Position>, source: Position, r: Seq<u32>) -> bool {
    &&& forall|i: int| 0 <= i < r.len() ==> is_nearby(table, source, #[trigger] r[i])
    &&& forall|id: u32| is_nearby(table, source, id) ==> r.contains(id)
    &&& forall|i: int, j: int|
        0 <= i < j < r.len() ==> pair_lt(
            rank_key(table, source, r[i]),
            rank_key(table, source, r[j]),
        )
}

/// Relies on rayon's ParallelSliceMut::par_sort: the slice is permuted into
/// the order of `Ord`, which for tuples is lexicographic.
#[verifier::external_body]
fn par_sort_pairs(v: &mut Vec<(u32, u32)>)
    ensures
        final(v)@.to_multiset() == old(v)@.to_multiset(),
        sorted_pairs(final(v)@),
{
    v.par_sort();
}

/// The drivers of `table` within `MAX_DISTANCE` of `source`, nearest first,
/// ties broken by lower id.
pub fn filter_nearby_drivers(source: &Position, table: &PositionTable) -> (r: Vec<u32>)
    requires
        table.wf(),
    ensures
        is_candidate_list(table@, *source, r@),
{
    let mut pairs = table.distances_within(source, MAX_DISTANCE);
    let ghost before = pairs@;
    let ghost m = table@;
    proof {
        assert(before.no_duplicates()) by {
            assert forall|a: int, b: int| 0 <= a < before.len() && 0 <= b < before.len() && a
                != b implies before[a] != before[b] by {
                let ids = before.map_values(|p: (u32, u32)| p.1);
                assert(ids[a] == before[a].1 && ids[b] == before[b].1);
            }
        }
    }
    par_sort_pairs(&mut pairs);
    let ghost after = pairs@;
    proof {
        broadcast use vstd::seq_lib::group_to_multiset_ensures;
        before.lemma_multiset_has_no_duplicates();
        assert forall|x: (u32, u32)| after.to_multiset().contains(x) implies after.to_multiset().count(x) == 1 by {}
        after.lemma_multiset_has_no_duplicates_conv();
        assert forall|k: int| 0 <= k < after.len() implies #[trigger] before.contains(after[k]) by {
            assert(after.contains(after[k]));
            assert(after.to_multiset().count(after[k]) > 0);
        }
        assert forall|x: (u32, u32)| before.contains(x) implies after.contains(x) by {
            assert(before.to_multiset().count(x) > 0);
        }
    }
    let mut r: Vec<u32> = Vec::new();
    let mut i: usize = 0;
    while i < pairs.len()
        invariant
            pairs@ == after,
            0 <= i <= after.len(),
            r@.len() == i,
            forall|k: int| 0 <= k < i ==> r@[k] == after[k].1,
        decreases after.len() - i,
    {
        r.push(pairs[i].1);
        i += 1;
    }
    proof {
        assert forall|k: int| 0 <= k < after.len() implies m.contains_key(#[trigger] after[k].1)
            && after[k].0 == grid_distance(m[after[k].1], *source) && after[k].0
            <= MAX_DISTANCE by {
            assert(before.contains(after[k]));
            let j = choose|j: int| 0 <= j < before.len() && before[j] == after[k];
        }
        assert forall|id: u32| is_nearby(m, *source, id) implies r@.contains(id) by {
            let j = choose|j: int| 0 <= j < before.len() && #[trigger] before[j].1 == id;
            assert(before.contains(before[j]));
            assert(after.contains(before[j]));
            let k = choose|k: int| 0 <= k < after.len() && after[k] == before[j];
            assert(r@[k] == id);
        }
        assert forall|a: int, b: int| 0 <= a < b < r@.len() implies pair_lt(
            rank_key(m, *source, r@[a]),
            rank_key(m, *source, r@[b]),
        ) by {
            assert(after[a] != after[b]);
            assert(rank_key(m, *source, r@[a]) == after[a]);
            assert(rank_key(m, *source, r@[b]) == after[b]);
        }
    }
    r
}

/// A driver's answer to the offer of a finder.
#[derive(Debug, Clone, Copy, PartialEq, Eq, Structural)]
pub struct DriverACK {
    pub driver_id: u32,
    pub response: bool,
}

/// What the leader does next on behalf of one dispatch.
#[derive(Debug, Clone, Copy, PartialEq, Eq, Structural)]
pub enum FinderAction {
    /// Send `CanHandleTrip` to this driver and arm the offer timeout.
    Offer { passenger_id: u32, driver_id: u32 },
    /// No candidate is left: tell the passenger that no driver is near,
    /// then remove the finder.
    NoDrivers { passenger_id: u32 },
    /// A driver took the trip: remove the finder.
    Accepted { passenger_id: u32, driver_id: u32 },
    /// Nothing to do.
    Nothing,
}

/// How a finder answers a driver's reply: an acceptance ends an active
/// search; a refusal from the awaited driver moves on; anything else
/// changes nothing.
pub open spec fn ack_transition(pre: DriverFinder, msg: DriverACK, post: DriverFinder, r: FinderAction) -> bool {
    &&& post.candidates() == pre.candidates()
    &&& post.passenger() == pre.passenger()
    &&& post.source_spec() == pre.source_spec()
    &&& post.destination_spec() == pre.destination_spec()
    &&& post.snapshot_spec() == pre.snapshot_spec()
    &&& msg.response && pre.active() ==> {
        &&& r == (FinderAction::Accepted {
            passenger_id: pre.passenger(),
            driver_id: msg.driver_id,
        })
        &&& !post.active()
        &&& post.offered_count() == pre.offered_count()
        &&& post.awaiting_spec().is_none()
    }
    &&& !pre.active() ==> r == FinderAction::Nothing && post == pre
    &&& !msg.response && pre.awaiting_spec() != Some(msg.driver_id) ==> r == FinderAction::Nothing
        && post == pre
    &&& !msg.response && pre.active() && pre.awaiting_spec() == Some(msg.driver_id)
        && pre.offered_count() < pre.candidates().len() ==> {
        &&& r == (FinderAction::Offer {
            passenger_id: pre.passenger(),
            driver_id: pre.candidates()[pre.offered_count() as int],
        })
        &&& post.offered_count() == pre.offered_count() + 1
        &&& post.awaiting_spec() == Some(pre.candidates()[pre.offered_count() as int])
        &&& post.active()
    }
    &&& !msg.response && pre.active() && pre.awaiting_spec() == Some(msg.driver_id)
        && pre.offered_count() == pre.candidates().len() ==> {
        &&& r == (FinderAction::NoDrivers { passenger_id: pre.passenger() })
        &&& !post.active()
        &&& post.offered_count() == pre.offered_count()
    }
}

/// How a finder handles the expiry of the offer made to `driver_id`: when
/// that answer is still awaited it moves on to the next candidate, or
/// reports that none is left; a stale expiry changes nothing.
pub open spec fn timeout_transition(pre: DriverFinder, driver_id: u32, post: DriverFinder, r: FinderAction) -> bool {
    &&& post.candidates() == pre.candidates()
    &&& post.passenger() == pre.passenger()
    &&& post.source_spec() == pre.source_spec()
    &&& post.destination_spec() == pre.destination_spec()
    &&& post.snapshot_spec() == pre.snapshot_spec()
    &&& pre.awaiting_spec() != Some(driver_id) ==> r == FinderAction::Nothing && post == pre
    &&& pre.awaiting_spec() == Some(driver_id) && pre.offered_count() < pre.candidates().len() ==> {
        &&& r == (FinderAction::Offer {
            passenger_id: pre.passenger(),
            driver_id: pre.candidates()[pre.offered_count() as int],
        })
        &&& post.offered_count() == pre.offered_count() + 1
        &&& post.awaiting_spec() == Some(pre.candidates()[pre.offered_count() as int])
        &&& post.active()
    }
    &&& pre.awaiting_spec() == Some(driver_id) && pre.offered_count() == pre.candidates().len() ==> {
        &&& r == (FinderAction::NoDrivers { passenger_id: pre.passenger() })
        &&& !post.active()
        &&& post.awaiting_spec().is_none()
        &&& post.offered_count() == pre.offered_count()
    }
}

/// The leader's offer sequencer for one passenger request.
pub struct DriverFinder {
    passenger_id: Option<u32>,
    request: u32,
    source: Position,
    destination: Position,
    nearby_drivers: Vec<u32>,
    next: usize,
    awaiting: Option<u32>,
    snapshot: Ghost<Map<u32, Position>>,
}

impl DriverFinder {
    /// The candidate queue, nearest first.
    pub closed spec fn candidates(&self) -> Seq<u32> {
        self.nearby_drivers@
    }

    /// How many candidates have been offered the trip so far.
    pub closed spec fn offered_count(&self) -> nat {
        self.next as nat
    }

    /// The candidates offered so far, in the order of the offers.
    pub open spec fn offered(&self) -> Seq<u32> {
        self.candidates().take(self.offered_count() as int)
    }

    /// The driver whose answer is awaited, if any.
    pub closed spec fn awaiting_spec(&self) -> Option<u32> {
        self.awaiting
    }

    /// Whether the finder is still looking for a driver.
    pub closed spec fn active(&self) -> bool {
        self.passenger_id.is_some()
    }

    /// The passenger this finder works for.
    pub closed spec fn passenger(&self) -> u32 {
        self.request
    }

    pub closed spec fn source_spec(&self) -> Position {
        self.source
    }

    pub closed spec fn destination_spec(&self) -> Position {
        self.destination
    }

    /// The position table from which the candidates were drawn.
    pub closed spec fn snapshot_spec(&self) -> Map<u32, Position> {
        self.snapshot@
    }

    pub closed spec fn wf(&self) -> bool {
        &&& is_candidate_list(self.snapshot@, self.source, self.nearby_drivers@)
        &&& self.next <= self.nearby_drivers@.len()
        &&& self.passenger_id.is_some() ==> self.passenger_id == Some(self.request)
        &&& self.awaiting.is_some() ==> self.next > 0 && self.awaiting == Some(
            self.nearby_drivers@[self.next - 1],
        ) && self.passenger_id.is_some()
    }

    /// A finder for `passenger_id` whose candidates are the drivers of
    /// `driver_positions` near `source`.
    pub fn new(
        passenger_id: u32,
        source: Position,
        destination: Position,
        driver_positions: &PositionTable,
    ) -> (r: Self)
        requires
            driver_positions.wf(),
        ensures
            r.wf(),
            r.active(),
            r.passenger() == passenger_id,
            r.source_spec() == source,
            r.destination_spec() == destination,
            r.snapshot_spec() == driver_positions@,
            is_candidate_list(driver_positions@, source, r.candidates()),
            r.offered_count() == 0,
            r.awaiting_spec().is_none(),
    {
        let nearby_drivers = filter_nearby_drivers(&source, driver_positions);
        DriverFinder {
            passenger_id: Some(passenger_id),
            request: passenger_id,
            source,
            destination,
            nearby_drivers,
            next: 0,
            awaiting: None,
            snapshot: Ghost(driver_positions@),
        }
    }

    /// The passenger this finder works for.
    pub fn passenger_id(&self) -> (r: u32)
        ensures
            r == self.passenger(),
    {
        self.request
    }

    /// Whether the finder is still looking for a driver.
    pub fn is_active(&self) -> (r: bool)
        ensures
            r == self.active(),
    {
        self.passenger_id.is_some()
    }

    /// Pickup point of the request.
    pub fn source(&self) -> (r: Position)
        ensures
            r == self.source_spec(),
    {
        self.source
    }

    /// Destination of the request.
    pub fn destination(&self) -> (r: Position)
        ensures
            r == self.destination_spec(),
    {
        self.destination
    }

    /// Offers the trip to the next candidate, or reports that none is left.
    pub fn ask_next(&mut self) -> (r: FinderAction)
        requires
            old(self).wf(),
        ensures
            final(self).wf(),
            final(self).candidates() == old(self).candidates(),
            final(self).passenger() == old(self).passenger(),
            final(self).source_spec() == old(self).source_spec(),
            final(self).destination_spec() == old(self).destination_spec(),
            final(self).snapshot_spec() == old(self).snapshot_spec(),
            !old(self).active() ==> r == FinderAction::Nothing && *final(self) == *old(self),
            old(self).active() && old(self).offered_count() < old(self).candidates().len() ==> {
                &&& r == (FinderAction::Offer {
                    passenger_id: old(self).passenger(),
                    driver_id: old(self).candidates()[old(self).offered_count() as int],
                })
                &&& final(self).offered_count() == old(self).offered_count() + 1
                &&& final(self).awaiting_spec() == Some(
                    old(self).candidates()[old(self).offered_count() as int],
                )
                &&& final(self).active()
            },
            old(self).active() && old(self).offered_count() == old(self).candidates().len() ==> {
                &&& r == (FinderAction::NoDrivers { passenger_id: old(self).passenger() })
                &&& final(self).offered_count() == old(self).offered_count()
                &&& !final(self).active()
                &&& final(self).awaiting_spec().is_none()
            },
    {
        match self.passenger_id {
            None => FinderAction::Nothing,
            Some(pid) => {
                if self.next < self.nearby_drivers.len() {
                    let did = self.nearby_drivers[self.next];
                    self.next = self.next + 1;
                    self.awaiting = Some(did);
                    FinderAction::Offer { passenger_id: pid, driver_id: did }
                } else {
                    self.passenger_id = None;
                    self.awaiting = None;
                    FinderAction::NoDrivers { passenger_id: pid }
                }
            },
        }
    }

    /// Handles a driver's answer to an offer. A refusal from the driver
    /// whose answer is awaited moves on to the next candidate; an
    /// acceptance ends the search; any other answer is ignored.
    pub fn on_ack(&mut self, msg: DriverACK) -> (r: FinderAction)
        requires
            old(self).wf(),
        ensures
            final(self).wf(),
            ack_transition(*old(self), msg, *final(self), r),
    {
        let driver_id = msg.driver_id;
        let response = msg.response;
        if response {
            match self.passenger_id {
                None => FinderAction::Nothing,
                Some(pid) => {
                    self.passenger_id = None;
                    self.awaiting = None;
                    FinderAction::Accepted { passenger_id: pid, driver_id }
                },
            }
        } else {
            match self.awaiting {
                Some(d) => {
                    if d == driver_id {
                        self.ask_next()
                    } else {
                        FinderAction::Nothing
                    }
                },
                None => FinderAction::Nothing,
            }
        }
    }

    /// Handles the expiry of the offer made to `driver_id`: when that
    /// driver's answer is still awaited, the next candidate is asked.
    pub fn on_timeout(&mut self, driver_id: u32) -> (r: FinderAction)
        requires
            old(self).wf(),
        ensures
            final(self).wf(),
            timeout_transition(*old(self), driver_id, *final(self), r),
    {
        match self.awaiting {
            Some(d) => {
                if d == driver_id {
                    self.ask_next()
                } else {
                    FinderAction::Nothing
                }
            },
            None => FinderAction::Nothing,
        }
    }
}

/// The drivers offered a trip so far were offered in order of
/// non-decreasing distance to the pickup point, and none twice.
pub proof fn lemma_offers_ordered(f: &DriverFinder)
    requires
        f.wf(),
    ensures
        forall|i: int, j: int|
            0 <= i < j < f.offered().len() ==> grid_distance(
                f.snapshot_spec()[f.offered()[i]],
                f.source_spec(),
            ) <= grid_distance(f.snapshot_spec()[f.offered()[j]], f.source_spec()),
        f.offered().no_duplicates(),
{
    let c = f.candidates();
    let m = f.snapshot_spec();
    let s = f.source_spec();
    assert forall|i: int, j: int| 0 <= i < j < f.offered().len() implies grid_distance(
        m[f.offered()[i]],
        s,
    ) <= grid_distance(m[f.offered()[j]], s) by {
        assert(pair_lt(rank_key(m, s, c[i]), rank_key(m, s, c[j])));
    }
    assert forall|i: int, j: int|
        0 <= i < f.offered().len() && 0 <= j < f.offered().len() && i != j implies f.offered()[i]
        != f.offered()[j] by {
        if i < j {
            assert(pair_lt(rank_key(m, s, c[i]), rank_key(m, s, c[j])));
        } else {
            assert(pair_lt(rank_key(m, s, c[j]), rank_key(m, s, c[i])));
        }
    }
}


proof fn lemma_stays_finished(fs: Seq<DriverFinder>, acks: Seq<DriverACK>, outs: Seq<FinderAction>, k: int)
    requires
        fs.len() == acks.len() + 1,
        outs.len() == acks.len(),
        forall|i: int| 0 <= i < acks.len() ==> ack_transition(fs[i], acks[i], fs[i + 1], #[trigger] outs[i]),
        0 <= k < fs.len(),
        !fs[k].active(),
        fs[k].awaiting_spec().is_none(),
    ensures
        forall|m: int| k <= m < fs.len() ==> !(#[trigger] fs[m]).active() && fs[m].awaiting_spec().is_none(),
    decreases fs.len() - k,
{
    if k + 1 < fs.len() {
        assert(ack_transition(fs[k], acks[k], fs[k + 1], outs[k]));
        lemma_stays_finished(fs, acks, outs, k + 1);
    }
}

/// Within one dispatch, when every answer comes from the driver whose
/// answer is awaited (no offer has timed out), at most one answer accepts
/// the trip: after an acceptance no driver's answer is awaited any more.
pub proof fn lemma_one_acceptance_per_dispatch(
    fs: Seq<DriverFinder>,
    acks: Seq<DriverACK>,
    outs: Seq<FinderAction>,
)
    requires
        fs.len() == acks.len() + 1,
        outs.len() == acks.len(),
        forall|i: int| 0 <= i < fs.len() ==> (#[trigger] fs[i]).wf(),
        forall|i: int| 0 <= i < acks.len() ==> ack_transition(fs[i], acks[i], fs[i + 1], #[trigger] outs[i]),
        forall|i: int| 0 <= i < acks.len() ==> #[trigger] fs[i].awaiting_spec() == Some(acks[i].driver_id),
    ensures
        forall|i: int, j: int| 0 <= i < j < acks.len() ==> !(acks[i].response && acks[j].response),
{
    assert forall|i: int, j: int| 0 <= i < j < acks.len() implies !(acks[i].response && acks[j].response) by {
        if acks[i].response {
            assert(fs[i].wf());
            assert(fs[i].awaiting_spec() == Some(acks[i].driver_id));
            assert(ack_transition(fs[i], acks[i], fs[i + 1], outs[i]));
            lemma_stays_finished(fs, acks, outs, i + 1);
            assert(fs[j].awaiting_spec().is_none());
            assert(fs[j].awaiting_spec() == Some(acks[j].driver_id));
        }
    }
}

} // verus!
