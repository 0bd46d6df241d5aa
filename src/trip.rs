use vstd::prelude::*;
use crate::messages::Notice;
use crate::position::{
    Position,
    drifted,
    in_grid,
    infinity_spec,
    stepped,
    random_between,
    MAX_DRIFT,
    MAX_STEP,
};

verus! {

/// Which point a committed driver is heading for.
#[derive(Debug, Clone, Copy, PartialEq, Eq, Structural)]
pub enum Leg {
    ToPickup,
    ToDestination,
}

/// A trip this driver committed to.
#[derive(Debug, Clone, Copy, PartialEq, Eq, Structural)]
pub struct Trip {
    pub passenger_id: u32,
    pub pickup: Position,
    pub destination: Position,
    pub current: Position,
    pub leg: Leg,
}

/// Where a trip on the given leg heads.
pub open spec fn leg_target(t: Trip) -> Position {
    match t.leg {
        Leg::ToPickup => t.pickup,
        Leg::ToDestination => t.destination,
    }
}

/// What the driver process does after a trip event.
#[derive(Debug, Clone, Copy, PartialEq, Eq, Structural)]
pub enum TripAction {
    /// Write a trip response to the passenger.
    Respond { passenger_id: u32, notice: Notice },
    /// Publish this position to the leader.
    NotifyPosition { position: Position },
    /// Run the next movement tick after the trip step delay.
    ScheduleStep,
    /// Ask the payment service to collect the fare.
    CollectMoney { passenger_id: u32 },
    /// Answer the leader's offer.
    Ack { passenger_id: u32, response: bool, driver_id: u32 },
}

/// The leader offers this driver a trip.
#[derive(Debug, Clone, Copy, PartialEq, Eq, Structural)]
pub struct CanHandleTrip {
    pub passenger_id: u32,
    pub passenger_location: Position,
    pub destination: Position,
    pub self_id: u32,
}

/// Drop the trip of a passenger, if it is the current one.
#[derive(Debug, Clone, Copy, PartialEq, Eq, Structural)]
pub struct ClearPassenger {
    /// Whether the passenger's channel closed (rather than the trip ending).
    pub disconnected: bool,
    pub passenger_id: u32,
}

/// Publish the position now.
#[derive(Debug, Clone, Copy, PartialEq, Eq, Structural)]
pub struct ForceNotifyPosition {}

/// The per-driver trip state machine: idle with a drifting position, or
/// committed to one passenger.
#[derive(Debug, Clone, Copy, PartialEq, Eq, Structural)]
pub struct TripHandler {
    pub self_id: u32,
    /// Position while idle.
    pub location: Position,
    pub trip: Option<Trip>,
    /// Deterministic mode: the idle position does not drift.
    pub test_mode: bool,
}

/// Where a driver with this id starts in deterministic mode.
pub open spec fn test_start(id: u32) -> Position {
    Position { x: (5 * id) as u32, y: (5 * id) as u32 }
}

/// One movement tick with per-axis steps `sx`, `sy`: `r` is what the
/// driver process does next.
pub open spec fn step_transition(pre: TripHandler, sx: u32, sy: u32, post: TripHandler, r: Seq<TripAction>) -> bool {
    &&& pre.trip.is_none() ==> post == pre && r.len() == 0
    &&& pre.trip.is_some() ==> ({
        let t = pre.trip.unwrap();
        let next = stepped(t.current, leg_target(t), sx, sy);
        if t.leg == Leg::ToPickup && next == t.pickup {
            &&& post.trip == Some(
                Trip { current: next, leg: Leg::ToDestination, ..t },
            )
            &&& post.location == pre.location
            &&& r =~= seq![
                TripAction::Respond {
                    passenger_id: t.passenger_id,
                    notice: Notice::AtYourDoor,
                },
                TripAction::ScheduleStep,
            ]
        } else if t.leg == Leg::ToDestination && next == t.destination {
            &&& post.trip.is_none()
            &&& post.location == next
            &&& r =~= seq![
                TripAction::Respond { passenger_id: t.passenger_id, notice: Notice::Arrived },
                TripAction::CollectMoney { passenger_id: t.passenger_id },
            ]
        } else {
            &&& post.trip == Some(Trip { current: next, ..t })
            &&& post.location == pre.location
            &&& r =~= seq![TripAction::ScheduleStep]
        }
    })
    &&& post.self_id == pre.self_id
    &&& post.test_mode == pre.test_mode
}

impl TripHandler {
    /// An idle driver: at `(5·id, 5·id)` in deterministic mode, else at a
    /// random in-grid position.
    pub fn new(self_id: u32, test_mode: bool) -> (r: Self)
        requires
            test_mode ==> 5 * self_id <= u32::MAX,
        ensures
            r.self_id == self_id,
            r.trip.is_none(),
            r.test_mode == test_mode,
            test_mode ==> r.location == test_start(self_id),
            !test_mode ==> r.location.x < 100 && r.location.y < 100,
    {
        let location = if test_mode {
            Position::new(self_id * 5, self_id * 5)
        } else {
            Position::random()
        };
        TripHandler { self_id, location, trip: None, test_mode }
    }

    /// The position to publish on a periodic report, given the drift drawn
    /// for this period: infinity while committed to a trip; else the idle
    /// position, drifted unless in deterministic mode.
    pub fn report_position(&mut self, dx: i32, dy: i32) -> (r: Position)
        ensures
            old(self).trip.is_some() ==> r == infinity_spec() && *final(self) == *old(self),
            old(self).trip.is_none() && old(self).test_mode ==> r == old(self).location
                && *final(self) == *old(self),
            old(self).trip.is_none() && !old(self).test_mode ==> r == drifted(
                old(self).location,
                dx as int,
                dy as int,
            ) && *final(self) == (TripHandler { location: r, ..*old(self) }),
    {
        if self.trip.is_some() {
            return Position::infinity();
        }
        if !self.test_mode {
            self.location.drift(dx, dy);
        }
        self.location
    }

    /// Publishes the position now, as the periodic report does.
    pub fn force_notify_position(&mut self, _msg: ForceNotifyPosition) -> (r: Position)
        ensures
            old(self).trip.is_some() ==> r == infinity_spec(),
            old(self).trip.is_none() && old(self).test_mode ==> r == old(self).location,
            old(self).trip.is_none() && !old(self).test_mode ==> in_grid(r) && exists|
                dx: int,
                dy: int,
            |
                -MAX_DRIFT <= dx <= MAX_DRIFT && -MAX_DRIFT <= dy <= MAX_DRIFT && r == drifted(
                    old(self).location,
                    dx,
                    dy,
                ),
            final(self).trip == old(self).trip,
            old(self).trip.is_some() ==> *final(self) == *old(self),
            old(self).trip.is_none() && old(self).test_mode ==> *final(self) == *old(self),
            old(self).trip.is_none() && !old(self).test_mode ==> *final(self) == (TripHandler { location: r, ..*old(self) }),
    {
        self.notify_pos()
    }

    /// The periodic position report, with the drift drawn from `-10..=10`.
    pub fn notify_pos(&mut self) -> (r: Position)
        ensures
            old(self).trip.is_some() ==> r == infinity_spec(),
            old(self).trip.is_none() && old(self).test_mode ==> r == old(self).location,
            old(self).trip.is_none() && !old(self).test_mode ==> in_grid(r) && exists|
                dx: int,
                dy: int,
            |
                -MAX_DRIFT <= dx <= MAX_DRIFT && -MAX_DRIFT <= dy <= MAX_DRIFT && r == drifted(
                    old(self).location,
                    dx,
                    dy,
                ),
            final(self).trip == old(self).trip,
            old(self).trip.is_some() ==> *final(self) == *old(self),
            old(self).trip.is_none() && old(self).test_mode ==> *final(self) == *old(self),
            old(self).trip.is_none() && !old(self).test_mode ==> *final(self) == (TripHandler { location: r, ..*old(self) }),
    {
        let dx = random_between(-MAX_DRIFT, MAX_DRIFT);
        let dy = random_between(-MAX_DRIFT, MAX_DRIFT);
        self.report_position(dx, dy)
    }

    /// Whether an offer is worth pursuing, given the acceptance draw: only
    /// an idle driver whose draw came out positive tries to take it.
    pub fn wants_trip(&self, accept_draw: bool) -> (r: bool)
        ensures
            r == (self.trip.is_none() && accept_draw),
    {
        self.trip.is_none() && accept_draw
    }

    /// Settles an offer for `passenger_id`. When the driver is idle and the
    /// direct channel to the passenger came up, it commits: it tells the
    /// passenger it is coming, publishes infinity, starts moving toward the
    /// pickup point and accepts. Otherwise it declines and stays as it was.
    pub fn commit(&mut self, msg: CanHandleTrip, connected: bool) -> (r: Vec<TripAction>)
        ensures
            old(self).trip.is_none() && connected ==> {
                &&& final(self).trip == Some(
                    Trip {
                        passenger_id: msg.passenger_id,
                        pickup: msg.passenger_location,
                        destination: msg.destination,
                        current: old(self).location,
                        leg: Leg::ToPickup,
                    },
                )
                &&& final(self).location == old(self).location
                &&& final(self).self_id == old(self).self_id
                &&& final(self).test_mode == old(self).test_mode
                &&& r@ == seq![
                    TripAction::Respond {
                        passenger_id: msg.passenger_id,
                        notice: Notice::DriverComing { driver_id: msg.self_id },
                    },
                    TripAction::NotifyPosition { position: infinity_spec() },
                    TripAction::ScheduleStep,
                    TripAction::Ack { passenger_id: msg.passenger_id, response: true, driver_id: msg.self_id },
                ]
            },
            !(old(self).trip.is_none() && connected) ==> *final(self) == *old(self) && r@ == seq![
                TripAction::Ack { passenger_id: msg.passenger_id, response: false, driver_id: msg.self_id },
            ],
    {
        let passenger_id = msg.passenger_id;
        let pickup = msg.passenger_location;
        let destination = msg.destination;
        let driver_id = msg.self_id;
        let mut r: Vec<TripAction> = Vec::new();
        if self.trip.is_none() && connected {
            self.trip = Some(
                Trip {
                    passenger_id,
                    pickup,
                    destination,
                    current: self.location,
                    leg: Leg::ToPickup,
                },
            );
            r.push(
                TripAction::Respond {
                    passenger_id,
                    notice: Notice::DriverComing { driver_id },
                },
            );
            r.push(TripAction::NotifyPosition { position: Position::infinity() });
            r.push(TripAction::ScheduleStep);
            r.push(TripAction::Ack { passenger_id, response: true, driver_id });
        } else {
            r.push(TripAction::Ack { passenger_id, response: false, driver_id });
        }
        r
    }

    /// One movement tick with the given per-axis steps. Reaching the pickup
    /// point tells the passenger and turns toward the destination; reaching
    /// the destination reports success, asks for the fare and returns to
    /// idle at the destination. A tick after the trip was cleared does
    /// nothing.
    pub fn step(&mut self, step_x: u32, step_y: u32) -> (r: Vec<TripAction>)
        ensures
            step_transition(*old(self), step_x, step_y, *final(self), r@),
    {
        let mut r: Vec<TripAction> = Vec::new();
        match self.trip {
            None => r,
            Some(t) => {
                let mut next = t.current;
                let target = match t.leg {
                    Leg::ToPickup => t.pickup,
                    Leg::ToDestination => t.destination,
                };
                next.step_toward(&target, step_x, step_y);
                if t.leg == Leg::ToPickup && next == t.pickup {
                    self.trip = Some(Trip { current: next, leg: Leg::ToDestination, ..t });
                    r.push(
                        TripAction::Respond {
                            passenger_id: t.passenger_id,
                            notice: Notice::AtYourDoor,
                        },
                    );
                    r.push(TripAction::ScheduleStep);
                } else if t.leg == Leg::ToDestination && next == t.destination {
                    self.trip = None;
                    self.location = next;
                    r.push(
                        TripAction::Respond { passenger_id: t.passenger_id, notice: Notice::Arrived },
                    );
                    r.push(TripAction::CollectMoney { passenger_id: t.passenger_id });
                } else {
                    self.trip = Some(Trip { current: next, ..t });
                    r.push(TripAction::ScheduleStep);
                }
                r
            },
        }
    }

    /// One movement tick with per-axis steps drawn from `0..=3`.
    pub fn go_to_tick(&mut self) -> (r: Vec<TripAction>)
        ensures
            exists|sx: u32, sy: u32|
                sx <= MAX_STEP && sy <= MAX_STEP && step_transition(*old(self), sx, sy, *final(self), r@),
    {
        let sx = random_between(0, MAX_STEP as i32) as u32;
        let sy = random_between(0, MAX_STEP as i32) as u32;
        self.step(sx, sy)
    }

    /// Drops the commitment to `passenger_id`, if it is the current one;
    /// the driver becomes idle where the trip left it. Returns whether a
    /// trip was dropped.
    pub fn clear_passenger(&mut self, msg: ClearPassenger) -> (r: bool)
        ensures
            r == (old(self).trip.is_some() && old(self).trip.unwrap().passenger_id
                == msg.passenger_id),
            r ==> final(self).trip.is_none() && final(self).location == old(
                self,
            ).trip.unwrap().current && final(self).self_id == old(self).self_id
                && final(self).test_mode == old(self).test_mode,
            !r ==> *final(self) == *old(self),
    {
        let passenger_id = msg.passenger_id;
        match self.trip {
            Some(t) => {
                if t.passenger_id == passenger_id {
                    self.location = t.current;
                    self.trip = None;
                    true
                } else {
                    false
                }
            },
            None => false,
        }
    }
}

} // verus!
