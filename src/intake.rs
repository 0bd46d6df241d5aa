use vstd::prelude::*;
use crate::messages::{CommonMessages, TripMessages};
use crate::position::Position;
use crate::ports::{MAX_DRIVER_PORT, MIN_DRIVER_PORT};

verus! {

/// Who opened an accepted connection, from its identification line.
#[derive(Debug, Clone, Copy, PartialEq, Eq, Structural)]
pub enum Caller {
    Driver { id: u32 },
    Passenger { id: u32 },
    Unknown,
}

/// Reads an identification: type `'D'` is a driver, `'P'` a passenger.
pub fn classify_caller(message: CommonMessages) -> (r: Caller)
    ensures
        match message {
            CommonMessages::Identification { id, type_ } => r == (if type_ == 'D' {
                Caller::Driver { id }
            } else if type_ == 'P' {
                Caller::Passenger { id }
            } else {
                Caller::Unknown
            }),
        },
{
    match message {
        CommonMessages::Identification { id, type_ } => {
            if type_ == 'D' {
                Caller::Driver { id }
            } else if type_ == 'P' {
                Caller::Passenger { id }
            } else {
                Caller::Unknown
            }
        },
    }
}

/// Sets up a driver's links: dials every driver port, then accepts.
#[derive(Debug, Clone, Copy, PartialEq, Eq, Structural)]
pub struct DriverConnectionsHandler {}

impl DriverConnectionsHandler {
    /// The driver ids dialled at startup: every id that has a port.
    pub fn dial_ids() -> (r: Vec<u32>)
        ensures
            r@.len() == MAX_DRIVER_PORT - MIN_DRIVER_PORT + 1,
            forall|i: int| 0 <= i < r@.len() ==> r@[i] == i,
    {
        let mut r: Vec<u32> = Vec::new();
        let max_id: u32 = MAX_DRIVER_PORT - MIN_DRIVER_PORT;
        let mut driver_id: u32 = 0;
        while driver_id <= max_id
            invariant
                max_id == MAX_DRIVER_PORT - MIN_DRIVER_PORT,
                driver_id <= max_id + 1,
                r@.len() == driver_id,
                forall|i: int| 0 <= i < r@.len() ==> r@[i] == i,
            decreases max_id + 1 - driver_id,
        {
            r.push(driver_id);
            driver_id += 1;
        }
        r
    }
}

/// Why a passenger's opening exchange was refused.
#[derive(Debug, Clone, Copy, PartialEq, Eq, Structural)]
pub enum HandshakeError {
    /// The first line was missing or unreadable.
    NoTripRequest,
    /// The first line was another message than a trip request.
    TripRequestExpected,
    /// The second line was missing or unreadable.
    NoListeningNotification,
    /// The second line was another message than `Listening`.
    ListeningExpected,
}

/// Where a passenger's opening exchange stands after a line.
#[derive(Debug, Clone, Copy, PartialEq, Eq, Structural)]
pub enum HandshakeStep {
    /// The request is known: wait for `Listening`.
    AwaitListening,
    /// Both lines came: hand the request to the hub and answer
    /// `RequestDelivered`.
    Deliver { passenger_id: u32, source: Position, destination: Position },
    Failed { error: HandshakeError },
}

/// A requested pickup point and destination.
#[derive(Debug, Clone, Copy, PartialEq, Eq, Structural)]
pub struct Route {
    pub source: Position,
    pub destination: Position,
}

/// A passenger's opening exchange on a new connection: a trip request,
/// then `Listening`.
#[derive(Debug, Clone, Copy, PartialEq, Eq, Structural)]
pub struct PassengerHandshake {
    pub passenger_id: u32,
    /// The requested pickup point and destination, once read.
    pub request: Option<Route>,
}

impl PassengerHandshake {
    pub fn new(passenger_id: u32) -> (r: Self)
        ensures
            r.passenger_id == passenger_id,
            r.request.is_none(),
    {
        PassengerHandshake { passenger_id, request: None }
    }

    /// Takes in the next line, `None` when it was missing or did not parse.
    pub fn on_line(&mut self, line: Option<TripMessages>) -> (r: HandshakeStep)
        ensures
            final(self).passenger_id == old(self).passenger_id,
            old(self).request.is_none() ==> match line {
                Some(TripMessages::TripRequest { source, destination }) => r
                    == HandshakeStep::AwaitListening && final(self).request == Some(
                    Route { source, destination },
                ),
                Some(_) => r == (HandshakeStep::Failed {
                    error: HandshakeError::TripRequestExpected,
                }) && final(self).request.is_none(),
                None => r == (HandshakeStep::Failed { error: HandshakeError::NoTripRequest })
                    && final(self).request.is_none(),
            },
            old(self).request.is_some() ==> final(self).request == old(self).request && match line {
                Some(TripMessages::Listening {  }) => r == (HandshakeStep::Deliver {
                    passenger_id: old(self).passenger_id,
                    source: old(self).request.unwrap().source,
                    destination: old(self).request.unwrap().destination,
                }),
                Some(_) => r == (HandshakeStep::Failed {
                    error: HandshakeError::ListeningExpected,
                }),
                None => r == (HandshakeStep::Failed {
                    error: HandshakeError::NoListeningNotification,
                }),
            },
    {
        match self.request {
            None => match line {
                Some(TripMessages::TripRequest { source, destination }) => {
                    self.request = Some(Route { source, destination });
                    HandshakeStep::AwaitListening
                },
                Some(_) => HandshakeStep::Failed { error: HandshakeError::TripRequestExpected },
                None => HandshakeStep::Failed { error: HandshakeError::NoTripRequest },
            },
            Some(route) => match line {
                Some(TripMessages::Listening {  }) => HandshakeStep::Deliver {
                    passenger_id: self.passenger_id,
                    source: route.source,
                    destination: route.destination,
                },
                Some(_) => HandshakeStep::Failed { error: HandshakeError::ListeningExpected },
                None => HandshakeStep::Failed { error: HandshakeError::NoListeningNotification },
            },
        }
    }
}

} // verus!
