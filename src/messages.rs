use vstd::prelude::*;
use crate::position::Position;

verus! {

/// Status carried by a `TripResponse` to the passenger.
#[derive(Debug, Clone, Copy, PartialEq, Eq, Structural)]
pub enum TripStatus {
    RequestDelivered,
    Info,
    Success,
    Error,
}

/// First line sent on every new connection: who is calling.
#[derive(Debug, Clone, Copy, PartialEq, Eq, Structural)]
pub enum CommonMessages {
    /// `type_` is `'D'` for a driver and `'P'` for a passenger.
    Identification { id: u32, type_: char },
}

/// Messages between a passenger and a driver.
#[derive(Debug, Clone, PartialEq, Eq)]
pub enum TripMessages {
    TripRequest { source: Position, destination: Position },
    Listening {},
    TripResponse { status: TripStatus, detail: String },
}

/// Requests to the payment service.
#[derive(Debug, Clone, Copy, PartialEq, Eq, Structural)]
pub enum PaymentMessages {
    AuthPayment { passenger_id: u32 },
    CollectPayment { driver_id: u32, passenger_id: u32 },
}

/// Answers of the payment service.
#[derive(Debug, Clone, Copy, PartialEq, Eq, Structural)]
pub enum PaymentResponses {
    AuthPayment { passenger_id: u32, response: bool },
    CollectPayment { passenger_id: u32, response: bool },
}

/// Messages between two drivers.
#[derive(Debug, Clone, Copy, PartialEq, Eq, Structural)]
pub enum DriverMessages {
    Coordinator { leader_id: u32 },
    Election { sender_id: u32 },
    Alive { responder_id: u32 },
    NotifyPosition { driver_id: u32, driver_position: Position },
    TripRequest { passenger_id: u32, passenger_location: Position, destination: Position },
    CanHandleTrip {
        passenger_id: u32,
        driver_id: u32,
        passenger_location: Position,
        destination: Position,
    },
    CanHandleTripACK { response: bool, passenger_id: u32, driver_id: u32 },
}

/// What a trip response tells the passenger; the text is chosen by the
/// process that writes it on the wire.
#[derive(Debug, Clone, Copy, PartialEq, Eq, Structural)]
pub enum Notice {
    /// The request reached a driver and is being dispatched.
    RequestDelivered,
    /// This driver committed to the trip and is on its way.
    DriverComing { driver_id: u32 },
    /// The driver reached the pickup point.
    AtYourDoor,
    /// The trip reached its destination.
    Arrived,
    /// No driver near the pickup point took the trip.
    NoDriversNear,
}

/// The status under which a notice is sent.
pub open spec fn notice_status_spec(n: Notice) -> TripStatus {
    match n {
        Notice::RequestDelivered => TripStatus::RequestDelivered,
        Notice::DriverComing { .. } => TripStatus::Info,
        Notice::AtYourDoor => TripStatus::Info,
        Notice::Arrived => TripStatus::Success,
        Notice::NoDriversNear => TripStatus::Error,
    }
}

impl Notice {
    /// The status under which this notice is sent.
    pub fn status(&self) -> (r: TripStatus)
        ensures
            r == notice_status_spec(*self),
    {
        match self {
            Notice::RequestDelivered => TripStatus::RequestDelivered,
            Notice::DriverComing { .. } => TripStatus::Info,
            Notice::AtYourDoor => TripStatus::Info,
            Notice::Arrived => TripStatus::Success,
            Notice::NoDriversNear => TripStatus::Error,
        }
    }
}

} // verus!
