use regex::Regex;
use vstd::prelude::*;
use crate::messages::{PaymentResponses, TripMessages, TripStatus};
use crate::ports::{all_driver_ports, parse_u32, u32_from_text, MAX_DRIVER_PORT, MIN_DRIVER_PORT};
use crate::position::{Position, random_between};

verus! {

/// A validated trip request of a passenger.
#[derive(Debug, Clone, Copy, PartialEq, Eq, Structural)]
pub struct TripData {
    pub id: u32,
    pub origin: Position,
    pub destination: Position,
}

/// Why a passenger's command line was refused.
#[derive(Debug, Clone, Copy, PartialEq, Eq, Structural)]
pub enum InputError {
    /// The command is not `id=<n> origin=(x,y) dest=(x,y)`.
    InvalidFormat,
    /// A field is not a non-negative number that fits in a `u32`.
    InvalidNumber,
    /// Origin and destination are the same point.
    SamePlace,
}

/// The five groups (id, origin x, origin y, destination x, destination y)
/// that the command pattern captures in `command`, or `None` when it does
/// not match.
pub uninterp spec fn command_groups(command: Seq<char>) -> Option<Seq<Seq<char>>>;

/// Relies on regex::Regex::captures with the pattern
/// `^id=(\d+)\s+origin=\((-?\d+),(-?\d+)\)\s+dest=\((-?\d+),(-?\d+)\)$`:
/// the text of its five groups when the command matches.
#[verifier::external_body]
fn capture_command(command: &str) -> (r: Option<Vec<String>>)
    ensures
        r.is_some() == command_groups(command@).is_some(),
        r.is_some() ==> r.unwrap()@.len() == 5 && command_groups(command@).unwrap().len() == 5
            && forall|i: int|
            0 <= i < 5 ==> (#[trigger] r.unwrap()@[i])@ == command_groups(command@).unwrap()[i],
{
    let re = Regex::new(r"^id=(\d+)\s+origin=\((-?\d+),(-?\d+)\)\s+dest=\((-?\d+),(-?\d+)\)$").ok()?;
    let caps = re.captures(command)?;
    (1..=5).map(|i| caps.get(i).map(|m| m.as_str().to_string())).collect()
}

/// The trip that five captured groups describe.
pub open spec fn trip_from_groups(g: Seq<Seq<char>>) -> Result<TripData, InputError> {
    if g.len() != 5 {
        Err(InputError::InvalidFormat)
    } else if u32_from_text(g[0]).is_none() || u32_from_text(g[1]).is_none() || u32_from_text(
        g[2],
    ).is_none() || u32_from_text(g[3]).is_none() || u32_from_text(g[4]).is_none() {
        Err(InputError::InvalidNumber)
    } else if u32_from_text(g[1]) == u32_from_text(g[3]) && u32_from_text(g[2]) == u32_from_text(
        g[4],
    ) {
        Err(InputError::SamePlace)
    } else {
        Ok(
            TripData {
                id: u32_from_text(g[0]).unwrap(),
                origin: Position { x: u32_from_text(g[1]).unwrap(), y: u32_from_text(g[2]).unwrap() },
                destination: Position {
                    x: u32_from_text(g[3]).unwrap(),
                    y: u32_from_text(g[4]).unwrap(),
                },
            },
        )
    }
}

/// Builds the trip from the groups captured in a passenger's command.
pub fn trip_data_from_groups(groups: &Vec<String>) -> (r: Result<TripData, InputError>)
    ensures
        r == trip_from_groups(groups@.map_values(|s: String| s@)),
{
    let ghost g = groups@.map_values(|s: String| s@);
    if groups.len() != 5 {
        return Err(InputError::InvalidFormat);
    }
    proof {
        assert(g.len() == 5);
        assert(g[0] == groups@[0]@ && g[1] == groups@[1]@ && g[2] == groups@[2]@);
        assert(g[3] == groups@[3]@ && g[4] == groups@[4]@);
    }
    let id = parse_u32(groups[0].as_str());
    let ox = parse_u32(groups[1].as_str());
    let oy = parse_u32(groups[2].as_str());
    let dx = parse_u32(groups[3].as_str());
    let dy = parse_u32(groups[4].as_str());
    match (id, ox, oy, dx, dy) {
        (Some(id), Some(ox), Some(oy), Some(dx), Some(dy)) => {
            if ox == dx && oy == dy {
                Err(InputError::SamePlace)
            } else {
                Ok(
                    TripData {
                        id,
                        origin: Position::new(ox, oy),
                        destination: Position::new(dx, dy),
                    },
                )
            }
        },
        _ => Err(InputError::InvalidNumber),
    }
}

/// Validates a passenger's command line, `id=<n> origin=(x,y) dest=(x,y)`.
pub fn validate_args(command: &str) -> (r: Result<TripData, InputError>)
    ensures
        command_groups(command@).is_none() ==> r == Err::<TripData, InputError>(
            InputError::InvalidFormat,
        ),
        command_groups(command@).is_some() ==> r == trip_from_groups(
            command_groups(command@).unwrap()),
{
    match capture_command(command) {
        None => Err(InputError::InvalidFormat),
        Some(groups) => {
            proof {
                assert forall|i: int| 0 <= i < 5 implies groups@.map_values(|s: String| s@)[i]
                    == command_groups(command@).unwrap()[i] by {
                    assert(groups@[i]@ == command_groups(command@).unwrap()[i]);
                }
                assert(groups@.map_values(|s: String| s@) =~= command_groups(command@).unwrap());
            }
            trip_data_from_groups(&groups)
        },
    }
}

/// One line read from a driver's channel.
#[derive(Debug, Clone, PartialEq, Eq)]
pub enum LineEvent {
    /// The channel closed or gave an empty line.
    Closed,
    /// The line is not a trip message.
    Unparsable,
    Message { message: TripMessages },
}

/// What a passenger makes of the responses on one channel so far.
#[derive(Debug, Clone, PartialEq, Eq)]
pub enum WatchOutcome {
    /// Keep reading.
    Continue,
    /// The trip (or the delivery of the request) went through.
    Completed,
    /// The driver side reported an error.
    Rejected { detail: String },
    /// The channel failed before the request was delivered.
    Broken,
}

/// A passenger's reading of the trip responses on one channel.
#[derive(Debug, Clone, Copy, PartialEq, Eq, Structural)]
pub struct ResponseWatcher {
    pub request_delivered: bool,
}

impl ResponseWatcher {
    pub fn new() -> (r: Self)
        ensures
            !r.request_delivered,
    {
        ResponseWatcher { request_delivered: false }
    }

    /// Takes in one line: `Success` completes; `Error` rejects with its
    /// detail; `Info` keeps reading; `RequestDelivered` is remembered and
    /// keeps reading; a close completes once the request was delivered and
    /// breaks before; an unparsable line breaks; any other message ends the
    /// reading as completed.
    pub fn on_line(&mut self, event: LineEvent) -> (r: WatchOutcome)
        ensures
            event == LineEvent::Closed ==> *final(self) == *old(self) && r == (if old(
                self,
            ).request_delivered {
                WatchOutcome::Completed
            } else {
                WatchOutcome::Broken
            }),
            event == LineEvent::Unparsable ==> *final(self) == *old(self) && r == WatchOutcome::Broken,
            event matches LineEvent::Message { message: TripMessages::TripResponse { status: TripStatus::RequestDelivered, .. } } ==> final(self).request_delivered && r == WatchOutcome::Continue,
            event matches LineEvent::Message { message: TripMessages::TripResponse { status: TripStatus::Info, .. } } ==> *final(self) == *old(self) && r == WatchOutcome::Continue,
            event matches LineEvent::Message { message: TripMessages::TripResponse { status: TripStatus::Success, .. } } ==> *final(self) == *old(self) && r == WatchOutcome::Completed,
            event matches LineEvent::Message { message: TripMessages::TripResponse { status: TripStatus::Error, detail } } ==> *final(self) == *old(self) && r == (WatchOutcome::Rejected { detail: detail }),
            event matches LineEvent::Message { message: TripMessages::TripRequest { .. } } ==> *final(self) == *old(self) && r == WatchOutcome::Completed,
            event matches LineEvent::Message { message: TripMessages::Listening { } } ==> *final(self) == *old(self) && r == WatchOutcome::Completed,
    {
        match event {
            LineEvent::Closed => {
                if self.request_delivered {
                    WatchOutcome::Completed
                } else {
                    WatchOutcome::Broken
                }
            },
            LineEvent::Unparsable => WatchOutcome::Broken,
            LineEvent::Message { message } => match message {
                TripMessages::TripResponse { status, detail } => match status {
                    TripStatus::Success => WatchOutcome::Completed,
                    TripStatus::Info => WatchOutcome::Continue,
                    TripStatus::Error => WatchOutcome::Rejected { detail },
                    TripStatus::RequestDelivered => {
                        self.request_delivered = true;
                        WatchOutcome::Continue
                    },
                },
                _ => WatchOutcome::Completed,
            },
        }
    }
}

/// What happened while the passenger listened for its driver.
#[derive(Debug, Clone, PartialEq, Eq)]
pub enum ListenEvent {
    /// No driver connected within the listen timeout.
    TimedOut,
    /// Accepting a connection failed.
    AcceptFailed,
    /// A driver connected and its channel was read to this outcome.
    Watched { outcome: WatchOutcome },
}

/// What the passenger does after a listen event.
#[derive(Debug, Clone, PartialEq, Eq)]
pub enum ListenOutcome {
    /// Keep accepting connections.
    KeepListening,
    /// The trip is over.
    Arrived,
    /// A driver reported an error: give up.
    Rejected { detail: String },
    /// Ask for the trip again.
    Retry,
}

/// The passenger's decision after a listen event: a silent or broken
/// driver leads to a new request, a failed accept to more listening.
pub fn after_listen(event: ListenEvent) -> (r: ListenOutcome)
    ensures
        event == ListenEvent::TimedOut ==> r == ListenOutcome::Retry,
        event == ListenEvent::AcceptFailed ==> r == ListenOutcome::KeepListening,
        event == (ListenEvent::Watched { outcome: WatchOutcome::Completed }) ==> r == ListenOutcome::Arrived,
        event == (ListenEvent::Watched { outcome: WatchOutcome::Continue }) ==> r == ListenOutcome::Arrived,
        event == (ListenEvent::Watched { outcome: WatchOutcome::Broken }) ==> r == ListenOutcome::Retry,
        event matches ListenEvent::Watched { outcome: WatchOutcome::Rejected { detail } } ==> r == (ListenOutcome::Rejected { detail: detail }),
{
    match event {
        ListenEvent::TimedOut => ListenOutcome::Retry,
        ListenEvent::AcceptFailed => ListenOutcome::KeepListening,
        ListenEvent::Watched { outcome } => match outcome {
            WatchOutcome::Rejected { detail } => ListenOutcome::Rejected { detail },
            WatchOutcome::Broken => ListenOutcome::Retry,
            _ => ListenOutcome::Arrived,
        },
    }
}

/// The driver ports a passenger has yet to try for its request.
pub struct TripRequester {
    ports: Vec<u32>,
}

impl TripRequester {
    pub closed spec fn pending(&self) -> Seq<u32> {
        self.ports@
    }

    /// Every driver port is still to be tried.
    pub fn new() -> (r: Self)
        ensures
            r.pending().len() == MAX_DRIVER_PORT - MIN_DRIVER_PORT + 1,
            forall|i: int| 0 <= i < r.pending().len() ==> r.pending()[i] == MIN_DRIVER_PORT + i,
    {
        TripRequester { ports: all_driver_ports() }
    }

    /// Whether every port has been tried.
    pub fn is_exhausted(&self) -> (r: bool)
        ensures
            r == (self.pending().len() == 0),
    {
        self.ports.len() == 0
    }

    /// Takes the port at `index` out of the ports to try.
    pub fn take_port(&mut self, index: usize) -> (r: Option<u32>)
        ensures
            index < old(self).pending().len() ==> r == Some(old(self).pending()[index as int])
                && final(self).pending() == old(self).pending().remove(index as int),
            index >= old(self).pending().len() ==> r.is_none() && final(self).pending() == old(
                self,
            ).pending(),
    {
        if index < self.ports.len() {
            Some(self.ports.remove(index))
        } else {
            None
        }
    }

    /// Takes a port chosen at random out of the ports to try.
    pub fn next_port(&mut self) -> (r: Option<u32>)
        ensures
            old(self).pending().len() == 0 ==> r.is_none() && final(self).pending() == old(self).pending(),
            old(self).pending().len() > 0 ==> exists|i: int|
                0 <= i < old(self).pending().len() && r == Some(old(self).pending()[i])
                    && final(self).pending() == old(self).pending().remove(i),
    {
        if self.ports.len() == 0 {
            return None;
        }
        if self.ports.len() > i32::MAX as usize {
            return self.take_port(0);
        }
        let i = random_between(0, (self.ports.len() - 1) as i32) as usize;
        self.take_port(i)
    }

    /// Starts over with every driver port, after a driver failed the
    /// passenger once its request was delivered.
    pub fn reset(&mut self)
        ensures
            final(self).pending().len() == MAX_DRIVER_PORT - MIN_DRIVER_PORT + 1,
            forall|i: int| 0 <= i < final(self).pending().len() ==> final(self).pending()[i] == MIN_DRIVER_PORT + i,
    {
        self.ports = all_driver_ports();
    }
}

/// Why a passenger's card check failed.
#[derive(Debug, Clone, Copy, PartialEq, Eq, Structural)]
pub enum CardError {
    /// The payment service declined the card.
    Rejected,
    /// No answer, or an answer of another kind.
    InvalidResponse,
}

/// The passenger's reading of the payment service's answer to its card
/// check; `None` when no parsable answer came.
pub fn handle_payment_response(answer: Option<PaymentResponses>) -> (r: Result<(), CardError>)
    ensures
        answer matches Some(PaymentResponses::AuthPayment { response: true, .. }) ==> r.is_ok(),
        answer matches Some(PaymentResponses::AuthPayment { response: false, .. }) ==> r == Err::<(), CardError>(CardError::Rejected),
        answer matches Some(PaymentResponses::CollectPayment { .. }) ==> r == Err::<(), CardError>(CardError::InvalidResponse),
        answer.is_none() ==> r == Err::<(), CardError>(CardError::InvalidResponse),
{
    match answer {
        Some(PaymentResponses::AuthPayment { response, .. }) => {
            if response {
                Ok(())
            } else {
                Err(CardError::Rejected)
            }
        },
        _ => Err(CardError::InvalidResponse),
    }
}

} // verus!
