use ride_dispatch::messages::{Notice, TripStatus};
use ride_dispatch::position::Position;
use ride_dispatch::trip::{CanHandleTrip, ClearPassenger, ForceNotifyPosition, Leg, TripAction, TripHandler};

fn committed(handler: &mut TripHandler, pid: u32, pickup: Position, destination: Position) -> Vec<TripAction> {
    assert!(handler.wants_trip(true));
    let id = handler.self_id;
    handler.commit(CanHandleTrip { passenger_id: pid, passenger_location: pickup, destination, self_id: id }, true)
}

#[test]
fn test_mode_start_position() {
    let h = TripHandler::new(3, true);
    assert_eq!(h.location, Position::new(15, 15));
    assert!(h.trip.is_none());
}

#[test]
fn commit_reports_infinity_and_accepts() {
    let mut h = TripHandler::new(1, true);
    let a = committed(&mut h, 0, Position::new(4, 4), Position::new(10, 10));
    assert_eq!(
        a,
        vec![
            TripAction::Respond { passenger_id: 0, notice: Notice::DriverComing { driver_id: 1 } },
            TripAction::NotifyPosition { position: Position::infinity() },
            TripAction::ScheduleStep,
            TripAction::Ack { passenger_id: 0, response: true, driver_id: 1 },
        ]
    );
    assert_eq!(h.report_position(3, 3), Position::infinity());
    assert_eq!(h.notify_pos(), Position::infinity());
    assert_eq!(h.force_notify_position(ForceNotifyPosition {}), Position::infinity());
}

#[test]
fn busy_driver_declines_second_offer() {
    let mut h = TripHandler::new(1, true);
    committed(&mut h, 0, Position::new(4, 4), Position::new(10, 10));
    assert!(!h.wants_trip(true));
    let a = h.commit(CanHandleTrip { passenger_id: 7, passenger_location: Position::new(1, 1), destination: Position::new(2, 2), self_id: h.self_id }, true);
    assert_eq!(a, vec![TripAction::Ack { passenger_id: 7, response: false, driver_id: 1 }]);
    assert_eq!(h.trip.unwrap().passenger_id, 0);
}

#[test]
fn failed_connection_declines() {
    let mut h = TripHandler::new(2, true);
    let a = h.commit(CanHandleTrip { passenger_id: 7, passenger_location: Position::new(1, 1), destination: Position::new(2, 2), self_id: h.self_id }, false);
    assert_eq!(a, vec![TripAction::Ack { passenger_id: 7, response: false, driver_id: 2 }]);
    assert!(h.trip.is_none());
    assert!(!h.wants_trip(false));
}

#[test]
fn single_match_trip_runs_to_destination() {
    let mut h = TripHandler::new(1, true);
    committed(&mut h, 0, Position::new(4, 4), Position::new(10, 10));
    let mut notices = Vec::new();
    let mut collects = 0;
    let mut ticks = 0;
    while h.trip.is_some() && ticks < 100 {
        for a in h.step(3, 3) {
            match a {
                TripAction::Respond { notice, .. } => notices.push(notice),
                TripAction::CollectMoney { passenger_id } => {
                    assert_eq!(passenger_id, 0);
                    collects += 1;
                }
                _ => {}
            }
        }
        ticks += 1;
    }
    assert_eq!(notices, vec![Notice::AtYourDoor, Notice::Arrived]);
    assert_eq!(collects, 1);
    assert_eq!(h.location, Position::new(10, 10));
    assert_eq!(Notice::Arrived.status(), TripStatus::Success);
    assert_eq!(Notice::AtYourDoor.status(), TripStatus::Info);
    assert_eq!(Notice::NoDriversNear.status(), TripStatus::Error);
}

#[test]
fn step_moves_and_turns_at_pickup() {
    let mut h = TripHandler::new(0, true);
    committed(&mut h, 9, Position::new(2, 1), Position::new(2, 5));
    assert_eq!(h.step(1, 0), vec![TripAction::ScheduleStep]);
    assert_eq!(h.trip.unwrap().current, Position::new(1, 0));
    assert_eq!(
        h.step(3, 3),
        vec![TripAction::Respond { passenger_id: 9, notice: Notice::AtYourDoor }, TripAction::ScheduleStep]
    );
    assert_eq!(h.trip.unwrap().leg, Leg::ToDestination);
    assert_eq!(h.step(0, 0), vec![TripAction::ScheduleStep]);
}

#[test]
fn pickup_equal_to_destination_still_finishes() {
    let mut h = TripHandler::new(0, true);
    committed(&mut h, 9, Position::new(0, 0), Position::new(0, 0));
    h.step(1, 1);
    let a = h.step(1, 1);
    assert_eq!(
        a,
        vec![TripAction::Respond { passenger_id: 9, notice: Notice::Arrived }, TripAction::CollectMoney { passenger_id: 9 }]
    );
    assert!(h.trip.is_none());
}

#[test]
fn passenger_disconnect_mid_trip() {
    let mut h = TripHandler::new(1, true);
    committed(&mut h, 4, Position::new(20, 20), Position::new(30, 30));
    h.step(3, 3);
    assert!(!h.clear_passenger(ClearPassenger { disconnected: true, passenger_id: 5 }));
    assert!(h.clear_passenger(ClearPassenger { disconnected: true, passenger_id: 4 }));
    assert!(h.trip.is_none());
    assert_eq!(h.location, Position::new(8, 8));
    assert!(h.step(3, 3).is_empty());
    assert!(h.go_to_tick().is_empty());
    assert_eq!(h.notify_pos(), Position::new(8, 8));
    assert!(!h.clear_passenger(ClearPassenger { disconnected: false, passenger_id: 4 }));
}

#[test]
fn idle_report_drifts_unless_test_mode() {
    let mut h = TripHandler::new(1, false);
    h.location = Position::new(50, 50);
    assert_eq!(h.report_position(10, -10), Position::new(40, 60));
    let p = h.notify_pos();
    assert!(p.x <= 100 && p.y <= 100);
    let mut t = TripHandler::new(1, true);
    assert_eq!(t.report_position(10, 10), Position::new(5, 5));
}
