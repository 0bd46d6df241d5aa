use ride_dispatch::finder::{filter_nearby_drivers, DriverACK, DriverFinder, FinderAction};
use ride_dispatch::hub::{
    Alive, CanHandleTripACK, CollectMoneyPassenger, ConnectError, ConnectWithPassenger, Coordinator, Election,
    ElectionState, CentralDriver, HubAction, NotifyPositionToLeader, RedirectNewTrip, RemoveDriverConnection,
    RemovePassengerConnection, SendTripResponse, SetDriverPosition, StartElection, TripCommand,
};
use ride_dispatch::messages::{PaymentMessages, TripMessages, TripStatus};
use ride_dispatch::messages::{DriverMessages, Notice};
use ride_dispatch::position::Position;
use ride_dispatch::table::PositionTable;

fn table(entries: &[(u32, Position)]) -> PositionTable {
    let mut t = PositionTable::new();
    for (id, p) in entries {
        t.insert(*id, *p);
    }
    t
}

#[test]
fn table_insert_replaces() {
    let mut t = PositionTable::new();
    t.insert(3, Position::new(1, 1));
    t.insert(3, Position::new(2, 2));
    t.insert(4, Position::new(9, 9));
    assert_eq!(t.len(), 2);
    assert_eq!(t.get(3), Some(Position::new(2, 2)));
    assert_eq!(t.get(5), None);
}

#[test]
fn candidates_sorted_by_distance_then_id() {
    let t = table(&[
        (7, Position::new(5, 5)),
        (2, Position::new(4, 5)),
        (1, Position::new(0, 0)),
        (4, Position::new(5, 6)),
        (9, Position::infinity()),
    ]);
    let c = filter_nearby_drivers(&Position::new(5, 5), &t);
    assert_eq!(c, vec![7, 2, 4, 1]);
}

#[test]
fn finder_offers_each_candidate_once_in_order() {
    let t = table(&[(0, Position::new(0, 0)), (1, Position::new(5, 5)), (2, Position::new(4, 3))]);
    let mut f = DriverFinder::new(8, Position::new(4, 4), Position::new(10, 10), &t);
    assert_eq!(f.ask_next(), FinderAction::Offer { passenger_id: 8, driver_id: 2 });
    assert_eq!(f.on_ack(DriverACK { driver_id: 2, response: false }), FinderAction::Offer { passenger_id: 8, driver_id: 1 });
    assert_eq!(f.on_timeout(2), FinderAction::Nothing);
    assert_eq!(f.on_timeout(1), FinderAction::Offer { passenger_id: 8, driver_id: 0 });
    assert_eq!(f.on_ack(DriverACK { driver_id: 0, response: false }), FinderAction::NoDrivers { passenger_id: 8 });
    assert_eq!(f.ask_next(), FinderAction::Nothing);
}

#[test]
fn finder_stops_after_acceptance() {
    let t = table(&[(0, Position::new(0, 0)), (1, Position::new(1, 1))]);
    let mut f = DriverFinder::new(3, Position::new(0, 0), Position::new(10, 10), &t);
    assert_eq!(f.ask_next(), FinderAction::Offer { passenger_id: 3, driver_id: 0 });
    assert_eq!(f.on_ack(DriverACK { driver_id: 0, response: true }), FinderAction::Accepted { passenger_id: 3, driver_id: 0 });
    assert!(!f.is_active());
    assert_eq!(f.on_timeout(0), FinderAction::Nothing);
    assert_eq!(f.ask_next(), FinderAction::Nothing);
}

fn leader_hub(id: u32, peers: &[u32]) -> CentralDriver {
    let mut h = CentralDriver::create_new(id);
    for p in peers {
        h.insert_driver_connection(*p);
    }
    h.on_coordinator(Coordinator { leader_id: id });
    h
}

#[test]
fn two_driver_election() {
    let mut h0 = CentralDriver::create_new(0);
    let mut h1 = CentralDriver::create_new(1);
    h0.insert_driver_connection(1);
    h1.insert_driver_connection(0);

    let a1 = h1.start_election(StartElection {});
    assert_eq!(h1.leader_id(), Some(1));
    assert_eq!(
        a1,
        vec![
            HubAction::SendToPeer { peer_id: 0, message: DriverMessages::Coordinator { leader_id: 1 } },
            HubAction::Trip { command: TripCommand::ForceNotifyPosition },
        ]
    );

    let a0 = h0.start_election(StartElection {});
    assert_eq!(h0.leader_id(), None);
    assert_eq!(h0.election_state(), ElectionState::Electing);
    assert_eq!(
        a0,
        vec![
            HubAction::SendToPeer { peer_id: 1, message: DriverMessages::Election { sender_id: 0 } },
            HubAction::ArmElectionTimeout,
        ]
    );

    let answer = h1.on_election(Election { sender_id: 0 });
    assert_eq!(
        answer[0],
        HubAction::SendToPeer { peer_id: 0, message: DriverMessages::Alive { responder_id: 1 } }
    );
    assert_eq!(h1.leader_id(), Some(1));

    assert_eq!(h0.on_alive(Alive { responder_id: 1 }), vec![HubAction::CancelElectionTimeout]);
    assert_eq!(h0.election_state(), ElectionState::WaitingForCoordinator);
    h0.on_coordinator(Coordinator { leader_id: 1 });
    assert_eq!(h0.leader_id(), Some(1));
    assert_eq!(h1.leader_id(), Some(1));

    // Driver 1 dies: driver 0 sees the link close and elects itself.
    h0.remove_driver_connection(RemoveDriverConnection { id: 1 });
    let again = h0.start_election(StartElection {});
    assert_eq!(h0.leader_id(), Some(0));
    assert_eq!(again, vec![HubAction::Trip { command: TripCommand::ForceNotifyPosition }]);
}

#[test]
fn election_timeout_makes_leader() {
    let mut h = CentralDriver::create_new(2);
    h.insert_driver_connection(5);
    h.start_election(StartElection {});
    assert_eq!(h.leader_id(), None);
    let a = h.on_election_timeout();
    assert_eq!(h.leader_id(), Some(2));
    assert_eq!(a[0], HubAction::SendToPeer { peer_id: 5, message: DriverMessages::Coordinator { leader_id: 2 } });
    assert!(h.on_election_timeout().is_empty());
}

#[test]
fn lower_election_is_ignored() {
    let mut h = CentralDriver::create_new(1);
    h.insert_driver_connection(4);
    assert!(h.on_election(Election { sender_id: 4 }).is_empty());
    assert_eq!(h.leader_id(), None);
}

#[test]
fn single_match_dispatch_ranks_and_offers() {
    let mut h1 = leader_hub(1, &[0]);
    h1.set_driver_position(SetDriverPosition { driver_id: 0, driver_position: Position::new(0, 0) });
    h1.set_driver_position(SetDriverPosition { driver_id: 1, driver_position: Position::new(5, 5) });
    let t = table(&[(0, Position::new(0, 0)), (1, Position::new(5, 5))]);
    assert_eq!(filter_nearby_drivers(&Position::new(4, 4), &t), vec![1, 0]);

    let a = h1.redirect_new_trip(RedirectNewTrip { passenger_id: 0, source: Position::new(4, 4), destination: Position::new(10, 10) });
    assert_eq!(
        a,
        vec![
            HubAction::Trip {
                command: TripCommand::CanHandleTrip {
                    passenger_id: 0,
                    passenger_location: Position::new(4, 4),
                    destination: Position::new(10, 10),
                },
            },
            HubAction::ArmOfferTimeout { passenger_id: 0, driver_id: 1 },
        ]
    );
    assert!(h1.has_finder(0));
    assert!(h1.can_handle_trip_ack(CanHandleTripACK { passenger_id: 0, response: true, driver_id: 1 }).is_empty());
    assert!(!h1.has_finder(0));
}

#[test]
fn no_nearby_driver() {
    let mut h = leader_hub(0, &[1, 2]);
    h.set_driver_position(SetDriverPosition { driver_id: 0, driver_position: Position::new(0, 0) });
    h.set_driver_position(SetDriverPosition { driver_id: 1, driver_position: Position::new(0, 0) });
    h.set_driver_position(SetDriverPosition { driver_id: 2, driver_position: Position::new(0, 0) });
    let a = h.redirect_new_trip(RedirectNewTrip { passenger_id: 4, source: Position::new(90, 90), destination: Position::new(10, 10) });
    assert_eq!(a, vec![HubAction::ConnectAndNotify { passenger_id: 4, notice: Notice::NoDriversNear }]);
    assert!(!h.has_finder(4));
}

#[test]
fn first_candidate_times_out() {
    let mut h = leader_hub(0, &[1, 2]);
    h.set_driver_position(SetDriverPosition { driver_id: 1, driver_position: Position::new(1, 1) });
    h.set_driver_position(SetDriverPosition { driver_id: 2, driver_position: Position::new(3, 3) });
    let a = h.redirect_new_trip(RedirectNewTrip { passenger_id: 6, source: Position::new(0, 0), destination: Position::new(10, 10) });
    assert_eq!(a[1], HubAction::ArmOfferTimeout { passenger_id: 6, driver_id: 1 });
    let b = h.offer_timeout(6, 1);
    assert_eq!(
        b,
        vec![
            HubAction::SendToPeer {
                peer_id: 2,
                message: DriverMessages::CanHandleTrip {
                    passenger_id: 6,
                    driver_id: 2,
                    passenger_location: Position::new(0, 0),
                    destination: Position::new(10, 10),
                },
            },
            HubAction::ArmOfferTimeout { passenger_id: 6, driver_id: 2 },
        ]
    );
    assert!(h.can_handle_trip_ack(CanHandleTripACK { passenger_id: 6, response: true, driver_id: 2 }).is_empty());
    assert!(!h.has_finder(6));
}

#[test]
fn infinity_entries_are_never_offered() {
    let mut h = leader_hub(3, &[]);
    h.set_driver_position(SetDriverPosition { driver_id: 3, driver_position: Position::infinity() });
    let a = h.redirect_new_trip(RedirectNewTrip { passenger_id: 1, source: Position::new(0, 0), destination: Position::new(1, 1) });
    assert_eq!(a, vec![HubAction::ConnectAndNotify { passenger_id: 1, notice: Notice::NoDriversNear }]);
}

#[test]
fn non_leader_forwards_to_leader() {
    let mut h = CentralDriver::create_new(0);
    h.insert_driver_connection(3);
    assert!(h.redirect_new_trip(RedirectNewTrip { passenger_id: 2, source: Position::new(1, 1), destination: Position::new(2, 2) }).is_empty());
    h.on_coordinator(Coordinator { leader_id: 3 });
    let a = h.redirect_new_trip(RedirectNewTrip { passenger_id: 2, source: Position::new(1, 1), destination: Position::new(2, 2) });
    assert_eq!(
        a,
        vec![HubAction::SendToPeer {
            peer_id: 3,
            message: DriverMessages::TripRequest {
                passenger_id: 2,
                passenger_location: Position::new(1, 1),
                destination: Position::new(2, 2),
            },
        }]
    );
    let n = h.notify_position_to_leader(NotifyPositionToLeader { driver_location: Position::new(7, 7) });
    assert_eq!(
        n,
        vec![HubAction::SendToPeer {
            peer_id: 3,
            message: DriverMessages::NotifyPosition { driver_id: 0, driver_position: Position::new(7, 7) },
        }]
    );
    let ack = h.can_handle_trip_ack(CanHandleTripACK { passenger_id: 2, response: true, driver_id: 9 });
    assert_eq!(
        ack,
        vec![HubAction::SendToPeer {
            peer_id: 3,
            message: DriverMessages::CanHandleTripACK { response: true, passenger_id: 2, driver_id: 0 },
        }]
    );
}

#[test]
fn leader_records_own_position() {
    let mut h = leader_hub(2, &[]);
    assert!(h.notify_position_to_leader(NotifyPositionToLeader { driver_location: Position::new(4, 4) }).is_empty());
    assert_eq!(h.driver_position(2), Some(Position::new(4, 4)));
}

#[test]
fn peer_messages_are_dispatched() {
    let mut h = CentralDriver::create_new(1);
    h.insert_driver_connection(0);
    h.handle_peer_message(DriverMessages::Coordinator { leader_id: 1 });
    assert!(h.im_leader());
    assert!(h
        .handle_peer_message(DriverMessages::NotifyPosition { driver_id: 0, driver_position: Position::new(2, 2) })
        .is_empty());
    assert_eq!(h.driver_position(0), Some(Position::new(2, 2)));
}

#[test]
fn passenger_disconnect_clears_trip() {
    let mut h = CentralDriver::create_new(0);
    h.insert_passenger(5);
    assert!(h.has_passenger(5));
    let a = h.remove_passenger_connection(RemovePassengerConnection { id: 5 });
    assert_eq!(
        a,
        vec![HubAction::Trip { command: TripCommand::ClearPassenger { disconnected: true, passenger_id: 5 } }]
    );
    assert!(h.remove_passenger_connection(RemovePassengerConnection { id: 5 }).is_empty());
}

#[test]
fn passenger_channel_and_payment_requests() {
    let mut h = CentralDriver::create_new(4);
    assert_eq!(
        h.connect_with_passenger(ConnectWithPassenger { passenger_id: 2 }, false),
        Err(ConnectError::Unreachable { passenger_id: 2 })
    );
    let none = h.send_trip_response(SendTripResponse {
        status: TripStatus::Info,
        detail: "x".to_string(),
        passenger_id: 2,
    });
    assert_eq!(none, None);
    assert_eq!(h.connect_with_passenger(ConnectWithPassenger { passenger_id: 2 }, true), Ok(()));
    let some = h.send_trip_response(SendTripResponse {
        status: TripStatus::Success,
        detail: "done".to_string(),
        passenger_id: 2,
    });
    assert_eq!(some, Some(TripMessages::TripResponse { status: TripStatus::Success, detail: "done".to_string() }));
    assert_eq!(
        h.collect_money_passenger(CollectMoneyPassenger { passenger_id: 2 }),
        PaymentMessages::CollectPayment { driver_id: 4, passenger_id: 2 }
    );
}

#[test]
fn stale_offer_timeout_and_refusal_at_hub() {
    let mut h = leader_hub(0, &[1, 2]);
    h.set_driver_position(SetDriverPosition { driver_id: 1, driver_position: Position::new(1, 1) });
    h.set_driver_position(SetDriverPosition { driver_id: 2, driver_position: Position::new(3, 3) });
    h.redirect_new_trip(RedirectNewTrip { passenger_id: 6, source: Position::new(0, 0), destination: Position::new(9, 9) });
    // A timeout for a driver whose answer is not awaited changes nothing.
    assert!(h.offer_timeout(6, 2).is_empty());
    assert!(h.offer_timeout(7, 1).is_empty());
    assert!(h.has_finder(6));
    // A refusal from the awaited driver moves on to the next candidate.
    let a = h.can_handle_trip_ack(CanHandleTripACK { passenger_id: 6, response: false, driver_id: 1 });
    assert_eq!(a[1], HubAction::ArmOfferTimeout { passenger_id: 6, driver_id: 2 });
    // The last candidate times out: the passenger is told no driver is near.
    let b = h.offer_timeout(6, 2);
    assert_eq!(b, vec![HubAction::ConnectAndNotify { passenger_id: 6, notice: Notice::NoDriversNear }]);
    assert!(!h.has_finder(6));
}

#[test]
fn election_from_higher_driver_changes_nothing() {
    let mut h = leader_hub(1, &[3]);
    assert!(h.on_election(Election { sender_id: 3 }).is_empty());
    assert_eq!(h.leader_id(), Some(1));
    assert_eq!(h.election_state(), ElectionState::Idle);
}
