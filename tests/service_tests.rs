use ride_dispatch::intake::{classify_caller, Caller, DriverConnectionsHandler, HandshakeError, HandshakeStep, PassengerHandshake};
use ride_dispatch::link::SendAll;
use ride_dispatch::messages::{CommonMessages, PaymentMessages, PaymentResponses, TripMessages, TripStatus};
use ride_dispatch::passenger::{
    after_listen, handle_payment_response, trip_data_from_groups, CardError, validate_args, InputError, LineEvent, ListenEvent, ListenOutcome,
    ResponseWatcher, TripData, TripRequester, WatchOutcome,
};
use ride_dispatch::payment::PaymentLedger;
use ride_dispatch::ports::{
    all_driver_ports, get_driver_address, get_driver_address_by_id, get_id_by_port, id_for_port, passenger_port,
    AddressError,
};
use ride_dispatch::position::Position;

#[test]
fn payment_collect_follows_authorization() {
    let mut ledger = PaymentLedger::new();
    assert_eq!(
        ledger.handle_auth_message(3, true),
        PaymentResponses::AuthPayment { passenger_id: 3, response: true }
    );
    assert_eq!(
        ledger.handle_auth_message(4, false),
        PaymentResponses::AuthPayment { passenger_id: 4, response: false }
    );
    assert_eq!(
        ledger.handle(PaymentMessages::CollectPayment { driver_id: 1, passenger_id: 3 }),
        PaymentResponses::CollectPayment { passenger_id: 3, response: true }
    );
    assert_eq!(
        ledger.handle_collect_message(1, 4),
        PaymentResponses::CollectPayment { passenger_id: 4, response: false }
    );
    match ledger.authorize(8) {
        PaymentResponses::AuthPayment { passenger_id, response } => {
            assert_eq!(passenger_id, 8);
            assert_eq!(ledger.is_authorized(8), response);
        }
        other => panic!("unexpected {:?}", other),
    }
}

#[test]
fn driver_addresses() {
    assert_eq!(get_driver_address(8085), Ok("0.0.0.0:8085".to_string()));
    assert_eq!(get_driver_address(8101), Err(AddressError::WrongPort { port: 8101 }));
    assert_eq!(get_driver_address(8079), Err(AddressError::WrongPort { port: 8079 }));
    assert_eq!(get_driver_address_by_id(20), Ok("0.0.0.0:8100".to_string()));
    assert_eq!(get_driver_address_by_id(21), Err(AddressError::WrongId { id: 21 }));
    assert_eq!(get_driver_address_by_id(u32::MAX), Err(AddressError::WrongId { id: u32::MAX }));
}

#[test]
fn driver_ids_from_ports() {
    assert_eq!(get_id_by_port("8083"), Ok(3));
    assert_eq!(get_id_by_port("+8080"), Ok(0));
    assert_eq!(get_id_by_port("9000"), Err(AddressError::WrongPort { port: 9000 }));
    assert_eq!(get_id_by_port("80a"), Err(AddressError::NotANumber));
    assert_eq!(get_id_by_port(""), Err(AddressError::NotANumber));
    assert_eq!(id_for_port(8100), Ok(20));
    assert_eq!(passenger_port(2), Some(8002));
    assert_eq!(passenger_port(21), None);
    let ports = all_driver_ports();
    assert_eq!(ports.len(), 21);
    assert_eq!(ports[0], 8080);
    assert_eq!(ports[20], 8100);
}

#[test]
fn passenger_command_validation() {
    assert_eq!(
        validate_args("id=0 origin=(4,4) dest=(10,10)"),
        Ok(TripData { id: 0, origin: Position::new(4, 4), destination: Position::new(10, 10) })
    );
    assert_eq!(validate_args("id=1 origin=(4,4) dest=(4,4)"), Err(InputError::SamePlace));
    assert_eq!(validate_args("id=1 origin=(-4,4) dest=(4,5)"), Err(InputError::InvalidNumber));
    assert_eq!(validate_args("id=1 origin=4,4 dest=(4,5)"), Err(InputError::InvalidFormat));
    assert_eq!(validate_args("id=99999999999 origin=(1,1) dest=(4,5)"), Err(InputError::InvalidNumber));
    let groups = vec!["7".to_string(), "1".to_string(), "2".to_string(), "3".to_string(), "4".to_string()];
    assert_eq!(
        trip_data_from_groups(&groups),
        Ok(TripData { id: 7, origin: Position::new(1, 2), destination: Position::new(3, 4) })
    );
    assert_eq!(trip_data_from_groups(&vec!["7".to_string()]), Err(InputError::InvalidFormat));
}

fn response(status: TripStatus, detail: &str) -> LineEvent {
    LineEvent::Message { message: TripMessages::TripResponse { status, detail: detail.to_string() } }
}

#[test]
fn passenger_watches_responses() {
    let mut w = ResponseWatcher::new();
    assert_eq!(w.on_line(LineEvent::Closed), WatchOutcome::Broken);
    assert_eq!(w.on_line(response(TripStatus::RequestDelivered, "ok")), WatchOutcome::Continue);
    assert!(w.request_delivered);
    assert_eq!(w.on_line(LineEvent::Closed), WatchOutcome::Completed);

    let mut d = ResponseWatcher::new();
    assert_eq!(d.on_line(response(TripStatus::Info, "coming")), WatchOutcome::Continue);
    assert_eq!(d.on_line(response(TripStatus::Success, "arrived")), WatchOutcome::Completed);
    assert_eq!(
        d.on_line(response(TripStatus::Error, "no drivers near")),
        WatchOutcome::Rejected { detail: "no drivers near".to_string() }
    );
    assert_eq!(d.on_line(LineEvent::Unparsable), WatchOutcome::Broken);
}

#[test]
fn leader_change_mid_dispatch_leads_to_retry() {
    assert_eq!(after_listen(ListenEvent::TimedOut), ListenOutcome::Retry);
    assert_eq!(after_listen(ListenEvent::AcceptFailed), ListenOutcome::KeepListening);
    assert_eq!(
        after_listen(ListenEvent::Watched { outcome: WatchOutcome::Broken }),
        ListenOutcome::Retry
    );
    assert_eq!(
        after_listen(ListenEvent::Watched { outcome: WatchOutcome::Completed }),
        ListenOutcome::Arrived
    );
    let mut r = TripRequester::new();
    let first = r.take_port(0);
    assert_eq!(first, Some(8080));
    assert_eq!(r.take_port(100), None);
    let mut seen = 1;
    while let Some(p) = r.next_port() {
        assert!((8081..=8100).contains(&p));
        seen += 1;
    }
    assert_eq!(seen, 21);
    assert!(r.is_exhausted());
    r.reset();
    assert!(!r.is_exhausted());
}

#[test]
fn connection_intake() {
    assert_eq!(classify_caller(CommonMessages::Identification { id: 3, type_: 'D' }), Caller::Driver { id: 3 });
    assert_eq!(classify_caller(CommonMessages::Identification { id: 4, type_: 'P' }), Caller::Passenger { id: 4 });
    assert_eq!(classify_caller(CommonMessages::Identification { id: 4, type_: 'x' }), Caller::Unknown);

    let mut h = PassengerHandshake::new(2);
    let req = TripMessages::TripRequest { source: Position::new(1, 1), destination: Position::new(3, 3) };
    assert_eq!(h.on_line(Some(req)), HandshakeStep::AwaitListening);
    assert_eq!(
        h.on_line(Some(TripMessages::Listening {})),
        HandshakeStep::Deliver { passenger_id: 2, source: Position::new(1, 1), destination: Position::new(3, 3) }
    );
    let mut bad = PassengerHandshake::new(2);
    assert_eq!(
        bad.on_line(Some(TripMessages::Listening {})),
        HandshakeStep::Failed { error: HandshakeError::TripRequestExpected }
    );
    assert_eq!(bad.on_line(None), HandshakeStep::Failed { error: HandshakeError::NoTripRequest });
}

#[test]
fn frames_end_with_newline() {
    let frame = SendAll { data: "{\"Alive\":{\"responder_id\":1}}".to_string() }.into_line();
    assert_eq!(frame, "{\"Alive\":{\"responder_id\":1}}\n");
    let ids = DriverConnectionsHandler::dial_ids();
    assert_eq!(ids.len(), 21);
    assert_eq!(ids[20], 20);
}

#[test]
fn card_check_answers() {
    assert_eq!(handle_payment_response(Some(PaymentResponses::AuthPayment { passenger_id: 1, response: true })), Ok(()));
    assert_eq!(
        handle_payment_response(Some(PaymentResponses::AuthPayment { passenger_id: 1, response: false })),
        Err(CardError::Rejected)
    );
    assert_eq!(
        handle_payment_response(Some(PaymentResponses::CollectPayment { passenger_id: 1, response: true })),
        Err(CardError::InvalidResponse)
    );
    assert_eq!(handle_payment_response(None), Err(CardError::InvalidResponse));
}
