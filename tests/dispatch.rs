use driver_rust::dispatch::{DispatchOutcome, Dispatcher};
use driver_rust::packet::{HandlerError, Packet};
use driver_rust::sim_freq::{RadioDevices, RadioOptions, SetRequest};

#[test]
fn selection_persistence() {
    let mut dispatcher = Dispatcher::new();
    assert_eq!(dispatcher.get_selected_device(), RadioDevices::COM1);
    match dispatcher.dispatch(&Packet::new(4, vec![3])) {
        Ok(DispatchOutcome::Selected(d)) => assert_eq!(d, RadioDevices::NAV2),
        other => panic!("unexpected outcome {:?}", other),
    }
    for i in 0..5u8 {
        let packet = Packet::new(1, vec![i % 4, 0, 1, 0xCC, 0xF0, 0, 1, 0xCE, 0xE4]);
        assert!(dispatcher.dispatch(&packet).is_ok());
        assert_eq!(dispatcher.get_selected_device(), RadioDevices::NAV2);
    }
    assert!(dispatcher.dispatch(&Packet::new(4, vec![6])).is_ok());
    assert_eq!(dispatcher.get_selected_device(), RadioDevices::XPDR);
}

#[test]
fn dispatch_no_op() {
    let mut dispatcher = Dispatcher::new();
    match dispatcher.dispatch(&Packet::new(99, vec![3, 1, 2])) {
        Ok(DispatchOutcome::Ignored(k)) => assert_eq!(k, 99),
        other => panic!("unexpected outcome {:?}", other),
    }
    assert_eq!(dispatcher.get_selected_device(), RadioDevices::COM1);
}

#[test]
fn dispatch_routes_frequency_packets() {
    let mut dispatcher = Dispatcher::new();
    match dispatcher.dispatch(&Packet::new(1, vec![1, 0, 1, 0xCC, 0xF0, 0, 1, 0xCE, 0xE4])) {
        Ok(DispatchOutcome::Requests(v)) => assert_eq!(
            v,
            vec![
                SetRequest { device: RadioDevices::COM2, option: RadioOptions::ACTIVE, value: 118_500_000 },
                SetRequest { device: RadioDevices::COM2, option: RadioOptions::STANDBY, value: 118_000_000 },
            ]
        ),
        other => panic!("unexpected outcome {:?}", other),
    }
    assert_eq!(
        dispatcher.dispatch(&Packet::new(1, vec![1])).unwrap_err(),
        HandlerError::PayloadTooShort
    );
}

#[test]
fn dispatch_reports_unknown_device_byte() {
    let mut dispatcher = Dispatcher::new();
    assert!(dispatcher.dispatch(&Packet::new(4, vec![2])).is_ok());
    match dispatcher.dispatch(&Packet::new(4, vec![5])) {
        Ok(DispatchOutcome::UnknownDevice(b)) => assert_eq!(b, 5),
        other => panic!("unexpected outcome {:?}", other),
    }
    assert_eq!(dispatcher.get_selected_device(), RadioDevices::NAV1);
    assert_eq!(
        dispatcher.dispatch(&Packet::new(4, vec![])).unwrap_err(),
        HandlerError::PayloadTooShort
    );
}
