use driver_rust::device_select::{
    convert_to_device, device_from_byte, device_to_byte, DeviceSelectHandler,
    DEVICE_SELECT_PACKET_ID,
};
use driver_rust::packet::{HandlerError, Packet};
use driver_rust::sim_freq::RadioDevices;

#[test]
fn device_byte_mapping() {
    assert_eq!(convert_to_device(0), RadioDevices::COM1);
    assert_eq!(convert_to_device(1), RadioDevices::COM2);
    assert_eq!(convert_to_device(2), RadioDevices::NAV1);
    assert_eq!(convert_to_device(3), RadioDevices::NAV2);
    assert_eq!(convert_to_device(6), RadioDevices::XPDR);
    for b in 0..=255u8 {
        if ![0u8, 1, 2, 3, 6].contains(&b) {
            assert_eq!(convert_to_device(b), RadioDevices::COM1);
            assert_eq!(device_from_byte(b), None);
        }
    }
}

#[test]
fn device_to_byte_inverts_the_table() {
    for d in [
        RadioDevices::COM1,
        RadioDevices::COM2,
        RadioDevices::NAV1,
        RadioDevices::NAV2,
        RadioDevices::XPDR,
    ] {
        let b = device_to_byte(d).unwrap();
        assert_eq!(device_from_byte(b), Some(d));
    }
    assert_eq!(device_to_byte(RadioDevices::DME), None);
    assert_eq!(device_to_byte(RadioDevices::ADF), None);
}

#[test]
fn device_select_handler_tracks_selection() {
    let mut handler = DeviceSelectHandler::new();
    assert_eq!(handler.get_selected_device(), RadioDevices::COM1);
    assert_eq!(handler.handle_packet(&Packet::new(4, vec![3])), Ok(()));
    assert_eq!(handler.get_selected_device(), RadioDevices::NAV2);
    assert_eq!(handler.handle_packet(&Packet::new(4, vec![9])), Ok(()));
    assert_eq!(handler.get_selected_device(), RadioDevices::NAV2);
    assert_eq!(
        handler.handle_packet(&Packet::new(4, vec![])),
        Err(HandlerError::PayloadTooShort)
    );
    assert_eq!(handler.get_selected_device(), RadioDevices::NAV2);
}

#[test]
fn device_select_request_packet() {
    let handler = DeviceSelectHandler::new();
    let p = handler.compose_request_device_packet();
    assert_eq!(p.packet_ident, DEVICE_SELECT_PACKET_ID);
    assert_eq!(handler.get_packet_id(), 4);
    assert!(p.payload.is_empty());
}
