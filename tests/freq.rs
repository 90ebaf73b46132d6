use driver_rust::bcd::u32_to_bcd16;
use driver_rust::freq::{encode_update, FreqHandler, RadioData, FREQ_PACKET_ID};
use driver_rust::packet::{HandlerError, Packet};
use driver_rust::sim_freq::{RadioDevices, RadioOptions, SetRequest};

fn set(device: RadioDevices, option: RadioOptions, value: u64) -> SetRequest {
    SetRequest { device, option, value }
}

#[test]
fn frequency_scaling() {
    let mut handler = FreqHandler::new();
    let packet = Packet::new(1, vec![0, 0x00, 0x01, 0xCC, 0xF0, 0x00, 0x01, 0xCE, 0xE4]);
    let requests = handler.handle_packet(&packet).unwrap();
    assert_eq!(
        requests,
        vec![
            set(RadioDevices::COM1, RadioOptions::ACTIVE, 118_500_000),
            set(RadioDevices::COM1, RadioOptions::STANDBY, 118_000_000),
        ]
    );
}

#[test]
fn transponder_path() {
    let mut handler = FreqHandler::new();
    let packet = Packet::new(1, vec![6, 0x00, 0x01, 0xCC, 0xF0, 0x00, 0x00, 0x04, 0xB0]);
    let requests = handler.handle_packet(&packet).unwrap();
    assert_eq!(
        requests,
        vec![set(RadioDevices::XPDR, RadioOptions::CODE, u32_to_bcd16(1200) as u64)]
    );
    assert_eq!(requests[0].value, 0x1200);
}

#[test]
fn unknown_device_byte_falls_back_to_com1() {
    let mut handler = FreqHandler::new();
    let packet = Packet::new(1, vec![42, 0, 0, 0, 1, 0, 0, 0, 2]);
    let requests = handler.handle_packet(&packet).unwrap();
    assert_eq!(
        requests,
        vec![
            set(RadioDevices::COM1, RadioOptions::ACTIVE, 2000),
            set(RadioDevices::COM1, RadioOptions::STANDBY, 1000),
        ]
    );
}

#[test]
fn largest_raw_frequency_does_not_overflow() {
    let mut handler = FreqHandler::new();
    let packet = Packet::new(1, vec![3, 0xFF, 0xFF, 0xFF, 0xFF, 0xFF, 0xFF, 0xFF, 0xFF]);
    let requests = handler.handle_packet(&packet).unwrap();
    assert_eq!(requests[0], set(RadioDevices::NAV2, RadioOptions::ACTIVE, 4_294_967_295_000));
}

#[test]
fn frequency_packet_errors() {
    let mut handler = FreqHandler::new();
    assert_eq!(
        handler.handle_packet(&Packet::new(1, vec![0, 1, 2])),
        Err(HandlerError::PayloadTooShort)
    );
    assert_eq!(
        handler.handle_packet(&Packet::new(1, vec![6, 0, 0, 0, 0, 0, 0, 0x27, 0x10])),
        Err(HandlerError::CodeOutOfRange)
    );
    assert_eq!(handler.get_packet_id(), FREQ_PACKET_ID);
}

#[test]
fn update_encoding_is_inverse_of_decoding() {
    let mut handler = FreqHandler::new();
    let data = RadioData {
        radio_type: RadioDevices::NAV1,
        active: Some(110_500_000),
        standby: Some(108_000_000),
        code: None,
    };
    let packets = handler.check_for_freq_updates(Some(data)).unwrap();
    assert_eq!(packets.len(), 1);
    assert_eq!(packets[0].packet_ident, FREQ_PACKET_ID);
    assert_eq!(packets[0].payload, vec![2, 0, 0x01, 0xA5, 0xE0, 0, 0x01, 0xAF, 0xA4]);
    assert_eq!(
        handler.handle_packet(&packets[0]).unwrap(),
        vec![
            set(RadioDevices::NAV1, RadioOptions::ACTIVE, 110_500_000),
            set(RadioDevices::NAV1, RadioOptions::STANDBY, 108_000_000),
        ]
    );
}

#[test]
fn transponder_update_round_trip() {
    let mut handler = FreqHandler::new();
    let data = RadioData {
        radio_type: RadioDevices::XPDR,
        active: None,
        standby: None,
        code: Some(0x7000),
    };
    let payload = encode_update(&data).unwrap();
    assert_eq!(payload, vec![6, 0, 0, 0, 0, 0, 0, 0x1B, 0x58]);
    let packets = handler.check_for_freq_updates(Some(data)).unwrap();
    assert_eq!(
        handler.handle_packet(&packets[0]).unwrap(),
        vec![set(RadioDevices::XPDR, RadioOptions::CODE, 0x7000)]
    );
}

#[test]
fn updates_that_cannot_be_sent() {
    let mut handler = FreqHandler::new();
    assert!(handler.check_for_freq_updates(None).is_none());
    let bad_bcd = RadioData {
        radio_type: RadioDevices::XPDR,
        active: None,
        standby: None,
        code: Some(0x7A00),
    };
    assert!(handler.check_for_freq_updates(Some(bad_bcd)).is_none());
    let dme = RadioData {
        radio_type: RadioDevices::DME,
        active: Some(1),
        standby: Some(1),
        code: None,
    };
    assert!(encode_update(&dme).is_none());
    let missing = RadioData {
        radio_type: RadioDevices::COM2,
        active: Some(121_500_000),
        standby: None,
        code: None,
    };
    assert!(encode_update(&missing).is_none());
}
