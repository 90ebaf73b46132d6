use driver_rust::msfs_connect::{
    mhz_khz_to_hz, MSFSCommunicatorError, MSFSEventIds, MSFSFreqOptions, MSFSRadioDevices,
};
use driver_rust::ports::{matching_ports, PortInfo};
use driver_rust::sim_freq::{FrequencyName, FrequencyNameError, RadioDevices, RadioOptions};

#[test]
fn frequency_names_and_events() {
    assert_eq!(
        FrequencyName::from_public(RadioDevices::COM1, RadioOptions::STANDBY),
        Ok(FrequencyName::Com1Standby)
    );
    assert_eq!(
        FrequencyName::from_public(RadioDevices::XPDR, RadioOptions::CODE),
        Ok(FrequencyName::XPDR)
    );
    assert_eq!(
        FrequencyName::from_public(RadioDevices::NAV1, RadioOptions::CODE),
        Err(FrequencyNameError::BadCombination(RadioDevices::NAV1, RadioOptions::CODE))
    );
    assert_eq!(
        FrequencyName::from_public(RadioDevices::ADF, RadioOptions::ACTIVE),
        Err(FrequencyNameError::DeviceNotFound(RadioDevices::ADF, RadioOptions::ACTIVE))
    );
    assert_eq!(FrequencyName::Com1Active.as_event(), "COM_RADIO_SET_HZ");
    assert_eq!(FrequencyName::Nav2Standby.as_event(), "NAV2_STBY_SET_HZ");
    assert_eq!(FrequencyName::XPDR.as_event(), "XPNDR_SET");
    let all = FrequencyName::all();
    assert_eq!(all.len(), 9);
    assert_eq!(all[0], FrequencyName::Com1Active);
    assert_eq!(all[8], FrequencyName::XPDR);
}

fn ids() -> MSFSEventIds {
    MSFSEventIds {
        event_com1_active_set: 10,
        event_com1_standby_set: 11,
        event_com2_active_set: 12,
        event_com2_standby_set: 13,
        event_nav1_active_set: 14,
        event_nav1_standby_set: 15,
        event_nav2_active_set: 16,
        event_nav2_standby_set: 17,
        event_xpndr_set: 18,
    }
}

#[test]
fn msfs_event_selection() {
    let ids = ids();
    assert_eq!(
        ids.event_for_update(&MSFSRadioDevices::NAV1, &MSFSFreqOptions::Standby, 110_500_000),
        Ok((15, 110_500_000))
    );
    assert_eq!(
        ids.event_for_update(&MSFSRadioDevices::XPDR, &MSFSFreqOptions::Active, 1200),
        Ok((18, 0x1200))
    );
    assert_eq!(
        ids.event_for_update(&MSFSRadioDevices::DME, &MSFSFreqOptions::Active, 1),
        Err(MSFSCommunicatorError::InvalidDevice)
    );
    assert_eq!(
        ids.event_for_update(&MSFSRadioDevices::XPDR, &MSFSFreqOptions::Standby, 1),
        Err(MSFSCommunicatorError::InvalidDevice)
    );
    assert_eq!(
        ids.event_for_update(&MSFSRadioDevices::COM1, &MSFSFreqOptions::Active, 1 << 33),
        Err(MSFSCommunicatorError::InvalidValue)
    );
    assert_eq!(
        ids.event_for_update(&MSFSRadioDevices::XPDR, &MSFSFreqOptions::Active, 123_456_789),
        Err(MSFSCommunicatorError::InvalidValue)
    );
}

#[test]
fn mhz_and_khz_to_hz() {
    assert_eq!(mhz_khz_to_hz(118, 500), 118_500_000);
    assert_eq!(mhz_khz_to_hz(65535, 65535), 65_535_000_000 + 65_535_000);
}

#[test]
fn port_matching() {
    let ports = vec![
        PortInfo { port_name: "/dev/ttyS0".to_string(), usb_id: None },
        PortInfo { port_name: "/dev/ttyUSB0".to_string(), usb_id: Some((0x10C4, 0xEA60)) },
        PortInfo { port_name: "/dev/ttyUSB1".to_string(), usb_id: Some((1, 2)) },
        PortInfo { port_name: "/dev/ttyACM0".to_string(), usb_id: Some((6790, 29987)) },
    ];
    let accepted = vec![(6790, 29987), (0x10C4, 0xEA60)];
    assert_eq!(
        matching_ports(&ports, &accepted),
        Some(vec!["/dev/ttyUSB0".to_string(), "/dev/ttyACM0".to_string()])
    );
    assert_eq!(matching_ports(&ports, &vec![(3, 4)]), None);
    assert_eq!(matching_ports(&vec![], &accepted), None);
}
