//! The panel's device selector: which radio device the wire bytes name, and
//! the handler that keeps track of the selected device.

use vstd::prelude::*;

use crate::packet::{HandlerError, Packet};
use crate::sim_freq::RadioDevices;

verus! {

/// Packet kind of a device-select packet.
pub const DEVICE_SELECT_PACKET_ID: u8 = 4;

/// The device that wire byte `b` names, for the bytes that name one.
pub open spec fn device_of_byte(b: u8) -> Option<RadioDevices> {
    match b {
        0 => Some(RadioDevices::COM1),
        1 => Some(RadioDevices::COM2),
        2 => Some(RadioDevices::NAV1),
        3 => Some(RadioDevices::NAV2),
        6 => Some(RadioDevices::XPDR),
        _ => None,
    }
}

/// The device that wire byte `b` stands for, with `COM1` for any byte that
/// names none.
pub open spec fn device_for_byte(b: u8) -> RadioDevices {
    match device_of_byte(b) {
        Some(d) => d,
        None => RadioDevices::COM1,
    }
}

/// The wire byte that names device `d`, for the devices that have one.
pub open spec fn byte_of_device(d: RadioDevices) -> Option<u8> {
    match d {
        RadioDevices::COM1 => Some(0u8),
        RadioDevices::COM2 => Some(1u8),
        RadioDevices::NAV1 => Some(2u8),
        RadioDevices::NAV2 => Some(3u8),
        RadioDevices::XPDR => Some(6u8),
        _ => None,
    }
}

/// The selection after a device-select byte `b`: the device it names, or the
/// previous selection where it names none.
pub open spec fn selection_after(previous: RadioDevices, b: u8) -> RadioDevices {
    match device_of_byte(b) {
        Some(d) => d,
        None => previous,
    }
}

/// The byte table and its reverse are inverse to each other: a byte names a
/// device exactly when that device is written as that byte.
pub proof fn lemma_device_byte_bijection(b: u8, d: RadioDevices)
    ensures
        device_of_byte(b) == Some(d) <==> byte_of_device(d) == Some(b),
{
}

/// The device that wire byte `b` names; `None` where it names none.
pub fn device_from_byte(b: u8) -> (r: Option<RadioDevices>)
    ensures
        r == device_of_byte(b),
{
    match b {
        0 => Some(RadioDevices::COM1),
        1 => Some(RadioDevices::COM2),
        2 => Some(RadioDevices::NAV1),
        3 => Some(RadioDevices::NAV2),
        6 => Some(RadioDevices::XPDR),
        _ => None,
    }
}

/// Converts a device-select byte to a radio device. A byte that names no
/// device gives `COM1`, so an unknown selector never stops the bridge.
pub fn convert_to_device(number: u8) -> (r: RadioDevices)
    ensures
        r == device_for_byte(number),
{
    match device_from_byte(number) {
        Some(d) => d,
        None => RadioDevices::COM1,
    }
}

/// The wire byte that names a device; `None` for the devices the panel cannot
/// select.
pub fn device_to_byte(device: RadioDevices) -> (r: Option<u8>)
    ensures
        r == byte_of_device(device),
{
    match device {
        RadioDevices::COM1 => Some(0),
        RadioDevices::COM2 => Some(1),
        RadioDevices::NAV1 => Some(2),
        RadioDevices::NAV2 => Some(3),
        RadioDevices::XPDR => Some(6),
        _ => None,
    }
}

/// Keeps track of the radio device selected on the panel.
#[derive(Debug)]
pub struct DeviceSelectHandler {
    selected_device: RadioDevices,
}

impl View for DeviceSelectHandler {
    /// The selected device.
    type V = RadioDevices;

    closed spec fn view(&self) -> RadioDevices {
        self.selected_device
    }
}

impl DeviceSelectHandler {
    /// A handler with `COM1` selected.
    pub fn new() -> (r: Self)
        ensures
            r@ == RadioDevices::COM1,
    {
        DeviceSelectHandler { selected_device: RadioDevices::COM1 }
    }

    pub fn get_selected_device(&self) -> (r: RadioDevices)
        ensures
            r == self@,
    {
        self.selected_device
    }

    /// A packet that asks the panel which device it has selected.
    pub fn compose_request_device_packet(&self) -> (r: Packet)
        ensures
            r.packet_ident == DEVICE_SELECT_PACKET_ID,
            r.payload@.len() == 0,
    {
        Packet::new(self.get_packet_id(), Vec::new())
    }

    /// Applies a device-select packet: the first payload byte selects a
    /// device. A byte that names no device leaves the selection as it was.
    pub fn handle_packet(&mut self, packet: &Packet) -> (r: Result<(), HandlerError>)
        ensures
            packet.payload@.len() == 0 ==> r == Err::<(), HandlerError>(HandlerError::PayloadTooShort)
                && final(self)@ == old(self)@,
            packet.payload@.len() > 0 ==> r is Ok && final(self)@ == selection_after(
                old(self)@,
                packet.payload@[0],
            ),
    {
        if packet.payload.len() == 0 {
            return Err(HandlerError::PayloadTooShort);
        }
        if let Some(device) = device_from_byte(packet.payload[0]) {
            self.selected_device = device;
        }
        Ok(())
    }

    pub fn get_packet_id(&self) -> (r: u8)
        ensures
            r == DEVICE_SELECT_PACKET_ID,
    {
        DEVICE_SELECT_PACKET_ID
    }
}

} // verus!
