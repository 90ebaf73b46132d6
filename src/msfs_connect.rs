//! Writes to the simulator's radios by event id: which event writes which
//! radio setting, and the value it takes.

use vstd::prelude::*;

use crate::bcd::{bcd_encode, u64_to_bcd16};

verus! {

/// The two frequency slots of a radio.
#[derive(Debug, Clone, Copy, PartialEq, Eq, Structural)]
pub enum MSFSFreqOptions {
    Active,
    Standby,
}

#[derive(Clone, Copy, Debug, PartialEq, Eq, Structural)]
pub enum MSFSRadioDevices {
    COM1,
    COM2,
    NAV1,
    NAV2,
    DME,
    ADF,
    XPDR,
}

#[derive(Clone, Copy, Debug, PartialEq, Eq, Structural)]
pub enum MSFSCommunicatorError {
    /// No event writes that (device, slot) pair.
    InvalidDevice,
    /// The value does not fit the event's 32-bit argument, or a transponder
    /// code has too many digits to pack.
    InvalidValue,
}

/// The ids that the simulator gave to the radio events.
#[derive(Clone, Copy, Debug, PartialEq, Eq, Structural)]
pub struct MSFSEventIds {
    pub event_com1_active_set: u32,
    pub event_com1_standby_set: u32,
    pub event_com2_active_set: u32,
    pub event_com2_standby_set: u32,
    pub event_nav1_active_set: u32,
    pub event_nav1_standby_set: u32,
    pub event_nav2_active_set: u32,
    pub event_nav2_standby_set: u32,
    pub event_xpndr_set: u32,
}

/// Largest value a transponder code may have before packing: sixteen digits.
pub const MAX_PACKABLE_CODE: u64 = 9_999_999_999_999_999;

/// The event that writes `option` of `device`, if there is one. The
/// transponder's code is written through its active slot.
pub open spec fn event_for(ids: MSFSEventIds, device: MSFSRadioDevices, option: MSFSFreqOptions) -> Option<u32> {
    match (device, option) {
        (MSFSRadioDevices::COM1, MSFSFreqOptions::Active) => Some(ids.event_com1_active_set),
        (MSFSRadioDevices::COM1, MSFSFreqOptions::Standby) => Some(ids.event_com1_standby_set),
        (MSFSRadioDevices::COM2, MSFSFreqOptions::Active) => Some(ids.event_com2_active_set),
        (MSFSRadioDevices::COM2, MSFSFreqOptions::Standby) => Some(ids.event_com2_standby_set),
        (MSFSRadioDevices::NAV1, MSFSFreqOptions::Active) => Some(ids.event_nav1_active_set),
        (MSFSRadioDevices::NAV1, MSFSFreqOptions::Standby) => Some(ids.event_nav1_standby_set),
        (MSFSRadioDevices::NAV2, MSFSFreqOptions::Active) => Some(ids.event_nav2_active_set),
        (MSFSRadioDevices::NAV2, MSFSFreqOptions::Standby) => Some(ids.event_nav2_standby_set),
        (MSFSRadioDevices::XPDR, MSFSFreqOptions::Active) => Some(ids.event_xpndr_set),
        _ => None,
    }
}

/// The value sent for `freq`: a transponder code goes packed as BCD, a
/// frequency in Hz goes as it is.
pub open spec fn event_value(device: MSFSRadioDevices, freq: u64) -> int {
    if device == MSFSRadioDevices::XPDR {
        bcd_encode(freq as nat) as int
    } else {
        freq as int
    }
}

impl MSFSEventIds {
    /// The event to send, and its argument, that set `option` of `device` to
    /// `freq` (a frequency in Hz, or a transponder code in decimal).
    pub fn event_for_update(&self, device: &MSFSRadioDevices, option: &MSFSFreqOptions, freq: u64) -> (r:
        Result<(u32, u32), MSFSCommunicatorError>)
        ensures
            event_for(*self, *device, *option) is None ==> r == Err::<(u32, u32), MSFSCommunicatorError>(
                MSFSCommunicatorError::InvalidDevice,
            ),
            event_for(*self, *device, *option) is Some ==> {
                if (*device == MSFSRadioDevices::XPDR && freq > MAX_PACKABLE_CODE) || event_value(
                    *device,
                    freq,
                ) > u32::MAX {
                    r == Err::<(u32, u32), MSFSCommunicatorError>(MSFSCommunicatorError::InvalidValue)
                } else {
                    r matches Ok((event, value)) && event == event_for(*self, *device, *option)->0
                        && value == event_value(*device, freq)
                }
            },
    {
        let event: u32 = match (device, option) {
            (MSFSRadioDevices::COM1, MSFSFreqOptions::Active) => self.event_com1_active_set,
            (MSFSRadioDevices::COM1, MSFSFreqOptions::Standby) => self.event_com1_standby_set,
            (MSFSRadioDevices::COM2, MSFSFreqOptions::Active) => self.event_com2_active_set,
            (MSFSRadioDevices::COM2, MSFSFreqOptions::Standby) => self.event_com2_standby_set,
            (MSFSRadioDevices::NAV1, MSFSFreqOptions::Active) => self.event_nav1_active_set,
            (MSFSRadioDevices::NAV1, MSFSFreqOptions::Standby) => self.event_nav1_standby_set,
            (MSFSRadioDevices::NAV2, MSFSFreqOptions::Active) => self.event_nav2_active_set,
            (MSFSRadioDevices::NAV2, MSFSFreqOptions::Standby) => self.event_nav2_standby_set,
            (MSFSRadioDevices::XPDR, MSFSFreqOptions::Active) => self.event_xpndr_set,
            _ => return Err(MSFSCommunicatorError::InvalidDevice),
        };
        let mut value = freq;
        if *device == MSFSRadioDevices::XPDR {
            if freq > MAX_PACKABLE_CODE {
                return Err(MSFSCommunicatorError::InvalidValue);
            }
            value = u64_to_bcd16(freq);
        }
        if value > u32::MAX as u64 {
            return Err(MSFSCommunicatorError::InvalidValue);
        }
        Ok((event, value as u32))
    }
}

/// A frequency given as whole MHz and kHz, in Hz.
pub fn mhz_khz_to_hz(mhz: u16, khz: u16) -> (r: u64)
    ensures
        r == mhz * 1_000_000 + khz * 1000,
{
    mhz as u64 * 1_000_000 + khz as u64 * 1000
}

} // verus!
