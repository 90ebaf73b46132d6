//! The simulator's side of the radio stack: which devices and settings exist,
//! and the simulator event that writes each setting.

use vstd::prelude::*;

verus! {

/// The possible radio devices that can be accessed.
#[derive(Debug, Clone, Copy, PartialEq, Eq, Structural)]
pub enum RadioDevices {
    COM1,
    COM2,
    NAV1,
    NAV2,
    DME,
    ADF,
    XPDR,
}

/// The settings a radio device holds.
#[derive(Debug, Clone, Copy, PartialEq, Eq, Hash, Structural)]
pub enum RadioOptions {
    ACTIVE,
    STANDBY,
    CODE,
}

/// One write to the simulator's radio stack: `set(device, option, value)`.
/// Frequencies are in Hz, transponder codes in packed BCD.
#[derive(Debug, Clone, Copy, PartialEq, Eq, Structural)]
pub struct SetRequest {
    pub device: RadioDevices,
    pub option: RadioOptions,
    pub value: u64,
}

/// A (device, setting) pair that the simulator can write.
#[derive(Debug, Clone, Copy, PartialEq, Eq, Structural)]
pub enum FrequencyName {
    Com1Active,
    Com1Standby,
    Com2Active,
    Com2Standby,
    Nav1Active,
    Nav1Standby,
    Nav2Active,
    Nav2Standby,
    XPDR,
}

/// Why a (device, setting) pair has no simulator event.
#[derive(Debug, Clone, Copy, PartialEq, Eq, Structural)]
pub enum FrequencyNameError {
    /// The device exists but does not hold that setting.
    BadCombination(RadioDevices, RadioOptions),
    /// The device cannot be written at all.
    DeviceNotFound(RadioDevices, RadioOptions),
}

/// The settable pair for `device` and `option`, if there is one.
pub open spec fn frequency_name_of(device: RadioDevices, option: RadioOptions) -> Option<FrequencyName> {
    match (device, option) {
        (RadioDevices::COM1, RadioOptions::ACTIVE) => Some(FrequencyName::Com1Active),
        (RadioDevices::COM1, RadioOptions::STANDBY) => Some(FrequencyName::Com1Standby),
        (RadioDevices::COM2, RadioOptions::ACTIVE) => Some(FrequencyName::Com2Active),
        (RadioDevices::COM2, RadioOptions::STANDBY) => Some(FrequencyName::Com2Standby),
        (RadioDevices::NAV1, RadioOptions::ACTIVE) => Some(FrequencyName::Nav1Active),
        (RadioDevices::NAV1, RadioOptions::STANDBY) => Some(FrequencyName::Nav1Standby),
        (RadioDevices::NAV2, RadioOptions::ACTIVE) => Some(FrequencyName::Nav2Active),
        (RadioDevices::NAV2, RadioOptions::STANDBY) => Some(FrequencyName::Nav2Standby),
        (RadioDevices::XPDR, RadioOptions::CODE) => Some(FrequencyName::XPDR),
        _ => None,
    }
}

/// Devices the simulator connection can write at all.
pub open spec fn is_settable_device(device: RadioDevices) -> bool {
    !(device is DME || device is ADF)
}

/// The simulator event name that writes `name`.
pub open spec fn event_name(name: FrequencyName) -> Seq<char> {
    match name {
        FrequencyName::Com1Active => "COM_RADIO_SET_HZ"@,
        FrequencyName::Com1Standby => "COM_STBY_RADIO_SET_HZ"@,
        FrequencyName::Com2Active => "COM2_RADIO_SET_HZ"@,
        FrequencyName::Com2Standby => "COM2_STBY_RADIO_SET_HZ"@,
        FrequencyName::Nav1Active => "NAV1_RADIO_SET_HZ"@,
        FrequencyName::Nav1Standby => "NAV1_STBY_SET_HZ"@,
        FrequencyName::Nav2Active => "NAV2_RADIO_SET_HZ"@,
        FrequencyName::Nav2Standby => "NAV2_STBY_SET_HZ"@,
        FrequencyName::XPDR => "XPNDR_SET"@,
    }
}

/// Every settable pair, in declaration order.
pub open spec fn all_frequency_names() -> Seq<FrequencyName> {
    seq![
        FrequencyName::Com1Active,
        FrequencyName::Com1Standby,
        FrequencyName::Com2Active,
        FrequencyName::Com2Standby,
        FrequencyName::Nav1Active,
        FrequencyName::Nav1Standby,
        FrequencyName::Nav2Active,
        FrequencyName::Nav2Standby,
        FrequencyName::XPDR,
    ]
}

impl FrequencyName {
    /// The settable pair for a device and one of its settings.
    pub fn from_public(device: RadioDevices, option: RadioOptions) -> (r: Result<FrequencyName, FrequencyNameError>)
        ensures
            match frequency_name_of(device, option) {
                Some(n) => r == Ok::<FrequencyName, FrequencyNameError>(n),
                None => if is_settable_device(device) {
                    r == Err::<FrequencyName, FrequencyNameError>(FrequencyNameError::BadCombination(device, option))
                } else {
                    r == Err::<FrequencyName, FrequencyNameError>(FrequencyNameError::DeviceNotFound(device, option))
                },
            },
    {
        match device {
            RadioDevices::COM1 => match option {
                RadioOptions::ACTIVE => Ok(FrequencyName::Com1Active),
                RadioOptions::STANDBY => Ok(FrequencyName::Com1Standby),
                _ => Err(FrequencyNameError::BadCombination(device, option)),
            },
            RadioDevices::COM2 => match option {
                RadioOptions::ACTIVE => Ok(FrequencyName::Com2Active),
                RadioOptions::STANDBY => Ok(FrequencyName::Com2Standby),
                _ => Err(FrequencyNameError::BadCombination(device, option)),
            },
            RadioDevices::NAV1 => match option {
                RadioOptions::ACTIVE => Ok(FrequencyName::Nav1Active),
                RadioOptions::STANDBY => Ok(FrequencyName::Nav1Standby),
                _ => Err(FrequencyNameError::BadCombination(device, option)),
            },
            RadioDevices::NAV2 => match option {
                RadioOptions::ACTIVE => Ok(FrequencyName::Nav2Active),
                RadioOptions::STANDBY => Ok(FrequencyName::Nav2Standby),
                _ => Err(FrequencyNameError::BadCombination(device, option)),
            },
            RadioDevices::XPDR => match option {
                RadioOptions::CODE => Ok(FrequencyName::XPDR),
                _ => Err(FrequencyNameError::BadCombination(device, option)),
            },
            _ => Err(FrequencyNameError::DeviceNotFound(device, option)),
        }
    }

    /// The simulator event name that writes this setting.
    pub fn as_event(&self) -> (r: String)
        ensures
            r@ == event_name(*self),
    {
        let name = match self {
            FrequencyName::Com1Active => "COM_RADIO_SET_HZ",
            FrequencyName::Com1Standby => "COM_STBY_RADIO_SET_HZ",
            FrequencyName::Com2Active => "COM2_RADIO_SET_HZ",
            FrequencyName::Com2Standby => "COM2_STBY_RADIO_SET_HZ",
            FrequencyName::Nav1Active => "NAV1_RADIO_SET_HZ",
            FrequencyName::Nav1Standby => "NAV1_STBY_SET_HZ",
            FrequencyName::Nav2Active => "NAV2_RADIO_SET_HZ",
            FrequencyName::Nav2Standby => "NAV2_STBY_SET_HZ",
            FrequencyName::XPDR => "XPNDR_SET",
        };
        name.to_string()
    }

    /// Every settable pair, in declaration order.
    pub fn all() -> (r: Vec<FrequencyName>)
        ensures
            r@ == all_frequency_names(),
    {
        vec![
            FrequencyName::Com1Active,
            FrequencyName::Com1Standby,
            FrequencyName::Com2Active,
            FrequencyName::Com2Standby,
            FrequencyName::Nav1Active,
            FrequencyName::Nav1Standby,
            FrequencyName::Nav2Active,
            FrequencyName::Nav2Standby,
            FrequencyName::XPDR,
        ]
    }
}

} // verus!
