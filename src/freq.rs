//! Frequency packets: the panel's frequency and transponder settings turned
//! into simulator writes, and simulator updates turned back into packets.
//!
//! Payload layout: byte 0 names the device; bytes 1..5 hold the standby value
//! and bytes 5..9 the active value, each a big-endian 32-bit integer. For a
//! radio the values are frequencies in kHz; for the transponder the active
//! value is the decimal squawk code and the standby value is unused.

use vstd::prelude::*;

use crate::bcd::{bcd16_to_u32, bcd_decode, bcd_encode, u32_to_bcd16};
use crate::device_select::{
    byte_of_device,
    convert_to_device,
    device_for_byte,
    device_of_byte,
    device_to_byte,
};
use crate::packet::{HandlerError, Packet};
use crate::sim_freq::{RadioDevices, RadioOptions, SetRequest};

verus! {

/// Packet kind of a frequency packet.
pub const FREQ_PACKET_ID: u8 = 1;

/// Payload bytes of a frequency packet.
pub const FREQ_PAYLOAD_LEN: usize = 9;

/// Largest transponder code: four decimal digits.
pub const MAX_XPDR_CODE: u32 = 9999;

/// The big-endian integer in bytes `i..i + 4` of `s`.
pub open spec fn be32_at(s: Seq<u8>, i: int) -> int {
    s[i] * 0x100_0000 + s[i + 1] * 0x1_0000 + s[i + 2] * 0x100 + s[i + 3]
}

/// The four big-endian bytes of `v`.
pub open spec fn be32_bytes(v: u32) -> Seq<u8> {
    seq![(v / 0x100_0000) as u8, (v / 0x1_0000 % 0x100) as u8, (v / 0x100 % 0x100) as u8, (v % 0x100) as u8]
}

/// The simulator writes that a frequency packet's payload asks for.
///
/// A transponder packet sets the code, packed as BCD; a radio packet sets the
/// active and then the standby frequency, scaled from kHz to Hz.
pub open spec fn freq_requests(payload: Seq<u8>) -> Result<Seq<SetRequest>, HandlerError> {
    if payload.len() < FREQ_PAYLOAD_LEN {
        Err(HandlerError::PayloadTooShort)
    } else {
        let device = device_for_byte(payload[0]);
        let standby = be32_at(payload, 1);
        let active = be32_at(payload, 5);
        if device == RadioDevices::XPDR {
            if active > MAX_XPDR_CODE {
                Err(HandlerError::CodeOutOfRange)
            } else {
                Ok(
                    seq![SetRequest { device: RadioDevices::XPDR, option: RadioOptions::CODE, value: bcd_encode(active as nat) as u64 }],
                )
            }
        } else {
            Ok(
                seq![
                    SetRequest { device, option: RadioOptions::ACTIVE, value: (active * 1000) as u64 },
                    SetRequest { device, option: RadioOptions::STANDBY, value: (standby * 1000) as u64 },
                ],
            )
        }
    }
}

/// The state of one radio device as the simulator reports it.
/// Frequencies are in Hz; the transponder code is packed BCD, as the
/// simulator keeps it.
#[derive(Debug, Clone, Copy, PartialEq, Eq, Structural)]
pub struct RadioData {
    pub radio_type: RadioDevices,
    pub active: Option<u64>,
    pub standby: Option<u64>,
    pub code: Option<u64>,
}

/// The payload of the frequency packet that reports `data` to the panel, if
/// it can be reported.
///
/// A radio needs both frequencies, each below `2^32` kHz; they are sent in
/// whole kHz. The transponder needs a code that is a valid packed BCD number
/// of at most four digits; it is sent as the decimal code, with zero for
/// standby. Devices the panel cannot select are not reported.
pub open spec fn update_payload(data: RadioData) -> Option<Seq<u8>> {
    match byte_of_device(data.radio_type) {
        None => None,
        Some(b) => if data.radio_type == RadioDevices::XPDR {
            match data.code {
                Some(c) => if c <= u32::MAX && bcd_decode(c as nat) <= MAX_XPDR_CODE && bcd_encode(
                    bcd_decode(c as nat),
                ) == c {
                    Some(seq![b] + be32_bytes(0) + be32_bytes(bcd_decode(c as nat) as u32))
                } else {
                    None
                },
                None => None,
            }
        } else {
            match (data.active, data.standby) {
                (Some(a), Some(s)) => if a / 1000 <= u32::MAX && s / 1000 <= u32::MAX {
                    Some(seq![b] + be32_bytes((s / 1000) as u32) + be32_bytes((a / 1000) as u32))
                } else {
                    None
                },
                _ => None,
            }
        },
    }
}

/// Reading back the four bytes of `v` gives `v`.
pub proof fn lemma_be32_round_trip(v: u32)
    ensures
        be32_at(be32_bytes(v), 0) == v,
{
    let s = be32_bytes(v);
    assert(s[0] * 0x100_0000 + s[1] * 0x1_0000 + s[2] * 0x100 + s[3] == v) by (nonlinear_arith)
        requires
            s[0] == v / 0x100_0000,
            s[1] == v / 0x1_0000 % 0x100,
            s[2] == v / 0x100 % 0x100,
            s[3] == v % 0x100,
            v <= u32::MAX,
    ;
}

/// The writes that reproduce a reported update on the simulator: the code for
/// the transponder, the active and then the standby frequency (in whole kHz)
/// for a radio.
pub open spec fn update_requests(data: RadioData) -> Seq<SetRequest> {
    if data.radio_type == RadioDevices::XPDR {
        seq![SetRequest { device: RadioDevices::XPDR, option: RadioOptions::CODE, value: data.code->0 }]
    } else {
        seq![
            SetRequest { device: data.radio_type, option: RadioOptions::ACTIVE, value: (data.active->0 / 1000 * 1000) as u64 },
            SetRequest { device: data.radio_type, option: RadioOptions::STANDBY, value: (data.standby->0 / 1000 * 1000) as u64 },
        ]
    }
}

/// Outbound encoding mirrors inbound decoding: the packet that reports an
/// update, handled as if the panel had sent it, asks for the writes that
/// reproduce the update.
pub proof fn lemma_update_round_trip(data: RadioData)
    requires
        update_payload(data) is Some,
    ensures
        freq_requests(update_payload(data)->0) == Ok::<Seq<SetRequest>, HandlerError>(
            update_requests(data),
        ),
{
    let payload = update_payload(data)->0;
    let b = byte_of_device(data.radio_type)->0;
    assert(device_of_byte(b) == Some(data.radio_type));
    assert(payload[0] == b);
    if data.radio_type == RadioDevices::XPDR {
        let c = data.code->0;
        let d = bcd_decode(c as nat) as u32;
        lemma_be32_round_trip(0);
        lemma_be32_round_trip(d);
        assert(payload.subrange(1, 5) == be32_bytes(0));
        assert(payload.subrange(5, 9) == be32_bytes(d));
        assert(be32_at(payload, 5) == be32_at(payload.subrange(5, 9), 0));
    } else {
        let sk = (data.standby->0 / 1000) as u32;
        let ak = (data.active->0 / 1000) as u32;
        lemma_be32_round_trip(sk);
        lemma_be32_round_trip(ak);
        assert(payload.subrange(1, 5) == be32_bytes(sk));
        assert(payload.subrange(5, 9) == be32_bytes(ak));
        assert(be32_at(payload, 1) == be32_at(payload.subrange(1, 5), 0));
        assert(be32_at(payload, 5) == be32_at(payload.subrange(5, 9), 0));
    }
}

/// The big-endian integer in bytes `i..i + 4` of `p`.
fn read_be32(p: &Vec<u8>, i: usize) -> (r: u32)
    requires
        i + 4 <= p.len(),
    ensures
        r == be32_at(p@, i as int),
{
    let b0 = p[i] as u32;
    let b1 = p[i + 1] as u32;
    let b2 = p[i + 2] as u32;
    let b3 = p[i + 3] as u32;
    b0 * 0x100_0000 + b1 * 0x1_0000 + b2 * 0x100 + b3
}

/// Appends the four big-endian bytes of `v`.
fn push_be32(out: &mut Vec<u8>, v: u32)
    ensures
        final(out)@ == old(out)@ + be32_bytes(v),
{
    out.push((v / 0x100_0000) as u8);
    out.push((v / 0x1_0000 % 0x100) as u8);
    out.push((v / 0x100 % 0x100) as u8);
    out.push((v % 0x100) as u8);
}

/// Handles frequency packets from the panel and reports simulator updates
/// back to it.
#[derive(Debug)]
pub struct FreqHandler {}

impl FreqHandler {
    pub fn new() -> Self {
        FreqHandler {}
    }

    /// The frequency packets that report a simulator update to the panel:
    /// none where there is no update, or where the update cannot be sent
    /// (see `update_payload`).
    pub fn check_for_freq_updates(&mut self, update: Option<RadioData>) -> (r: Option<Vec<Packet>>)
        ensures
            match update {
                None => r is None,
                Some(data) => match update_payload(data) {
                    None => r is None,
                    Some(payload) => r matches Some(v) && v@.len() == 1 && v@[0].packet_ident
                        == FREQ_PACKET_ID && v@[0].payload@ == payload,
                },
            },
    {
        match update {
            None => None,
            Some(data) => match encode_update(&data) {
                None => None,
                Some(payload) => {
                    let mut packets: Vec<Packet> = Vec::new();
                    packets.push(Packet::new(FREQ_PACKET_ID, payload));
                    Some(packets)
                },
            },
        }
    }

    /// The simulator writes that a frequency packet asks for, in the order
    /// they are to be made (see `freq_requests`). Each write stands on its
    /// own: one that fails does not cancel the others.
    pub fn handle_packet(&mut self, packet: &Packet) -> (r: Result<Vec<SetRequest>, HandlerError>)
        ensures
            match r {
                Ok(v) => freq_requests(packet.payload@) == Ok::<Seq<SetRequest>, HandlerError>(v@),
                Err(e) => freq_requests(packet.payload@) == Err::<Seq<SetRequest>, HandlerError>(e),
            },
    {
        let payload = &packet.payload;
        if payload.len() < FREQ_PAYLOAD_LEN {
            return Err(HandlerError::PayloadTooShort);
        }
        let radio_type = convert_to_device(payload[0]);
        let standby_freq = read_be32(payload, 1);
        let active_freq = read_be32(payload, 5);
        let mut requests: Vec<SetRequest> = Vec::new();
        if radio_type == RadioDevices::XPDR {
            if active_freq > MAX_XPDR_CODE {
                return Err(HandlerError::CodeOutOfRange);
            }
            let code = u32_to_bcd16(active_freq);
            requests.push(
                SetRequest { device: RadioDevices::XPDR, option: RadioOptions::CODE, value: code as u64 },
            );
        } else {
            requests.push(
                SetRequest {
                    device: radio_type,
                    option: RadioOptions::ACTIVE,
                    value: active_freq as u64 * 1000,
                },
            );
            requests.push(
                SetRequest {
                    device: radio_type,
                    option: RadioOptions::STANDBY,
                    value: standby_freq as u64 * 1000,
                },
            );
        }
        assert(requests@ == freq_requests(packet.payload@)->Ok_0);
        Ok(requests)
    }

    pub fn get_packet_id(&self) -> (r: u8)
        ensures
            r == FREQ_PACKET_ID,
    {
        FREQ_PACKET_ID
    }
}

/// The payload that reports `data` to the panel (see `update_payload`).
pub fn encode_update(data: &RadioData) -> (r: Option<Vec<u8>>)
    ensures
        match update_payload(*data) {
            None => r is None,
            Some(p) => r matches Some(v) && v@ == p,
        },
{
    let device_byte = match device_to_byte(data.radio_type) {
        None => return None,
        Some(b) => b,
    };
    let mut payload: Vec<u8> = Vec::new();
    payload.push(device_byte);
    if data.radio_type == RadioDevices::XPDR {
        let code = match data.code {
            None => return None,
            Some(c) => c,
        };
        if code > u32::MAX as u64 {
            return None;
        }
        let decimal = bcd16_to_u32(code as u32);
        if decimal > MAX_XPDR_CODE || u32_to_bcd16(decimal) as u64 != code {
            return None;
        }
        push_be32(&mut payload, 0);
        push_be32(&mut payload, decimal);
    } else {
        let (active, standby) = match (data.active, data.standby) {
            (Some(a), Some(s)) => (a, s),
            _ => return None,
        };
        if active / 1000 > u32::MAX as u64 || standby / 1000 > u32::MAX as u64 {
            return None;
        }
        push_be32(&mut payload, (standby / 1000) as u32);
        push_be32(&mut payload, (active / 1000) as u32);
    }
    Some(payload)
}

} // verus!
