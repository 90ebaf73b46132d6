//! Routes each packet to the handler for its kind. The dispatcher owns both
//! handlers, and with them the device selection.

use vstd::prelude::*;

use crate::device_select::{
    device_from_byte,
    device_of_byte,
    selection_after,
    DeviceSelectHandler,
    DEVICE_SELECT_PACKET_ID,
};
use crate::freq::{freq_requests, update_payload, FreqHandler, RadioData, FREQ_PACKET_ID};
use crate::packet::{HandlerError, Packet};
use crate::sim_freq::{RadioDevices, SetRequest};

verus! {

/// What handling one packet came to.
#[derive(Debug)]
pub enum DispatchOutcome {
    /// No handler takes packets of this kind; nothing changed.
    Ignored(u8),
    /// A device-select packet selected this device.
    Selected(RadioDevices),
    /// A device-select packet named no device; the selection stayed.
    UnknownDevice(u8),
    /// A frequency packet asks for these simulator writes, in this order.
    Requests(Vec<SetRequest>),
}

/// The selection after one packet of kind `kind` with payload `payload`.
pub open spec fn selection_after_packet(selected: RadioDevices, kind: u8, payload: Seq<u8>) -> RadioDevices {
    if kind == DEVICE_SELECT_PACKET_ID && payload.len() > 0 {
        selection_after(selected, payload[0])
    } else {
        selected
    }
}

/// The selection after a run of packets, each given as (kind, payload),
/// handled in order.
pub open spec fn selection_after_packets(selected: RadioDevices, packets: Seq<(u8, Seq<u8>)>) -> RadioDevices
    decreases packets.len(),
{
    if packets.len() == 0 {
        selected
    } else {
        selection_after_packets(
            selection_after_packet(selected, packets[0].0, packets[0].1),
            packets.drop_first(),
        )
    }
}

/// Packets of any other kind than device-select leave the selection alone,
/// however many of them come.
pub proof fn lemma_selection_unchanged(selected: RadioDevices, packets: Seq<(u8, Seq<u8>)>)
    requires
        forall|i: int| 0 <= i < packets.len() ==> (#[trigger] packets[i]).0 != DEVICE_SELECT_PACKET_ID,
    ensures
        selection_after_packets(selected, packets) == selected,
    decreases packets.len(),
{
    if packets.len() > 0 {
        assert(packets[0].0 != DEVICE_SELECT_PACKET_ID);
        let rest = packets.drop_first();
        assert forall|i: int| 0 <= i < rest.len() implies (#[trigger] rest[i]).0
            != DEVICE_SELECT_PACKET_ID by {
            assert(rest[i] == packets[i + 1]);
        }
        lemma_selection_unchanged(selected, rest);
    }
}

/// A device-select packet that names device `d` selects it, and the selection
/// stays `d` through any run of packets that holds no device-select packet.
pub proof fn lemma_selection_persists(
    selected: RadioDevices,
    select_payload: Seq<u8>,
    d: RadioDevices,
    later: Seq<(u8, Seq<u8>)>,
)
    requires
        select_payload.len() > 0,
        device_of_byte(select_payload[0]) == Some(d),
        forall|i: int| 0 <= i < later.len() ==> (#[trigger] later[i]).0 != DEVICE_SELECT_PACKET_ID,
    ensures
        selection_after_packets(selected, seq![(DEVICE_SELECT_PACKET_ID, select_payload)] + later) == d,
{
    let all = seq![(DEVICE_SELECT_PACKET_ID, select_payload)] + later;
    assert(all.drop_first() == later);
    lemma_selection_unchanged(d, later);
}

/// Hands each packet to the handler registered for its kind.
#[derive(Debug)]
pub struct Dispatcher {
    device_select: DeviceSelectHandler,
    freq: FreqHandler,
}

impl View for Dispatcher {
    /// The selected device.
    type V = RadioDevices;

    closed spec fn view(&self) -> RadioDevices {
        self.device_select@
    }
}

impl Dispatcher {
    /// A dispatcher with `COM1` selected.
    pub fn new() -> (r: Self)
        ensures
            r@ == RadioDevices::COM1,
    {
        Dispatcher { device_select: DeviceSelectHandler::new(), freq: FreqHandler::new() }
    }

    pub fn get_selected_device(&self) -> (r: RadioDevices)
        ensures
            r == self@,
    {
        self.device_select.get_selected_device()
    }

    /// Handles one packet with the handler for its kind.
    ///
    /// A frequency packet gives the simulator writes it asks for; a
    /// device-select packet updates the selection; a packet of any other kind
    /// is ignored, with no error. Only a device-select packet changes the
    /// selection.
    pub fn dispatch(&mut self, packet: &Packet) -> (r: Result<DispatchOutcome, HandlerError>)
        ensures
            final(self)@ == selection_after_packet(old(self)@, packet.packet_ident, packet.payload@),
            packet.packet_ident == FREQ_PACKET_ID ==> match r {
                Ok(DispatchOutcome::Requests(v)) => freq_requests(packet.payload@) == Ok::<
                    Seq<SetRequest>,
                    HandlerError,
                >(v@),
                Ok(_) => false,
                Err(e) => freq_requests(packet.payload@) == Err::<Seq<SetRequest>, HandlerError>(e),
            },
            packet.packet_ident == DEVICE_SELECT_PACKET_ID ==> match r {
                Ok(DispatchOutcome::Selected(d)) => packet.payload@.len() > 0 && device_of_byte(
                    packet.payload@[0],
                ) == Some(d),
                Ok(DispatchOutcome::UnknownDevice(b)) => packet.payload@.len() > 0 && b
                    == packet.payload@[0] && device_of_byte(b) is None,
                Ok(_) => false,
                Err(e) => packet.payload@.len() == 0 && e == HandlerError::PayloadTooShort,
            },
            packet.packet_ident != FREQ_PACKET_ID && packet.packet_ident != DEVICE_SELECT_PACKET_ID
                ==> (r matches Ok(DispatchOutcome::Ignored(k)) && k == packet.packet_ident),
    {
        if packet.packet_ident == self.freq.get_packet_id() {
            match self.freq.handle_packet(packet) {
                Ok(requests) => Ok(DispatchOutcome::Requests(requests)),
                Err(e) => Err(e),
            }
        } else if packet.packet_ident == self.device_select.get_packet_id() {
            match self.device_select.handle_packet(packet) {
                Ok(()) => {
                    let b = packet.payload[0];
                    match device_from_byte(b) {
                        Some(d) => Ok(DispatchOutcome::Selected(d)),
                        None => Ok(DispatchOutcome::UnknownDevice(b)),
                    }
                },
                Err(e) => Err(e),
            }
        } else {
            Ok(DispatchOutcome::Ignored(packet.packet_ident))
        }
    }

    /// The packets that report a simulator update to the panel (see
    /// `FreqHandler::check_for_freq_updates`).
    pub fn check_for_freq_updates(&mut self, update: Option<RadioData>) -> (r: Option<Vec<Packet>>)
        ensures
            final(self)@ == old(self)@,
            match update {
                None => r is None,
                Some(data) => match update_payload(data) {
                    None => r is None,
                    Some(payload) => r matches Some(v) && v@.len() == 1 && v@[0].packet_ident
                        == FREQ_PACKET_ID && v@[0].payload@ == payload,
                },
            },
    {
        self.freq.check_for_freq_updates(update)
    }
}

} // verus!
