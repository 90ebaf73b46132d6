//! Picking the panel's serial port out of the ports the system offers.

use vstd::prelude::*;

verus! {

/// A serial port as the system lists it: its name, and the USB vendor and
/// product id where it is a USB port.
#[derive(Debug, Clone)]
pub struct PortInfo {
    pub port_name: String,
    pub usb_id: Option<(u16, u16)>,
}

/// The port is a USB port whose (vendor id, product id) is on the list.
pub open spec fn port_accepted(port: PortInfo, accepted: Seq<(u16, u16)>) -> bool {
    match port.usb_id {
        Some(id) => accepted.contains(id),
        None => false,
    }
}

/// The names of the accepted ports, in the order they were listed.
pub open spec fn accepted_names(ports: Seq<PortInfo>, accepted: Seq<(u16, u16)>) -> Seq<Seq<char>>
    decreases ports.len(),
{
    if ports.len() == 0 {
        Seq::empty()
    } else {
        let rest = accepted_names(ports.drop_last(), accepted);
        if port_accepted(ports.last(), accepted) {
            rest.push(ports.last().port_name@)
        } else {
            rest
        }
    }
}

/// Whether `id` is on the list.
fn is_accepted(id: (u16, u16), accepted: &Vec<(u16, u16)>) -> (r: bool)
    ensures
        r == accepted@.contains(id),
{
    let mut i: usize = 0;
    while i < accepted.len()
        invariant
            i <= accepted@.len(),
            forall|j: int| 0 <= j < i ==> accepted@[j] != id,
        decreases accepted.len() - i,
    {
        let (vid, pid) = accepted[i];
        if vid == id.0 && pid == id.1 {
            return true;
        }
        i = i + 1;
    }
    false
}

/// The names of the ports whose USB (vendor id, product id) is on the list,
/// in the order the ports were listed; `None` where there is none.
pub fn matching_ports(ports: &Vec<PortInfo>, accepted_vid_pid: &Vec<(u16, u16)>) -> (r: Option<Vec<String>>)
    ensures
        accepted_names(ports@, accepted_vid_pid@).len() == 0 ==> r is None,
        accepted_names(ports@, accepted_vid_pid@).len() > 0 ==> (r matches Some(v) && v@.map_values(
            |s: String| s@,
        ) == accepted_names(ports@, accepted_vid_pid@)),
{
    let mut available_ports: Vec<String> = Vec::new();
    let mut i: usize = 0;
    while i < ports.len()
        invariant
            i <= ports@.len(),
            available_ports@.map_values(|s: String| s@) == accepted_names(
                ports@.subrange(0, i as int),
                accepted_vid_pid@,
            ),
        decreases ports.len() - i,
    {
        let ghost prefix = ports@.subrange(0, i + 1);
        assert(prefix.drop_last() == ports@.subrange(0, i as int));
        assert(prefix.last() == ports@[i as int]);
        let accepted = match ports[i].usb_id {
            Some(id) => is_accepted(id, accepted_vid_pid),
            None => false,
        };
        if accepted {
            available_ports.push(ports[i].port_name.clone());
        }
        i = i + 1;
        assert(available_ports@.map_values(|s: String| s@) == accepted_names(prefix, accepted_vid_pid@));
    }
    assert(ports@.subrange(0, i as int) == ports@);
    if available_ports.len() > 0 {
        Some(available_ports)
    } else {
        None
    }
}

} // verus!
