//! Building the user-facing MIDI device list from transport port names.
//!
//! Port discovery itself belongs to the MIDI transport; the library only
//! turns the list of names the transport hands over into ordered
//! `(index, name)` entries, substituting a placeholder wherever the
//! transport could not resolve a name.

use vstd::prelude::*;

verus! {

broadcast use vstd::string::group_string_axioms;

/// One entry in the user-facing device list: the port's zero-based
/// position and its human-readable name.
#[derive(Clone)]
pub struct MidiDevice {
    pub index: usize,
    pub name: String,
}

/// The name shown for a port: the transport-provided one, or the
/// placeholder where the transport could not resolve it.
pub open spec fn display_name(port_name: Option<String>) -> Seq<char> {
    match port_name {
        Some(n) => n@,
        None => "Unknown Device"@,
    }
}

/// Build the ordered device list from the transport's port names, one
/// entry per port, positions preserved. A pure, total function: an empty
/// port list yields an empty device list, never an error.
pub fn build_device_list(names: &Vec<Option<String>>) -> (devices: Vec<MidiDevice>)
    ensures
        devices@.len() == names@.len(),
        forall|i: int|
            0 <= i < devices@.len() ==> (#[trigger] devices@[i]).index == i && devices@[i].name@
                == display_name(names@[i]),
{
    let mut devices: Vec<MidiDevice> = Vec::new();
    let mut i: usize = 0;
    while i < names.len()
        invariant
            i <= names@.len(),
            devices@.len() == i,
            forall|j: int|
                0 <= j < i ==> (#[trigger] devices@[j]).index == j && devices@[j].name@
                    == display_name(names@[j]),
        decreases names@.len() - i,
    {
        let name: String = match &names[i] {
            Some(n) => n.clone(),
            None => "Unknown Device".to_string(),
        };
        devices.push(MidiDevice { index: i, name });
        i += 1;
    }
    devices
}

} // verus!
