//! Who a session is held with.

use vstd::prelude::*;
use vstd::std_specs::cmp::PartialEqSpecImpl;

verus! {

/// One device of one remote participant.
///
/// A user may run several devices, each with a session of its own, so an
/// address is the pair of the user's stable name and a device index. Two
/// addresses are the same exactly when both parts are.
#[derive(Debug, Eq)]
pub struct ProtocolAddress {
    name: String,
    device_id: u32,
}

/// The mathematical value of a [`ProtocolAddress`].
pub struct AddressView {
    pub name: Seq<char>,
    pub device_id: u32,
}

impl View for ProtocolAddress {
    type V = AddressView;

    closed spec fn view(&self) -> AddressView {
        AddressView { name: self.name@, device_id: self.device_id }
    }
}

impl ProtocolAddress {
    /// The address of device `device_id` of the user called `name`.
    pub fn new(name: String, device_id: u32) -> (address: Self)
        ensures
            address@ == (AddressView { name: name@, device_id }),
    {
        ProtocolAddress { name, device_id }
    }

    /// The user's stable name.
    pub fn name(&self) -> (name: &str)
        ensures
            name@ == self@.name,
    {
        self.name.as_str()
    }

    /// The index of the device among the user's devices.
    pub fn device_id(&self) -> (device_id: u32)
        ensures
            device_id == self@.device_id,
    {
        self.device_id
    }
}

impl PartialEq for ProtocolAddress {
    fn eq(&self, other: &Self) -> (same: bool) {
        self.name == other.name && self.device_id == other.device_id
    }
}

impl PartialEqSpecImpl for ProtocolAddress {
    open spec fn obeys_eq_spec() -> bool {
        true
    }

    open spec fn eq_spec(&self, other: &Self) -> bool {
        self@ == other@
    }
}

impl Clone for ProtocolAddress {
    fn clone(&self) -> (copy: Self)
        ensures
            copy@ == self@,
    {
        ProtocolAddress { name: self.name.clone(), device_id: self.device_id }
    }
}

} // verus!
