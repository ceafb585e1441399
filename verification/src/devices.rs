//! Port-level handles: the device instance the registry's factory binds to
//! one physical port of one hub, and the controller that exclusively owns
//! it.  The per-kind control logic of a device is an external collaborator;
//! what the registry decides about ports is fully captured here.

use vstd::prelude::*;
use crate::hubs::Port;

verus! {

/// A device instance bound to one physical port of one hub: the hub-assigned
/// physical id, the port kind, and the string form of the owning hub's
/// address, under which outbound traffic for the device is routed.
#[derive(Debug)]
pub struct Device {
    pub port_id: u8,
    pub port_type: Port,
    pub hub_addr: String,
}

/// The device-instance factory: binds a physical port id, a port kind and a
/// hub address into a fresh device instance.
pub fn create_device(port_id: u8, port_type: Port, hub_addr: &String) -> (r: Device)
    ensures
        r.port_id == port_id,
        r.port_type == port_type,
        r.hub_addr@ == hub_addr@,
{
    Device { port_id, port_type, hub_addr: hub_addr.clone() }
}

/// A client's handle on one port of a connected hub.  The device instance's
/// lifetime is owned solely by its controller.
#[derive(Debug)]
pub struct PortController {
    pub port_id: u8,
    pub port_type: Port,
    pub device: Device,
}

} // verus!
