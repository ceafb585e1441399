//! Connection management for LEGO Powered Up Bluetooth Low-Energy hubs.
//!
//! The library holds the logic of the connection-management layer: the
//! identification of an advertising peripheral as a known hub kind, the
//! bookkeeping of discovered hubs and of the single pending "wait for a hub"
//! registration, the address-keyed registry of live hub connections with its
//! port-lookup, send and disconnect operations, and the bounded retry policy
//! for establishing a connection.  Every function here is verified; the
//! Bluetooth adapter itself, the channels and the tasks that drive these
//! state machines live outside the library and hand it plain values.

pub mod consts;
pub mod devices;
pub mod discovery;
pub mod error;
pub mod hubs;
pub mod identify;
pub mod registry;
pub mod retry;

pub use consts::HubType;
pub use devices::PortController;
pub use discovery::{DeviceNotificationMessage, DiscoveredHub, HubFilter, PoweredUpInternal};
pub use error::Error;
pub use hubs::Port;
pub use registry::{HubController, HubManager};
