//! The error taxonomy of the connection-management layer.  Every per-request
//! failure is one of these variants and is returned to the originating
//! caller; no request failure terminates an actor loop.

use vstd::prelude::*;
use crate::consts::HubType;
use crate::hubs::Port;

verus! {

/// Errors returned by the discovery, connection and registry operations.
#[derive(Debug, PartialEq, Eq)]
pub enum Error {
    /// No usable Bluetooth adapter was found.
    AdapterUnavailable,
    /// The adapter could not resolve a peripheral handle for the named
    /// address.
    PeripheralNotFound(String),
    /// Establishing the connection, enumerating characteristics or
    /// subscribing to notifications failed at the adapter level.
    ConnectFailed,
    /// The connected peripheral does not expose the control characteristic
    /// required for LPF2 traffic.
    CharacteristicMissing,
    /// The named address has no live hub entry in the registry.
    UnknownHub(String),
    /// The named port is absent from the port map of the live hub at the
    /// named address.
    UnknownPort(Port, String),
    /// A raw notification buffer could not be parsed into a message.
    ParseFailure,
    /// A wait-for-hub request ran out of time before a matching discovery.
    Timeout,
    /// The reply channel of a request closed before an answer arrived.
    ChannelClosed,
    /// The peripheral was identified as a hub kind this library cannot yet
    /// drive.
    UnsupportedHubKind(HubType),
    /// Connecting to the named address still failed after the given number
    /// of attempts.
    ConnectRetriesExhausted(String, usize),
}

} // verus!
