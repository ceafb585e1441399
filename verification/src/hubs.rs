//! Hub-side data: the physical port kinds, the static port map a hub
//! exposes, the notification messages exchanged with a hub, and the record
//! the registry keeps for each live hub connection.

use vstd::prelude::*;
use crate::consts::HubType;

verus! {

/// The physical connectors of a hub, referenced by logical kind.
#[derive(Clone, Copy, Debug, PartialEq, Eq, Structural)]
pub enum Port {
    /// External port A.
    A,
    /// External port B.
    B,
    /// External port C.
    C,
    /// External port D.
    D,
    HubLed,
    CurrentSensor,
    VoltageSensor,
    Accelerometer,
    GyroSensor,
    TiltSensor,
}

/// What a port map says about `port`: the hub-assigned physical id of the
/// first pair carrying that kind, if any.
pub open spec fn spec_port_lookup(m: Seq<(Port, u8)>, port: Port) -> Option<u8>
    decreases m.len(),
{
    if m.len() == 0 {
        None
    } else if m[0].0 == port {
        Some(m[0].1)
    } else {
        spec_port_lookup(m.drop_first(), port)
    }
}

/// Looks `port` up in a hub's static port map.
pub fn port_lookup(m: &Vec<(Port, u8)>, port: Port) -> (r: Option<u8>)
    ensures
        r == spec_port_lookup(m@, port),
{
    let mut i: usize = 0;
    proof {
        assert(m@.skip(0) =~= m@);
    }
    while i < m.len()
        invariant
            i <= m@.len(),
            spec_port_lookup(m@, port) == spec_port_lookup(m@.skip(i as int), port),
        decreases m@.len() - i,
    {
        let pair = m[i];
        proof {
            assert(m@.skip(i as int)[0] == m@[i as int]);
        }
        if pair.0 == port {
            return Some(pair.1);
        }
        proof {
            assert(m@.skip(i as int).drop_first() =~= m@.skip(i as int + 1));
        }
        i = i + 1;
    }
    proof {
        assert(m@.skip(i as int) =~= Seq::<(Port, u8)>::empty());
    }
    None
}

/// The static port map of a Technic medium hub: the four external ports and
/// the built-in devices, each with its hub-assigned physical id.  Port
/// kinds other hubs expose (a tilt sensor) are absent from it.
pub open spec fn spec_technic_hub_port_map() -> Seq<(Port, u8)> {
    seq![
        (Port::A, 0u8),
        (Port::B, 1u8),
        (Port::C, 2u8),
        (Port::D, 3u8),
        (Port::HubLed, 50u8),
        (Port::CurrentSensor, 59u8),
        (Port::VoltageSensor, 60u8),
        (Port::Accelerometer, 97u8),
        (Port::GyroSensor, 98u8),
    ]
}

/// Builds the static port map of a Technic medium hub.
pub fn technic_hub_port_map() -> (r: Vec<(Port, u8)>)
    ensures
        r@ == spec_technic_hub_port_map(),
{
    let r: Vec<(Port, u8)> = vec![
        (Port::A, 0u8),
        (Port::B, 1u8),
        (Port::C, 2u8),
        (Port::D, 3u8),
        (Port::HubLed, 50u8),
        (Port::CurrentSensor, 59u8),
        (Port::VoltageSensor, 60u8),
        (Port::Accelerometer, 97u8),
        (Port::GyroSensor, 98u8),
    ];
    proof {
        assert(r@ =~= spec_technic_hub_port_map());
    }
    r
}

/// A domain-level notification message exchanged with a hub.  The wire
/// format of the payload is outside this library's scope: the bytes are
/// carried exactly as the parser that produced them delivered them.
#[derive(Debug)]
pub struct NotificationMessage {
    pub payload: Vec<u8>,
}

impl Clone for NotificationMessage {
    /// Cloning keeps the payload bytes.
    fn clone(&self) -> (r: Self)
        ensures
            r.payload@ == self.payload@,
    {
        let payload = self.payload.clone();
        proof {
            assert(payload@ =~= self.payload@);
        }
        NotificationMessage { payload }
    }
}

/// What the registry keeps for one live hub connection: the address it is
/// keyed by, the identified kind, the advertised name, and the hub's static
/// port map.  The peripheral handle itself lives with the adapter-facing
/// code; the registry's decisions need only this record.
#[derive(Debug)]
pub struct HubEntry {
    pub addr: String,
    pub hub_type: HubType,
    pub name: String,
    pub port_map: Vec<(Port, u8)>,
}

} // verus!
