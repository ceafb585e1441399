//! Protocol constants: the service identifiers that gate hub identification,
//! the vendor id under which hubs publish manufacturer data, the control
//! characteristic required on every connected hub, and the closed table
//! mapping advertised device-type codes to hub kinds.

use vstd::prelude::*;

verus! {

/// The kinds of hub this library can identify.  `Unknown` is the sentinel a
/// caller passes when it wants the kind discovered at connect time.
#[derive(Clone, Copy, Debug, PartialEq, Eq, Structural)]
pub enum HubType {
    Unknown,
    Wedo2SmartHub,
    Hub,
    MoveHub,
    RemoteControl,
    DuploTrainBase,
    Mario,
    TechnicMediumHub,
}

/// Service identifier advertised by smart hubs of the WeDo 2.0 generation.
pub const WEDO2_SMART_HUB_SERVICE: u128 = 0x00001523_1212_efde_1523_785feabcd123;

/// Service identifier advertised by every hub of the LPF2 family.
pub const LPF2_HUB_SERVICE: u128 = 0x00001623_1212_efde_1623_785feabcd123;

/// The characteristic that carries all LPF2 control traffic; every connected
/// hub must expose it.
pub const LPF2_ALL_CHARACTERISTIC: u128 = 0x00001624_1212_efde_1623_785feabcd123;

/// The 16-bit vendor id under which LEGO hubs publish manufacturer data in
/// their advertisements.
pub const LEGO_VENDOR_ID: u16 = 919;

/// The closed table mapping the device-type code found at offset 1 of the
/// vendor manufacturer payload to a hub kind.  Codes outside the table
/// identify nothing.
pub open spec fn spec_hub_type_for_code(code: u8) -> Option<HubType> {
    if code == 0x20 {
        Some(HubType::DuploTrainBase)
    } else if code == 0x40 {
        Some(HubType::MoveHub)
    } else if code == 0x41 {
        Some(HubType::Hub)
    } else if code == 0x42 {
        Some(HubType::RemoteControl)
    } else if code == 0x43 {
        Some(HubType::Mario)
    } else if code == 0x80 {
        Some(HubType::TechnicMediumHub)
    } else {
        None
    }
}

/// Looks a device-type code up in the closed code table.
pub fn hub_type_for_code(code: u8) -> (r: Option<HubType>)
    ensures
        r == spec_hub_type_for_code(code),
{
    if code == 0x20 {
        Some(HubType::DuploTrainBase)
    } else if code == 0x40 {
        Some(HubType::MoveHub)
    } else if code == 0x41 {
        Some(HubType::Hub)
    } else if code == 0x42 {
        Some(HubType::RemoteControl)
    } else if code == 0x43 {
        Some(HubType::Mario)
    } else if code == 0x80 {
        Some(HubType::TechnicMediumHub)
    } else {
        None
    }
}

} // verus!
