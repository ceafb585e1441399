//! Identification of an advertising peripheral as a known hub kind, from the
//! advertised service identifiers and the vendor-specific manufacturer
//! bytes.  The function is pure: it is run during passive discovery and
//! again at connect time when the caller did not already know the kind.

use vstd::prelude::*;
use crate::consts::{
    hub_type_for_code, spec_hub_type_for_code, HubType, LEGO_VENDOR_ID, LPF2_HUB_SERVICE,
    WEDO2_SMART_HUB_SERVICE,
};

verus! {

/// What one peripheral advertises, as plain values: the optional local name,
/// the set of service identifiers, and the manufacturer data keyed by 16-bit
/// vendor id.
#[derive(Debug)]
pub struct AdvertisedProperties {
    pub local_name: Option<String>,
    pub services: Vec<u128>,
    pub manufacturer_data: Vec<(u16, Vec<u8>)>,
}

/// The payload advertised under `vendor`: the bytes of the first entry with
/// that vendor id, if any.
pub open spec fn spec_vendor_payload(md: Seq<(u16, Vec<u8>)>, vendor: u16) -> Option<Seq<u8>>
    decreases md.len(),
{
    if md.len() == 0 {
        None
    } else if md[0].0 == vendor {
        Some(md[0].1@)
    } else {
        spec_vendor_payload(md.drop_first(), vendor)
    }
}

/// Looks the manufacturer data up by vendor id.
pub fn vendor_payload<'a>(md: &'a Vec<(u16, Vec<u8>)>, vendor: u16) -> (r: Option<&'a Vec<u8>>)
    ensures
        match r {
            Some(p) => spec_vendor_payload(md@, vendor) == Some(p@),
            None => spec_vendor_payload(md@, vendor) is None,
        },
{
    let mut i: usize = 0;
    proof {
        assert(md@.skip(0) =~= md@);
    }
    while i < md.len()
        invariant
            i <= md@.len(),
            spec_vendor_payload(md@, vendor) == spec_vendor_payload(md@.skip(i as int), vendor),
        decreases md@.len() - i,
    {
        let pair = &md[i];
        proof {
            assert(md@.skip(i as int)[0] == md@[i as int]);
        }
        if pair.0 == vendor {
            return Some(&pair.1);
        }
        proof {
            assert(md@.skip(i as int).drop_first() =~= md@.skip(i as int + 1));
        }
        i = i + 1;
    }
    proof {
        assert(md@.skip(i as int) =~= Seq::<(u16, Vec<u8>)>::empty());
    }
    None
}

/// Whether the advertised service-identifier set contains `id`.
pub fn services_contain(services: &Vec<u128>, id: u128) -> (r: bool)
    ensures
        r == services@.contains(id),
{
    let mut i: usize = 0;
    while i < services.len()
        invariant
            i <= services@.len(),
            forall|j: int| 0 <= j < i ==> services@[j] != id,
        decreases services@.len() - i,
    {
        if services[i] == id {
            return true;
        }
        i = i + 1;
    }
    false
}

/// What identification says of a peripheral's advertisement.
///
/// The smart-hub service identifier decides alone.  Otherwise the
/// LPF2-family service identifier opens the manufacturer-data branch: the
/// vendor payload's byte at offset 1 is mapped through the closed code
/// table, and a missing vendor entry, a payload too short to carry offset 1,
/// or a code outside the table identify nothing.
pub open spec fn spec_identify(props: AdvertisedProperties) -> Option<HubType> {
    if props.services@.contains(WEDO2_SMART_HUB_SERVICE) {
        Some(HubType::Wedo2SmartHub)
    } else if props.services@.contains(LPF2_HUB_SERVICE) {
        match spec_vendor_payload(props.manufacturer_data@, LEGO_VENDOR_ID) {
            Some(payload) => {
                if payload.len() >= 2 {
                    spec_hub_type_for_code(payload[1])
                } else {
                    None
                }
            },
            None => None,
        }
    } else {
        None
    }
}

/// Classifies an advertising peripheral into a known hub kind, if any.
pub fn identify(props: &AdvertisedProperties) -> (r: Option<HubType>)
    ensures
        r == spec_identify(*props),
{
    if services_contain(&props.services, WEDO2_SMART_HUB_SERVICE) {
        return Some(HubType::Wedo2SmartHub);
    }
    if services_contain(&props.services, LPF2_HUB_SERVICE) {
        match vendor_payload(&props.manufacturer_data, LEGO_VENDOR_ID) {
            Some(payload) => {
                if payload.len() >= 2 {
                    return hub_type_for_code(payload[1]);
                }
            },
            None => {},
        }
    }
    None
}

/// Law: a peripheral advertising the smart-hub service identifier is
/// identified as that kind, whatever its manufacturer data and name hold.
pub proof fn lemma_wedo2_service_identifies(props: AdvertisedProperties)
    requires
        props.services@.contains(WEDO2_SMART_HUB_SERVICE),
    ensures
        spec_identify(props) == Some(HubType::Wedo2SmartHub),
{
}

/// Law: for a peripheral advertising the LPF2-family service identifier (and
/// not the smart-hub one) whose vendor payload carries an offset-1 code,
/// identification returns exactly what the closed code table says of that
/// code -- the mapped kind for a known code, nothing for any other.
pub proof fn lemma_lpf2_code_identifies(props: AdvertisedProperties, payload: Seq<u8>)
    requires
        !props.services@.contains(WEDO2_SMART_HUB_SERVICE),
        props.services@.contains(LPF2_HUB_SERVICE),
        spec_vendor_payload(props.manufacturer_data@, LEGO_VENDOR_ID) == Some(payload),
        payload.len() >= 2,
    ensures
        spec_identify(props) == spec_hub_type_for_code(payload[1]),
{
}

/// Law: with no vendor entry in the manufacturer data, the LPF2 branch
/// identifies nothing.
pub proof fn lemma_lpf2_without_vendor_data(props: AdvertisedProperties)
    requires
        !props.services@.contains(WEDO2_SMART_HUB_SERVICE),
        spec_vendor_payload(props.manufacturer_data@, LEGO_VENDOR_ID) is None,
    ensures
        spec_identify(props) is None,
{
}

/// Law: a peripheral advertising neither gating service identifier is never
/// identified.
pub proof fn lemma_no_service_no_identification(props: AdvertisedProperties)
    requires
        !props.services@.contains(WEDO2_SMART_HUB_SERVICE),
        !props.services@.contains(LPF2_HUB_SERVICE),
    ensures
        spec_identify(props) is None,
{
}

} // verus!
