use lego_powered_up::consts::{
    hub_type_for_code, HubType, LEGO_VENDOR_ID, LPF2_HUB_SERVICE, WEDO2_SMART_HUB_SERVICE,
};
use lego_powered_up::identify::{identify, services_contain, vendor_payload, AdvertisedProperties};

fn props(
    name: Option<&str>,
    services: Vec<u128>,
    manufacturer_data: Vec<(u16, Vec<u8>)>,
) -> AdvertisedProperties {
    AdvertisedProperties {
        local_name: name.map(|n| n.to_string()),
        services,
        manufacturer_data,
    }
}

#[test]
fn wedo2_service_identifies_regardless_of_manufacturer_data() {
    let p = props(Some("hub"), vec![WEDO2_SMART_HUB_SERVICE], vec![]);
    assert_eq!(identify(&p), Some(HubType::Wedo2SmartHub));

    let p = props(
        None,
        vec![0x1234, WEDO2_SMART_HUB_SERVICE],
        vec![(LEGO_VENDOR_ID, vec![0, 0x80, 6, 0, 97, 0])],
    );
    assert_eq!(identify(&p), Some(HubType::Wedo2SmartHub));

    let p = props(
        Some("x"),
        vec![WEDO2_SMART_HUB_SERVICE],
        vec![(LEGO_VENDOR_ID, vec![0, 0xFF])],
    );
    assert_eq!(identify(&p), Some(HubType::Wedo2SmartHub));
}

#[test]
fn lpf2_service_maps_every_known_code() {
    let cases: Vec<(u8, HubType)> = vec![
        (0x20, HubType::DuploTrainBase),
        (0x40, HubType::MoveHub),
        (0x41, HubType::Hub),
        (0x42, HubType::RemoteControl),
        (0x43, HubType::Mario),
        (0x80, HubType::TechnicMediumHub),
    ];
    for (code, kind) in cases {
        let p = props(
            Some("hub"),
            vec![LPF2_HUB_SERVICE],
            vec![(LEGO_VENDOR_ID, vec![0, code, 6, 0])],
        );
        assert_eq!(identify(&p), Some(kind));
        assert_eq!(hub_type_for_code(code), Some(kind));
    }
}

#[test]
fn lpf2_service_unknown_code_identifies_nothing() {
    for code in [0x00u8, 0x07, 0x21, 0x3F, 0x44, 0x7F, 0x81, 0xFF] {
        let p = props(
            Some("hub"),
            vec![LPF2_HUB_SERVICE],
            vec![(LEGO_VENDOR_ID, vec![0, code])],
        );
        assert_eq!(identify(&p), None);
        assert_eq!(hub_type_for_code(code), None);
    }
}

#[test]
fn lpf2_service_without_vendor_entry_identifies_nothing() {
    let p = props(Some("hub"), vec![LPF2_HUB_SERVICE], vec![]);
    assert_eq!(identify(&p), None);

    let p = props(
        Some("hub"),
        vec![LPF2_HUB_SERVICE],
        vec![(500, vec![0, 0x80])],
    );
    assert_eq!(identify(&p), None);
}

#[test]
fn lpf2_service_with_short_payload_identifies_nothing() {
    let p = props(
        Some("hub"),
        vec![LPF2_HUB_SERVICE],
        vec![(LEGO_VENDOR_ID, vec![0])],
    );
    assert_eq!(identify(&p), None);

    let p = props(
        Some("hub"),
        vec![LPF2_HUB_SERVICE],
        vec![(LEGO_VENDOR_ID, vec![])],
    );
    assert_eq!(identify(&p), None);
}

#[test]
fn neither_service_identifies_nothing() {
    let p = props(
        Some("hub"),
        vec![0x1234, 0x5678],
        vec![(LEGO_VENDOR_ID, vec![0, 0x80])],
    );
    assert_eq!(identify(&p), None);

    let p = props(None, vec![], vec![]);
    assert_eq!(identify(&p), None);
}

#[test]
fn technic_hub_advertisement_identifies() {
    // The shape of a real Technic hub advertisement: LPF2 service id and a
    // vendor payload carrying the Technic code at offset 1.
    let p = props(
        Some("game"),
        vec![LPF2_HUB_SERVICE],
        vec![(LEGO_VENDOR_ID, vec![0, 128, 6, 0, 97, 0])],
    );
    assert_eq!(identify(&p), Some(HubType::TechnicMediumHub));
}

#[test]
fn service_and_vendor_lookups() {
    let services = vec![1u128, LPF2_HUB_SERVICE, 9u128];
    assert!(services_contain(&services, LPF2_HUB_SERVICE));
    assert!(!services_contain(&services, WEDO2_SMART_HUB_SERVICE));
    assert!(!services_contain(&Vec::new(), LPF2_HUB_SERVICE));

    let md = vec![(5u16, vec![1u8]), (LEGO_VENDOR_ID, vec![2u8, 3u8])];
    assert_eq!(vendor_payload(&md, LEGO_VENDOR_ID), Some(&vec![2u8, 3u8]));
    assert_eq!(vendor_payload(&md, 7), None);
}
