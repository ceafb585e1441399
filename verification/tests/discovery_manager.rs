use lego_powered_up::consts::{HubType, LEGO_VENDOR_ID, LPF2_HUB_SERVICE};
use lego_powered_up::discovery::{
    evaluate_discovery, resolve_wait, DiscoveredHub, HubFilter, HubNotificationParams,
    PoweredUpInternal, PoweredUpInternalControlMessage,
};
use lego_powered_up::error::Error;
use lego_powered_up::identify::AdvertisedProperties;

fn hub(kind: HubType, addr: &str, name: &str) -> DiscoveredHub {
    DiscoveredHub {
        hub_type: kind,
        addr: addr.to_string(),
        name: name.to_string(),
    }
}

#[test]
fn filter_by_name_matches_exactly() {
    let h = hub(HubType::TechnicMediumHub, "90:84:2B:60:3C:B8", "game");
    assert!(HubFilter::Name("game".to_string()).matches(&h));
    assert!(!HubFilter::Name("Game".to_string()).matches(&h));
    assert!(!HubFilter::Name("gam".to_string()).matches(&h));
    assert!(!HubFilter::Name("".to_string()).matches(&h));
}

#[test]
fn filter_by_addr_matches_exactly() {
    let h = hub(HubType::TechnicMediumHub, "90:84:2B:60:3C:B8", "game");
    assert!(HubFilter::Addr("90:84:2B:60:3C:B8".to_string()).matches(&h));
    assert!(!HubFilter::Addr("90:84:2B:60:3C:B9".to_string()).matches(&h));
    assert!(!HubFilter::Addr("game".to_string()).matches(&h));
}

#[test]
fn unfiltered_wait_consumed_by_first_discovery() {
    let mut manager = PoweredUpInternal::new();
    let displaced = manager.register_wait(HubNotificationParams { token: 7, filter: None });
    assert!(displaced.is_none());

    let reply = manager.on_hub_discovered(hub(HubType::MoveHub, "00:11", "a"));
    assert_eq!(reply, Some(7));
    assert!(manager.hub_notifications.is_none());
    assert_eq!(manager.discovered_hubs.len(), 1);
    assert_eq!(manager.discovered_hubs[0].name, "a");

    // The slot is empty now: a further discovery answers nobody.
    let reply = manager.on_hub_discovered(hub(HubType::MoveHub, "00:12", "b"));
    assert_eq!(reply, None);
    assert_eq!(manager.discovered_hubs.len(), 2);
}

#[test]
fn non_matching_filter_leaves_wait_in_place() {
    let mut manager = PoweredUpInternal::new();
    manager.register_wait(HubNotificationParams {
        token: 3,
        filter: Some(HubFilter::Name("wanted".to_string())),
    });

    let reply = manager.on_hub_discovered(hub(HubType::Hub, "00:11", "other"));
    assert_eq!(reply, None);
    assert!(manager.hub_notifications.is_some());
    assert_eq!(manager.discovered_hubs.len(), 1);

    let reply = manager.on_hub_discovered(hub(HubType::Hub, "00:12", "wanted"));
    assert_eq!(reply, Some(3));
    assert!(manager.hub_notifications.is_none());
    assert_eq!(manager.discovered_hubs.len(), 2);
}

#[test]
fn second_registration_replaces_and_returns_first() {
    let mut manager = PoweredUpInternal::new();
    manager.register_wait(HubNotificationParams { token: 1, filter: None });
    let displaced = manager.register_wait(HubNotificationParams { token: 2, filter: None });
    assert_eq!(displaced.map(|p| p.token), Some(1));

    let reply = manager.on_hub_discovered(hub(HubType::Mario, "00:11", "m"));
    assert_eq!(reply, Some(2));
}

#[test]
fn control_messages_stop_and_register() {
    let mut manager = PoweredUpInternal::new();
    let (stop, displaced) = manager.handle_control(PoweredUpInternalControlMessage::Stop);
    assert!(stop);
    assert!(displaced.is_none());

    let (stop, displaced) = manager.handle_control(
        PoweredUpInternalControlMessage::WaitForHub(HubNotificationParams {
            token: 9,
            filter: None,
        }),
    );
    assert!(!stop);
    assert!(displaced.is_none());
    assert_eq!(manager.hub_notifications.as_ref().map(|p| p.token), Some(9));
}

#[test]
fn discovery_event_with_positive_identification_emits_record() {
    let props = AdvertisedProperties {
        local_name: Some("game".to_string()),
        services: vec![LPF2_HUB_SERVICE],
        manufacturer_data: vec![(LEGO_VENDOR_ID, vec![0, 128, 6, 0, 97, 0])],
    };
    let addr = "90:84:2B:60:3C:B8".to_string();
    let r = evaluate_discovery(&addr, &props, false);
    let r = r.expect("expected a discovery record");
    assert_eq!(r.hub_type, HubType::TechnicMediumHub);
    assert_eq!(r.addr, "90:84:2B:60:3C:B8");
    assert_eq!(r.name, "game");
}

#[test]
fn discovery_event_ignores_connected_and_nameless_peripherals() {
    let props = AdvertisedProperties {
        local_name: Some("game".to_string()),
        services: vec![LPF2_HUB_SERVICE],
        manufacturer_data: vec![(LEGO_VENDOR_ID, vec![0, 128])],
    };
    let addr = "00:11".to_string();
    assert!(evaluate_discovery(&addr, &props, true).is_none());

    let nameless = AdvertisedProperties {
        local_name: None,
        services: vec![LPF2_HUB_SERVICE],
        manufacturer_data: vec![(LEGO_VENDOR_ID, vec![0, 128])],
    };
    assert!(evaluate_discovery(&addr, &nameless, false).is_none());

    let unidentified = AdvertisedProperties {
        local_name: Some("tv".to_string()),
        services: vec![0x1234],
        manufacturer_data: vec![],
    };
    assert!(evaluate_discovery(&addr, &unidentified, false).is_none());
}

#[test]
fn wait_resolution_delivers_record_or_times_out() {
    let h = hub(HubType::Hub, "00:11", "a");
    match resolve_wait(Some(h)) {
        Ok(got) => {
            assert_eq!(got.addr, "00:11");
            assert_eq!(got.name, "a");
        }
        Err(_) => panic!("expected the record"),
    }
    assert!(matches!(resolve_wait(None), Err(Error::Timeout)));
}
