use wifi_monitor::{get_current_network, get_known_ssids, request_location_permission, LocationPermission};

#[test]
fn unsupported_platform_sentinels() {
    assert_eq!(request_location_permission(), "not_supported");
    assert_eq!(get_current_network(), None);
    assert!(get_known_ssids().is_empty());
}

#[test]
fn permission_labels() {
    assert_eq!(LocationPermission::NotDetermined.label(), "not_determined");
    assert_eq!(LocationPermission::Restricted.label(), "restricted");
    assert_eq!(LocationPermission::Denied.label(), "denied");
    assert_eq!(LocationPermission::Authorized.label(), "authorized");
    assert_eq!(LocationPermission::NotSupported.label(), "not_supported");
    assert_eq!(LocationPermission::Unknown.label(), "unknown");
}
