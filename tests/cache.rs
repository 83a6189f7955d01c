use wifi_monitor::{
    build_scan_result, CacheLookup, CurrentNetwork, ScanCache, ScanError, ScanResult, WifiNetwork,
};

fn net(ssid: &str, rssi: i32) -> WifiNetwork {
    WifiNetwork { ssid: ssid.to_string(), rssi, channel: 1, security: "Open".to_string() }
}

fn snapshot(rssi: i32) -> ScanResult {
    build_scan_result(
        "authorized".to_string(),
        None,
        vec!["home".to_string()],
        Ok(vec![net("home", rssi)]),
    )
    .unwrap()
}

#[test]
fn build_reconciles_and_keeps_readings() {
    let r = build_scan_result(
        "denied".to_string(),
        Some(CurrentNetwork { ssid: "B".to_string(), rssi: -35 }),
        vec!["B".to_string(), "Z".to_string()],
        Ok(vec![net("A", -70), net("B", -40), net("C", -60)]),
    )
    .unwrap();
    let names: Vec<(String, i32)> = r.networks.iter().map(|n| (n.ssid.clone(), n.rssi)).collect();
    assert_eq!(
        names,
        vec![("B".to_string(), -35), ("C".to_string(), -60), ("A".to_string(), -70)]
    );
    assert_eq!(r.location_permission, "denied");
    assert_eq!(r.current_network, Some(CurrentNetwork { ssid: "B".to_string(), rssi: -35 }));
    assert_eq!(r.known_ssids, vec!["B".to_string(), "Z".to_string()]);
}

#[test]
fn build_reports_scan_failure() {
    let r = build_scan_result("unknown".to_string(), None, Vec::new(), Err("no interface".to_string()));
    assert_eq!(r, Err(ScanError::ScanFailed("no interface".to_string())));
}

#[test]
fn cold_read_asks_for_one_refresh_then_serves_cache() {
    let mut cache = ScanCache::new();
    assert!(matches!(cache.lookup(), CacheLookup::Refresh));
    let first = cache.complete_refresh(Ok(snapshot(-50))).unwrap();
    assert_eq!(first, snapshot(-50));
    match cache.lookup() {
        CacheLookup::Cached(v) => assert_eq!(v, snapshot(-50)),
        CacheLookup::Refresh => panic!("a filled cache asked for a refresh"),
    }
    assert_eq!(cache.current(), Some(snapshot(-50)));
}

#[test]
fn forced_refresh_becomes_next_read() {
    let mut cache = ScanCache::new();
    cache.publish(snapshot(-80));
    let forced = cache.complete_refresh(Ok(snapshot(-30))).unwrap();
    assert_eq!(forced, snapshot(-30));
    match cache.lookup() {
        CacheLookup::Cached(v) => assert_eq!(v, snapshot(-30)),
        CacheLookup::Refresh => panic!("a filled cache asked for a refresh"),
    }
}

#[test]
fn failed_scan_keeps_prior_cache() {
    let mut cache = ScanCache::new();
    cache.publish(snapshot(-60));
    let failed = build_scan_result("authorized".to_string(), None, Vec::new(), Err("busy".to_string()));
    let r = cache.complete_refresh(failed);
    assert_eq!(r, Err(ScanError::ScanFailed("busy".to_string())));
    match cache.lookup() {
        CacheLookup::Cached(v) => assert_eq!(v, snapshot(-60)),
        CacheLookup::Refresh => panic!("a failed refresh emptied the cache"),
    }
}

#[test]
fn failed_cold_refresh_leaves_cache_empty() {
    let mut cache = ScanCache::new();
    let r = cache.complete_refresh(Err(ScanError::ScanFailed("down".to_string())));
    assert!(r.is_err());
    assert_eq!(cache.current(), None);
    assert!(matches!(cache.lookup(), CacheLookup::Refresh));
}
