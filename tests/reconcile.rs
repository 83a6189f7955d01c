use wifi_monitor::{apply_current, reconcile, sort_networks, CurrentNetwork, WifiNetwork};

fn net(ssid: &str, rssi: i32) -> WifiNetwork {
    WifiNetwork { ssid: ssid.to_string(), rssi, channel: 6, security: "Open".to_string() }
}

fn pairs(v: &[WifiNetwork]) -> Vec<(String, i32)> {
    v.iter().map(|n| (n.ssid.clone(), n.rssi)).collect()
}

#[test]
fn current_network_strength_leads_sorted_output() {
    let raw = vec![net("A", -70), net("B", -40), net("C", -60)];
    let current = Some(CurrentNetwork { ssid: "B".to_string(), rssi: -35 });
    let out = reconcile(&raw, &current);
    assert_eq!(
        pairs(&out),
        vec![("B".to_string(), -35), ("C".to_string(), -60), ("A".to_string(), -70)]
    );
}

#[test]
fn sort_is_descending_and_stable() {
    let raw = vec![net("a", -60), net("b", -50), net("c", -60), net("d", -80), net("e", -50)];
    let out = sort_networks(raw);
    assert_eq!(
        pairs(&out),
        vec![
            ("b".to_string(), -50),
            ("e".to_string(), -50),
            ("a".to_string(), -60),
            ("c".to_string(), -60),
            ("d".to_string(), -80),
        ]
    );
}

#[test]
fn every_duplicate_ssid_takes_current_strength() {
    let raw = vec![net("mesh", -80), net("other", -50), net("mesh", -45)];
    let current = Some(CurrentNetwork { ssid: "mesh".to_string(), rssi: -55 });
    let out = reconcile(&raw, &current);
    assert_eq!(
        pairs(&out),
        vec![("other".to_string(), -50), ("mesh".to_string(), -55), ("mesh".to_string(), -55)]
    );
}

#[test]
fn no_current_network_leaves_strengths() {
    let raw = vec![net("x", -90), net("y", -30)];
    let out = reconcile(&raw, &None);
    assert_eq!(pairs(&out), vec![("y".to_string(), -30), ("x".to_string(), -90)]);
}

#[test]
fn unmatched_current_network_changes_nothing() {
    let raw = vec![net("x", -90), net("y", -30)];
    let current = Some(CurrentNetwork { ssid: "z".to_string(), rssi: -10 });
    let applied = apply_current(&raw, &current);
    assert_eq!(applied, raw);
}

#[test]
fn other_fields_are_kept() {
    let raw = vec![WifiNetwork {
        ssid: "home".to_string(),
        rssi: -70,
        channel: 36,
        security: "Wpa2PersonalPsk".to_string(),
    }];
    let current = Some(CurrentNetwork { ssid: "home".to_string(), rssi: -42 });
    let out = reconcile(&raw, &current);
    assert_eq!(
        out,
        vec![WifiNetwork {
            ssid: "home".to_string(),
            rssi: -42,
            channel: 36,
            security: "Wpa2PersonalPsk".to_string(),
        }]
    );
}

#[test]
fn empty_scan_reconciles_to_empty() {
    let out = reconcile(&Vec::new(), &Some(CurrentNetwork { ssid: "a".to_string(), rssi: 0 }));
    assert!(out.is_empty());
}
