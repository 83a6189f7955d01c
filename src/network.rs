use vstd::prelude::*;

verus! {

/// One access point as seen by a scan.
#[derive(Debug, Clone, PartialEq, Eq)]
pub struct WifiNetwork {
    pub ssid: String,
    pub rssi: i32,
    pub channel: i32,
    pub security: String,
}

/// The network the device is associated with.
#[derive(Debug, Clone, PartialEq, Eq)]
pub struct CurrentNetwork {
    pub ssid: String,
    pub rssi: i32,
}

/// One complete snapshot of the wireless state: the unit that is cached.
#[derive(Debug, Clone, PartialEq, Eq)]
pub struct ScanResult {
    pub networks: Vec<WifiNetwork>,
    pub location_permission: String,
    pub current_network: Option<CurrentNetwork>,
    pub known_ssids: Vec<String>,
}

/// The mathematical content of a `ScanResult`.
pub struct ScanSnapshot {
    pub networks: Seq<WifiNetwork>,
    pub location_permission: String,
    pub current_network: Option<CurrentNetwork>,
    pub known_ssids: Seq<String>,
}

impl View for ScanResult {
    type V = ScanSnapshot;

    open spec fn view(&self) -> ScanSnapshot {
        ScanSnapshot {
            networks: self.networks@,
            location_permission: self.location_permission,
            current_network: self.current_network,
            known_ssids: self.known_ssids@,
        }
    }
}

impl WifiNetwork {
    pub fn copy(&self) -> (r: WifiNetwork)
        ensures
            r == *self,
    {
        WifiNetwork {
            ssid: self.ssid.clone(),
            rssi: self.rssi,
            channel: self.channel,
            security: self.security.clone(),
        }
    }
}

impl CurrentNetwork {
    pub fn copy(&self) -> (r: CurrentNetwork)
        ensures
            r == *self,
    {
        CurrentNetwork { ssid: self.ssid.clone(), rssi: self.rssi }
    }
}

pub fn copy_networks(v: &Vec<WifiNetwork>) -> (r: Vec<WifiNetwork>)
    ensures
        r@ == v@,
{
    let mut r: Vec<WifiNetwork> = Vec::new();
    let mut i: usize = 0;
    while i < v.len()
        invariant
            i <= v.len(),
            r@ == v@.subrange(0, i as int),
        decreases v.len() - i,
    {
        r.push(v[i].copy());
        i = i + 1;
    }
    assert(r@ =~= v@);
    r
}

pub fn copy_strings(v: &Vec<String>) -> (r: Vec<String>)
    ensures
        r@ == v@,
{
    let mut r: Vec<String> = Vec::new();
    let mut i: usize = 0;
    while i < v.len()
        invariant
            i <= v.len(),
            r@ == v@.subrange(0, i as int),
        decreases v.len() - i,
    {
        r.push(v[i].clone());
        i = i + 1;
    }
    assert(r@ =~= v@);
    r
}

impl ScanResult {
    /// A fresh value equal in content to this one.
    pub fn copy(&self) -> (r: ScanResult)
        ensures
            r@ == self@,
    {
        let current = match &self.current_network {
            Some(c) => Some(c.copy()),
            None => None,
        };
        ScanResult {
            networks: copy_networks(&self.networks),
            location_permission: self.location_permission.clone(),
            current_network: current,
            known_ssids: copy_strings(&self.known_ssids),
        }
    }
}

} // verus!
