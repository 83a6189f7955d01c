use vstd::prelude::*;

use crate::network::CurrentNetwork;

verus! {

/// Location-permission status as the platform reports it.
#[derive(Debug, Clone, Copy, PartialEq, Eq, Structural)]
pub enum LocationPermission {
    NotDetermined,
    Restricted,
    Denied,
    Authorized,
    NotSupported,
    Unknown,
}

/// The stable text under which a status is published.
pub open spec fn permission_label(p: LocationPermission) -> Seq<char> {
    match p {
        LocationPermission::NotDetermined => "not_determined"@,
        LocationPermission::Restricted => "restricted"@,
        LocationPermission::Denied => "denied"@,
        LocationPermission::Authorized => "authorized"@,
        LocationPermission::NotSupported => "not_supported"@,
        LocationPermission::Unknown => "unknown"@,
    }
}

impl LocationPermission {
    pub fn label(&self) -> (r: String)
        ensures
            r@ == permission_label(*self),
    {
        match self {
            LocationPermission::NotDetermined => "not_determined".to_owned(),
            LocationPermission::Restricted => "restricted".to_owned(),
            LocationPermission::Denied => "denied".to_owned(),
            LocationPermission::Authorized => "authorized".to_owned(),
            LocationPermission::NotSupported => "not_supported".to_owned(),
            LocationPermission::Unknown => "unknown".to_owned(),
        }
    }
}

/// The permission adapter where location services are not available.
pub fn request_location_permission() -> (r: String)
    ensures
        r@ == permission_label(LocationPermission::NotSupported),
{
    LocationPermission::NotSupported.label()
}

/// The current-network adapter where the platform cannot report one.
pub fn get_current_network() -> (r: Option<CurrentNetwork>)
    ensures
        r is None,
{
    None
}

/// The known-network adapter where the platform keeps no readable list.
pub fn get_known_ssids() -> (r: Vec<String>)
    ensures
        r@ == Seq::<String>::empty(),
{
    Vec::new()
}

} // verus!
