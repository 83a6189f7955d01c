//! Live wireless-network state: reconciling raw scans with the current
//! network, a single-slot snapshot cache with its query rules, and the window
//! visibility coordinator of a menu-bar utility.

pub mod cache;
pub mod network;
pub mod platform;
pub mod reconcile;
pub mod visibility;

pub use cache::{build_scan_result, CacheLookup, ScanCache, ScanError};
pub use network::{CurrentNetwork, ScanResult, WifiNetwork};
pub use platform::{get_current_network, get_known_ssids, request_location_permission, LocationPermission};
pub use reconcile::{apply_current, reconcile, sort_networks};
pub use visibility::{
    FocusDecision, TrayAction, VisibilityState, WindowAction, WindowEvent, FOCUS_GRACE_PERIOD_MS,
};
