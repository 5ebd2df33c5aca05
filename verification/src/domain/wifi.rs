use vstd::prelude::*;

use crate::domain::UplinkDef;

verus! {

/// The Wi-Fi intent of the site: controller, SSIDs, access points and groups.
#[derive(Debug, Clone, PartialEq, Eq)]
pub struct WifiConfig {
    pub controller: ApController,
    pub expose_all_ssids_on_all_aps: bool,
    pub ssids: Vec<SsidDef>,
    pub access_points: Vec<AccessPointDef>,
    pub groups: Vec<AccessPointGroupDef>,
}

impl Default for WifiConfig {
    /// A manually managed Wi-Fi setup with nothing defined.
    fn default() -> (r: Self)
        ensures
            r.controller == ApController::Manual,
            !r.expose_all_ssids_on_all_aps,
            r.ssids@.len() == 0,
            r.access_points@.len() == 0,
            r.groups@.len() == 0,
    {
        WifiConfig {
            controller: ApController::Manual,
            expose_all_ssids_on_all_aps: false,
            ssids: Vec::new(),
            access_points: Vec::new(),
            groups: Vec::new(),
        }
    }
}

/// What manages the access points.
#[derive(Debug, Clone, Copy, PartialEq, Eq, Structural)]
pub enum ApController {
    Manual,
    Unifi,
    Omada,
    OpenWrt,
}

/// A wireless network, its VLAN, zone and the AP groups that broadcast it.
#[derive(Debug, Clone, PartialEq, Eq)]
pub struct SsidDef {
    pub name: String,
    pub vlan: u16,
    pub zone: String,
    pub broadcast_groups: Vec<String>,
}

/// An access point, how it is managed and where it is plugged in.
#[derive(Debug, Clone, PartialEq, Eq)]
pub struct AccessPointDef {
    pub name: String,
    pub management_ip: String,
    pub group: Option<String>,
    pub backend: ApBackend,
    pub uplink: UplinkDef,
    pub ssids: Vec<String>,
}

/// How one access point is managed.
#[derive(Debug, Clone, Copy, PartialEq, Eq, Structural)]
pub enum ApBackend {
    Manual,
    Unifi,
    Omada,
    OpenWrt,
}

/// A named group of access points sharing SSIDs.
#[derive(Debug, Clone, PartialEq, Eq)]
pub struct AccessPointGroupDef {
    pub name: String,
    pub ssids: Vec<String>,
    pub ap_names: Vec<String>,
    pub description: Option<String>,
}

} // verus!
