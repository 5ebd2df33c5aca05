use vstd::prelude::*;

verus! {

/// A host of the site with its interfaces, DHCP reservations and Wi-Fi intent.
#[derive(Debug, Clone, PartialEq, Eq)]
pub struct HostDef {
    pub name: String,
    pub role: HostRole,
    pub network: Option<String>,
    pub management_ip: Option<String>,
    pub interfaces: Vec<HostInterfaceDef>,
    pub reservations: Vec<ReservationDef>,
    pub wifi: Option<HostWifiIntent>,
}

/// What a host does for the site.
#[derive(Debug, Clone, Copy, PartialEq, Eq, Structural)]
pub enum HostRole {
    Gateway,
    Server,
    AccessPoint,
    Client,
    Service,
}

/// One interface of a host.
#[derive(Debug, Clone, PartialEq, Eq)]
pub struct HostInterfaceDef {
    pub name: String,
    pub network: Option<String>,
    pub address: Option<String>,
}

/// A DHCP reservation that binds a MAC address to an IP address.
#[derive(Debug, PartialEq, Eq)]
pub struct ReservationDef {
    pub hostname: String,
    pub ip: String,
    pub mac: String,
}

impl Clone for ReservationDef {
    fn clone(&self) -> (r: Self)
        ensures
            r == *self,
    {
        ReservationDef { hostname: self.hostname.clone(), ip: self.ip.clone(), mac: self.mac.clone() }
    }
}

/// The access-point group and SSIDs a host is meant to use.
#[derive(Debug, Clone, PartialEq, Eq)]
pub struct HostWifiIntent {
    pub ap_group: Option<String>,
    pub ssids: Vec<String>,
}

} // verus!
