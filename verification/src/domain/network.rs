use vstd::prelude::*;

verus! {

/// An interface of the gateway, with its addresses and attached networks.
#[derive(Debug, Clone, PartialEq, Eq)]
pub struct InterfaceDef {
    pub logical_name: String,
    pub name: String,
    pub role: InterfaceRole,
    pub kind: InterfaceKind,
    pub addresses: Vec<String>,
    pub network_refs: Vec<String>,
    pub vlan_tags: Vec<u16>,
}

/// What an interface is used for.
#[derive(Debug, Clone, Copy, PartialEq, Eq, Structural)]
pub enum InterfaceRole {
    Wan,
    Lan,
    WifiUplink,
    Trunk,
    Management,
}

/// How an interface is built.
#[derive(Debug, Clone, Copy, PartialEq, Eq, Structural)]
pub enum InterfaceKind {
    Physical,
    Bridge,
    Vlan,
    Bond,
}

/// A routed network of the site.
#[derive(Debug, Clone, PartialEq, Eq)]
pub struct NetworkDef {
    pub name: String,
    pub cidr: String,
    pub zone: String,
    pub description: String,
    pub dns_domain: Option<String>,
    pub vlan: Option<VlanDef>,
    pub dhcp_pool: Option<DhcpPool>,
    pub routes: Vec<RouteDef>,
}

/// The VLAN that carries a network.
#[derive(Debug, Clone, PartialEq, Eq)]
pub struct VlanDef {
    pub id: u16,
    pub parent_interface: Option<String>,
}

/// A static route.
#[derive(Debug, Clone, PartialEq, Eq)]
pub struct RouteDef {
    pub destination: String,
    pub via: String,
    pub metric: Option<u32>,
}

/// A managed switch and its uplinks.
#[derive(Debug, Clone, PartialEq, Eq)]
pub struct SwitchDef {
    pub name: String,
    pub management_ip: Option<String>,
    pub uplinks: Vec<UplinkDef>,
}

/// A switch port that carries traffic to a device.
#[derive(Debug, Clone, PartialEq, Eq)]
pub struct UplinkDef {
    pub switch_name: Option<String>,
    pub port: String,
    pub native_vlan: Option<u16>,
    pub tagged_vlans: Vec<u16>,
    pub expected_networks: Vec<String>,
}

/// The DHCP address range of a network.
#[derive(Debug, PartialEq, Eq)]
pub struct DhcpPool {
    pub network: String,
    pub start: String,
    pub end: String,
    pub lease_time: String,
}

impl Clone for DhcpPool {
    fn clone(&self) -> (r: Self)
        ensures
            r == *self,
    {
        DhcpPool {
            network: self.network.clone(),
            start: self.start.clone(),
            end: self.end.clone(),
            lease_time: self.lease_time.clone(),
        }
    }
}

} // verus!
