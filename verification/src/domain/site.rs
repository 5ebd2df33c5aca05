use vstd::prelude::*;

use crate::domain::{
    DhcpConfig, DnsConfig, FirewallConfig, HostDef, InterfaceDef, Metadata, NetworkDef,
    PortForwardConfig, RemoteAccessConfig, ReverseProxyConfig, ServiceDef, SwitchDef, WifiConfig,
};

verus! {

/// The canonical model of a site.
#[derive(Debug, Clone, PartialEq, Eq)]
pub struct SiteConfig {
    pub metadata: Metadata,
    pub interfaces: Vec<InterfaceDef>,
    pub networks: Vec<NetworkDef>,
    pub hosts: Vec<HostDef>,
    pub services: Vec<ServiceDef>,
    pub dns: Option<DnsConfig>,
    pub dhcp: Option<DhcpConfig>,
    pub port_forwards: PortForwardConfig,
    pub reverse_proxies: ReverseProxyConfig,
    pub remote_access: RemoteAccessConfig,
    pub firewall: FirewallConfig,
    pub wifi: WifiConfig,
    pub switches: Vec<SwitchDef>,
}

} // verus!
