//! The configuration files of a site as they are written, before normalization.
use vstd::prelude::*;

use crate::domain::{
    ApBackend, ApController, HostRole, InterfaceKind, InterfaceRole, PolicyAction, PortProtocol,
    ProxyScheme, ProxyTlsMode, ReverseProxyProvider,
};

verus! {

/// The contents of `site.yaml`.
#[derive(Debug, Clone, PartialEq, Eq)]
pub struct SiteFile {
    pub metadata: RawMetadata,
}

/// Site metadata as written.
#[derive(Debug, Clone, PartialEq, Eq)]
pub struct RawMetadata {
    pub name: String,
    pub description: Option<String>,
    pub managed_prefix: Option<String>,
}

/// The contents of `interfaces.yaml`.
#[derive(Debug, Clone, PartialEq, Eq)]
pub struct InterfacesFile {
    pub interfaces: Vec<RawInterface>,
}

/// An interface as written.
#[derive(Debug, Clone, PartialEq, Eq)]
pub struct RawInterface {
    pub logical_name: Option<String>,
    pub name: String,
    pub role: InterfaceRole,
    pub kind: InterfaceKind,
    pub addresses: Vec<String>,
    pub network_refs: Vec<String>,
    pub vlan_tags: Vec<u16>,
}

/// One file of the `networks` directory.
#[derive(Debug, Clone, PartialEq, Eq)]
pub struct RawNetworkFile {
    pub name: String,
    pub cidr: String,
    pub zone: Option<String>,
    pub description: Option<String>,
    pub dns_domain: Option<String>,
    pub vlan: Option<u16>,
    pub parent_interface: Option<String>,
    pub dhcp: Option<RawDhcpPool>,
    pub routes: Vec<RawRoute>,
}

/// A route as written.
#[derive(Debug, Clone, PartialEq, Eq)]
pub struct RawRoute {
    pub destination: String,
    pub via: String,
    pub metric: Option<u32>,
}

/// A DHCP pool as written.
#[derive(Debug, Clone, PartialEq, Eq)]
pub struct RawDhcpPool {
    pub start: String,
    pub end: String,
    pub lease_time: String,
}

/// One file of the `hosts` directory.
#[derive(Debug, Clone, PartialEq, Eq)]
pub struct RawHostFile {
    pub name: String,
    pub role: HostRole,
    pub network: Option<String>,
    pub management_ip: Option<String>,
    pub interfaces: Vec<RawHostInterface>,
    pub reservations: Vec<RawReservation>,
    pub wifi: Option<RawHostWifiIntent>,
}

/// A host interface as written.
#[derive(Debug, Clone, PartialEq, Eq)]
pub struct RawHostInterface {
    pub name: String,
    pub network: Option<String>,
    pub address: Option<String>,
}

/// A DHCP reservation as written.
#[derive(Debug, Clone, PartialEq, Eq)]
pub struct RawReservation {
    pub hostname: String,
    pub ip: String,
    pub mac: String,
}

/// A host's Wi-Fi intent as written.
#[derive(Debug, Clone, PartialEq, Eq)]
pub struct RawHostWifiIntent {
    pub ap_group: Option<String>,
    pub ssids: Vec<String>,
}

/// The contents of `wifi/ssids.yaml`.
#[derive(Debug, Clone, PartialEq, Eq)]
pub struct RawSsidsFile {
    pub controller: Option<ApController>,
    pub expose_all_ssids_on_all_aps: bool,
    pub ssids: Vec<RawSsid>,
}

/// An SSID as written.
#[derive(Debug, Clone, PartialEq, Eq)]
pub struct RawSsid {
    pub name: String,
    pub vlan: u16,
    pub zone: String,
    pub broadcast_groups: Vec<String>,
}

/// The contents of `wifi/aps.yaml`.
#[derive(Debug, Clone, PartialEq, Eq)]
pub struct RawApsFile {
    pub aps: Vec<RawAp>,
}

/// An access point as written.
#[derive(Debug, Clone, PartialEq, Eq)]
pub struct RawAp {
    pub name: String,
    pub management_ip: String,
    pub group: Option<String>,
    pub backend: Option<ApBackend>,
    pub uplink: RawUplink,
    pub ssids: Vec<String>,
}

/// The contents of `wifi/groups.yaml`.
#[derive(Debug, Clone, PartialEq, Eq)]
pub struct RawGroupsFile {
    pub groups: Vec<RawApGroup>,
}

/// An access-point group as written.
#[derive(Debug, Clone, PartialEq, Eq)]
pub struct RawApGroup {
    pub name: String,
    pub description: Option<String>,
    pub ssids: Vec<String>,
    pub ap_names: Vec<String>,
}

/// An uplink as written.
#[derive(Debug, Clone, PartialEq, Eq)]
pub struct RawUplink {
    pub switch_name: Option<String>,
    pub port: String,
    pub native_vlan: Option<u16>,
    pub tagged_vlans: Vec<u16>,
    pub expected_networks: Vec<String>,
}

/// The contents of `firewall/zones.yaml`.
#[derive(Debug, Clone, PartialEq, Eq)]
pub struct RawZonesFile {
    pub zones: Vec<RawZone>,
}

/// A firewall zone as written.
#[derive(Debug, Clone, PartialEq, Eq)]
pub struct RawZone {
    pub name: String,
    pub networks: Vec<String>,
    pub description: Option<String>,
}

/// The contents of `firewall/policies.yaml`.
#[derive(Debug, Clone, PartialEq, Eq)]
pub struct RawPoliciesFile {
    pub policies: Vec<RawPolicy>,
}

/// A firewall policy as written.
#[derive(Debug, Clone, PartialEq, Eq)]
pub struct RawPolicy {
    pub name: String,
    pub action: PolicyAction,
    pub source_zone: String,
    pub destination_zone: String,
    pub allowed_services: Vec<String>,
    pub destination_hosts: Vec<String>,
    pub description: Option<String>,
}

/// The contents of `services/dns.yaml`.
#[derive(Debug, Clone, PartialEq, Eq)]
pub struct RawDnsFile {
    pub domain: String,
    pub upstream_servers: Vec<String>,
    pub static_records: Vec<RawDnsRecord>,
}

/// A static DNS record as written.
#[derive(Debug, Clone, PartialEq, Eq)]
pub struct RawDnsRecord {
    pub name: String,
    pub address: String,
}

/// The contents of `services/dhcp.yaml`.
#[derive(Debug, Clone, PartialEq, Eq)]
pub struct RawDhcpFile {
    pub default_lease_time: String,
}

/// The contents of `services/nftables.yaml`.
#[derive(Debug, Clone, PartialEq, Eq)]
pub struct RawServiceFile {
    pub name: String,
    pub enabled: bool,
    pub reload_command: Option<String>,
}

/// The port forwards as written.
#[derive(Debug, Clone, PartialEq, Eq, Default)]
pub struct RawPortForwardsFile {
    pub rules: Vec<RawPortForwardRule>,
}

/// A port forward as written.
#[derive(Debug, Clone, PartialEq, Eq)]
pub struct RawPortForwardRule {
    pub name: String,
    pub protocol: PortProtocol,
    pub external_port: u16,
    pub destination_host: String,
    pub destination_port: u16,
    pub source_zone: String,
    pub description: Option<String>,
}

/// The reverse proxy settings as written.
#[derive(Debug, Clone, PartialEq, Eq, Default)]
pub struct RawReverseProxyFile {
    pub provider: ReverseProxyProvider,
    pub sites: Vec<RawReverseProxySite>,
}

/// A proxied site as written.
#[derive(Debug, Clone, PartialEq, Eq)]
pub struct RawReverseProxySite {
    pub name: String,
    pub server_names: Vec<String>,
    pub listen_port: u16,
    pub backend: RawProxyBackend,
    pub tls_mode: ProxyTlsMode,
}

/// A proxy backend as written.
#[derive(Debug, Clone, PartialEq, Eq)]
pub struct RawProxyBackend {
    pub host_ref: String,
    pub port: u16,
    pub scheme: ProxyScheme,
}

} // verus!
