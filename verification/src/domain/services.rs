use vstd::prelude::*;

use crate::domain::{DhcpPool, ReservationDef};

verus! {

/// Local DNS: the domain, upstream resolvers and static records.
#[derive(Debug, Clone, PartialEq, Eq)]
pub struct DnsConfig {
    pub domain: String,
    pub upstream_servers: Vec<String>,
    pub static_records: Vec<DnsRecord>,
}

/// A static DNS record.
#[derive(Debug, Clone, PartialEq, Eq)]
pub struct DnsRecord {
    pub name: String,
    pub address: String,
}

/// DHCP: the default lease time, the pools and the reservations.
#[derive(Debug, Clone, PartialEq, Eq)]
pub struct DhcpConfig {
    pub default_lease_time: String,
    pub pools: Vec<DhcpPool>,
    pub reservations: Vec<ReservationDef>,
}

/// The port forwards of the gateway.
#[derive(Debug, Clone, PartialEq, Eq, Default)]
pub struct PortForwardConfig {
    pub rules: Vec<PortForwardRule>,
}

/// One port forward from the WAN to a host.
#[derive(Debug, Clone, PartialEq, Eq)]
pub struct PortForwardRule {
    pub name: String,
    pub protocol: PortProtocol,
    pub external_port: u16,
    pub destination_host: String,
    pub destination_port: u16,
    pub source_zone: String,
    pub description: Option<String>,
}

/// The transport a port forward applies to.
#[derive(Debug, Clone, Copy, PartialEq, Eq, Structural)]
pub enum PortProtocol {
    Tcp,
    Udp,
}

/// The reverse proxy of the site and the sites it serves.
#[derive(Debug, Clone, PartialEq, Eq)]
pub struct ReverseProxyConfig {
    pub provider: ReverseProxyProvider,
    pub sites: Vec<ReverseProxySite>,
}

impl Default for ReverseProxyConfig {
    /// The default provider with no sites.
    fn default() -> (r: Self)
        ensures
            r.provider == ReverseProxyProvider::Apache2,
            r.sites@.len() == 0,
    {
        ReverseProxyConfig { provider: ReverseProxyProvider::default(), sites: Vec::new() }
    }
}

/// A virtual host of the reverse proxy.
#[derive(Debug, Clone, PartialEq, Eq)]
pub struct ReverseProxySite {
    pub name: String,
    pub server_names: Vec<String>,
    pub listen_port: u16,
    pub backend: ProxyBackend,
    pub tls_mode: ProxyTlsMode,
}

/// The reverse proxy software in use.
#[derive(Debug, Clone, Copy, PartialEq, Eq, Structural)]
pub enum ReverseProxyProvider {
    Apache2,
    Nginx,
    Caddy,
    Traefik,
    Haproxy,
}

impl Default for ReverseProxyProvider {
    /// Apache2 is the provider when none is named.
    fn default() -> (r: Self)
        ensures
            r == ReverseProxyProvider::Apache2,
    {
        ReverseProxyProvider::Apache2
    }
}

/// Where a proxied site's requests go.
#[derive(Debug, Clone, PartialEq, Eq)]
pub struct ProxyBackend {
    pub host_ref: String,
    pub port: u16,
    pub scheme: ProxyScheme,
}

/// The scheme spoken to a backend.
#[derive(Debug, Clone, Copy, PartialEq, Eq, Structural)]
pub enum ProxyScheme {
    Http,
    Https,
}

/// Where TLS ends for a proxied site.
#[derive(Debug, Clone, Copy, PartialEq, Eq, Structural)]
pub enum ProxyTlsMode {
    TerminateAtProxy,
    PassThrough,
}

/// A service that owns managed files and may be reloaded.
#[derive(Debug, Clone, PartialEq, Eq)]
pub struct ServiceDef {
    pub name: String,
    pub service_type: ServiceType,
    pub enabled: bool,
    pub reload_command: Option<String>,
    pub managed_paths: Vec<ManagedPath>,
}

/// The kinds of services the site manages.
#[derive(Debug, Clone, Copy, PartialEq, Eq, Structural)]
pub enum ServiceType {
    Dnsmasq,
    Nftables,
    Networking,
    Apache2,
    Nginx,
    Caddy,
    Traefik,
    Haproxy,
    WifiSummary,
    Api,
}

/// A file the site manages, under a logical name.
#[derive(Debug, PartialEq, Eq)]
pub struct ManagedPath {
    pub logical_name: String,
    pub path: String,
    pub service: Option<String>,
}

impl Clone for ManagedPath {
    fn clone(&self) -> (r: Self)
        ensures
            r == *self,
    {
        let service = match &self.service {
            Some(s) => Some(s.clone()),
            None => None,
        };
        ManagedPath { logical_name: self.logical_name.clone(), path: self.path.clone(), service }
    }
}

} // verus!
