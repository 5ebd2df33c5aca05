use vstd::prelude::*;

use crate::domain::SiteConfig;

verus! {

/// What the web interface serves: the loaded site.
#[derive(Debug, Clone)]
pub struct ApiState {
    pub site: SiteConfig,
}

/// The summary of a site.
#[derive(Debug, Clone)]
pub struct SiteApiView {
    pub name: String,
    pub description: String,
    pub reverse_proxy_provider: String,
    pub networks: Vec<NetworkCard>,
    pub interfaces: Vec<InterfaceCard>,
    pub firewall_policies: Vec<FirewallPolicyCard>,
    pub port_forwards: Vec<PortForwardCard>,
    pub ssids: Vec<SsidCard>,
    pub access_points: Vec<AccessPointCard>,
    pub reverse_proxies: Vec<ReverseProxyCard>,
    pub artifacts: Vec<ArtifactCard>,
    pub deployments: Vec<DeploymentCard>,
}

/// A network, with the interface that carries it.
#[derive(Debug, Clone)]
pub struct NetworkCard {
    pub name: String,
    pub cidr: String,
    pub zone: String,
    pub vlan: Option<u16>,
    pub interface: String,
    pub purpose: String,
}

/// An interface and the networks it carries.
#[derive(Debug, Clone)]
pub struct InterfaceCard {
    pub name: String,
    pub role: String,
    pub addresses: Vec<String>,
    pub network_refs: Vec<String>,
}

/// A firewall policy.
#[derive(Debug, Clone)]
pub struct FirewallPolicyCard {
    pub name: String,
    pub source_zone: String,
    pub destination_zone: String,
    pub action: String,
    pub summary: String,
}

/// A port forward.
#[derive(Debug, Clone)]
pub struct PortForwardCard {
    pub name: String,
    pub protocol: String,
    pub external_port: u16,
    pub destination_host: String,
    pub destination_port: u16,
    pub source_zone: String,
    pub summary: String,
}

/// An SSID.
#[derive(Debug, Clone)]
pub struct SsidCard {
    pub name: String,
    pub vlan: u16,
    pub zone: String,
    pub groups: Vec<String>,
}

/// An access point and where it is plugged in.
#[derive(Debug, Clone)]
pub struct AccessPointCard {
    pub name: String,
    pub management_ip: String,
    pub group: String,
    pub uplink_port: String,
    pub ssids: Vec<String>,
}

/// A proxied site.
#[derive(Debug, Clone)]
pub struct ReverseProxyCard {
    pub name: String,
    pub provider: String,
    pub server_names: Vec<String>,
    pub listen_port: u16,
    pub backend_host: String,
    pub backend_port: u16,
    pub backend_scheme: String,
    pub tls_mode: String,
}

/// A managed file and the service that owns it.
#[derive(Debug, Clone)]
pub struct ArtifactCard {
    pub logical_name: String,
    pub target_path: String,
    pub renderer: String,
    pub change_state: String,
}

/// A deployment.
#[derive(Debug, Clone)]
pub struct DeploymentCard {
    pub id: String,
    pub timestamp: String,
    pub status: String,
    pub summary: String,
}

} // verus!
