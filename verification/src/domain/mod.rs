//! The canonical site model that the validators, planners and renderers share.
mod artifact;
mod firewall;
mod host;
mod metadata;
mod network;
mod remote_access;
mod services;
mod site;
mod wifi;

pub use artifact::{RenderedArtifact, ApplyPlan, ArtifactManifestEntry, BackupEntry};
pub use firewall::{FirewallConfig, ZoneDef, PolicyRule, PolicyAction};
pub use host::{HostDef, HostRole, HostInterfaceDef, ReservationDef, HostWifiIntent};
pub use metadata::{Metadata};
pub use network::{InterfaceDef, InterfaceRole, InterfaceKind, NetworkDef, VlanDef, RouteDef, SwitchDef, UplinkDef, DhcpPool};
pub use remote_access::{RemoteAccessConfig, RemoteDnsProviderDef, RemoteDnsProviderKind, ManagedSubdomainProviderDef, DynamicDnsProviderDef, ManualProviderDef, PublicationRule, PublicationTarget, PublicationAudience, ExposureMode, PublicationProtocol, WanAddressUpdate, DesiredPublication, DesiredDnsRecord, DesiredDnsRecordType, DesiredDnsValueSource, DesiredDnsPurpose, PublicationPlan, PublicationResult, PublicationStatus, target_service};
pub use services::{DnsConfig, DnsRecord, DhcpConfig, PortForwardConfig, PortForwardRule, PortProtocol, ReverseProxyConfig, ReverseProxySite, ReverseProxyProvider, ProxyBackend, ProxyScheme, ProxyTlsMode, ServiceDef, ServiceType, ManagedPath};
pub use site::{SiteConfig};
pub use wifi::{WifiConfig, ApController, SsidDef, AccessPointDef, ApBackend, AccessPointGroupDef};
