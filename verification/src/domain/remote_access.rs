use vstd::prelude::*;

verus! {

/// Remote access: DNS providers, service publications and WAN address updates.
#[derive(Debug, Clone, PartialEq, Eq, Default)]
pub struct RemoteAccessConfig {
    pub providers: Vec<RemoteDnsProviderDef>,
    pub publications: Vec<PublicationRule>,
    pub wan_updates: Vec<WanAddressUpdate>,
}

/// A DNS provider that remote access can publish names through.
#[derive(Debug, Clone, PartialEq, Eq)]
pub struct RemoteDnsProviderDef {
    pub id: String,
    pub provider: RemoteDnsProviderKind,
    pub credential_ref: Option<String>,
}

/// The kinds of DNS providers, each with its own settings.
#[derive(Debug, Clone, PartialEq, Eq)]
pub enum RemoteDnsProviderKind {
    ManagedSubdomain(ManagedSubdomainProviderDef),
    JokerDynDns(DynamicDnsProviderDef),
    GenericDynDns(DynamicDnsProviderDef),
    Manual(ManualProviderDef),
}

/// A provider that hands out names under a zone it manages.
#[derive(Debug, Clone, PartialEq, Eq)]
pub struct ManagedSubdomainProviderDef {
    pub zone: String,
}

/// A dynamic DNS provider with one hostname.
#[derive(Debug, Clone, PartialEq, Eq)]
pub struct DynamicDnsProviderDef {
    pub hostname: String,
    pub service: Option<String>,
    pub update_url: Option<String>,
}

/// A provider whose records an operator maintains by hand.
#[derive(Debug, Clone, PartialEq, Eq, Default)]
pub struct ManualProviderDef {
    pub base_domain: Option<String>,
    pub note: Option<String>,
}

/// The intent to publish one service of the site on the internet.
#[derive(Debug, Clone, PartialEq, Eq)]
pub struct PublicationRule {
    pub target: PublicationTarget,
    pub enabled: bool,
    pub provider: Option<String>,
    pub publish_as: Option<String>,
    pub protocol: PublicationProtocol,
    pub target_port: u16,
    pub audience: PublicationAudience,
    pub exposure_mode: ExposureMode,
}

/// What a publication exposes.
#[derive(Debug, PartialEq, Eq)]
pub enum PublicationTarget {
    Service(String),
}

impl Clone for PublicationTarget {
    fn clone(&self) -> (r: Self)
        ensures
            r == *self,
    {
        match self {
            PublicationTarget::Service(s) => PublicationTarget::Service(s.clone()),
        }
    }
}

/// The name of the service a target designates.
pub open spec fn target_service(t: PublicationTarget) -> Seq<char> {
    match t {
        PublicationTarget::Service(s) => s@,
    }
}

impl PublicationTarget {
    /// The name of the service this target designates.
    pub fn service_name(&self) -> (r: &str)
        ensures
            r@ == target_service(*self),
    {
        match self {
            PublicationTarget::Service(service) => service.as_str(),
        }
    }
}

/// Who a publication is meant for.
#[derive(Debug, Clone, Copy, PartialEq, Eq, Structural)]
pub enum PublicationAudience {
    Private,
    Family,
    AdminOnly,
    Public,
}

/// How a published service is reached.
#[derive(Debug, Clone, Copy, PartialEq, Eq, Structural)]
pub enum ExposureMode {
    Direct,
    Tunnel,
    Manual,
}

/// The protocol a publication serves.
#[derive(Debug, Clone, Copy, PartialEq, Eq, Structural)]
pub enum PublicationProtocol {
    Http,
    Https,
    Tcp,
    Udp,
}

/// A hostname to keep pointed at the WAN address.
#[derive(Debug, PartialEq, Eq)]
pub struct WanAddressUpdate {
    pub name: String,
    pub enabled: bool,
    pub provider: String,
    pub hostname: String,
    pub audience: PublicationAudience,
}

impl Clone for WanAddressUpdate {
    fn clone(&self) -> (r: Self)
        ensures
            r == *self,
    {
        WanAddressUpdate {
            name: self.name.clone(),
            enabled: self.enabled,
            provider: self.provider.clone(),
            hostname: self.hostname.clone(),
            audience: self.audience,
        }
    }
}

/// A publication resolved against its provider and target host.
#[derive(Debug, PartialEq, Eq)]
pub struct DesiredPublication {
    pub service: String,
    pub provider: String,
    pub external_name: String,
    pub protocol: PublicationProtocol,
    pub target_port: u16,
    pub audience: PublicationAudience,
    pub exposure_mode: ExposureMode,
    pub target: PublicationTarget,
    pub target_address: String,
}

impl Clone for DesiredPublication {
    fn clone(&self) -> (r: Self)
        ensures
            r == *self,
    {
        DesiredPublication {
            service: self.service.clone(),
            provider: self.provider.clone(),
            external_name: self.external_name.clone(),
            protocol: self.protocol,
            target_port: self.target_port,
            audience: self.audience,
            exposure_mode: self.exposure_mode,
            target: self.target.clone(),
            target_address: self.target_address.clone(),
        }
    }
}

/// A DNS record that remote access wants a provider to hold.
#[derive(Debug, Clone, PartialEq, Eq)]
pub struct DesiredDnsRecord {
    pub provider: String,
    pub name: String,
    pub record_type: DesiredDnsRecordType,
    pub value_source: DesiredDnsValueSource,
    pub ttl: Option<u32>,
    pub purpose: DesiredDnsPurpose,
}

/// The type of a desired DNS record.
#[derive(Debug, Clone, Copy, PartialEq, Eq, Structural)]
pub enum DesiredDnsRecordType {
    A,
    Aaaa,
    Cname,
}

/// Where a desired record's value comes from.
#[derive(Debug, Clone, PartialEq, Eq)]
pub enum DesiredDnsValueSource {
    WanAddress,
    Static(String),
}

/// Why a desired record exists.
#[derive(Debug, Clone, Copy, PartialEq, Eq, Structural)]
pub enum DesiredDnsPurpose {
    ServicePublication,
    WanSync,
}

/// The outcome of planning remote access.
#[derive(Debug, Clone, PartialEq, Eq, Default)]
pub struct PublicationPlan {
    pub publications: Vec<DesiredPublication>,
    pub dns_records: Vec<DesiredDnsRecord>,
    pub wan_updates: Vec<WanAddressUpdate>,
    pub warnings: Vec<String>,
}

/// What a provider did, or would do, for a plan.
#[derive(Debug, Clone, PartialEq, Eq)]
pub struct PublicationResult {
    pub provider: String,
    pub action: String,
    pub status: PublicationStatus,
    pub message: String,
}

/// The state of one provider action.
#[derive(Debug, Clone, Copy, PartialEq, Eq, Structural)]
pub enum PublicationStatus {
    Planned,
    Applied,
    Removed,
    NotImplemented,
    Failed,
}

} // verus!
