use vstd::prelude::*;

verus! {

/// Firewall zones and the policies between them.
#[derive(Debug, Clone, PartialEq, Eq, Default)]
pub struct FirewallConfig {
    pub zones: Vec<ZoneDef>,
    pub policies: Vec<PolicyRule>,
}

/// A named firewall zone and the networks it groups.
#[derive(Debug, Clone, PartialEq, Eq)]
pub struct ZoneDef {
    pub name: String,
    pub networks: Vec<String>,
    pub description: Option<String>,
}

/// A forwarding policy from one zone to another.
#[derive(Debug, Clone, PartialEq, Eq)]
pub struct PolicyRule {
    pub name: String,
    pub action: PolicyAction,
    pub source_zone: String,
    pub destination_zone: String,
    pub allowed_services: Vec<String>,
    pub destination_hosts: Vec<String>,
    pub description: Option<String>,
}

/// The verdict a policy applies.
#[derive(Debug, Clone, Copy, PartialEq, Eq, Structural)]
pub enum PolicyAction {
    Accept,
    Reject,
    Drop,
}

} // verus!
