//! The summary of a site that the web interface shows: one card per
//! network, interface, policy, forward, SSID, access point, proxied site
//! and managed file.
mod cards;
mod summary;

pub use cards::{
    AccessPointCard, ApiState, ArtifactCard, DeploymentCard, FirewallPolicyCard, InterfaceCard,
    NetworkCard, PortForwardCard, ReverseProxyCard, SiteApiView, SsidCard,
};
pub use summary::{
    access_point_card_from, artifact_card_of, artifact_cards, firewall_policy_card_from,
    interface_card_from, interface_index_from, network_card_from, network_interface,
    policy_action_name, port_forward_card_from, protocol_name, provider_name,
    reverse_proxy_card_from, site_view_of, ssid_card_from, tls_mode_name, uplink_label,
};
