use vstd::prelude::*;

use crate::api::cards::{
    AccessPointCard, ArtifactCard, DeploymentCard, FirewallPolicyCard, InterfaceCard,
    NetworkCard, PortForwardCard, ReverseProxyCard, SiteApiView, SsidCard,
};
use crate::config::{related, role_name};
use crate::domain::{
    AccessPointDef, InterfaceDef, InterfaceRole, ManagedPath, NetworkDef, PolicyAction,
    PolicyRule, PortForwardRule, PortProtocol, ProxyScheme, ProxyTlsMode, ReverseProxyProvider,
    ReverseProxySite, ServiceDef, SiteConfig, SsidDef, UplinkDef,
};
use crate::render::{scheme_str, scheme_word};
use crate::seqs::{lemma_flat_map_take_all, lemma_flat_map_take_succ, lemma_flat_map_take_zero};
use crate::util::clock::{clock_text, current_rfc3339};
use crate::text::{clone_strings, concat2, concat3, contains_string, decimal, decimal_string, strs};

verus! {

/// The lower-case name of a policy action.
pub open spec fn policy_action_name(a: PolicyAction) -> Seq<char> {
    match a {
        PolicyAction::Accept => "accept"@,
        PolicyAction::Reject => "reject"@,
        PolicyAction::Drop => "drop"@,
    }
}

/// The lower-case name of a transport protocol.
pub open spec fn protocol_name(p: PortProtocol) -> Seq<char> {
    match p {
        PortProtocol::Tcp => "tcp"@,
        PortProtocol::Udp => "udp"@,
    }
}

/// The lower-case name of a reverse-proxy provider.
pub open spec fn provider_name(p: ReverseProxyProvider) -> Seq<char> {
    match p {
        ReverseProxyProvider::Apache2 => "apache2"@,
        ReverseProxyProvider::Nginx => "nginx"@,
        ReverseProxyProvider::Caddy => "caddy"@,
        ReverseProxyProvider::Traefik => "traefik"@,
        ReverseProxyProvider::Haproxy => "haproxy"@,
    }
}

/// The lower-case name of a TLS mode.
pub open spec fn tls_mode_name(m: ProxyTlsMode) -> Seq<char> {
    match m {
        ProxyTlsMode::TerminateAtProxy => "terminateatproxy"@,
        ProxyTlsMode::PassThrough => "passthrough"@,
    }
}

/// The index of the first interface, from `i` on, that carries the network `name`.
pub open spec fn interface_index_from(interfaces: Seq<InterfaceDef>, name: Seq<char>, i: int) -> Option<int>
    decreases interfaces.len() - i,
{
    if i < 0 || i >= interfaces.len() {
        None
    } else if strs(interfaces[i].network_refs@).contains(name) {
        Some(i)
    } else {
        interface_index_from(interfaces, name, i + 1)
    }
}

/// The interface shown for a network: the first interface that carries it;
/// else, for a VLAN with a parent, the parent, a dot and the VLAN id; else
/// "unassigned".
pub open spec fn network_interface(interfaces: Seq<InterfaceDef>, n: NetworkDef) -> Seq<char> {
    match interface_index_from(interfaces, n.name@, 0) {
        Some(i) => interfaces[i].name@,
        None => match n.vlan {
            Some(v) => match v.parent_interface {
                Some(p) => p@ + "."@ + decimal(v.id as nat),
                None => "unassigned"@,
            },
            None => "unassigned"@,
        },
    }
}

/// The card of a network.
pub open spec fn network_card_from(interfaces: Seq<InterfaceDef>) -> spec_fn(NetworkDef, NetworkCard) -> bool {
    |n: NetworkDef, c: NetworkCard|
        {
            &&& c.name == n.name
            &&& c.cidr == n.cidr
            &&& c.zone == n.zone
            &&& c.vlan == match n.vlan {
                Some(v) => Some(v.id),
                None => None,
            }
            &&& c.interface@ == network_interface(interfaces, n)
            &&& c.purpose@ == match n.dns_domain {
                Some(d) => d@,
                None => "Managed network"@,
            }
        }
}

/// The card of an interface.
pub open spec fn interface_card_from() -> spec_fn(InterfaceDef, InterfaceCard) -> bool {
    |i: InterfaceDef, c: InterfaceCard|
        {
            &&& c.name == i.name
            &&& c.role@ == role_name(i.role)
            &&& c.addresses@ == i.addresses@
            &&& c.network_refs@ == i.network_refs@
        }
}

/// The card of a firewall policy.
pub open spec fn firewall_policy_card_from() -> spec_fn(PolicyRule, FirewallPolicyCard) -> bool {
    |p: PolicyRule, c: FirewallPolicyCard|
        {
            &&& c.name == p.name
            &&& c.source_zone == p.source_zone
            &&& c.destination_zone == p.destination_zone
            &&& c.action@ == policy_action_name(p.action)
            &&& c.summary@ == match p.description {
                Some(d) => d@,
                None => "Managed policy"@,
            }
        }
}

/// The card of a port forward.
pub open spec fn port_forward_card_from() -> spec_fn(PortForwardRule, PortForwardCard) -> bool {
    |r: PortForwardRule, c: PortForwardCard|
        {
            &&& c.name == r.name
            &&& c.protocol@ == protocol_name(r.protocol)
            &&& c.external_port == r.external_port
            &&& c.destination_host == r.destination_host
            &&& c.destination_port == r.destination_port
            &&& c.source_zone == r.source_zone
            &&& c.summary@ == match r.description {
                Some(d) => d@,
                None => "Managed port forward"@,
            }
        }
}

/// The card of an SSID.
pub open spec fn ssid_card_from() -> spec_fn(SsidDef, SsidCard) -> bool {
    |s: SsidDef, c: SsidCard|
        c.name == s.name && c.vlan == s.vlan && c.zone == s.zone && c.groups@
            == s.broadcast_groups@
}

/// Where an access point is plugged in: the switch and port, or the port alone.
pub open spec fn uplink_label(u: UplinkDef) -> Seq<char> {
    match u.switch_name {
        Some(s) => s@ + " "@ + u.port@,
        None => u.port@,
    }
}

/// The card of an access point.
pub open spec fn access_point_card_from() -> spec_fn(AccessPointDef, AccessPointCard) -> bool {
    |a: AccessPointDef, c: AccessPointCard|
        {
            &&& c.name == a.name
            &&& c.management_ip == a.management_ip
            &&& c.group@ == match a.group {
                Some(g) => g@,
                None => "ungrouped"@,
            }
            &&& c.uplink_port@ == uplink_label(a.uplink)
            &&& c.ssids@ == a.ssids@
        }
}

/// The card of a proxied site.
pub open spec fn reverse_proxy_card_from(provider: ReverseProxyProvider) -> spec_fn(ReverseProxySite, ReverseProxyCard) -> bool {
    |s: ReverseProxySite, c: ReverseProxyCard|
        {
            &&& c.name == s.name
            &&& c.provider@ == provider_name(provider)
            &&& c.server_names@ == s.server_names@
            &&& c.listen_port == s.listen_port
            &&& c.backend_host == s.backend.host_ref
            &&& c.backend_port == s.backend.port
            &&& c.backend_scheme@ == scheme_word(s.backend.scheme)
            &&& c.tls_mode@ == tls_mode_name(s.tls_mode)
        }
}

/// The card of one managed file of a service, as (logical name, target
/// path, renderer, change state).
pub open spec fn artifact_card_of(s: ServiceDef, p: ManagedPath) -> (Seq<char>, Seq<char>, Seq<char>, Seq<char>) {
    (p.logical_name@, p.path@, s.name@, "planned"@)
}

/// The cards of every managed file, service by service.
pub open spec fn artifact_cards(services: Seq<ServiceDef>) -> Seq<(Seq<char>, Seq<char>, Seq<char>, Seq<char>)> {
    services.flat_map(
        |s: ServiceDef| s.managed_paths@.map_values(|p: ManagedPath| artifact_card_of(s, p)),
    )
}

/// `v` is the summary of `site`, its deployment stamped `timestamp`.
pub open spec fn site_view_of(site: SiteConfig, timestamp: Seq<char>, v: SiteApiView) -> bool {
    &&& v.name == site.metadata.name
    &&& v.description@ == match site.metadata.description {
        Some(d) => d@,
        None => "Lantricate managed site"@,
    }
    &&& v.reverse_proxy_provider@ == provider_name(site.reverse_proxies.provider)
    &&& related(site.networks@, v.networks@, network_card_from(site.interfaces@))
    &&& related(site.interfaces@, v.interfaces@, interface_card_from())
    &&& related(site.firewall.policies@, v.firewall_policies@, firewall_policy_card_from())
    &&& related(site.port_forwards.rules@, v.port_forwards@, port_forward_card_from())
    &&& related(site.wifi.ssids@, v.ssids@, ssid_card_from())
    &&& related(site.wifi.access_points@, v.access_points@, access_point_card_from())
    &&& related(
        site.reverse_proxies.sites@,
        v.reverse_proxies@,
        reverse_proxy_card_from(site.reverse_proxies.provider),
    )
    &&& v.artifacts@.map_values(
        |c: ArtifactCard| (c.logical_name@, c.target_path@, c.renderer@, c.change_state@),
    ) == artifact_cards(site.services@)
    &&& v.deployments@.len() == 1
    &&& v.deployments@[0].id@ == "stage1-preview"@
    &&& v.deployments@[0].timestamp@ == timestamp
    &&& v.deployments@[0].status@ == "planned"@
    &&& v.deployments@[0].summary@ == "Preview deployment state from the shared canonical model."@
}

fn role_str(r: InterfaceRole) -> (s: &'static str)
    ensures
        s@ == role_name(r),
{
    match r {
        InterfaceRole::Wan => "wan",
        InterfaceRole::Lan => "lan",
        InterfaceRole::WifiUplink => "wifiuplink",
        InterfaceRole::Trunk => "trunk",
        InterfaceRole::Management => "management",
    }
}

fn policy_action_str(a: PolicyAction) -> (s: &'static str)
    ensures
        s@ == policy_action_name(a),
{
    match a {
        PolicyAction::Accept => "accept",
        PolicyAction::Reject => "reject",
        PolicyAction::Drop => "drop",
    }
}

fn protocol_str(p: PortProtocol) -> (s: &'static str)
    ensures
        s@ == protocol_name(p),
{
    match p {
        PortProtocol::Tcp => "tcp",
        PortProtocol::Udp => "udp",
    }
}

fn provider_str(p: ReverseProxyProvider) -> (s: &'static str)
    ensures
        s@ == provider_name(p),
{
    match p {
        ReverseProxyProvider::Apache2 => "apache2",
        ReverseProxyProvider::Nginx => "nginx",
        ReverseProxyProvider::Caddy => "caddy",
        ReverseProxyProvider::Traefik => "traefik",
        ReverseProxyProvider::Haproxy => "haproxy",
    }
}

fn tls_mode_str(m: ProxyTlsMode) -> (s: &'static str)
    ensures
        s@ == tls_mode_name(m),
{
    match m {
        ProxyTlsMode::TerminateAtProxy => "terminateatproxy",
        ProxyTlsMode::PassThrough => "passthrough",
    }
}

fn or_default(o: &Option<String>, fallback: &str) -> (r: String)
    ensures
        r@ == match *o {
            Some(s) => s@,
            None => fallback@,
        },
{
    match o {
        Some(s) => s.clone(),
        None => String::from_str(fallback),
    }
}

proof fn lemma_interface_index_bounds(interfaces: Seq<InterfaceDef>, name: Seq<char>, i: int)
    requires
        0 <= i,
    ensures
        interface_index_from(interfaces, name, i) matches Some(j) ==> i <= j < interfaces.len(),
    decreases interfaces.len() - i,
{
    if i < interfaces.len() && !strs(interfaces[i].network_refs@).contains(name) {
        lemma_interface_index_bounds(interfaces, name, i + 1);
    }
}

fn find_interface(interfaces: &Vec<InterfaceDef>, name: &String) -> (r: Option<usize>)
    ensures
        match r {
            Some(i) => interface_index_from(interfaces@, name@, 0) == Some(i as int),
            None => interface_index_from(interfaces@, name@, 0) is None,
        },
{
    let mut i: usize = 0;
    while i < interfaces.len()
        invariant
            i <= interfaces@.len(),
            interface_index_from(interfaces@, name@, 0) == interface_index_from(
                interfaces@,
                name@,
                i as int,
            ),
        decreases interfaces@.len() - i,
    {
        if contains_string(&interfaces[i].network_refs, name) {
            return Some(i);
        }
        i = i + 1;
    }
    None
}

fn network_card(interfaces: &Vec<InterfaceDef>, n: &NetworkDef) -> (c: NetworkCard)
    ensures
        network_card_from(interfaces@)(*n, c),
{
    proof {
        lemma_interface_index_bounds(interfaces@, n.name@, 0);
    }
    let interface = match find_interface(interfaces, &n.name) {
        Some(i) => {
            let name = interfaces[i].name.clone();
            assert(name@ == interfaces@[i as int].name@);
            assert(name@ == network_interface(interfaces@, *n));
            name
        },
        None => match &n.vlan {
            Some(v) => match &v.parent_interface {
                Some(p) => {
                    let mut s = concat2(p.as_str(), ".");
                    let id = decimal_string(v.id as u64);
                    assert(id@ == decimal(v.id as nat));
                    s.append(id.as_str());
                    assert(s@ == p@ + "."@ + decimal(v.id as nat));
                    assert(s@ == network_interface(interfaces@, *n));
                    s
                },
                None => String::from_str("unassigned"),
            },
            None => String::from_str("unassigned"),
        },
    };
    assert(interface@ == network_interface(interfaces@, *n));
    NetworkCard {
        name: n.name.clone(),
        cidr: n.cidr.clone(),
        zone: n.zone.clone(),
        vlan: match &n.vlan {
            Some(v) => Some(v.id),
            None => None,
        },
        interface,
        purpose: or_default(&n.dns_domain, "Managed network"),
    }
}

fn uplink_str(u: &UplinkDef) -> (r: String)
    ensures
        r@ == uplink_label(*u),
{
    match &u.switch_name {
        Some(s) => concat3(s.as_str(), " ", u.port.as_str()),
        None => u.port.clone(),
    }
}

fn artifact_cards_of(services: &Vec<ServiceDef>) -> (r: Vec<ArtifactCard>)
    ensures
        r@.map_values(
            |c: ArtifactCard| (c.logical_name@, c.target_path@, c.renderer@, c.change_state@),
        ) == artifact_cards(services@),
{
    let ghost f = |s: ServiceDef| s.managed_paths@.map_values(|p: ManagedPath| artifact_card_of(s, p));
    let ghost g = |c: ArtifactCard| (c.logical_name@, c.target_path@, c.renderer@, c.change_state@);
    let mut r: Vec<ArtifactCard> = Vec::new();
    proof {
        lemma_flat_map_take_zero(services@, f);
    }
    for k in 0..services.len()
        invariant
            f == (|s: ServiceDef| s.managed_paths@.map_values(|p: ManagedPath| artifact_card_of(s, p))),
            g == (|c: ArtifactCard| (c.logical_name@, c.target_path@, c.renderer@, c.change_state@)),
            r@.map_values(g) == services@.take(k as int).flat_map(f),
    {
        proof {
            lemma_flat_map_take_succ(services@, f, k as int);
        }
        let service = &services[k];
        let ghost base = r@.map_values(g);
        for j in 0..service.managed_paths.len()
            invariant
                g == (|c: ArtifactCard| (c.logical_name@, c.target_path@, c.renderer@, c.change_state@)),
                r@.map_values(g) == base + service.managed_paths@.take(j as int).map_values(
                    |p: ManagedPath| artifact_card_of(*service, p),
                ),
        {
            let path = &service.managed_paths[j];
            let ghost before = r@;
            r.push(
                ArtifactCard {
                    logical_name: path.logical_name.clone(),
                    target_path: path.path.clone(),
                    renderer: service.name.clone(),
                    change_state: String::from_str("planned"),
                },
            );
            assert(r@.map_values(g) =~= before.map_values(g).push(g(r@.last())));
            assert(service.managed_paths@.take(j + 1).map_values(
                |p: ManagedPath| artifact_card_of(*service, p),
            ) =~= service.managed_paths@.take(j as int).map_values(
                |p: ManagedPath| artifact_card_of(*service, p),
            ).push(artifact_card_of(*service, service.managed_paths@[j as int])));
            assert(r@.map_values(g) =~= base + service.managed_paths@.take(j + 1).map_values(
                |p: ManagedPath| artifact_card_of(*service, p),
            ));
        }
        assert(service.managed_paths@.take(service.managed_paths@.len() as int)
            =~= service.managed_paths@);
        assert(r@.map_values(g) =~= services@.take(k + 1).flat_map(f));
    }
    proof {
        lemma_flat_map_take_all(services@, f);
    }
    r
}

impl SiteApiView {
    /// The summary of a site, its deployment stamped with the current time
    /// in RFC 3339 form, or "unknown" when the clock cannot be read as such.
    pub fn from_site(site: &SiteConfig) -> (r: Self)
        ensures
            site_view_of(*site, r.deployments@[0].timestamp@, r),
            clock_text(r.deployments@[0].timestamp@) || r.deployments@[0].timestamp@
                == "unknown"@,
    {
        let timestamp = match current_rfc3339() {
            Some(t) => t,
            None => String::from_str("unknown"),
        };
        Self::from_site_at(site, timestamp)
    }

    /// The summary of a site, its deployment stamped `timestamp`.
    pub fn from_site_at(site: &SiteConfig, timestamp: String) -> (r: Self)
        ensures
            site_view_of(*site, timestamp@, r),
    {
        let mut networks: Vec<NetworkCard> = Vec::new();
        for k in 0..site.networks.len()
            invariant
                networks@.len() == k,
                forall|i: int|
                    0 <= i < k ==> #[trigger] network_card_from(site.interfaces@)(
                        site.networks@[i],
                        networks@[i],
                    ),
        {
            networks.push(network_card(&site.interfaces, &site.networks[k]));
        }
        let mut interfaces: Vec<InterfaceCard> = Vec::new();
        for k in 0..site.interfaces.len()
            invariant
                interfaces@.len() == k,
                forall|i: int|
                    0 <= i < k ==> #[trigger] interface_card_from()(
                        site.interfaces@[i],
                        interfaces@[i],
                    ),
        {
            let interface = &site.interfaces[k];
            interfaces.push(
                InterfaceCard {
                    name: interface.name.clone(),
                    role: String::from_str(role_str(interface.role)),
                    addresses: clone_strings(&interface.addresses),
                    network_refs: clone_strings(&interface.network_refs),
                },
            );
        }
        let mut firewall_policies: Vec<FirewallPolicyCard> = Vec::new();
        for k in 0..site.firewall.policies.len()
            invariant
                firewall_policies@.len() == k,
                forall|i: int|
                    0 <= i < k ==> #[trigger] firewall_policy_card_from()(
                        site.firewall.policies@[i],
                        firewall_policies@[i],
                    ),
        {
            let policy = &site.firewall.policies[k];
            firewall_policies.push(
                FirewallPolicyCard {
                    name: policy.name.clone(),
                    source_zone: policy.source_zone.clone(),
                    destination_zone: policy.destination_zone.clone(),
                    action: String::from_str(policy_action_str(policy.action)),
                    summary: or_default(&policy.description, "Managed policy"),
                },
            );
        }
        let mut port_forwards: Vec<PortForwardCard> = Vec::new();
        for k in 0..site.port_forwards.rules.len()
            invariant
                port_forwards@.len() == k,
                forall|i: int|
                    0 <= i < k ==> #[trigger] port_forward_card_from()(
                        site.port_forwards.rules@[i],
                        port_forwards@[i],
                    ),
        {
            let rule = &site.port_forwards.rules[k];
            port_forwards.push(
                PortForwardCard {
                    name: rule.name.clone(),
                    protocol: String::from_str(protocol_str(rule.protocol)),
                    external_port: rule.external_port,
                    destination_host: rule.destination_host.clone(),
                    destination_port: rule.destination_port,
                    source_zone: rule.source_zone.clone(),
                    summary: or_default(&rule.description, "Managed port forward"),
                },
            );
        }
        let mut ssids: Vec<SsidCard> = Vec::new();
        for k in 0..site.wifi.ssids.len()
            invariant
                ssids@.len() == k,
                forall|i: int|
                    0 <= i < k ==> #[trigger] ssid_card_from()(site.wifi.ssids@[i], ssids@[i]),
        {
            let ssid = &site.wifi.ssids[k];
            ssids.push(
                SsidCard {
                    name: ssid.name.clone(),
                    vlan: ssid.vlan,
                    zone: ssid.zone.clone(),
                    groups: clone_strings(&ssid.broadcast_groups),
                },
            );
        }
        let mut access_points: Vec<AccessPointCard> = Vec::new();
        for k in 0..site.wifi.access_points.len()
            invariant
                access_points@.len() == k,
                forall|i: int|
                    0 <= i < k ==> #[trigger] access_point_card_from()(
                        site.wifi.access_points@[i],
                        access_points@[i],
                    ),
        {
            let ap = &site.wifi.access_points[k];
            access_points.push(
                AccessPointCard {
                    name: ap.name.clone(),
                    management_ip: ap.management_ip.clone(),
                    group: or_default(&ap.group, "ungrouped"),
                    uplink_port: uplink_str(&ap.uplink),
                    ssids: clone_strings(&ap.ssids),
                },
            );
        }
        let provider = site.reverse_proxies.provider;
        let mut reverse_proxies: Vec<ReverseProxyCard> = Vec::new();
        for k in 0..site.reverse_proxies.sites.len()
            invariant
                provider == site.reverse_proxies.provider,
                reverse_proxies@.len() == k,
                forall|i: int|
                    0 <= i < k ==> #[trigger] reverse_proxy_card_from(provider)(
                        site.reverse_proxies.sites@[i],
                        reverse_proxies@[i],
                    ),
        {
            let proxy = &site.reverse_proxies.sites[k];
            reverse_proxies.push(
                ReverseProxyCard {
                    name: proxy.name.clone(),
                    provider: String::from_str(provider_str(provider)),
                    server_names: clone_strings(&proxy.server_names),
                    listen_port: proxy.listen_port,
                    backend_host: proxy.backend.host_ref.clone(),
                    backend_port: proxy.backend.port,
                    backend_scheme: String::from_str(scheme_str(proxy.backend.scheme)),
                    tls_mode: String::from_str(tls_mode_str(proxy.tls_mode)),
                },
            );
        }
        let artifacts = artifact_cards_of(&site.services);
        let mut deployments: Vec<DeploymentCard> = Vec::new();
        deployments.push(
            DeploymentCard {
                id: String::from_str("stage1-preview"),
                timestamp,
                status: String::from_str("planned"),
                summary: String::from_str(
                    "Preview deployment state from the shared canonical model.",
                ),
            },
        );
        SiteApiView {
            name: site.metadata.name.clone(),
            description: or_default(&site.metadata.description, "Lantricate managed site"),
            reverse_proxy_provider: String::from_str(provider_str(provider)),
            networks,
            interfaces,
            firewall_policies,
            port_forwards,
            ssids,
            access_points,
            reverse_proxies,
            artifacts,
            deployments,
        }
    }
}

} // verus!
