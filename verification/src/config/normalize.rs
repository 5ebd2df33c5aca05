//! Normalization of a configuration bundle into the canonical site model:
//! defaults filled in, DHCP gathered from networks and hosts, and the managed
//! services derived from what the site uses.
use vstd::prelude::*;

use crate::config::raw::{
    RawAp, RawApGroup, RawDnsRecord, RawHostFile, RawHostInterface, RawInterface, RawNetworkFile,
    RawPolicy, RawPortForwardRule, RawReservation, RawReverseProxySite, RawRoute, RawSsid,
    RawZone,
};
use crate::config::ConfigBundle;
use crate::domain::{
    AccessPointDef, AccessPointGroupDef, ApBackend, ApController, DhcpConfig, DhcpPool, DnsConfig,
    DnsRecord, FirewallConfig, HostDef, HostInterfaceDef, HostWifiIntent, InterfaceDef,
    InterfaceRole, ManagedPath, Metadata, NetworkDef, PolicyRule, PortForwardConfig,
    PortForwardRule, ProxyBackend, ReservationDef, ReverseProxyConfig, ReverseProxyProvider,
    ReverseProxySite, RouteDef, ServiceDef, ServiceType, SiteConfig, SsidDef, UplinkDef, VlanDef,
    WifiConfig, ZoneDef,
};
use crate::seqs::{key_insert_index, lemma_sorted_by_key, sorted_by, sorted_by_key, lemma_flat_map_take_all, lemma_flat_map_take_succ, lemma_flat_map_take_zero};
use crate::text::{clone_opt_string, clone_strings, concat2, concat3, opt_str, seq_lt, str_less};

verus! {

/// A managed path as the specifications speak of it.
pub struct PathView {
    pub logical_name: Seq<char>,
    pub path: Seq<char>,
    pub service: Option<Seq<char>>,
}

impl View for ManagedPath {
    type V = PathView;

    open spec fn view(&self) -> PathView {
        PathView {
            logical_name: self.logical_name@,
            path: self.path@,
            service: opt_str(self.service),
        }
    }
}

/// The views of a list of managed paths.
pub open spec fn path_views(v: Seq<ManagedPath>) -> Seq<PathView> {
    v.map_values(|p: ManagedPath| p@)
}

/// A managed path built from its parts.
pub open spec fn path_of(logical_name: Seq<char>, path: Seq<char>, service: Option<Seq<char>>) -> PathView {
    PathView { logical_name, path, service }
}

/// The lower-case name of an interface role (its variant name, lower-cased).
pub open spec fn role_name(r: InterfaceRole) -> Seq<char> {
    match r {
        InterfaceRole::Wan => "wan"@,
        InterfaceRole::Lan => "lan"@,
        InterfaceRole::WifiUplink => "wifiuplink"@,
        InterfaceRole::Trunk => "trunk"@,
        InterfaceRole::Management => "management"@,
    }
}

/// Two lists relate element by element.
pub open spec fn related<A, B>(raw: Seq<A>, out: Seq<B>, p: spec_fn(A, B) -> bool) -> bool {
    &&& raw.len() == out.len()
    &&& forall|i: int| 0 <= i < raw.len() ==> #[trigger] p(raw[i], out[i])
}

/// An interface normalized: a missing logical name becomes the role's name.
pub open spec fn interface_from() -> spec_fn(RawInterface, InterfaceDef) -> bool {
    |raw: RawInterface, i: InterfaceDef|
        {
            &&& i.logical_name@ == match raw.logical_name {
                Some(l) => l@,
                None => role_name(raw.role),
            }
            &&& i.name == raw.name
            &&& i.role == raw.role
            &&& i.kind == raw.kind
            &&& i.addresses@ == raw.addresses@
            &&& i.network_refs@ == raw.network_refs@
            &&& i.vlan_tags@ == raw.vlan_tags@
        }
}

/// A route as written.
pub open spec fn route_of(r: RawRoute) -> RouteDef {
    RouteDef { destination: r.destination, via: r.via, metric: r.metric }
}

/// A network normalized: the zone defaults to the network's name, the
/// description to the DNS domain or "Managed network", and the VLAN and DHCP
/// pool carry the network's settings.
pub open spec fn network_from() -> spec_fn(RawNetworkFile, NetworkDef) -> bool {
    |raw: RawNetworkFile, n: NetworkDef|
        {
            &&& n.name == raw.name
            &&& n.cidr == raw.cidr
            &&& n.zone == match raw.zone {
                Some(z) => z,
                None => raw.name,
            }
            &&& match raw.description {
                Some(d) => n.description == d,
                None => match raw.dns_domain {
                    Some(d) => n.description == d,
                    None => n.description@ == "Managed network"@,
                },
            }
            &&& n.dns_domain == raw.dns_domain
            &&& n.vlan == match raw.vlan {
                Some(id) => Some(VlanDef { id, parent_interface: raw.parent_interface }),
                None => None,
            }
            &&& n.dhcp_pool == match raw.dhcp {
                Some(d) => Some(
                    DhcpPool {
                        network: raw.name,
                        start: d.start,
                        end: d.end,
                        lease_time: d.lease_time,
                    },
                ),
                None => None,
            }
            &&& n.routes@ == raw.routes@.map_values(|r: RawRoute| route_of(r))
        }
}

/// A host interface as written.
pub open spec fn host_interface_of(i: RawHostInterface) -> HostInterfaceDef {
    HostInterfaceDef { name: i.name, network: i.network, address: i.address }
}

/// A reservation as written.
pub open spec fn reservation_of(r: RawReservation) -> ReservationDef {
    ReservationDef { hostname: r.hostname, ip: r.ip, mac: r.mac }
}

/// A host normalized: its parts carried over as written.
pub open spec fn host_from() -> spec_fn(RawHostFile, HostDef) -> bool {
    |raw: RawHostFile, h: HostDef|
        {
            &&& h.name == raw.name
            &&& h.role == raw.role
            &&& h.network == raw.network
            &&& h.management_ip == raw.management_ip
            &&& h.interfaces@ == raw.interfaces@.map_values(
                |i: RawHostInterface| host_interface_of(i),
            )
            &&& h.reservations@ == raw.reservations@.map_values(
                |r: RawReservation| reservation_of(r),
            )
            &&& match raw.wifi {
                Some(w) => h.wifi is Some && h.wifi->0.ap_group == w.ap_group && h.wifi->0.ssids@
                    == w.ssids@,
                None => h.wifi is None,
            }
        }
}

/// A zone as written.
pub open spec fn zone_from() -> spec_fn(RawZone, ZoneDef) -> bool {
    |raw: RawZone, z: ZoneDef|
        z.name == raw.name && z.networks@ == raw.networks@ && z.description == raw.description
}

/// A policy as written.
pub open spec fn policy_from() -> spec_fn(RawPolicy, PolicyRule) -> bool {
    |raw: RawPolicy, p: PolicyRule|
        {
            &&& p.name == raw.name
            &&& p.action == raw.action
            &&& p.source_zone == raw.source_zone
            &&& p.destination_zone == raw.destination_zone
            &&& p.allowed_services@ == raw.allowed_services@
            &&& p.destination_hosts@ == raw.destination_hosts@
            &&& p.description == raw.description
        }
}

/// A port forward as written.
pub open spec fn forward_of(r: RawPortForwardRule) -> PortForwardRule {
    PortForwardRule {
        name: r.name,
        protocol: r.protocol,
        external_port: r.external_port,
        destination_host: r.destination_host,
        destination_port: r.destination_port,
        source_zone: r.source_zone,
        description: r.description,
    }
}

/// A proxied site as written.
pub open spec fn proxy_site_from() -> spec_fn(RawReverseProxySite, ReverseProxySite) -> bool {
    |raw: RawReverseProxySite, s: ReverseProxySite|
        {
            &&& s.name == raw.name
            &&& s.server_names@ == raw.server_names@
            &&& s.listen_port == raw.listen_port
            &&& s.backend == ProxyBackend {
                host_ref: raw.backend.host_ref,
                port: raw.backend.port,
                scheme: raw.backend.scheme,
            }
            &&& s.tls_mode == raw.tls_mode
        }
}

/// An SSID as written.
pub open spec fn ssid_from() -> spec_fn(RawSsid, SsidDef) -> bool {
    |raw: RawSsid, s: SsidDef|
        s.name == raw.name && s.vlan == raw.vlan && s.zone == raw.zone && s.broadcast_groups@
            == raw.broadcast_groups@
}

/// An access point normalized: a missing backend is managed by hand.
pub open spec fn ap_from() -> spec_fn(RawAp, AccessPointDef) -> bool {
    |raw: RawAp, a: AccessPointDef|
        {
            &&& a.name == raw.name
            &&& a.management_ip == raw.management_ip
            &&& a.group == raw.group
            &&& a.backend == match raw.backend {
                Some(b) => b,
                None => ApBackend::Manual,
            }
            &&& a.uplink.switch_name == raw.uplink.switch_name
            &&& a.uplink.port == raw.uplink.port
            &&& a.uplink.native_vlan == raw.uplink.native_vlan
            &&& a.uplink.tagged_vlans@ == raw.uplink.tagged_vlans@
            &&& a.uplink.expected_networks@ == raw.uplink.expected_networks@
            &&& a.ssids@ == raw.ssids@
        }
}

/// An access-point group as written.
pub open spec fn group_from() -> spec_fn(RawApGroup, AccessPointGroupDef) -> bool {
    |raw: RawApGroup, g: AccessPointGroupDef|
        g.name == raw.name && g.ssids@ == raw.ssids@ && g.ap_names@ == raw.ap_names@
            && g.description == raw.description
}

/// A DNS record as written.
pub open spec fn dns_record_of(r: RawDnsRecord) -> DnsRecord {
    DnsRecord { name: r.name, address: r.address }
}

/// The DHCP pool of a network, if it has one.
pub open spec fn pool_fn() -> spec_fn(NetworkDef) -> Seq<DhcpPool> {
    |n: NetworkDef|
        match n.dhcp_pool {
            Some(p) => seq![p],
            None => Seq::empty(),
        }
}

/// The reservations of a host.
pub open spec fn reservations_fn() -> spec_fn(HostDef) -> Seq<ReservationDef> {
    |h: HostDef| h.reservations@
}

/// The systemd-networkd files of one interface.
pub open spec fn interface_paths_fn() -> spec_fn(InterfaceDef) -> Seq<PathView> {
    |i: InterfaceDef|
        seq![
            path_of(
                "networking_link_"@ + i.logical_name@,
                "/etc/systemd/network/10-"@ + i.logical_name@ + ".link"@,
                Some("systemd-networkd"@),
            ),
            path_of(
                "networking_main_"@ + i.logical_name@,
                "/etc/systemd/network/20-"@ + i.logical_name@ + ".network"@,
                Some("systemd-networkd"@),
            ),
        ]
}

/// The systemd-networkd files of one network, when it has a VLAN.
pub open spec fn vlan_paths_fn() -> spec_fn(NetworkDef) -> Seq<PathView> {
    |n: NetworkDef|
        if n.vlan is Some {
            seq![
                path_of(
                    "networking_vlan_netdev_"@ + n.name@,
                    "/etc/systemd/network/30-"@ + n.name@ + ".netdev"@,
                    Some("systemd-networkd"@),
                ),
                path_of(
                    "networking_vlan_network_"@ + n.name@,
                    "/etc/systemd/network/40-"@ + n.name@ + ".network"@,
                    Some("systemd-networkd"@),
                ),
            ]
        } else {
            Seq::empty()
        }
}

/// The logical name of a managed path.
pub open spec fn logical_name_key() -> spec_fn(PathView) -> Seq<char> {
    |p: PathView| p.logical_name
}

/// Paths sorted by logical name, stably.
pub open spec fn sort_paths(s: Seq<PathView>) -> Seq<PathView> {
    sorted_by_key(s, logical_name_key())
}

/// The networking service manages exactly the link and network files of
/// each interface and the netdev and network files of each VLAN network, in
/// logical-name order.
pub proof fn networking_paths_sorted(interfaces: Seq<InterfaceDef>, networks: Seq<NetworkDef>)
    ensures
        sorted_by(networking_paths(interfaces, networks), logical_name_key()),
        networking_paths(interfaces, networks).to_multiset() == (interfaces.flat_map(
            interface_paths_fn(),
        ) + networks.flat_map(vlan_paths_fn())).to_multiset(),
{
    lemma_sorted_by_key(
        interfaces.flat_map(interface_paths_fn()) + networks.flat_map(vlan_paths_fn()),
        logical_name_key(),
    );
}

/// The systemd-networkd files of a site, sorted by logical name.
pub open spec fn networking_paths(interfaces: Seq<InterfaceDef>, networks: Seq<NetworkDef>) -> Seq<PathView> {
    sort_paths(interfaces.flat_map(interface_paths_fn()) + networks.flat_map(vlan_paths_fn()))
}

/// A service with the given parts.
pub open spec fn service_is(
    s: ServiceDef,
    name: Seq<char>,
    service_type: ServiceType,
    enabled: bool,
    reload_command: Option<Seq<char>>,
    paths: Seq<PathView>,
) -> bool {
    &&& s.name@ == name
    &&& s.service_type == service_type
    &&& s.enabled == enabled
    &&& opt_str(s.reload_command) == reload_command
    &&& path_views(s.managed_paths@) == paths
}

/// The service name, type, reload command and managed file of a reverse proxy.
pub open spec fn proxy_service(p: ReverseProxyProvider) -> (Seq<char>, ServiceType, Seq<char>, Seq<char>) {
    match p {
        ReverseProxyProvider::Apache2 => (
            "apache2"@,
            ServiceType::Apache2,
            "systemctl reload apache2"@,
            "/etc/apache2/sites-available/lanuminous-proxies.conf"@,
        ),
        ReverseProxyProvider::Nginx => (
            "nginx"@,
            ServiceType::Nginx,
            "systemctl reload nginx"@,
            "/etc/nginx/conf.d/lanuminous-proxies.conf"@,
        ),
        ReverseProxyProvider::Caddy => (
            "caddy"@,
            ServiceType::Caddy,
            "systemctl reload caddy"@,
            "/etc/caddy/conf.d/lanuminous-proxies.caddy"@,
        ),
        ReverseProxyProvider::Traefik => (
            "traefik"@,
            ServiceType::Traefik,
            "systemctl reload traefik"@,
            "/etc/traefik/dynamic/lanuminous.yml"@,
        ),
        ReverseProxyProvider::Haproxy => (
            "haproxy"@,
            ServiceType::Haproxy,
            "systemctl reload haproxy"@,
            "/etc/haproxy/lanuminous.cfg"@,
        ),
    }
}

/// The managed services of a normalized site: dnsmasq, networking, the Wi-Fi
/// summary and nftables, then the reverse proxy when there are proxied sites.
pub open spec fn services_of(
    b: ConfigBundle,
    interfaces: Seq<InterfaceDef>,
    networks: Seq<NetworkDef>,
    s: Seq<ServiceDef>,
) -> bool {
    let nft = b.nftables_service;
    &&& s.len() == if b.reverse_proxy.sites@.len() > 0 {
        5int
    } else {
        4int
    }
    &&& service_is(
        s[0],
        "dnsmasq"@,
        ServiceType::Dnsmasq,
        true,
        Some("systemctl reload dnsmasq"@),
        seq![path_of("dnsmasq_main"@, "/etc/dnsmasq.d/lanuminous.conf"@, Some("dnsmasq"@))],
    )
    &&& service_is(
        s[1],
        "networking"@,
        ServiceType::Networking,
        true,
        Some("networkctl reload"@),
        networking_paths(interfaces, networks),
    )
    &&& service_is(
        s[2],
        "wifi-intent"@,
        ServiceType::WifiSummary,
        true,
        None,
        seq![
            path_of(
                "wifi_summary"@,
                "/var/lib/lanuminous/generated/wifi-summary.txt"@,
                None,
            ),
        ],
    )
    &&& service_is(
        s[3],
        match nft {
            Some(n) => n.name@,
            None => "nftables"@,
        },
        ServiceType::Nftables,
        match nft {
            Some(n) => n.enabled,
            None => true,
        },
        Some(
            match nft {
                Some(n) => match n.reload_command {
                    Some(c) => c@,
                    None => "systemctl reload nftables"@,
                },
                None => "systemctl reload nftables"@,
            },
        ),
        seq![path_of("nftables_main"@, "/etc/nftables.d/lanuminous.nft"@, Some("nftables"@))],
    )
    &&& b.reverse_proxy.sites@.len() > 0 ==> {
        let (name, service_type, reload, path) = proxy_service(b.reverse_proxy.provider);
        service_is(
            s[4],
            name,
            service_type,
            true,
            Some(reload),
            seq![path_of("reverse_proxy_main"@, path, Some("reverse-proxy"@))],
        )
    }
}

/// `site` is the normalization of `b`.
pub open spec fn normalized(b: ConfigBundle, site: SiteConfig) -> bool {
    &&& site.metadata.name == b.site.metadata.name
    &&& site.metadata.description == b.site.metadata.description
    &&& site.metadata.managed_prefix@ == match b.site.metadata.managed_prefix {
        Some(p) => p@,
        None => "# Managed by Lanuminous"@,
    }
    &&& related(b.interfaces.interfaces@, site.interfaces@, interface_from())
    &&& related(b.networks@, site.networks@, network_from())
    &&& related(b.hosts@, site.hosts@, host_from())
    &&& services_of(b, site.interfaces@, site.networks@, site.services@)
    &&& site.dns is Some
    &&& site.dns->0.domain == b.dns.domain
    &&& site.dns->0.upstream_servers@ == b.dns.upstream_servers@
    &&& site.dns->0.static_records@ == b.dns.static_records@.map_values(
        |r: RawDnsRecord| dns_record_of(r),
    )
    &&& site.dhcp is Some
    &&& site.dhcp->0.default_lease_time == b.dhcp.default_lease_time
    &&& site.dhcp->0.pools@ == site.networks@.flat_map(pool_fn())
    &&& site.dhcp->0.reservations@ == site.hosts@.flat_map(reservations_fn())
    &&& site.port_forwards.rules@ == b.port_forwards.rules@.map_values(
        |r: RawPortForwardRule| forward_of(r),
    )
    &&& site.reverse_proxies.provider == b.reverse_proxy.provider
    &&& related(b.reverse_proxy.sites@, site.reverse_proxies.sites@, proxy_site_from())
    &&& site.remote_access == b.remote_access
    &&& related(b.firewall_zones.zones@, site.firewall.zones@, zone_from())
    &&& related(b.firewall_policies.policies@, site.firewall.policies@, policy_from())
    &&& site.wifi.controller == match b.wifi_ssids.controller {
        Some(c) => c,
        None => ApController::Manual,
    }
    &&& site.wifi.expose_all_ssids_on_all_aps == b.wifi_ssids.expose_all_ssids_on_all_aps
    &&& related(b.wifi_ssids.ssids@, site.wifi.ssids@, ssid_from())
    &&& related(b.wifi_aps.aps@, site.wifi.access_points@, ap_from())
    &&& related(b.wifi_groups.groups@, site.wifi.groups@, group_from())
    &&& site.switches@.len() == 0
}

fn clone_u16s(v: &Vec<u16>) -> (r: Vec<u16>)
    ensures
        r@ == v@,
{
    let mut r: Vec<u16> = Vec::new();
    for i in 0..v.len()
        invariant
            r@ == v@.take(i as int),
    {
        r.push(v[i]);
        assert(r@ =~= v@.take(i + 1));
    }
    assert(v@.take(v@.len() as int) =~= v@);
    r
}

fn role_text(r: InterfaceRole) -> (s: &'static str)
    ensures
        s@ == role_name(r),
{
    match r {
        InterfaceRole::Wan => "wan",
        InterfaceRole::Lan => "lan",
        InterfaceRole::WifiUplink => "wifiuplink",
        InterfaceRole::Trunk => "trunk",
        InterfaceRole::Management => "management",
    }
}

fn normalize_interface(raw: &RawInterface) -> (i: InterfaceDef)
    ensures
        interface_from()(*raw, i),
{
    let logical_name = match &raw.logical_name {
        Some(l) => l.clone(),
        None => String::from_str(role_text(raw.role)),
    };
    InterfaceDef {
        logical_name,
        name: raw.name.clone(),
        role: raw.role,
        kind: raw.kind,
        addresses: clone_strings(&raw.addresses),
        network_refs: clone_strings(&raw.network_refs),
        vlan_tags: clone_u16s(&raw.vlan_tags),
    }
}

fn normalize_network(raw: &RawNetworkFile) -> (n: NetworkDef)
    ensures
        network_from()(*raw, n),
{
    let zone = match &raw.zone {
        Some(z) => z.clone(),
        None => raw.name.clone(),
    };
    let description = match &raw.description {
        Some(d) => d.clone(),
        None => match &raw.dns_domain {
            Some(d) => d.clone(),
            None => String::from_str("Managed network"),
        },
    };
    let vlan = match raw.vlan {
        Some(id) => Some(VlanDef { id, parent_interface: clone_opt_string(&raw.parent_interface) }),
        None => None,
    };
    let dhcp_pool = match &raw.dhcp {
        Some(d) => Some(
            DhcpPool {
                network: raw.name.clone(),
                start: d.start.clone(),
                end: d.end.clone(),
                lease_time: d.lease_time.clone(),
            },
        ),
        None => None,
    };
    let mut routes: Vec<RouteDef> = Vec::new();
    for k in 0..raw.routes.len()
        invariant
            routes@ == raw.routes@.take(k as int).map_values(|r: RawRoute| route_of(r)),
    {
        let route = &raw.routes[k];
        routes.push(
            RouteDef {
                destination: route.destination.clone(),
                via: route.via.clone(),
                metric: route.metric,
            },
        );
        assert(raw.routes@.take(k + 1).map_values(|r: RawRoute| route_of(r)) =~= raw.routes@.take(
            k as int,
        ).map_values(|r: RawRoute| route_of(r)).push(route_of(raw.routes@[k as int])));
    }
    assert(raw.routes@.take(raw.routes@.len() as int) =~= raw.routes@);
    NetworkDef {
        name: raw.name.clone(),
        cidr: raw.cidr.clone(),
        zone,
        description,
        dns_domain: clone_opt_string(&raw.dns_domain),
        vlan,
        dhcp_pool,
        routes,
    }
}

fn normalize_host(raw: &RawHostFile) -> (h: HostDef)
    ensures
        host_from()(*raw, h),
{
    let mut interfaces: Vec<HostInterfaceDef> = Vec::new();
    for k in 0..raw.interfaces.len()
        invariant
            interfaces@ == raw.interfaces@.take(k as int).map_values(
                |i: RawHostInterface| host_interface_of(i),
            ),
    {
        let iface = &raw.interfaces[k];
        interfaces.push(
            HostInterfaceDef {
                name: iface.name.clone(),
                network: clone_opt_string(&iface.network),
                address: clone_opt_string(&iface.address),
            },
        );
        assert(raw.interfaces@.take(k + 1).map_values(|i: RawHostInterface| host_interface_of(i))
            =~= raw.interfaces@.take(k as int).map_values(
            |i: RawHostInterface| host_interface_of(i),
        ).push(host_interface_of(raw.interfaces@[k as int])));
    }
    assert(raw.interfaces@.take(raw.interfaces@.len() as int) =~= raw.interfaces@);
    let mut reservations: Vec<ReservationDef> = Vec::new();
    for k in 0..raw.reservations.len()
        invariant
            reservations@ == raw.reservations@.take(k as int).map_values(
                |r: RawReservation| reservation_of(r),
            ),
    {
        let r = &raw.reservations[k];
        reservations.push(
            ReservationDef { hostname: r.hostname.clone(), ip: r.ip.clone(), mac: r.mac.clone() },
        );
        assert(raw.reservations@.take(k + 1).map_values(|r: RawReservation| reservation_of(r))
            =~= raw.reservations@.take(k as int).map_values(
            |r: RawReservation| reservation_of(r),
        ).push(reservation_of(raw.reservations@[k as int])));
    }
    assert(raw.reservations@.take(raw.reservations@.len() as int) =~= raw.reservations@);
    let wifi = match &raw.wifi {
        Some(w) => Some(
            HostWifiIntent { ap_group: clone_opt_string(&w.ap_group), ssids: clone_strings(&w.ssids) },
        ),
        None => None,
    };
    HostDef {
        name: raw.name.clone(),
        role: raw.role,
        network: clone_opt_string(&raw.network),
        management_ip: clone_opt_string(&raw.management_ip),
        interfaces,
        reservations,
        wifi,
    }
}

fn normalize_interfaces(raw: &Vec<RawInterface>) -> (r: Vec<InterfaceDef>)
    ensures
        related(raw@, r@, interface_from()),
{
    let mut r: Vec<InterfaceDef> = Vec::new();
    for k in 0..raw.len()
        invariant
            r@.len() == k,
            forall|i: int| 0 <= i < k ==> #[trigger] interface_from()(raw@[i], r@[i]),
    {
        r.push(normalize_interface(&raw[k]));
    }
    r
}

fn normalize_networks(raw: &Vec<RawNetworkFile>) -> (r: Vec<NetworkDef>)
    ensures
        related(raw@, r@, network_from()),
{
    let mut r: Vec<NetworkDef> = Vec::new();
    for k in 0..raw.len()
        invariant
            r@.len() == k,
            forall|i: int| 0 <= i < k ==> #[trigger] network_from()(raw@[i], r@[i]),
    {
        r.push(normalize_network(&raw[k]));
    }
    r
}

fn normalize_hosts(raw: &Vec<RawHostFile>) -> (r: Vec<HostDef>)
    ensures
        related(raw@, r@, host_from()),
{
    let mut r: Vec<HostDef> = Vec::new();
    for k in 0..raw.len()
        invariant
            r@.len() == k,
            forall|i: int| 0 <= i < k ==> #[trigger] host_from()(raw@[i], r@[i]),
    {
        r.push(normalize_host(&raw[k]));
    }
    r
}

fn normalize_zones(raw: &Vec<RawZone>) -> (r: Vec<ZoneDef>)
    ensures
        related(raw@, r@, zone_from()),
{
    let mut r: Vec<ZoneDef> = Vec::new();
    for k in 0..raw.len()
        invariant
            r@.len() == k,
            forall|i: int| 0 <= i < k ==> #[trigger] zone_from()(raw@[i], r@[i]),
    {
        let z = &raw[k];
        r.push(
            ZoneDef {
                name: z.name.clone(),
                networks: clone_strings(&z.networks),
                description: clone_opt_string(&z.description),
            },
        );
    }
    r
}

fn normalize_policies(raw: &Vec<RawPolicy>) -> (r: Vec<PolicyRule>)
    ensures
        related(raw@, r@, policy_from()),
{
    let mut r: Vec<PolicyRule> = Vec::new();
    for k in 0..raw.len()
        invariant
            r@.len() == k,
            forall|i: int| 0 <= i < k ==> #[trigger] policy_from()(raw@[i], r@[i]),
    {
        let p = &raw[k];
        r.push(
            PolicyRule {
                name: p.name.clone(),
                action: p.action,
                source_zone: p.source_zone.clone(),
                destination_zone: p.destination_zone.clone(),
                allowed_services: clone_strings(&p.allowed_services),
                destination_hosts: clone_strings(&p.destination_hosts),
                description: clone_opt_string(&p.description),
            },
        );
    }
    r
}

fn normalize_forwards(raw: &Vec<RawPortForwardRule>) -> (r: Vec<PortForwardRule>)
    ensures
        r@ == raw@.map_values(|f: RawPortForwardRule| forward_of(f)),
{
    let mut r: Vec<PortForwardRule> = Vec::new();
    for k in 0..raw.len()
        invariant
            r@ == raw@.take(k as int).map_values(|f: RawPortForwardRule| forward_of(f)),
    {
        let f = &raw[k];
        r.push(
            PortForwardRule {
                name: f.name.clone(),
                protocol: f.protocol,
                external_port: f.external_port,
                destination_host: f.destination_host.clone(),
                destination_port: f.destination_port,
                source_zone: f.source_zone.clone(),
                description: clone_opt_string(&f.description),
            },
        );
        assert(raw@.take(k + 1).map_values(|f: RawPortForwardRule| forward_of(f)) =~= raw@.take(
            k as int,
        ).map_values(|f: RawPortForwardRule| forward_of(f)).push(forward_of(raw@[k as int])));
    }
    assert(raw@.take(raw@.len() as int) =~= raw@);
    r
}

fn normalize_proxy_sites(raw: &Vec<RawReverseProxySite>) -> (r: Vec<ReverseProxySite>)
    ensures
        related(raw@, r@, proxy_site_from()),
{
    let mut r: Vec<ReverseProxySite> = Vec::new();
    for k in 0..raw.len()
        invariant
            r@.len() == k,
            forall|i: int| 0 <= i < k ==> #[trigger] proxy_site_from()(raw@[i], r@[i]),
    {
        let s = &raw[k];
        r.push(
            ReverseProxySite {
                name: s.name.clone(),
                server_names: clone_strings(&s.server_names),
                listen_port: s.listen_port,
                backend: ProxyBackend {
                    host_ref: s.backend.host_ref.clone(),
                    port: s.backend.port,
                    scheme: s.backend.scheme,
                },
                tls_mode: s.tls_mode,
            },
        );
    }
    r
}

fn normalize_ssids(raw: &Vec<RawSsid>) -> (r: Vec<SsidDef>)
    ensures
        related(raw@, r@, ssid_from()),
{
    let mut r: Vec<SsidDef> = Vec::new();
    for k in 0..raw.len()
        invariant
            r@.len() == k,
            forall|i: int| 0 <= i < k ==> #[trigger] ssid_from()(raw@[i], r@[i]),
    {
        let s = &raw[k];
        r.push(
            SsidDef {
                name: s.name.clone(),
                vlan: s.vlan,
                zone: s.zone.clone(),
                broadcast_groups: clone_strings(&s.broadcast_groups),
            },
        );
    }
    r
}

fn normalize_aps(raw: &Vec<RawAp>) -> (r: Vec<AccessPointDef>)
    ensures
        related(raw@, r@, ap_from()),
{
    let mut r: Vec<AccessPointDef> = Vec::new();
    for k in 0..raw.len()
        invariant
            r@.len() == k,
            forall|i: int| 0 <= i < k ==> #[trigger] ap_from()(raw@[i], r@[i]),
    {
        let a = &raw[k];
        let backend = match a.backend {
            Some(b) => b,
            None => ApBackend::Manual,
        };
        r.push(
            AccessPointDef {
                name: a.name.clone(),
                management_ip: a.management_ip.clone(),
                group: clone_opt_string(&a.group),
                backend,
                uplink: UplinkDef {
                    switch_name: clone_opt_string(&a.uplink.switch_name),
                    port: a.uplink.port.clone(),
                    native_vlan: a.uplink.native_vlan,
                    tagged_vlans: clone_u16s(&a.uplink.tagged_vlans),
                    expected_networks: clone_strings(&a.uplink.expected_networks),
                },
                ssids: clone_strings(&a.ssids),
            },
        );
    }
    r
}

fn normalize_groups(raw: &Vec<RawApGroup>) -> (r: Vec<AccessPointGroupDef>)
    ensures
        related(raw@, r@, group_from()),
{
    let mut r: Vec<AccessPointGroupDef> = Vec::new();
    for k in 0..raw.len()
        invariant
            r@.len() == k,
            forall|i: int| 0 <= i < k ==> #[trigger] group_from()(raw@[i], r@[i]),
    {
        let g = &raw[k];
        r.push(
            AccessPointGroupDef {
                name: g.name.clone(),
                ssids: clone_strings(&g.ssids),
                ap_names: clone_strings(&g.ap_names),
                description: clone_opt_string(&g.description),
            },
        );
    }
    r
}

fn dns_records(raw: &Vec<RawDnsRecord>) -> (r: Vec<DnsRecord>)
    ensures
        r@ == raw@.map_values(|d: RawDnsRecord| dns_record_of(d)),
{
    let mut r: Vec<DnsRecord> = Vec::new();
    for k in 0..raw.len()
        invariant
            r@ == raw@.take(k as int).map_values(|d: RawDnsRecord| dns_record_of(d)),
    {
        r.push(DnsRecord { name: raw[k].name.clone(), address: raw[k].address.clone() });
        assert(raw@.take(k + 1).map_values(|d: RawDnsRecord| dns_record_of(d)) =~= raw@.take(
            k as int,
        ).map_values(|d: RawDnsRecord| dns_record_of(d)).push(dns_record_of(raw@[k as int])));
    }
    assert(raw@.take(raw@.len() as int) =~= raw@);
    r
}

fn dhcp_pools(networks: &Vec<NetworkDef>) -> (r: Vec<DhcpPool>)
    ensures
        r@ == networks@.flat_map(pool_fn()),
{
    let mut r: Vec<DhcpPool> = Vec::new();
    proof {
        lemma_flat_map_take_zero(networks@, pool_fn());
    }
    for k in 0..networks.len()
        invariant
            r@ == networks@.take(k as int).flat_map(pool_fn()),
    {
        proof {
            lemma_flat_map_take_succ(networks@, pool_fn(), k as int);
        }
        match &networks[k].dhcp_pool {
            Some(p) => {
                r.push(p.clone());
                assert(r@ =~= networks@.take(k + 1).flat_map(pool_fn()));
            },
            None => {
                assert(r@ =~= networks@.take(k + 1).flat_map(pool_fn()));
            },
        }
    }
    proof {
        lemma_flat_map_take_all(networks@, pool_fn());
    }
    r
}

fn dhcp_reservations(hosts: &Vec<HostDef>) -> (r: Vec<ReservationDef>)
    ensures
        r@ == hosts@.flat_map(reservations_fn()),
{
    let mut r: Vec<ReservationDef> = Vec::new();
    proof {
        lemma_flat_map_take_zero(hosts@, reservations_fn());
    }
    for k in 0..hosts.len()
        invariant
            r@ == hosts@.take(k as int).flat_map(reservations_fn()),
    {
        proof {
            lemma_flat_map_take_succ(hosts@, reservations_fn(), k as int);
        }
        let host = &hosts[k];
        let ghost base = r@;
        for j in 0..host.reservations.len()
            invariant
                r@ == base + host.reservations@.take(j as int),
        {
            r.push(host.reservations[j].clone());
            assert(r@ =~= base + host.reservations@.take(j + 1));
        }
        assert(host.reservations@.take(host.reservations@.len() as int) =~= host.reservations@);
    }
    proof {
        lemma_flat_map_take_all(hosts@, reservations_fn());
    }
    r
}

fn managed_path(logical_name: String, path: String, service: Option<String>) -> (r: ManagedPath)
    ensures
        r@ == path_of(logical_name@, path@, opt_str(service)),
{
    ManagedPath { logical_name, path, service }
}

fn push_path(paths: &mut Vec<ManagedPath>, p: ManagedPath)
    ensures
        path_views(final(paths)@) == path_views(old(paths)@).push(p@),
{
    let ghost before = old(paths)@;
    paths.push(p);
    assert(path_views(paths@) =~= path_views(before).push(p@));
}

fn single_path(p: ManagedPath) -> (r: Vec<ManagedPath>)
    ensures
        path_views(r@) == seq![p@],
{
    let mut r: Vec<ManagedPath> = Vec::new();
    push_path(&mut r, p);
    assert(path_views(r@) =~= seq![p@]);
    r
}

/// Sorts managed paths by logical name, keeping equal names in their order.
fn sort_by_logical_name(paths: Vec<ManagedPath>) -> (r: Vec<ManagedPath>)
    ensures
        path_views(r@) == sort_paths(path_views(paths@)),
{
    let ghost all = path_views(paths@);
    assert(all.len() == paths.len());
    let mut rest = paths;
    let mut sorted: Vec<ManagedPath> = Vec::new();
    let mut k: usize = 0;
    assert(all.take(0) =~= Seq::<PathView>::empty());
    while rest.len() > 0
        invariant
            k <= all.len() <= usize::MAX,
            path_views(rest@) == all.skip(k as int),
            path_views(sorted@) == sort_paths(all.take(k as int)),
        decreases rest@.len(),
    {
        let ghost old_rest = rest@;
        assert(path_views(old_rest).len() == old_rest.len());
        assert(all.skip(k as int)[0] == all[k as int]);
        assert(path_views(old_rest)[0] == old_rest[0]@);
        let p = rest.remove(0);
        assert(rest@ =~= old_rest.drop_first());
        let ghost s = path_views(sorted@);
        assert(p@ == all[k as int]);
        assert forall|j: int| 0 <= j < rest@.len() implies path_views(rest@)[j] == all.skip(k + 1)[j] by {
            assert(path_views(old_rest)[j + 1] == old_rest[j + 1]@);
            assert(all.skip(k as int)[j + 1] == all[k + 1 + j]);
        }
        assert(path_views(rest@) =~= all.skip(k + 1));
        let mut i: usize = 0;
        while i < sorted.len() && !str_less(p.logical_name.as_str(), sorted[i].logical_name.as_str())
            invariant
                s == path_views(sorted@),
                i <= sorted@.len(),
                key_insert_index(s, logical_name_key(), p@.logical_name, 0) == key_insert_index(
                    s,
                    logical_name_key(),
                    p@.logical_name,
                    i as int,
                ),
            decreases sorted@.len() - i,
        {
            i = i + 1;
        }
        let ghost pv = p@;
        sorted.insert(i, p);
        assert(path_views(sorted@) =~= s.insert(i as int, pv));
        assert(all.take(k + 1).drop_last() =~= all.take(k as int));
        assert(all.take(k + 1).last() == pv);
        k = k + 1;
    }
    assert(all.take(k as int) =~= all);
    sorted
}

/// The systemd-networkd files of the interfaces and VLAN networks, sorted by logical name.
fn networking_managed_paths(interfaces: &Vec<InterfaceDef>, networks: &Vec<NetworkDef>) -> (r: Vec<ManagedPath>)
    ensures
        path_views(r@) == networking_paths(interfaces@, networks@),
{
    let mut paths: Vec<ManagedPath> = Vec::new();
    let ghost f = interface_paths_fn();
    proof {
        lemma_flat_map_take_zero(interfaces@, f);
    }
    for k in 0..interfaces.len()
        invariant
            f == interface_paths_fn(),
            path_views(paths@) == interfaces@.take(k as int).flat_map(f),
    {
        proof {
            lemma_flat_map_take_succ(interfaces@, f, k as int);
        }
        let ghost before = path_views(paths@);
        let name = interfaces[k].logical_name.as_str();
        push_path(
            &mut paths,
            managed_path(
                concat2("networking_link_", name),
                concat3("/etc/systemd/network/10-", name, ".link"),
                Some(String::from_str("systemd-networkd")),
            ),
        );
        push_path(
            &mut paths,
            managed_path(
                concat2("networking_main_", name),
                concat3("/etc/systemd/network/20-", name, ".network"),
                Some(String::from_str("systemd-networkd")),
            ),
        );
        assert(path_views(paths@) =~= before + f(interfaces@[k as int]));
    }
    proof {
        lemma_flat_map_take_all(interfaces@, f);
    }
    let ghost head = path_views(paths@);
    let ghost g = vlan_paths_fn();
    proof {
        lemma_flat_map_take_zero(networks@, g);
    }
    for k in 0..networks.len()
        invariant
            g == vlan_paths_fn(),
            path_views(paths@) == head + networks@.take(k as int).flat_map(g),
    {
        proof {
            lemma_flat_map_take_succ(networks@, g, k as int);
        }
        let ghost before = path_views(paths@);
        let network = &networks[k];
        if network.vlan.is_some() {
            let name = network.name.as_str();
            push_path(
                &mut paths,
                managed_path(
                    concat2("networking_vlan_netdev_", name),
                    concat3("/etc/systemd/network/30-", name, ".netdev"),
                    Some(String::from_str("systemd-networkd")),
                ),
            );
            push_path(
                &mut paths,
                managed_path(
                    concat2("networking_vlan_network_", name),
                    concat3("/etc/systemd/network/40-", name, ".network"),
                    Some(String::from_str("systemd-networkd")),
                ),
            );
        }
        assert(path_views(paths@) =~= before + g(networks@[k as int]));
    }
    proof {
        lemma_flat_map_take_all(networks@, g);
    }
    sort_by_logical_name(paths)
}

/// The service name, type, reload command and managed file of a reverse proxy.
fn reverse_proxy_service_definition(provider: &ReverseProxyProvider) -> (r: (String, ServiceType, String, String))
    ensures
        (r.0@, r.1, r.2@, r.3@) == proxy_service(*provider),
{
    match provider {
        ReverseProxyProvider::Apache2 => (
            String::from_str("apache2"),
            ServiceType::Apache2,
            String::from_str("systemctl reload apache2"),
            String::from_str("/etc/apache2/sites-available/lanuminous-proxies.conf"),
        ),
        ReverseProxyProvider::Nginx => (
            String::from_str("nginx"),
            ServiceType::Nginx,
            String::from_str("systemctl reload nginx"),
            String::from_str("/etc/nginx/conf.d/lanuminous-proxies.conf"),
        ),
        ReverseProxyProvider::Caddy => (
            String::from_str("caddy"),
            ServiceType::Caddy,
            String::from_str("systemctl reload caddy"),
            String::from_str("/etc/caddy/conf.d/lanuminous-proxies.caddy"),
        ),
        ReverseProxyProvider::Traefik => (
            String::from_str("traefik"),
            ServiceType::Traefik,
            String::from_str("systemctl reload traefik"),
            String::from_str("/etc/traefik/dynamic/lanuminous.yml"),
        ),
        ReverseProxyProvider::Haproxy => (
            String::from_str("haproxy"),
            ServiceType::Haproxy,
            String::from_str("systemctl reload haproxy"),
            String::from_str("/etc/haproxy/lanuminous.cfg"),
        ),
    }
}

fn managed_services(b: &ConfigBundle, interfaces: &Vec<InterfaceDef>, networks: &Vec<NetworkDef>) -> (r: Vec<ServiceDef>)
    ensures
        services_of(*b, interfaces@, networks@, r@),
{
    let mut services: Vec<ServiceDef> = Vec::new();
    services.push(
        ServiceDef {
            name: String::from_str("dnsmasq"),
            service_type: ServiceType::Dnsmasq,
            enabled: true,
            reload_command: Some(String::from_str("systemctl reload dnsmasq")),
            managed_paths: single_path(
                managed_path(
                    String::from_str("dnsmasq_main"),
                    String::from_str("/etc/dnsmasq.d/lanuminous.conf"),
                    Some(String::from_str("dnsmasq")),
                ),
            ),
        },
    );
    services.push(
        ServiceDef {
            name: String::from_str("networking"),
            service_type: ServiceType::Networking,
            enabled: true,
            reload_command: Some(String::from_str("networkctl reload")),
            managed_paths: networking_managed_paths(interfaces, networks),
        },
    );
    services.push(
        ServiceDef {
            name: String::from_str("wifi-intent"),
            service_type: ServiceType::WifiSummary,
            enabled: true,
            reload_command: None,
            managed_paths: single_path(
                managed_path(
                    String::from_str("wifi_summary"),
                    String::from_str("/var/lib/lanuminous/generated/wifi-summary.txt"),
                    None,
                ),
            ),
        },
    );
    let (nft_name, nft_enabled, nft_reload) = match &b.nftables_service {
        Some(service) => (
            service.name.clone(),
            service.enabled,
            match &service.reload_command {
                Some(c) => c.clone(),
                None => String::from_str("systemctl reload nftables"),
            },
        ),
        None => (String::from_str("nftables"), true, String::from_str("systemctl reload nftables")),
    };
    services.push(
        ServiceDef {
            name: nft_name,
            service_type: ServiceType::Nftables,
            enabled: nft_enabled,
            reload_command: Some(nft_reload),
            managed_paths: single_path(
                managed_path(
                    String::from_str("nftables_main"),
                    String::from_str("/etc/nftables.d/lanuminous.nft"),
                    Some(String::from_str("nftables")),
                ),
            ),
        },
    );
    if b.reverse_proxy.sites.len() > 0 {
        let (service_name, service_type, reload_command, managed_path_str) =
            reverse_proxy_service_definition(&b.reverse_proxy.provider);
        services.push(
            ServiceDef {
                name: service_name,
                service_type,
                enabled: true,
                reload_command: Some(reload_command),
                managed_paths: single_path(
                    managed_path(
                        String::from_str("reverse_proxy_main"),
                        managed_path_str,
                        Some(String::from_str("reverse-proxy")),
                    ),
                ),
            },
        );
    }
    services
}

/// Normalizes a configuration bundle into the canonical site model.
pub fn normalize_bundle(bundle: ConfigBundle) -> (site: SiteConfig)
    ensures
        normalized(bundle, site),
{
    let b = &bundle;
    let metadata = Metadata {
        name: b.site.metadata.name.clone(),
        description: clone_opt_string(&b.site.metadata.description),
        managed_prefix: match &b.site.metadata.managed_prefix {
            Some(p) => p.clone(),
            None => String::from_str("# Managed by Lanuminous"),
        },
    };
    let interfaces = normalize_interfaces(&b.interfaces.interfaces);
    let networks = normalize_networks(&b.networks);
    let hosts = normalize_hosts(&b.hosts);
    let dns = DnsConfig {
        domain: b.dns.domain.clone(),
        upstream_servers: clone_strings(&b.dns.upstream_servers),
        static_records: dns_records(&b.dns.static_records),
    };
    let dhcp = DhcpConfig {
        default_lease_time: b.dhcp.default_lease_time.clone(),
        pools: dhcp_pools(&networks),
        reservations: dhcp_reservations(&hosts),
    };
    let firewall = FirewallConfig {
        zones: normalize_zones(&b.firewall_zones.zones),
        policies: normalize_policies(&b.firewall_policies.policies),
    };
    let port_forwards = PortForwardConfig { rules: normalize_forwards(&b.port_forwards.rules) };
    let reverse_proxies = ReverseProxyConfig {
        provider: b.reverse_proxy.provider,
        sites: normalize_proxy_sites(&b.reverse_proxy.sites),
    };
    let wifi = WifiConfig {
        controller: match b.wifi_ssids.controller {
            Some(c) => c,
            None => ApController::Manual,
        },
        expose_all_ssids_on_all_aps: b.wifi_ssids.expose_all_ssids_on_all_aps,
        ssids: normalize_ssids(&b.wifi_ssids.ssids),
        access_points: normalize_aps(&b.wifi_aps.aps),
        groups: normalize_groups(&b.wifi_groups.groups),
    };
    let services = managed_services(b, &interfaces, &networks);
    let ghost services_view = services;
    let remote_access = bundle.remote_access;
    let site = SiteConfig {
        metadata,
        interfaces,
        networks,
        hosts,
        services,
        dns: Some(dns),
        dhcp: Some(dhcp),
        port_forwards,
        reverse_proxies,
        remote_access,
        firewall,
        wifi,
        switches: Vec::new(),
    };
    site
}

} // verus!
