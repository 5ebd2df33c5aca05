use lanuminous::config::raw::{
    InterfacesFile, RawAp, RawApGroup, RawApsFile, RawDhcpFile, RawDhcpPool, RawDnsFile,
    RawDnsRecord, RawGroupsFile, RawHostFile, RawHostInterface, RawHostWifiIntent, RawInterface,
    RawMetadata, RawNetworkFile, RawPoliciesFile, RawPolicy, RawPortForwardRule,
    RawPortForwardsFile, RawProxyBackend, RawReservation, RawReverseProxyFile,
    RawReverseProxySite, RawServiceFile, RawSsid, RawSsidsFile, RawUplink, RawZone, RawZonesFile,
    SiteFile,
};
use lanuminous::config::{
    load_site_from_path, normalize_bundle, DirEntryLoad, FileLoad, SiteFiles,
};
use lanuminous::domain::{
    ApBackend, ApController, DynamicDnsProviderDef, ExposureMode, HostRole, InterfaceKind,
    InterfaceRole, ManagedSubdomainProviderDef, PolicyAction, PortProtocol, ProxyScheme,
    ProxyTlsMode, PublicationAudience, PublicationProtocol, PublicationRule, PublicationTarget,
    RemoteAccessConfig, RemoteDnsProviderDef, RemoteDnsProviderKind, ReverseProxyProvider,
    WanAddressUpdate,
};
use lanuminous::service::SiteService;
use lanuminous::validate::IssueSeverity;

const ROOT: &str = "examples/site";

fn s(v: &str) -> String {
    v.to_string()
}

fn strings(v: &[&str]) -> Vec<String> {
    v.iter().map(|x| x.to_string()).collect()
}

fn network(name: &str, cidr: &str, zone: &str, vlan: Option<u16>, dhcp: Option<(&str, &str)>) -> RawNetworkFile {
    RawNetworkFile {
        name: s(name),
        cidr: s(cidr),
        zone: Some(s(zone)),
        description: None,
        dns_domain: Some(format!("{name}.rivia.example.net")),
        vlan,
        parent_interface: vlan.map(|_| s("br-lan")),
        dhcp: dhcp.map(|(start, end)| RawDhcpPool { start: s(start), end: s(end), lease_time: s("12h") }),
        routes: Vec::new(),
    }
}

fn example_networks() -> Vec<RawNetworkFile> {
    vec![
        network("lan", "10.10.0.0/24", "trusted", None, Some(("10.10.0.100", "10.10.0.199"))),
        network("servers", "10.10.10.0/24", "servers", Some(10), None),
        network("iot", "10.10.30.0/24", "iot", Some(30), Some(("10.10.30.100", "10.10.30.199"))),
        network("guest", "10.10.40.0/24", "guest", Some(40), Some(("10.10.40.100", "10.10.40.199"))),
        network("mgmt", "10.10.99.0/24", "management", Some(99), None),
    ]
}

fn host(name: &str, role: HostRole, network: &str, ip: Option<&str>) -> RawHostFile {
    RawHostFile {
        name: s(name),
        role,
        network: Some(s(network)),
        management_ip: ip.map(s),
        interfaces: Vec::new(),
        reservations: Vec::new(),
        wifi: None,
    }
}

fn example_hosts() -> Vec<RawHostFile> {
    let mut jellyfin = host("jellyfin", HostRole::Service, "servers", Some("10.10.10.20"));
    jellyfin.reservations.push(RawReservation {
        hostname: s("jellyfin"),
        ip: s("10.10.10.20"),
        mac: s("52:54:00:10:10:20"),
    });
    let mut workstation = host("workstation", HostRole::Client, "lan", None);
    workstation.interfaces.push(RawHostInterface {
        name: s("eth0"),
        network: Some(s("lan")),
        address: Some(s("10.10.0.50/24")),
    });
    let mut laptop = host("laptop", HostRole::Client, "lan", None);
    laptop.wifi = Some(RawHostWifiIntent { ap_group: Some(s("indoor")), ssids: strings(&["Rivia"]) });
    vec![
        host("gateway", HostRole::Gateway, "lan", Some("10.10.0.1")),
        host("nas", HostRole::Server, "servers", Some("10.10.10.10")),
        jellyfin,
        host("nextcloud", HostRole::Service, "servers", Some("10.10.10.30")),
        host("homeassistant", HostRole::Service, "iot", Some("10.10.30.10")),
        host("printer", HostRole::Client, "lan", Some("10.10.0.60")),
        host("switch-core", HostRole::Server, "mgmt", Some("10.10.99.2")),
        host("controller", HostRole::Server, "mgmt", Some("10.10.99.3")),
        workstation,
        laptop,
    ]
}

fn ap(name: &str, group: &str, port: &str) -> RawAp {
    RawAp {
        name: s(name),
        management_ip: format!("10.10.99.{}", 10 + port.len()),
        group: Some(s(group)),
        backend: Some(ApBackend::Unifi),
        uplink: RawUplink {
            switch_name: Some(s("switch-core")),
            port: s(port),
            native_vlan: Some(99),
            tagged_vlans: vec![30, 40],
            expected_networks: strings(&["mgmt", "iot", "guest"]),
        },
        ssids: strings(&["Rivia", "Rivia-IoT", "Rivia-Guest"]),
    }
}

fn example_aps() -> Vec<RawAp> {
    vec![
        ap("ap-living", "indoor", "1"),
        ap("ap-kitchen", "indoor", "2"),
        ap("ap-office", "indoor", "3"),
        ap("ap-bedroom", "indoor", "4"),
        ap("ap-attic", "indoor", "5"),
        ap("ap-basement", "indoor", "6"),
        ap("ap-garage", "outdoor", "7"),
        ap("ap-patio", "outdoor", "8"),
    ]
}

fn zone(name: &str, networks: &[&str]) -> RawZone {
    RawZone { name: s(name), networks: strings(networks), description: None }
}

fn policy(name: &str, action: PolicyAction, from: &str, to: &str) -> RawPolicy {
    RawPolicy {
        name: s(name),
        action,
        source_zone: s(from),
        destination_zone: s(to),
        allowed_services: Vec::new(),
        destination_hosts: Vec::new(),
        description: None,
    }
}

fn example_remote_access() -> RemoteAccessConfig {
    RemoteAccessConfig {
        providers: vec![
            RemoteDnsProviderDef {
                id: s("lanuminous"),
                provider: RemoteDnsProviderKind::ManagedSubdomain(ManagedSubdomainProviderDef {
                    zone: s("rivia-demo.lanuminous.net"),
                }),
                credential_ref: Some(s("lanuminous-token")),
            },
            RemoteDnsProviderDef {
                id: s("joker"),
                provider: RemoteDnsProviderKind::JokerDynDns(DynamicDnsProviderDef {
                    hostname: s("vpn.rivia.example.net"),
                    service: Some(s("wireguard")),
                    update_url: None,
                }),
                credential_ref: Some(s("joker-credentials")),
            },
        ],
        publications: vec![
            PublicationRule {
                target: PublicationTarget::Service(s("jellyfin")),
                enabled: true,
                provider: Some(s("lanuminous")),
                publish_as: Some(s("jellyfin")),
                protocol: PublicationProtocol::Https,
                target_port: 8096,
                audience: PublicationAudience::Family,
                exposure_mode: ExposureMode::Tunnel,
            },
            PublicationRule {
                target: PublicationTarget::Service(s("nextcloud")),
                enabled: false,
                provider: Some(s("lanuminous")),
                publish_as: Some(s("cloud")),
                protocol: PublicationProtocol::Https,
                target_port: 443,
                audience: PublicationAudience::Private,
                exposure_mode: ExposureMode::Tunnel,
            },
        ],
        wan_updates: vec![WanAddressUpdate {
            name: s("wan-ipv4"),
            enabled: true,
            provider: s("joker"),
            hostname: s("vpn.rivia.example.net"),
            audience: PublicationAudience::AdminOnly,
        }],
    }
}

fn listing<T>(dir: &str, items: Vec<T>, name: fn(&T) -> String) -> Option<Vec<DirEntryLoad<T>>> {
    Some(
        items
            .into_iter()
            .map(|item| DirEntryLoad {
                path: format!("{ROOT}/{dir}/{}.yaml", name(&item)),
                load: FileLoad::Loaded(item),
            })
            .collect(),
    )
}

fn example_site_files_with(networks: Vec<RawNetworkFile>) -> SiteFiles {
    SiteFiles {
        site: FileLoad::Loaded(SiteFile {
            metadata: RawMetadata {
                name: s("Rivia"),
                description: Some(s("Home lab and small office")),
                managed_prefix: None,
            },
        }),
        interfaces: FileLoad::Loaded(InterfacesFile {
            interfaces: vec![
                RawInterface {
                    logical_name: Some(s("wan")),
                    name: s("enp1s0"),
                    role: InterfaceRole::Wan,
                    kind: InterfaceKind::Physical,
                    addresses: strings(&["dhcp"]),
                    network_refs: Vec::new(),
                    vlan_tags: Vec::new(),
                },
                RawInterface {
                    logical_name: None,
                    name: s("br-lan"),
                    role: InterfaceRole::Lan,
                    kind: InterfaceKind::Bridge,
                    addresses: strings(&["10.10.0.1/24"]),
                    network_refs: strings(&["lan", "servers", "iot", "guest", "mgmt"]),
                    vlan_tags: vec![10, 30, 40, 99],
                },
            ],
        }),
        networks: listing("networks", networks, |n: &RawNetworkFile| n.name.clone()),
        hosts: listing("hosts", example_hosts(), |h: &RawHostFile| h.name.clone()),
        wifi_ssids: FileLoad::Loaded(RawSsidsFile {
            controller: Some(ApController::Unifi),
            expose_all_ssids_on_all_aps: false,
            ssids: vec![
                RawSsid { name: s("Rivia"), vlan: 1, zone: s("trusted"), broadcast_groups: strings(&["indoor", "outdoor"]) },
                RawSsid { name: s("Rivia-IoT"), vlan: 30, zone: s("iot"), broadcast_groups: strings(&["indoor"]) },
                RawSsid { name: s("Rivia-Guest"), vlan: 40, zone: s("guest"), broadcast_groups: strings(&["indoor", "outdoor"]) },
                RawSsid { name: s("Rivia-Admin"), vlan: 99, zone: s("management"), broadcast_groups: strings(&["indoor"]) },
            ],
        }),
        wifi_aps: FileLoad::Loaded(RawApsFile { aps: example_aps() }),
        wifi_groups: FileLoad::Loaded(RawGroupsFile {
            groups: vec![
                RawApGroup {
                    name: s("indoor"),
                    description: None,
                    ssids: strings(&["Rivia", "Rivia-IoT", "Rivia-Guest", "Rivia-Admin"]),
                    ap_names: strings(&["ap-living", "ap-kitchen", "ap-office", "ap-bedroom", "ap-attic", "ap-basement"]),
                },
                RawApGroup {
                    name: s("outdoor"),
                    description: Some(s("Garden and garage")),
                    ssids: strings(&["Rivia", "Rivia-Guest"]),
                    ap_names: strings(&["ap-garage", "ap-patio"]),
                },
            ],
        }),
        firewall_zones: FileLoad::Loaded(RawZonesFile {
            zones: vec![
                zone("wan", &[]),
                zone("trusted", &["lan"]),
                zone("servers", &["servers"]),
                zone("iot", &["iot"]),
                zone("guest", &["guest"]),
                zone("management", &["mgmt"]),
            ],
        }),
        firewall_policies: FileLoad::Loaded(RawPoliciesFile {
            policies: vec![
                policy("trusted-to-wan", PolicyAction::Accept, "trusted", "wan"),
                policy("trusted-to-servers", PolicyAction::Accept, "trusted", "servers"),
                policy("servers-to-wan", PolicyAction::Accept, "servers", "wan"),
                policy("iot-to-wan", PolicyAction::Accept, "iot", "wan"),
                policy("iot-to-trusted", PolicyAction::Drop, "iot", "trusted"),
                policy("guest-to-wan", PolicyAction::Accept, "guest", "wan"),
                policy("guest-to-trusted", PolicyAction::Reject, "guest", "trusted"),
            ],
        }),
        dns: FileLoad::Loaded(RawDnsFile {
            domain: s("rivia.example.net"),
            upstream_servers: strings(&["1.1.1.1", "9.9.9.9"]),
            static_records: vec![RawDnsRecord { name: s("nas.rivia.example.net"), address: s("10.10.10.10") }],
        }),
        dhcp: FileLoad::Loaded(RawDhcpFile { default_lease_time: s("12h") }),
        nftables_service: FileLoad::Loaded(RawServiceFile {
            name: s("nftables"),
            enabled: true,
            reload_command: None,
        }),
        port_forwards: FileLoad::Loaded(RawPortForwardsFile {
            rules: vec![RawPortForwardRule {
                name: s("wireguard"),
                protocol: PortProtocol::Udp,
                external_port: 51820,
                destination_host: s("gateway"),
                destination_port: 51820,
                source_zone: s("wan"),
                description: Some(s("WireGuard VPN")),
            }],
        }),
        reverse_proxy: FileLoad::Loaded(RawReverseProxyFile {
            provider: ReverseProxyProvider::Nginx,
            sites: vec![RawReverseProxySite {
                name: s("jellyfin"),
                server_names: strings(&["media.rivia.example.net"]),
                listen_port: 443,
                backend: RawProxyBackend { host_ref: s("jellyfin"), port: 8096, scheme: ProxyScheme::Http },
                tls_mode: ProxyTlsMode::TerminateAtProxy,
            }],
        }),
        remote_access: FileLoad::Loaded(example_remote_access()),
    }
}

fn example_site_files() -> SiteFiles {
    example_site_files_with(example_networks())
}

#[test]
fn loads_example_site_bundle() {
    // The example site without its management network.
    let mut networks = example_networks();
    networks.pop();
    let bundle = load_site_from_path(ROOT, example_site_files_with(networks))
        .expect("example config should load");
    assert_eq!(bundle.networks.len(), 4);
    assert_eq!(bundle.hosts.len(), 10);
    assert_eq!(bundle.wifi_aps.aps.len(), 8);
}

#[test]
fn normalizes_bundle_into_canonical_model() {
    let bundle = load_site_from_path(ROOT, example_site_files()).expect("example config should load");
    let site = normalize_bundle(bundle);

    assert_eq!(site.metadata.name, "Rivia");
    assert_eq!(site.networks.len(), 5);
    assert_eq!(site.firewall.policies.len(), 7);
    assert_eq!(site.wifi.ssids.len(), 4);
    assert_eq!(site.port_forwards.rules.len(), 1);
    assert_eq!(site.reverse_proxies.sites.len(), 1);
    assert_eq!(site.remote_access.providers.len(), 2);
    assert_eq!(site.remote_access.publications.len(), 2);
    assert_eq!(site.remote_access.wan_updates.len(), 1);
    assert!(site.services.iter().any(|service| service.name == "dnsmasq"));
}

#[test]
fn remote_access_plan_derives_publications_and_wan_updates() {
    let service = SiteService;
    let site = service.load_site(ROOT, example_site_files()).expect("example config should load");

    let plan = service
        .plan_remote_access(&site)
        .expect("remote access plan should be derivable");

    assert_eq!(plan.publications.len(), 1);
    assert_eq!(plan.wan_updates.len(), 1);
    assert!(plan.publications.iter().any(|publication| publication.external_name
        == "jellyfin.rivia-demo.lanuminous.net"
        && publication.target == PublicationTarget::Service("jellyfin".to_string())));
    assert!(plan.dns_records.iter().any(|record| record.name == "vpn.rivia.example.net"));
}

#[test]
fn remote_access_validation_rejects_duplicate_external_names() {
    let service = SiteService;
    let mut site = service.load_site(ROOT, example_site_files()).expect("example config should load");

    site.remote_access.publications.push(site.remote_access.publications[0].clone());
    site.remote_access.publications[1].enabled = true;
    site.remote_access.publications[1].target = PublicationTarget::Service("gateway".to_string());
    site.remote_access.publications[1].provider = Some("lanuminous".to_string());
    site.remote_access.publications[1].publish_as = Some("jellyfin".to_string());
    site.remote_access.publications[1].target_port = 443;
    site.remote_access.publications[1].audience = PublicationAudience::AdminOnly;

    let report = service.validate_site(&site);

    assert!(report
        .issues
        .iter()
        .any(|issue| issue.message.contains("duplicate external publication name")));
}

#[test]
fn remote_access_status_returns_provider_actions() {
    let service = SiteService;
    let site = service.load_site(ROOT, example_site_files()).expect("example config should load");

    let status = service
        .remote_access_status(&site)
        .expect("remote access status should be available");

    assert!(status
        .iter()
        .any(|entry| entry.provider == "lanuminous" && entry.action == "apply_publications"));
    assert!(status
        .iter()
        .any(|entry| entry.provider == "joker" && entry.action == "sync_wan_address"));
}

#[test]
fn example_site_validates_cleanly() {
    let service = SiteService;
    let site = service.load_site(ROOT, example_site_files()).expect("example config should load");
    let report = service.validate_site(&site);

    assert!(report.is_valid());
    assert!(report.issues.is_empty());
}

#[test]
fn validation_detects_missing_network_reference() {
    let service = SiteService;
    let mut site = service.load_site(ROOT, example_site_files()).expect("example config should load");
    site.hosts[0].network = Some("missing-network".to_string());

    let report = service.validate_site(&site);

    assert!(report.issues.iter().any(|issue| issue.severity == IssueSeverity::Error
        && issue.message.contains("missing-network")));
}

#[test]
fn validation_detects_unknown_proxy_backend_host() {
    let service = SiteService;
    let mut site = service.load_site(ROOT, example_site_files()).expect("example config should load");
    site.reverse_proxies.sites[0].backend.host_ref = "missing-host".to_string();

    let report = service.validate_site(&site);

    assert!(report.issues.iter().any(|issue| issue.severity == IssueSeverity::Error
        && issue.message.contains("missing-host")));
}

use lanuminous::agent::{AgentIdentity, HostAgentService, StageDirListing, StageInspectionArtifact};
use lanuminous::api::SiteApiView;
use lanuminous::config::{join_path, ConfigError};
use lanuminous::deploy::DeploymentPlanner;
use lanuminous::domain::{
    DesiredDnsRecordType, DesiredDnsValueSource, PublicationStatus, RenderedArtifact, SiteConfig,
    VlanDef,
};
use lanuminous::remote_access::RemoteAccessError;
use lanuminous::render::render_all;
use lanuminous::service::{is_yaml_file, stage_filename, staged_file_name};
use lanuminous::util::clock::current_rfc3339;
use lanuminous::util::hashing::sha256_string;

fn example_site() -> SiteConfig {
    SiteService.load_site(ROOT, example_site_files()).expect("example config should load")
}

fn artifact(logical_name: &str, target_path: &str) -> RenderedArtifact {
    RenderedArtifact {
        renderer: s("dnsmasq"),
        logical_name: s(logical_name),
        target_path: s(target_path),
        contents: s("port=53\n"),
        checksum: sha256_string("port=53\n"),
    }
}

#[test]
fn sha256_string_gives_known_digests() {
    assert_eq!(sha256_string("abc"), "ba7816bf8f01cfea414140de5dae2223b00361a396177a9cb410ff61f20015ad");
    assert_eq!(sha256_string(""), "e3b0c44298fc1c149afbf4c8996fb92427ae41e4649b934ca495991b7852b855");
}

#[test]
fn rendered_artifacts_carry_checksums_of_their_contents() {
    let artifacts = render_all(&example_site());
    let names: Vec<&str> = artifacts.iter().map(|a| a.logical_name.as_str()).collect();
    assert_eq!(names, vec!["reverse_proxy_main", "dnsmasq_main", "nftables_main", "networking_main"]);
    for a in &artifacts {
        assert_eq!(a.checksum, sha256_string(&a.contents));
    }
    assert_eq!(artifacts[0].renderer, "nginx");
    assert_eq!(artifacts[0].target_path, "/etc/nginx/conf.d/lanuminous-proxies.conf");
}

#[test]
fn nginx_renders_server_blocks() {
    let artifacts = render_all(&example_site());
    assert_eq!(
        artifacts[0].contents,
        "# Managed by Lanuminous\n\nserver {\n    listen 443;\n    server_name media.rivia.example.net;\n    # TLS terminates at the proxy\n    location / {\n        proxy_pass http://10.10.10.20:8096;\n        proxy_set_header Host $host;\n        proxy_set_header X-Forwarded-For $proxy_add_x_forwarded_for;\n        proxy_set_header X-Forwarded-Proto $scheme;\n    }\n}\n"
    );
}

#[test]
fn networking_renders_interface_blocks() {
    let artifacts = render_all(&example_site());
    assert_eq!(
        artifacts[3].contents,
        "# Managed by Lanuminous\n[Match]\nName=enp1s0\n[Network]\nAddress=dhcp\n\n[Match]\nName=br-lan\n[Network]\nAddress=10.10.0.1/24\n# Networks=lan,servers,iot,guest,mgmt\n\n"
    );
}

#[test]
fn caddy_sites_get_no_proxy_file() {
    let mut site = example_site();
    site.reverse_proxies.provider = ReverseProxyProvider::Caddy;
    assert_eq!(render_all(&site).len(), 3);
    site.reverse_proxies.sites.clear();
    site.reverse_proxies.provider = ReverseProxyProvider::Haproxy;
    assert_eq!(render_all(&site).len(), 3);
}

#[test]
fn stage_file_names_keep_target_extensions() {
    assert_eq!(stage_filename(&artifact("dnsmasq_main", "/etc/dnsmasq.d/lanuminous.conf")), "dnsmasq_main.conf");
    assert_eq!(stage_filename(&artifact("networking_main", "/etc/systemd/network/90-lanuminous.network")), "networking_main.network");
    assert_eq!(stage_filename(&artifact("plain", "/etc/hostname")), "plain");
    assert_eq!(stage_filename(&artifact("dotted_dir", "/etc/conf.d/hosts")), "dotted_dir");
    assert_eq!(stage_filename(&artifact("trailing", "/etc/name.")), "trailing");
    assert_eq!(staged_file_name("x", Some(s("yml"))), "x.yml");
    assert_eq!(staged_file_name("x", Some(s(""))), "x");
    assert_eq!(staged_file_name("x", None), "x");
}

#[test]
fn deployment_plan_lists_changed_paths_in_order() {
    let artifacts = vec![artifact("dnsmasq_main", "/etc/dnsmasq.d/lanuminous.conf"), artifact("nftables_main", "/etc/nftables.d/lanuminous.nft")];
    let planner = DeploymentPlanner;
    let plan = planner.plan_stage1(&artifacts);
    assert_eq!(plan.artifacts, artifacts);
    assert_eq!(plan.changed_paths.len(), 2);
    assert_eq!(plan.changed_paths[1].logical_name, "nftables_main");
    assert_eq!(plan.changed_paths[1].path, "/etc/nftables.d/lanuminous.nft");
    assert_eq!(plan.changed_paths[1].service, Some(s("dnsmasq")));

    let records = planner.stage_records("/var/lib/lanuminous/staging/run1", &artifacts);
    assert_eq!(records.len(), 2);
    assert_eq!(records[0].stage_path, "/var/lib/lanuminous/staging/run1/dnsmasq_main");
    assert_eq!(records[0].target_path, "/etc/dnsmasq.d/lanuminous.conf");
    assert_eq!(records[0].checksum, sha256_string("port=53\n"));
    assert!(planner.plan_stage1(&[]).changed_paths.is_empty());
}

#[test]
fn staged_artifact_result_copies_the_artifact() {
    let a = artifact("dnsmasq_main", "/etc/dnsmasq.d/lanuminous.conf");
    let r = SiteService.staged_artifact(&a, s("/stage/dnsmasq_main.conf"));
    assert_eq!(r.logical_name, "dnsmasq_main");
    assert_eq!(r.stage_path, "/stage/dnsmasq_main.conf");
    assert_eq!(r.contents, "port=53\n");
    assert_eq!(r.checksum, a.checksum);
}

#[test]
fn join_path_adds_one_separator() {
    assert_eq!(join_path("examples/site", "site.yaml"), "examples/site/site.yaml");
    assert_eq!(join_path("examples/site/", "site.yaml"), "examples/site/site.yaml");
    assert_eq!(join_path("", "site.yaml"), "site.yaml");
}

#[test]
fn loading_reports_the_first_missing_file() {
    let mut files = example_site_files();
    files.site = FileLoad::Missing;
    files.dns = FileLoad::Missing;
    let err = load_site_from_path(ROOT, files).unwrap_err();
    assert_eq!(err, ConfigError::MissingFile(s("examples/site/site.yaml")));
    assert_eq!(err.message(), "missing required config file: examples/site/site.yaml");
}

#[test]
fn loading_reports_unreadable_and_invalid_files() {
    let mut files = example_site_files();
    files.dns = FileLoad::ReadFailed(s("permission denied"));
    let err = load_site_from_path(ROOT, files).unwrap_err();
    assert_eq!(err.message(), "failed to read examples/site/services/dns.yaml: permission denied");

    let mut files = example_site_files();
    if let Some(entries) = files.hosts.as_mut() {
        entries[2].load = FileLoad::ParseFailed(s("missing field `name`"));
    }
    let err = load_site_from_path(ROOT, files).unwrap_err();
    assert_eq!(
        err,
        ConfigError::ParseFailed { path: s("examples/site/hosts/jellyfin.yaml"), message: s("missing field `name`") }
    );
    assert_eq!(err.message(), "failed to parse YAML examples/site/hosts/jellyfin.yaml: missing field `name`");
}

#[test]
fn loading_defaults_absent_optional_files() {
    let mut files = example_site_files();
    files.nftables_service = FileLoad::Missing;
    files.port_forwards = FileLoad::Missing;
    files.reverse_proxy = FileLoad::Missing;
    files.remote_access = FileLoad::Missing;
    let bundle = load_site_from_path(ROOT, files).expect("optional files may be absent");
    assert!(bundle.nftables_service.is_none());
    assert!(bundle.port_forwards.rules.is_empty());
    assert_eq!(bundle.reverse_proxy.provider, ReverseProxyProvider::Apache2);
    assert!(bundle.reverse_proxy.sites.is_empty());
    assert!(bundle.remote_access.providers.is_empty());
    assert_eq!(bundle.networks.len(), 5);

    let mut files = example_site_files();
    files.networks = None;
    let err = load_site_from_path(ROOT, files).unwrap_err();
    assert_eq!(err, ConfigError::MissingFile(s("examples/site/networks")));

    let mut files = example_site_files();
    files.networks = Some(Vec::new());
    assert!(load_site_from_path(ROOT, files).expect("empty directory").networks.is_empty());
}

#[test]
fn normalization_fills_defaults_and_gathers_dhcp() {
    let site = example_site();
    assert_eq!(site.metadata.managed_prefix, "# Managed by Lanuminous");
    assert_eq!(site.interfaces[0].logical_name, "wan");
    assert_eq!(site.interfaces[1].logical_name, "lan");
    assert_eq!(site.networks[0].description, "lan.rivia.example.net");
    let dhcp = site.dhcp.as_ref().expect("dhcp is always present");
    let pools: Vec<&str> = dhcp.pools.iter().map(|p| p.network.as_str()).collect();
    assert_eq!(pools, vec!["lan", "iot", "guest"]);
    assert_eq!(dhcp.reservations.len(), 1);
    assert_eq!(dhcp.reservations[0].ip, "10.10.10.20");
    assert_eq!(site.wifi.access_points[0].backend, ApBackend::Unifi);
    let names: Vec<&str> = site.services.iter().map(|s| s.name.as_str()).collect();
    assert_eq!(names, vec!["dnsmasq", "networking", "wifi-intent", "nftables", "nginx"]);
    assert_eq!(site.services[3].reload_command, Some(s("systemctl reload nftables")));
    assert_eq!(site.services[4].managed_paths[0].path, "/etc/nginx/conf.d/lanuminous-proxies.conf");
}

#[test]
fn networking_paths_are_sorted_by_logical_name() {
    let site = example_site();
    let paths: Vec<&str> = site.services[1].managed_paths.iter().map(|p| p.logical_name.as_str()).collect();
    let mut sorted = paths.clone();
    sorted.sort();
    assert_eq!(paths, sorted);
    assert_eq!(paths.len(), 4 + 2 * 4);
    assert_eq!(paths[0], "networking_link_lan");
    assert_eq!(site.services[1].managed_paths[0].path, "/etc/systemd/network/10-lan.link");
}

#[test]
fn repeated_network_names_are_reported() {
    let mut site = example_site();
    let again = site.networks[0].clone();
    site.networks.push(again);
    let report = SiteService.validate_site(&site);
    assert!(!report.is_valid());
    assert!(report.issues.iter().any(|i| i.path == "networks" && i.message == "network names must be unique: `lan`"));
}

#[test]
fn unknown_interface_network_is_reported() {
    let mut site = example_site();
    site.interfaces[1].network_refs.push(s("dmz"));
    let report = SiteService.validate_site(&site);
    assert!(report.issues.iter().any(|i| i.severity == IssueSeverity::Error
        && i.path == "interfaces.br-lan"
        && i.message == "unknown network reference `dmz`"));
}

#[test]
fn issues_under_a_prefix_are_selected_in_order() {
    let mut site = example_site();
    site.hosts[0].network = Some(s("missing-network"));
    site.remote_access.wan_updates[0].provider = s("nobody");
    let report = SiteService.validate_site(&site);
    let remote = report.issues_under("remote_access.");
    assert_eq!(remote.len(), 1);
    assert_eq!(remote[0].path, "remote_access.wan_updates.wan-ipv4");
    assert_eq!(remote[0].message, "unknown remote access provider `nobody`");
    assert_eq!(report.issues.len(), 2);
}

#[test]
fn refused_plans_carry_the_errors() {
    let mut site = example_site();
    site.remote_access.publications[0].target_port = 0;
    let err = SiteService.plan_remote_access(&site).unwrap_err();
    let RemoteAccessError::InvalidConfiguration(issues) = &err;
    assert_eq!(issues.len(), 1);
    assert_eq!(issues[0].message, "enabled remote publication requires a non-zero target port");
    assert_eq!(err.message(), "remote access configuration is invalid");
    let RemoteAccessError::InvalidConfiguration(status_issues) =
        SiteService.remote_access_status(&site).unwrap_err();
    assert_eq!(&status_issues, issues);
}

#[test]
fn missing_credentials_only_warn() {
    let mut site = example_site();
    site.remote_access.providers[1].credential_ref = None;
    let report = SiteService.validate_site(&site);
    assert!(report.is_valid());
    assert_eq!(report.issues.len(), 1);
    assert_eq!(report.issues[0].severity, IssueSeverity::Warning);
    assert_eq!(report.issues[0].message, "dynamic DNS providers should set `credential_ref`");
    assert!(SiteService.plan_remote_access(&site).is_ok());
}

#[test]
fn status_reports_each_provider_in_order() {
    let status = SiteService.remote_access_status(&example_site()).expect("status");
    assert_eq!(status.len(), 3);
    assert_eq!(status[0].provider, "lanuminous");
    assert_eq!(status[0].status, PublicationStatus::NotImplemented);
    assert_eq!(status[0].message, "1 planned publication(s) for managed subdomain provider `lanuminous`");
    assert_eq!(status[1].action, "apply_publications");
    assert_eq!(status[1].message, "dynamic DNS provider `joker` would publish 0 direct-service record(s)");
    assert_eq!(status[2].action, "sync_wan_address");
    assert_eq!(status[2].message, "dynamic DNS provider `joker` would synchronize 1 WAN hostname(s)");
}

#[test]
fn site_summary_cards_follow_the_site() {
    let mut site = example_site();
    let mut dmz = site.networks[1].clone();
    dmz.name = s("dmz");
    dmz.vlan = Some(VlanDef { id: 50, parent_interface: Some(s("br-lan")) });
    dmz.dns_domain = None;
    site.networks.push(dmz.clone());
    dmz.name = s("lab");
    dmz.vlan = None;
    site.networks.push(dmz);
    let view = SiteApiView::from_site_at(&site, s("2024-05-01T12:00:00+00:00"));
    assert_eq!(view.name, "Rivia");
    assert_eq!(view.description, "Home lab and small office");
    assert_eq!(view.reverse_proxy_provider, "nginx");
    assert_eq!(view.networks[0].interface, "br-lan");
    assert_eq!(view.networks[0].purpose, "lan.rivia.example.net");
    assert_eq!(view.networks[1].vlan, Some(10));
    assert_eq!(view.networks[5].interface, "br-lan.50");
    assert_eq!(view.networks[5].purpose, "Managed network");
    assert_eq!(view.networks[6].interface, "unassigned");
    assert_eq!(view.interfaces[1].role, "lan");
    assert_eq!(view.firewall_policies[4].action, "drop");
    assert_eq!(view.firewall_policies[4].summary, "Managed policy");
    assert_eq!(view.port_forwards[0].protocol, "udp");
    assert_eq!(view.port_forwards[0].summary, "WireGuard VPN");
    assert_eq!(view.access_points[0].uplink_port, "switch-core 1");
    assert_eq!(view.access_points[0].group, "indoor");
    assert_eq!(view.reverse_proxies[0].backend_scheme, "http");
    assert_eq!(view.reverse_proxies[0].tls_mode, "terminateatproxy");
    let total: usize = site.services.iter().map(|s| s.managed_paths.len()).sum();
    assert_eq!(view.artifacts.len(), total);
    assert_eq!(view.artifacts[0].renderer, "dnsmasq");
    assert_eq!(view.artifacts[0].change_state, "planned");
    assert_eq!(view.deployments.len(), 1);
    assert_eq!(view.deployments[0].id, "stage1-preview");
    assert_eq!(view.deployments[0].timestamp, "2024-05-01T12:00:00+00:00");
    let live = SiteApiView::from_site(&site);
    assert_eq!(live.deployments.len(), 1);
    assert!(live.deployments[0].timestamp.ends_with("+00:00"));
}

fn staged(relative_path: &str) -> StageInspectionArtifact {
    HostAgentService.inspected_artifact(s(relative_path), format!("/stage/{relative_path}"), relative_path.as_bytes())
}

#[test]
fn agent_describes_its_state_directories() {
    let identity = AgentIdentity {
        node_name: s("gw"),
        operating_system: s("linux"),
        architecture: s("x86_64"),
        lanuminous_version: s("0.1.0"),
    };
    let d = HostAgentService.describe("/var/lib/lanuminous", identity.clone());
    assert_eq!(d.identity, identity);
    assert_eq!(d.capabilities.staging_root, "/var/lib/lanuminous/staging");
    assert_eq!(d.capabilities.backup_root, "/var/lib/lanuminous/backups");
    assert_eq!(d.capabilities.manifest_root, "/var/lib/lanuminous/manifests");
    assert_eq!(d.capabilities.managed_services.len(), 8);
    assert_eq!(d.capabilities.managed_services[2], "systemd-networkd");
    assert!(d.capabilities.can_apply_managed_files && d.capabilities.can_reload_services);
}

#[test]
fn agent_picks_the_first_usable_node_name() {
    let a = HostAgentService;
    assert_eq!(a.node_name(&Some(s("  edge-1 \n")), &Some(s("other")), &None), "edge-1");
    assert_eq!(a.node_name(&Some(s("   ")), &Some(s("gw\n")), &None), "gw");
    assert_eq!(a.node_name(&None, &Some(s("\n")), &Some(s("kernel-host"))), "kernel-host");
    assert_eq!(a.node_name(&None, &None, &None), "unknown-host");
}

#[test]
fn agent_sorts_staged_files() {
    let a = HostAgentService;
    let files = vec![staged("nested/nftables_main.nft"), staged("dnsmasq_main.conf"), staged("b.txt")];
    let inspection = a.inspect_stage_dir("/stage", StageDirListing::Files(files)).expect("inspected");
    let paths: Vec<&str> = inspection.artifacts.iter().map(|x| x.relative_path.as_str()).collect();
    assert_eq!(paths, vec!["b.txt", "dnsmasq_main.conf", "nested/nftables_main.nft"]);
    assert_eq!(inspection.artifact_count, 3);
    assert_eq!(inspection.stage_dir, "/stage");
    assert_eq!(inspection.artifacts[0].size_bytes, 5);
    assert_eq!(inspection.artifacts[0].checksum, sha256_string("b.txt"));
}

#[test]
fn agent_refuses_missing_stage_directories() {
    let a = HostAgentService;
    assert_eq!(
        a.inspect_stage_dir("/nope", StageDirListing::Missing).unwrap_err(),
        "stage directory does not exist: /nope"
    );
    assert_eq!(
        a.inspect_stage_dir("/etc/hostname", StageDirListing::NotADirectory).unwrap_err(),
        "stage path is not a directory: /etc/hostname"
    );
}

#[test]
fn configuration_directories_read_yaml_files() {
    assert!(is_yaml_file("examples/site/networks/lan.yaml"));
    assert!(is_yaml_file("examples/site/hosts/nas.yml"));
    assert!(!is_yaml_file("examples/site/hosts/README.md"));
    assert!(!is_yaml_file("examples/site/hosts/yaml"));
    assert!(!is_yaml_file("examples/site/hosts/.yaml"));
}

#[test]
fn current_time_is_rfc3339_text() {
    let now = current_rfc3339().expect("the clock reads after 1970");
    assert_eq!(&now[4..5], "-");
    assert_eq!(&now[10..11], "T");
    assert!(now.ends_with("+00:00"));
    assert!(now.as_str() > "2020");
}

#[test]
fn disabled_publications_add_no_issue() {
    let mut site = example_site();
    let before = SiteService.validate_site(&site).issues.len();
    let mut extra = site.remote_access.publications[0].clone();
    extra.enabled = false;
    extra.target = PublicationTarget::Service(s("nas"));
    site.remote_access.publications.push(extra);
    let report = SiteService.validate_site(&site);
    assert_eq!(report.issues.len(), before);
    assert!(report.is_valid());
}

#[test]
fn planned_records_follow_the_wan_address() {
    let plan = SiteService.plan_remote_access(&example_site()).expect("plan");
    assert_eq!(plan.dns_records.len(), 2);
    for record in &plan.dns_records {
        assert_eq!(record.record_type, DesiredDnsRecordType::A);
        assert_eq!(record.value_source, DesiredDnsValueSource::WanAddress);
        assert_eq!(record.ttl, Some(300));
    }
    assert_eq!(plan.dns_records[0].name, "jellyfin.rivia-demo.lanuminous.net");
}
