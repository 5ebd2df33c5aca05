//! Assembling a site's configuration bundle from its files, and the errors
//! that stop it. Reading and parsing the files is left to the caller, who
//! hands over what each file yielded.
use vstd::prelude::*;

use crate::config::raw::{
    InterfacesFile, RawApsFile, RawDhcpFile, RawDnsFile, RawGroupsFile, RawHostFile,
    RawNetworkFile, RawPoliciesFile, RawPortForwardsFile, RawReverseProxyFile, RawServiceFile,
    RawSsidsFile, RawZonesFile, SiteFile,
};
use crate::domain::{RemoteAccessConfig, ReverseProxyProvider};
use crate::text::{concat2, concat3};

verus! {

/// What reading one configuration file yielded.
pub enum FileLoad<T> {
    /// The file does not exist.
    Missing,
    /// The file exists but could not be read; the reason.
    ReadFailed(String),
    /// The file was read but is not valid YAML for its kind; the reason.
    ParseFailed(String),
    /// The file's parsed contents.
    Loaded(T),
}

/// One YAML file of a configuration directory and what reading it yielded.
pub struct DirEntryLoad<T> {
    pub path: String,
    pub load: FileLoad<T>,
}

/// Why a site's configuration could not be loaded.
#[derive(Debug, PartialEq, Eq)]
pub enum ConfigError {
    MissingFile(String),
    ReadFailed { path: String, message: String },
    ParseFailed { path: String, message: String },
}

/// A configuration error as the specifications speak of it.
pub enum ConfigErrorView {
    MissingFile(Seq<char>),
    ReadFailed(Seq<char>, Seq<char>),
    ParseFailed(Seq<char>, Seq<char>),
}

impl View for ConfigError {
    type V = ConfigErrorView;

    open spec fn view(&self) -> ConfigErrorView {
        match self {
            ConfigError::MissingFile(p) => ConfigErrorView::MissingFile(p@),
            ConfigError::ReadFailed { path, message } => ConfigErrorView::ReadFailed(path@, message@),
            ConfigError::ParseFailed { path, message } => ConfigErrorView::ParseFailed(path@, message@),
        }
    }
}

impl ConfigError {
    /// The text the error displays.
    pub fn message(&self) -> (r: String)
        ensures
            r@ == match self@ {
                ConfigErrorView::MissingFile(p) => "missing required config file: "@ + p,
                ConfigErrorView::ReadFailed(p, m) => "failed to read "@ + p + ": "@ + m,
                ConfigErrorView::ParseFailed(p, m) => "failed to parse YAML "@ + p + ": "@ + m,
            },
    {
        match self {
            ConfigError::MissingFile(p) => concat2("missing required config file: ", p.as_str()),
            ConfigError::ReadFailed { path, message } => {
                let mut r = concat3("failed to read ", path.as_str(), ": ");
                r.append(message.as_str());
                r
            },
            ConfigError::ParseFailed { path, message } => {
                let mut r = concat3("failed to parse YAML ", path.as_str(), ": ");
                r.append(message.as_str());
                r
            },
        }
    }
}

/// The raw configuration of a site, one value per file.
#[derive(Debug, Clone)]
pub struct ConfigBundle {
    pub site: SiteFile,
    pub interfaces: InterfacesFile,
    pub networks: Vec<RawNetworkFile>,
    pub hosts: Vec<RawHostFile>,
    pub wifi_ssids: RawSsidsFile,
    pub wifi_aps: RawApsFile,
    pub wifi_groups: RawGroupsFile,
    pub firewall_zones: RawZonesFile,
    pub firewall_policies: RawPoliciesFile,
    pub dns: RawDnsFile,
    pub dhcp: RawDhcpFile,
    pub nftables_service: Option<RawServiceFile>,
    pub port_forwards: RawPortForwardsFile,
    pub reverse_proxy: RawReverseProxyFile,
    pub remote_access: RemoteAccessConfig,
}

/// What reading each file of a site's configuration yielded. A directory is
/// `None` when it does not exist, and otherwise lists its YAML files in
/// file-name order.
pub struct SiteFiles {
    pub site: FileLoad<SiteFile>,
    pub interfaces: FileLoad<InterfacesFile>,
    pub networks: Option<Vec<DirEntryLoad<RawNetworkFile>>>,
    pub hosts: Option<Vec<DirEntryLoad<RawHostFile>>>,
    pub wifi_ssids: FileLoad<RawSsidsFile>,
    pub wifi_aps: FileLoad<RawApsFile>,
    pub wifi_groups: FileLoad<RawGroupsFile>,
    pub firewall_zones: FileLoad<RawZonesFile>,
    pub firewall_policies: FileLoad<RawPoliciesFile>,
    pub dns: FileLoad<RawDnsFile>,
    pub dhcp: FileLoad<RawDhcpFile>,
    pub nftables_service: FileLoad<RawServiceFile>,
    pub port_forwards: FileLoad<RawPortForwardsFile>,
    pub reverse_proxy: FileLoad<RawReverseProxyFile>,
    pub remote_access: FileLoad<RemoteAccessConfig>,
}

/// `rel` under the directory `root`, as `Path::join` writes it for a
/// relative `rel`: a separator is added unless `root` is empty or ends in one.
pub open spec fn joined(root: Seq<char>, rel: Seq<char>) -> Seq<char> {
    if root.len() == 0 {
        rel
    } else if root.last() == '/' {
        root + rel
    } else {
        root + "/"@ + rel
    }
}

/// `rel` under the directory `root`.
pub fn join_path(root: &str, rel: &str) -> (r: String)
    ensures
        r@ == joined(root@, rel@),
{
    let n = root.unicode_len();
    if n == 0 {
        String::from_str(rel)
    } else if root.get_char(n - 1) == '/' {
        concat2(root, rel)
    } else {
        concat3(root, "/", rel)
    }
}

/// The error a required file's load gives, if any.
pub open spec fn load_error<T>(path: Seq<char>, load: FileLoad<T>) -> Option<ConfigErrorView> {
    match load {
        FileLoad::Missing => Some(ConfigErrorView::MissingFile(path)),
        FileLoad::ReadFailed(m) => Some(ConfigErrorView::ReadFailed(path, m@)),
        FileLoad::ParseFailed(m) => Some(ConfigErrorView::ParseFailed(path, m@)),
        FileLoad::Loaded(_) => None,
    }
}

/// The error an optional file's load gives, if any (a missing file is none).
pub open spec fn optional_error<T>(path: Seq<char>, load: FileLoad<T>) -> Option<ConfigErrorView> {
    match load {
        FileLoad::Missing => None,
        _ => load_error(path, load),
    }
}

/// The errors of a directory's files in order, or the missing directory.
pub open spec fn dir_errors<T>(path: Seq<char>, listing: Option<Vec<DirEntryLoad<T>>>) -> Seq<Option<ConfigErrorView>> {
    match listing {
        None => seq![Some(ConfigErrorView::MissingFile(path))],
        Some(entries) => entries@.map_values(|e: DirEntryLoad<T>| load_error(e.path@, e.load)),
    }
}

/// The first error of a list of checks, if any.
pub open spec fn first_error(checks: Seq<Option<ConfigErrorView>>) -> Option<ConfigErrorView>
    decreases checks.len(),
{
    if checks.len() == 0 {
        None
    } else if checks[0] is Some {
        checks[0]
    } else {
        first_error(checks.drop_first())
    }
}

/// The checks of a site's files, in the order they are read.
pub open spec fn site_checks(root: Seq<char>, f: SiteFiles) -> Seq<Option<ConfigErrorView>> {
    seq![
        load_error(joined(root, "site.yaml"@), f.site),
        load_error(joined(root, "interfaces.yaml"@), f.interfaces),
    ] + dir_errors(joined(root, "networks"@), f.networks) + dir_errors(
        joined(root, "hosts"@),
        f.hosts,
    ) + seq![
        load_error(joined(root, "wifi/ssids.yaml"@), f.wifi_ssids),
        load_error(joined(root, "wifi/aps.yaml"@), f.wifi_aps),
        load_error(joined(root, "wifi/groups.yaml"@), f.wifi_groups),
        load_error(joined(root, "firewall/zones.yaml"@), f.firewall_zones),
        load_error(joined(root, "firewall/policies.yaml"@), f.firewall_policies),
        load_error(joined(root, "services/dns.yaml"@), f.dns),
        load_error(joined(root, "services/dhcp.yaml"@), f.dhcp),
        optional_error(joined(root, "services/nftables.yaml"@), f.nftables_service),
        optional_error(joined(root, "services/port_forwards.yaml"@), f.port_forwards),
        optional_error(joined(root, "services/reverse_proxy.yaml"@), f.reverse_proxy),
        optional_error(joined(root, "remote_access.yaml"@), f.remote_access),
    ]
}

/// The contents of a loaded file.
pub open spec fn loaded<T>(load: FileLoad<T>) -> T {
    load->Loaded_0
}

/// The contents of a directory whose files all loaded.
pub open spec fn dir_contents<T>(listing: Option<Vec<DirEntryLoad<T>>>) -> Seq<T> {
    listing->Some_0@.map_values(|e: DirEntryLoad<T>| loaded(e.load))
}

/// A bundle holds exactly what the files yielded; an absent optional file
/// leaves its part empty.
pub open spec fn bundle_of(b: ConfigBundle, f: SiteFiles) -> bool {
    &&& b.site == loaded(f.site)
    &&& b.interfaces == loaded(f.interfaces)
    &&& b.networks@ == dir_contents(f.networks)
    &&& b.hosts@ == dir_contents(f.hosts)
    &&& b.wifi_ssids == loaded(f.wifi_ssids)
    &&& b.wifi_aps == loaded(f.wifi_aps)
    &&& b.wifi_groups == loaded(f.wifi_groups)
    &&& b.firewall_zones == loaded(f.firewall_zones)
    &&& b.firewall_policies == loaded(f.firewall_policies)
    &&& b.dns == loaded(f.dns)
    &&& b.dhcp == loaded(f.dhcp)
    &&& b.nftables_service == match f.nftables_service {
        FileLoad::Loaded(s) => Some(s),
        _ => None,
    }
    &&& match f.port_forwards {
        FileLoad::Loaded(p) => b.port_forwards == p,
        _ => b.port_forwards.rules@.len() == 0,
    }
    &&& match f.reverse_proxy {
        FileLoad::Loaded(p) => b.reverse_proxy == p,
        _ => b.reverse_proxy.provider == ReverseProxyProvider::Apache2
            && b.reverse_proxy.sites@.len() == 0,
    }
    &&& match f.remote_access {
        FileLoad::Loaded(p) => b.remote_access == p,
        _ => b.remote_access.providers@.len() == 0 && b.remote_access.publications@.len() == 0
            && b.remote_access.wan_updates@.len() == 0,
    }
}

/// The outcome of loading, as the specifications speak of it.
pub open spec fn load_outcome(r: Result<ConfigBundle, ConfigError>, root: Seq<char>, f: SiteFiles) -> bool {
    match first_error(site_checks(root, f)) {
        Some(e) => r is Err && r->Err_0@ == e,
        None => r is Ok && bundle_of(r->Ok_0, f),
    }
}

/// The contents of a required file, or the error its load gives.
fn read_yaml<T>(path: String, load: FileLoad<T>) -> (r: Result<T, ConfigError>)
    ensures
        match load_error(path@, load) {
            Some(e) => r is Err && r->Err_0@ == e,
            None => r == Ok::<T, ConfigError>(loaded(load)),
        },
{
    match load {
        FileLoad::Missing => Err(ConfigError::MissingFile(path)),
        FileLoad::ReadFailed(message) => Err(ConfigError::ReadFailed { path, message }),
        FileLoad::ParseFailed(message) => Err(ConfigError::ParseFailed { path, message }),
        FileLoad::Loaded(value) => Ok(value),
    }
}

/// The contents of an optional file (`None` when absent), or the error its load gives.
fn read_optional_yaml<T>(path: String, load: FileLoad<T>) -> (r: Result<Option<T>, ConfigError>)
    ensures
        match optional_error(path@, load) {
            Some(e) => r is Err && r->Err_0@ == e,
            None => r == Ok::<Option<T>, ConfigError>(
                match load {
                    FileLoad::Loaded(t) => Some(t),
                    _ => None,
                },
            ),
        },
{
    match load {
        FileLoad::Missing => Ok(None),
        FileLoad::ReadFailed(message) => Err(ConfigError::ReadFailed { path, message }),
        FileLoad::ParseFailed(message) => Err(ConfigError::ParseFailed { path, message }),
        FileLoad::Loaded(value) => Ok(Some(value)),
    }
}

/// The contents of a directory's YAML files in order, or the first error.
fn load_yaml_dir<T>(path: String, listing: Option<Vec<DirEntryLoad<T>>>) -> (r: Result<Vec<T>, ConfigError>)
    ensures
        match first_error(dir_errors(path@, listing)) {
            Some(e) => r is Err && r->Err_0@ == e,
            None => r is Ok && r->Ok_0@ == dir_contents(listing),
        },
{
    let ghost errs = dir_errors(path@, listing);
    let mut entries = match listing {
        None => {
            assert(first_error(errs) == errs[0]);
            return Err(ConfigError::MissingFile(path));
        },
        Some(entries) => entries,
    };
    let ghost all = entries@;
    let ghost f = |e: DirEntryLoad<T>| load_error(e.path@, e.load);
    let ghost g = |e: DirEntryLoad<T>| loaded(e.load);
    let mut items: Vec<T> = Vec::new();
    let mut i: usize = 0;
    assert(all.len() == entries.len());
    assert(all.map_values(f).skip(0) =~= all.map_values(f));
    while entries.len() > 0
        invariant
            f == (|e: DirEntryLoad<T>| load_error(e.path@, e.load)),
            g == (|e: DirEntryLoad<T>| loaded(e.load)),
            errs == all.map_values(f),
            errs == dir_errors(path@, listing),
            all == listing->Some_0@,
            all.len() <= usize::MAX,
            i <= all.len(),
            entries@ == all.skip(i as int),
            first_error(errs) == first_error(errs.skip(i as int)),
            forall|k: int| 0 <= k < i ==> (#[trigger] errs[k]) is None,
            items@ == all.take(i as int).map_values(g),
        decreases entries@.len(),
    {
        assert(i < all.len());
        let ghost rest = errs.skip(i as int);
        assert(rest.len() > 0);
        let entry = entries.remove(0);
        assert(rest[0] == f(entry));
        assert(rest.drop_first() =~= errs.skip(i + 1));
        match read_yaml(entry.path, entry.load) {
            Ok(item) => {
                items.push(item);
                assert(all.take(i + 1).map_values(g) =~= all.take(i as int).map_values(g).push(
                    g(all[i as int]),
                ));
            },
            Err(e) => {
                assert(first_error(rest) == rest[0]);
                assert(first_error(errs) == Some(e@));
                return Err(e);
            },
        }
        i = i + 1;
    }
    assert(all.take(i as int) =~= all);
    assert(errs.skip(i as int) =~= Seq::<Option<ConfigErrorView>>::empty());
    Ok(items)
}

proof fn lemma_first_error_add(a: Seq<Option<ConfigErrorView>>, b: Seq<Option<ConfigErrorView>>)
    ensures
        first_error(a + b) == match first_error(a) {
            Some(e) => Some(e),
            None => first_error(b),
        },
    decreases a.len(),
{
    if a.len() > 0 {
        assert((a + b).drop_first() =~= a.drop_first() + b);
        lemma_first_error_add(a.drop_first(), b);
    } else {
        assert(a + b =~= b);
    }
}

/// Assembles a site's configuration bundle from what reading its files
/// yielded, in the order `site.yaml`, `interfaces.yaml`, the `networks` and
/// `hosts` directories, the Wi-Fi, firewall and DNS/DHCP files, then the
/// optional service, port-forward, reverse-proxy and remote-access files.
/// The first file that is missing (when required), unreadable or not valid
/// gives the error, with its path under `root`.
pub fn load_site_from_path(root: &str, files: SiteFiles) -> (r: Result<ConfigBundle, ConfigError>)
    ensures
        load_outcome(r, root@, files),
{
    let ghost f = files;
    let ghost checks = site_checks(root@, files);
    let SiteFiles {
        site,
        interfaces,
        networks,
        hosts,
        wifi_ssids,
        wifi_aps,
        wifi_groups,
        firewall_zones,
        firewall_policies,
        dns,
        dhcp,
        nftables_service,
        port_forwards,
        reverse_proxy,
        remote_access,
    } = files;
    let ghost c_site = seq![load_error(joined(root@, "site.yaml"@), f.site)];
    let ghost c_ifaces = seq![load_error(joined(root@, "interfaces.yaml"@), f.interfaces)];
    let ghost c_nets = dir_errors(joined(root@, "networks"@), f.networks);
    let ghost c_hosts = dir_errors(joined(root@, "hosts"@), f.hosts);
    let ghost c_rest = seq![
        load_error(joined(root@, "wifi/ssids.yaml"@), f.wifi_ssids),
        load_error(joined(root@, "wifi/aps.yaml"@), f.wifi_aps),
        load_error(joined(root@, "wifi/groups.yaml"@), f.wifi_groups),
        load_error(joined(root@, "firewall/zones.yaml"@), f.firewall_zones),
        load_error(joined(root@, "firewall/policies.yaml"@), f.firewall_policies),
        load_error(joined(root@, "services/dns.yaml"@), f.dns),
        load_error(joined(root@, "services/dhcp.yaml"@), f.dhcp),
        optional_error(joined(root@, "services/nftables.yaml"@), f.nftables_service),
        optional_error(joined(root@, "services/port_forwards.yaml"@), f.port_forwards),
        optional_error(joined(root@, "services/reverse_proxy.yaml"@), f.reverse_proxy),
        optional_error(joined(root@, "remote_access.yaml"@), f.remote_access),
    ];
    proof {
        reveal_with_fuel(first_error, 12);
        assert(checks =~= c_site + (c_ifaces + (c_nets + (c_hosts + c_rest))));
        lemma_first_error_add(c_site, c_ifaces + (c_nets + (c_hosts + c_rest)));
        lemma_first_error_add(c_ifaces, c_nets + (c_hosts + c_rest));
        lemma_first_error_add(c_nets, c_hosts + c_rest);
        lemma_first_error_add(c_hosts, c_rest);
        assert(first_error(c_site) == c_site[0]);
        assert(first_error(c_ifaces) == c_ifaces[0]);
    }
    let site = read_yaml(join_path(root, "site.yaml"), site)?;
    let interfaces = read_yaml(join_path(root, "interfaces.yaml"), interfaces)?;
    let networks = load_yaml_dir(join_path(root, "networks"), networks)?;
    let hosts = load_yaml_dir(join_path(root, "hosts"), hosts)?;
    let wifi_ssids = read_yaml(join_path(root, "wifi/ssids.yaml"), wifi_ssids)?;
    let wifi_aps = read_yaml(join_path(root, "wifi/aps.yaml"), wifi_aps)?;
    let wifi_groups = read_yaml(join_path(root, "wifi/groups.yaml"), wifi_groups)?;
    let firewall_zones = read_yaml(join_path(root, "firewall/zones.yaml"), firewall_zones)?;
    let firewall_policies = read_yaml(join_path(root, "firewall/policies.yaml"), firewall_policies)?;
    let dns = read_yaml(join_path(root, "services/dns.yaml"), dns)?;
    let dhcp = read_yaml(join_path(root, "services/dhcp.yaml"), dhcp)?;
    let nftables_service = read_optional_yaml(join_path(root, "services/nftables.yaml"), nftables_service)?;
    let port_forwards = match read_optional_yaml(join_path(root, "services/port_forwards.yaml"), port_forwards)? {
        Some(p) => p,
        None => RawPortForwardsFile { rules: Vec::new() },
    };
    let reverse_proxy = match read_optional_yaml(join_path(root, "services/reverse_proxy.yaml"), reverse_proxy)? {
        Some(p) => p,
        None => RawReverseProxyFile { provider: ReverseProxyProvider::Apache2, sites: Vec::new() },
    };
    let remote_access = match read_optional_yaml(join_path(root, "remote_access.yaml"), remote_access)? {
        Some(p) => p,
        None => RemoteAccessConfig { providers: Vec::new(), publications: Vec::new(), wan_updates: Vec::new() },
    };
    Ok(
        ConfigBundle {
            site,
            interfaces,
            networks,
            hosts,
            wifi_ssids,
            wifi_aps,
            wifi_groups,
            firewall_zones,
            firewall_policies,
            dns,
            dhcp,
            nftables_service,
            port_forwards,
            reverse_proxy,
            remote_access,
        },
    )
}

} // verus!
