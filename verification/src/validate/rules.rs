//! The site rules: unique names and references that must resolve.
use vstd::prelude::*;

use crate::domain::{
    AccessPointDef, HostDef, HostInterfaceDef, InterfaceDef, NetworkDef, PolicyRule,
    PortForwardRule, ReverseProxySite, SiteConfig, SsidDef, ZoneDef, AccessPointGroupDef,
};
use crate::remote_access::is_error;
use crate::seqs::{all_of, lemma_all_of_concat, lemma_flat_map_all, lemma_flat_map_contains, lemma_flat_map_take_all, lemma_flat_map_take_succ, lemma_flat_map_take_zero};
use crate::text::{blank, concat2, concat3, concat4, contains_string, is_blank, strs};
use crate::validate::{
    append_issues, err, issue_views, make_error, IssueView, ValidationIssue,
};

verus! {

/// One issue when `c` holds, none otherwise.
pub open spec fn issue_if(c: bool, x: IssueView) -> Seq<IssueView> {
    if c {
        seq![x]
    } else {
        Seq::empty()
    }
}

/// The names of the site's networks, in order.
pub open spec fn network_names(site: SiteConfig) -> Seq<Seq<char>> {
    site.networks@.map_values(|n: NetworkDef| n.name@)
}

/// The names of the site's hosts, in order.
pub open spec fn host_names(site: SiteConfig) -> Seq<Seq<char>> {
    site.hosts@.map_values(|h: HostDef| h.name@)
}

/// The names of the firewall zones, in order.
pub open spec fn zone_names(site: SiteConfig) -> Seq<Seq<char>> {
    site.firewall.zones@.map_values(|z: ZoneDef| z.name@)
}

/// The names of the access-point groups, in order.
pub open spec fn group_names(site: SiteConfig) -> Seq<Seq<char>> {
    site.wifi.groups@.map_values(|g: AccessPointGroupDef| g.name@)
}

/// One issue for every value that repeats an earlier one, at the repetition.
pub open spec fn unique_issues(values: Seq<Seq<char>>, path: Seq<char>, message: Seq<char>) -> Seq<IssueView>
    decreases values.len(),
{
    if values.len() == 0 {
        Seq::empty()
    } else {
        let rest = values.drop_last();
        unique_issues(rest, path, message) + issue_if(
            rest.contains(values.last()),
            err(path, message + ": `"@ + values.last() + "`"@),
        )
    }
}

/// The site name must not be blank.
pub open spec fn name_issues(site: SiteConfig) -> Seq<IssueView> {
    issue_if(is_blank(site.metadata.name@), err("metadata.name"@, "site name must not be empty"@))
}

/// An issue for a network reference of an interface that names no network.
pub open spec fn interface_ref_fn(iface: InterfaceDef, nets: Seq<Seq<char>>) -> spec_fn(String) -> Seq<IssueView> {
    |r: String|
        issue_if(
            !nets.contains(r@),
            err("interfaces."@ + iface.name@, "unknown network reference `"@ + r@ + "`"@),
        )
}

/// The issues of one interface.
pub open spec fn interface_fn(nets: Seq<Seq<char>>) -> spec_fn(InterfaceDef) -> Seq<IssueView> {
    |iface: InterfaceDef| iface.network_refs@.flat_map(interface_ref_fn(iface, nets))
}

/// The issues of one host interface.
pub open spec fn host_interface_fn(host: HostDef, nets: Seq<Seq<char>>) -> spec_fn(HostInterfaceDef) -> Seq<IssueView> {
    |i: HostInterfaceDef|
        match i.network {
            Some(n) => issue_if(
                !nets.contains(n@),
                err(
                    "hosts."@ + host.name@ + ".interfaces."@ + i.name@,
                    "unknown host interface network `"@ + n@ + "`"@,
                ),
            ),
            None => Seq::empty(),
        }
}

/// The issue of a host's own network.
pub open spec fn host_network_issues(h: HostDef, nets: Seq<Seq<char>>) -> Seq<IssueView> {
    match h.network {
        Some(n) => issue_if(
            !nets.contains(n@),
            err("hosts."@ + h.name@, "unknown host network `"@ + n@ + "`"@),
        ),
        None => Seq::empty(),
    }
}

/// The issues of one host.
pub open spec fn host_fn(nets: Seq<Seq<char>>) -> spec_fn(HostDef) -> Seq<IssueView> {
    |h: HostDef| host_network_issues(h, nets) + h.interfaces@.flat_map(host_interface_fn(h, nets))
}

/// The issues of one firewall policy.
pub open spec fn policy_fn(zones: Seq<Seq<char>>) -> spec_fn(PolicyRule) -> Seq<IssueView> {
    |p: PolicyRule|
        issue_if(
            !zones.contains(p.source_zone@),
            err("firewall.policies."@ + p.name@, "unknown source zone `"@ + p.source_zone@ + "`"@),
        ) + issue_if(
            !zones.contains(p.destination_zone@),
            err(
                "firewall.policies."@ + p.name@,
                "unknown destination zone `"@ + p.destination_zone@ + "`"@,
            ),
        )
}

/// An issue for a broadcast group of an SSID that names no group.
pub open spec fn ssid_group_fn(s: SsidDef, groups: Seq<Seq<char>>) -> spec_fn(String) -> Seq<IssueView> {
    |g: String|
        issue_if(
            !groups.contains(g@),
            err("wifi.ssids."@ + s.name@, "unknown AP group `"@ + g@ + "`"@),
        )
}

/// The issues of one SSID.
pub open spec fn ssid_fn(zones: Seq<Seq<char>>, groups: Seq<Seq<char>>) -> spec_fn(SsidDef) -> Seq<IssueView> {
    |s: SsidDef|
        issue_if(
            !zones.contains(s.zone@),
            err("wifi.ssids."@ + s.name@, "unknown firewall zone `"@ + s.zone@ + "`"@),
        ) + s.broadcast_groups@.flat_map(ssid_group_fn(s, groups))
}

/// The issue of one access point.
pub open spec fn ap_fn(groups: Seq<Seq<char>>) -> spec_fn(AccessPointDef) -> Seq<IssueView> {
    |a: AccessPointDef|
        match a.group {
            Some(g) => issue_if(
                !groups.contains(g@),
                err("wifi.access_points."@ + a.name@, "unknown AP group `"@ + g@ + "`"@),
            ),
            None => Seq::empty(),
        }
}

/// The issues of one port forward.
pub open spec fn forward_fn(zones: Seq<Seq<char>>, hosts: Seq<Seq<char>>) -> spec_fn(PortForwardRule) -> Seq<IssueView> {
    |r: PortForwardRule|
        issue_if(
            !zones.contains(r.source_zone@),
            err("port_forwards."@ + r.name@, "unknown source zone `"@ + r.source_zone@ + "`"@),
        ) + issue_if(
            !hosts.contains(r.destination_host@),
            err(
                "port_forwards."@ + r.name@,
                "unknown destination host `"@ + r.destination_host@ + "`"@,
            ),
        )
}

/// The server names of one proxied site.
pub open spec fn server_names_fn() -> spec_fn(ReverseProxySite) -> Seq<Seq<char>> {
    |p: ReverseProxySite| strs(p.server_names@)
}

/// The issues for the first `j` server names of `p`, given the names `seen` before `p`.
pub open spec fn server_name_issues(p: ReverseProxySite, seen: Seq<Seq<char>>, j: int) -> Seq<IssueView>
    decreases j,
{
    if j <= 0 {
        Seq::empty()
    } else {
        let names = strs(p.server_names@);
        server_name_issues(p, seen, j - 1) + issue_if(
            (seen + names.take(j - 1)).contains(names[j - 1]),
            err("reverse_proxies."@ + p.name@, "duplicate apache server name `"@ + names[j - 1] + "`"@),
        )
    }
}

/// The issues of the first `k` proxied sites.
pub open spec fn proxy_issues(sites: Seq<ReverseProxySite>, hosts: Seq<Seq<char>>, k: int) -> Seq<IssueView>
    decreases k,
{
    if k <= 0 {
        Seq::empty()
    } else {
        let p = sites[k - 1];
        proxy_issues(sites, hosts, k - 1) + issue_if(
            !hosts.contains(p.backend.host_ref@),
            err("reverse_proxies."@ + p.name@, "unknown backend host `"@ + p.backend.host_ref@ + "`"@),
        ) + server_name_issues(
            p,
            sites.take(k - 1).flat_map(server_names_fn()),
            p.server_names@.len() as int,
        )
    }
}

/// Every issue the site rules find, in the order they are reported.
pub open spec fn site_rule_issues(site: SiteConfig) -> Seq<IssueView> {
    let nets = network_names(site);
    let hosts = host_names(site);
    let zones = zone_names(site);
    let groups = group_names(site);
    name_issues(site)
        + unique_issues(nets, "networks"@, "network names must be unique"@)
        + unique_issues(hosts, "hosts"@, "host names must be unique"@)
        + site.interfaces@.flat_map(interface_fn(nets))
        + site.hosts@.flat_map(host_fn(nets))
        + site.firewall.policies@.flat_map(policy_fn(zones))
        + site.wifi.ssids@.flat_map(ssid_fn(zones, groups))
        + site.wifi.access_points@.flat_map(ap_fn(groups))
        + site.port_forwards.rules@.flat_map(forward_fn(zones, hosts))
        + proxy_issues(site.reverse_proxies.sites@, hosts, site.reverse_proxies.sites@.len() as int)
}

fn network_name_list(site: &SiteConfig) -> (r: Vec<String>)
    ensures
        strs(r@) == network_names(*site),
{
    let mut r: Vec<String> = Vec::new();
    for i in 0..site.networks.len()
        invariant
            strs(r@) == site.networks@.take(i as int).map_values(|n: NetworkDef| n.name@),
    {
        r.push(site.networks[i].name.clone());
        assert(site.networks@.take(i + 1).map_values(|n: NetworkDef| n.name@) =~= site.networks@.take(
            i as int,
        ).map_values(|n: NetworkDef| n.name@).push(site.networks@[i as int].name@));
        assert(strs(r@) =~= strs(r@.drop_last()).push(r@.last()@));
    }
    assert(site.networks@.take(site.networks@.len() as int) =~= site.networks@);
    r
}

fn host_name_list(site: &SiteConfig) -> (r: Vec<String>)
    ensures
        strs(r@) == host_names(*site),
{
    let mut r: Vec<String> = Vec::new();
    for i in 0..site.hosts.len()
        invariant
            strs(r@) == site.hosts@.take(i as int).map_values(|h: HostDef| h.name@),
    {
        r.push(site.hosts[i].name.clone());
        assert(site.hosts@.take(i + 1).map_values(|h: HostDef| h.name@) =~= site.hosts@.take(
            i as int,
        ).map_values(|h: HostDef| h.name@).push(site.hosts@[i as int].name@));
        assert(strs(r@) =~= strs(r@.drop_last()).push(r@.last()@));
    }
    assert(site.hosts@.take(site.hosts@.len() as int) =~= site.hosts@);
    r
}

fn zone_name_list(site: &SiteConfig) -> (r: Vec<String>)
    ensures
        strs(r@) == zone_names(*site),
{
    let mut r: Vec<String> = Vec::new();
    for i in 0..site.firewall.zones.len()
        invariant
            strs(r@) == site.firewall.zones@.take(i as int).map_values(|z: ZoneDef| z.name@),
    {
        r.push(site.firewall.zones[i].name.clone());
        assert(site.firewall.zones@.take(i + 1).map_values(|z: ZoneDef| z.name@)
            =~= site.firewall.zones@.take(i as int).map_values(|z: ZoneDef| z.name@).push(
            site.firewall.zones@[i as int].name@,
        ));
        assert(strs(r@) =~= strs(r@.drop_last()).push(r@.last()@));
    }
    assert(site.firewall.zones@.take(site.firewall.zones@.len() as int) =~= site.firewall.zones@);
    r
}

fn group_name_list(site: &SiteConfig) -> (r: Vec<String>)
    ensures
        strs(r@) == group_names(*site),
{
    let mut r: Vec<String> = Vec::new();
    for i in 0..site.wifi.groups.len()
        invariant
            strs(r@) == site.wifi.groups@.take(i as int).map_values(
                |g: AccessPointGroupDef| g.name@,
            ),
    {
        r.push(site.wifi.groups[i].name.clone());
        assert(site.wifi.groups@.take(i + 1).map_values(|g: AccessPointGroupDef| g.name@)
            =~= site.wifi.groups@.take(i as int).map_values(|g: AccessPointGroupDef| g.name@).push(
            site.wifi.groups@[i as int].name@,
        ));
        assert(strs(r@) =~= strs(r@.drop_last()).push(r@.last()@));
    }
    assert(site.wifi.groups@.take(site.wifi.groups@.len() as int) =~= site.wifi.groups@);
    r
}

/// Pushes an error onto `issues` when `c` holds.
fn push_when(issues: &mut Vec<ValidationIssue>, c: bool, path: String, message: String)
    ensures
        issue_views(final(issues)@) == issue_views(old(issues)@) + issue_if(c, err(path@, message@)),
{
    let ghost before = old(issues)@;
    if c {
        issues.push(make_error(path, message));
        assert(issue_views(issues@) =~= issue_views(before) + seq![err(path@, message@)]);
    } else {
        assert(issue_views(issues@) =~= issue_views(before) + Seq::<IssueView>::empty());
    }
}

/// One issue for each value that repeats an earlier one.
fn check_unique(values: &Vec<String>, path: &str, message: &str) -> (r: Vec<ValidationIssue>)
    ensures
        issue_views(r@) == unique_issues(strs(values@), path@, message@),
{
    let mut seen: Vec<String> = Vec::new();
    let mut issues: Vec<ValidationIssue> = Vec::new();
    for i in 0..values.len()
        invariant
            strs(seen@) == strs(values@).take(i as int),
            issue_views(issues@) == unique_issues(strs(values@).take(i as int), path@, message@),
    {
        let value = &values[i];
        let dup = contains_string(&seen, value);
        let ghost pre = strs(values@).take(i as int);
        let ghost cur = strs(values@).take(i + 1);
        assert(cur.drop_last() =~= pre);
        assert(cur.last() == value@);
        push_when(&mut issues, dup, String::from_str(path), concat4(message, ": `", value.as_str(), "`"));
        seen.push(value.clone());
        assert(strs(seen@) =~= cur);
    }
    assert(strs(values@).take(values@.len() as int) =~= strs(values@));
    issues
}

fn interface_issues(site: &SiteConfig, nets: &Vec<String>) -> (r: Vec<ValidationIssue>)
    requires
        strs(nets@) == network_names(*site),
    ensures
        issue_views(r@) == site.interfaces@.flat_map(interface_fn(network_names(*site))),
{
    let ghost names = network_names(*site);
    let ghost f = interface_fn(names);
    let mut issues: Vec<ValidationIssue> = Vec::new();
    proof {
        lemma_flat_map_take_zero(site.interfaces@, f);
    }
    for i in 0..site.interfaces.len()
        invariant
            strs(nets@) == names,
            names == network_names(*site),
            f == interface_fn(names),
            issue_views(issues@) == site.interfaces@.take(i as int).flat_map(f),
    {
        let iface = &site.interfaces[i];
        let ghost g = interface_ref_fn(*iface, names);
        let ghost base = issue_views(issues@);
        proof {
            lemma_flat_map_take_zero(iface.network_refs@, g);
        }
        for j in 0..iface.network_refs.len()
            invariant
                strs(nets@) == names,
                g == interface_ref_fn(*iface, names),
                issue_views(issues@) == base + iface.network_refs@.take(j as int).flat_map(g),
        {
            let network = &iface.network_refs[j];
            let known = contains_string(nets, network);
            proof {
                lemma_flat_map_take_succ(iface.network_refs@, g, j as int);
            }
            push_when(
                &mut issues,
                !known,
                concat2("interfaces.", iface.name.as_str()),
                concat3("unknown network reference `", network.as_str(), "`"),
            );
        }
        proof {
            lemma_flat_map_take_all(iface.network_refs@, g);
            lemma_flat_map_take_succ(site.interfaces@, f, i as int);
        }
    }
    proof {
        lemma_flat_map_take_all(site.interfaces@, f);
    }
    issues
}

fn host_issues(site: &SiteConfig, nets: &Vec<String>) -> (r: Vec<ValidationIssue>)
    requires
        strs(nets@) == network_names(*site),
    ensures
        issue_views(r@) == site.hosts@.flat_map(host_fn(network_names(*site))),
{
    let ghost names = network_names(*site);
    let ghost f = host_fn(names);
    let mut issues: Vec<ValidationIssue> = Vec::new();
    proof {
        lemma_flat_map_take_zero(site.hosts@, f);
    }
    for i in 0..site.hosts.len()
        invariant
            strs(nets@) == names,
            names == network_names(*site),
            f == host_fn(names),
            issue_views(issues@) == site.hosts@.take(i as int).flat_map(f),
    {
        let host = &site.hosts[i];
        let ghost g = host_interface_fn(*host, names);
        let ghost base = issue_views(issues@);
        match &host.network {
            Some(network) => {
                let known = contains_string(nets, network);
                push_when(
                    &mut issues,
                    !known,
                    concat2("hosts.", host.name.as_str()),
                    concat3("unknown host network `", network.as_str(), "`"),
                );
            },
            None => {
                assert(issue_views(issues@) =~= base + Seq::<IssueView>::empty());
            },
        }
        let ghost mid = issue_views(issues@);
        assert(mid == base + host_network_issues(*host, names));
        proof {
            lemma_flat_map_take_zero(host.interfaces@, g);
        }
        for j in 0..host.interfaces.len()
            invariant
                strs(nets@) == names,
                g == host_interface_fn(*host, names),
                issue_views(issues@) == mid + host.interfaces@.take(j as int).flat_map(g),
        {
            let iface = &host.interfaces[j];
            proof {
                lemma_flat_map_take_succ(host.interfaces@, g, j as int);
            }
            match &iface.network {
                Some(network) => {
                    let known = contains_string(nets, network);
                    let mut path = concat3("hosts.", host.name.as_str(), ".interfaces.");
                    path.append(iface.name.as_str());
                    push_when(
                        &mut issues,
                        !known,
                        path,
                        concat3("unknown host interface network `", network.as_str(), "`"),
                    );
                },
                None => {
                    assert(g(*iface) =~= Seq::<IssueView>::empty());
                    assert(issue_views(issues@) =~= mid + host.interfaces@.take(j + 1).flat_map(g));
                },
            }
        }
        proof {
            lemma_flat_map_take_all(host.interfaces@, g);
            lemma_flat_map_take_succ(site.hosts@, f, i as int);
            assert(f(*host) == host_network_issues(*host, names) + host.interfaces@.flat_map(g));
        }
    }
    proof {
        lemma_flat_map_take_all(site.hosts@, f);
    }
    issues
}

fn policy_issues(site: &SiteConfig, zones: &Vec<String>) -> (r: Vec<ValidationIssue>)
    requires
        strs(zones@) == zone_names(*site),
    ensures
        issue_views(r@) == site.firewall.policies@.flat_map(policy_fn(zone_names(*site))),
{
    let ghost names = zone_names(*site);
    let ghost f = policy_fn(names);
    let mut issues: Vec<ValidationIssue> = Vec::new();
    proof {
        lemma_flat_map_take_zero(site.firewall.policies@, f);
    }
    for i in 0..site.firewall.policies.len()
        invariant
            strs(zones@) == names,
            f == policy_fn(names),
            issue_views(issues@) == site.firewall.policies@.take(i as int).flat_map(f),
    {
        let policy = &site.firewall.policies[i];
        proof {
            lemma_flat_map_take_succ(site.firewall.policies@, f, i as int);
        }
        let known_source = contains_string(zones, &policy.source_zone);
        push_when(
            &mut issues,
            !known_source,
            concat2("firewall.policies.", policy.name.as_str()),
            concat3("unknown source zone `", policy.source_zone.as_str(), "`"),
        );
        let known_dest = contains_string(zones, &policy.destination_zone);
        push_when(
            &mut issues,
            !known_dest,
            concat2("firewall.policies.", policy.name.as_str()),
            concat3("unknown destination zone `", policy.destination_zone.as_str(), "`"),
        );
    }
    proof {
        lemma_flat_map_take_all(site.firewall.policies@, f);
    }
    issues
}

fn ssid_issues(site: &SiteConfig, zones: &Vec<String>, groups: &Vec<String>) -> (r: Vec<ValidationIssue>)
    requires
        strs(zones@) == zone_names(*site),
        strs(groups@) == group_names(*site),
    ensures
        issue_views(r@) == site.wifi.ssids@.flat_map(ssid_fn(zone_names(*site), group_names(*site))),
{
    let ghost zn = zone_names(*site);
    let ghost gn = group_names(*site);
    let ghost f = ssid_fn(zn, gn);
    let mut issues: Vec<ValidationIssue> = Vec::new();
    proof {
        lemma_flat_map_take_zero(site.wifi.ssids@, f);
    }
    for i in 0..site.wifi.ssids.len()
        invariant
            strs(zones@) == zn,
            strs(groups@) == gn,
            f == ssid_fn(zn, gn),
            issue_views(issues@) == site.wifi.ssids@.take(i as int).flat_map(f),
    {
        let ssid = &site.wifi.ssids[i];
        let ghost g = ssid_group_fn(*ssid, gn);
        let ghost base = issue_views(issues@);
        let known_zone = contains_string(zones, &ssid.zone);
        push_when(
            &mut issues,
            !known_zone,
            concat2("wifi.ssids.", ssid.name.as_str()),
            concat3("unknown firewall zone `", ssid.zone.as_str(), "`"),
        );
        let ghost mid = issue_views(issues@);
        proof {
            lemma_flat_map_take_zero(ssid.broadcast_groups@, g);
        }
        for j in 0..ssid.broadcast_groups.len()
            invariant
                strs(groups@) == gn,
                g == ssid_group_fn(*ssid, gn),
                issue_views(issues@) == mid + ssid.broadcast_groups@.take(j as int).flat_map(g),
        {
            let group = &ssid.broadcast_groups[j];
            proof {
                lemma_flat_map_take_succ(ssid.broadcast_groups@, g, j as int);
            }
            let known = contains_string(groups, group);
            push_when(
                &mut issues,
                !known,
                concat2("wifi.ssids.", ssid.name.as_str()),
                concat3("unknown AP group `", group.as_str(), "`"),
            );
        }
        proof {
            lemma_flat_map_take_all(ssid.broadcast_groups@, g);
            lemma_flat_map_take_succ(site.wifi.ssids@, f, i as int);
        }
    }
    proof {
        lemma_flat_map_take_all(site.wifi.ssids@, f);
    }
    issues
}

fn access_point_issues(site: &SiteConfig, groups: &Vec<String>) -> (r: Vec<ValidationIssue>)
    requires
        strs(groups@) == group_names(*site),
    ensures
        issue_views(r@) == site.wifi.access_points@.flat_map(ap_fn(group_names(*site))),
{
    let ghost gn = group_names(*site);
    let ghost f = ap_fn(gn);
    let mut issues: Vec<ValidationIssue> = Vec::new();
    proof {
        lemma_flat_map_take_zero(site.wifi.access_points@, f);
    }
    for i in 0..site.wifi.access_points.len()
        invariant
            strs(groups@) == gn,
            f == ap_fn(gn),
            issue_views(issues@) == site.wifi.access_points@.take(i as int).flat_map(f),
    {
        let ap = &site.wifi.access_points[i];
        proof {
            lemma_flat_map_take_succ(site.wifi.access_points@, f, i as int);
        }
        match &ap.group {
            Some(group) => {
                let known = contains_string(groups, group);
                push_when(
                    &mut issues,
                    !known,
                    concat2("wifi.access_points.", ap.name.as_str()),
                    concat3("unknown AP group `", group.as_str(), "`"),
                );
            },
            None => {
                assert(f(*ap) =~= Seq::<IssueView>::empty());
                assert(issue_views(issues@) =~= site.wifi.access_points@.take(i + 1).flat_map(f));
            },
        }
    }
    proof {
        lemma_flat_map_take_all(site.wifi.access_points@, f);
    }
    issues
}

fn port_forward_issues(site: &SiteConfig, zones: &Vec<String>, hosts: &Vec<String>) -> (r: Vec<ValidationIssue>)
    requires
        strs(zones@) == zone_names(*site),
        strs(hosts@) == host_names(*site),
    ensures
        issue_views(r@) == site.port_forwards.rules@.flat_map(
            forward_fn(zone_names(*site), host_names(*site)),
        ),
{
    let ghost f = forward_fn(zone_names(*site), host_names(*site));
    let mut issues: Vec<ValidationIssue> = Vec::new();
    proof {
        lemma_flat_map_take_zero(site.port_forwards.rules@, f);
    }
    for i in 0..site.port_forwards.rules.len()
        invariant
            strs(zones@) == zone_names(*site),
            strs(hosts@) == host_names(*site),
            f == forward_fn(zone_names(*site), host_names(*site)),
            issue_views(issues@) == site.port_forwards.rules@.take(i as int).flat_map(f),
    {
        let rule = &site.port_forwards.rules[i];
        proof {
            lemma_flat_map_take_succ(site.port_forwards.rules@, f, i as int);
        }
        let known_zone = contains_string(zones, &rule.source_zone);
        push_when(
            &mut issues,
            !known_zone,
            concat2("port_forwards.", rule.name.as_str()),
            concat3("unknown source zone `", rule.source_zone.as_str(), "`"),
        );
        let known_host = contains_string(hosts, &rule.destination_host);
        push_when(
            &mut issues,
            !known_host,
            concat2("port_forwards.", rule.name.as_str()),
            concat3("unknown destination host `", rule.destination_host.as_str(), "`"),
        );
    }
    proof {
        lemma_flat_map_take_all(site.port_forwards.rules@, f);
    }
    issues
}

fn reverse_proxy_issues(site: &SiteConfig, hosts: &Vec<String>) -> (r: Vec<ValidationIssue>)
    requires
        strs(hosts@) == host_names(*site),
    ensures
        issue_views(r@) == proxy_issues(
            site.reverse_proxies.sites@,
            host_names(*site),
            site.reverse_proxies.sites@.len() as int,
        ),
{
    let ghost sites = site.reverse_proxies.sites@;
    let ghost hn = host_names(*site);
    let mut issues: Vec<ValidationIssue> = Vec::new();
    let mut seen: Vec<String> = Vec::new();
    proof {
        lemma_flat_map_take_zero(sites, server_names_fn());
    }
    for i in 0..site.reverse_proxies.sites.len()
        invariant
            sites == site.reverse_proxies.sites@,
            strs(hosts@) == hn,
            strs(seen@) == sites.take(i as int).flat_map(server_names_fn()),
            issue_views(issues@) == proxy_issues(sites, hn, i as int),
    {
        let proxy = &site.reverse_proxies.sites[i];
        let ghost before = strs(seen@);
        let known = contains_string(hosts, &proxy.backend.host_ref);
        push_when(
            &mut issues,
            !known,
            concat2("reverse_proxies.", proxy.name.as_str()),
            concat3("unknown backend host `", proxy.backend.host_ref.as_str(), "`"),
        );
        let ghost mid = issue_views(issues@);
        let ghost names = strs(proxy.server_names@);
        for j in 0..proxy.server_names.len()
            invariant
                names == strs(proxy.server_names@),
                strs(seen@) == before + names.take(j as int),
                issue_views(issues@) == mid + server_name_issues(*proxy, before, j as int),
        {
            let server_name = &proxy.server_names[j];
            let dup = contains_string(&seen, server_name);
            assert(names.take(j + 1) =~= names.take(j as int).push(names[j as int]));
            assert(names[j as int] == server_name@);
            push_when(
                &mut issues,
                dup,
                concat2("reverse_proxies.", proxy.name.as_str()),
                concat3("duplicate apache server name `", server_name.as_str(), "`"),
            );
            let ghost old_seen = seen@;
            seen.push(server_name.clone());
            assert(strs(seen@) =~= strs(old_seen).push(server_name@));
            assert(strs(seen@) =~= before + names.take(j + 1));
        }
        proof {
            assert(names.take(names.len() as int) =~= names);
            lemma_flat_map_take_succ(sites, server_names_fn(), i as int);
            assert(sites[i as int] == *proxy);
        }
    }
    issues
}

/// Checks the site rules: a non-blank site name, unique network and host
/// names, and references to networks, zones, AP groups and hosts that resolve.
pub fn validate_site(site: &SiteConfig) -> (r: Vec<ValidationIssue>)
    ensures
        issue_views(r@) == site_rule_issues(*site),
{
    let mut issues: Vec<ValidationIssue> = Vec::new();
    let nets = network_name_list(site);
    let hosts = host_name_list(site);
    let zones = zone_name_list(site);
    let groups = group_name_list(site);

    let name_blank = blank(site.metadata.name.as_str());
    push_when(
        &mut issues,
        name_blank,
        String::from_str("metadata.name"),
        String::from_str("site name must not be empty"),
    );
    append_issues(&mut issues, check_unique(&nets, "networks", "network names must be unique"));
    append_issues(&mut issues, check_unique(&hosts, "hosts", "host names must be unique"));
    append_issues(&mut issues, interface_issues(site, &nets));
    append_issues(&mut issues, host_issues(site, &nets));
    append_issues(&mut issues, policy_issues(site, &zones));
    append_issues(&mut issues, ssid_issues(site, &zones, &groups));
    append_issues(&mut issues, access_point_issues(site, &groups));
    append_issues(&mut issues, port_forward_issues(site, &zones, &hosts));
    append_issues(&mut issues, reverse_proxy_issues(site, &hosts));
    issues
}

/// Every value that repeats an earlier one is reported as an error at `path`.
pub proof fn repeated_values_reported(values: Seq<Seq<char>>, path: Seq<char>, message: Seq<char>, i: int, j: int)
    requires
        0 <= i < j < values.len(),
        values[i] == values[j],
    ensures
        unique_issues(values, path, message).contains(
            err(path, message + ": `"@ + values[j] + "`"@),
        ),
    decreases values.len(),
{
    let rest = values.drop_last();
    let x = err(path, message + ": `"@ + values[j] + "`"@);
    if j < values.len() - 1 {
        repeated_values_reported(rest, path, message, i, j);
        let w = unique_issues(rest, path, message);
        let k = choose|k: int| 0 <= k < w.len() && #[trigger] w[k] == x;
        assert(unique_issues(values, path, message)[k] == x);
    } else {
        assert(rest[i] == values[j]);
        assert(rest.contains(values.last()));
        let w = unique_issues(rest, path, message);
        assert(unique_issues(values, path, message)[w.len() as int] == x);
    }
}

/// A network reference of an interface that names no network of the site is
/// reported as an error at the interface.
pub proof fn unknown_network_reference_reported(site: SiteConfig, i: int, j: int)
    requires
        0 <= i < site.interfaces@.len(),
        0 <= j < site.interfaces@[i].network_refs@.len(),
        !network_names(site).contains(site.interfaces@[i].network_refs@[j]@),
    ensures
        site_rule_issues(site).contains(
            err(
                "interfaces."@ + site.interfaces@[i].name@,
                "unknown network reference `"@ + site.interfaces@[i].network_refs@[j]@ + "`"@,
            ),
        ),
{
    let nets = network_names(site);
    let iface = site.interfaces@[i];
    let x = err(
        "interfaces."@ + iface.name@,
        "unknown network reference `"@ + iface.network_refs@[j]@ + "`"@,
    );
    assert(interface_ref_fn(iface, nets)(iface.network_refs@[j])[0] == x);
    lemma_flat_map_contains(iface.network_refs@, interface_ref_fn(iface, nets), j, x);
    assert(interface_fn(nets)(iface) == iface.network_refs@.flat_map(interface_ref_fn(iface, nets)));
    lemma_flat_map_contains(site.interfaces@, interface_fn(nets), i, x);
    let a = name_issues(site) + unique_issues(nets, "networks"@, "network names must be unique"@)
        + unique_issues(host_names(site), "hosts"@, "host names must be unique"@);
    let b = site.interfaces@.flat_map(interface_fn(nets));
    let k = choose|k: int| 0 <= k < b.len() && #[trigger] b[k] == x;
    assert((a + b)[a.len() + k] == x);
    lemma_prefix_contains(a + b, site_rule_issues(site), a.len() + k);
}

proof fn lemma_prefix_contains(p: Seq<IssueView>, s: Seq<IssueView>, k: int)
    requires
        p.is_prefix_of(s),
        0 <= k < p.len(),
    ensures
        s.contains(p[k]),
{
    assert(s[k] == p[k]);
}

/// A proxied site whose backend names no host of the site is reported as
/// an error at that proxied site.
pub proof fn unknown_proxy_backend_reported(site: SiteConfig, k: int)
    requires
        0 <= k < site.reverse_proxies.sites@.len(),
        !host_names(site).contains(site.reverse_proxies.sites@[k].backend.host_ref@),
    ensures
        site_rule_issues(site).contains(
            err(
                "reverse_proxies."@ + site.reverse_proxies.sites@[k].name@,
                "unknown backend host `"@ + site.reverse_proxies.sites@[k].backend.host_ref@
                    + "`"@,
            ),
        ),
{
    let sites = site.reverse_proxies.sites@;
    let hosts = host_names(site);
    let x = err(
        "reverse_proxies."@ + sites[k].name@,
        "unknown backend host `"@ + sites[k].backend.host_ref@ + "`"@,
    );
    lemma_proxy_issue_kept(sites, hosts, k, sites.len() as int);
    let all = site_rule_issues(site);
    let pi = proxy_issues(sites, hosts, sites.len() as int);
    let m = choose|m: int| 0 <= m < pi.len() && #[trigger] pi[m] == x;
    assert(all[all.len() - pi.len() + m] == x);
}

proof fn lemma_proxy_issue_kept(sites: Seq<ReverseProxySite>, hosts: Seq<Seq<char>>, k: int, n: int)
    requires
        0 <= k < n <= sites.len(),
        !hosts.contains(sites[k].backend.host_ref@),
    ensures
        proxy_issues(sites, hosts, n).contains(
            err(
                "reverse_proxies."@ + sites[k].name@,
                "unknown backend host `"@ + sites[k].backend.host_ref@ + "`"@,
            ),
        ),
    decreases n,
{
    let x = err(
        "reverse_proxies."@ + sites[k].name@,
        "unknown backend host `"@ + sites[k].backend.host_ref@ + "`"@,
    );
    let prev = proxy_issues(sites, hosts, n - 1);
    if k < n - 1 {
        lemma_proxy_issue_kept(sites, hosts, k, n - 1);
        let m = choose|m: int| 0 <= m < prev.len() && #[trigger] prev[m] == x;
        assert(proxy_issues(sites, hosts, n)[m] == x);
    } else {
        assert(proxy_issues(sites, hosts, n)[prev.len() as int] == x);
    }
}

proof fn lemma_issue_if_error(c: bool, path: Seq<char>, message: Seq<char>)
    ensures
        all_of(issue_if(c, err(path, message)), is_error()),
{
}

proof fn lemma_unique_issues_errors(values: Seq<Seq<char>>, path: Seq<char>, message: Seq<char>)
    ensures
        all_of(unique_issues(values, path, message), is_error()),
    decreases values.len(),
{
    if values.len() > 0 {
        let rest = values.drop_last();
        lemma_unique_issues_errors(rest, path, message);
        lemma_all_of_concat(
            unique_issues(rest, path, message),
            issue_if(rest.contains(values.last()), err(path, message + ": `"@ + values.last() + "`"@)),
            is_error(),
        );
    }
}

/// One issue is reported for each repetition: the issues and the distinct
/// values together number the values.
pub proof fn repetitions_counted(values: Seq<Seq<char>>, path: Seq<char>, message: Seq<char>)
    ensures
        unique_issues(values, path, message).len() + values.to_set().len() == values.len(),
        all_of(unique_issues(values, path, message), is_error()),
    decreases values.len(),
{
    broadcast use vstd::seq_lib::seq_to_set_is_finite, vstd::set::axiom_set_insert_len;

    lemma_unique_issues_errors(values, path, message);
    if values.len() == 0 {
        assert(values.to_set() =~= Set::<Seq<char>>::empty());
    } else {
        let rest = values.drop_last();
        repetitions_counted(rest, path, message);
        assert(values == rest.push(values.last()));
        rest.lemma_push_to_set_commute(values.last());
        assert(rest.contains(values.last()) == rest.to_set().contains(values.last()));
    }
}

proof fn lemma_server_name_issues_errors(p: ReverseProxySite, seen: Seq<Seq<char>>, j: int)
    ensures
        all_of(server_name_issues(p, seen, j), is_error()),
    decreases j,
{
    if j > 0 {
        lemma_server_name_issues_errors(p, seen, j - 1);
        let names = strs(p.server_names@);
        lemma_all_of_concat(
            server_name_issues(p, seen, j - 1),
            issue_if(
                (seen + names.take(j - 1)).contains(names[j - 1]),
                err("reverse_proxies."@ + p.name@, "duplicate apache server name `"@ + names[j - 1] + "`"@),
            ),
            is_error(),
        );
    }
}

proof fn lemma_proxy_issues_errors(sites: Seq<ReverseProxySite>, hosts: Seq<Seq<char>>, k: int)
    ensures
        all_of(proxy_issues(sites, hosts, k), is_error()),
    decreases k,
{
    if k > 0 {
        lemma_proxy_issues_errors(sites, hosts, k - 1);
        let p = sites[k - 1];
        let a = issue_if(
            !hosts.contains(p.backend.host_ref@),
            err("reverse_proxies."@ + p.name@, "unknown backend host `"@ + p.backend.host_ref@ + "`"@),
        );
        let b = server_name_issues(
            p,
            sites.take(k - 1).flat_map(server_names_fn()),
            p.server_names@.len() as int,
        );
        lemma_server_name_issues_errors(
            p,
            sites.take(k - 1).flat_map(server_names_fn()),
            p.server_names@.len() as int,
        );
        lemma_all_of_concat(proxy_issues(sites, hosts, k - 1), a, is_error());
        lemma_all_of_concat(proxy_issues(sites, hosts, k - 1) + a, b, is_error());
    }
}

/// Every issue the site rules report is an error.
pub proof fn site_rule_issues_are_errors(site: SiteConfig)
    ensures
        all_of(site_rule_issues(site), is_error()),
{
    let nets = network_names(site);
    let hosts = host_names(site);
    let zones = zone_names(site);
    let groups = group_names(site);
    let e = is_error();
    lemma_unique_issues_errors(nets, "networks"@, "network names must be unique"@);
    lemma_unique_issues_errors(hosts, "hosts"@, "host names must be unique"@);
    assert forall|iface: InterfaceDef| #[trigger] all_of(interface_fn(nets)(iface), e) by {
        lemma_flat_map_all(iface.network_refs@, interface_ref_fn(iface, nets), e);
    }
    lemma_flat_map_all(site.interfaces@, interface_fn(nets), e);
    assert forall|h: HostDef| #[trigger] all_of(host_fn(nets)(h), e) by {
        lemma_flat_map_all(h.interfaces@, host_interface_fn(h, nets), e);
        lemma_all_of_concat(
            host_network_issues(h, nets),
            h.interfaces@.flat_map(host_interface_fn(h, nets)),
            e,
        );
    }
    lemma_flat_map_all(site.hosts@, host_fn(nets), e);
    assert forall|p: PolicyRule| #[trigger] all_of(policy_fn(zones)(p), e) by {
        lemma_all_of_concat(
            issue_if(
                !zones.contains(p.source_zone@),
                err("firewall.policies."@ + p.name@, "unknown source zone `"@ + p.source_zone@ + "`"@),
            ),
            issue_if(
                !zones.contains(p.destination_zone@),
                err(
                    "firewall.policies."@ + p.name@,
                    "unknown destination zone `"@ + p.destination_zone@ + "`"@,
                ),
            ),
            e,
        );
    }
    lemma_flat_map_all(site.firewall.policies@, policy_fn(zones), e);
    assert forall|x: SsidDef| #[trigger] all_of(ssid_fn(zones, groups)(x), e) by {
        lemma_flat_map_all(x.broadcast_groups@, ssid_group_fn(x, groups), e);
        lemma_all_of_concat(
            issue_if(
                !zones.contains(x.zone@),
                err("wifi.ssids."@ + x.name@, "unknown firewall zone `"@ + x.zone@ + "`"@),
            ),
            x.broadcast_groups@.flat_map(ssid_group_fn(x, groups)),
            e,
        );
    }
    lemma_flat_map_all(site.wifi.ssids@, ssid_fn(zones, groups), e);
    lemma_flat_map_all(site.wifi.access_points@, ap_fn(groups), e);
    assert forall|r: PortForwardRule| #[trigger] all_of(forward_fn(zones, hosts)(r), e) by {
        lemma_all_of_concat(
            issue_if(
                !zones.contains(r.source_zone@),
                err("port_forwards."@ + r.name@, "unknown source zone `"@ + r.source_zone@ + "`"@),
            ),
            issue_if(
                !hosts.contains(r.destination_host@),
                err(
                    "port_forwards."@ + r.name@,
                    "unknown destination host `"@ + r.destination_host@ + "`"@,
                ),
            ),
            e,
        );
    }
    lemma_flat_map_all(site.port_forwards.rules@, forward_fn(zones, hosts), e);
    lemma_proxy_issues_errors(site.reverse_proxies.sites@, hosts, site.reverse_proxies.sites@.len() as int);
    let p0 = name_issues(site);
    let p1 = unique_issues(nets, "networks"@, "network names must be unique"@);
    let p2 = unique_issues(hosts, "hosts"@, "host names must be unique"@);
    let p3 = site.interfaces@.flat_map(interface_fn(nets));
    let p4 = site.hosts@.flat_map(host_fn(nets));
    let p5 = site.firewall.policies@.flat_map(policy_fn(zones));
    let p6 = site.wifi.ssids@.flat_map(ssid_fn(zones, groups));
    let p7 = site.wifi.access_points@.flat_map(ap_fn(groups));
    let p8 = site.port_forwards.rules@.flat_map(forward_fn(zones, hosts));
    let p9 = proxy_issues(site.reverse_proxies.sites@, hosts, site.reverse_proxies.sites@.len() as int);
    assert(all_of(p0, e));
    lemma_all_of_concat(p0, p1, e);
    lemma_all_of_concat(p0 + p1, p2, e);
    lemma_all_of_concat(p0 + p1 + p2, p3, e);
    lemma_all_of_concat(p0 + p1 + p2 + p3, p4, e);
    lemma_all_of_concat(p0 + p1 + p2 + p3 + p4, p5, e);
    lemma_all_of_concat(p0 + p1 + p2 + p3 + p4 + p5, p6, e);
    lemma_all_of_concat(p0 + p1 + p2 + p3 + p4 + p5 + p6, p7, e);
    lemma_all_of_concat(p0 + p1 + p2 + p3 + p4 + p5 + p6 + p7, p8, e);
    lemma_all_of_concat(p0 + p1 + p2 + p3 + p4 + p5 + p6 + p7 + p8, p9, e);
}

/// No value repeats an earlier one, from position `lo` on.
pub open spec fn fresh_from(v: Seq<Seq<char>>, lo: int) -> bool {
    forall|m: int| lo <= m < v.len() ==> !#[trigger] v.take(m).contains(v[m])
}

proof fn lemma_fresh_no_duplicates(v: Seq<Seq<char>>)
    ensures
        fresh_from(v, 0) <==> v.no_duplicates(),
{
    if fresh_from(v, 0) {
        assert forall|i: int, j: int| 0 <= i < v.len() && 0 <= j < v.len() && i != j implies v[i]
            != v[j] by {
            let (a, b) = if i < j {
                (i, j)
            } else {
                (j, i)
            };
            assert(!v.take(b).contains(v[b]));
            assert(v.take(b)[a] == v[a]);
        }
    }
    if v.no_duplicates() {
        assert forall|m: int| 0 <= m < v.len() implies !#[trigger] v.take(m).contains(v[m]) by {
            if v.take(m).contains(v[m]) {
                let i = choose|i: int| 0 <= i < v.take(m).len() && v.take(m)[i] == v[m];
                assert(v[i] == v[m]);
            }
        }
    }
}

proof fn lemma_unique_issues_empty(values: Seq<Seq<char>>, path: Seq<char>, message: Seq<char>)
    ensures
        unique_issues(values, path, message).len() == 0 <==> values.no_duplicates(),
{
    repetitions_counted(values, path, message);
    if values.no_duplicates() {
        values.unique_seq_to_set();
    }
    if unique_issues(values, path, message).len() == 0 {
        values.lemma_no_dup_set_cardinality();
    }
}

proof fn lemma_server_name_issues_empty(p: ReverseProxySite, seen: Seq<Seq<char>>, j: int)
    requires
        0 <= j <= p.server_names@.len(),
    ensures
        server_name_issues(p, seen, j).len() == 0 <==> forall|i: int|
            0 <= i < j ==> !#[trigger] (seen + strs(p.server_names@).take(i)).contains(
                strs(p.server_names@)[i],
            ),
    decreases j,
{
    if j > 0 {
        lemma_server_name_issues_empty(p, seen, j - 1);
    }
}

proof fn lemma_flat_map_empty<A, B>(s: Seq<A>, f: spec_fn(A) -> Seq<B>)
    ensures
        s.flat_map(f).len() == 0 <==> forall|i: int| 0 <= i < s.len() ==> #[trigger] f(s[i]).len() == 0,
{
    if forall|i: int| 0 <= i < s.len() ==> #[trigger] f(s[i]).len() == 0 {
        lemma_flat_map_empty_images(s, f);
    } else {
        let i = choose|i: int| 0 <= i < s.len() && #[trigger] f(s[i]).len() != 0;
        assert(f(s[i]).contains(f(s[i])[0]));
        lemma_flat_map_contains(s, f, i, f(s[i])[0]);
    }
}

proof fn lemma_flat_map_empty_images<A, B>(s: Seq<A>, f: spec_fn(A) -> Seq<B>)
    requires
        forall|i: int| 0 <= i < s.len() ==> #[trigger] f(s[i]).len() == 0,
    ensures
        s.flat_map(f).len() == 0,
    decreases s.len(),
{
    if s.len() == 0 {
        lemma_flat_map_take_zero(s, f);
        assert(s.take(0) =~= s);
    } else {
        let t = s.drop_last();
        assert forall|i: int| 0 <= i < t.len() implies #[trigger] f(t[i]).len() == 0 by {
            assert(f(s[i]).len() == 0);
        }
        lemma_flat_map_empty_images(t, f);
        lemma_flat_map_take_succ(s, f, s.len() - 1);
        assert(s.take(s.len() - 1) =~= t);
        assert(s.take(s.len() as int) =~= s);
        assert(f(s[s.len() - 1]).len() == 0);
    }
}

proof fn lemma_fresh_concat(a: Seq<Seq<char>>, b: Seq<Seq<char>>)
    ensures
        fresh_from(a + b, 0) <==> fresh_from(a, 0) && forall|i: int|
            0 <= i < b.len() ==> !#[trigger] (a + b.take(i)).contains(b[i]),
{
    let v = a + b;
    assert forall|m: int| 0 <= m < a.len() implies v.take(m) =~= a.take(m) && v[m] == a[m] by {}
    assert forall|i: int| 0 <= i < b.len() implies #[trigger] v.take(a.len() + i) =~= a + b.take(i)
        && v[a.len() + i] == b[i] by {}
    if fresh_from(v, 0) {
        assert forall|m: int| 0 <= m < a.len() implies !#[trigger] a.take(m).contains(a[m]) by {
            assert(!v.take(m).contains(v[m]));
        }
        assert forall|i: int| 0 <= i < b.len() implies !#[trigger] (a + b.take(i)).contains(b[i]) by {
            assert(!v.take(a.len() + i).contains(v[a.len() + i]));
        }
    }
    if fresh_from(a, 0) && forall|i: int|
        0 <= i < b.len() ==> !#[trigger] (a + b.take(i)).contains(b[i]) {
        assert forall|m: int| 0 <= m < v.len() implies !#[trigger] v.take(m).contains(v[m]) by {
            if m < a.len() {
                assert(!a.take(m).contains(a[m]));
            } else {
                let i = m - a.len();
                assert(v.take(a.len() + i) =~= a + b.take(i));
                assert(!(a + b.take(i)).contains(b[i]));
            }
        }
    }
}

proof fn lemma_proxy_issues_empty(sites: Seq<ReverseProxySite>, hosts: Seq<Seq<char>>, k: int)
    requires
        0 <= k <= sites.len(),
    ensures
        proxy_issues(sites, hosts, k).len() == 0 <==> (forall|i: int|
            0 <= i < k ==> hosts.contains(#[trigger] sites[i].backend.host_ref@)) && fresh_from(
            sites.take(k).flat_map(server_names_fn()),
            0,
        ),
    decreases k,
{
    if k == 0 {
        lemma_flat_map_take_zero(sites, server_names_fn());
    } else {
        lemma_proxy_issues_empty(sites, hosts, k - 1);
        let p = sites[k - 1];
        let names = strs(p.server_names@);
        let f0 = sites.take(k - 1).flat_map(server_names_fn());
        lemma_flat_map_take_succ(sites, server_names_fn(), k - 1);
        assert(sites.take(k).flat_map(server_names_fn()) == f0 + names);
        lemma_server_name_issues_empty(p, f0, p.server_names@.len() as int);
        lemma_fresh_concat(f0, names);
        let a = issue_if(
            !hosts.contains(p.backend.host_ref@),
            err("reverse_proxies."@ + p.name@, "unknown backend host `"@ + p.backend.host_ref@ + "`"@),
        );
        let b = server_name_issues(p, f0, p.server_names@.len() as int);
        assert(proxy_issues(sites, hosts, k) == proxy_issues(sites, hosts, k - 1) + a + b);
        assert(names.len() == p.server_names@.len());
    }
}

/// Every network reference of every interface names a network.
pub open spec fn interfaces_resolve(site: SiteConfig) -> bool {
    forall|i: int, j: int|
        0 <= i < site.interfaces@.len() && 0 <= j < site.interfaces@[i].network_refs@.len()
            ==> network_names(site).contains(#[trigger] site.interfaces@[i].network_refs@[j]@)
}

/// A host's network, if it names one, is a network of the site.
pub open spec fn host_network_resolves(h: HostDef, nets: Seq<Seq<char>>) -> bool {
    match h.network {
        Some(n) => nets.contains(n@),
        None => true,
    }
}

/// A host interface's network, if it names one, is a network of the site.
pub open spec fn host_interface_resolves(i: HostInterfaceDef, nets: Seq<Seq<char>>) -> bool {
    match i.network {
        Some(n) => nets.contains(n@),
        None => true,
    }
}

/// Every host and host interface names only networks of the site.
pub open spec fn hosts_resolve(site: SiteConfig) -> bool {
    &&& forall|i: int|
        0 <= i < site.hosts@.len() ==> host_network_resolves(#[trigger] site.hosts@[i], network_names(site))
    &&& forall|i: int, j: int|
        0 <= i < site.hosts@.len() && 0 <= j < site.hosts@[i].interfaces@.len()
            ==> host_interface_resolves(#[trigger] site.hosts@[i].interfaces@[j], network_names(site))
}

/// Every policy names zones of the site.
pub open spec fn policies_resolve(site: SiteConfig) -> bool {
    forall|i: int|
        0 <= i < site.firewall.policies@.len() ==> zone_names(site).contains(
            (#[trigger] site.firewall.policies@[i]).source_zone@,
        ) && zone_names(site).contains(site.firewall.policies@[i].destination_zone@)
}

/// Every SSID names a zone and groups of the site.
pub open spec fn ssids_resolve(site: SiteConfig) -> bool {
    &&& forall|i: int|
        0 <= i < site.wifi.ssids@.len() ==> zone_names(site).contains((#[trigger] site.wifi.ssids@[i]).zone@)
    &&& forall|i: int, j: int|
        0 <= i < site.wifi.ssids@.len() && 0 <= j < site.wifi.ssids@[i].broadcast_groups@.len()
            ==> group_names(site).contains(#[trigger] site.wifi.ssids@[i].broadcast_groups@[j]@)
}

/// Every access point's group, if it names one, is a group of the site.
pub open spec fn access_points_resolve(site: SiteConfig) -> bool {
    forall|i: int|
        0 <= i < site.wifi.access_points@.len() ==> match (#[trigger] site.wifi.access_points@[i]).group {
            Some(g) => group_names(site).contains(g@),
            None => true,
        }
}

/// Every port forward names a zone and a host of the site.
pub open spec fn forwards_resolve(site: SiteConfig) -> bool {
    forall|i: int|
        0 <= i < site.port_forwards.rules@.len() ==> zone_names(site).contains(
            (#[trigger] site.port_forwards.rules@[i]).source_zone@,
        ) && host_names(site).contains(site.port_forwards.rules@[i].destination_host@)
}

/// Every proxied site's backend is a host of the site.
pub open spec fn proxies_resolve(site: SiteConfig) -> bool {
    forall|i: int|
        0 <= i < site.reverse_proxies.sites@.len() ==> host_names(site).contains(
            (#[trigger] site.reverse_proxies.sites@[i]).backend.host_ref@,
        )
}

/// The site is named, its networks and hosts have distinct names, every
/// reference resolves, and no server name is proxied twice.
pub open spec fn site_consistent(site: SiteConfig) -> bool {
    &&& !is_blank(site.metadata.name@)
    &&& network_names(site).no_duplicates()
    &&& host_names(site).no_duplicates()
    &&& interfaces_resolve(site)
    &&& hosts_resolve(site)
    &&& policies_resolve(site)
    &&& ssids_resolve(site)
    &&& access_points_resolve(site)
    &&& forwards_resolve(site)
    &&& proxies_resolve(site)
    &&& site.reverse_proxies.sites@.flat_map(server_names_fn()).no_duplicates()
}

proof fn lemma_interface_fn_empty(iface: InterfaceDef, nets: Seq<Seq<char>>)
    ensures
        interface_fn(nets)(iface).len() == 0 <==> forall|j: int|
            0 <= j < iface.network_refs@.len() ==> nets.contains(#[trigger] iface.network_refs@[j]@),
{
    let refs = iface.network_refs@;
    let g = interface_ref_fn(iface, nets);
    lemma_flat_map_empty(refs, g);
    assert(interface_fn(nets)(iface) == refs.flat_map(g));
    if refs.flat_map(g).len() == 0 {
        assert forall|j: int| 0 <= j < refs.len() implies nets.contains(#[trigger] refs[j]@) by {
            assert(g(refs[j]).len() == 0);
        }
    }
    if forall|j: int| 0 <= j < refs.len() ==> nets.contains(#[trigger] refs[j]@) {
        assert forall|j: int| 0 <= j < refs.len() implies #[trigger] g(refs[j]).len() == 0 by {
            assert(nets.contains(refs[j]@));
        }
    }
}

proof fn lemma_interfaces_section(site: SiteConfig)
    ensures
        site.interfaces@.flat_map(interface_fn(network_names(site))).len() == 0 <==> interfaces_resolve(site),
{
    let nets = network_names(site);
    let s = site.interfaces@;
    lemma_flat_map_empty(s, interface_fn(nets));
    if interfaces_resolve(site) {
        assert forall|i: int| 0 <= i < s.len() implies #[trigger] interface_fn(nets)(s[i]).len() == 0 by {
            lemma_interface_fn_empty(s[i], nets);
            assert forall|j: int| 0 <= j < s[i].network_refs@.len() implies nets.contains(
                #[trigger] s[i].network_refs@[j]@,
            ) by {
                assert(nets.contains(site.interfaces@[i].network_refs@[j]@));
            }
        }
    }
    if s.flat_map(interface_fn(nets)).len() == 0 {
        assert forall|i: int, j: int|
            0 <= i < s.len() && 0 <= j < s[i].network_refs@.len() implies nets.contains(
            #[trigger] s[i].network_refs@[j]@,
        ) by {
            lemma_interface_fn_empty(s[i], nets);
            assert(interface_fn(nets)(s[i]).len() == 0);
        }
    }
}

proof fn lemma_host_fn_empty(h: HostDef, nets: Seq<Seq<char>>)
    ensures
        host_fn(nets)(h).len() == 0 <==> host_network_resolves(h, nets) && forall|j: int|
            0 <= j < h.interfaces@.len() ==> host_interface_resolves(#[trigger] h.interfaces@[j], nets),
{
    let ifs = h.interfaces@;
    let g = host_interface_fn(h, nets);
    lemma_flat_map_empty(ifs, g);
    assert(host_fn(nets)(h) == host_network_issues(h, nets) + ifs.flat_map(g));
    if ifs.flat_map(g).len() == 0 {
        assert forall|j: int| 0 <= j < ifs.len() implies host_interface_resolves(#[trigger] ifs[j], nets) by {
            assert(g(ifs[j]).len() == 0);
        }
    }
    if forall|j: int| 0 <= j < ifs.len() ==> host_interface_resolves(#[trigger] ifs[j], nets) {
        assert forall|j: int| 0 <= j < ifs.len() implies #[trigger] g(ifs[j]).len() == 0 by {
            assert(host_interface_resolves(ifs[j], nets));
        }
    }
    assert(host_network_issues(h, nets).len() == 0 <==> host_network_resolves(h, nets));
}

proof fn lemma_hosts_section(site: SiteConfig)
    ensures
        site.hosts@.flat_map(host_fn(network_names(site))).len() == 0 <==> hosts_resolve(site),
{
    let nets = network_names(site);
    let s = site.hosts@;
    lemma_flat_map_empty(s, host_fn(nets));
    if hosts_resolve(site) {
        assert forall|i: int| 0 <= i < s.len() implies #[trigger] host_fn(nets)(s[i]).len() == 0 by {
            lemma_host_fn_empty(s[i], nets);
            assert(host_network_resolves(s[i], nets));
            assert forall|j: int| 0 <= j < s[i].interfaces@.len() implies host_interface_resolves(
                #[trigger] s[i].interfaces@[j],
                nets,
            ) by {
                assert(host_interface_resolves(site.hosts@[i].interfaces@[j], nets));
            }
        }
    }
    if s.flat_map(host_fn(nets)).len() == 0 {
        assert forall|i: int| 0 <= i < s.len() implies host_network_resolves(#[trigger] s[i], nets) by {
            lemma_host_fn_empty(s[i], nets);
            assert(host_fn(nets)(s[i]).len() == 0);
        }
        assert forall|i: int, j: int| 0 <= i < s.len() && 0 <= j < s[i].interfaces@.len()
            implies host_interface_resolves(#[trigger] s[i].interfaces@[j], nets) by {
            lemma_host_fn_empty(s[i], nets);
            assert(host_fn(nets)(s[i]).len() == 0);
        }
    }
}

proof fn lemma_ssid_fn_empty(x: SsidDef, zones: Seq<Seq<char>>, groups: Seq<Seq<char>>)
    ensures
        ssid_fn(zones, groups)(x).len() == 0 <==> zones.contains(x.zone@) && forall|j: int|
            0 <= j < x.broadcast_groups@.len() ==> groups.contains(#[trigger] x.broadcast_groups@[j]@),
{
    let gs = x.broadcast_groups@;
    let g = ssid_group_fn(x, groups);
    lemma_flat_map_empty(gs, g);
    assert(ssid_fn(zones, groups)(x) == issue_if(
        !zones.contains(x.zone@),
        err("wifi.ssids."@ + x.name@, "unknown firewall zone `"@ + x.zone@ + "`"@),
    ) + gs.flat_map(g));
    if gs.flat_map(g).len() == 0 {
        assert forall|j: int| 0 <= j < gs.len() implies groups.contains(#[trigger] gs[j]@) by {
            assert(g(gs[j]).len() == 0);
        }
    }
    if forall|j: int| 0 <= j < gs.len() ==> groups.contains(#[trigger] gs[j]@) {
        assert forall|j: int| 0 <= j < gs.len() implies #[trigger] g(gs[j]).len() == 0 by {
            assert(groups.contains(gs[j]@));
        }
    }
}

proof fn lemma_ssids_section(site: SiteConfig)
    ensures
        site.wifi.ssids@.flat_map(ssid_fn(zone_names(site), group_names(site))).len() == 0 <==> ssids_resolve(site),
{
    let zones = zone_names(site);
    let groups = group_names(site);
    let s = site.wifi.ssids@;
    lemma_flat_map_empty(s, ssid_fn(zones, groups));
    if ssids_resolve(site) {
        assert forall|i: int| 0 <= i < s.len() implies #[trigger] ssid_fn(zones, groups)(s[i]).len() == 0 by {
            lemma_ssid_fn_empty(s[i], zones, groups);
            assert(zones.contains(s[i].zone@));
            assert forall|j: int| 0 <= j < s[i].broadcast_groups@.len() implies groups.contains(
                #[trigger] s[i].broadcast_groups@[j]@,
            ) by {
                assert(groups.contains(site.wifi.ssids@[i].broadcast_groups@[j]@));
            }
        }
    }
    if s.flat_map(ssid_fn(zones, groups)).len() == 0 {
        assert forall|i: int| 0 <= i < s.len() implies zones.contains((#[trigger] s[i]).zone@) by {
            lemma_ssid_fn_empty(s[i], zones, groups);
            assert(ssid_fn(zones, groups)(s[i]).len() == 0);
        }
        assert forall|i: int, j: int| 0 <= i < s.len() && 0 <= j < s[i].broadcast_groups@.len()
            implies groups.contains(#[trigger] s[i].broadcast_groups@[j]@) by {
            lemma_ssid_fn_empty(s[i], zones, groups);
            assert(ssid_fn(zones, groups)(s[i]).len() == 0);
        }
    }
}


proof fn lemma_policies_section(site: SiteConfig)
    ensures
        site.firewall.policies@.flat_map(policy_fn(zone_names(site))).len() == 0 <==> policies_resolve(site),
{
    let zones = zone_names(site);
    let s = site.firewall.policies@;
    lemma_flat_map_empty(s, policy_fn(zones));
    if s.flat_map(policy_fn(zones)).len() == 0 {
        assert forall|i: int| 0 <= i < s.len() implies zones.contains((#[trigger] s[i]).source_zone@)
            && zones.contains(s[i].destination_zone@) by {
            assert(policy_fn(zones)(s[i]).len() == 0);
        }
    }
    if policies_resolve(site) {
        assert forall|i: int| 0 <= i < s.len() implies #[trigger] policy_fn(zones)(s[i]).len() == 0 by {
            assert(zones.contains(site.firewall.policies@[i].source_zone@));
        }
    }
}

proof fn lemma_access_points_section(site: SiteConfig)
    ensures
        site.wifi.access_points@.flat_map(ap_fn(group_names(site))).len() == 0 <==> access_points_resolve(site),
{
    let groups = group_names(site);
    let s = site.wifi.access_points@;
    lemma_flat_map_empty(s, ap_fn(groups));
    if s.flat_map(ap_fn(groups)).len() == 0 {
        assert forall|i: int| 0 <= i < s.len() implies match (#[trigger] s[i]).group {
            Some(g) => groups.contains(g@),
            None => true,
        } by {
            assert(ap_fn(groups)(s[i]).len() == 0);
        }
    }
    if access_points_resolve(site) {
        assert forall|i: int| 0 <= i < s.len() implies #[trigger] ap_fn(groups)(s[i]).len() == 0 by {
            assert(match site.wifi.access_points@[i].group {
                Some(g) => groups.contains(g@),
                None => true,
            });
        }
    }
}

proof fn lemma_forwards_section(site: SiteConfig)
    ensures
        site.port_forwards.rules@.flat_map(forward_fn(zone_names(site), host_names(site))).len() == 0
            <==> forwards_resolve(site),
{
    let zones = zone_names(site);
    let hosts = host_names(site);
    let s = site.port_forwards.rules@;
    lemma_flat_map_empty(s, forward_fn(zones, hosts));
    if s.flat_map(forward_fn(zones, hosts)).len() == 0 {
        assert forall|i: int| 0 <= i < s.len() implies zones.contains((#[trigger] s[i]).source_zone@)
            && hosts.contains(s[i].destination_host@) by {
            assert(forward_fn(zones, hosts)(s[i]).len() == 0);
        }
    }
    if forwards_resolve(site) {
        assert forall|i: int| 0 <= i < s.len() implies #[trigger] forward_fn(zones, hosts)(s[i]).len()
            == 0 by {
            assert(zones.contains(site.port_forwards.rules@[i].source_zone@));
        }
    }
}

/// The site rules report nothing exactly when the site is consistent: named,
/// with distinct network and host names, every reference resolved, and no
/// server name proxied twice.
pub proof fn site_rules_silent_iff_consistent(site: SiteConfig)
    ensures
        site_rule_issues(site).len() == 0 <==> site_consistent(site),
{
    let nets = network_names(site);
    let hosts = host_names(site);
    let zones = zone_names(site);
    let groups = group_names(site);
    let sites = site.reverse_proxies.sites@;
    lemma_unique_issues_empty(nets, "networks"@, "network names must be unique"@);
    lemma_unique_issues_empty(hosts, "hosts"@, "host names must be unique"@);
    lemma_interfaces_section(site);
    lemma_hosts_section(site);
    lemma_flat_map_empty(site.firewall.policies@, policy_fn(zones));
    lemma_ssids_section(site);
    lemma_flat_map_empty(site.wifi.access_points@, ap_fn(groups));
    lemma_flat_map_empty(site.port_forwards.rules@, forward_fn(zones, hosts));
    lemma_proxy_issues_empty(sites, hosts, sites.len() as int);
    assert(sites.take(sites.len() as int) =~= sites);
    lemma_fresh_no_duplicates(sites.flat_map(server_names_fn()));
    lemma_policies_section(site);
    lemma_access_points_section(site);
    lemma_forwards_section(site);
    assert(proxies_resolve(site) <==> forall|i: int|
        0 <= i < sites.len() ==> hosts.contains(#[trigger] sites[i].backend.host_ref@)) by {
        if proxies_resolve(site) {
            assert forall|i: int| 0 <= i < sites.len() implies hosts.contains(
                #[trigger] sites[i].backend.host_ref@,
            ) by {
                assert(host_names(site).contains(site.reverse_proxies.sites@[i].backend.host_ref@));
            }
        }
    }
    let p0 = name_issues(site);
    let p1 = unique_issues(nets, "networks"@, "network names must be unique"@);
    let p2 = unique_issues(hosts, "hosts"@, "host names must be unique"@);
    let p3 = site.interfaces@.flat_map(interface_fn(nets));
    let p4 = site.hosts@.flat_map(host_fn(nets));
    let p5 = site.firewall.policies@.flat_map(policy_fn(zones));
    let p6 = site.wifi.ssids@.flat_map(ssid_fn(zones, groups));
    let p7 = site.wifi.access_points@.flat_map(ap_fn(groups));
    let p8 = site.port_forwards.rules@.flat_map(forward_fn(zones, hosts));
    let p9 = proxy_issues(sites, hosts, sites.len() as int);
    assert(site_rule_issues(site) == p0 + p1 + p2 + p3 + p4 + p5 + p6 + p7 + p8 + p9);
    assert(site_rule_issues(site).len() == p0.len() + p1.len() + p2.len() + p3.len() + p4.len()
        + p5.len() + p6.len() + p7.len() + p8.len() + p9.len());
    assert(p0.len() == 0 <==> !is_blank(site.metadata.name@));
}

} // verus!
