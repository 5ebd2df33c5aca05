use vstd::prelude::*;

use crate::domain::{DhcpPool, DnsRecord, RenderedArtifact, ReservationDef, SiteConfig};
use crate::text::{has_line, join, join_strings, lemma_joined_line, strs};

use super::{artifact_of, artifact_views, make_artifact, push_line, single_artifact, ArtifactView, Renderer};

verus! {

/// Renders the dnsmasq configuration.
pub struct DnsmasqRenderer;

/// The DNS lines: the domain, the upstream servers and the static records.
pub open spec fn dns_lines(site: SiteConfig) -> Seq<Seq<char>> {
    match site.dns {
        Some(d) => seq!["domain="@ + d.domain@] + d.upstream_servers@.map_values(
            |u: String| "server="@ + u@,
        ) + d.static_records@.map_values(
            |r: DnsRecord| "address=/"@ + r.name@ + "/"@ + r.address@,
        ),
        None => Seq::empty(),
    }
}

/// The DHCP lines: one range per pool, one host per reservation.
pub open spec fn dhcp_lines(site: SiteConfig) -> Seq<Seq<char>> {
    match site.dhcp {
        Some(d) => d.pools@.map_values(
            |p: DhcpPool|
                "dhcp-range=set:"@ + p.network@ + ", "@ + p.start@ + ", "@ + p.end@ + ", "@
                    + p.lease_time@,
        ) + d.reservations@.map_values(
            |r: ReservationDef| "dhcp-host="@ + r.mac@ + ", "@ + r.hostname@ + ", "@ + r.ip@,
        ),
        None => Seq::empty(),
    }
}

/// The dnsmasq configuration of a site.
pub open spec fn dnsmasq_text(site: SiteConfig) -> Seq<char> {
    join(seq![site.metadata.managed_prefix@] + dns_lines(site) + dhcp_lines(site), "\n"@) + "\n"@
}

fn dns_section(site: &SiteConfig, lines: &mut Vec<String>)
    ensures
        strs(final(lines)@) == strs(old(lines)@) + dns_lines(*site),
{
    let ghost start = strs(lines@);
    match &site.dns {
        Some(dns) => {
            let mut first = String::from_str("domain=");
            first.append(dns.domain.as_str());
            push_line(lines, first);
            let ghost base = strs(lines@);
            let ghost f = |u: String| "server="@ + u@;
            for i in 0..dns.upstream_servers.len()
                invariant
                    f == (|u: String| "server="@ + u@),
                    strs(lines@) == base + dns.upstream_servers@.take(i as int).map_values(f),
            {
                let mut line = String::from_str("server=");
                line.append(dns.upstream_servers[i].as_str());
                push_line(lines, line);
                assert(dns.upstream_servers@.take(i + 1).map_values(f) =~= dns.upstream_servers@.take(
                    i as int,
                ).map_values(f).push(f(dns.upstream_servers@[i as int])));
            }
            assert(dns.upstream_servers@.take(dns.upstream_servers@.len() as int) =~= dns.upstream_servers@);
            let ghost base2 = strs(lines@);
            let ghost g = |r: DnsRecord| "address=/"@ + r.name@ + "/"@ + r.address@;
            for i in 0..dns.static_records.len()
                invariant
                    g == (|r: DnsRecord| "address=/"@ + r.name@ + "/"@ + r.address@),
                    strs(lines@) == base2 + dns.static_records@.take(i as int).map_values(g),
            {
                let record = &dns.static_records[i];
                let mut line = String::from_str("address=/");
                line.append(record.name.as_str());
                line.append("/");
                line.append(record.address.as_str());
                push_line(lines, line);
                assert(dns.static_records@.take(i + 1).map_values(g) =~= dns.static_records@.take(
                    i as int,
                ).map_values(g).push(g(dns.static_records@[i as int])));
            }
            assert(dns.static_records@.take(dns.static_records@.len() as int) =~= dns.static_records@);
            assert(strs(lines@) =~= start + dns_lines(*site));
        },
        None => {
            assert(strs(lines@) =~= start + dns_lines(*site));
        },
    }
}

fn dhcp_section(site: &SiteConfig, lines: &mut Vec<String>)
    ensures
        strs(final(lines)@) == strs(old(lines)@) + dhcp_lines(*site),
{
    let ghost start = strs(lines@);
    match &site.dhcp {
        Some(dhcp) => {
            let ghost f = |p: DhcpPool|
                "dhcp-range=set:"@ + p.network@ + ", "@ + p.start@ + ", "@ + p.end@ + ", "@
                    + p.lease_time@;
            for i in 0..dhcp.pools.len()
                invariant
                    f == (|p: DhcpPool|
                        "dhcp-range=set:"@ + p.network@ + ", "@ + p.start@ + ", "@ + p.end@
                            + ", "@ + p.lease_time@),
                    strs(lines@) == start + dhcp.pools@.take(i as int).map_values(f),
            {
                let pool = &dhcp.pools[i];
                let mut line = String::from_str("dhcp-range=set:");
                line.append(pool.network.as_str());
                line.append(", ");
                line.append(pool.start.as_str());
                line.append(", ");
                line.append(pool.end.as_str());
                line.append(", ");
                line.append(pool.lease_time.as_str());
                push_line(lines, line);
                assert(dhcp.pools@.take(i + 1).map_values(f) =~= dhcp.pools@.take(i as int).map_values(
                    f,
                ).push(f(dhcp.pools@[i as int])));
            }
            assert(dhcp.pools@.take(dhcp.pools@.len() as int) =~= dhcp.pools@);
            let ghost base = strs(lines@);
            let ghost g = |r: ReservationDef|
                "dhcp-host="@ + r.mac@ + ", "@ + r.hostname@ + ", "@ + r.ip@;
            for i in 0..dhcp.reservations.len()
                invariant
                    g == (|r: ReservationDef|
                        "dhcp-host="@ + r.mac@ + ", "@ + r.hostname@ + ", "@ + r.ip@),
                    strs(lines@) == base + dhcp.reservations@.take(i as int).map_values(g),
            {
                let reservation = &dhcp.reservations[i];
                let mut line = String::from_str("dhcp-host=");
                line.append(reservation.mac.as_str());
                line.append(", ");
                line.append(reservation.hostname.as_str());
                line.append(", ");
                line.append(reservation.ip.as_str());
                push_line(lines, line);
                assert(dhcp.reservations@.take(i + 1).map_values(g) =~= dhcp.reservations@.take(
                    i as int,
                ).map_values(g).push(g(dhcp.reservations@[i as int])));
            }
            assert(dhcp.reservations@.take(dhcp.reservations@.len() as int) =~= dhcp.reservations@);
            assert(strs(lines@) =~= start + dhcp_lines(*site));
        },
        None => {
            assert(strs(lines@) =~= start + dhcp_lines(*site));
        },
    }
}

impl Renderer for DnsmasqRenderer {
    /// The renderer's name.
    fn name(&self) -> (r: &'static str)
        ensures
            r@ == "dnsmasq"@,
    {
        "dnsmasq"
    }

    /// The dnsmasq configuration: domain, upstream servers, static records,
    /// DHCP ranges and reservations.
    fn render(&self, site: &SiteConfig) -> (r: Vec<RenderedArtifact>)
        ensures
            artifact_views(r@) == seq![
                artifact_of(
                    "dnsmasq"@,
                    "dnsmasq_main"@,
                    "/etc/dnsmasq.d/lanuminous.conf"@,
                    dnsmasq_text(*site),
                ),
            ],
    {
        let mut lines: Vec<String> = Vec::new();
        push_line(&mut lines, site.metadata.managed_prefix.clone());
        dns_section(site, &mut lines);
        dhcp_section(site, &mut lines);
        let mut contents = join_strings(&lines, "\n");
        contents.append("\n");
        assert(seq![site.metadata.managed_prefix@] + dns_lines(*site) + dhcp_lines(*site)
            =~= strs(lines@));
        single_artifact(
            make_artifact(self.name(), "dnsmasq_main", "/etc/dnsmasq.d/lanuminous.conf", contents),
        )
    }
}

/// Every DHCP reservation is rendered as a whole `dhcp-host` line that
/// carries its MAC address, its hostname and its reserved IP address.
pub proof fn reservations_rendered(site: SiteConfig, k: int)
    requires
        site.dhcp is Some,
        0 <= k < site.dhcp->0.reservations@.len(),
    ensures
        has_line(
            dnsmasq_text(site),
            "dhcp-host="@ + site.dhcp->0.reservations@[k].mac@ + ", "@
                + site.dhcp->0.reservations@[k].hostname@ + ", "@
                + site.dhcp->0.reservations@[k].ip@,
        ),
{
    let d = site.dhcp->0;
    let parts = seq![site.metadata.managed_prefix@] + dns_lines(site) + dhcp_lines(site);
    let i: int = 1 + dns_lines(site).len() + d.pools@.len() + k;
    assert(parts[i] == "dhcp-host="@ + d.reservations@[k].mac@ + ", "@ + d.reservations@[k].hostname@
        + ", "@ + d.reservations@[k].ip@);
    lemma_joined_line(parts, i, "\n"@);
}

} // verus!
