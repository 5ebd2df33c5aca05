use vstd::prelude::*;

use crate::domain::{RenderedArtifact, ReverseProxyProvider, ReverseProxySite, SiteConfig};
use crate::seqs::{lemma_flat_map_index, lemma_flat_map_take_all, lemma_flat_map_take_succ, lemma_flat_map_take_zero};
use crate::text::{contains_seq, decimal, decimal_string, join, join_strings, lemma_joined_pair, strs};

use super::{
    artifact_of, artifact_views, host_address, make_artifact, no_artifacts, push_line,
    resolve_host_address, single_artifact, ArtifactView, Renderer,
};

verus! {

/// Renders the HAProxy frontends and backends.
pub struct HaproxyRenderer;

/// The frontend and backend of one proxied site.
pub open spec fn haproxy_block_fn(site: SiteConfig) -> spec_fn(ReverseProxySite) -> Seq<Seq<char>> {
    |p: ReverseProxySite|
        seq![
            "frontend "@ + p.name@ + "_front"@,
            "    bind *:"@ + decimal(p.listen_port as nat),
            "    default_backend "@ + p.name@ + "_back"@,
            Seq::<char>::empty(),
            "backend "@ + p.name@ + "_back"@,
            "    server "@ + p.backend.host_ref@ + " "@ + host_address(site, p.backend.host_ref@)
                + ":"@ + decimal(p.backend.port as nat) + " check"@,
            Seq::<char>::empty(),
        ]
}

/// The HAProxy configuration of a site.
pub open spec fn haproxy_text(site: SiteConfig) -> Seq<char> {
    join(
        seq![site.metadata.managed_prefix@, Seq::<char>::empty()]
            + site.reverse_proxies.sites@.flat_map(haproxy_block_fn(site)),
        "\n"@,
    )
}

/// What the HAProxy renderer produces: nothing unless the site has proxied
/// sites and HAProxy is its provider.
pub open spec fn haproxy_artifacts(site: SiteConfig) -> Seq<ArtifactView> {
    if site.reverse_proxies.sites@.len() == 0 || site.reverse_proxies.provider
        != ReverseProxyProvider::Haproxy {
        Seq::empty()
    } else {
        seq![
            artifact_of(
                "haproxy"@,
                "reverse_proxy_main"@,
                "/etc/haproxy/lanuminous.cfg"@,
                haproxy_text(site),
            ),
        ]
    }
}

fn haproxy_block(site: &SiteConfig, proxy: &ReverseProxySite, lines: &mut Vec<String>)
    ensures
        strs(final(lines)@) == strs(old(lines)@) + haproxy_block_fn(*site)(*proxy),
{
    let ghost start = strs(lines@);
    let backend_host = resolve_host_address(site, &proxy.backend.host_ref);
    let mut front = String::from_str("frontend ");
    front.append(proxy.name.as_str());
    front.append("_front");
    push_line(lines, front);
    let mut bind = String::from_str("    bind *:");
    bind.append(decimal_string(proxy.listen_port as u64).as_str());
    push_line(lines, bind);
    let mut default_backend = String::from_str("    default_backend ");
    default_backend.append(proxy.name.as_str());
    default_backend.append("_back");
    push_line(lines, default_backend);
    push_line(lines, String::new());
    let mut back = String::from_str("backend ");
    back.append(proxy.name.as_str());
    back.append("_back");
    push_line(lines, back);
    let mut server = String::from_str("    server ");
    server.append(proxy.backend.host_ref.as_str());
    server.append(" ");
    server.append(backend_host.as_str());
    server.append(":");
    server.append(decimal_string(proxy.backend.port as u64).as_str());
    server.append(" check");
    push_line(lines, server);
    push_line(lines, String::new());
    assert(strs(lines@) =~= start + haproxy_block_fn(*site)(*proxy));
}

impl Renderer for HaproxyRenderer {
    /// The renderer's name.
    fn name(&self) -> (r: &'static str)
        ensures
            r@ == "haproxy"@,
    {
        "haproxy"
    }

    /// One frontend and backend per proxied site, when HAProxy is the provider.
    fn render(&self, site: &SiteConfig) -> (r: Vec<RenderedArtifact>)
        ensures
            artifact_views(r@) == haproxy_artifacts(*site),
    {
        if site.reverse_proxies.sites.len() == 0 || site.reverse_proxies.provider
            != ReverseProxyProvider::Haproxy {
            return no_artifacts();
        }
        let mut lines: Vec<String> = Vec::new();
        push_line(&mut lines, site.metadata.managed_prefix.clone());
        push_line(&mut lines, String::new());
        let ghost base = strs(lines@);
        let sites = &site.reverse_proxies.sites;
        let ghost f = haproxy_block_fn(*site);
        proof {
            lemma_flat_map_take_zero(sites@, f);
        }
        for i in 0..sites.len()
            invariant
                sites == &site.reverse_proxies.sites,
                site.reverse_proxies.sites@.len() > 0,
                site.reverse_proxies.provider == ReverseProxyProvider::Haproxy,
                f == haproxy_block_fn(*site),
                strs(lines@) == base + sites@.take(i as int).flat_map(f),
        {
            proof {
                lemma_flat_map_take_succ(sites@, f, i as int);
            }
            haproxy_block(site, &sites[i], &mut lines);
        }
        proof {
            lemma_flat_map_take_all(sites@, f);
        }
        assert(base =~= seq![site.metadata.managed_prefix@, Seq::<char>::empty()]);
        let contents = join_strings(&lines, "\n");
        single_artifact(
            make_artifact(self.name(), "reverse_proxy_main", "/etc/haproxy/lanuminous.cfg", contents),
        )
    }
}

/// Every proxied site's backend section names its backend host and points
/// the server at the host's resolved address (its management address when the
/// site has such a host, else the reference itself) and at the backend's own
/// port.
pub proof fn backend_servers_rendered(site: SiteConfig, k: int)
    requires
        0 <= k < site.reverse_proxies.sites@.len(),
    ensures
        contains_seq(
            haproxy_text(site),
            "\n"@ + "backend "@ + site.reverse_proxies.sites@[k].name@ + "_back"@ + "\n"@
                + "    server "@ + site.reverse_proxies.sites@[k].backend.host_ref@ + " "@
                + host_address(site, site.reverse_proxies.sites@[k].backend.host_ref@) + ":"@
                + decimal(site.reverse_proxies.sites@[k].backend.port as nat) + " check"@ + "\n"@,
        ),
{
    let sites = site.reverse_proxies.sites@;
    let f = haproxy_block_fn(site);
    let blocks = sites.flat_map(f);
    let parts = seq![site.metadata.managed_prefix@, Seq::<char>::empty()] + blocks;
    lemma_flat_map_index(sites, f, k, 4);
    lemma_flat_map_index(sites, f, k, 5);
    lemma_flat_map_index(sites, f, k, 6);
    let off = sites.take(k).flat_map(f).len() as int;
    let i: int = 2 + off + 4;
    assert(parts[i] == blocks[off + 4]);
    assert(parts[i + 1] == blocks[off + 5]);
    lemma_joined_pair(parts, i, Seq::<char>::empty());
    assert(join(parts, "\n"@) + Seq::<char>::empty() =~= haproxy_text(site));
    let p = sites[k];
    assert("\n"@ + parts[i] + "\n"@ + parts[i + 1] + "\n"@ =~= "\n"@ + "backend "@ + p.name@ + "_back"@
        + "\n"@ + "    server "@ + p.backend.host_ref@ + " "@ + host_address(site, p.backend.host_ref@)
        + ":"@ + decimal(p.backend.port as nat) + " check"@ + "\n"@);
}

} // verus!
