use vstd::prelude::*;

use crate::domain::{RenderedArtifact, ReverseProxyProvider, ReverseProxySite, SiteConfig};
use crate::seqs::{lemma_flat_map_take_all, lemma_flat_map_take_succ, lemma_flat_map_take_zero};
use crate::text::{decimal, decimal_string, join, join_strings, strs, trim_end, trimmed_end};

use super::{
    artifact_of, artifact_views, host_address, make_artifact, no_artifacts, push_line,
    resolve_host_address, single_artifact, ArtifactView, Renderer,
};

verus! {

/// Renders the Traefik dynamic configuration.
pub struct TraefikRenderer;

/// The router of one proxied site.
pub open spec fn traefik_router_fn() -> spec_fn(ReverseProxySite) -> Seq<Seq<char>> {
    |p: ReverseProxySite|
        seq![
            "    "@ + p.name@ + ":"@,
            "      rule: \"Host(`"@ + join(strs(p.server_names@), "`,`"@) + "`)\""@,
            "      service: "@ + p.name@ + "-svc"@,
        ]
}

/// The service of one proxied site.
pub open spec fn traefik_service_fn(site: SiteConfig) -> spec_fn(ReverseProxySite) -> Seq<Seq<char>> {
    |p: ReverseProxySite|
        seq![
            "    "@ + p.name@ + "-svc:"@,
            "      loadBalancer:"@,
            "        servers:"@,
            "          - url: \"http://"@ + host_address(site, p.backend.host_ref@) + ":"@
                + decimal(p.backend.port as nat) + "\""@,
        ]
}

/// The Traefik dynamic configuration of a site.
pub open spec fn traefik_text(site: SiteConfig) -> Seq<char> {
    let sites = site.reverse_proxies.sites@;
    join(
        seq![trimmed_end(site.metadata.managed_prefix@ + " "@), "http:"@, "  routers:"@]
            + sites.flat_map(traefik_router_fn()) + seq!["  services:"@] + sites.flat_map(
            traefik_service_fn(site),
        ),
        "\n"@,
    )
}

/// What the Traefik renderer produces: nothing unless the site has proxied
/// sites and Traefik is its provider.
pub open spec fn traefik_artifacts(site: SiteConfig) -> Seq<ArtifactView> {
    if site.reverse_proxies.sites@.len() == 0 || site.reverse_proxies.provider
        != ReverseProxyProvider::Traefik {
        Seq::empty()
    } else {
        seq![
            artifact_of(
                "traefik"@,
                "reverse_proxy_main"@,
                "/etc/traefik/dynamic/lantricate.yml"@,
                traefik_text(site),
            ),
        ]
    }
}

fn traefik_router(proxy: &ReverseProxySite, lines: &mut Vec<String>)
    ensures
        strs(final(lines)@) == strs(old(lines)@) + traefik_router_fn()(*proxy),
{
    let ghost start = strs(lines@);
    let mut head = String::from_str("    ");
    head.append(proxy.name.as_str());
    head.append(":");
    push_line(lines, head);
    let mut rule = String::from_str("      rule: \"Host(`");
    rule.append(join_strings(&proxy.server_names, "`,`").as_str());
    rule.append("`)\"");
    push_line(lines, rule);
    let mut service = String::from_str("      service: ");
    service.append(proxy.name.as_str());
    service.append("-svc");
    push_line(lines, service);
    assert(strs(lines@) =~= start + traefik_router_fn()(*proxy));
}

fn traefik_service(site: &SiteConfig, proxy: &ReverseProxySite, lines: &mut Vec<String>)
    ensures
        strs(final(lines)@) == strs(old(lines)@) + traefik_service_fn(*site)(*proxy),
{
    let ghost start = strs(lines@);
    let backend_host = resolve_host_address(site, &proxy.backend.host_ref);
    let mut head = String::from_str("    ");
    head.append(proxy.name.as_str());
    head.append("-svc:");
    push_line(lines, head);
    push_line(lines, String::from_str("      loadBalancer:"));
    push_line(lines, String::from_str("        servers:"));
    let mut url = String::from_str("          - url: \"http://");
    url.append(backend_host.as_str());
    url.append(":");
    url.append(decimal_string(proxy.backend.port as u64).as_str());
    url.append("\"");
    push_line(lines, url);
    assert(strs(lines@) =~= start + traefik_service_fn(*site)(*proxy));
}

impl Renderer for TraefikRenderer {
    /// The renderer's name.
    fn name(&self) -> (r: &'static str)
        ensures
            r@ == "traefik"@,
    {
        "traefik"
    }

    /// One router and one service per proxied site, when Traefik is the provider.
    fn render(&self, site: &SiteConfig) -> (r: Vec<RenderedArtifact>)
        ensures
            artifact_views(r@) == traefik_artifacts(*site),
    {
        if site.reverse_proxies.sites.len() == 0 || site.reverse_proxies.provider
            != ReverseProxyProvider::Traefik {
            return no_artifacts();
        }
        let mut lines: Vec<String> = Vec::new();
        let mut prefix = site.metadata.managed_prefix.clone();
        prefix.append(" ");
        push_line(&mut lines, trim_end(prefix.as_str()));
        push_line(&mut lines, String::from_str("http:"));
        push_line(&mut lines, String::from_str("  routers:"));
        let ghost base = strs(lines@);
        let sites = &site.reverse_proxies.sites;
        let ghost f = traefik_router_fn();
        proof {
            lemma_flat_map_take_zero(sites@, f);
        }
        for i in 0..sites.len()
            invariant
                sites == &site.reverse_proxies.sites,
                site.reverse_proxies.sites@.len() > 0,
                site.reverse_proxies.provider == ReverseProxyProvider::Traefik,
                f == traefik_router_fn(),
                strs(lines@) == base + sites@.take(i as int).flat_map(f),
        {
            proof {
                lemma_flat_map_take_succ(sites@, f, i as int);
            }
            traefik_router(&sites[i], &mut lines);
        }
        proof {
            lemma_flat_map_take_all(sites@, f);
        }
        push_line(&mut lines, String::from_str("  services:"));
        assert(strs(lines@) =~= seq![
            trimmed_end(site.metadata.managed_prefix@ + " "@),
            "http:"@,
            "  routers:"@,
        ] + sites@.flat_map(f) + seq!["  services:"@]);
        let ghost base2 = strs(lines@);
        let ghost g = traefik_service_fn(*site);
        proof {
            lemma_flat_map_take_zero(sites@, g);
        }
        for i in 0..sites.len()
            invariant
                sites == &site.reverse_proxies.sites,
                site.reverse_proxies.sites@.len() > 0,
                site.reverse_proxies.provider == ReverseProxyProvider::Traefik,
                g == traefik_service_fn(*site),
                strs(lines@) == base2 + sites@.take(i as int).flat_map(g),
        {
            proof {
                lemma_flat_map_take_succ(sites@, g, i as int);
            }
            traefik_service(site, &sites[i], &mut lines);
        }
        proof {
            lemma_flat_map_take_all(sites@, g);
        }
        let contents = join_strings(&lines, "\n");
        single_artifact(
            make_artifact(
                self.name(),
                "reverse_proxy_main",
                "/etc/traefik/dynamic/lantricate.yml",
                contents,
            ),
        )
    }
}

} // verus!
