use vstd::prelude::*;

use crate::domain::{RenderedArtifact, ReverseProxyProvider, ReverseProxySite, SiteConfig};
use crate::seqs::{lemma_flat_map_take_all, lemma_flat_map_take_succ, lemma_flat_map_take_zero};
use crate::text::{decimal, decimal_string, join, join_strings, strs};

use super::{
    artifact_of, artifact_views, host_address, make_artifact, no_artifacts, push_line,
    resolve_host_address, scheme_str, scheme_word, single_artifact, tls_comment, tls_comment_str,
    ArtifactView, Renderer,
};

verus! {

/// Renders the nginx reverse-proxy server blocks.
pub struct NginxRenderer;

/// The server block of one proxied site.
pub open spec fn nginx_block_fn(site: SiteConfig) -> spec_fn(ReverseProxySite) -> Seq<Seq<char>> {
    |p: ReverseProxySite|
        seq![
            "server {"@,
            "    listen "@ + decimal(p.listen_port as nat) + ";"@,
            "    server_name "@ + join(strs(p.server_names@), " "@) + ";"@,
            "    "@ + tls_comment(p.tls_mode),
            "    location / {"@,
            "        proxy_pass "@ + scheme_word(p.backend.scheme) + "://"@ + host_address(
                site,
                p.backend.host_ref@,
            ) + ":"@ + decimal(p.backend.port as nat) + ";"@,
            "        proxy_set_header Host $host;"@,
            "        proxy_set_header X-Forwarded-For $proxy_add_x_forwarded_for;"@,
            "        proxy_set_header X-Forwarded-Proto $scheme;"@,
            "    }"@,
            "}"@,
            Seq::<char>::empty(),
        ]
}

/// The nginx reverse-proxy configuration of a site.
pub open spec fn nginx_text(site: SiteConfig) -> Seq<char> {
    join(
        seq![site.metadata.managed_prefix@, Seq::<char>::empty()]
            + site.reverse_proxies.sites@.flat_map(nginx_block_fn(site)),
        "\n"@,
    )
}

/// What the nginx renderer produces: nothing unless the site has proxied
/// sites and nginx is its provider.
pub open spec fn nginx_artifacts(site: SiteConfig) -> Seq<ArtifactView> {
    if site.reverse_proxies.sites@.len() == 0 || site.reverse_proxies.provider
        != ReverseProxyProvider::Nginx {
        Seq::empty()
    } else {
        seq![
            artifact_of(
                "nginx"@,
                "reverse_proxy_main"@,
                "/etc/nginx/conf.d/lanuminous-proxies.conf"@,
                nginx_text(site),
            ),
        ]
    }
}

fn nginx_block(site: &SiteConfig, proxy: &ReverseProxySite, lines: &mut Vec<String>)
    ensures
        strs(final(lines)@) == strs(old(lines)@) + nginx_block_fn(*site)(*proxy),
{
    let ghost start = strs(lines@);
    let backend_host = resolve_host_address(site, &proxy.backend.host_ref);
    push_line(lines, String::from_str("server {"));
    let mut listen = String::from_str("    listen ");
    listen.append(decimal_string(proxy.listen_port as u64).as_str());
    listen.append(";");
    push_line(lines, listen);
    let mut names = String::from_str("    server_name ");
    names.append(join_strings(&proxy.server_names, " ").as_str());
    names.append(";");
    push_line(lines, names);
    let mut tls = String::from_str("    ");
    tls.append(tls_comment_str(proxy.tls_mode));
    push_line(lines, tls);
    push_line(lines, String::from_str("    location / {"));
    let mut pass = String::from_str("        proxy_pass ");
    pass.append(scheme_str(proxy.backend.scheme));
    pass.append("://");
    pass.append(backend_host.as_str());
    pass.append(":");
    pass.append(decimal_string(proxy.backend.port as u64).as_str());
    pass.append(";");
    push_line(lines, pass);
    push_line(lines, String::from_str("        proxy_set_header Host $host;"));
    push_line(
        lines,
        String::from_str("        proxy_set_header X-Forwarded-For $proxy_add_x_forwarded_for;"),
    );
    push_line(lines, String::from_str("        proxy_set_header X-Forwarded-Proto $scheme;"));
    push_line(lines, String::from_str("    }"));
    push_line(lines, String::from_str("}"));
    push_line(lines, String::new());
    assert(strs(lines@) =~= start + nginx_block_fn(*site)(*proxy));
}

impl Renderer for NginxRenderer {
    /// The renderer's name.
    fn name(&self) -> (r: &'static str)
        ensures
            r@ == "nginx"@,
    {
        "nginx"
    }

    /// One server block per proxied site, when nginx is the provider.
    fn render(&self, site: &SiteConfig) -> (r: Vec<RenderedArtifact>)
        ensures
            artifact_views(r@) == nginx_artifacts(*site),
    {
        if site.reverse_proxies.sites.len() == 0 || site.reverse_proxies.provider
            != ReverseProxyProvider::Nginx {
            return no_artifacts();
        }
        let mut lines: Vec<String> = Vec::new();
        push_line(&mut lines, site.metadata.managed_prefix.clone());
        push_line(&mut lines, String::new());
        let ghost base = strs(lines@);
        let sites = &site.reverse_proxies.sites;
        let ghost f = nginx_block_fn(*site);
        proof {
            lemma_flat_map_take_zero(sites@, f);
        }
        for i in 0..sites.len()
            invariant
                sites == &site.reverse_proxies.sites,
                site.reverse_proxies.sites@.len() > 0,
                site.reverse_proxies.provider == ReverseProxyProvider::Nginx,
                f == nginx_block_fn(*site),
                strs(lines@) == base + sites@.take(i as int).flat_map(f),
        {
            proof {
                lemma_flat_map_take_succ(sites@, f, i as int);
            }
            nginx_block(site, &sites[i], &mut lines);
        }
        proof {
            lemma_flat_map_take_all(sites@, f);
        }
        assert(base =~= seq![site.metadata.managed_prefix@, Seq::<char>::empty()]);
        let contents = join_strings(&lines, "\n");
        single_artifact(
            make_artifact(
                self.name(),
                "reverse_proxy_main",
                "/etc/nginx/conf.d/lanuminous-proxies.conf",
                contents,
            ),
        )
    }
}

} // verus!
