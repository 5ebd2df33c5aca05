use vstd::prelude::*;

use crate::domain::{RenderedArtifact, ReverseProxyProvider, ReverseProxySite, SiteConfig};
use crate::seqs::{lemma_flat_map_take_all, lemma_flat_map_take_succ, lemma_flat_map_take_zero};
use crate::text::{decimal, decimal_string, join, join_strings, strs};

use super::{
    artifact_of, artifact_views, host_address, make_artifact, no_artifacts, push_line,
    resolve_host_address, scheme_str, scheme_word, single_artifact, tls_comment, tls_comment_str,
    ArtifactView, Renderer,
};

verus! {

/// Renders the Apache reverse-proxy virtual hosts.
pub struct Apache2Renderer;

/// Every proxied site names at least one server when Apache is to render them.
pub open spec fn apache2_renderable(site: SiteConfig) -> bool {
    site.reverse_proxies.provider == ReverseProxyProvider::Apache2 ==> forall|i: int|
        0 <= i < site.reverse_proxies.sites@.len() ==> (#[trigger] site.reverse_proxies.sites@[i]).server_names@.len() > 0
}

/// The virtual host of one proxied site.
pub open spec fn apache2_block_fn(site: SiteConfig) -> spec_fn(ReverseProxySite) -> Seq<Seq<char>> {
    |p: ReverseProxySite| {
        let backend = scheme_word(p.backend.scheme) + "://"@ + host_address(site, p.backend.host_ref@)
            + ":"@ + decimal(p.backend.port as nat) + "/"@;
        seq![
            "<VirtualHost *:"@ + decimal(p.listen_port as nat) + ">"@,
            "  ServerName "@ + p.server_names@[0]@,
        ] + strs(p.server_names@).skip(1).map_values(|a: Seq<char>| "  ServerAlias "@ + a) + seq![
            "  "@ + tls_comment(p.tls_mode),
            "  ProxyPass / "@ + backend,
            "  ProxyPassReverse / "@ + backend,
            "</VirtualHost>"@,
            Seq::<char>::empty(),
        ]
    }
}

/// The Apache reverse-proxy configuration of a site.
pub open spec fn apache2_text(site: SiteConfig) -> Seq<char> {
    join(
        seq![
            site.metadata.managed_prefix@,
            "ProxyPreserveHost On"@,
            "ProxyRequests Off"@,
            Seq::<char>::empty(),
        ] + site.reverse_proxies.sites@.flat_map(apache2_block_fn(site)),
        "\n"@,
    )
}

/// What the Apache renderer produces: nothing unless the site has proxied
/// sites and Apache is its provider.
pub open spec fn apache2_artifacts(site: SiteConfig) -> Seq<ArtifactView> {
    if site.reverse_proxies.sites@.len() == 0 || site.reverse_proxies.provider
        != ReverseProxyProvider::Apache2 {
        Seq::empty()
    } else {
        seq![
            artifact_of(
                "apache2"@,
                "reverse_proxy_main"@,
                "/etc/apache2/sites-available/lantricate-proxies.conf"@,
                apache2_text(site),
            ),
        ]
    }
}

fn apache2_block(site: &SiteConfig, proxy: &ReverseProxySite, lines: &mut Vec<String>)
    requires
        proxy.server_names@.len() > 0,
    ensures
        strs(final(lines)@) == strs(old(lines)@) + apache2_block_fn(*site)(*proxy),
{
    let ghost start = strs(lines@);
    let backend_host = resolve_host_address(site, &proxy.backend.host_ref);
    let mut backend = String::from_str(scheme_str(proxy.backend.scheme));
    backend.append("://");
    backend.append(backend_host.as_str());
    backend.append(":");
    backend.append(decimal_string(proxy.backend.port as u64).as_str());
    backend.append("/");
    let mut open = String::from_str("<VirtualHost *:");
    open.append(decimal_string(proxy.listen_port as u64).as_str());
    open.append(">");
    push_line(lines, open);
    let mut server = String::from_str("  ServerName ");
    server.append(proxy.server_names[0].as_str());
    push_line(lines, server);
    let ghost base = strs(lines@);
    let ghost names = strs(proxy.server_names@);
    let ghost f = |a: Seq<char>| "  ServerAlias "@ + a;
    let mut j: usize = 1;
    while j < proxy.server_names.len()
        invariant
            names == strs(proxy.server_names@),
            f == (|a: Seq<char>| "  ServerAlias "@ + a),
            1 <= j <= names.len(),
            strs(lines@) == base + names.subrange(1, j as int).map_values(f),
        decreases names.len() - j,
    {
        let mut alias = String::from_str("  ServerAlias ");
        alias.append(proxy.server_names[j].as_str());
        push_line(lines, alias);
        assert(names.subrange(1, j + 1).map_values(f) =~= names.subrange(1, j as int).map_values(
            f,
        ).push(f(names[j as int])));
        j = j + 1;
    }
    assert(names.subrange(1, names.len() as int) =~= names.skip(1));
    let mut tls = String::from_str("  ");
    tls.append(tls_comment_str(proxy.tls_mode));
    push_line(lines, tls);
    push_line(lines, concat_str("  ProxyPass / ", &backend));
    push_line(lines, concat_str("  ProxyPassReverse / ", &backend));
    push_line(lines, String::from_str("</VirtualHost>"));
    push_line(lines, String::new());
    assert(strs(lines@) =~= start + apache2_block_fn(*site)(*proxy));
}

fn concat_str(a: &str, b: &String) -> (r: String)
    ensures
        r@ == a@ + b@,
{
    let mut r = String::from_str(a);
    r.append(b.as_str());
    r
}

impl Apache2Renderer {
    /// The renderer's name.
    pub fn name(&self) -> (r: &'static str)
        ensures
            r@ == "apache2"@,
    {
        "apache2"
    }

    /// One virtual host per proxied site, when Apache is the provider.
    pub fn render(&self, site: &SiteConfig) -> (r: Vec<RenderedArtifact>)
        requires
            apache2_renderable(*site),
        ensures
            artifact_views(r@) == apache2_artifacts(*site),
    {
        if site.reverse_proxies.sites.len() == 0 || site.reverse_proxies.provider
            != ReverseProxyProvider::Apache2 {
            return no_artifacts();
        }
        let mut lines: Vec<String> = Vec::new();
        push_line(&mut lines, site.metadata.managed_prefix.clone());
        push_line(&mut lines, String::from_str("ProxyPreserveHost On"));
        push_line(&mut lines, String::from_str("ProxyRequests Off"));
        push_line(&mut lines, String::new());
        let ghost base = strs(lines@);
        let sites = &site.reverse_proxies.sites;
        let ghost f = apache2_block_fn(*site);
        proof {
            lemma_flat_map_take_zero(sites@, f);
        }
        for i in 0..sites.len()
            invariant
                sites == &site.reverse_proxies.sites,
                site.reverse_proxies.sites@.len() > 0,
                site.reverse_proxies.provider == ReverseProxyProvider::Apache2,
                apache2_renderable(*site),
                site.reverse_proxies.provider == ReverseProxyProvider::Apache2,
                f == apache2_block_fn(*site),
                strs(lines@) == base + sites@.take(i as int).flat_map(f),
        {
            proof {
                lemma_flat_map_take_succ(sites@, f, i as int);
            }
            assert(sites@[i as int].server_names@.len() > 0);
            apache2_block(site, &sites[i], &mut lines);
        }
        proof {
            lemma_flat_map_take_all(sites@, f);
        }
        assert(base =~= seq![
            site.metadata.managed_prefix@,
            "ProxyPreserveHost On"@,
            "ProxyRequests Off"@,
            Seq::<char>::empty(),
        ]);
        let contents = join_strings(&lines, "\n");
        single_artifact(
            make_artifact(
                self.name(),
                "reverse_proxy_main",
                "/etc/apache2/sites-available/lantricate-proxies.conf",
                contents,
            ),
        )
    }
}

} // verus!
