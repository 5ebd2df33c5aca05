//! The renderers that turn a site into managed configuration files.
mod apache2;
mod dnsmasq;
mod haproxy;
mod nginx;
mod traefik;
mod networking;
mod nftables;

use vstd::prelude::*;

use crate::domain::{
    HostDef, ProxyScheme, ProxyTlsMode, RenderedArtifact, ReverseProxyProvider, SiteConfig,
};
use crate::remote_access::host_index_from;
use crate::text::strs;
use crate::util::hashing::{sha256_string, text_checksum};

pub use apache2::{Apache2Renderer, apache2_artifacts, apache2_renderable, apache2_text};
pub use dnsmasq::{DnsmasqRenderer, dnsmasq_text, reservations_rendered};
pub use haproxy::{HaproxyRenderer, haproxy_artifacts, haproxy_text, backend_servers_rendered};
pub use nginx::{NginxRenderer, nginx_artifacts, nginx_text};
pub use traefik::{TraefikRenderer, traefik_artifacts, traefik_text};
pub use networking::{NetworkingRenderer, networking_text};
pub use nftables::{NftablesRenderer, nftables_text, policy_verdicts_rendered};

verus! {

/// A rendered artifact as the specifications speak of it.
pub struct ArtifactView {
    pub renderer: Seq<char>,
    pub logical_name: Seq<char>,
    pub target_path: Seq<char>,
    pub contents: Seq<char>,
    pub checksum: Seq<char>,
}

impl View for RenderedArtifact {
    type V = ArtifactView;

    open spec fn view(&self) -> ArtifactView {
        ArtifactView {
            renderer: self.renderer@,
            logical_name: self.logical_name@,
            target_path: self.target_path@,
            contents: self.contents@,
            checksum: self.checksum@,
        }
    }
}

/// The views of a list of artifacts.
pub open spec fn artifact_views(v: Seq<RenderedArtifact>) -> Seq<ArtifactView> {
    v.map_values(|a: RenderedArtifact| a@)
}

/// The artifact a renderer makes of some contents; its checksum is the
/// SHA-256 digest of the contents.
pub open spec fn artifact_of(renderer: Seq<char>, logical_name: Seq<char>, target_path: Seq<char>, contents: Seq<char>) -> ArtifactView {
    ArtifactView {
        renderer,
        logical_name,
        target_path,
        contents,
        checksum: text_checksum(contents),
    }
}

/// The address a renderer writes for a host reference: the management
/// address of the first host of that name, or else the reference itself.
pub open spec fn host_address(site: SiteConfig, host_ref: Seq<char>) -> Seq<char> {
    match host_index_from(site.hosts@, host_ref, 0) {
        Some(h) => match site.hosts@[h].management_ip {
            Some(ip) => ip@,
            None => host_ref,
        },
        None => host_ref,
    }
}

/// The scheme word of a proxy backend.
pub open spec fn scheme_word(s: ProxyScheme) -> Seq<char> {
    match s {
        ProxyScheme::Http => "http"@,
        ProxyScheme::Https => "https"@,
    }
}

/// The comment that says where TLS ends.
pub open spec fn tls_comment(m: ProxyTlsMode) -> Seq<char> {
    match m {
        ProxyTlsMode::TerminateAtProxy => "# TLS terminates at the proxy"@,
        ProxyTlsMode::PassThrough => "# TLS pass-through modeled for future refinement"@,
    }
}

/// The scheme word of a proxy backend.
pub fn scheme_str(s: ProxyScheme) -> (r: &'static str)
    ensures
        r@ == scheme_word(s),
{
    match s {
        ProxyScheme::Http => "http",
        ProxyScheme::Https => "https",
    }
}

/// The comment that says where TLS ends.
pub fn tls_comment_str(m: ProxyTlsMode) -> (r: &'static str)
    ensures
        r@ == tls_comment(m),
{
    match m {
        ProxyTlsMode::TerminateAtProxy => "# TLS terminates at the proxy",
        ProxyTlsMode::PassThrough => "# TLS pass-through modeled for future refinement",
    }
}

/// A renderer of one kind of managed file.
pub trait Renderer {
    fn name(&self) -> &'static str;

    fn render(&self, site: &SiteConfig) -> Vec<RenderedArtifact>;
}

/// The address a renderer writes for a host reference.
pub fn resolve_host_address(site: &SiteConfig, host_ref: &String) -> (r: String)
    ensures
        r@ == host_address(*site, host_ref@),
{
    let hosts = &site.hosts;
    let mut i: usize = 0;
    while i < hosts.len() && !(hosts[i].name == *host_ref)
        invariant
            hosts == &site.hosts,
            i <= hosts@.len(),
            host_index_from(hosts@, host_ref@, 0) == host_index_from(hosts@, host_ref@, i as int),
        decreases hosts@.len() - i,
    {
        i = i + 1;
    }
    if i == hosts.len() {
        return host_ref.clone();
    }
    match &hosts[i].management_ip {
        Some(ip) => ip.clone(),
        None => host_ref.clone(),
    }
}

/// Appends one line, keeping the views in step.
pub fn push_line(lines: &mut Vec<String>, line: String)
    ensures
        strs(final(lines)@) == strs(old(lines)@).push(line@),
{
    let ghost before = old(lines)@;
    lines.push(line);
    assert(strs(lines@) =~= strs(before).push(line@));
}

/// An artifact with its checksum computed from its contents.
pub fn make_artifact(renderer: &str, logical_name: &str, target_path: &str, contents: String) -> (r: RenderedArtifact)
    ensures
        r@ == artifact_of(renderer@, logical_name@, target_path@, contents@),
{
    let checksum = sha256_string(contents.as_str());
    RenderedArtifact {
        renderer: String::from_str(renderer),
        logical_name: String::from_str(logical_name),
        target_path: String::from_str(target_path),
        contents,
        checksum,
    }
}

/// A list holding one artifact.
pub fn single_artifact(a: RenderedArtifact) -> (r: Vec<RenderedArtifact>)
    ensures
        artifact_views(r@) == seq![a@],
{
    let mut r: Vec<RenderedArtifact> = Vec::new();
    r.push(a);
    assert(artifact_views(r@) =~= seq![a@]);
    r
}

/// The empty list of artifacts.
pub fn no_artifacts() -> (r: Vec<RenderedArtifact>)
    ensures
        artifact_views(r@) == Seq::<ArtifactView>::empty(),
{
    let r: Vec<RenderedArtifact> = Vec::new();
    assert(artifact_views(r@) =~= Seq::<ArtifactView>::empty());
    r
}

/// Every artifact the site renders to, in renderer order: the reverse proxy
/// file of the configured provider (when there are proxied sites), then the
/// dnsmasq, nftables and systemd-networkd files.
pub open spec fn rendered(site: SiteConfig) -> Seq<ArtifactView> {
    apache2_artifacts(site) + nginx_artifacts(site) + traefik_artifacts(site) + haproxy_artifacts(
        site,
    ) + seq![
        artifact_of(
            "dnsmasq"@,
            "dnsmasq_main"@,
            "/etc/dnsmasq.d/lanuminous.conf"@,
            dnsmasq_text(site),
        ),
        artifact_of(
            "nftables"@,
            "nftables_main"@,
            "/etc/nftables.d/lanuminous.nft"@,
            nftables_text(site),
        ),
        artifact_of(
            "networking"@,
            "networking_main"@,
            "/etc/systemd/network/90-lanuminous.network"@,
            networking_text(site),
        ),
    ]
}

fn append_artifacts(all: &mut Vec<RenderedArtifact>, more: Vec<RenderedArtifact>)
    ensures
        artifact_views(final(all)@) == artifact_views(old(all)@) + artifact_views(more@),
{
    let mut more = more;
    let ghost a = old(all)@;
    let ghost b = more@;
    all.append(&mut more);
    assert(artifact_views(a + b) =~= artifact_views(a) + artifact_views(b));
}

/// Renders every managed file of a site.
pub fn render_all(site: &SiteConfig) -> (r: Vec<RenderedArtifact>)
    requires
        apache2_renderable(*site),
    ensures
        artifact_views(r@) == rendered(*site),
{
    let mut artifacts: Vec<RenderedArtifact> = Vec::new();
    append_artifacts(&mut artifacts, Apache2Renderer.render(site));
    append_artifacts(&mut artifacts, NginxRenderer.render(site));
    append_artifacts(&mut artifacts, TraefikRenderer.render(site));
    append_artifacts(&mut artifacts, HaproxyRenderer.render(site));
    append_artifacts(&mut artifacts, DnsmasqRenderer.render(site));
    append_artifacts(&mut artifacts, NftablesRenderer.render(site));
    append_artifacts(&mut artifacts, NetworkingRenderer.render(site));
    assert(artifact_views(artifacts@) =~= rendered(*site));
    artifacts
}

/// Every rendered artifact carries the checksum of its own contents.
pub proof fn rendered_checksums_match_contents(site: SiteConfig)
    ensures
        forall|i: int|
            0 <= i < rendered(site).len() ==> (#[trigger] rendered(site)[i]).checksum
                == text_checksum(rendered(site)[i].contents),
{
}

/// A site renders to the dnsmasq, nftables and systemd-networkd files, in
/// that order, preceded by one reverse-proxy file when it has proxied sites
/// and its provider has a renderer (every provider but Caddy).
pub proof fn rendered_files(site: SiteConfig)
    ensures
        rendered(site).len() == 3 + if site.reverse_proxies.sites@.len() > 0
            && site.reverse_proxies.provider != ReverseProxyProvider::Caddy {
            1int
        } else {
            0int
        },
        rendered(site)[rendered(site).len() - 3].logical_name == "dnsmasq_main"@,
        rendered(site)[rendered(site).len() - 2].logical_name == "nftables_main"@,
        rendered(site)[rendered(site).len() - 1].logical_name == "networking_main"@,
        rendered(site).len() == 4 ==> rendered(site)[0].logical_name == "reverse_proxy_main"@,
{
}

} // verus!
