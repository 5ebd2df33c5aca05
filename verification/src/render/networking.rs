use vstd::prelude::*;

use crate::domain::{InterfaceDef, RenderedArtifact, SiteConfig};
use crate::seqs::{lemma_flat_map_take_all, lemma_flat_map_take_succ, lemma_flat_map_take_zero};
use crate::text::{join, join_strings, strs};

use super::{artifact_of, artifact_views, make_artifact, push_line, single_artifact, Renderer};

verus! {

/// Renders the systemd-networkd configuration.
pub struct NetworkingRenderer;

/// The block of lines for one interface.
pub open spec fn interface_block_fn() -> spec_fn(InterfaceDef) -> Seq<Seq<char>> {
    |i: InterfaceDef|
        seq!["[Match]"@, "Name="@ + i.name@, "[Network]"@] + i.addresses@.map_values(
            |a: String| "Address="@ + a@,
        ) + (if i.network_refs@.len() > 0 {
            seq!["# Networks="@ + join(strs(i.network_refs@), ","@)]
        } else {
            Seq::empty()
        }) + seq![Seq::<char>::empty()]
}

/// The systemd-networkd configuration of a site.
pub open spec fn networking_text(site: SiteConfig) -> Seq<char> {
    join(
        seq![site.metadata.managed_prefix@] + site.interfaces@.flat_map(interface_block_fn()),
        "\n"@,
    ) + "\n"@
}

fn interface_block(iface: &InterfaceDef, lines: &mut Vec<String>)
    ensures
        strs(final(lines)@) == strs(old(lines)@) + interface_block_fn()(*iface),
{
    let ghost start = strs(lines@);
    push_line(lines, String::from_str("[Match]"));
    let mut name = String::from_str("Name=");
    name.append(iface.name.as_str());
    push_line(lines, name);
    push_line(lines, String::from_str("[Network]"));
    let ghost base = strs(lines@);
    let ghost f = |a: String| "Address="@ + a@;
    for i in 0..iface.addresses.len()
        invariant
            f == (|a: String| "Address="@ + a@),
            strs(lines@) == base + iface.addresses@.take(i as int).map_values(f),
    {
        let mut line = String::from_str("Address=");
        line.append(iface.addresses[i].as_str());
        push_line(lines, line);
        assert(iface.addresses@.take(i + 1).map_values(f) =~= iface.addresses@.take(i as int).map_values(
            f,
        ).push(f(iface.addresses@[i as int])));
    }
    assert(iface.addresses@.take(iface.addresses@.len() as int) =~= iface.addresses@);
    let ghost mid = strs(lines@);
    if iface.network_refs.len() > 0 {
        let mut line = String::from_str("# Networks=");
        let refs = join_strings(&iface.network_refs, ",");
        line.append(refs.as_str());
        push_line(lines, line);
    } else {
        assert(strs(lines@) =~= mid + Seq::<Seq<char>>::empty());
    }
    push_line(lines, String::new());
    assert(strs(lines@) =~= start + interface_block_fn()(*iface));
}

impl Renderer for NetworkingRenderer {
    /// The renderer's name.
    fn name(&self) -> (r: &'static str)
        ensures
            r@ == "networking"@,
    {
        "networking"
    }

    /// One match block per interface with its addresses and attached networks.
    fn render(&self, site: &SiteConfig) -> (r: Vec<RenderedArtifact>)
        ensures
            artifact_views(r@) == seq![
                artifact_of(
                    "networking"@,
                    "networking_main"@,
                    "/etc/systemd/network/90-lanuminous.network"@,
                    networking_text(*site),
                ),
            ],
    {
        let mut lines: Vec<String> = Vec::new();
        push_line(&mut lines, site.metadata.managed_prefix.clone());
        let ghost base = strs(lines@);
        let ghost f = interface_block_fn();
        proof {
            lemma_flat_map_take_zero(site.interfaces@, f);
        }
        for i in 0..site.interfaces.len()
            invariant
                f == interface_block_fn(),
                strs(lines@) == base + site.interfaces@.take(i as int).flat_map(f),
        {
            proof {
                lemma_flat_map_take_succ(site.interfaces@, f, i as int);
            }
            interface_block(&site.interfaces[i], &mut lines);
        }
        proof {
            lemma_flat_map_take_all(site.interfaces@, f);
        }
        assert(base =~= seq![site.metadata.managed_prefix@]);
        let mut contents = join_strings(&lines, "\n");
        contents.append("\n");
        single_artifact(
            make_artifact(
                self.name(),
                "networking_main",
                "/etc/systemd/network/90-lanuminous.network",
                contents,
            ),
        )
    }
}

} // verus!
