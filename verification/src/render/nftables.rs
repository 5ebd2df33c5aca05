use vstd::prelude::*;

use crate::domain::{PolicyAction, PolicyRule, PortForwardRule, PortProtocol, RenderedArtifact, SiteConfig};
use crate::seqs::{lemma_flat_map_index, lemma_flat_map_take_all, lemma_flat_map_take_succ, lemma_flat_map_take_zero};
use crate::text::{contains_seq, decimal, decimal_string, join, join_strings, lemma_joined_pair, strs};

use super::{
    artifact_of, artifact_views, host_address, make_artifact, push_line, resolve_host_address,
    single_artifact, Renderer,
};

verus! {

/// Renders the nftables rule set.
pub struct NftablesRenderer;

/// The keyword of a transport protocol.
pub open spec fn protocol_word(p: PortProtocol) -> Seq<char> {
    match p {
        PortProtocol::Tcp => "tcp"@,
        PortProtocol::Udp => "udp"@,
    }
}

/// The verdict keyword of a policy action.
pub open spec fn verdict_word(a: PolicyAction) -> Seq<char> {
    match a {
        PolicyAction::Accept => "accept"@,
        PolicyAction::Reject => "reject"@,
        PolicyAction::Drop => "drop"@,
    }
}

/// An optional description, or else a name.
pub open spec fn described(description: Option<String>, name: String) -> Seq<char> {
    match description {
        Some(d) => d@,
        None => name@,
    }
}

/// The two lines of a port forward: a comment and the DNAT rule.
pub open spec fn forward_lines_fn(site: SiteConfig) -> spec_fn(PortForwardRule) -> Seq<Seq<char>> {
    |f: PortForwardRule|
        seq![
            "    # "@ + described(f.description, f.name),
            "    iifname \"wan\" "@ + protocol_word(f.protocol) + " dport "@ + decimal(
                f.external_port as nat,
            ) + " dnat to "@ + host_address(site, f.destination_host@) + ":"@ + decimal(
                f.destination_port as nat,
            ),
        ]
}

/// The two lines of a policy: a comment and the verdict.
pub open spec fn policy_lines_fn() -> spec_fn(PolicyRule) -> Seq<Seq<char>> {
    |p: PolicyRule|
        seq![
            "    # "@ + described(p.description, p.name) + ": "@ + p.source_zone@ + " -> "@
                + p.destination_zone@,
            "    counter "@ + verdict_word(p.action),
        ]
}

/// The nftables rule set of a site.
pub open spec fn nftables_text(site: SiteConfig) -> Seq<char> {
    join(
        seq![
            site.metadata.managed_prefix@,
            "table inet lanuminous {"@,
            "  chain prerouting {"@,
            "    type nat hook prerouting priority dstnat;"@,
        ] + site.port_forwards.rules@.flat_map(forward_lines_fn(site)) + seq![
            "  }"@,
            "  chain forward {"@,
            "    type filter hook forward priority 0;"@,
            "    policy drop;"@,
        ] + site.firewall.policies@.flat_map(policy_lines_fn()) + seq!["  }"@, "}"@],
        "\n"@,
    ) + "\n"@
}

fn protocol_str(p: PortProtocol) -> (r: &'static str)
    ensures
        r@ == protocol_word(p),
{
    match p {
        PortProtocol::Tcp => "tcp",
        PortProtocol::Udp => "udp",
    }
}

fn verdict_str(a: PolicyAction) -> (r: &'static str)
    ensures
        r@ == verdict_word(a),
{
    match a {
        PolicyAction::Accept => "accept",
        PolicyAction::Reject => "reject",
        PolicyAction::Drop => "drop",
    }
}

fn describe<'a>(description: &'a Option<String>, name: &'a String) -> (r: &'a str)
    ensures
        r@ == described(*description, *name),
{
    match description {
        Some(d) => d.as_str(),
        None => name.as_str(),
    }
}

fn forward_lines(site: &SiteConfig, forward: &PortForwardRule, lines: &mut Vec<String>)
    ensures
        strs(final(lines)@) == strs(old(lines)@) + forward_lines_fn(*site)(*forward),
{
    let ghost start = strs(lines@);
    let mut comment = String::from_str("    # ");
    comment.append(describe(&forward.description, &forward.name));
    push_line(lines, comment);
    let destination_host = resolve_host_address(site, &forward.destination_host);
    let mut rule = String::from_str("    iifname \"wan\" ");
    rule.append(protocol_str(forward.protocol));
    rule.append(" dport ");
    rule.append(decimal_string(forward.external_port as u64).as_str());
    rule.append(" dnat to ");
    rule.append(destination_host.as_str());
    rule.append(":");
    rule.append(decimal_string(forward.destination_port as u64).as_str());
    push_line(lines, rule);
    assert(strs(lines@) =~= start + forward_lines_fn(*site)(*forward));
}

fn policy_lines(policy: &PolicyRule, lines: &mut Vec<String>)
    ensures
        strs(final(lines)@) == strs(old(lines)@) + policy_lines_fn()(*policy),
{
    let ghost start = strs(lines@);
    let mut comment = String::from_str("    # ");
    comment.append(describe(&policy.description, &policy.name));
    comment.append(": ");
    comment.append(policy.source_zone.as_str());
    comment.append(" -> ");
    comment.append(policy.destination_zone.as_str());
    push_line(lines, comment);
    let mut verdict = String::from_str("    counter ");
    verdict.append(verdict_str(policy.action));
    push_line(lines, verdict);
    assert(strs(lines@) =~= start + policy_lines_fn()(*policy));
}

impl Renderer for NftablesRenderer {
    /// The renderer's name.
    fn name(&self) -> (r: &'static str)
        ensures
            r@ == "nftables"@,
    {
        "nftables"
    }

    /// A prerouting chain with one DNAT rule per port forward and a forward
    /// chain that drops by default, with one verdict per policy.
    fn render(&self, site: &SiteConfig) -> (r: Vec<RenderedArtifact>)
        ensures
            artifact_views(r@) == seq![
                artifact_of(
                    "nftables"@,
                    "nftables_main"@,
                    "/etc/nftables.d/lanuminous.nft"@,
                    nftables_text(*site),
                ),
            ],
    {
        let mut lines: Vec<String> = Vec::new();
        push_line(&mut lines, site.metadata.managed_prefix.clone());
        push_line(&mut lines, String::from_str("table inet lanuminous {"));
        push_line(&mut lines, String::from_str("  chain prerouting {"));
        push_line(&mut lines, String::from_str("    type nat hook prerouting priority dstnat;"));
        let ghost base = strs(lines@);
        let ghost f = forward_lines_fn(*site);
        proof {
            lemma_flat_map_take_zero(site.port_forwards.rules@, f);
        }
        for i in 0..site.port_forwards.rules.len()
            invariant
                f == forward_lines_fn(*site),
                strs(lines@) == base + site.port_forwards.rules@.take(i as int).flat_map(f),
        {
            proof {
                lemma_flat_map_take_succ(site.port_forwards.rules@, f, i as int);
            }
            forward_lines(site, &site.port_forwards.rules[i], &mut lines);
        }
        proof {
            lemma_flat_map_take_all(site.port_forwards.rules@, f);
        }
        push_line(&mut lines, String::from_str("  }"));
        push_line(&mut lines, String::from_str("  chain forward {"));
        push_line(&mut lines, String::from_str("    type filter hook forward priority 0;"));
        push_line(&mut lines, String::from_str("    policy drop;"));
        let ghost base2 = strs(lines@);
        let ghost g = policy_lines_fn();
        proof {
            lemma_flat_map_take_zero(site.firewall.policies@, g);
        }
        for i in 0..site.firewall.policies.len()
            invariant
                g == policy_lines_fn(),
                strs(lines@) == base2 + site.firewall.policies@.take(i as int).flat_map(g),
        {
            proof {
                lemma_flat_map_take_succ(site.firewall.policies@, g, i as int);
            }
            policy_lines(&site.firewall.policies[i], &mut lines);
        }
        proof {
            lemma_flat_map_take_all(site.firewall.policies@, g);
        }
        push_line(&mut lines, String::from_str("  }"));
        push_line(&mut lines, String::from_str("}"));
        assert(strs(lines@) =~= seq![
            site.metadata.managed_prefix@,
            "table inet lanuminous {"@,
            "  chain prerouting {"@,
            "    type nat hook prerouting priority dstnat;"@,
        ] + site.port_forwards.rules@.flat_map(f) + seq![
            "  }"@,
            "  chain forward {"@,
            "    type filter hook forward priority 0;"@,
            "    policy drop;"@,
        ] + site.firewall.policies@.flat_map(g) + seq!["  }"@, "}"@]);
        let mut contents = join_strings(&lines, "\n");
        contents.append("\n");
        single_artifact(
            make_artifact(self.name(), "nftables_main", "/etc/nftables.d/lanuminous.nft", contents),
        )
    }
}

/// Every firewall policy is rendered as its comment line (name or
/// description, source and destination zone) followed directly by the
/// verdict of its own action: Accept gives accept, Reject gives reject,
/// Drop gives drop.
pub proof fn policy_verdicts_rendered(site: SiteConfig, k: int)
    requires
        0 <= k < site.firewall.policies@.len(),
    ensures
        ({
            let p = site.firewall.policies@[k];
            let comment = "    # "@ + match p.description {
                Some(d) => d@,
                None => p.name@,
            } + ": "@ + p.source_zone@ + " -> "@ + p.destination_zone@;
            &&& p.action == PolicyAction::Accept ==> contains_seq(
                nftables_text(site),
                "\n"@ + comment + "\n"@ + "    counter accept"@ + "\n"@,
            )
            &&& p.action == PolicyAction::Reject ==> contains_seq(
                nftables_text(site),
                "\n"@ + comment + "\n"@ + "    counter reject"@ + "\n"@,
            )
            &&& p.action == PolicyAction::Drop ==> contains_seq(
                nftables_text(site),
                "\n"@ + comment + "\n"@ + "    counter drop"@ + "\n"@,
            )
        }),
{
    let pols = site.firewall.policies@;
    let fws = site.port_forwards.rules@.flat_map(forward_lines_fn(site));
    let head = seq![
        site.metadata.managed_prefix@,
        "table inet lanuminous {"@,
        "  chain prerouting {"@,
        "    type nat hook prerouting priority dstnat;"@,
    ];
    let mid = seq![
        "  }"@,
        "  chain forward {"@,
        "    type filter hook forward priority 0;"@,
        "    policy drop;"@,
    ];
    let pl = pols.flat_map(policy_lines_fn());
    let parts = head + fws + mid + pl + seq!["  }"@, "}"@];
    lemma_flat_map_index(pols, policy_lines_fn(), k, 0);
    lemma_flat_map_index(pols, policy_lines_fn(), k, 1);
    let off = pols.take(k).flat_map(policy_lines_fn()).len() as int;
    let i: int = 8 + fws.len() + off;
    assert(parts[i] == pl[off]);
    assert(parts[i + 1] == pl[off + 1]);
    lemma_joined_pair(parts, i, "\n"@);
    let p = pols[k];
    let comment = "    # "@ + match p.description {
        Some(d) => d@,
        None => p.name@,
    } + ": "@ + p.source_zone@ + " -> "@ + p.destination_zone@;
    assert(parts[i] =~= comment);
    assert("\n"@ + parts[i] + "\n"@ + parts[i + 1] + "\n"@ =~= "\n"@ + comment + "\n"@ + (
    "    counter "@ + verdict_word(p.action)) + "\n"@);
    reveal_strlit("    counter ");
    reveal_strlit("accept");
    reveal_strlit("reject");
    reveal_strlit("drop");
    reveal_strlit("    counter accept");
    reveal_strlit("    counter reject");
    reveal_strlit("    counter drop");
    assert("    counter "@ + "accept"@ =~= "    counter accept"@);
    assert("    counter "@ + "reject"@ =~= "    counter reject"@);
    assert("    counter "@ + "drop"@ =~= "    counter drop"@);
}

} // verus!
