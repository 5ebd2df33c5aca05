//! Checking the remote-access intent of a site, planning the publications and
//! DNS records it asks for, and reporting what each provider would do.
use vstd::prelude::*;

use crate::domain::{
    DesiredPublication, DesiredDnsRecord, ExposureMode, HostDef, HostInterfaceDef,
    PublicationPlan, PublicationResult, PublicationRule, PublicationTarget, RemoteDnsProviderDef,
    RemoteDnsProviderKind, SiteConfig, WanAddressUpdate, target_service,
};
use crate::seqs::{
    lemma_concat_contains, lemma_filter_take_succ, lemma_flat_map_contains, lemma_filter_take_zero, lemma_flat_map_take_succ,
    lemma_flat_map_take_zero, all_of, lemma_all_of_concat, lemma_flat_map_all,
};
use crate::text::{lemma_missing_char_not_contained, 
    before_char, blank, concat2, concat3, contains_seq, contains_string, contains_text,
    eq_ignore_ascii_case, is_blank, opt_str, prefix_before, same_ignoring_ascii_case, strs, trim, trimmed,
};
use crate::validate::{
    append_issues, err, no_errors, host_names, issue_of, issue_views, make_error, make_issue, IssueSeverity,
    IssueView, ValidationIssue, issue_if,
};

use super::provider::{
    apply_result, backend_of, belongs_to, capabilities_of, definition_messages, desired_views,
    external_name_of, opt_blank, option_blank, planned_records, provider_backend,
    publication_count, record_views, result_views, sync_result, DesiredView, DnsRecordView,
    RemoteAccessProvider, ResultView, ValueSourceView, direct_record_fn, publication_record,
    wan_record, ProviderBackend, dynamic_records_serve_direct_publications,
};
use crate::domain::{DesiredDnsPurpose, DesiredDnsRecordType};

verus! {

/// Why remote access cannot be planned.
#[derive(Debug)]
pub enum RemoteAccessError {
    InvalidConfiguration(Vec<ValidationIssue>),
}

impl RemoteAccessError {
    /// The text the error displays.
    pub fn message(&self) -> (r: String)
        ensures
            r@ == "remote access configuration is invalid"@,
    {
        String::from_str("remote access configuration is invalid")
    }
}

/// The index of the provider an id designates: the last one with that id.
pub open spec fn lookup_provider(ps: Seq<RemoteDnsProviderDef>, id: Seq<char>, n: int) -> Option<int>
    decreases n,
{
    if n <= 0 {
        None
    } else if ps[n - 1].id@ == id {
        Some(n - 1)
    } else {
        lookup_provider(ps, id, n - 1)
    }
}

/// The index of the site's provider with the given id, if any.
pub open spec fn find_provider(site: SiteConfig, id: Seq<char>) -> Option<int> {
    lookup_provider(
        site.remote_access.providers@,
        id,
        site.remote_access.providers@.len() as int,
    )
}

/// The severity of a backend's finding: advice ("should set") is a warning.
pub open spec fn severity_of(m: Seq<char>) -> IssueSeverity {
    if contains_seq(m, "should set"@) {
        IssueSeverity::Warning
    } else {
        IssueSeverity::Error
    }
}

/// The issues of the first `k` providers: repeated ids and definition findings.
pub open spec fn provider_issues(ps: Seq<RemoteDnsProviderDef>, k: int) -> Seq<IssueView>
    decreases k,
{
    if k <= 0 {
        Seq::empty()
    } else {
        let p = ps[k - 1];
        let path = "remote_access.providers."@ + p.id@;
        provider_issues(ps, k - 1) + issue_if(
            ps.take(k - 1).map_values(|q: RemoteDnsProviderDef| q.id@).contains(p.id@),
            err(path, "duplicate remote access provider `"@ + p.id@ + "`"@),
        ) + definition_messages(backend_of(p.provider), p).map_values(
            |m: Seq<char>| issue_of(severity_of(m), path, m),
        )
    }
}

/// The provider a rule names, when it names one that is not blank.
pub open spec fn provider_choice(rule: PublicationRule) -> Option<Seq<char>> {
    match rule.provider {
        Some(s) => if is_blank(s@) {
            None
        } else {
            Some(s@)
        },
        None => None,
    }
}

/// The external name validation resolves for a rule, if it gets that far.
pub open spec fn rule_external(site: SiteConfig, rule: PublicationRule) -> Option<Seq<char>> {
    match provider_choice(rule) {
        None => None,
        Some(pid) => match find_provider(site, pid) {
            None => None,
            Some(j) => {
                let p = site.remote_access.providers@[j];
                external_name_of(backend_of(p.provider), p, rule.publish_as)
            },
        },
    }
}

/// The target service of an enabled rule.
pub open spec fn enabled_target_fn() -> spec_fn(PublicationRule) -> Seq<Seq<char>> {
    |r: PublicationRule|
        if r.enabled {
            seq![target_service(r.target)]
        } else {
            Seq::empty()
        }
}

/// The external name an enabled rule claims.
pub open spec fn claimed_name_fn(site: SiteConfig) -> spec_fn(PublicationRule) -> Seq<Seq<char>> {
    |r: PublicationRule|
        if r.enabled && rule_external(site, r) is Some {
            seq![rule_external(site, r)->0]
        } else {
            Seq::empty()
        }
}

/// The issues of a rule's provider: capabilities and required settings.
pub open spec fn provider_fit_issues(p: RemoteDnsProviderDef, rule: PublicationRule, path: Seq<char>) -> Seq<IssueView> {
    let caps = capabilities_of(backend_of(p.provider));
    issue_if(
        !caps.service_publication,
        err(path, "provider `"@ + p.id@ + "` does not support service publication"@),
    ) + issue_if(
        rule.exposure_mode == ExposureMode::Tunnel && !caps.supports_tunnel,
        err(path, "provider `"@ + p.id@ + "` does not support tunnel publication mode"@),
    ) + issue_if(
        rule.exposure_mode != ExposureMode::Tunnel && !caps.supports_direct,
        err(path, "provider `"@ + p.id@ + "` does not support direct publication mode"@),
    ) + issue_if(
        p.provider is ManagedSubdomain && opt_blank(rule.publish_as),
        err(path, "managed subdomain publications require `publish_as`"@),
    )
}

/// The issues of an enabled rule's provider and external name, given the
/// external names claimed before it.
pub open spec fn provider_part(site: SiteConfig, rule: PublicationRule, path: Seq<char>, claimed: Seq<Seq<char>>) -> Seq<IssueView> {
    match provider_choice(rule) {
        None => seq![err(path, "enabled remote publication requires a provider"@)],
        Some(pid) => match find_provider(site, pid) {
            None => seq![err(path, "unknown remote access provider `"@ + pid + "`"@)],
            Some(j) => {
                let p = site.remote_access.providers@[j];
                provider_fit_issues(p, rule, path) + match external_name_of(
                    backend_of(p.provider),
                    p,
                    rule.publish_as,
                ) {
                    None => seq![
                        err(path, "enabled remote publication must resolve to an external hostname"@),
                    ],
                    Some(x) => issue_if(
                        claimed.contains(x),
                        err(path, "duplicate external publication name `"@ + x + "`"@),
                    ),
                }
            },
        },
    }
}

/// The issues of publication rule `k`.
pub open spec fn publication_issues(site: SiteConfig, k: int) -> Seq<IssueView> {
    let rules = site.remote_access.publications@;
    let rule = rules[k];
    let svc = target_service(rule.target);
    let path = "remote_access.services."@ + svc;
    issue_if(
        !host_names(site).contains(svc),
        err(path, "unknown publication target service `"@ + svc + "`"@),
    ) + if !rule.enabled {
        Seq::empty()
    } else {
        issue_if(
            rules.take(k).flat_map(enabled_target_fn()).contains(svc),
            err(path, "conflicting publication definitions for `"@ + svc + "`"@),
        ) + issue_if(
            rule.target_port == 0,
            err(path, "enabled remote publication requires a non-zero target port"@),
        ) + provider_part(site, rule, path, rules.take(k).flat_map(claimed_name_fn(site)))
    }
}

/// The issues of the first `k` publication rules.
pub open spec fn publications_issues(site: SiteConfig, k: int) -> Seq<IssueView>
    decreases k,
{
    if k <= 0 {
        Seq::empty()
    } else {
        publications_issues(site, k - 1) + publication_issues(site, k - 1)
    }
}

/// The hostname an enabled WAN update claims once its provider is known.
pub open spec fn claimed_wan_fn(site: SiteConfig) -> spec_fn(WanAddressUpdate) -> Seq<Seq<char>> {
    |u: WanAddressUpdate|
        if u.enabled && !is_blank(u.provider@) && find_provider(site, u.provider@) is Some {
            seq![u.hostname@]
        } else {
            Seq::empty()
        }
}

/// The issues of WAN update `k`.
pub open spec fn wan_update_issues(site: SiteConfig, k: int) -> Seq<IssueView> {
    let updates = site.remote_access.wan_updates@;
    let u = updates[k];
    let path = "remote_access.wan_updates."@ + u.name@;
    if !u.enabled {
        Seq::empty()
    } else if is_blank(u.provider@) {
        seq![err(path, "WAN address synchronization requires a provider"@)]
    } else {
        issue_if(is_blank(u.hostname@), err(path, "WAN address synchronization requires a hostname"@))
            + match find_provider(site, u.provider@) {
            None => seq![err(path, "unknown remote access provider `"@ + u.provider@ + "`"@)],
            Some(j) => issue_if(
                !capabilities_of(
                    backend_of(site.remote_access.providers@[j].provider),
                ).wan_address_sync,
                err(
                    path,
                    "provider `"@ + u.provider@
                        + "` does not support WAN address synchronization"@,
                ),
            ) + issue_if(
                updates.take(k).flat_map(claimed_wan_fn(site)).contains(u.hostname@),
                err(path, "conflicting WAN update hostname `"@ + u.hostname@ + "`"@),
            ),
        }
    }
}

/// The issues of the first `k` WAN updates.
pub open spec fn wan_updates_issues(site: SiteConfig, k: int) -> Seq<IssueView>
    decreases k,
{
    if k <= 0 {
        Seq::empty()
    } else {
        wan_updates_issues(site, k - 1) + wan_update_issues(site, k - 1)
    }
}

/// Every issue the remote-access rules find, in the order they are reported.
pub open spec fn remote_access_issues(site: SiteConfig) -> Seq<IssueView> {
    let ra = site.remote_access;
    provider_issues(ra.providers@, ra.providers@.len() as int) + publications_issues(
        site,
        ra.publications@.len() as int,
    ) + wan_updates_issues(site, ra.wan_updates@.len() as int)
}

/// An address without its prefix length, unless it is blank or `dhcp`.
pub open spec fn stripped_address(a: Seq<char>) -> Option<Seq<char>> {
    let v = trimmed(before_char(a, '/'));
    if v.len() == 0 || eq_ignore_ascii_case(v, "dhcp"@) {
        None
    } else {
        Some(v)
    }
}

/// The first usable interface address from index `i` on.
pub open spec fn interface_address_from(ifaces: Seq<HostInterfaceDef>, i: int) -> Option<Seq<char>>
    decreases ifaces.len() - i,
{
    if i < 0 || i >= ifaces.len() {
        None
    } else {
        match ifaces[i].address {
            Some(a) => if stripped_address(a@) is Some {
                stripped_address(a@)
            } else {
                interface_address_from(ifaces, i + 1)
            },
            None => interface_address_from(ifaces, i + 1),
        }
    }
}

/// The index of the first host with the given name from index `i` on.
pub open spec fn host_index_from(hosts: Seq<HostDef>, name: Seq<char>, i: int) -> Option<int>
    decreases hosts.len() - i,
{
    if i < 0 || i >= hosts.len() {
        None
    } else if hosts[i].name@ == name {
        Some(i)
    } else {
        host_index_from(hosts, name, i + 1)
    }
}

/// The address a publication target is reached at: the host's management
/// address, or else its first usable interface address.
pub open spec fn target_address_of(site: SiteConfig, target: PublicationTarget) -> Option<Seq<char>> {
    match host_index_from(site.hosts@, target_service(target), 0) {
        None => None,
        Some(h) => {
            let host = site.hosts@[h];
            match host.management_ip {
                Some(ip) => Some(ip@),
                None => interface_address_from(host.interfaces@, 0),
            }
        },
    }
}

/// The desired publication a rule yields, if everything it needs resolves.
pub open spec fn desired_of(site: SiteConfig, rule: PublicationRule) -> Option<DesiredView> {
    match rule.provider {
        None => None,
        Some(pid) => match find_provider(site, pid@) {
            None => None,
            Some(j) => {
                let p = site.remote_access.providers@[j];
                match external_name_of(backend_of(p.provider), p, rule.publish_as) {
                    None => None,
                    Some(x) => match target_address_of(site, rule.target) {
                        None => None,
                        Some(a) => Some(
                            DesiredView {
                                service: target_service(rule.target),
                                provider: p.id@,
                                external_name: x,
                                protocol: rule.protocol,
                                target_port: rule.target_port,
                                audience: rule.audience,
                                exposure_mode: rule.exposure_mode,
                                target: rule.target,
                                target_address: a,
                            },
                        ),
                    },
                }
            },
        },
    }
}

/// The desired publications of the enabled rules among the first `n`, or
/// `None` when one of them does not resolve.
pub open spec fn desired_upto(site: SiteConfig, n: int) -> Option<Seq<DesiredView>>
    decreases n,
{
    if n <= 0 {
        Some(Seq::empty())
    } else {
        match desired_upto(site, n - 1) {
            None => None,
            Some(s) => {
                let rule = site.remote_access.publications@[n - 1];
                if !rule.enabled {
                    Some(s)
                } else {
                    match desired_of(site, rule) {
                        None => None,
                        Some(d) => Some(s.push(d)),
                    }
                }
            },
        }
    }
}

/// The enabled WAN updates.
pub open spec fn is_enabled_update() -> spec_fn(WanAddressUpdate) -> bool {
    |u: WanAddressUpdate| u.enabled
}

/// The WAN updates that belong to the provider `id`.
pub open spec fn update_belongs_to(id: Seq<char>) -> spec_fn(WanAddressUpdate) -> bool {
    |u: WanAddressUpdate| u.provider@ == id
}

/// The records planned for the first `k` providers.
pub open spec fn records_upto(ps: Seq<RemoteDnsProviderDef>, pubs: Seq<DesiredView>, wans: Seq<WanAddressUpdate>, k: int) -> Seq<DnsRecordView>
    decreases k,
{
    if k <= 0 {
        Seq::empty()
    } else {
        let p = ps[k - 1];
        let pp = pubs.filter(belongs_to(p.id@));
        let pw = wans.filter(update_belongs_to(p.id@));
        records_upto(ps, pubs, wans, k - 1) + if pp.len() == 0 && pw.len() == 0 {
            Seq::empty()
        } else {
            planned_records(backend_of(p.provider), pp, pw)
        }
    }
}

/// A plan as the specifications speak of it.
pub struct PlanView {
    pub publications: Seq<DesiredView>,
    pub dns_records: Seq<DnsRecordView>,
    pub wan_updates: Seq<WanAddressUpdate>,
    pub warnings: Seq<Seq<char>>,
}

/// The view of a plan.
pub open spec fn plan_view(plan: PublicationPlan) -> PlanView {
    PlanView {
        publications: desired_views(plan.publications@),
        dns_records: record_views(plan.dns_records@),
        wan_updates: plan.wan_updates@,
        warnings: strs(plan.warnings@),
    }
}

/// Selects the error issues.
pub open spec fn is_error() -> spec_fn(IssueView) -> bool {
    |i: IssueView| i.severity == IssueSeverity::Error
}

/// What planning remote access yields for a site: the error issues when
/// validation finds any; all issues when a publication does not resolve;
/// otherwise the publications, their DNS records and the enabled WAN updates.
pub open spec fn plan_of(site: SiteConfig) -> Result<PlanView, Seq<IssueView>> {
    let issues = remote_access_issues(site);
    let errors = issues.filter(is_error());
    if errors.len() > 0 {
        Err(errors)
    } else {
        match desired_upto(site, site.remote_access.publications@.len() as int) {
            None => Err(issues),
            Some(pubs) => {
                let wans = site.remote_access.wan_updates@.filter(is_enabled_update());
                Ok(
                    PlanView {
                        publications: pubs,
                        dns_records: records_upto(
                            site.remote_access.providers@,
                            pubs,
                            wans,
                            site.remote_access.providers@.len() as int,
                        ),
                        wan_updates: wans,
                        warnings: Seq::empty(),
                    },
                )
            },
        }
    }
}

/// The outcome of planning, as the specifications speak of it.
pub open spec fn plan_outcome(r: Result<PublicationPlan, RemoteAccessError>) -> Result<PlanView, Seq<IssueView>> {
    match r {
        Ok(plan) => Ok(plan_view(plan)),
        Err(RemoteAccessError::InvalidConfiguration(v)) => Err(issue_views(v@)),
    }
}

/// The provider results for the first `k` providers of a plan.
pub open spec fn status_upto(ps: Seq<RemoteDnsProviderDef>, plan: PlanView, k: int) -> Seq<ResultView>
    decreases k,
{
    if k <= 0 {
        Seq::empty()
    } else {
        let p = ps[k - 1];
        let b = backend_of(p.provider);
        let pw = plan.wan_updates.filter(update_belongs_to(p.id@));
        status_upto(ps, plan, k - 1) + seq![
            apply_result(b, p.id@, publication_count(plan.publications, p.id@)),
        ] + if pw.len() > 0 {
            seq![sync_result(b, p.id@, pw.len())]
        } else {
            Seq::empty()
        }
    }
}

/// What the remote-access status of a site is: the planning issues, or one
/// publication result per provider followed by a WAN result for each
/// provider with enabled WAN updates.
pub open spec fn status_of(site: SiteConfig) -> Result<Seq<ResultView>, Seq<IssueView>> {
    match plan_of(site) {
        Err(e) => Err(e),
        Ok(plan) => Ok(
            status_upto(
                site.remote_access.providers@,
                plan,
                site.remote_access.providers@.len() as int,
            ),
        ),
    }
}

/// The outcome of a status query, as the specifications speak of it.
pub open spec fn status_outcome(r: Result<Vec<PublicationResult>, RemoteAccessError>) -> Result<Seq<ResultView>, Seq<IssueView>> {
    match r {
        Ok(v) => Ok(result_views(v@)),
        Err(RemoteAccessError::InvalidConfiguration(v)) => Err(issue_views(v@)),
    }
}

fn find_provider_index(site: &SiteConfig, id: &String) -> (r: Option<usize>)
    ensures
        match r {
            Some(k) => find_provider(*site, id@) == Some(k as int) && k < site.remote_access.providers@.len(),
            None => find_provider(*site, id@) is None,
        },
{
    let ps = &site.remote_access.providers;
    let mut k: usize = ps.len();
    while k > 0
        invariant
            k <= ps@.len(),
            find_provider(*site, id@) == lookup_provider(ps@, id@, k as int),
            ps == &site.remote_access.providers,
        decreases k,
    {
        if ps[k - 1].id == *id {
            return Some(k - 1);
        }
        k = k - 1;
    }
    None
}

fn push_issue_when(issues: &mut Vec<ValidationIssue>, c: bool, path: &String, message: String)
    ensures
        issue_views(final(issues)@) == issue_views(old(issues)@) + issue_if(c, err(path@, message@)),
{
    let ghost before = old(issues)@;
    if c {
        issues.push(make_error(path.clone(), message));
        assert(issue_views(issues@) =~= issue_views(before) + seq![err(path@, message@)]);
    } else {
        assert(issue_views(issues@) =~= issue_views(before) + Seq::<IssueView>::empty());
    }
}

fn push_issue(issues: &mut Vec<ValidationIssue>, path: &String, message: String)
    ensures
        issue_views(final(issues)@) == issue_views(old(issues)@) + seq![err(path@, message@)],
{
    let ghost before = old(issues)@;
    issues.push(make_error(path.clone(), message));
    assert(issue_views(issues@) =~= issue_views(before) + seq![err(path@, message@)]);
}

fn provider_section(site: &SiteConfig) -> (r: Vec<ValidationIssue>)
    ensures
        issue_views(r@) == provider_issues(
            site.remote_access.providers@,
            site.remote_access.providers@.len() as int,
        ),
{
    let ps = &site.remote_access.providers;
    let mut issues: Vec<ValidationIssue> = Vec::new();
    let mut ids: Vec<String> = Vec::new();
    for k in 0..ps.len()
        invariant
            ps == &site.remote_access.providers,
            strs(ids@) == ps@.take(k as int).map_values(|q: RemoteDnsProviderDef| q.id@),
            issue_views(issues@) == provider_issues(ps@, k as int),
    {
        let provider = &ps[k];
        let path = concat2("remote_access.providers.", provider.id.as_str());
        let dup = contains_string(&ids, &provider.id);
        assert(ps@.take(k as int) =~= ps@.take(k + 1 - 1));
        push_issue_when(
            &mut issues,
            dup,
            &path,
            concat3("duplicate remote access provider `", provider.id.as_str(), "`"),
        );
        let ghost mid = issue_views(issues@);
        let backend = provider_backend(&provider.provider);
        let messages = backend.validate_definition(provider);
        let ghost msgs = messages@.map_values(|s: String| s@);
        let ghost f = |m: Seq<char>| issue_of(severity_of(m), path@, m);
        for j in 0..messages.len()
            invariant
                msgs == messages@.map_values(|s: String| s@),
                f == (|m: Seq<char>| issue_of(severity_of(m), path@, m)),
                issue_views(issues@) == mid + msgs.take(j as int).map_values(f),
        {
            let message = &messages[j];
            let severity = if contains_text(message.as_str(), "should set") {
                IssueSeverity::Warning
            } else {
                IssueSeverity::Error
            };
            let ghost before = issues@;
            issues.push(make_issue(severity, path.clone(), message.clone()));
            assert(msgs.take(j + 1).map_values(f) =~= msgs.take(j as int).map_values(f).push(
                f(msgs[j as int]),
            ));
            assert(issue_views(issues@) =~= issue_views(before).push(
                issue_of(severity, path@, message@),
            ));
        }
        assert(msgs.take(messages@.len() as int) =~= msgs);
        let ghost old_ids = ids@;
        ids.push(provider.id.clone());
        assert(strs(ids@) =~= strs(old_ids).push(provider.id@));
        assert(ps@.take(k + 1).map_values(|q: RemoteDnsProviderDef| q.id@) =~= ps@.take(
            k as int,
        ).map_values(|q: RemoteDnsProviderDef| q.id@).push(provider.id@));
    }
    issues
}

fn validate_publication_provider(
    provider: &RemoteDnsProviderDef,
    publication: &PublicationRule,
    path: &String,
    issues: &mut Vec<ValidationIssue>,
)
    ensures
        issue_views(final(issues)@) == issue_views(old(issues)@) + provider_fit_issues(
            *provider,
            *publication,
            path@,
        ),
{
    let backend = provider_backend(&provider.provider);
    let capabilities = backend.capabilities();
    let id = provider.id.as_str();
    push_issue_when(
        issues,
        !capabilities.service_publication,
        path,
        concat3("provider `", id, "` does not support service publication"),
    );
    let tunnel = publication.exposure_mode == ExposureMode::Tunnel;
    push_issue_when(
        issues,
        tunnel && !capabilities.supports_tunnel,
        path,
        concat3("provider `", id, "` does not support tunnel publication mode"),
    );
    push_issue_when(
        issues,
        !tunnel && !capabilities.supports_direct,
        path,
        concat3("provider `", id, "` does not support direct publication mode"),
    );
    let managed = match &provider.provider {
        RemoteDnsProviderKind::ManagedSubdomain(_) => true,
        _ => false,
    };
    let publish_as_blank = option_blank(&publication.publish_as);
    push_issue_when(
        issues,
        managed && publish_as_blank,
        path,
        String::from_str("managed subdomain publications require `publish_as`"),
    );
}

/// The provider a rule names, when it is not blank.
fn chosen_provider(rule: &PublicationRule) -> (r: Option<&String>)
    ensures
        opt_ref_str(r) == provider_choice(*rule),
{
    match &rule.provider {
        Some(s) => {
            if blank(s.as_str()) {
                None
            } else {
                Some(s)
            }
        },
        None => None,
    }
}

/// The view of an optional borrowed string.
pub open spec fn opt_ref_str(o: Option<&String>) -> Option<Seq<char>> {
    match o {
        Some(s) => Some(s@),
        None => None,
    }
}

fn provider_step(
    site: &SiteConfig,
    publication: &PublicationRule,
    path: &String,
    issues: &mut Vec<ValidationIssue>,
    externals: &mut Vec<String>,
)
    requires
        publication.enabled,
    ensures
        issue_views(final(issues)@) == issue_views(old(issues)@) + provider_part(
            *site,
            *publication,
            path@,
            strs(old(externals)@),
        ),
        strs(final(externals)@) == strs(old(externals)@) + claimed_name_fn(*site)(*publication),
{
    let ghost rule = *publication;
    let ghost cf = claimed_name_fn(*site);
    let ghost claimed = strs(externals@);
    let ghost start = issue_views(issues@);
    let provider_id = match chosen_provider(publication) {
        Some(id) => id,
        None => {
            push_issue(issues, path, String::from_str("enabled remote publication requires a provider"));
            assert(strs(externals@) =~= claimed + cf(rule));
            return;
        },
    };
    let index = match find_provider_index(site, provider_id) {
        Some(j) => j,
        None => {
            push_issue(
                issues,
                path,
                concat3("unknown remote access provider `", provider_id.as_str(), "`"),
            );
            assert(strs(externals@) =~= claimed + cf(rule));
            return;
        },
    };
    let provider = &site.remote_access.providers[index];
    validate_publication_provider(provider, publication, path, issues);
    let ghost after_fit = issue_views(issues@);
    let backend = provider_backend(&provider.provider);
    let external_name = match backend.resolve_external_name(provider, &publication.publish_as) {
        Some(name) => name,
        None => {
            push_issue(
                issues,
                path,
                String::from_str("enabled remote publication must resolve to an external hostname"),
            );
            assert(strs(externals@) =~= claimed + cf(rule));
            return;
        },
    };
    let duplicate = contains_string(externals, &external_name);
    push_issue_when(
        issues,
        duplicate,
        path,
        concat3("duplicate external publication name `", external_name.as_str(), "`"),
    );
    let ghost old_externals = externals@;
    externals.push(external_name);
    assert(strs(externals@) =~= strs(old_externals).push(externals@.last()@));
    assert(strs(externals@) =~= claimed + cf(rule));
}

fn publication_step(
    site: &SiteConfig,
    hosts: &Vec<String>,
    k: usize,
    issues: &mut Vec<ValidationIssue>,
    targets: &mut Vec<String>,
    externals: &mut Vec<String>,
)
    requires
        k < site.remote_access.publications@.len(),
        strs(hosts@) == host_names(*site),
        strs(old(targets)@) == site.remote_access.publications@.take(k as int).flat_map(
            enabled_target_fn(),
        ),
        strs(old(externals)@) == site.remote_access.publications@.take(k as int).flat_map(
            claimed_name_fn(*site),
        ),
        issue_views(old(issues)@) == publications_issues(*site, k as int),
    ensures
        strs(final(targets)@) == site.remote_access.publications@.take(k + 1).flat_map(
            enabled_target_fn(),
        ),
        strs(final(externals)@) == site.remote_access.publications@.take(k + 1).flat_map(
            claimed_name_fn(*site),
        ),
        issue_views(final(issues)@) == publications_issues(*site, k + 1),
{
    let rules = &site.remote_access.publications;
    let ghost tf = enabled_target_fn();
    let ghost cf = claimed_name_fn(*site);
        let publication = &rules[k];
        let ghost rule = *publication;
        let ghost start = issue_views(issues@);
        proof {
            lemma_flat_map_take_succ(rules@, tf, k as int);
            lemma_flat_map_take_succ(rules@, cf, k as int);
        }
        let service_name = publication.target.service_name();
        let service = String::from_str(service_name);
        let path = concat2("remote_access.services.", service_name);
        let known = contains_string(hosts, &service);
        push_issue_when(
            issues,
            !known,
            &path,
            concat3("unknown publication target service `", service_name, "`"),
        );
        let ghost after_known = issue_views(issues@);
        if !publication.enabled {
            assert(tf(rule) =~= Seq::<Seq<char>>::empty());
            assert(cf(rule) =~= Seq::<Seq<char>>::empty());
            assert(strs(targets@) =~= rules@.take(k + 1).flat_map(tf));
            assert(strs(externals@) =~= rules@.take(k + 1).flat_map(cf));
            assert(issue_views(issues@) =~= publications_issues(*site, k + 1));
            return;
        }
        let conflict = contains_string(targets, &service);
        push_issue_when(
            issues,
            conflict,
            &path,
            concat3("conflicting publication definitions for `", service_name, "`"),
        );
        let ghost old_targets = targets@;
        targets.push(service.clone());
        assert(strs(targets@) =~= strs(old_targets).push(service@));
        push_issue_when(
            issues,
            publication.target_port == 0,
            &path,
            String::from_str("enabled remote publication requires a non-zero target port"),
        );
        let ghost after_port = issue_views(issues@);
        provider_step(site, publication, &path, issues, externals);
        assert(strs(externals@) =~= rules@.take(k + 1).flat_map(cf));
        assert(issue_views(issues@) =~= publications_issues(*site, k + 1));
}

fn publication_section(site: &SiteConfig, hosts: &Vec<String>) -> (r: Vec<ValidationIssue>)
    requires
        strs(hosts@) == host_names(*site),
    ensures
        issue_views(r@) == publications_issues(
            *site,
            site.remote_access.publications@.len() as int,
        ),
{
    let rules = &site.remote_access.publications;
    let mut issues: Vec<ValidationIssue> = Vec::new();
    let mut targets: Vec<String> = Vec::new();
    let mut externals: Vec<String> = Vec::new();
    proof {
        lemma_flat_map_take_zero(rules@, enabled_target_fn());
        lemma_flat_map_take_zero(rules@, claimed_name_fn(*site));
    }
    for k in 0..rules.len()
        invariant
            rules == &site.remote_access.publications,
            strs(hosts@) == host_names(*site),
            strs(targets@) == rules@.take(k as int).flat_map(enabled_target_fn()),
            strs(externals@) == rules@.take(k as int).flat_map(claimed_name_fn(*site)),
            issue_views(issues@) == publications_issues(*site, k as int),
    {
        publication_step(site, hosts, k, &mut issues, &mut targets, &mut externals);
    }
    issues
}

fn wan_step(site: &SiteConfig, k: usize, issues: &mut Vec<ValidationIssue>, hostnames: &mut Vec<String>)
    requires
        k < site.remote_access.wan_updates@.len(),
        strs(old(hostnames)@) == site.remote_access.wan_updates@.take(k as int).flat_map(
            claimed_wan_fn(*site),
        ),
        issue_views(old(issues)@) == wan_updates_issues(*site, k as int),
    ensures
        strs(final(hostnames)@) == site.remote_access.wan_updates@.take(k + 1).flat_map(
            claimed_wan_fn(*site),
        ),
        issue_views(final(issues)@) == wan_updates_issues(*site, k + 1),
{
    let updates = &site.remote_access.wan_updates;
    let ghost wf = claimed_wan_fn(*site);
        let update = &updates[k];
        let ghost u = *update;
        proof {
            lemma_flat_map_take_succ(updates@, wf, k as int);
        }
        let path = concat2("remote_access.wan_updates.", update.name.as_str());
        if !update.enabled {
            assert(wf(u) =~= Seq::<Seq<char>>::empty());
            assert(strs(hostnames@) =~= updates@.take(k + 1).flat_map(wf));
            assert(issue_views(issues@) =~= wan_updates_issues(*site, k + 1));
            return;
        }
        if blank(update.provider.as_str()) {
            push_issue(issues, &path, String::from_str("WAN address synchronization requires a provider"));
            assert(wf(u) =~= Seq::<Seq<char>>::empty());
            assert(strs(hostnames@) =~= updates@.take(k + 1).flat_map(wf));
            assert(issue_views(issues@) =~= wan_updates_issues(*site, k + 1));
            return;
        }
        let ghost start = issue_views(issues@);
        push_issue_when(
            issues,
            blank(update.hostname.as_str()),
            &path,
            String::from_str("WAN address synchronization requires a hostname"),
        );
        let index = match find_provider_index(site, &update.provider) {
            Some(j) => j,
            None => {
                push_issue(
                    issues,
                    &path,
                    concat3("unknown remote access provider `", update.provider.as_str(), "`"),
                );
                assert(wf(u) =~= Seq::<Seq<char>>::empty());
                assert(strs(hostnames@) =~= updates@.take(k + 1).flat_map(wf));
                assert(issue_views(issues@) =~= wan_updates_issues(*site, k + 1));
                return;
            },
        };
        let provider = &site.remote_access.providers[index];
        let backend = provider_backend(&provider.provider);
        push_issue_when(
            issues,
            !backend.capabilities().wan_address_sync,
            &path,
            concat3(
                "provider `",
                update.provider.as_str(),
                "` does not support WAN address synchronization",
            ),
        );
        let conflict = contains_string(hostnames, &update.hostname);
        push_issue_when(
            issues,
            conflict,
            &path,
            concat3("conflicting WAN update hostname `", update.hostname.as_str(), "`"),
        );
        let ghost old_hostnames = hostnames@;
        hostnames.push(update.hostname.clone());
        assert(strs(hostnames@) =~= strs(old_hostnames).push(update.hostname@));
        assert(wf(u) =~= seq![update.hostname@]);
        assert(strs(hostnames@) =~= updates@.take(k + 1).flat_map(wf));
        assert(issue_views(issues@) =~= wan_updates_issues(*site, k + 1));
}

fn wan_section(site: &SiteConfig) -> (r: Vec<ValidationIssue>)
    ensures
        issue_views(r@) == wan_updates_issues(*site, site.remote_access.wan_updates@.len() as int),
{
    let updates = &site.remote_access.wan_updates;
    let mut issues: Vec<ValidationIssue> = Vec::new();
    let mut hostnames: Vec<String> = Vec::new();
    proof {
        lemma_flat_map_take_zero(updates@, claimed_wan_fn(*site));
    }
    for k in 0..updates.len()
        invariant
            updates == &site.remote_access.wan_updates,
            strs(hostnames@) == updates@.take(k as int).flat_map(claimed_wan_fn(*site)),
            issue_views(issues@) == wan_updates_issues(*site, k as int),
    {
        wan_step(site, k, &mut issues, &mut hostnames);
    }
    issues
}

fn host_name_strings(site: &SiteConfig) -> (r: Vec<String>)
    ensures
        strs(r@) == host_names(*site),
{
    let mut r: Vec<String> = Vec::new();
    for i in 0..site.hosts.len()
        invariant
            strs(r@) == site.hosts@.take(i as int).map_values(|h: HostDef| h.name@),
    {
        let ghost before = r@;
        r.push(site.hosts[i].name.clone());
        assert(site.hosts@.take(i + 1).map_values(|h: HostDef| h.name@) =~= site.hosts@.take(
            i as int,
        ).map_values(|h: HostDef| h.name@).push(site.hosts@[i as int].name@));
        assert(strs(r@) =~= strs(before).push(site.hosts@[i as int].name@));
    }
    assert(site.hosts@.take(site.hosts@.len() as int) =~= site.hosts@);
    r
}

/// Checks the remote-access intent: unique providers with sound definitions,
/// enabled publications that target known hosts through providers able to
/// publish them under distinct names, and WAN updates through providers able
/// to synchronize distinct hostnames.
pub fn validate_remote_access(site: &SiteConfig) -> (r: Vec<ValidationIssue>)
    ensures
        issue_views(r@) == remote_access_issues(*site),
{
    let mut issues = provider_section(site);
    let hosts = host_name_strings(site);
    append_issues(&mut issues, publication_section(site, &hosts));
    append_issues(&mut issues, wan_section(site));
    issues
}

/// An address without its prefix length, unless that leaves nothing or `dhcp`.
fn strip_prefix_length(address: &str) -> (r: Option<String>)
    ensures
        opt_str(r) == stripped_address(address@),
{
    let before = prefix_before(address, '/');
    let value = trim(before.as_str());
    if value.unicode_len() == 0 || same_ignoring_ascii_case(value.as_str(), "dhcp") {
        None
    } else {
        Some(value)
    }
}

/// The address a publication target is reached at.
fn resolve_target_address(site: &SiteConfig, target: &PublicationTarget) -> (r: Option<String>)
    ensures
        opt_str(r) == target_address_of(*site, *target),
{
    let name = String::from_str(target.service_name());
    let hosts = &site.hosts;
    let mut i: usize = 0;
    while i < hosts.len() && !(hosts[i].name == name)
        invariant
            hosts == &site.hosts,
            name@ == target_service(*target),
            i <= hosts@.len(),
            host_index_from(hosts@, name@, 0) == host_index_from(hosts@, name@, i as int),
        decreases hosts@.len() - i,
    {
        i = i + 1;
    }
    if i == hosts.len() {
        return None;
    }
    let host = &hosts[i];
    match &host.management_ip {
        Some(ip) => Some(ip.clone()),
        None => {
            let ifaces = &host.interfaces;
            assert(target_address_of(*site, *target) == interface_address_from(ifaces@, 0));
            let mut j: usize = 0;
            while j < ifaces.len()
                invariant
                    ifaces == &host.interfaces,
                    target_address_of(*site, *target) == interface_address_from(ifaces@, 0),
                    j <= ifaces@.len(),
                    interface_address_from(ifaces@, 0) == interface_address_from(ifaces@, j as int),
                decreases ifaces@.len() - j,
            {
                match &ifaces[j].address {
                    Some(a) => {
                        let stripped = strip_prefix_length(a.as_str());
                        if stripped.is_some() {
                            assert(interface_address_from(ifaces@, j as int) == opt_str(stripped));
                            return stripped;
                        }
                    },
                    None => {},
                }
                j = j + 1;
            }
            None
        },
    }
}

/// The desired publication a rule yields, if its provider, external name and
/// target address all resolve.
fn build_desired_publication(site: &SiteConfig, publication: &PublicationRule) -> (r: Option<DesiredPublication>)
    ensures
        match r {
            Some(d) => desired_of(*site, *publication) == Some(d@),
            None => desired_of(*site, *publication) is None,
        },
{
    let provider_id = match &publication.provider {
        Some(id) => id,
        None => return None,
    };
    let index = match find_provider_index(site, provider_id) {
        Some(j) => j,
        None => return None,
    };
    let provider = &site.remote_access.providers[index];
    let backend = provider_backend(&provider.provider);
    let external_name = match backend.resolve_external_name(provider, &publication.publish_as) {
        Some(name) => name,
        None => return None,
    };
    let target = publication.target.clone();
    let target_address = match resolve_target_address(site, &target) {
        Some(a) => a,
        None => return None,
    };
    let service = String::from_str(target.service_name());
    Some(
        DesiredPublication {
            service,
            provider: provider.id.clone(),
            external_name,
            protocol: publication.protocol,
            target_port: publication.target_port,
            audience: publication.audience,
            exposure_mode: publication.exposure_mode,
            target,
            target_address,
        },
    )
}

proof fn lemma_desired_upto_stays_none(site: SiteConfig, k: int, m: int)
    requires
        0 <= k <= m,
        desired_upto(site, k) is None,
    ensures
        desired_upto(site, m) is None,
    decreases m - k,
{
    if k < m {
        lemma_desired_upto_stays_none(site, k, m - 1);
    }
}

fn error_issues(issues: &Vec<ValidationIssue>) -> (r: Vec<ValidationIssue>)
    ensures
        issue_views(r@) == issue_views(issues@).filter(is_error()),
{
    let ghost iv = issue_views(issues@);
    let mut r: Vec<ValidationIssue> = Vec::new();
    proof {
        lemma_filter_take_zero(iv, is_error());
    }
    for i in 0..issues.len()
        invariant
            iv == issue_views(issues@),
            issue_views(r@) == iv.take(i as int).filter(is_error()),
    {
        proof {
            lemma_filter_take_succ(iv, is_error(), i as int);
        }
        if issues[i].severity == IssueSeverity::Error {
            let ghost before = r@;
            r.push(issues[i].clone());
            assert(issue_views(r@) =~= issue_views(before).push(iv[i as int]));
        }
    }
    assert(iv.take(issues@.len() as int) =~= iv);
    r
}

fn enabled_updates(updates: &Vec<WanAddressUpdate>) -> (r: Vec<WanAddressUpdate>)
    ensures
        r@ == updates@.filter(is_enabled_update()),
{
    let mut r: Vec<WanAddressUpdate> = Vec::new();
    proof {
        lemma_filter_take_zero(updates@, is_enabled_update());
    }
    for i in 0..updates.len()
        invariant
            r@ == updates@.take(i as int).filter(is_enabled_update()),
    {
        proof {
            lemma_filter_take_succ(updates@, is_enabled_update(), i as int);
        }
        if updates[i].enabled {
            r.push(updates[i].clone());
        }
    }
    assert(updates@.take(updates@.len() as int) =~= updates@);
    r
}

fn updates_for(updates: &Vec<WanAddressUpdate>, id: &String) -> (r: Vec<WanAddressUpdate>)
    ensures
        r@ == updates@.filter(update_belongs_to(id@)),
{
    let mut r: Vec<WanAddressUpdate> = Vec::new();
    proof {
        lemma_filter_take_zero(updates@, update_belongs_to(id@));
    }
    for i in 0..updates.len()
        invariant
            r@ == updates@.take(i as int).filter(update_belongs_to(id@)),
    {
        proof {
            lemma_filter_take_succ(updates@, update_belongs_to(id@), i as int);
        }
        if updates[i].provider == *id {
            r.push(updates[i].clone());
        }
    }
    assert(updates@.take(updates@.len() as int) =~= updates@);
    r
}

fn publications_for(publications: &Vec<DesiredPublication>, id: &String) -> (r: Vec<DesiredPublication>)
    ensures
        desired_views(r@) == desired_views(publications@).filter(belongs_to(id@)),
{
    let ghost pv = desired_views(publications@);
    let mut r: Vec<DesiredPublication> = Vec::new();
    proof {
        lemma_filter_take_zero(pv, belongs_to(id@));
    }
    for i in 0..publications.len()
        invariant
            pv == desired_views(publications@),
            desired_views(r@) == pv.take(i as int).filter(belongs_to(id@)),
    {
        proof {
            lemma_filter_take_succ(pv, belongs_to(id@), i as int);
        }
        if publications[i].provider == *id {
            let ghost before = r@;
            r.push(publications[i].clone());
            assert(desired_views(r@) =~= desired_views(before).push(pv[i as int]));
        }
    }
    assert(pv.take(publications@.len() as int) =~= pv);
    r
}

/// Plans remote access: when validation finds no error, every enabled
/// publication is resolved against its provider and target host, the
/// enabled WAN updates are kept, and each provider with work plans its DNS
/// records.
pub fn plan_remote_access(site: &SiteConfig) -> (r: Result<PublicationPlan, RemoteAccessError>)
    ensures
        plan_outcome(r) == plan_of(*site),
{
    let issues = validate_remote_access(site);
    let errors = error_issues(&issues);
    if errors.len() > 0 {
        return Err(RemoteAccessError::InvalidConfiguration(errors));
    }
    let rules = &site.remote_access.publications;
    let mut publications: Vec<DesiredPublication> = Vec::new();
    for k in 0..rules.len()
        invariant
            rules == &site.remote_access.publications,
            desired_upto(*site, k as int) == Some(desired_views(publications@)),
            issue_views(issues@) == remote_access_issues(*site),
            issue_views(errors@) == issue_views(issues@).filter(is_error()),
            errors@.len() == 0,
    {
        if rules[k].enabled {
            match build_desired_publication(site, &rules[k]) {
                Some(d) => {
                    let ghost before = publications@;
                    publications.push(d);
                    assert(desired_views(publications@) =~= desired_views(before).push(
                        publications@.last()@,
                    ));
                },
                None => {
                    assert(desired_upto(*site, k + 1) is None);
                    proof {
                        lemma_desired_upto_stays_none(*site, k + 1, rules@.len() as int);
                    }
                    assert(issue_views(errors@).len() == 0);
                    return Err(RemoteAccessError::InvalidConfiguration(issues));
                },
            }
        }
    }
    assert(issue_views(errors@).len() == 0);
    assert(desired_upto(*site, rules@.len() as int) == Some(desired_views(publications@)));
    let wan_updates = enabled_updates(&site.remote_access.wan_updates);
    let ps = &site.remote_access.providers;
    let ghost pv = desired_views(publications@);
    let mut dns_records: Vec<DesiredDnsRecord> = Vec::new();
    for k in 0..ps.len()
        invariant
            ps == &site.remote_access.providers,
            pv == desired_views(publications@),
            record_views(dns_records@) == records_upto(ps@, pv, wan_updates@, k as int),
            desired_upto(*site, site.remote_access.publications@.len() as int) == Some(pv),
            issue_views(issues@) == remote_access_issues(*site),
            issue_views(issues@).filter(is_error()).len() == 0,
            wan_updates@ == site.remote_access.wan_updates@.filter(is_enabled_update()),
    {
        let provider = &ps[k];
        let provider_publications = publications_for(&publications, &provider.id);
        let provider_wan_updates = updates_for(&wan_updates, &provider.id);
        if provider_publications.len() == 0 && provider_wan_updates.len() == 0 {
            assert(record_views(dns_records@) =~= records_upto(ps@, pv, wan_updates@, k + 1));
        } else {
            let backend = provider_backend(&provider.provider);
            let mut planned = backend.plan_dns_records(
                provider,
                &provider_publications,
                &provider_wan_updates,
            );
            let ghost before = dns_records@;
            let ghost more = planned@;
            dns_records.append(&mut planned);
            assert(record_views(dns_records@) =~= record_views(before) + record_views(more));
        }
    }
    let warnings: Vec<String> = Vec::new();
    assert(strs(warnings@) =~= Seq::<Seq<char>>::empty());
    Ok(PublicationPlan { publications, dns_records, wan_updates, warnings })
}

/// What each provider does, or would do, for the site's remote-access plan:
/// one publication result per provider, then a WAN result when the provider
/// has enabled WAN updates.
pub fn remote_access_status(site: &SiteConfig) -> (r: Result<Vec<PublicationResult>, RemoteAccessError>)
    ensures
        status_outcome(r) == status_of(*site),
{
    let plan = match plan_remote_access(site) {
        Ok(plan) => plan,
        Err(e) => return Err(e),
    };
    let ghost pl = plan_view(plan);
    let ps = &site.remote_access.providers;
    let mut results: Vec<PublicationResult> = Vec::new();
    for k in 0..ps.len()
        invariant
            ps == &site.remote_access.providers,
            pl == plan_view(plan),
            result_views(results@) == status_upto(ps@, pl, k as int),
    {
        let provider = &ps[k];
        let provider_wan_updates = updates_for(&plan.wan_updates, &provider.id);
        let backend = provider_backend(&provider.provider);
        let mut applied = backend.apply_publications(provider, &plan);
        let ghost before = results@;
        let ghost more = applied@;
        results.append(&mut applied);
        assert(result_views(results@) =~= result_views(before) + result_views(more));
        if provider_wan_updates.len() > 0 {
            let mut synced = backend.sync_wan_address(provider, &provider_wan_updates);
            let ghost before2 = results@;
            let ghost more2 = synced@;
            results.append(&mut synced);
            assert(result_views(results@) =~= result_views(before2) + result_views(more2));
        }
        assert(result_views(results@) =~= status_upto(ps@, pl, k + 1));
    }
    Ok(results)
}

/// Planning is refused, with exactly the error issues, whenever validating
/// remote access finds an error; and a plan is only ever made for a site
/// whose remote access validates without errors.
pub proof fn plan_requires_valid_remote_access(site: SiteConfig)
    ensures
        remote_access_issues(site).filter(is_error()).len() > 0 ==> plan_of(site) == Err::<
            PlanView,
            Seq<IssueView>,
        >(remote_access_issues(site).filter(is_error())),
        plan_of(site) is Ok ==> no_errors(remote_access_issues(site)),
{
    let issues = remote_access_issues(site);
    if plan_of(site) is Ok {
        assert forall|i: int| 0 <= i < issues.len() implies (#[trigger] issues[i]).severity
            != IssueSeverity::Error by {
            if issues[i].severity == IssueSeverity::Error {
                issues.lemma_filter_contains(is_error(), i);
            }
        }
    }
}

/// The status query refuses exactly when planning refuses, with the same
/// issues; otherwise it reports one publication result per provider, in
/// provider order, each followed by a WAN result when that provider has
/// enabled WAN updates.
pub proof fn status_follows_plan(site: SiteConfig)
    ensures
        plan_of(site) is Err ==> status_of(site) == Err::<Seq<ResultView>, Seq<IssueView>>(
            plan_of(site)->Err_0,
        ),
        plan_of(site) is Ok ==> status_of(site) is Ok && status_of(site)->Ok_0.len()
            >= site.remote_access.providers@.len(),
{
    if plan_of(site) is Ok {
        lemma_status_upto_len(
            site.remote_access.providers@,
            plan_of(site)->Ok_0,
            site.remote_access.providers@.len() as int,
        );
    }
}

proof fn lemma_status_upto_len(ps: Seq<RemoteDnsProviderDef>, plan: PlanView, k: int)
    requires
        0 <= k <= ps.len(),
    ensures
        status_upto(ps, plan, k).len() >= k,
    decreases k,
{
    if k > 0 {
        lemma_status_upto_len(ps, plan, k - 1);
    }
}

proof fn lemma_publications_issues_kept(site: SiteConfig, k: int, n: int, x: IssueView)
    requires
        0 <= k < n,
        publication_issues(site, k).contains(x),
    ensures
        publications_issues(site, n).contains(x),
    decreases n,
{
    if k < n - 1 {
        lemma_publications_issues_kept(site, k, n - 1, x);
    }
    lemma_concat_contains(publications_issues(site, n - 1), publication_issues(site, n - 1), x);
}

/// Two enabled publications that resolve to the same external name: the
/// later one is reported as a duplicate, and planning is refused.
pub proof fn duplicate_external_names_refused(site: SiteConfig, i: int, k: int, name: Seq<char>)
    requires
        0 <= i < k < site.remote_access.publications@.len(),
        site.remote_access.publications@[i].enabled,
        site.remote_access.publications@[k].enabled,
        rule_external(site, site.remote_access.publications@[i]) == Some(name),
        rule_external(site, site.remote_access.publications@[k]) == Some(name),
    ensures
        remote_access_issues(site).contains(
            err(
                "remote_access.services."@ + target_service(
                    site.remote_access.publications@[k].target,
                ),
                "duplicate external publication name `"@ + name + "`"@,
            ),
        ),
        plan_of(site) is Err,
{
    let rules = site.remote_access.publications@;
    let rule = rules[k];
    let path = "remote_access.services."@ + target_service(rule.target);
    let x = err(path, "duplicate external publication name `"@ + name + "`"@);
    let claimed = rules.take(k).flat_map(claimed_name_fn(site));
    assert(claimed_name_fn(site)(rules.take(k)[i]) == seq![name]);
    assert(seq![name][0] == name);
    lemma_flat_map_contains(rules.take(k), claimed_name_fn(site), i, name);
    let pid = provider_choice(rule)->0;
    let j = find_provider(site, pid)->0;
    let p = site.remote_access.providers@[j];
    let tail = issue_if(claimed.contains(name), x);
    assert(tail[0] == x);
    lemma_concat_contains(provider_fit_issues(p, rule, path), tail, x);
    let part = provider_part(site, rule, path, claimed);
    let head = issue_if(
        rules.take(k).flat_map(enabled_target_fn()).contains(target_service(rule.target)),
        err(path, "conflicting publication definitions for `"@ + target_service(rule.target) + "`"@),
    ) + issue_if(
        rule.target_port == 0,
        err(path, "enabled remote publication requires a non-zero target port"@),
    );
    lemma_concat_contains(head, part, x);
    let first = issue_if(
        !host_names(site).contains(target_service(rule.target)),
        err(path, "unknown publication target service `"@ + target_service(rule.target) + "`"@),
    );
    lemma_concat_contains(first, head + part, x);
    assert(publication_issues(site, k) == first + (head + part));
    lemma_publications_issues_kept(site, k, rules.len() as int, x);
    let ra = site.remote_access;
    let a = provider_issues(ra.providers@, ra.providers@.len() as int);
    let b = publications_issues(site, ra.publications@.len() as int);
    let c = wan_updates_issues(site, ra.wan_updates@.len() as int);
    lemma_concat_contains(a, b, x);
    lemma_concat_contains(a + b, c, x);
    let issues = remote_access_issues(site);
    let m = choose|m: int| 0 <= m < issues.len() && #[trigger] issues[m] == x;
    issues.lemma_filter_contains(is_error(), m);
}

/// A record kept pointed at the WAN address: an A record with a TTL of 300 seconds.
pub open spec fn wan_a_record() -> spec_fn(DnsRecordView) -> bool {
    |r: DnsRecordView|
        r.record_type == DesiredDnsRecordType::A && r.value_source == ValueSourceView::WanAddress
            && r.ttl == Some(300u32)
}

proof fn lemma_records_upto_wan_a(ps: Seq<RemoteDnsProviderDef>, pubs: Seq<DesiredView>, wans: Seq<WanAddressUpdate>, k: int)
    ensures
        all_of(records_upto(ps, pubs, wans, k), wan_a_record()),
    decreases k,
{
    if k > 0 {
        lemma_records_upto_wan_a(ps, pubs, wans, k - 1);
        let p = ps[k - 1];
        let pp = pubs.filter(belongs_to(p.id@));
        let pw = wans.filter(update_belongs_to(p.id@));
        let mine = if pp.len() == 0 && pw.len() == 0 {
            Seq::empty()
        } else {
            planned_records(backend_of(p.provider), pp, pw)
        };
        assert forall|x: DesiredView| #[trigger] all_of(direct_record_fn()(x), wan_a_record()) by {}
        lemma_flat_map_all(pp, direct_record_fn(), wan_a_record());
        let wr = pw.map_values(|u: WanAddressUpdate| wan_record(u));
        assert(all_of(wr, wan_a_record()));
        lemma_all_of_concat(pp.flat_map(direct_record_fn()), wr, wan_a_record());
        assert(all_of(pp.map_values(|d: DesiredView| publication_record(d)), wan_a_record()));
        assert(all_of(mine, wan_a_record()));
        lemma_all_of_concat(records_upto(ps, pubs, wans, k - 1), mine, wan_a_record());
    }
}

/// Every DNS record of a plan is an A record that follows the WAN address,
/// with a TTL of 300 seconds.
pub proof fn planned_records_follow_wan_address(site: SiteConfig)
    ensures
        plan_of(site) is Ok ==> all_of(plan_of(site)->Ok_0.dns_records, wan_a_record()),
{
    if plan_of(site) is Ok {
        let pubs = desired_upto(site, site.remote_access.publications@.len() as int)->0;
        let wans = site.remote_access.wan_updates@.filter(is_enabled_update());
        lemma_records_upto_wan_a(
            site.remote_access.providers@,
            pubs,
            wans,
            site.remote_access.providers@.len() as int,
        );
    }
}

/// The issue is reported under the remote-access section of the configuration.
pub open spec fn under_remote_access() -> spec_fn(IssueView) -> bool {
    |i: IssueView| "remote_access."@.is_prefix_of(i.path)
}

/// The issue is reported at `path`.
pub open spec fn at_path(path: Seq<char>) -> spec_fn(IssueView) -> bool {
    |i: IssueView| i.path == path
}

proof fn lemma_section_prefix(section: Seq<char>, x: Seq<char>)
    requires
        section == "remote_access.providers."@ || section == "remote_access.services."@
            || section == "remote_access.wan_updates."@,
    ensures
        "remote_access."@.is_prefix_of(section + x),
{
    reveal_strlit("remote_access.");
    reveal_strlit("remote_access.providers.");
    reveal_strlit("remote_access.services.");
    reveal_strlit("remote_access.wan_updates.");
    assert((section + x).subrange(0, 14) =~= "remote_access."@);
}

proof fn lemma_at_path_under(s: Seq<IssueView>, section: Seq<char>, x: Seq<char>)
    requires
        section == "remote_access.providers."@ || section == "remote_access.services."@
            || section == "remote_access.wan_updates."@,
        all_of(s, at_path(section + x)),
    ensures
        all_of(s, under_remote_access()),
{
    lemma_section_prefix(section, x);
    assert forall|i: int| 0 <= i < s.len() implies #[trigger] under_remote_access()(s[i]) by {
        assert(at_path(section + x)(s[i]));
    }
}

/// The issue is an error reported at `path`.
pub open spec fn error_at(path: Seq<char>) -> spec_fn(IssueView) -> bool {
    |i: IssueView| i.path == path && i.severity == IssueSeverity::Error
}

proof fn lemma_issue_if_at(c: bool, path: Seq<char>, m: Seq<char>)
    ensures
        all_of(issue_if(c, err(path, m)), error_at(path)),
{
}

proof fn lemma_error_at_path(s: Seq<IssueView>, path: Seq<char>)
    requires
        all_of(s, error_at(path)),
    ensures
        all_of(s, at_path(path)),
        all_of(s, is_error()),
{
    assert forall|i: int| 0 <= i < s.len() implies #[trigger] at_path(path)(s[i]) by {
        assert(error_at(path)(s[i]));
    }
    assert forall|i: int| 0 <= i < s.len() implies #[trigger] is_error()(s[i]) by {
        assert(error_at(path)(s[i]));
    }
}

proof fn lemma_provider_issues_under(ps: Seq<RemoteDnsProviderDef>, k: int)
    requires
        k <= ps.len(),
    ensures
        all_of(provider_issues(ps, k), under_remote_access()),
    decreases k,
{
    if k > 0 {
        lemma_provider_issues_under(ps, k - 1);
        let p = ps[k - 1];
        let path = "remote_access.providers."@ + p.id@;
        let dup = issue_if(
            ps.take(k - 1).map_values(|q: RemoteDnsProviderDef| q.id@).contains(p.id@),
            err(path, "duplicate remote access provider `"@ + p.id@ + "`"@),
        );
        let defs = definition_messages(backend_of(p.provider), p).map_values(
            |m: Seq<char>| issue_of(severity_of(m), path, m),
        );
        lemma_issue_if_at(
            ps.take(k - 1).map_values(|q: RemoteDnsProviderDef| q.id@).contains(p.id@),
            path,
            "duplicate remote access provider `"@ + p.id@ + "`"@,
        );
        lemma_error_at_path(dup, path);
        assert(all_of(defs, at_path(path)));
        lemma_all_of_concat(dup, defs, at_path(path));
        lemma_at_path_under(dup + defs, "remote_access.providers."@, p.id@);
        lemma_all_of_concat(provider_issues(ps, k - 1), dup + defs, under_remote_access());
        assert(provider_issues(ps, k) == provider_issues(ps, k - 1) + (dup + defs));
    }
}

proof fn lemma_publication_issues_at(site: SiteConfig, k: int)
    requires
        0 <= k < site.remote_access.publications@.len(),
    ensures
        all_of(
            publication_issues(site, k),
            error_at(
                "remote_access.services."@ + target_service(
                    site.remote_access.publications@[k].target,
                ),
            ),
        ),
{
    let rules = site.remote_access.publications@;
    let rule = rules[k];
    let svc = target_service(rule.target);
    let path = "remote_access.services."@ + svc;
    let claimed = rules.take(k).flat_map(claimed_name_fn(site));
    let part = provider_part(site, rule, path, claimed);
    assert(all_of(part, error_at(path))) by {
        match provider_choice(rule) {
            None => {},
            Some(pid) => match find_provider(site, pid) {
                None => {},
                Some(j) => {
                    let p = site.remote_access.providers@[j];
                    let fit = provider_fit_issues(p, rule, path);
                    assert(all_of(fit, error_at(path)));
                    let tail = match external_name_of(backend_of(p.provider), p, rule.publish_as) {
                        None => seq![
                            err(path, "enabled remote publication must resolve to an external hostname"@),
                        ],
                        Some(x) => issue_if(
                            claimed.contains(x),
                            err(path, "duplicate external publication name `"@ + x + "`"@),
                        ),
                    };
                    assert(all_of(tail, error_at(path)));
                    lemma_all_of_concat(fit, tail, error_at(path));
                    assert(part == fit + tail);
                },
            },
        }
    }
    let first = issue_if(
        !host_names(site).contains(svc),
        err(path, "unknown publication target service `"@ + svc + "`"@),
    );
    assert(all_of(first, error_at(path)));
    if rule.enabled {
        let head = issue_if(
            rules.take(k).flat_map(enabled_target_fn()).contains(svc),
            err(path, "conflicting publication definitions for `"@ + svc + "`"@),
        ) + issue_if(
            rule.target_port == 0,
            err(path, "enabled remote publication requires a non-zero target port"@),
        );
        assert(all_of(head, error_at(path)));
        lemma_all_of_concat(head, part, error_at(path));
        lemma_all_of_concat(first, head + part, error_at(path));
        assert(publication_issues(site, k) == first + (head + part));
    } else {
        assert(publication_issues(site, k) =~= first);
    }
}

proof fn lemma_publications_issues_under(site: SiteConfig, k: int)
    requires
        k <= site.remote_access.publications@.len(),
    ensures
        all_of(publications_issues(site, k), under_remote_access()),
        all_of(publications_issues(site, k), is_error()),
    decreases k,
{
    if k > 0 {
        lemma_publications_issues_under(site, k - 1);
        lemma_publication_issues_at(site, k - 1);
        lemma_error_at_path(
            publication_issues(site, k - 1),
            "remote_access.services."@ + target_service(
                site.remote_access.publications@[k - 1].target,
            ),
        );
        lemma_at_path_under(
            publication_issues(site, k - 1),
            "remote_access.services."@,
            target_service(site.remote_access.publications@[k - 1].target),
        );
        lemma_all_of_concat(
            publications_issues(site, k - 1),
            publication_issues(site, k - 1),
            under_remote_access(),
        );
        lemma_all_of_concat(
            publications_issues(site, k - 1),
            publication_issues(site, k - 1),
            is_error(),
        );
    }
}

proof fn lemma_wan_updates_issues_under(site: SiteConfig, k: int)
    requires
        k <= site.remote_access.wan_updates@.len(),
    ensures
        all_of(wan_updates_issues(site, k), under_remote_access()),
        all_of(wan_updates_issues(site, k), is_error()),
    decreases k,
{
    if k > 0 {
        lemma_wan_updates_issues_under(site, k - 1);
        let u = site.remote_access.wan_updates@[k - 1];
        let path = "remote_access.wan_updates."@ + u.name@;
        let w = wan_update_issues(site, k - 1);
        assert(all_of(w, error_at(path))) by {
            if u.enabled && !is_blank(u.provider@) {
                let a = issue_if(
                    is_blank(u.hostname@),
                    err(path, "WAN address synchronization requires a hostname"@),
                );
                let b = match find_provider(site, u.provider@) {
                    None => seq![err(path, "unknown remote access provider `"@ + u.provider@ + "`"@)],
                    Some(j) => issue_if(
                        !capabilities_of(
                            backend_of(site.remote_access.providers@[j].provider),
                        ).wan_address_sync,
                        err(
                            path,
                            "provider `"@ + u.provider@
                                + "` does not support WAN address synchronization"@,
                        ),
                    ) + issue_if(
                        site.remote_access.wan_updates@.take(k - 1).flat_map(
                            claimed_wan_fn(site),
                        ).contains(u.hostname@),
                        err(path, "conflicting WAN update hostname `"@ + u.hostname@ + "`"@),
                    ),
                };
                assert(all_of(a, error_at(path)));
                assert(all_of(b, error_at(path)));
                lemma_all_of_concat(a, b, error_at(path));
                assert(w == a + b);
            }
        }
        lemma_error_at_path(w, path);
        lemma_at_path_under(w, "remote_access.wan_updates."@, u.name@);
        lemma_all_of_concat(wan_updates_issues(site, k - 1), w, under_remote_access());
        lemma_all_of_concat(wan_updates_issues(site, k - 1), w, is_error());
    }
}

/// Every remote-access issue is reported under `remote_access.`: at a
/// provider, a published service or a WAN update.
pub proof fn remote_access_issues_under_section(site: SiteConfig)
    ensures
        all_of(remote_access_issues(site), under_remote_access()),
{
    let ra = site.remote_access;
    lemma_provider_issues_under(ra.providers@, ra.providers@.len() as int);
    lemma_publications_issues_under(site, ra.publications@.len() as int);
    lemma_wan_updates_issues_under(site, ra.wan_updates@.len() as int);
    lemma_all_of_concat(
        provider_issues(ra.providers@, ra.providers@.len() as int),
        publications_issues(site, ra.publications@.len() as int),
        under_remote_access(),
    );
    lemma_all_of_concat(
        provider_issues(ra.providers@, ra.providers@.len() as int) + publications_issues(
            site,
            ra.publications@.len() as int,
        ),
        wan_updates_issues(site, ra.wan_updates@.len() as int),
        under_remote_access(),
    );
}

/// Two sites that agree on hosts, providers and WAN updates.
pub open spec fn same_remote_context(a: SiteConfig, b: SiteConfig) -> bool {
    &&& a.hosts@ == b.hosts@
    &&& a.remote_access.providers@ == b.remote_access.providers@
    &&& a.remote_access.wan_updates@ == b.remote_access.wan_updates@
}

proof fn lemma_publications_issues_same(a: SiteConfig, b: SiteConfig, k: int)
    requires
        same_remote_context(a, b),
        0 <= k <= a.remote_access.publications@.len(),
        k <= b.remote_access.publications@.len(),
        a.remote_access.publications@.take(k) == b.remote_access.publications@.take(k),
    ensures
        publications_issues(a, k) == publications_issues(b, k),
    decreases k,
{
    if k > 0 {
        let ra = a.remote_access.publications@;
        let rb = b.remote_access.publications@;
        assert(ra.take(k - 1) =~= ra.take(k).take(k - 1));
        assert(rb.take(k - 1) =~= rb.take(k).take(k - 1));
        lemma_publications_issues_same(a, b, k - 1);
        assert(ra[k - 1] == ra.take(k)[k - 1]);
        assert(rb[k - 1] == rb.take(k)[k - 1]);
        assert(host_names(a) =~= host_names(b));
        assert(claimed_name_fn(a) =~= claimed_name_fn(b));
        assert(publication_issues(a, k - 1) == publication_issues(b, k - 1));
    }
}

proof fn lemma_wan_updates_issues_same(a: SiteConfig, b: SiteConfig, k: int)
    requires
        same_remote_context(a, b),
        0 <= k <= a.remote_access.wan_updates@.len(),
    ensures
        wan_updates_issues(a, k) == wan_updates_issues(b, k),
    decreases k,
{
    if k > 0 {
        lemma_wan_updates_issues_same(a, b, k - 1);
        assert(claimed_wan_fn(a) =~= claimed_wan_fn(b));
        assert(wan_update_issues(a, k - 1) == wan_update_issues(b, k - 1));
    }
}

/// A disabled publication of a known service adds no remote-access issue and
/// takes part in no duplicate or conflict check: the site with it added
/// reports exactly what the site without it reports.
pub proof fn disabled_publication_adds_no_issue(site: SiteConfig, with_rule: SiteConfig, rule: PublicationRule)
    requires
        same_remote_context(site, with_rule),
        with_rule.remote_access.publications@ == site.remote_access.publications@.push(rule),
        !rule.enabled,
        host_names(site).contains(target_service(rule.target)),
    ensures
        remote_access_issues(with_rule) == remote_access_issues(site),
{
    let n = site.remote_access.publications@.len() as int;
    assert(with_rule.remote_access.publications@.take(n) =~= site.remote_access.publications@.take(n));
    lemma_publications_issues_same(site, with_rule, n);
    assert(with_rule.remote_access.publications@[n] == rule);
    assert(host_names(with_rule) =~= host_names(site));
    assert(publication_issues(with_rule, n) =~= Seq::<IssueView>::empty());
    assert(publications_issues(with_rule, n + 1) =~= publications_issues(site, n));
    lemma_wan_updates_issues_same(site, with_rule, with_rule.remote_access.wan_updates@.len() as int);
    assert(remote_access_issues(with_rule) =~= remote_access_issues(site));
}

/// The advice a dynamic DNS provider without credentials is given.
pub open spec fn credential_advice() -> Seq<char> {
    "dynamic DNS providers should set `credential_ref`"@
}

proof fn lemma_finding_severities()
    ensures
        severity_of(credential_advice()) == IssueSeverity::Warning,
        severity_of("managed_subdomain providers require `zone`"@) == IssueSeverity::Error,
        severity_of("provider kind mismatch for managed_subdomain backend"@) == IssueSeverity::Error,
        severity_of("joker_dyndns providers require `service`"@) == IssueSeverity::Error,
        severity_of("generic_dyndns providers require `update_url`"@) == IssueSeverity::Error,
        severity_of("provider kind mismatch for dynamic DNS backend"@) == IssueSeverity::Error,
{
    reveal_strlit("should set");
    reveal_strlit("dynamic DNS providers should set `credential_ref`");
    reveal_strlit("managed_subdomain providers require `zone`");
    reveal_strlit("provider kind mismatch for managed_subdomain backend");
    reveal_strlit("joker_dyndns providers require `service`");
    reveal_strlit("generic_dyndns providers require `update_url`");
    reveal_strlit("provider kind mismatch for dynamic DNS backend");
    let pat = "should set"@;
    assert(pat.len() == 10);
    assert(credential_advice().subrange(22, 22 + pat.len() as int) =~= pat);
    assert(contains_seq(credential_advice(), pat));
    assert(pat[1] == 'h' && pat[4] == 'l');
    lemma_missing_char_not_contained("managed_subdomain providers require `zone`"@, pat, 'h');
    lemma_missing_char_not_contained("provider kind mismatch for managed_subdomain backend"@, pat, 'l');
    lemma_missing_char_not_contained("joker_dyndns providers require `service`"@, pat, 'h');
    lemma_missing_char_not_contained("generic_dyndns providers require `update_url`"@, pat, 'h');
    lemma_missing_char_not_contained("provider kind mismatch for dynamic DNS backend"@, pat, 'l');
}

/// Selects the warnings.
pub open spec fn is_warning() -> spec_fn(IssueView) -> bool {
    |i: IssueView| i.severity == IssueSeverity::Warning
}

/// The warning a provider gets: a Joker dynamic DNS provider without a
/// credential reference is advised to set one.
pub open spec fn credential_warning_fn() -> spec_fn(RemoteDnsProviderDef) -> Seq<IssueView> {
    |p: RemoteDnsProviderDef|
        if p.provider is JokerDynDns && opt_blank(p.credential_ref) {
            seq![
                issue_of(
                    IssueSeverity::Warning,
                    "remote_access.providers."@ + p.id@,
                    credential_advice(),
                ),
            ]
        } else {
            Seq::empty()
        }
}

proof fn lemma_singleton_filter(x: IssueView, p: spec_fn(IssueView) -> bool)
    ensures
        seq![x].filter(p) == if p(x) {
            seq![x]
        } else {
            Seq::<IssueView>::empty()
        },
{
    reveal(Seq::filter);
    assert(seq![x].drop_last() =~= Seq::<IssueView>::empty());
    assert(Seq::<IssueView>::empty().filter(p) =~= Seq::<IssueView>::empty());
}

proof fn lemma_errors_have_no_warnings(s: Seq<IssueView>)
    requires
        all_of(s, is_error()),
    ensures
        s.filter(is_warning()) == Seq::<IssueView>::empty(),
    decreases s.len(),
{
    reveal(Seq::filter);
    if s.len() > 0 {
        assert forall|i: int| 0 <= i < s.drop_last().len() implies #[trigger] is_error()(
            s.drop_last()[i],
        ) by {
            assert(is_error()(s[i]));
        }
        lemma_errors_have_no_warnings(s.drop_last());
        assert(is_error()(s[s.len() - 1]));
    } else {
        assert(s.filter(is_warning()) =~= Seq::<IssueView>::empty());
    }
}

proof fn lemma_definition_warnings(p: RemoteDnsProviderDef)
    ensures
        definition_messages(backend_of(p.provider), p).map_values(
            |m: Seq<char>| issue_of(severity_of(m), "remote_access.providers."@ + p.id@, m),
        ).filter(is_warning()) == credential_warning_fn()(p),
{
    broadcast use Seq::filter_distributes_over_add;

    lemma_finding_severities();
    let path = "remote_access.providers."@ + p.id@;
    let g = |m: Seq<char>| issue_of(severity_of(m), path, m);
    let msgs = definition_messages(backend_of(p.provider), p);
    let mapped = msgs.map_values(g);
    match p.provider {
        RemoteDnsProviderKind::JokerDynDns(def) => {
            let a: Seq<Seq<char>> = if opt_blank(def.service) {
                seq!["joker_dyndns providers require `service`"@]
            } else {
                Seq::empty()
            };
            let b: Seq<Seq<char>> = if opt_blank(p.credential_ref) {
                seq![credential_advice()]
            } else {
                Seq::empty()
            };
            assert(msgs == a + b);
            assert(mapped =~= a.map_values(g) + b.map_values(g));
            if opt_blank(def.service) {
                assert(a.map_values(g) =~= seq![g(a[0])]);
                lemma_singleton_filter(g(a[0]), is_warning());
            } else {
                assert(a.map_values(g) =~= Seq::<IssueView>::empty());
                assert(Seq::<IssueView>::empty().filter(is_warning()) =~= Seq::<IssueView>::empty()) by {
                    reveal(Seq::filter);
                }
            }
            if opt_blank(p.credential_ref) {
                assert(b.map_values(g) =~= seq![g(b[0])]);
                lemma_singleton_filter(g(b[0]), is_warning());
            } else {
                assert(b.map_values(g) =~= Seq::<IssueView>::empty());
                assert(Seq::<IssueView>::empty().filter(is_warning()) =~= Seq::<IssueView>::empty()) by {
                    reveal(Seq::filter);
                }
            }
            assert(mapped.filter(is_warning()) =~= credential_warning_fn()(p));
        },
        _ => {
            assert(msgs.len() == 0 || msgs.len() == 1);
            if msgs.len() == 1 {
                assert(mapped =~= seq![g(msgs[0])]);
                lemma_singleton_filter(g(msgs[0]), is_warning());
                assert(!is_warning()(g(msgs[0])));
            } else {
                assert(mapped =~= Seq::<IssueView>::empty());
                assert(Seq::<IssueView>::empty().filter(is_warning()) =~= Seq::<IssueView>::empty()) by {
                    reveal(Seq::filter);
                }
            }
            assert(mapped.filter(is_warning()) =~= credential_warning_fn()(p));
        },
    }
}

proof fn lemma_provider_warnings(ps: Seq<RemoteDnsProviderDef>, k: int)
    requires
        0 <= k <= ps.len(),
    ensures
        provider_issues(ps, k).filter(is_warning()) == ps.take(k).flat_map(credential_warning_fn()),
    decreases k,
{
    broadcast use Seq::filter_distributes_over_add;

    if k == 0 {
        lemma_flat_map_take_zero(ps, credential_warning_fn());
        assert(Seq::<IssueView>::empty().filter(is_warning()) =~= Seq::<IssueView>::empty()) by {
            reveal(Seq::filter);
        }
    } else {
        lemma_provider_warnings(ps, k - 1);
        let p = ps[k - 1];
        let path = "remote_access.providers."@ + p.id@;
        let c = ps.take(k - 1).map_values(|q: RemoteDnsProviderDef| q.id@).contains(p.id@);
        let dup = issue_if(c, err(path, "duplicate remote access provider `"@ + p.id@ + "`"@));
        let defs = definition_messages(backend_of(p.provider), p).map_values(
            |m: Seq<char>| issue_of(severity_of(m), path, m),
        );
        assert(provider_issues(ps, k) == provider_issues(ps, k - 1) + dup + defs);
        lemma_issue_if_at(c, path, "duplicate remote access provider `"@ + p.id@ + "`"@);
        lemma_error_at_path(dup, path);
        lemma_errors_have_no_warnings(dup);
        lemma_definition_warnings(p);
        lemma_flat_map_take_succ(ps, credential_warning_fn(), k - 1);
        assert(provider_issues(ps, k).filter(is_warning()) =~= provider_issues(ps, k - 1).filter(
            is_warning(),
        ) + dup.filter(is_warning()) + defs.filter(is_warning()));
    }
}

/// The only warnings of remote-access validation are the credential advice,
/// one for each Joker dynamic DNS provider without a credential reference, in
/// provider order; every other issue is an error.
pub proof fn warnings_are_credential_advice(site: SiteConfig)
    ensures
        remote_access_issues(site).filter(is_warning()) == site.remote_access.providers@.flat_map(
            credential_warning_fn(),
        ),
        forall|i: int|
            0 <= i < remote_access_issues(site).len() ==> (#[trigger] remote_access_issues(site)[i]).severity
                == IssueSeverity::Error || remote_access_issues(site)[i].message
                == credential_advice(),
{
    broadcast use Seq::filter_distributes_over_add;

    let ra = site.remote_access;
    let ps = ra.providers@;
    let a = provider_issues(ps, ps.len() as int);
    let b = publications_issues(site, ra.publications@.len() as int);
    let c = wan_updates_issues(site, ra.wan_updates@.len() as int);
    lemma_provider_warnings(ps, ps.len() as int);
    assert(ps.take(ps.len() as int) =~= ps);
    lemma_publications_issues_under(site, ra.publications@.len() as int);
    lemma_wan_updates_issues_under(site, ra.wan_updates@.len() as int);
    lemma_errors_have_no_warnings(b);
    lemma_errors_have_no_warnings(c);
    assert(remote_access_issues(site) == a + b + c);
    assert(remote_access_issues(site).filter(is_warning()) =~= a.filter(is_warning()));
    let all = remote_access_issues(site);
    assert forall|i: int| 0 <= i < all.len() implies (#[trigger] all[i]).severity
        == IssueSeverity::Error || all[i].message == credential_advice() by {
        if all[i].severity != IssueSeverity::Error {
            assert(all[i].severity == IssueSeverity::Warning);
            all.lemma_filter_contains(is_warning(), i);
            let w = all.filter(is_warning());
            let j = choose|j: int| 0 <= j < w.len() && #[trigger] w[j] == all[i];
            lemma_flat_map_all(ps, credential_warning_fn(), advice_issue());
            assert(advice_issue()(w[j]));
        }
    }
}

/// The issue carries the credential advice.
pub open spec fn advice_issue() -> spec_fn(IssueView) -> bool {
    |i: IssueView| i.message == credential_advice()
}

proof fn lemma_records_upto_direct(
    ps: Seq<RemoteDnsProviderDef>,
    pubs: Seq<DesiredView>,
    wans: Seq<WanAddressUpdate>,
    k: int,
    j: int,
    i: int,
)
    requires
        0 <= j < k <= ps.len(),
        0 <= i < pubs.len(),
        pubs[i].provider == ps[j].id@,
        pubs[i].exposure_mode != ExposureMode::Tunnel,
        backend_of(ps[j].provider) == ProviderBackend::JokerDynDns || backend_of(ps[j].provider)
            == ProviderBackend::GenericDynDns,
    ensures
        records_upto(ps, pubs, wans, k).contains(publication_record(pubs[i])),
    decreases k,
{
    if j < k - 1 {
        lemma_records_upto_direct(ps, pubs, wans, k - 1, j, i);
        let p = ps[k - 1];
        let pp = pubs.filter(belongs_to(p.id@));
        let pw = wans.filter(update_belongs_to(p.id@));
        let mine = if pp.len() == 0 && pw.len() == 0 {
            Seq::empty()
        } else {
            planned_records(backend_of(p.provider), pp, pw)
        };
        lemma_concat_contains(records_upto(ps, pubs, wans, k - 1), mine, publication_record(pubs[i]));
    } else {
        let p = ps[j];
        let pp = pubs.filter(belongs_to(p.id@));
        let pw = wans.filter(update_belongs_to(p.id@));
        pubs.lemma_filter_contains(belongs_to(p.id@), i);
        let m = choose|m: int| 0 <= m < pp.len() && #[trigger] pp[m] == pubs[i];
        dynamic_records_serve_direct_publications(backend_of(p.provider), pp, pw);
        assert(pp[m].exposure_mode != ExposureMode::Tunnel);
        assert(publication_record(pubs[i]) == DnsRecordView {
            provider: pp[m].provider,
            name: pp[m].external_name,
            record_type: DesiredDnsRecordType::A,
            value_source: ValueSourceView::WanAddress,
            ttl: Some(300u32),
            purpose: DesiredDnsPurpose::ServicePublication,
        });
        lemma_concat_contains(
            records_upto(ps, pubs, wans, k - 1),
            planned_records(backend_of(p.provider), pp, pw),
            publication_record(pubs[i]),
        );
    }
}

/// In a plan, every publication that is not tunnelled and is published
/// through a dynamic DNS provider (Joker or generic) gets a
/// service-publication A record named by its external name, under that
/// provider, following the WAN address with a TTL of 300.
pub proof fn planned_direct_publications_get_records(site: SiteConfig, i: int, j: int)
    requires
        plan_of(site) is Ok,
        0 <= i < plan_of(site)->Ok_0.publications.len(),
        0 <= j < site.remote_access.providers@.len(),
        plan_of(site)->Ok_0.publications[i].provider == site.remote_access.providers@[j].id@,
        plan_of(site)->Ok_0.publications[i].exposure_mode != ExposureMode::Tunnel,
        site.remote_access.providers@[j].provider is JokerDynDns
            || site.remote_access.providers@[j].provider is GenericDynDns,
    ensures
        plan_of(site)->Ok_0.dns_records.contains(
            DnsRecordView {
                provider: site.remote_access.providers@[j].id@,
                name: plan_of(site)->Ok_0.publications[i].external_name,
                record_type: DesiredDnsRecordType::A,
                value_source: ValueSourceView::WanAddress,
                ttl: Some(300u32),
                purpose: DesiredDnsPurpose::ServicePublication,
            },
        ),
{
    let plan = plan_of(site)->Ok_0;
    let ps = site.remote_access.providers@;
    let wans = site.remote_access.wan_updates@.filter(is_enabled_update());
    lemma_records_upto_direct(ps, plan.publications, wans, ps.len() as int, j, i);
}

/// Dynamic DNS providers (Joker or generic) cannot publish through a
/// tunnel: an enabled tunnel publication through such a provider is reported
/// as an error at the published service, naming the provider, and planning
/// is refused.
pub proof fn dynamic_providers_refuse_tunnels(site: SiteConfig, k: int, pid: Seq<char>, j: int)
    requires
        0 <= k < site.remote_access.publications@.len(),
        site.remote_access.publications@[k].enabled,
        site.remote_access.publications@[k].exposure_mode == ExposureMode::Tunnel,
        provider_choice(site.remote_access.publications@[k]) == Some(pid),
        find_provider(site, pid) == Some(j),
        site.remote_access.providers@[j].provider is JokerDynDns
            || site.remote_access.providers@[j].provider is GenericDynDns,
    ensures
        remote_access_issues(site).contains(
            err(
                "remote_access.services."@ + target_service(
                    site.remote_access.publications@[k].target,
                ),
                "provider `"@ + site.remote_access.providers@[j].id@
                    + "` does not support tunnel publication mode"@,
            ),
        ),
        plan_of(site) is Err,
{
    let rules = site.remote_access.publications@;
    let rule = rules[k];
    let svc = target_service(rule.target);
    let path = "remote_access.services."@ + svc;
    let p = site.remote_access.providers@[j];
    let x = err(path, "provider `"@ + p.id@ + "` does not support tunnel publication mode"@);
    let caps = capabilities_of(backend_of(p.provider));
    assert(!caps.supports_tunnel);
    let f1 = issue_if(
        !caps.service_publication,
        err(path, "provider `"@ + p.id@ + "` does not support service publication"@),
    );
    let f2 = issue_if(rule.exposure_mode == ExposureMode::Tunnel && !caps.supports_tunnel, x);
    let f3 = issue_if(
        rule.exposure_mode != ExposureMode::Tunnel && !caps.supports_direct,
        err(path, "provider `"@ + p.id@ + "` does not support direct publication mode"@),
    );
    let f4 = issue_if(
        p.provider is ManagedSubdomain && opt_blank(rule.publish_as),
        err(path, "managed subdomain publications require `publish_as`"@),
    );
    assert(f2[0] == x);
    lemma_concat_contains(f1, f2, x);
    lemma_concat_contains(f1 + f2, f3, x);
    lemma_concat_contains(f1 + f2 + f3, f4, x);
    let fit = provider_fit_issues(p, rule, path);
    assert(fit == f1 + f2 + f3 + f4);
    let claimed = rules.take(k).flat_map(claimed_name_fn(site));
    let tail = match external_name_of(backend_of(p.provider), p, rule.publish_as) {
        None => seq![err(path, "enabled remote publication must resolve to an external hostname"@)],
        Some(n) => issue_if(
            claimed.contains(n),
            err(path, "duplicate external publication name `"@ + n + "`"@),
        ),
    };
    lemma_concat_contains(fit, tail, x);
    let part = provider_part(site, rule, path, claimed);
    assert(part == fit + tail);
    let head = issue_if(
        rules.take(k).flat_map(enabled_target_fn()).contains(svc),
        err(path, "conflicting publication definitions for `"@ + svc + "`"@),
    ) + issue_if(
        rule.target_port == 0,
        err(path, "enabled remote publication requires a non-zero target port"@),
    );
    lemma_concat_contains(head, part, x);
    let first = issue_if(
        !host_names(site).contains(svc),
        err(path, "unknown publication target service `"@ + svc + "`"@),
    );
    lemma_concat_contains(first, head + part, x);
    assert(publication_issues(site, k) == first + (head + part));
    lemma_publications_issues_kept(site, k, rules.len() as int, x);
    let ra = site.remote_access;
    let a = provider_issues(ra.providers@, ra.providers@.len() as int);
    let b = publications_issues(site, ra.publications@.len() as int);
    let c = wan_updates_issues(site, ra.wan_updates@.len() as int);
    lemma_concat_contains(a, b, x);
    lemma_concat_contains(a + b, c, x);
    let issues = remote_access_issues(site);
    let m = choose|m: int| 0 <= m < issues.len() && #[trigger] issues[m] == x;
    issues.lemma_filter_contains(is_error(), m);
}

} // verus!
