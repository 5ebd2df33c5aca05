//! Validation of a site: the issue types, the report, and the entry point
//! that gathers the issues of every rule set.
mod rules;

use vstd::prelude::*;

use crate::domain::SiteConfig;
use crate::remote_access::{remote_access_issues, validate_remote_access};
use crate::seqs::{lemma_filter_take_succ, lemma_filter_take_zero};
use crate::text::starts_with;

pub use rules::{
    issue_if, validate_site, site_rule_issues, unique_issues, network_names, host_names, zone_names,
    group_names, repeated_values_reported, unknown_network_reference_reported,
    unknown_proxy_backend_reported, repetitions_counted, site_rule_issues_are_errors,
    site_rules_silent_iff_consistent, site_consistent, interfaces_resolve, hosts_resolve,
    policies_resolve, ssids_resolve, access_points_resolve, forwards_resolve, proxies_resolve,
    host_network_resolves, host_interface_resolves, fresh_from, server_names_fn,
    server_name_issues, proxy_issues, name_issues, interface_fn, interface_ref_fn, host_fn,
    host_interface_fn, host_network_issues, policy_fn, ssid_fn, ssid_group_fn, ap_fn, forward_fn,
};

verus! {

/// One finding of validation.
#[derive(Debug, PartialEq, Eq)]
pub struct ValidationIssue {
    pub severity: IssueSeverity,
    pub path: String,
    pub message: String,
}

impl Clone for ValidationIssue {
    fn clone(&self) -> (r: Self)
        ensures
            r == *self,
    {
        ValidationIssue {
            severity: self.severity,
            path: self.path.clone(),
            message: self.message.clone(),
        }
    }
}

/// How serious an issue is.
#[derive(Debug, Clone, Copy, PartialEq, Eq, Structural)]
pub enum IssueSeverity {
    Error,
    Warning,
}

/// An issue as the specifications speak of it.
pub struct IssueView {
    pub severity: IssueSeverity,
    pub path: Seq<char>,
    pub message: Seq<char>,
}

impl View for ValidationIssue {
    type V = IssueView;

    open spec fn view(&self) -> IssueView {
        IssueView { severity: self.severity, path: self.path@, message: self.message@ }
    }
}

/// The views of a list of issues.
pub open spec fn issue_views(v: Seq<ValidationIssue>) -> Seq<IssueView> {
    v.map_values(|i: ValidationIssue| i@)
}

/// An issue of the given severity.
pub open spec fn issue_of(severity: IssueSeverity, path: Seq<char>, message: Seq<char>) -> IssueView {
    IssueView { severity, path, message }
}

/// An error issue.
pub open spec fn err(path: Seq<char>, message: Seq<char>) -> IssueView {
    issue_of(IssueSeverity::Error, path, message)
}

/// The list holds no error (warnings may remain).
pub open spec fn no_errors(issues: Seq<IssueView>) -> bool {
    forall|i: int| 0 <= i < issues.len() ==> (#[trigger] issues[i]).severity != IssueSeverity::Error
}

/// Builds an issue from its parts.
pub fn make_issue(severity: IssueSeverity, path: String, message: String) -> (r: ValidationIssue)
    ensures
        r@ == issue_of(severity, path@, message@),
{
    ValidationIssue { severity, path, message }
}

/// Builds an error issue.
pub fn make_error(path: String, message: String) -> (r: ValidationIssue)
    ensures
        r@ == err(path@, message@),
{
    make_issue(IssueSeverity::Error, path, message)
}

/// Appends `more` to `issues`, keeping the views in step.
pub fn append_issues(issues: &mut Vec<ValidationIssue>, more: Vec<ValidationIssue>)
    ensures
        issue_views(final(issues)@) == issue_views(old(issues)@) + issue_views(more@),
{
    let mut more = more;
    let ghost a = old(issues)@;
    let ghost b = more@;
    issues.append(&mut more);
    assert(issue_views(a + b) =~= issue_views(a) + issue_views(b));
}

/// The findings of validating a site.
#[derive(Debug, Clone, PartialEq, Eq, Default)]
pub struct ValidationReport {
    pub issues: Vec<ValidationIssue>,
}

/// The issue lies under the configuration path `prefix`.
pub open spec fn under_prefix(prefix: Seq<char>) -> spec_fn(IssueView) -> bool {
    |i: IssueView| prefix.is_prefix_of(i.path)
}

impl ValidationReport {
    /// The issues whose configuration path begins with `prefix`, in order.
    pub fn issues_under(&self, prefix: &str) -> (r: Vec<ValidationIssue>)
        ensures
            issue_views(r@) == issue_views(self.issues@).filter(under_prefix(prefix@)),
    {
        let ghost all = issue_views(self.issues@);
        let ghost p = under_prefix(prefix@);
        let mut r: Vec<ValidationIssue> = Vec::new();
        proof {
            lemma_filter_take_zero(all, p);
        }
        for k in 0..self.issues.len()
            invariant
                all == issue_views(self.issues@),
                p == under_prefix(prefix@),
                issue_views(r@) == all.take(k as int).filter(p),
        {
            proof {
                lemma_filter_take_succ(all, p, k as int);
            }
            let issue = &self.issues[k];
            if starts_with(issue.path.as_str(), prefix) {
                let ghost before = r@;
                r.push(issue.clone());
                assert(issue_views(r@) =~= issue_views(before).push(issue@));
            }
        }
        assert(all.take(all.len() as int) =~= all);
        r
    }

    /// A report is valid when none of its issues is an error.
    pub fn is_valid(&self) -> (r: bool)
        ensures
            r == no_errors(issue_views(self.issues@)),
    {
        let mut i: usize = 0;
        while i < self.issues.len()
            invariant
                i <= self.issues@.len(),
                forall|k: int| 0 <= k < i ==> (#[trigger] self.issues@[k]).severity != IssueSeverity::Error,
            decreases self.issues@.len() - i,
        {
            if self.issues[i].severity == IssueSeverity::Error {
                assert(issue_views(self.issues@)[i as int].severity == IssueSeverity::Error);
                return false;
            }
            i = i + 1;
        }
        assert forall|k: int| 0 <= k < issue_views(self.issues@).len() implies
            (#[trigger] issue_views(self.issues@)[k]).severity != IssueSeverity::Error by {
            assert(self.issues@[k].severity != IssueSeverity::Error);
        }
        true
    }
}

/// All the issues of a site: the site rules, then the remote-access rules.
pub open spec fn site_issues(site: SiteConfig) -> Seq<IssueView> {
    site_rule_issues(site) + remote_access_issues(site)
}

/// Validates a site against every rule set.
pub fn run_validation(site: &SiteConfig) -> (r: ValidationReport)
    ensures
        issue_views(r.issues@) == site_issues(*site),
{
    let mut issues = validate_site(site);
    let remote = validate_remote_access(site);
    append_issues(&mut issues, remote);
    ValidationReport { issues }
}

} // verus!
