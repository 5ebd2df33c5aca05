//! Remote access: provider backends and the planner that checks publications
//! and WAN updates and derives the DNS records they need.
mod planner;
mod provider;

pub use provider::{
    provider_backend, ProviderBackend, ProviderCapabilities, RemoteAccessProvider, DesiredView,
    DnsRecordView, ResultView, ValueSourceView, backend_of, capabilities_of, definition_messages,
    external_name_of, planned_records, publication_count, apply_result, sync_result,
    remove_result, desired_views, record_views, result_views, publication_record, wan_record,
    direct_record_fn, belongs_to, opt_blank, option_blank, dynamic_records_serve_direct_publications,
    serves_publication, not_tunnelled,
};

pub use planner::{
    validate_remote_access, remote_access_issues, RemoteAccessError, find_provider,
    lookup_provider, provider_issues, publications_issues, wan_updates_issues,
    publication_issues, wan_update_issues, provider_choice, rule_external, severity_of,
    plan_remote_access, remote_access_status, plan_of, plan_outcome, status_of, status_outcome,
    PlanView, desired_of, desired_upto, target_address_of, stripped_address, records_upto,
    status_upto, host_index_from, interface_address_from, is_error, is_enabled_update, update_belongs_to, plan_view,
    plan_requires_valid_remote_access, status_follows_plan, duplicate_external_names_refused,
    planned_records_follow_wan_address, wan_a_record, remote_access_issues_under_section,
    under_remote_access, at_path, error_at, disabled_publication_adds_no_issue,
    same_remote_context, warnings_are_credential_advice, credential_warning_fn, credential_advice,
    is_warning, advice_issue, claimed_name_fn, enabled_target_fn, claimed_wan_fn, provider_part,
    provider_fit_issues, planned_direct_publications_get_records, dynamic_providers_refuse_tunnels,
};
