//! The remote-access provider backends: what each kind of DNS provider
//! supports, how it checks its definition, names publications, plans DNS
//! records and reports its actions.
use vstd::prelude::*;

use crate::domain::{
    DesiredDnsPurpose, DesiredDnsRecord, DesiredDnsRecordType, DesiredDnsValueSource,
    DesiredPublication, ExposureMode, PublicationAudience, PublicationPlan, PublicationProtocol,
    PublicationResult, PublicationStatus, PublicationTarget, RemoteDnsProviderDef,
    RemoteDnsProviderKind, WanAddressUpdate,
};
use crate::seqs::{
    lemma_concat_contains, lemma_filter_take_succ, lemma_filter_take_zero, lemma_flat_map_contains,
    lemma_flat_map_take_succ, lemma_flat_map_take_zero,
};
use crate::text::{
    blank, concat2, concat3, decimal, decimal_string, has_char, is_blank, opt_str, trim, trimmed,
};

verus! {

/// What a provider backend can do.
#[derive(Debug, Clone, Copy, PartialEq, Eq, Structural)]
pub struct ProviderCapabilities {
    pub service_publication: bool,
    pub wan_address_sync: bool,
    pub supports_direct: bool,
    pub supports_tunnel: bool,
}

/// The backend that serves one kind of provider.
#[derive(Debug, Clone, Copy, PartialEq, Eq, Structural)]
pub enum ProviderBackend {
    ManagedSubdomain,
    JokerDynDns,
    GenericDynDns,
    Manual,
}

/// The operations every provider backend offers.
pub trait RemoteAccessProvider {
    fn kind_name(&self) -> &'static str;

    fn capabilities(&self) -> ProviderCapabilities;

    fn validate_definition(&self, provider: &RemoteDnsProviderDef) -> Vec<String>;

    fn resolve_external_name(
        &self,
        provider: &RemoteDnsProviderDef,
        publish_as: &Option<String>,
    ) -> Option<String>;

    fn plan_dns_records(
        &self,
        provider: &RemoteDnsProviderDef,
        publications: &Vec<DesiredPublication>,
        wan_updates: &Vec<WanAddressUpdate>,
    ) -> Vec<DesiredDnsRecord>;

    fn apply_publications(
        &self,
        provider: &RemoteDnsProviderDef,
        plan: &PublicationPlan,
    ) -> Vec<PublicationResult>;

    fn remove_publications(
        &self,
        provider: &RemoteDnsProviderDef,
        plan: &PublicationPlan,
    ) -> Vec<PublicationResult>;

    fn sync_wan_address(
        &self,
        provider: &RemoteDnsProviderDef,
        updates: &Vec<WanAddressUpdate>,
    ) -> Vec<PublicationResult>;
}

/// A desired publication as the specifications speak of it.
pub struct DesiredView {
    pub service: Seq<char>,
    pub provider: Seq<char>,
    pub external_name: Seq<char>,
    pub protocol: PublicationProtocol,
    pub target_port: u16,
    pub audience: PublicationAudience,
    pub exposure_mode: ExposureMode,
    pub target: PublicationTarget,
    pub target_address: Seq<char>,
}

impl View for DesiredPublication {
    type V = DesiredView;

    open spec fn view(&self) -> DesiredView {
        DesiredView {
            service: self.service@,
            provider: self.provider@,
            external_name: self.external_name@,
            protocol: self.protocol,
            target_port: self.target_port,
            audience: self.audience,
            exposure_mode: self.exposure_mode,
            target: self.target,
            target_address: self.target_address@,
        }
    }
}

/// The value a desired record takes, as the specifications speak of it.
pub enum ValueSourceView {
    WanAddress,
    Static(Seq<char>),
}

/// A desired DNS record as the specifications speak of it.
pub struct DnsRecordView {
    pub provider: Seq<char>,
    pub name: Seq<char>,
    pub record_type: DesiredDnsRecordType,
    pub value_source: ValueSourceView,
    pub ttl: Option<u32>,
    pub purpose: DesiredDnsPurpose,
}

impl View for DesiredDnsRecord {
    type V = DnsRecordView;

    open spec fn view(&self) -> DnsRecordView {
        DnsRecordView {
            provider: self.provider@,
            name: self.name@,
            record_type: self.record_type,
            value_source: match self.value_source {
                DesiredDnsValueSource::WanAddress => ValueSourceView::WanAddress,
                DesiredDnsValueSource::Static(s) => ValueSourceView::Static(s@),
            },
            ttl: self.ttl,
            purpose: self.purpose,
        }
    }
}

/// A provider action result as the specifications speak of it.
pub struct ResultView {
    pub provider: Seq<char>,
    pub action: Seq<char>,
    pub status: PublicationStatus,
    pub message: Seq<char>,
}

impl View for PublicationResult {
    type V = ResultView;

    open spec fn view(&self) -> ResultView {
        ResultView {
            provider: self.provider@,
            action: self.action@,
            status: self.status,
            message: self.message@,
        }
    }
}

/// The views of a list of desired publications.
pub open spec fn desired_views(v: Seq<DesiredPublication>) -> Seq<DesiredView> {
    v.map_values(|p: DesiredPublication| p@)
}

/// The views of a list of desired records.
pub open spec fn record_views(v: Seq<DesiredDnsRecord>) -> Seq<DnsRecordView> {
    v.map_values(|r: DesiredDnsRecord| r@)
}

/// The views of a list of results.
pub open spec fn result_views(v: Seq<PublicationResult>) -> Seq<ResultView> {
    v.map_values(|r: PublicationResult| r@)
}

/// The backend that serves a provider kind.
pub open spec fn backend_of(kind: RemoteDnsProviderKind) -> ProviderBackend {
    match kind {
        RemoteDnsProviderKind::ManagedSubdomain(_) => ProviderBackend::ManagedSubdomain,
        RemoteDnsProviderKind::JokerDynDns(_) => ProviderBackend::JokerDynDns,
        RemoteDnsProviderKind::GenericDynDns(_) => ProviderBackend::GenericDynDns,
        RemoteDnsProviderKind::Manual(_) => ProviderBackend::Manual,
    }
}

/// What each backend supports.
pub open spec fn capabilities_of(b: ProviderBackend) -> ProviderCapabilities {
    match b {
        ProviderBackend::ManagedSubdomain => ProviderCapabilities {
            service_publication: true,
            wan_address_sync: false,
            supports_direct: true,
            supports_tunnel: true,
        },
        ProviderBackend::JokerDynDns => ProviderCapabilities {
            service_publication: true,
            wan_address_sync: true,
            supports_direct: true,
            supports_tunnel: false,
        },
        ProviderBackend::GenericDynDns => ProviderCapabilities {
            service_publication: true,
            wan_address_sync: true,
            supports_direct: true,
            supports_tunnel: false,
        },
        ProviderBackend::Manual => ProviderCapabilities {
            service_publication: true,
            wan_address_sync: true,
            supports_direct: true,
            supports_tunnel: true,
        },
    }
}

/// An optional setting that is absent or blank.
pub open spec fn opt_blank(o: Option<String>) -> bool {
    match o {
        Some(s) => is_blank(s@),
        None => true,
    }
}

/// The findings on a dynamic DNS provider's definition.
pub open spec fn dynamic_messages(provider: RemoteDnsProviderDef, require_service_name: bool) -> Seq<Seq<char>> {
    match provider.provider {
        RemoteDnsProviderKind::JokerDynDns(def) => (if require_service_name && opt_blank(def.service) {
            seq!["joker_dyndns providers require `service`"@]
        } else {
            Seq::empty()
        }) + (if opt_blank(provider.credential_ref) {
            seq!["dynamic DNS providers should set `credential_ref`"@]
        } else {
            Seq::empty()
        }),
        RemoteDnsProviderKind::GenericDynDns(def) => if opt_blank(def.update_url) {
            seq!["generic_dyndns providers require `update_url`"@]
        } else {
            Seq::empty()
        },
        _ => seq!["provider kind mismatch for dynamic DNS backend"@],
    }
}

/// The findings of a backend on a provider's definition.
pub open spec fn definition_messages(b: ProviderBackend, provider: RemoteDnsProviderDef) -> Seq<Seq<char>> {
    match b {
        ProviderBackend::ManagedSubdomain => match provider.provider {
            RemoteDnsProviderKind::ManagedSubdomain(def) => if is_blank(def.zone@) {
                seq!["managed_subdomain providers require `zone`"@]
            } else {
                Seq::empty()
            },
            _ => seq!["provider kind mismatch for managed_subdomain backend"@],
        },
        ProviderBackend::JokerDynDns => dynamic_messages(provider, true),
        ProviderBackend::GenericDynDns => dynamic_messages(provider, false),
        ProviderBackend::Manual => Seq::empty(),
    }
}

/// The external name of a publication under a domain: a dotted name stands
/// as it is, a bare label goes under the domain when there is one.
pub open spec fn name_under(publish_as: Option<String>, domain: Option<Seq<char>>) -> Option<Seq<char>> {
    match publish_as {
        None => None,
        Some(p) => {
            let t = trimmed(p@);
            if t.len() == 0 {
                None
            } else if t.contains('.') {
                Some(t)
            } else {
                match domain {
                    Some(d) => Some(t + "."@ + d),
                    None => None,
                }
            }
        },
    }
}

/// The external name a dynamic DNS provider gives a publication: a dotted
/// name stands as it is, otherwise the provider's own hostname.
pub open spec fn dynamic_name(provider: RemoteDnsProviderDef, publish_as: Option<String>) -> Option<Seq<char>> {
    let given = match publish_as {
        Some(p) => if trimmed(p@).len() > 0 {
            Some(trimmed(p@))
        } else {
            None
        },
        None => None,
    };
    if given is Some && given->0.contains('.') {
        given
    } else {
        match provider.provider {
            RemoteDnsProviderKind::JokerDynDns(def) => if is_blank(def.hostname@) {
                None
            } else {
                Some(def.hostname@)
            },
            RemoteDnsProviderKind::GenericDynDns(def) => if is_blank(def.hostname@) {
                None
            } else {
                Some(def.hostname@)
            },
            _ => None,
        }
    }
}

/// The external name a backend gives a publication.
pub open spec fn external_name_of(b: ProviderBackend, provider: RemoteDnsProviderDef, publish_as: Option<String>) -> Option<Seq<char>> {
    match b {
        ProviderBackend::ManagedSubdomain => name_under(
            publish_as,
            match provider.provider {
                RemoteDnsProviderKind::ManagedSubdomain(def) => if is_blank(def.zone@) {
                    None
                } else {
                    Some(def.zone@)
                },
                _ => None,
            },
        ),
        ProviderBackend::Manual => name_under(
            publish_as,
            match provider.provider {
                RemoteDnsProviderKind::Manual(def) => match def.base_domain {
                    Some(d) => if is_blank(d@) {
                        None
                    } else {
                        Some(d@)
                    },
                    None => None,
                },
                _ => None,
            },
        ),
        _ => dynamic_name(provider, publish_as),
    }
}

/// The record that points a publication's name at the WAN address.
pub open spec fn publication_record(p: DesiredView) -> DnsRecordView {
    DnsRecordView {
        provider: p.provider,
        name: p.external_name,
        record_type: DesiredDnsRecordType::A,
        value_source: ValueSourceView::WanAddress,
        ttl: Some(300),
        purpose: DesiredDnsPurpose::ServicePublication,
    }
}

/// The record that keeps a WAN hostname pointed at the WAN address.
pub open spec fn wan_record(u: WanAddressUpdate) -> DnsRecordView {
    DnsRecordView {
        provider: u.provider@,
        name: u.hostname@,
        record_type: DesiredDnsRecordType::A,
        value_source: ValueSourceView::WanAddress,
        ttl: Some(300),
        purpose: DesiredDnsPurpose::WanSync,
    }
}

/// A record for each publication that is not tunnelled.
pub open spec fn direct_record_fn() -> spec_fn(DesiredView) -> Seq<DnsRecordView> {
    |p: DesiredView|
        if p.exposure_mode != ExposureMode::Tunnel {
            seq![publication_record(p)]
        } else {
            Seq::empty()
        }
}

/// The records a backend plans for its publications and WAN updates.
pub open spec fn planned_records(b: ProviderBackend, pubs: Seq<DesiredView>, wans: Seq<WanAddressUpdate>) -> Seq<DnsRecordView> {
    match b {
        ProviderBackend::ManagedSubdomain => pubs.map_values(|p: DesiredView| publication_record(p)),
        _ => pubs.flat_map(direct_record_fn()) + wans.map_values(|u: WanAddressUpdate| wan_record(u)),
    }
}

/// The publications that belong to the provider `id`.
pub open spec fn belongs_to(id: Seq<char>) -> spec_fn(DesiredView) -> bool {
    |p: DesiredView| p.provider == id
}

/// How many publications belong to the provider `id`.
pub open spec fn publication_count(pubs: Seq<DesiredView>, id: Seq<char>) -> nat {
    pubs.filter(belongs_to(id)).len()
}

/// The result of asking a backend to apply a plan's publications.
pub open spec fn apply_result(b: ProviderBackend, id: Seq<char>, count: nat) -> ResultView {
    ResultView {
        provider: id,
        action: "apply_publications"@,
        status: match b {
            ProviderBackend::JokerDynDns => PublicationStatus::Planned,
            ProviderBackend::GenericDynDns => PublicationStatus::Planned,
            _ => PublicationStatus::NotImplemented,
        },
        message: match b {
            ProviderBackend::ManagedSubdomain => decimal(count)
                + " planned publication(s) for managed subdomain provider `"@ + id + "`"@,
            ProviderBackend::JokerDynDns => "dynamic DNS provider `"@ + id + "` would publish "@
                + decimal(count) + " direct-service record(s)"@,
            ProviderBackend::GenericDynDns => "generic dynamic DNS provider `"@ + id
                + "` would publish "@ + decimal(count) + " direct-service record(s)"@,
            ProviderBackend::Manual => "manual provider `"@ + id
                + "` requires manual publication of "@ + decimal(count) + " record(s)"@,
        },
    }
}

/// The result of asking a backend to remove its publications.
pub open spec fn remove_result(b: ProviderBackend, id: Seq<char>) -> ResultView {
    ResultView {
        provider: id,
        action: "remove_publications"@,
        status: PublicationStatus::NotImplemented,
        message: match b {
            ProviderBackend::ManagedSubdomain => "publication removal is not implemented yet"@,
            ProviderBackend::Manual => "manual provider cleanup is not implemented yet"@,
            _ => "dynamic DNS publication removal is not implemented yet"@,
        },
    }
}

/// The result of asking a backend to synchronize `count` WAN hostnames.
pub open spec fn sync_result(b: ProviderBackend, id: Seq<char>, count: nat) -> ResultView {
    ResultView {
        provider: id,
        action: "sync_wan_address"@,
        status: match b {
            ProviderBackend::JokerDynDns => PublicationStatus::Planned,
            ProviderBackend::GenericDynDns => PublicationStatus::Planned,
            _ => PublicationStatus::NotImplemented,
        },
        message: match b {
            ProviderBackend::ManagedSubdomain => "managed subdomain providers do not support WAN sync in this stage"@,
            ProviderBackend::JokerDynDns => "dynamic DNS provider `"@ + id + "` would synchronize "@
                + decimal(count) + " WAN hostname(s)"@,
            ProviderBackend::GenericDynDns => "generic dynamic DNS provider `"@ + id
                + "` would synchronize "@ + decimal(count) + " WAN hostname(s)"@,
            ProviderBackend::Manual => "manual provider `"@ + id
                + "` requires manual WAN sync for "@ + decimal(count) + " hostname(s)"@,
        },
    }
}

/// The backend that serves a provider kind.
pub fn provider_backend(kind: &RemoteDnsProviderKind) -> (r: ProviderBackend)
    ensures
        r == backend_of(*kind),
{
    match kind {
        RemoteDnsProviderKind::ManagedSubdomain(_) => ProviderBackend::ManagedSubdomain,
        RemoteDnsProviderKind::JokerDynDns(_) => ProviderBackend::JokerDynDns,
        RemoteDnsProviderKind::GenericDynDns(_) => ProviderBackend::GenericDynDns,
        RemoteDnsProviderKind::Manual(_) => ProviderBackend::Manual,
    }
}

/// Whether an optional setting is absent or blank.
pub fn option_blank(o: &Option<String>) -> (r: bool)
    ensures
        r == opt_blank(*o),
{
    match o {
        Some(s) => blank(s.as_str()),
        None => true,
    }
}

fn validate_dynamic_provider(provider: &RemoteDnsProviderDef, require_service_name: bool) -> (r: Vec<String>)
    ensures
        r@.map_values(|s: String| s@) == dynamic_messages(*provider, require_service_name),
{
    let mut issues: Vec<String> = Vec::new();
    match &provider.provider {
        RemoteDnsProviderKind::JokerDynDns(def) => {
            if require_service_name && option_blank(&def.service) {
                issues.push(String::from_str("joker_dyndns providers require `service`"));
            }
            if option_blank(&provider.credential_ref) {
                issues.push(String::from_str("dynamic DNS providers should set `credential_ref`"));
            }
        },
        RemoteDnsProviderKind::GenericDynDns(def) => {
            if option_blank(&def.update_url) {
                issues.push(String::from_str("generic_dyndns providers require `update_url`"));
            }
        },
        _ => {
            issues.push(String::from_str("provider kind mismatch for dynamic DNS backend"));
        },
    }
    assert(issues@.map_values(|s: String| s@) =~= dynamic_messages(*provider, require_service_name));
    issues
}

/// A bare label under a domain, or a dotted name as it is.
fn name_under_exec(publish_as: &Option<String>, domain: Option<&String>) -> (r: Option<String>)
    ensures
        opt_str(r) == name_under(
            *publish_as,
            match domain {
                Some(d) => Some(d@),
                None => None,
            },
        ),
{
    match publish_as {
        None => None,
        Some(p) => {
            let t = trim(p.as_str());
            if t.unicode_len() == 0 {
                None
            } else if has_char(t.as_str(), '.') {
                Some(t)
            } else {
                match domain {
                    Some(d) => Some(concat3(t.as_str(), ".", d.as_str())),
                    None => None,
                }
            }
        },
    }
}

fn resolve_dynamic_external_name(provider: &RemoteDnsProviderDef, publish_as: &Option<String>) -> (r: Option<String>)
    ensures
        opt_str(r) == dynamic_name(*provider, *publish_as),
{
    let given = match publish_as {
        Some(p) => {
            let t = trim(p.as_str());
            if t.unicode_len() > 0 {
                Some(t)
            } else {
                None
            }
        },
        None => None,
    };
    match given {
        Some(name) => {
            if has_char(name.as_str(), '.') {
                return Some(name);
            }
        },
        None => {},
    }
    match &provider.provider {
        RemoteDnsProviderKind::JokerDynDns(def) => {
            if blank(def.hostname.as_str()) {
                None
            } else {
                Some(def.hostname.clone())
            }
        },
        RemoteDnsProviderKind::GenericDynDns(def) => {
            if blank(def.hostname.as_str()) {
                None
            } else {
                Some(def.hostname.clone())
            }
        },
        _ => None,
    }
}

fn make_publication_record(p: &DesiredPublication) -> (r: DesiredDnsRecord)
    ensures
        r@ == publication_record(p@),
{
    DesiredDnsRecord {
        provider: p.provider.clone(),
        name: p.external_name.clone(),
        record_type: DesiredDnsRecordType::A,
        value_source: DesiredDnsValueSource::WanAddress,
        ttl: Some(300),
        purpose: DesiredDnsPurpose::ServicePublication,
    }
}

fn make_wan_record(u: &WanAddressUpdate) -> (r: DesiredDnsRecord)
    ensures
        r@ == wan_record(*u),
{
    DesiredDnsRecord {
        provider: u.provider.clone(),
        name: u.hostname.clone(),
        record_type: DesiredDnsRecordType::A,
        value_source: DesiredDnsValueSource::WanAddress,
        ttl: Some(300),
        purpose: DesiredDnsPurpose::WanSync,
    }
}

fn push_record(records: &mut Vec<DesiredDnsRecord>, r: DesiredDnsRecord)
    ensures
        record_views(final(records)@) == record_views(old(records)@).push(r@),
{
    let ghost before = old(records)@;
    records.push(r);
    assert(record_views(records@) =~= record_views(before).push(r@));
}

fn managed_records(publications: &Vec<DesiredPublication>) -> (r: Vec<DesiredDnsRecord>)
    ensures
        record_views(r@) == desired_views(publications@).map_values(
            |p: DesiredView| publication_record(p),
        ),
{
    let ghost pv = desired_views(publications@);
    let mut records: Vec<DesiredDnsRecord> = Vec::new();
    for i in 0..publications.len()
        invariant
            pv == desired_views(publications@),
            record_views(records@) == pv.take(i as int).map_values(
                |p: DesiredView| publication_record(p),
            ),
    {
        push_record(&mut records, make_publication_record(&publications[i]));
        assert(pv.take(i + 1).map_values(|p: DesiredView| publication_record(p)) =~= pv.take(
            i as int,
        ).map_values(|p: DesiredView| publication_record(p)).push(publication_record(pv[i as int])));
    }
    assert(pv.take(publications@.len() as int) =~= pv);
    records
}

fn dynamic_dns_records(publications: &Vec<DesiredPublication>, wan_updates: &Vec<WanAddressUpdate>) -> (r: Vec<DesiredDnsRecord>)
    ensures
        record_views(r@) == desired_views(publications@).flat_map(direct_record_fn())
            + wan_updates@.map_values(|u: WanAddressUpdate| wan_record(u)),
{
    let ghost pv = desired_views(publications@);
    let ghost f = direct_record_fn();
    let mut records: Vec<DesiredDnsRecord> = Vec::new();
    proof {
        crate::seqs::lemma_flat_map_take_zero(pv, f);
    }
    for i in 0..publications.len()
        invariant
            pv == desired_views(publications@),
            f == direct_record_fn(),
            record_views(records@) == pv.take(i as int).flat_map(f),
    {
        let p = &publications[i];
        proof {
            crate::seqs::lemma_flat_map_take_succ(pv, f, i as int);
        }
        if p.exposure_mode != ExposureMode::Tunnel {
            push_record(&mut records, make_publication_record(p));
            assert(record_views(records@) =~= pv.take(i as int).flat_map(f) + seq![
                publication_record(p@),
            ]);
        } else {
            assert(f(pv[i as int]) =~= Seq::<DnsRecordView>::empty());
            assert(record_views(records@) =~= pv.take(i + 1).flat_map(f));
        }
    }
    proof {
        crate::seqs::lemma_flat_map_take_all(pv, f);
    }
    let ghost head = record_views(records@);
    for j in 0..wan_updates.len()
        invariant
            record_views(records@) == head + wan_updates@.take(j as int).map_values(
                |u: WanAddressUpdate| wan_record(u),
            ),
    {
        push_record(&mut records, make_wan_record(&wan_updates[j]));
        assert(wan_updates@.take(j + 1).map_values(|u: WanAddressUpdate| wan_record(u))
            =~= wan_updates@.take(j as int).map_values(|u: WanAddressUpdate| wan_record(u)).push(
            wan_record(wan_updates@[j as int]),
        ));
    }
    assert(wan_updates@.take(wan_updates@.len() as int) =~= wan_updates@);
    records
}

/// How many publications belong to the provider with the given id.
fn count_for_provider(publications: &Vec<DesiredPublication>, id: &String) -> (r: usize)
    ensures
        r == publication_count(desired_views(publications@), id@),
{
    let ghost p = belongs_to(id@);
    let ghost pv = desired_views(publications@);
    let mut count: usize = 0;
    proof {
        lemma_filter_take_zero(pv, p);
    }
    for i in 0..publications.len()
        invariant
            p == belongs_to(id@),
            pv == desired_views(publications@),
            count == pv.take(i as int).filter(p).len(),
            count <= i,
    {
        proof {
            lemma_filter_take_succ(pv, p, i as int);
        }
        if publications[i].provider == *id {
            count = count + 1;
        }
    }
    assert(pv.take(publications@.len() as int) =~= pv);
    count
}

fn make_result(provider: &String, action: &str, status: PublicationStatus, message: String) -> (r: PublicationResult)
    ensures
        r@ == (ResultView { provider: provider@, action: action@, status, message: message@ }),
{
    PublicationResult { provider: provider.clone(), action: String::from_str(action), status, message }
}

fn one_result(r: PublicationResult) -> (v: Vec<PublicationResult>)
    ensures
        result_views(v@) == seq![r@],
{
    let mut v: Vec<PublicationResult> = Vec::new();
    v.push(r);
    assert(result_views(v@) =~= seq![r@]);
    v
}

impl RemoteAccessProvider for ProviderBackend {
    /// The name of the backend's kind.
    fn kind_name(&self) -> (r: &'static str)
        ensures
            r@ == match *self {
                ProviderBackend::ManagedSubdomain => "managed_subdomain"@,
                ProviderBackend::JokerDynDns => "joker_dyndns"@,
                ProviderBackend::GenericDynDns => "generic_dyndns"@,
                ProviderBackend::Manual => "manual"@,
            },
    {
        match self {
            ProviderBackend::ManagedSubdomain => "managed_subdomain",
            ProviderBackend::JokerDynDns => "joker_dyndns",
            ProviderBackend::GenericDynDns => "generic_dyndns",
            ProviderBackend::Manual => "manual",
        }
    }

    /// What the backend supports.
    fn capabilities(&self) -> (r: ProviderCapabilities)
        ensures
            r == capabilities_of(*self),
    {
        match self {
            ProviderBackend::ManagedSubdomain => ProviderCapabilities {
                service_publication: true,
                wan_address_sync: false,
                supports_direct: true,
                supports_tunnel: true,
            },
            ProviderBackend::JokerDynDns => ProviderCapabilities {
                service_publication: true,
                wan_address_sync: true,
                supports_direct: true,
                supports_tunnel: false,
            },
            ProviderBackend::GenericDynDns => ProviderCapabilities {
                service_publication: true,
                wan_address_sync: true,
                supports_direct: true,
                supports_tunnel: false,
            },
            ProviderBackend::Manual => ProviderCapabilities {
                service_publication: true,
                wan_address_sync: true,
                supports_direct: true,
                supports_tunnel: true,
            },
        }
    }

    /// The backend's findings on a provider definition.
    fn validate_definition(&self, provider: &RemoteDnsProviderDef) -> (r: Vec<String>)
        ensures
            r@.map_values(|s: String| s@) == definition_messages(*self, *provider),
    {
        match self {
            ProviderBackend::ManagedSubdomain => {
                let mut issues: Vec<String> = Vec::new();
                match &provider.provider {
                    RemoteDnsProviderKind::ManagedSubdomain(def) => {
                        if blank(def.zone.as_str()) {
                            issues.push(String::from_str("managed_subdomain providers require `zone`"));
                        }
                    },
                    _ => {
                        issues.push(
                            String::from_str("provider kind mismatch for managed_subdomain backend"),
                        );
                    },
                }
                assert(issues@.map_values(|s: String| s@) =~= definition_messages(*self, *provider));
                issues
            },
            ProviderBackend::JokerDynDns => validate_dynamic_provider(provider, true),
            ProviderBackend::GenericDynDns => validate_dynamic_provider(provider, false),
            ProviderBackend::Manual => {
                let issues: Vec<String> = Vec::new();
                assert(issues@.map_values(|s: String| s@) =~= Seq::<Seq<char>>::empty());
                issues
            },
        }
    }

    /// The external name the backend gives a publication.
    fn resolve_external_name(&self, provider: &RemoteDnsProviderDef, publish_as: &Option<String>) -> (r: Option<String>)
        ensures
            opt_str(r) == external_name_of(*self, *provider, *publish_as),
    {
        match self {
            ProviderBackend::ManagedSubdomain => {
                let domain = match &provider.provider {
                    RemoteDnsProviderKind::ManagedSubdomain(def) => {
                        if blank(def.zone.as_str()) {
                            None
                        } else {
                            Some(&def.zone)
                        }
                    },
                    _ => None,
                };
                name_under_exec(publish_as, domain)
            },
            ProviderBackend::Manual => {
                let domain = match &provider.provider {
                    RemoteDnsProviderKind::Manual(def) => match &def.base_domain {
                        Some(d) => {
                            if blank(d.as_str()) {
                                None
                            } else {
                                Some(d)
                            }
                        },
                        None => None,
                    },
                    _ => None,
                };
                name_under_exec(publish_as, domain)
            },
            _ => resolve_dynamic_external_name(provider, publish_as),
        }
    }

    /// The DNS records the backend plans for its publications and WAN updates.
    fn plan_dns_records(
        &self,
        provider: &RemoteDnsProviderDef,
        publications: &Vec<DesiredPublication>,
        wan_updates: &Vec<WanAddressUpdate>,
    ) -> (r: Vec<DesiredDnsRecord>)
        ensures
            record_views(r@) == planned_records(*self, desired_views(publications@), wan_updates@),
    {
        match self {
            ProviderBackend::ManagedSubdomain => managed_records(publications),
            _ => dynamic_dns_records(publications, wan_updates),
        }
    }

    /// What applying the plan's publications of this provider does.
    fn apply_publications(&self, provider: &RemoteDnsProviderDef, plan: &PublicationPlan) -> (r: Vec<PublicationResult>)
        ensures
            result_views(r@) == seq![
                apply_result(
                    *self,
                    provider.id@,
                    publication_count(desired_views(plan.publications@), provider.id@),
                ),
            ],
    {
        let count = count_for_provider(&plan.publications, &provider.id);
        let n = decimal_string(count as u64);
        let id = provider.id.as_str();
        let (status, message) = match self {
            ProviderBackend::ManagedSubdomain => {
                let mut m = concat2(n.as_str(), " planned publication(s) for managed subdomain provider `");
                m.append(id);
                m.append("`");
                (PublicationStatus::NotImplemented, m)
            },
            ProviderBackend::JokerDynDns => {
                let mut m = concat3("dynamic DNS provider `", id, "` would publish ");
                m.append(n.as_str());
                m.append(" direct-service record(s)");
                (PublicationStatus::Planned, m)
            },
            ProviderBackend::GenericDynDns => {
                let mut m = concat3("generic dynamic DNS provider `", id, "` would publish ");
                m.append(n.as_str());
                m.append(" direct-service record(s)");
                (PublicationStatus::Planned, m)
            },
            ProviderBackend::Manual => {
                let mut m = concat3("manual provider `", id, "` requires manual publication of ");
                m.append(n.as_str());
                m.append(" record(s)");
                (PublicationStatus::NotImplemented, m)
            },
        };
        one_result(make_result(&provider.id, "apply_publications", status, message))
    }

    /// What removing this provider's publications does.
    fn remove_publications(&self, provider: &RemoteDnsProviderDef, plan: &PublicationPlan) -> (r: Vec<PublicationResult>)
        ensures
            result_views(r@) == seq![remove_result(*self, provider.id@)],
    {
        let message = match self {
            ProviderBackend::ManagedSubdomain => String::from_str("publication removal is not implemented yet"),
            ProviderBackend::Manual => String::from_str("manual provider cleanup is not implemented yet"),
            _ => String::from_str("dynamic DNS publication removal is not implemented yet"),
        };
        one_result(
            make_result(&provider.id, "remove_publications", PublicationStatus::NotImplemented, message),
        )
    }

    /// What synchronizing these WAN hostnames through this provider does.
    fn sync_wan_address(&self, provider: &RemoteDnsProviderDef, updates: &Vec<WanAddressUpdate>) -> (r: Vec<PublicationResult>)
        ensures
            result_views(r@) == seq![sync_result(*self, provider.id@, updates@.len())],
    {
        let n = decimal_string(updates.len() as u64);
        let id = provider.id.as_str();
        let (status, message) = match self {
            ProviderBackend::ManagedSubdomain => (
                PublicationStatus::NotImplemented,
                String::from_str("managed subdomain providers do not support WAN sync in this stage"),
            ),
            ProviderBackend::JokerDynDns => {
                let mut m = concat3("dynamic DNS provider `", id, "` would synchronize ");
                m.append(n.as_str());
                m.append(" WAN hostname(s)");
                (PublicationStatus::Planned, m)
            },
            ProviderBackend::GenericDynDns => {
                let mut m = concat3("generic dynamic DNS provider `", id, "` would synchronize ");
                m.append(n.as_str());
                m.append(" WAN hostname(s)");
                (PublicationStatus::Planned, m)
            },
            ProviderBackend::Manual => {
                let mut m = concat3("manual provider `", id, "` requires manual WAN sync for ");
                m.append(n.as_str());
                m.append(" hostname(s)");
                (PublicationStatus::NotImplemented, m)
            },
        };
        one_result(make_result(&provider.id, "sync_wan_address", status, message))
    }
}

/// The record serves a publication.
pub open spec fn serves_publication() -> spec_fn(DnsRecordView) -> bool {
    |r: DnsRecordView| r.purpose == DesiredDnsPurpose::ServicePublication
}

/// The publication is not tunnelled.
pub open spec fn not_tunnelled() -> spec_fn(DesiredView) -> bool {
    |p: DesiredView| p.exposure_mode != ExposureMode::Tunnel
}

proof fn lemma_direct_records(pubs: Seq<DesiredView>, k: int)
    requires
        0 <= k <= pubs.len(),
    ensures
        pubs.take(k).flat_map(direct_record_fn()).len() == pubs.take(k).filter(not_tunnelled()).len(),
        forall|j: int|
            0 <= j < pubs.take(k).flat_map(direct_record_fn()).len() ==> {
                let r = #[trigger] pubs.take(k).flat_map(direct_record_fn())[j];
                &&& r.purpose == DesiredDnsPurpose::ServicePublication
                &&& exists|i: int|
                    0 <= i < pubs.len() && pubs[i].exposure_mode != ExposureMode::Tunnel
                        && r.name == #[trigger] pubs[i].external_name
            },
    decreases k,
{
    if k == 0 {
        lemma_flat_map_take_zero(pubs, direct_record_fn());
        lemma_filter_take_zero(pubs, not_tunnelled());
    } else {
        lemma_direct_records(pubs, k - 1);
        lemma_flat_map_take_succ(pubs, direct_record_fn(), k - 1);
        lemma_filter_take_succ(pubs, not_tunnelled(), k - 1);
        let prev = pubs.take(k - 1).flat_map(direct_record_fn());
        let cur = pubs.take(k).flat_map(direct_record_fn());
        let mine = direct_record_fn()(pubs[k - 1]);
        assert(cur == prev + mine);
        assert forall|j: int| 0 <= j < cur.len() implies {
            let r = #[trigger] cur[j];
            &&& r.purpose == DesiredDnsPurpose::ServicePublication
            &&& exists|i: int|
                0 <= i < pubs.len() && pubs[i].exposure_mode != ExposureMode::Tunnel
                    && r.name == #[trigger] pubs[i].external_name
        } by {
            if j < prev.len() {
                assert(cur[j] == prev[j]);
            } else {
                assert(cur[j] == mine[j - prev.len()]);
                assert(pubs[k - 1].external_name == cur[j].name);
            }
        }
    }
}

proof fn lemma_no_service_records(wans: Seq<WanAddressUpdate>)
    ensures
        wans.map_values(|u: WanAddressUpdate| wan_record(u)).filter(serves_publication()).len() == 0,
{
    let w = wans.map_values(|u: WanAddressUpdate| wan_record(u));
    assert(w.all(|r: DnsRecordView| !serves_publication()(r)));
    w.lemma_all_neg_filter_empty(serves_publication());
}

proof fn lemma_all_serve(s: Seq<DnsRecordView>)
    requires
        forall|j: int| 0 <= j < s.len() ==> (#[trigger] s[j]).purpose == DesiredDnsPurpose::ServicePublication,
    ensures
        s.filter(serves_publication()) == s,
    decreases s.len(),
{
    reveal(Seq::filter);
    if s.len() > 0 {
        assert forall|j: int| 0 <= j < s.drop_last().len() implies (#[trigger] s.drop_last()[j]).purpose
            == DesiredDnsPurpose::ServicePublication by {
            assert(s[j].purpose == DesiredDnsPurpose::ServicePublication);
        }
        lemma_all_serve(s.drop_last());
        assert(s[s.len() - 1].purpose == DesiredDnsPurpose::ServicePublication);
        assert(s.drop_last().push(s.last()) =~= s);
    } else {
        assert(s.filter(serves_publication()) =~= s);
    }
}

/// For a dynamic DNS backend (Joker or generic), every publication that is
/// not tunnelled gets a service-publication A record named by its external
/// name, under its provider, following the WAN address with a TTL of 300;
/// every service-publication record is one of these, and there are exactly as
/// many as there are publications that are not tunnelled: a tunnelled
/// publication gets none.
pub proof fn dynamic_records_serve_direct_publications(
    b: ProviderBackend,
    pubs: Seq<DesiredView>,
    wans: Seq<WanAddressUpdate>,
)
    requires
        b == ProviderBackend::JokerDynDns || b == ProviderBackend::GenericDynDns,
    ensures
        forall|i: int|
            0 <= i < pubs.len() && pubs[i].exposure_mode != ExposureMode::Tunnel ==> planned_records(
                b,
                pubs,
                wans,
            ).contains(
                DnsRecordView {
                    provider: pubs[i].provider,
                    name: pubs[i].external_name,
                    record_type: DesiredDnsRecordType::A,
                    value_source: ValueSourceView::WanAddress,
                    ttl: Some(300u32),
                    purpose: DesiredDnsPurpose::ServicePublication,
                },
            ),
        forall|r: DnsRecordView|
            planned_records(b, pubs, wans).contains(r) && r.purpose
                == DesiredDnsPurpose::ServicePublication ==> exists|i: int|
                0 <= i < pubs.len() && pubs[i].exposure_mode != ExposureMode::Tunnel && r.name
                    == #[trigger] pubs[i].external_name,
        planned_records(b, pubs, wans).filter(serves_publication()).len() == pubs.filter(
            not_tunnelled(),
        ).len(),
{
    broadcast use Seq::filter_distributes_over_add;

    let direct = pubs.flat_map(direct_record_fn());
    let w = wans.map_values(|u: WanAddressUpdate| wan_record(u));
    assert(planned_records(b, pubs, wans) == direct + w);
    lemma_direct_records(pubs, pubs.len() as int);
    assert(pubs.take(pubs.len() as int) =~= pubs);
    assert forall|i: int| 0 <= i < pubs.len() && pubs[i].exposure_mode != ExposureMode::Tunnel implies (
    direct + w).contains(
        DnsRecordView {
            provider: pubs[i].provider,
            name: pubs[i].external_name,
            record_type: DesiredDnsRecordType::A,
            value_source: ValueSourceView::WanAddress,
            ttl: Some(300u32),
            purpose: DesiredDnsPurpose::ServicePublication,
        },
    ) by {
        let x = publication_record(pubs[i]);
        assert(direct_record_fn()(pubs[i])[0] == x);
        lemma_flat_map_contains(pubs, direct_record_fn(), i, x);
        lemma_concat_contains(direct, w, x);
    }
    assert forall|r: DnsRecordView|
        (direct + w).contains(r) && r.purpose == DesiredDnsPurpose::ServicePublication implies exists|
        i: int,
    |
        0 <= i < pubs.len() && pubs[i].exposure_mode != ExposureMode::Tunnel && r.name
            == #[trigger] pubs[i].external_name by {
        let m = choose|m: int| 0 <= m < (direct + w).len() && #[trigger] (direct + w)[m] == r;
        if m < direct.len() {
            assert(direct[m] == r);
        } else {
            assert(w[m - direct.len()] == r);
        }
    }
    lemma_all_serve(direct);
    lemma_no_service_records(wans);
    assert((direct + w).filter(serves_publication()) =~= direct.filter(serves_publication())
        + w.filter(serves_publication()));
}

} // verus!
