use vstd::prelude::*;

use crate::config::{join_path, joined};
use crate::seqs::{key_insert_index, lemma_sorted_by_key, sorted_by, sorted_by_key};
use crate::text::{concat2, str_less, strs, trim, trimmed};
use crate::util::hashing::{sha256_bytes, sha256_hex};

verus! {

/// Who the agent is and what it runs on.
#[derive(Debug, Clone, PartialEq, Eq)]
pub struct AgentIdentity {
    pub node_name: String,
    pub operating_system: String,
    pub architecture: String,
    pub lanuminous_version: String,
}

/// Where the agent keeps its state and what it may do.
#[derive(Debug, Clone, PartialEq, Eq)]
pub struct AgentCapabilities {
    pub state_root: String,
    pub staging_root: String,
    pub backup_root: String,
    pub manifest_root: String,
    pub managed_services: Vec<String>,
    pub can_apply_managed_files: bool,
    pub can_reload_services: bool,
}

/// What the agent tells the controller about itself.
#[derive(Debug, Clone, PartialEq, Eq)]
pub struct HostAgentDescriptor {
    pub identity: AgentIdentity,
    pub capabilities: AgentCapabilities,
}

/// The files found in a staging directory.
#[derive(Debug, Clone, PartialEq, Eq)]
pub struct StageInspection {
    pub stage_dir: String,
    pub artifact_count: usize,
    pub artifacts: Vec<StageInspectionArtifact>,
}

/// One file found in a staging directory.
#[derive(Debug, PartialEq, Eq)]
pub struct StageInspectionArtifact {
    pub relative_path: String,
    pub full_path: String,
    pub checksum: String,
    pub size_bytes: u64,
}

impl Clone for StageInspectionArtifact {
    fn clone(&self) -> (r: Self)
        ensures
            r == *self,
    {
        StageInspectionArtifact {
            relative_path: self.relative_path.clone(),
            full_path: self.full_path.clone(),
            checksum: self.checksum.clone(),
            size_bytes: self.size_bytes,
        }
    }
}

/// What looking at a staging directory found.
pub enum StageDirListing {
    /// Nothing exists at the path.
    Missing,
    /// Something exists at the path, but not a directory.
    NotADirectory,
    /// The files under the directory, at any depth, in any order.
    Files(Vec<StageInspectionArtifact>),
}

/// A staged file as the specifications speak of it.
pub struct InspectionView {
    pub relative_path: Seq<char>,
    pub full_path: Seq<char>,
    pub checksum: Seq<char>,
    pub size_bytes: u64,
}

impl View for StageInspectionArtifact {
    type V = InspectionView;

    open spec fn view(&self) -> InspectionView {
        InspectionView {
            relative_path: self.relative_path@,
            full_path: self.full_path@,
            checksum: self.checksum@,
            size_bytes: self.size_bytes,
        }
    }
}

/// The views of a list of staged files.
pub open spec fn inspection_views(v: Seq<StageInspectionArtifact>) -> Seq<InspectionView> {
    v.map_values(|a: StageInspectionArtifact| a@)
}

/// The relative path of a staged file.
pub open spec fn relative_path_key() -> spec_fn(InspectionView) -> Seq<char> {
    |a: InspectionView| a.relative_path
}

/// A host name read from a file or the environment: the trimmed text, when
/// it is not empty.
pub open spec fn hostname_of(contents: Seq<char>) -> Option<Seq<char>> {
    if trimmed(contents).len() > 0 {
        Some(trimmed(contents))
    } else {
        None
    }
}

/// The node name: the `HOSTNAME` variable, else `/etc/hostname`, else the
/// kernel's host name, each trimmed and taken when not empty; else
/// "unknown-host".
pub open spec fn node_name_of(
    env_hostname: Option<Seq<char>>,
    etc_hostname: Option<Seq<char>>,
    kernel_hostname: Option<Seq<char>>,
) -> Seq<char> {
    let env = match env_hostname {
        Some(h) => hostname_of(h),
        None => None,
    };
    let etc = match etc_hostname {
        Some(h) => hostname_of(h),
        None => None,
    };
    let kernel = match kernel_hostname {
        Some(h) => hostname_of(h),
        None => None,
    };
    if env is Some {
        env->0
    } else if etc is Some {
        etc->0
    } else if kernel is Some {
        kernel->0
    } else {
        "unknown-host"@
    }
}

/// The services an agent manages.
pub open spec fn managed_service_names() -> Seq<Seq<char>> {
    seq![
        "dnsmasq"@,
        "nftables"@,
        "systemd-networkd"@,
        "apache2"@,
        "nginx"@,
        "caddy"@,
        "traefik"@,
        "haproxy"@,
    ]
}

/// The error that looking at a staging directory gives, if any.
pub open spec fn stage_dir_error(stage_dir: Seq<char>, listing: StageDirListing) -> Option<Seq<char>> {
    match listing {
        StageDirListing::Missing => Some("stage directory does not exist: "@ + stage_dir),
        StageDirListing::NotADirectory => Some("stage path is not a directory: "@ + stage_dir),
        StageDirListing::Files(_) => None,
    }
}

fn hostname_from(contents: &String) -> (r: Option<String>)
    ensures
        match r {
            Some(s) => hostname_of(contents@) == Some(s@),
            None => hostname_of(contents@) is None,
        },
{
    let t = trim(contents.as_str());
    if t.unicode_len() > 0 {
        Some(t)
    } else {
        None
    }
}

fn optional_hostname(contents: &Option<String>) -> (r: Option<String>)
    ensures
        match r {
            Some(s) => match *contents {
                Some(c) => hostname_of(c@) == Some(s@),
                None => false,
            },
            None => match *contents {
                Some(c) => hostname_of(c@) is None,
                None => true,
            },
        },
{
    match contents {
        Some(c) => hostname_from(c),
        None => None,
    }
}

fn push_name(names: &mut Vec<String>, name: &str)
    ensures
        strs(final(names)@) == strs(old(names)@).push(name@),
{
    let ghost before = old(names)@;
    names.push(String::from_str(name));
    assert(strs(names@) =~= strs(before).push(name@));
}

impl HostAgentService {
    /// The node name from what the environment and the host-name files hold
    /// (`None` where a variable is unset or a file could not be read).
    pub fn node_name(
        &self,
        env_hostname: &Option<String>,
        etc_hostname: &Option<String>,
        kernel_hostname: &Option<String>,
    ) -> (r: String)
        ensures
            r@ == node_name_of(
                crate::text::opt_str(*env_hostname),
                crate::text::opt_str(*etc_hostname),
                crate::text::opt_str(*kernel_hostname),
            ),
    {
        match optional_hostname(env_hostname) {
            Some(h) => h,
            None => match optional_hostname(etc_hostname) {
                Some(h) => h,
                None => match optional_hostname(kernel_hostname) {
                    Some(h) => h,
                    None => String::from_str("unknown-host"),
                },
            },
        }
    }

    /// The agent's description: its identity, and its state directories
    /// under `state_root` with the services it manages.
    pub fn describe(&self, state_root: &str, identity: AgentIdentity) -> (r: HostAgentDescriptor)
        ensures
            r.identity == identity,
            r.capabilities.state_root@ == state_root@,
            r.capabilities.staging_root@ == joined(state_root@, "staging"@),
            r.capabilities.backup_root@ == joined(state_root@, "backups"@),
            r.capabilities.manifest_root@ == joined(state_root@, "manifests"@),
            strs(r.capabilities.managed_services@) == managed_service_names(),
            r.capabilities.can_apply_managed_files,
            r.capabilities.can_reload_services,
    {
        let mut managed_services: Vec<String> = Vec::new();
        push_name(&mut managed_services, "dnsmasq");
        push_name(&mut managed_services, "nftables");
        push_name(&mut managed_services, "systemd-networkd");
        push_name(&mut managed_services, "apache2");
        push_name(&mut managed_services, "nginx");
        push_name(&mut managed_services, "caddy");
        push_name(&mut managed_services, "traefik");
        push_name(&mut managed_services, "haproxy");
        assert(strs(managed_services@) =~= managed_service_names());
        HostAgentDescriptor {
            identity,
            capabilities: AgentCapabilities {
                state_root: String::from_str(state_root),
                staging_root: join_path(state_root, "staging"),
                backup_root: join_path(state_root, "backups"),
                manifest_root: join_path(state_root, "manifests"),
                managed_services,
                can_apply_managed_files: true,
                can_reload_services: true,
            },
        }
    }

    /// A staged file: its paths, the checksum and the size of its contents.
    pub fn inspected_artifact(&self, relative_path: String, full_path: String, contents: &[u8]) -> (r: StageInspectionArtifact)
        ensures
            r.relative_path == relative_path,
            r.full_path == full_path,
            r.checksum@ == sha256_hex(contents@),
            r.size_bytes == contents@.len(),
    {
        StageInspectionArtifact {
            relative_path,
            full_path,
            checksum: sha256_bytes(contents),
            size_bytes: contents.len() as u64,
        }
    }

    /// What a staging directory holds: its files sorted by relative path and
    /// counted, or the error when it is missing or not a directory.
    pub fn inspect_stage_dir(&self, stage_dir: &str, listing: StageDirListing) -> (r: Result<StageInspection, String>)
        ensures
            match stage_dir_error(stage_dir@, listing) {
                Some(e) => r is Err && r->Err_0@ == e,
                None => r is Ok && r->Ok_0.stage_dir@ == stage_dir@ && inspection_views(
                    r->Ok_0.artifacts@,
                ) == sorted_by_key(
                    inspection_views(listing->Files_0@),
                    relative_path_key(),
                ) && r->Ok_0.artifact_count == r->Ok_0.artifacts@.len(),
            },
            r is Ok ==> sorted_by(inspection_views(r->Ok_0.artifacts@), relative_path_key())
                && inspection_views(r->Ok_0.artifacts@).to_multiset() == inspection_views(
                listing->Files_0@,
            ).to_multiset(),
    {
        match listing {
            StageDirListing::Missing => Err(concat2("stage directory does not exist: ", stage_dir)),
            StageDirListing::NotADirectory => Err(
                concat2("stage path is not a directory: ", stage_dir),
            ),
            StageDirListing::Files(files) => {
                proof {
                    lemma_sorted_by_key(inspection_views(files@), relative_path_key());
                }
                let artifacts = sort_by_relative_path(files);
                Ok(
                    StageInspection {
                        stage_dir: String::from_str(stage_dir),
                        artifact_count: artifacts.len(),
                        artifacts,
                    },
                )
            },
        }
    }
}

/// The agent's services.
#[derive(Debug, Default)]
pub struct HostAgentService;

/// Sorts staged files by relative path, keeping equal paths in their order.
fn sort_by_relative_path(files: Vec<StageInspectionArtifact>) -> (r: Vec<StageInspectionArtifact>)
    ensures
        inspection_views(r@) == sorted_by_key(inspection_views(files@), relative_path_key()),
{
    let ghost all = inspection_views(files@);
    let ghost key = relative_path_key();
    assert(all.len() == files.len());
    let mut rest = files;
    let mut sorted: Vec<StageInspectionArtifact> = Vec::new();
    let mut k: usize = 0;
    assert(all.take(0) =~= Seq::<InspectionView>::empty());
    while rest.len() > 0
        invariant
            key == relative_path_key(),
            k <= all.len() <= usize::MAX,
            inspection_views(rest@) == all.skip(k as int),
            inspection_views(sorted@) == sorted_by_key(all.take(k as int), key),
        decreases rest@.len(),
    {
        let ghost old_rest = rest@;
        assert(inspection_views(old_rest).len() == old_rest.len());
        assert(all.skip(k as int)[0] == all[k as int]);
        assert(inspection_views(old_rest)[0] == old_rest[0]@);
        let a = rest.remove(0);
        assert(rest@ =~= old_rest.drop_first());
        let ghost s = inspection_views(sorted@);
        assert(a@ == all[k as int]);
        assert forall|j: int| 0 <= j < rest@.len() implies inspection_views(rest@)[j] == all.skip(
            k + 1,
        )[j] by {
            assert(inspection_views(old_rest)[j + 1] == old_rest[j + 1]@);
            assert(all.skip(k as int)[j + 1] == all[k + 1 + j]);
        }
        assert(inspection_views(rest@) =~= all.skip(k + 1));
        let mut i: usize = 0;
        while i < sorted.len() && !str_less(a.relative_path.as_str(), sorted[i].relative_path.as_str())
            invariant
                key == relative_path_key(),
                s == inspection_views(sorted@),
                i <= sorted@.len(),
                key_insert_index(s, key, a@.relative_path, 0) == key_insert_index(
                    s,
                    key,
                    a@.relative_path,
                    i as int,
                ),
            decreases sorted@.len() - i,
        {
            i = i + 1;
        }
        let ghost av = a@;
        sorted.insert(i, a);
        assert(inspection_views(sorted@) =~= s.insert(i as int, av));
        assert(all.take(k + 1).drop_last() =~= all.take(k as int));
        assert(all.take(k + 1).last() == av);
        k = k + 1;
    }
    assert(all.take(k as int) =~= all);
    sorted
}

} // verus!
