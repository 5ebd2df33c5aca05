//! The site service: load a site, check it, render it, plan its remote
//! access, and name the files it stages.
use vstd::prelude::*;

use crate::config::{
    ConfigBundle, ConfigError, SiteFiles, bundle_of, first_error, load_outcome, load_site_from_path,
    normalize_bundle, normalized, site_checks,
};
use crate::domain::{PublicationPlan, PublicationResult, RenderedArtifact, SiteConfig};
use crate::remote_access::{
    RemoteAccessError, plan_of, plan_outcome, plan_remote_access, remote_access_status,
    status_of, status_outcome,
};
use crate::render::{apache2_renderable, artifact_views, render_all, rendered};
use crate::text::{concat3, opt_str};
use crate::validate::{ValidationReport, issue_views, run_validation, site_issues};

verus! {

/// The file-name extension of a path, as `Path::extension` reads it.
pub uninterp spec fn path_extension(path: Seq<char>) -> Option<Seq<char>>;

/// `std::path::Path::extension` on `path`, as a string. Its result is named
/// by `path_extension`; besides, a path without any dot has no extension.
#[verifier::external_body]
fn file_extension(path: &str) -> (r: Option<String>)
    ensures
        opt_str(r) == path_extension(path@),
        !path@.contains('.') ==> r is None,
{
    match std::path::Path::new(path).extension() {
        Some(ext) => ext.to_str().map(String::from),
        None => None,
    }
}

/// A configuration directory reads a file when its extension is `yaml` or `yml`.
pub open spec fn yaml_extension(extension: Option<Seq<char>>) -> bool {
    extension == Some("yaml"@) || extension == Some("yml"@)
}

/// Whether a configuration directory reads the file at `path`.
pub fn is_yaml_file(path: &str) -> (r: bool)
    ensures
        r == yaml_extension(path_extension(path@)),
{
    match file_extension(path) {
        Some(e) => {
            let yaml = String::from_str("yaml");
            let yml = String::from_str("yml");
            proof {
                reveal_strlit("yaml");
                reveal_strlit("yml");
            }
            e == yaml || e == yml
        },
        None => false,
    }
}

/// The name an artifact is staged under: its logical name, followed by a dot
/// and the extension of its target path when that extension is not empty.
pub open spec fn staged_name(logical_name: Seq<char>, extension: Option<Seq<char>>) -> Seq<char> {
    match extension {
        Some(e) => if e.len() > 0 {
            logical_name + "."@ + e
        } else {
            logical_name
        },
        None => logical_name,
    }
}

/// The staged file name of an artifact, given the extension of its target path.
pub fn staged_file_name(logical_name: &str, extension: Option<String>) -> (r: String)
    ensures
        r@ == staged_name(logical_name@, opt_str(extension)),
{
    match extension {
        Some(e) => if e.unicode_len() > 0 {
            concat3(logical_name, ".", e.as_str())
        } else {
            String::from_str(logical_name)
        },
        None => String::from_str(logical_name),
    }
}

/// The file name an artifact is staged under.
pub fn stage_filename(artifact: &RenderedArtifact) -> (r: String)
    ensures
        r@ == staged_name(artifact.logical_name@, path_extension(artifact.target_path@)),
{
    let extension = file_extension(artifact.target_path.as_str());
    staged_file_name(artifact.logical_name.as_str(), extension)
}

/// An artifact written to a staging directory, with its contents.
#[derive(Debug, Clone)]
pub struct StagedArtifactResult {
    pub logical_name: String,
    pub stage_path: String,
    pub target_path: String,
    pub checksum: String,
    pub contents: String,
}

/// Loading, checking, rendering and planning a site.
#[derive(Debug, Default)]
pub struct SiteService;

impl SiteService {
    /// Loads the site whose configuration files under `config_root` yielded
    /// `files`, and normalizes it. The first file that is missing,
    /// unreadable or invalid gives the error.
    pub fn load_site(&self, config_root: &str, files: SiteFiles) -> (r: Result<SiteConfig, ConfigError>)
        ensures
            match first_error(site_checks(config_root@, files)) {
                Some(e) => r is Err && r->Err_0@ == e,
                None => r is Ok && exists|b: ConfigBundle|
                    bundle_of(b, files) && #[trigger] normalized(b, r->Ok_0),
            },
    {
        let ghost f = files;
        let loaded = load_site_from_path(config_root, files);
        assert(load_outcome(loaded, config_root@, f));
        let bundle = match loaded {
            Ok(bundle) => bundle,
            Err(e) => {
                assert(first_error(site_checks(config_root@, f)) is Some);
                return Err(e);
            },
        };
        assert(first_error(site_checks(config_root@, f)) is None);
        let ghost b = bundle;
        let site = normalize_bundle(bundle);
        assert(bundle_of(b, f) && normalized(b, site));
        assert(exists|bb: ConfigBundle| bundle_of(bb, f) && #[trigger] normalized(bb, site));
        let r: Result<SiteConfig, ConfigError> = Ok(site);
        assert(r->Ok_0 == site);
        r
    }

    /// Every issue of the site: its own rules, then its remote access.
    pub fn validate_site(&self, site: &SiteConfig) -> (r: ValidationReport)
        ensures
            issue_views(r.issues@) == site_issues(*site),
    {
        run_validation(site)
    }

    /// Every managed file of the site.
    pub fn render_site(&self, site: &SiteConfig) -> (r: Vec<RenderedArtifact>)
        requires
            apache2_renderable(*site),
        ensures
            artifact_views(r@) == rendered(*site),
    {
        render_all(site)
    }

    /// The record of an artifact staged at `stage_path`.
    pub fn staged_artifact(&self, artifact: &RenderedArtifact, stage_path: String) -> (r: StagedArtifactResult)
        ensures
            r.logical_name == artifact.logical_name,
            r.stage_path == stage_path,
            r.target_path == artifact.target_path,
            r.checksum == artifact.checksum,
            r.contents == artifact.contents,
    {
        StagedArtifactResult {
            logical_name: artifact.logical_name.clone(),
            stage_path,
            target_path: artifact.target_path.clone(),
            checksum: artifact.checksum.clone(),
            contents: artifact.contents.clone(),
        }
    }

    /// The remote-access plan of the site, or the errors that prevent it.
    pub fn plan_remote_access(&self, site: &SiteConfig) -> (r: Result<PublicationPlan, RemoteAccessError>)
        ensures
            plan_outcome(r) == plan_of(*site),
    {
        plan_remote_access(site)
    }

    /// What each provider would do with the site's remote-access plan.
    pub fn remote_access_status(&self, site: &SiteConfig) -> (r: Result<Vec<PublicationResult>, RemoteAccessError>)
        ensures
            status_outcome(r) == status_of(*site),
    {
        remote_access_status(site)
    }
}

} // verus!
