use vstd::prelude::*;

use crate::config::{PathView, path_views};
use crate::domain::{ApplyPlan, ManagedPath, RenderedArtifact};
use crate::render::{ArtifactView, artifact_views};
use crate::text::concat3;

verus! {

/// An artifact written to a staging directory, waiting to be applied.
#[derive(Debug, PartialEq, Eq)]
pub struct StagedArtifact {
    pub logical_name: String,
    pub stage_path: String,
    pub target_path: String,
    pub checksum: String,
}

impl Clone for StagedArtifact {
    fn clone(&self) -> (r: Self)
        ensures
            r == *self,
    {
        StagedArtifact {
            logical_name: self.logical_name.clone(),
            stage_path: self.stage_path.clone(),
            target_path: self.target_path.clone(),
            checksum: self.checksum.clone(),
        }
    }
}

/// One file saved aside before a deployment replaced it.
#[derive(Debug, Clone, PartialEq, Eq)]
pub struct BackupPathRecord {
    pub original_path: String,
    pub backup_path: String,
    pub checksum: String,
}

/// A staged artifact as the specifications speak of it.
pub struct StagedView {
    pub logical_name: Seq<char>,
    pub stage_path: Seq<char>,
    pub target_path: Seq<char>,
    pub checksum: Seq<char>,
}

impl View for StagedArtifact {
    type V = StagedView;

    open spec fn view(&self) -> StagedView {
        StagedView {
            logical_name: self.logical_name@,
            stage_path: self.stage_path@,
            target_path: self.target_path@,
            checksum: self.checksum@,
        }
    }
}

/// The managed path an artifact changes: its logical name, its target path,
/// and its renderer as the owning service.
pub open spec fn changed_path_of(a: ArtifactView) -> PathView {
    PathView { logical_name: a.logical_name, path: a.target_path, service: Some(a.renderer) }
}

/// Where an artifact is staged: the stage directory, a slash, and its logical name.
pub open spec fn staged_of(stage_dir: Seq<char>, a: ArtifactView) -> StagedView {
    StagedView {
        logical_name: a.logical_name,
        stage_path: stage_dir + "/"@ + a.logical_name,
        target_path: a.target_path,
        checksum: a.checksum,
    }
}

/// Plans deployments of rendered artifacts.
#[derive(Debug, Default)]
pub struct DeploymentPlanner;

impl DeploymentPlanner {
    /// The plan that applies every artifact: the artifacts themselves and,
    /// in the same order, the managed path each one changes.
    pub fn plan_stage1(&self, artifacts: &[RenderedArtifact]) -> (r: ApplyPlan)
        ensures
            r.artifacts@ == artifacts@,
            path_views(r.changed_paths@) == artifact_views(artifacts@).map_values(
                |a: ArtifactView| changed_path_of(a),
            ),
    {
        let mut kept: Vec<RenderedArtifact> = Vec::new();
        let mut changed: Vec<ManagedPath> = Vec::new();
        for k in 0..artifacts.len()
            invariant
                kept@ == artifacts@.take(k as int),
                path_views(changed@) == artifact_views(artifacts@.take(k as int)).map_values(
                    |a: ArtifactView| changed_path_of(a),
                ),
        {
            let artifact = &artifacts[k];
            kept.push(artifact.clone());
            let ghost before = changed@;
            changed.push(
                ManagedPath {
                    logical_name: artifact.logical_name.clone(),
                    path: artifact.target_path.clone(),
                    service: Some(artifact.renderer.clone()),
                },
            );
            assert(kept@ =~= artifacts@.take(k + 1));
            assert(artifact_views(artifacts@.take(k + 1)) =~= artifact_views(
                artifacts@.take(k as int),
            ).push(artifacts@[k as int]@));
            assert(path_views(changed@) =~= path_views(before).push(changed@.last()@));
            assert(path_views(changed@) =~= artifact_views(artifacts@.take(k + 1)).map_values(
                |a: ArtifactView| changed_path_of(a),
            ));
        }
        assert(artifacts@.take(artifacts@.len() as int) =~= artifacts@);
        ApplyPlan { artifacts: kept, changed_paths: changed }
    }

    /// Where each artifact is staged under `stage_dir`, in order.
    pub fn stage_records(&self, stage_dir: &str, artifacts: &[RenderedArtifact]) -> (r: Vec<StagedArtifact>)
        ensures
            r@.map_values(|s: StagedArtifact| s@) == artifact_views(artifacts@).map_values(
                |a: ArtifactView| staged_of(stage_dir@, a),
            ),
    {
        let mut records: Vec<StagedArtifact> = Vec::new();
        for k in 0..artifacts.len()
            invariant
                records@.map_values(|s: StagedArtifact| s@) == artifact_views(
                    artifacts@.take(k as int),
                ).map_values(|a: ArtifactView| staged_of(stage_dir@, a)),
        {
            let artifact = &artifacts[k];
            let ghost before = records@;
            records.push(
                StagedArtifact {
                    logical_name: artifact.logical_name.clone(),
                    stage_path: concat3(stage_dir, "/", artifact.logical_name.as_str()),
                    target_path: artifact.target_path.clone(),
                    checksum: artifact.checksum.clone(),
                },
            );
            assert(artifact_views(artifacts@.take(k + 1)) =~= artifact_views(
                artifacts@.take(k as int),
            ).push(artifacts@[k as int]@));
            assert(records@.map_values(|s: StagedArtifact| s@) =~= before.map_values(
                |s: StagedArtifact| s@,
            ).push(records@.last()@));
            assert(records@.map_values(|s: StagedArtifact| s@) =~= artifact_views(
                artifacts@.take(k + 1),
            ).map_values(|a: ArtifactView| staged_of(stage_dir@, a)));
        }
        assert(artifacts@.take(artifacts@.len() as int) =~= artifacts@);
        records
    }
}

} // verus!
