//! Planning a deployment of rendered artifacts: which managed paths change
//! and where each artifact is staged before it is applied.
mod planner;

pub use planner::{
    BackupPathRecord, DeploymentPlanner, StagedArtifact, StagedView, changed_path_of, staged_of,
};
