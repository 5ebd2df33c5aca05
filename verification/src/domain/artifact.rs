use vstd::prelude::*;

use crate::domain::ManagedPath;

verus! {

/// A configuration file produced by a renderer.
#[derive(Debug, PartialEq, Eq)]
pub struct RenderedArtifact {
    pub renderer: String,
    pub logical_name: String,
    pub target_path: String,
    pub contents: String,
    pub checksum: String,
}

impl Clone for RenderedArtifact {
    fn clone(&self) -> (r: Self)
        ensures
            r == *self,
    {
        RenderedArtifact {
            renderer: self.renderer.clone(),
            logical_name: self.logical_name.clone(),
            target_path: self.target_path.clone(),
            contents: self.contents.clone(),
            checksum: self.checksum.clone(),
        }
    }
}

/// The artifacts of one deployment and the managed paths they change.
#[derive(Debug, Clone, PartialEq, Eq, Default)]
pub struct ApplyPlan {
    pub artifacts: Vec<RenderedArtifact>,
    pub changed_paths: Vec<ManagedPath>,
}

/// One artifact of a deployment manifest.
#[derive(Debug, Clone, PartialEq, Eq)]
pub struct ArtifactManifestEntry {
    pub logical_name: String,
    pub target_path: String,
    pub checksum: String,
}

/// One file saved before a deployment replaced it.
#[derive(Debug, Clone, PartialEq, Eq)]
pub struct BackupEntry {
    pub original_path: String,
    pub backup_path: String,
    pub checksum: String,
}

} // verus!
