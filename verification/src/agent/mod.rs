//! The host agent: what it tells the controller about itself, and what it
//! finds in a staging directory.
mod service;

pub use service::{
    AgentCapabilities, AgentIdentity, HostAgentDescriptor, HostAgentService, InspectionView,
    StageDirListing, StageInspection, StageInspectionArtifact, hostname_of, inspection_views,
    managed_service_names, node_name_of, relative_path_key, stage_dir_error,
};
