//! Loading a site's configuration files and normalizing them into the canonical model.
pub mod loader;
pub mod normalize;
pub mod raw;

pub use loader::{
    load_site_from_path, ConfigBundle, ConfigError, ConfigErrorView, DirEntryLoad, FileLoad,
    SiteFiles, join_path, joined, load_outcome, bundle_of, site_checks, first_error,
};
pub use normalize::{normalize_bundle, normalized, related, role_name, networking_paths, sort_paths, path_views, PathView, services_of, networking_paths_sorted, logical_name_key, interface_paths_fn, vlan_paths_fn};
