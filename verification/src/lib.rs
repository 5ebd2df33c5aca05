//! Intent-driven network orchestration for home-lab and small-site
//! deployments: the canonical site model, its normalization from raw
//! configuration files, validation rules, remote-access planning and the
//! renderers that turn a site into managed configuration artifacts.
pub mod text;
pub mod domain;
pub mod seqs;
pub mod validate;
pub mod remote_access;
pub mod util;
pub mod render;
pub mod config;
pub mod deploy;
pub mod service;
pub mod api;
pub mod agent;
