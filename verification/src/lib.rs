//! Acquisition-and-installation pipeline for remotely hosted zip archives:
//! staged download with rollback, archive extraction with path-traversal
//! defense and permission restoration, and cache bookkeeping under partial
//! failure. Filesystem and network effects are performed by the embedding
//! application, which drives the state machines and plans defined here.

pub mod app_config;
pub mod archive;
pub mod download;
pub mod errors;
pub mod install;
pub mod models;
pub mod paths;
