//! The build orchestrator's decisions: resolve the manifest — an explicit
//! path that must canonicalize, or an upward search from the current
//! directory — and choose between a one-shot compile and continuous
//! watch-compilation. Failure to resolve is terminal and reported, never
//! retried.

use crate::error::CliError;
use crate::manifest::{find_manifest, spec_find_manifest, FsSnapshot};
use crate::options::Config;
use crate::path::FsPath;
use vstd::prelude::*;

verus! {

/// Where the manifest is to be taken from.
#[derive(Debug)]
pub enum ManifestRequest {
    /// `--manifest-path` was given as `raw`; `canonical` is the outcome of
    /// canonicalizing it against the real filesystem — nothing where the
    /// path does not name an existing file.
    Explicit { raw: String, canonical: Option<FsPath> },
    /// No explicit path: search the current directory, then its ancestors.
    Search,
}

/// A build about to run: the resolved manifest, the compile configuration,
/// and whether to compile once or to watch and recompile on changes.
#[derive(Debug)]
pub struct BuildPlan {
    pub manifest_path: FsPath,
    pub config: Config,
    pub watch: bool,
}

/// Resolves the manifest for a build. An explicit path that did not
/// canonicalize is rejected naming it; without one, the nearest ancestor of
/// `current_dir` holding a manifest decides, and a fruitless search up to
/// the root is "not found" naming the directory searched from.
pub fn resolve_manifest(
    request: ManifestRequest,
    current_dir: &FsPath,
    snapshot: &FsSnapshot,
) -> (r: Result<FsPath, CliError>)
    ensures
        match request {
            ManifestRequest::Explicit { raw, canonical } => match canonical {
                Some(p) => r matches Ok(m) && m@ == p@,
                None => r matches Err(e) && e matches CliError::InvalidManifestPath { path }
                    && path@ == raw@,
            },
            ManifestRequest::Search => match spec_find_manifest(current_dir@, snapshot@) {
                Some(m) => r matches Ok(p) && p@ == m,
                None => r matches Err(e) && e matches CliError::ManifestNotFound { directory }
                    && directory@ == current_dir@,
            },
        },
{
    match request {
        ManifestRequest::Explicit { raw, canonical } => match canonical {
            Some(p) => Ok(p),
            None => Err(CliError::InvalidManifestPath { path: raw }),
        },
        ManifestRequest::Search => match find_manifest(current_dir, snapshot) {
            Some(p) => Ok(p),
            None => Err(CliError::ManifestNotFound { directory: current_dir.duplicate() }),
        },
    }
}

/// Plans a build: resolve the manifest as `resolve_manifest` does, then
/// carry the configuration and the watch choice into the plan.
pub fn plan_build(
    request: ManifestRequest,
    current_dir: &FsPath,
    snapshot: &FsSnapshot,
    config: Config,
    watch: bool,
) -> (r: Result<BuildPlan, CliError>)
    ensures
        match request {
            ManifestRequest::Explicit { raw, canonical } => match canonical {
                Some(p) => r matches Ok(plan) && plan.manifest_path@ == p@ && plan.config == config
                    && plan.watch == watch,
                None => r matches Err(e) && e matches CliError::InvalidManifestPath { path }
                    && path@ == raw@,
            },
            ManifestRequest::Search => match spec_find_manifest(current_dir@, snapshot@) {
                Some(m) => r matches Ok(plan) && plan.manifest_path@ == m && plan.config == config
                    && plan.watch == watch,
                None => r matches Err(e) && e matches CliError::ManifestNotFound { directory }
                    && directory@ == current_dir@,
            },
        },
{
    match resolve_manifest(request, current_dir, snapshot) {
        Ok(manifest_path) => Ok(BuildPlan { manifest_path, config, watch }),
        Err(e) => Err(e),
    }
}

} // verus!
