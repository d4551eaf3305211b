//! Deployment orchestrator core: push a local project tree to remote hosts
//! and run a named remote operation ("reign") there.
//!
//! The library holds the verified logic: operation contexts, command-line
//! construction, the per-host deployment pipeline with its failure policy,
//! and the multi-host fan-out with bounded concurrency. External processes
//! (archiver, secure copy, remote shell) are opaque collaborators; the
//! surrounding binary performs the process and file I/O.

pub mod commands;
pub mod context;
pub mod env;
pub mod errors;
pub mod files;
pub mod logger;
pub mod orchestrator;
pub mod pipeline;
pub mod runner;

use vstd::prelude::*;

verus! {

/// The local project tree that gets packaged and shipped.
pub open spec fn spec_default_shable_dir() -> Seq<char> {
    "/Volumes/Projects/Shable.Centra"@
}

/// The local project tree that gets packaged and shipped.
pub fn default_shable_dir() -> (r: &'static str)
    ensures
        r@ == spec_default_shable_dir(),
{
    "/Volumes/Projects/Shable.Centra"
}

/// Extension of the archive artifact, chosen for fast compression.
pub open spec fn spec_archive_ext() -> Seq<char> {
    ".tar.zst"@
}

/// Extension of the archive artifact, chosen for fast compression.
pub fn archive_ext() -> (r: &'static str)
    ensures
        r@ == spec_archive_ext(),
{
    ".tar.zst"
}

} // verus!
