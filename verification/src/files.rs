//! The deployable file set's configuration.
//!
//! Which local files belong to a deployment is decided by glob patterns over
//! the project root: a few top-level file patterns plus a fixed set of fully
//! recursed subdirectories. The patterns are built here; walking the
//! filesystem with them is the caller's business, and a path that matches
//! nothing contributes zero entries rather than an error.

use vstd::prelude::*;
use vstd::string::StringExecFns;
use crate::default_shable_dir;
use crate::spec_default_shable_dir;

verus! {

/// Top-level file patterns of the deployable set.
pub open spec fn spec_default_files() -> Seq<Seq<char>> {
    seq!["inventory"@, "*.sql"@]
}

/// Top-level file patterns of the deployable set.
pub fn default_files() -> (r: Vec<&'static str>)
    ensures
        r@.map_values(|p: &str| p@) == spec_default_files(),
{
    let r = vec!["inventory", "*.sql"];
    proof {
        assert(r@.map_values(|p: &str| p@) =~= spec_default_files());
    }
    r
}

/// Subdirectories of the project root that are shipped whole.
pub open spec fn spec_default_dirs() -> Seq<Seq<char>> {
    seq!["bin"@, "facts"@, "lib"@, "reigns"@, "tasks"@, "templates"@]
}

/// Subdirectories of the project root that are shipped whole.
pub fn default_dirs() -> (r: Vec<&'static str>)
    ensures
        r@.map_values(|p: &str| p@) == spec_default_dirs(),
{
    let r = vec!["bin", "facts", "lib", "reigns", "tasks", "templates"];
    proof {
        assert(r@.map_values(|p: &str| p@) =~= spec_default_dirs());
    }
    r
}

/// A top-level file pattern, anchored under the project root and widened by
/// a trailing `*`.
pub open spec fn spec_file_pattern(file: Seq<char>) -> Seq<char> {
    spec_default_shable_dir() + "/"@ + file + "*"@
}

/// A recursed subdirectory pattern: everything below the directory.
pub open spec fn spec_dir_pattern(dir: Seq<char>) -> Seq<char> {
    spec_default_shable_dir() + "/"@ + dir + "/**/*"@
}

/// Every glob pattern of the deployable set: the file patterns first, then
/// the recursed directories, in configuration order.
pub open spec fn spec_sync_patterns() -> Seq<Seq<char>> {
    spec_default_files().map_values(|f: Seq<char>| spec_file_pattern(f))
        + spec_default_dirs().map_values(|d: Seq<char>| spec_dir_pattern(d))
}

/// Build every glob pattern of the deployable set, in configuration order.
pub fn sync_patterns() -> (r: Vec<String>)
    ensures
        r@.map_values(|p: String| p@) == spec_sync_patterns(),
{
    let files = default_files();
    let dirs = default_dirs();
    let mut out: Vec<String> = Vec::new();
    let nf = files.len();
    let mut i: usize = 0;
    while i < nf
        invariant
            nf == spec_default_files().len(),
            files@.map_values(|p: &str| p@) == spec_default_files(),
            i <= nf,
            out@.map_values(|p: String| p@) =~= spec_default_files().subrange(
                0,
                i as int,
            ).map_values(|f: Seq<char>| spec_file_pattern(f)),
        decreases nf - i,
    {
        let ghost prev = out@;
        let mut s = String::from_str(default_shable_dir());
        s.append("/");
        s.append(files[i]);
        s.append("*");
        out.push(s);
        proof {
            assert(files@.map_values(|p: &str| p@)[i as int] == files@[i as int]@);
            assert(out@.map_values(|p: String| p@) =~= prev.map_values(|p: String| p@).push(
                spec_file_pattern(spec_default_files()[i as int]),
            ));
            assert(spec_default_files().subrange(0, i as int + 1).map_values(
                |f: Seq<char>| spec_file_pattern(f),
            ) =~= spec_default_files().subrange(0, i as int).map_values(
                |f: Seq<char>| spec_file_pattern(f),
            ).push(spec_file_pattern(spec_default_files()[i as int])));
        }
        i += 1;
    }
    let nd = dirs.len();
    let mut j: usize = 0;
    proof {
        assert(spec_default_files().subrange(0, nf as int) =~= spec_default_files());
    }
    while j < nd
        invariant
            nd == spec_default_dirs().len(),
            dirs@.map_values(|p: &str| p@) == spec_default_dirs(),
            j <= nd,
            out@.map_values(|p: String| p@) =~= spec_default_files().map_values(
                |f: Seq<char>| spec_file_pattern(f),
            ) + spec_default_dirs().subrange(0, j as int).map_values(
                |d: Seq<char>| spec_dir_pattern(d),
            ),
        decreases nd - j,
    {
        let ghost prev = out@;
        let mut s = String::from_str(default_shable_dir());
        s.append("/");
        s.append(dirs[j]);
        s.append("/**/*");
        out.push(s);
        proof {
            assert(dirs@.map_values(|p: &str| p@)[j as int] == dirs@[j as int]@);
            assert(out@.map_values(|p: String| p@) =~= prev.map_values(|p: String| p@).push(
                spec_dir_pattern(spec_default_dirs()[j as int]),
            ));
            assert(spec_default_dirs().subrange(0, j as int + 1).map_values(
                |d: Seq<char>| spec_dir_pattern(d),
            ) =~= spec_default_dirs().subrange(0, j as int).map_values(
                |d: Seq<char>| spec_dir_pattern(d),
            ).push(spec_dir_pattern(spec_default_dirs()[j as int])));
        }
        j += 1;
    }
    proof {
        assert(spec_default_dirs().subrange(0, nd as int) =~= spec_default_dirs());
        assert(out@.map_values(|p: String| p@) =~= spec_sync_patterns());
    }
    out
}

} // verus!
