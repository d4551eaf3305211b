//! The command lines handed to the external collaborators.
//!
//! Archiver, secure copy and remote shell are opaque executables; all this
//! module decides is the exact command line each stage runs, as a function
//! of the operation descriptor and, for packaging, of the collected file
//! set. The caller spawns the command and feeds the outcome to the pipeline.

use vstd::prelude::*;
use vstd::string::StrSliceExecFns;
use vstd::string::StringExecFns;
use crate::context::ReignOperation;
use crate::context::spec_remote_project_path;
use crate::context::spec_remote_user_ssh;
use crate::env::read_env;
use crate::env::spec_env_value;
use crate::spec_archive_ext;
use crate::spec_default_shable_dir;
use crate::archive_ext;
use crate::default_shable_dir;

verus! {

/// `path` with `prefix` removed from its front; unchanged when `path` does
/// not start with `prefix`.
pub open spec fn spec_strip_prefix(path: Seq<char>, prefix: Seq<char>) -> Seq<char> {
    if prefix.len() <= path.len() && path.subrange(0, prefix.len() as int) == prefix {
        path.subrange(prefix.len() as int, path.len() as int)
    } else {
        path
    }
}

/// Remove a directory prefix from the front of a path, so the archive holds
/// paths relative to the project root.
pub fn strip_prefix(path: &str, prefix: &str) -> (r: String)
    ensures
        r@ == spec_strip_prefix(path@, prefix@),
{
    let path_len = path.unicode_len();
    let prefix_len = prefix.unicode_len();
    if prefix_len > path_len {
        return String::from_str(path);
    }
    let mut i: usize = 0;
    while i < prefix_len
        invariant
            path@.len() == path_len,
            prefix@.len() == prefix_len,
            prefix_len <= path_len,
            i <= prefix_len,
            forall|j: int| 0 <= j < i ==> path@[j] == prefix@[j],
        decreases prefix_len - i,
    {
        if path.get_char(i) != prefix.get_char(i) {
            proof {
                assert(path@.subrange(0, prefix@.len() as int)[i as int] == path@[i as int]);
            }
            return String::from_str(path);
        }
        i += 1;
    }
    proof {
        assert(path@.subrange(0, prefix@.len() as int) =~= prefix@);
    }
    String::from_str(path.substring_char(prefix_len, path_len))
}

/// The collected absolute paths made relative to the project root.
pub open spec fn spec_relative_files(files: Seq<String>, root_prefix: Seq<char>) -> Seq<Seq<char>> {
    files.map_values(|f: String| spec_strip_prefix(f@, root_prefix))
}

/// Words joined by single spaces.
pub open spec fn spec_join_words(words: Seq<Seq<char>>) -> Seq<char>
    decreases words.len(),
{
    if words.len() == 0 {
        Seq::empty()
    } else if words.len() == 1 {
        words[0]
    } else {
        spec_join_words(words.drop_last()) + " "@ + words.last()
    }
}

/// Join words with single spaces, as a command line's argument list.
pub fn join_words(words: &Vec<String>) -> (r: String)
    ensures
        r@ == spec_join_words(words@.map_values(|w: String| w@)),
{
    let mut s = String::new();
    let n = words.len();
    let mut i: usize = 0;
    while i < n
        invariant
            n == words@.len(),
            i <= n,
            s@ == spec_join_words(words@.subrange(0, i as int).map_values(|w: String| w@)),
        decreases n - i,
    {
        let ghost prev = words@.subrange(0, i as int).map_values(|w: String| w@);
        let ghost next = words@.subrange(0, i as int + 1).map_values(|w: String| w@);
        if i > 0 {
            s.append(" ");
        }
        s.append(words[i].as_str());
        proof {
            assert(next.drop_last() =~= prev);
            assert(next.last() == words@[i as int]@);
            if i == 0 {
                assert(next =~= seq![words@[0]@]);
                assert(s@ =~= next[0]);
            }
        }
        i += 1;
    }
    proof {
        assert(words@.subrange(0, n as int) =~= words@);
    }
    s
}

/// Make every collected path relative to the project root.
pub fn relative_files(files: &Vec<String>, root_prefix: &str) -> (r: Vec<String>)
    ensures
        r@.map_values(|w: String| w@) == spec_relative_files(files@, root_prefix@),
{
    let mut out: Vec<String> = Vec::new();
    let n = files.len();
    let mut i: usize = 0;
    while i < n
        invariant
            n == files@.len(),
            i <= n,
            out@.map_values(|w: String| w@) =~= spec_relative_files(
                files@.subrange(0, i as int),
                root_prefix@,
            ),
        decreases n - i,
    {
        let ghost prev = out@;
        out.push(strip_prefix(files[i].as_str(), root_prefix));
        proof {
            assert(out@.map_values(|w: String| w@) =~= prev.map_values(|w: String| w@).push(
                spec_strip_prefix(files@[i as int]@, root_prefix@),
            ));
            assert(spec_relative_files(files@.subrange(0, i as int + 1), root_prefix@)
                =~= spec_relative_files(files@.subrange(0, i as int), root_prefix@).push(
                spec_strip_prefix(files@[i as int]@, root_prefix@),
            ));
        }
        i += 1;
    }
    proof {
        assert(files@.subrange(0, n as int) =~= files@);
    }
    out
}

/// The archive artifact's file name: the operation id plus the fixed
/// extension.
pub open spec fn spec_archive_file_name(op: ReignOperation) -> Seq<char> {
    op.op_uuid@ + spec_archive_ext()
}

/// The archive artifact's file name: the operation id plus the fixed
/// extension.
pub fn archive_file_name(operation: &ReignOperation) -> (r: String)
    ensures
        r@ == spec_archive_file_name(*operation),
{
    let mut s = operation.op_uuid.clone();
    s.append(archive_ext());
    s
}

/// The prefix stripped from collected paths: the project root plus `/`.
pub open spec fn spec_root_prefix() -> Seq<char> {
    spec_default_shable_dir() + "/"@
}

/// The archiver invocation: pack the collected files, relative to the
/// project root, into the operation's artifact, with ownership metadata set
/// to the remote user and extended attributes skipped.
pub open spec fn spec_tar_command(op: ReignOperation, files: Seq<String>) -> Seq<char> {
    "tar --zstd -cf "@ + spec_archive_file_name(op) + " --uname "@ + op.remote_user@
        + " --gname "@ + op.remote_user@ + " --no-xattrs "@ + spec_join_words(
        spec_relative_files(files, spec_root_prefix()),
    )
}

/// Build the archiver command for the collected file set (stage 1).
pub fn tar_command(operation: &ReignOperation, files_to_sync: &Vec<String>) -> (r: String)
    ensures
        r@ == spec_tar_command(*operation, files_to_sync@),
{
    let mut root_prefix = String::from_str(default_shable_dir());
    root_prefix.append("/");
    let relative = relative_files(files_to_sync, root_prefix.as_str());
    let file_list = join_words(&relative);
    let mut s = String::from_str("tar --zstd -cf ");
    s.append(archive_file_name(operation).as_str());
    s.append(" --uname ");
    s.append(operation.remote_user.as_str());
    s.append(" --gname ");
    s.append(operation.remote_user.as_str());
    s.append(" --no-xattrs ");
    s.append(file_list.as_str());
    s
}

/// The remote-shell invocation that creates the remote workspace (stage 2).
pub open spec fn spec_ssh_mkdir_command(op: ReignOperation) -> Seq<char> {
    "ssh "@ + spec_remote_user_ssh(op.remote_user@) + op.remote_host@ + " mkdir -p "@
        + spec_remote_project_path(op.op_uuid@)
}

/// Build the remote workspace-creation command (stage 2).
pub fn ssh_mkdir_command(operation: &ReignOperation) -> (r: String)
    ensures
        r@ == spec_ssh_mkdir_command(*operation),
{
    let mut s = String::from_str("ssh ");
    s.append(operation.remote_user_ssh().as_str());
    s.append(operation.remote_host.as_str());
    s.append(" mkdir -p ");
    s.append(operation.remote_project_path().as_str());
    s
}

/// The secure-copy invocation that moves the artifact into the provisioned
/// workspace (stage 3).
pub open spec fn spec_upload_command(op: ReignOperation) -> Seq<char> {
    "scp -4Bp "@ + spec_default_shable_dir() + "/"@ + spec_archive_file_name(op) + " "@
        + spec_remote_user_ssh(op.remote_user@) + op.remote_host@ + ":"@
        + spec_remote_project_path(op.op_uuid@) + "/"@ + spec_archive_file_name(op)
}

/// Build the artifact transfer command (stage 3).
pub fn upload_command(operation: &ReignOperation) -> (r: String)
    ensures
        r@ == spec_upload_command(*operation),
{
    let file_to_sync = archive_file_name(operation);
    let mut s = String::from_str("scp -4Bp ");
    s.append(default_shable_dir());
    s.append("/");
    s.append(file_to_sync.as_str());
    s.append(" ");
    s.append(operation.remote_user_ssh().as_str());
    s.append(operation.remote_host.as_str());
    s.append(":");
    s.append(operation.remote_project_path().as_str());
    s.append("/");
    s.append(file_to_sync.as_str());
    s
}

/// The remote-shell invocation that extracts the artifact inside the
/// workspace (stage 4).
pub open spec fn spec_unpack_command(op: ReignOperation) -> Seq<char> {
    "ssh "@ + spec_remote_user_ssh(op.remote_user@) + op.remote_host@ + " cd "@
        + spec_remote_project_path(op.op_uuid@) + "; tar xf "@ + spec_archive_file_name(op)
}

/// Build the remote extraction command (stage 4).
pub fn unpack_command(operation: &ReignOperation) -> (r: String)
    ensures
        r@ == spec_unpack_command(*operation),
{
    let mut s = String::from_str("ssh ");
    s.append(operation.remote_user_ssh().as_str());
    s.append(operation.remote_host.as_str());
    s.append(" cd ");
    s.append(operation.remote_project_path().as_str());
    s.append("; tar xf ");
    s.append(archive_file_name(operation).as_str());
    s
}

/// The remote-shell invocation that runs the named operation inside the
/// workspace, forwarding the constrained environment subset (stage 5).
pub open spec fn spec_reign_command(op: ReignOperation) -> Seq<char> {
    "ssh "@ + spec_remote_user_ssh(op.remote_user@) + op.remote_host@ + " cd "@
        + spec_remote_project_path(op.op_uuid@) + " && /bin/sh -c 'export DEBUG="@
        + spec_env_value(op.default_env@, "DEBUG"@) + " SKIP_ENV_VALIDATION="@ + spec_env_value(
        op.default_env@,
        "SKIP_ENV_VALIDATION"@,
    ) + " REMOTE="@ + op.remote_host@ + " ARGUMENTS="@ + spec_env_value(
        op.default_env@,
        "ARGUMENTS"@,
    ) + " && bin/shable "@ + op.inventory@ + " "@ + op.reign_name@ + " 2>&1'"@
}

/// Build the remote invocation command (stage 5).
pub fn reign_command(operation: &ReignOperation) -> (r: String)
    ensures
        r@ == spec_reign_command(*operation),
{
    let debug_env = read_env(operation.default_env.as_slice(), "DEBUG");
    let skip_env_validation = read_env(operation.default_env.as_slice(), "SKIP_ENV_VALIDATION");
    let arguments = read_env(operation.default_env.as_slice(), "ARGUMENTS");
    let mut s = String::from_str("ssh ");
    s.append(operation.remote_user_ssh().as_str());
    s.append(operation.remote_host.as_str());
    s.append(" cd ");
    s.append(operation.remote_project_path().as_str());
    s.append(" && /bin/sh -c 'export DEBUG=");
    s.append(debug_env.as_str());
    s.append(" SKIP_ENV_VALIDATION=");
    s.append(skip_env_validation.as_str());
    s.append(" REMOTE=");
    s.append(operation.remote_host.as_str());
    s.append(" ARGUMENTS=");
    s.append(arguments.as_str());
    s.append(" && bin/shable ");
    s.append(operation.inventory.as_str());
    s.append(" ");
    s.append(operation.reign_name.as_str());
    s.append(" 2>&1'");
    s
}

/// The remote-shell invocation that removes the remote workspace (stage 6).
pub open spec fn spec_cleanup_remote_command(op: ReignOperation) -> Seq<char> {
    "ssh "@ + spec_remote_user_ssh(op.remote_user@) + op.remote_host@ + " rm -rf "@
        + spec_remote_project_path(op.op_uuid@)
}

/// The local invocation that deletes the artifact; `-f` makes a missing
/// artifact count as already clean (stage 6).
pub open spec fn spec_cleanup_local_command(op: ReignOperation) -> Seq<char> {
    "rm -f "@ + spec_archive_file_name(op)
}

/// Build both cleanup commands (stage 6): first the remote workspace
/// removal, whose failure is only logged, then the local artifact deletion.
pub fn cleanup_command(operation: &ReignOperation) -> (r: (String, String))
    ensures
        r.0@ == spec_cleanup_remote_command(*operation),
        r.1@ == spec_cleanup_local_command(*operation),
{
    let mut remote = String::from_str("ssh ");
    remote.append(operation.remote_user_ssh().as_str());
    remote.append(operation.remote_host.as_str());
    remote.append(" rm -rf ");
    remote.append(operation.remote_project_path().as_str());
    let mut local = String::from_str("rm -f ");
    local.append(archive_file_name(operation).as_str());
    (remote, local)
}

} // verus!
