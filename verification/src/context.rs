//! The immutable descriptor of one host's deployment.

use vstd::prelude::*;
use vstd::string::StringExecFns;
use crate::env::env_keys_unique;

verus! {

/// One host's deployment: identity, paths and environment. Created once per
/// host at run start and never mutated; the operation id namespaces every
/// artifact and log name, so concurrent hosts never contend on a path.
#[derive(Clone, Debug)]
pub struct ReignOperation {
    /// Per-run, per-host unique identifier.
    pub op_uuid: String,
    /// Inventory reference handed to the remote invocation; opaque here.
    pub inventory: String,
    /// Name of the remote operation to run after deployment.
    pub reign_name: String,
    /// Remote user for the secure-shell login, possibly empty.
    pub remote_user: String,
    /// Remote host to deploy to.
    pub remote_host: String,
    /// Ordered local-environment overrides forwarded to every command.
    pub default_env: Vec<(String, String)>,
}

/// The remote workspace is a pure function of the operation id.
pub open spec fn spec_remote_project_path(op_uuid: Seq<char>) -> Seq<char> {
    "/tmp/reigns_"@ + op_uuid
}

/// Login prefix for the secure shell: `user@`, or nothing when no user is set.
pub open spec fn spec_remote_user_ssh(remote_user: Seq<char>) -> Seq<char> {
    if remote_user.len() == 0 {
        Seq::empty()
    } else {
        remote_user + "@"@
    }
}

/// Relies on uuidv4::uuid::v4: sixteen random bytes rendered in the
/// hyphenated 8-4-4-4-12 hex form, which is always 36 characters long.
#[verifier::external_body]
fn fresh_op_uuid() -> (r: String)
    ensures
        r@.len() == 36,
{
    uuidv4::uuid::v4()
}

impl ReignOperation {
    /// Build the descriptor for one host. The environment values come in as
    /// plain strings; the caller reads them from wherever it likes. A fresh
    /// operation id is generated here.
    pub fn new(
        reign_name: &str,
        inventory: &str,
        remote_host: &str,
        remote_user: String,
        debug: String,
        skip_env_validation: String,
    ) -> (r: Self)
        ensures
            r.op_uuid@.len() == 36,
            r.reign_name@ == reign_name@,
            r.inventory@ == inventory@,
            r.remote_host@ == remote_host@,
            r.remote_user@ == remote_user@,
            r.default_env@.len() == 3,
            r.default_env@[0].0@ == "DEBUG"@,
            r.default_env@[0].1@ == debug@,
            r.default_env@[1].0@ == "RUN_AS"@,
            r.default_env@[1].1@ == remote_user@,
            r.default_env@[2].0@ == "SKIP_ENV_VALIDATION"@,
            r.default_env@[2].1@ == skip_env_validation@,
            env_keys_unique(r.default_env@),
    {
        proof {
            reveal_strlit("DEBUG");
            reveal_strlit("RUN_AS");
            reveal_strlit("SKIP_ENV_VALIDATION");
        }
        let op_uuid = fresh_op_uuid();
        let mut default_env: Vec<(String, String)> = Vec::new();
        default_env.push((String::from_str("DEBUG"), debug));
        default_env.push((String::from_str("RUN_AS"), remote_user.clone()));
        default_env.push((String::from_str("SKIP_ENV_VALIDATION"), skip_env_validation));
        proof {
            assert(default_env@[0].0@ == "DEBUG"@);
            assert(default_env@[1].0@ == "RUN_AS"@);
            assert(default_env@[2].0@ == "SKIP_ENV_VALIDATION"@);
            assert(default_env@[0].0@ != default_env@[1].0@);
            assert(default_env@[0].0@ != default_env@[2].0@);
            assert(default_env@[1].0@ != default_env@[2].0@);
            assert forall|i: int, j: int| 0 <= i < j < default_env@.len() implies default_env@[i].0@
                != default_env@[j].0@ by {
                assert(j == 1 || j == 2);
            }
        }
        ReignOperation {
            op_uuid,
            inventory: String::from_str(inventory),
            reign_name: String::from_str(reign_name),
            remote_user,
            remote_host: String::from_str(remote_host),
            default_env,
        }
    }

    /// The remote path this operation syncs to: `/tmp/reigns_<id>`.
    pub fn remote_project_path(&self) -> (r: String)
        ensures
            r@ == spec_remote_project_path(self.op_uuid@),
    {
        let mut s = String::from_str("/tmp/reigns_");
        s.append(self.op_uuid.as_str());
        s
    }

    /// The login prefix for secure-shell commands: `user@`, or empty.
    pub fn remote_user_ssh(&self) -> (r: String)
        ensures
            r@ == spec_remote_user_ssh(self.remote_user@),
    {
        if self.remote_user.as_str().is_empty() {
            String::new()
        } else {
            let mut s = self.remote_user.clone();
            s.append("@");
            s
        }
    }
}

/// Distinct operation ids give distinct remote workspace paths, so two
/// concurrent operations can never share a workspace. (That the path is a
/// deterministic function of the id alone is the definition of
/// `spec_remote_project_path`.)
pub proof fn lemma_remote_project_path_injective(a: Seq<char>, b: Seq<char>)
    requires
        a != b,
    ensures
        spec_remote_project_path(a) != spec_remote_project_path(b),
{
    let p = "/tmp/reigns_"@;
    if spec_remote_project_path(a) == spec_remote_project_path(b) {
        assert((p + a).len() == (p + b).len());
        assert(a.len() == b.len());
        assert forall|i: int| 0 <= i < a.len() implies a[i] == b[i] by {
            assert((p + a)[p.len() + i] == a[i]);
            assert((p + b)[p.len() + i] == b[i]);
        }
        assert(a =~= b);
    }
}

} // verus!
