//! Lookup over the ordered list of environment overrides.

use vstd::prelude::*;
use vstd::string::StrSliceExecFns;

verus! {

/// Character-for-character string comparison.
pub fn str_eq(a: &str, b: &str) -> (r: bool)
    ensures
        r == (a@ == b@),
{
    let a_len = a.unicode_len();
    let b_len = b.unicode_len();
    if a_len != b_len {
        return false;
    }
    let mut i: usize = 0;
    while i < a_len
        invariant
            a@.len() == a_len,
            b@.len() == b_len,
            a_len == b_len,
            i <= a_len,
            forall|j: int| 0 <= j < i ==> a@[j] == b@[j],
        decreases a_len - i,
    {
        if a.get_char(i) != b.get_char(i) {
            return false;
        }
        i += 1;
    }
    proof {
        assert(a@ =~= b@);
    }
    true
}

/// Value of the first pair whose key matches, or the empty string when the
/// key is absent (an unset variable reads as empty).
pub open spec fn spec_env_value(env: Seq<(String, String)>, key: Seq<char>) -> Seq<char>
    decreases env.len(),
{
    if env.len() == 0 {
        Seq::empty()
    } else if env[0].0@ == key {
        env[0].1@
    } else {
        spec_env_value(env.drop_first(), key)
    }
}

/// Look a key up in the ordered environment overrides. An absent key reads
/// as the empty string, exactly as an unset environment variable would.
pub fn read_env(default_env: &[(String, String)], key: &str) -> (r: String)
    ensures
        r@ == spec_env_value(default_env@, key@),
{
    let n = default_env.len();
    let mut i: usize = 0;
    proof {
        assert(default_env@.skip(0) =~= default_env@);
    }
    while i < n
        invariant
            n == default_env@.len(),
            i <= n,
            spec_env_value(default_env@, key@) == spec_env_value(
                default_env@.skip(i as int),
                key@,
            ),
        decreases n - i,
    {
        let pair = &default_env[i];
        proof {
            assert(default_env@.skip(i as int)[0] == default_env@[i as int]);
            assert(default_env@.skip(i as int).drop_first() =~= default_env@.skip(i as int + 1));
        }
        if str_eq(pair.0.as_str(), key) {
            return pair.1.clone();
        }
        i += 1;
    }
    proof {
        assert(default_env@.skip(n as int) =~= Seq::<(String, String)>::empty());
    }
    String::new()
}

/// No two pairs share a key: lookup is unambiguous and order only matters
/// for display.
pub open spec fn env_keys_unique(env: Seq<(String, String)>) -> bool {
    forall|i: int, j: int| 0 <= i < j < env.len() ==> env[i].0@ != env[j].0@
}

/// With unique keys, looking a present key up reads its pair's value — not
/// just the first of several candidates.
pub proof fn lemma_env_value_of_unique_key(env: Seq<(String, String)>, key: Seq<char>, i: int)
    requires
        env_keys_unique(env),
        0 <= i < env.len(),
        env[i].0@ == key,
    ensures
        spec_env_value(env, key) == env[i].1@,
    decreases env.len(),
{
    if i > 0 {
        assert(env[0].0@ != env[i].0@);
        assert(env_keys_unique(env.drop_first())) by {
            assert forall|a: int, b: int|
                0 <= a < b < env.drop_first().len() implies env.drop_first()[a].0@
                != env.drop_first()[b].0@ by {
                assert(env.drop_first()[a] == env[a + 1]);
                assert(env.drop_first()[b] == env[b + 1]);
            }
        }
        assert(env.drop_first()[i - 1] == env[i]);
        lemma_env_value_of_unique_key(env.drop_first(), key, i - 1);
    }
}

} // verus!
