//! Derivation of the filesystem paths the resolver probes: the
//! project-local binary and the per-user state directory.
use vstd::prelude::*;
use vstd::string::StringExecFns;
use crate::model::ResolveError;

verus! {

/// The value of `key` in an environment snapshot: the first entry with
/// that name, if any.
pub open spec fn env_lookup(env: Seq<(Seq<char>, Seq<char>)>, key: Seq<char>) -> Option<Seq<char>>
    decreases env.len(),
{
    if env.len() == 0 {
        None
    } else if env[0].0 == key {
        Some(env[0].1)
    } else {
        env_lookup(env.drop_first(), key)
    }
}

/// Looks `key` up in the environment snapshot, returning the value of
/// the first entry with that name.
pub fn lookup_env(env: &Vec<(String, String)>, key: &String) -> (r: Option<String>)
    ensures
        r.deep_view() == env_lookup(env.deep_view(), key@),
{
    let ghost all = env.deep_view();
    proof {
        assert(all.skip(0) =~= all);
    }
    let mut i: usize = 0;
    while i < env.len()
        invariant
            0 <= i <= env.len(),
            all == env.deep_view(),
            env_lookup(all, key@) == env_lookup(all.skip(i as int), key@),
        decreases env.len() - i,
    {
        proof {
            assert(all[i as int] == (env[i as int].0@, env[i as int].1@));
            assert(all.skip(i as int)[0] == all[i as int]);
        }
        if env[i].0 == *key {
            proof {
                assert(env_lookup(all.skip(i as int), key@) == Some(env[i as int].1@));
            }
            return Some(env[i].1.clone());
        }
        proof {
            let s = all.skip(i as int);
            assert(env_lookup(s, key@) == env_lookup(s.drop_first(), key@));
            assert(s.drop_first() =~= all.skip(i as int + 1));
        }
        i = i + 1;
    }
    proof {
        assert(all.skip(i as int) =~= Seq::<(Seq<char>, Seq<char>)>::empty());
    }
    None
}

/// The user state directory: `XDG_STATE_HOME` if set, else
/// `<HOME>/.local`; none when `HOME` itself is missing.
pub open spec fn state_dir_spec(env: Seq<(Seq<char>, Seq<char>)>) -> Option<Seq<char>> {
    match env_lookup(env, "HOME"@) {
        None => None,
        Some(home) => Some(
            match env_lookup(env, "XDG_STATE_HOME"@) {
                Some(state_home) => state_home,
                None => home + "/.local"@,
            },
        ),
    }
}

/// Where a copy of `tool` is installed for the user:
/// `<state dir>/bin/<tool>`.
pub open spec fn state_bin_path_spec(env: Seq<(Seq<char>, Seq<char>)>, tool: Seq<char>) -> Option<
    Seq<char>,
> {
    match state_dir_spec(env) {
        None => None,
        Some(dir) => Some(dir + "/bin/"@ + tool),
    }
}

/// Derives `<state dir>/bin/<tool>` from the environment snapshot,
/// failing when the environment has no `HOME` entry.
pub fn state_bin_path(env: &Vec<(String, String)>, tool: &String) -> (r: Result<
    String,
    ResolveError,
>)
    ensures
        match r {
            Ok(p) => state_bin_path_spec(env.deep_view(), tool@) == Some(p@),
            Err(e) => e@ is MissingHome && state_bin_path_spec(env.deep_view(), tool@) is None,
        },
{
    let home = match lookup_env(env, &"HOME".to_owned()) {
        Some(h) => h,
        None => {
            return Err(ResolveError::MissingHome);
        },
    };
    let mut dir = match lookup_env(env, &"XDG_STATE_HOME".to_owned()) {
        Some(state_home) => state_home,
        None => {
            let mut d = home;
            d.append("/.local");
            d
        },
    };
    dir.append("/bin/");
    dir.append(tool.as_str());
    Ok(dir)
}

/// Where a project keeps its own copy of `tool`:
/// `<root>/node_modules/.bin/<tool>`.
pub open spec fn project_bin_path_spec(root: Seq<char>, tool: Seq<char>) -> Seq<char> {
    root + "/node_modules/.bin/"@ + tool
}

/// Derives `<root>/node_modules/.bin/<tool>` from the worktree root.
pub fn project_bin_path(root: &String, tool: &String) -> (r: String)
    ensures
        r@ == project_bin_path_spec(root@, tool@),
{
    let mut p = root.clone();
    p.append("/node_modules/.bin/");
    p.append(tool.as_str());
    p
}

} // verus!
