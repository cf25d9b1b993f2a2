//! Release-asset naming and selection: the asset filename for a
//! platform, the versioned install directory, and the choice of stale
//! sibling directories to prune.
use vstd::prelude::*;
use vstd::string::StringExecFns;
use crate::model::{AbsAsset, Arch, Asset, Os, ResolveError};

verus! {

/// The filename under which a release publishes the binary for the
/// given operating system and architecture; none for the pairs no
/// release covers (32-bit x86).
pub open spec fn asset_name_spec(os: Os, arch: Arch) -> Option<Seq<char>> {
    match (os, arch) {
        (Os::Windows, Arch::Aarch64) => Some("design-tokens-language-server-win-arm64.exe"@),
        (Os::Windows, Arch::X8664) => Some("design-tokens-language-server-win-x64.exe"@),
        (Os::Mac, Arch::Aarch64) => Some("design-tokens-language-server-aarch64-apple-darwin"@),
        (Os::Mac, Arch::X8664) => Some("design-tokens-language-server-x86_64-apple-darwin"@),
        (Os::Linux, Arch::Aarch64) => Some(
            "design-tokens-language-server-aarch64-unknown-linux-gnu"@,
        ),
        (Os::Linux, Arch::X8664) => Some(
            "design-tokens-language-server-x86_64-unknown-linux-gnu"@,
        ),
        (_, Arch::X86) => None,
    }
}

/// Computes the release asset filename for a platform, failing on the
/// pairs no release covers.
pub fn asset_name(os: Os, arch: Arch) -> (r: Result<String, ResolveError>)
    ensures
        match r {
            Ok(n) => asset_name_spec(os, arch) == Some(n@),
            Err(e) => e@ is UnsupportedPlatform && asset_name_spec(os, arch) is None,
        },
{
    match (os, arch) {
        (Os::Windows, Arch::Aarch64) => Ok("design-tokens-language-server-win-arm64.exe".to_owned()),
        (Os::Windows, Arch::X8664) => Ok("design-tokens-language-server-win-x64.exe".to_owned()),
        (Os::Mac, Arch::Aarch64) => Ok(
            "design-tokens-language-server-aarch64-apple-darwin".to_owned(),
        ),
        (Os::Mac, Arch::X8664) => Ok("design-tokens-language-server-x86_64-apple-darwin".to_owned()),
        (Os::Linux, Arch::Aarch64) => Ok(
            "design-tokens-language-server-aarch64-unknown-linux-gnu".to_owned(),
        ),
        (Os::Linux, Arch::X8664) => Ok(
            "design-tokens-language-server-x86_64-unknown-linux-gnu".to_owned(),
        ),
        (_, Arch::X86) => Err(ResolveError::UnsupportedPlatform),
    }
}

/// The first asset of `assets` named `name`, if any.
pub open spec fn find_asset_spec(assets: Seq<AbsAsset>, name: Seq<char>) -> Option<AbsAsset>
    decreases assets.len(),
{
    if assets.len() == 0 {
        None
    } else if assets[0].name == name {
        Some(assets[0])
    } else {
        find_asset_spec(assets.drop_first(), name)
    }
}

/// Finds the first asset named `name`, returning its index.
pub fn find_asset(assets: &Vec<Asset>, name: &String) -> (r: Option<usize>)
    ensures
        match r {
            Some(i) => i < assets.len() && find_asset_spec(assets.deep_view(), name@) == Some(
                assets[i as int]@,
            ),
            None => find_asset_spec(assets.deep_view(), name@) is None,
        },
{
    let ghost all = assets.deep_view();
    proof {
        assert(all.skip(0) =~= all);
    }
    let mut i: usize = 0;
    while i < assets.len()
        invariant
            0 <= i <= assets.len(),
            all == assets.deep_view(),
            find_asset_spec(all, name@) == find_asset_spec(all.skip(i as int), name@),
        decreases assets.len() - i,
    {
        proof {
            assert(all[i as int] == assets[i as int]@);
            assert(all.skip(i as int)[0] == all[i as int]);
        }
        if assets[i].name == *name {
            proof {
                assert(find_asset_spec(all.skip(i as int), name@) == Some(assets[i as int]@));
            }
            return Some(i);
        }
        proof {
            let s = all.skip(i as int);
            assert(find_asset_spec(s, name@) == find_asset_spec(s.drop_first(), name@));
            assert(s.drop_first() =~= all.skip(i as int + 1));
        }
        i = i + 1;
    }
    proof {
        assert(all.skip(i as int) =~= Seq::<AbsAsset>::empty());
    }
    None
}

/// The install directory for a release version:
/// `design-tokens-language-server-<version>`.
pub open spec fn version_dir_spec(version: Seq<char>) -> Seq<char> {
    "design-tokens-language-server-"@ + version
}

/// Builds the versioned install directory name for a release.
pub fn version_dir_name(version: &String) -> (r: String)
    ensures
        r@ == version_dir_spec(version@),
{
    let mut d = "design-tokens-language-server-".to_owned();
    d.append(version.as_str());
    d
}

/// `dir` and `file` joined by a single path separator.
pub open spec fn joined_path_spec(dir: Seq<char>, file: Seq<char>) -> Seq<char> {
    dir + "/"@ + file
}

/// Joins a directory and a filename with a path separator.
pub fn join_path(dir: &String, file: &String) -> (r: String)
    ensures
        r@ == joined_path_spec(dir@, file@),
{
    let mut p = dir.clone();
    p.append("/");
    p.append(file.as_str());
    p
}

/// Holds of the directory entries that an install of `keep` makes
/// stale: everything not named `keep` itself.
pub open spec fn stale_pred(keep: Seq<char>) -> spec_fn(Seq<char>) -> bool {
    |e: Seq<char>| e != keep
}

/// The entries of a directory listing that a completed install makes
/// stale: every entry other than `keep`, in listing order.
pub open spec fn stale_of(entries: Seq<Seq<char>>, keep: Seq<char>) -> Seq<Seq<char>> {
    entries.filter(stale_pred(keep))
}

/// Selects the directory entries to prune after an install: everything
/// except `keep`, the directory of the version just installed.
pub fn stale_entries(entries: &Vec<String>, keep: &String) -> (r: Vec<String>)
    ensures
        r.deep_view() == stale_of(entries.deep_view(), keep@),
{
    let ghost all = entries.deep_view();
    let ghost pred = stale_pred(keep@);
    let mut r: Vec<String> = Vec::new();
    proof {
        reveal(Seq::filter);
        assert(r.deep_view() =~= all.take(0).filter(pred));
    }
    let mut i: usize = 0;
    while i < entries.len()
        invariant
            0 <= i <= entries.len(),
            all == entries.deep_view(),
            pred == stale_pred(keep@),
            r.deep_view() == all.take(i as int).filter(pred),
        decreases entries.len() - i,
    {
        let ghost r_before = r.deep_view();
        proof {
            assert(all[i as int] == entries[i as int]@);
        }
        if !(entries[i] == *keep) {
            r.push(entries[i].clone());
            proof {
                assert(r.deep_view() =~= r_before.push(all[i as int]));
            }
        }
        proof {
            reveal(Seq::filter);
            assert(all.take(i as int + 1).drop_last() =~= all.take(i as int));
            assert(all.take(i as int + 1).last() == all[i as int]);
        }
        i = i + 1;
    }
    proof {
        assert(all.take(entries.len() as int) =~= all);
    }
    r
}

/// The directory just installed is never selected for pruning, and
/// every other listed entry is.
pub proof fn lemma_stale_spares_only_current(entries: Seq<Seq<char>>, keep: Seq<char>)
    ensures
        !stale_of(entries, keep).contains(keep),
        forall|i: int|
            0 <= i < entries.len() && entries[i] != keep ==> stale_of(entries, keep).contains(
                entries[i],
            ),
        forall|i: int|
            0 <= i < stale_of(entries, keep).len() ==> entries.contains(
                #[trigger] stale_of(entries, keep)[i],
            ),
{
    broadcast use vstd::seq_lib::group_filter_ensures;

    let pred = stale_pred(keep);
    let out = stale_of(entries, keep);
    assert forall|i: int| 0 <= i < out.len() implies entries.contains(#[trigger] out[i]) by {
        assert(out.contains(out[i]));
        entries.lemma_filter_contains_rev(pred, out[i]);
    }
    if out.contains(keep) {
        let j = choose|j: int| 0 <= j < out.len() && out[j] == keep;
        assert(pred(out[j]));
    }
}

} // verus!
