//! Where the project's manifest lives, and which directory the runner may
//! touch.

use vstd::prelude::*;

verus! {

/// What `std::path::Path::ends_with` answers for `path` and `child`: whether
/// the last components of `path` are the components of `child`.
pub uninterp spec fn path_ends_with(path: Seq<char>, child: Seq<char>) -> bool;

/// What `std::path::Path::parent` answers for `path`: the path without its
/// last component, or none where it ends in a root or a prefix, or is empty.
pub uninterp spec fn path_parent(path: Seq<char>) -> Option<Seq<char>>;

/// Relies on `std::path::Path::ends_with`, which compares whole components.
#[verifier::external_body]
fn ends_with(path: &str, child: &str) -> (r: bool)
    ensures
        r == path_ends_with(path@, child@),
{
    std::path::Path::new(path).ends_with(child)
}

/// Relies on `std::path::Path::parent`. The parent of a path given as a
/// `str` is a prefix of it, so it is kept as text unchanged.
#[verifier::external_body]
fn parent(path: &str) -> (r: Option<String>)
    ensures
        match r {
            Some(p) => path_parent(path@) == Some(p@),
            None => path_parent(path@) is None,
        },
{
    std::path::Path::new(path).parent().map(|p| p.to_string_lossy().into_owned())
}

/// The name of the directory that, when the manifest sits in it, is left for
/// its parent.
pub open spec fn forge_dir() -> Seq<char> {
    seq!['f', 'o', 'r', 'g', 'e']
}

/// The root chosen for a manifest directory `dir`, given whether `dir` ends
/// in a `forge` component and, where it does, its parent.
pub open spec fn root_choice(dir: Seq<char>, in_forge: bool, parent: Option<Seq<char>>) -> Seq<char> {
    if in_forge && parent is Some {
        parent->Some_0
    } else {
        dir
    }
}

/// The root that the runner is given for a manifest directory `dir`: the
/// parent of `dir` when `dir` ends in a `forge` component, else `dir` itself.
pub open spec fn manifest_root_of(dir: Seq<char>) -> Seq<char> {
    root_choice(dir, path_ends_with(dir, forge_dir()), path_parent(dir))
}

/// The root for `manifest_dir` once it is known whether the directory ends
/// in a `forge` component (`in_forge`) and what its parent is: the parent
/// where it does and has one, else `manifest_dir` itself.
pub fn choose_root(manifest_dir: &str, in_forge: bool, parent: Option<String>) -> (r: String)
    ensures
        r@ == root_choice(
            manifest_dir@,
            in_forge,
            match parent {
                Some(p) => Some(p@),
                None => None,
            },
        ),
{
    if in_forge {
        match parent {
            Some(p) => p,
            None => manifest_dir.to_owned(),
        }
    } else {
        manifest_dir.to_owned()
    }
}

/// The directory the runner treats as the workspace root, found from the
/// directory of the package manifest. When tests run from a `forge`
/// directory, its parent is taken so that sibling test data stays in reach.
/// A `forge` directory always has a parent; were there none, `manifest_dir` is kept.
pub fn manifest_root(manifest_dir: &str) -> (r: String)
    ensures
        r@ == manifest_root_of(manifest_dir@),
{
    let forge = "forge";
    proof {
        reveal_strlit("forge");
    }
    assert(forge@ == forge_dir());
    let in_forge = ends_with(manifest_dir, forge);
    let p = parent(manifest_dir);
    choose_root(manifest_dir, in_forge, p)
}

} // verus!
