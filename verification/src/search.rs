//! The ancestor search: find the nearest directory, from the working
//! directory outward toward the filesystem root, that holds a `package.json`.
//!
//! The caller probes the filesystem and hands the results over as plain
//! values: the ancestor directories in order, nearest first, and for each
//! whether a `package.json` exists at its top level. A probe that fails at
//! the OS level counts as "absent".
use vstd::prelude::*;
use vstd::string::{StrSliceExecFns, StringExecFns};

verus! {

/// The path of the manifest inside a directory: the directory's path, a
/// separator unless one already ends it, and the file name `package.json`.
pub open spec fn spec_join_manifest(dir: Seq<char>) -> Seq<char> {
    if dir.len() > 0 && dir.last() == '/' {
        dir + "package.json"@
    } else {
        dir + "/package.json"@
    }
}

/// The manifest's path inside the directory when one exists there, and
/// nothing otherwise.
pub fn try_dir(dir: &str, has_manifest: bool) -> (r: Option<String>)
    ensures
        (r matches Some(p) ==> has_manifest && p@ == spec_join_manifest(dir@)),
        r is None <==> !has_manifest,
{
    if has_manifest {
        let n = dir.unicode_len();
        let mut p = dir.to_owned();
        if n > 0 && dir.get_char(n - 1) == '/' {
            p.append("package.json");
        } else {
            p.append("/package.json");
        }
        Some(p)
    } else {
        None
    }
}

/// The position of the nearest ancestor that holds a manifest: the least
/// index with a positive probe. `has_manifest[0]` stands for the starting
/// directory itself, each later entry for the next parent toward the root.
pub fn find_manifest_index(has_manifest: &Vec<bool>) -> (r: Option<usize>)
    ensures
        (r matches Some(i) ==> i < has_manifest@.len() && has_manifest@[i as int] && (forall|j: int|
            0 <= j < i ==> !has_manifest@[j])),
        r is None <==> (forall|j: int| 0 <= j < has_manifest@.len() ==> !has_manifest@[j]),
{
    let n = has_manifest.len();
    for i in 0..n
        invariant
            n == has_manifest@.len(),
            forall|j: int| 0 <= j < i ==> !has_manifest@[j],
    {
        if has_manifest[i] {
            return Some(i);
        }
    }
    None
}

} // verus!
