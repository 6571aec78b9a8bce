use vstd::prelude::*;

use crate::error::InitError;
use crate::text::same_text;

verus! {

/// Where the package store lives.
pub const NIX_STORE_PATH: &'static str = "/nix/store";

/// Owner that the store is given.
pub const STORE_UID: u32 = 0;

/// Group that the store is given.
pub const STORE_GID: u32 = 0;

/// Mode that the store is given: group-writable, with the sticky bit.
pub const STORE_MODE: u32 = 0o1775;

/// One entry of the table of mounted filesystems, in mount order.
#[derive(Clone, Debug, PartialEq, Eq)]
pub struct MountEntry {
    pub mount_point: String,
    pub read_only: bool,
}

/// Entry `i` is the last one mounted on `path`: later entries shadow earlier ones.
pub open spec fn is_last_mount(mounts: Seq<MountEntry>, path: Seq<char>, i: int) -> bool {
    &&& 0 <= i < mounts.len()
    &&& mounts[i].mount_point@ == path
    &&& forall|j: int| i < j < mounts.len() ==> mounts[j].mount_point@ != path
}

/// Some entry is mounted on `path`.
pub open spec fn is_mounted(mounts: Seq<MountEntry>, path: Seq<char>) -> bool {
    exists|i: int| 0 <= i < mounts.len() && mounts[i].mount_point@ == path
}

/// Arguments of the `mount` call that bind-mounts `path` onto itself.
pub open spec fn bind_args(path: Seq<char>) -> Seq<Seq<char>> {
    seq!["--bind"@, path, path]
}

/// Arguments of the `mount` call that remounts the bind mount of `path` read-only.
pub open spec fn read_only_args(path: Seq<char>) -> Seq<Seq<char>> {
    seq!["-o"@, "remount,ro,bind"@, path]
}

/// The `mount` calls that make the filesystem last mounted on `path` read-only:
/// none if it already is, else a bind mount of `path` onto itself and a
/// read-only remount of that bind mount.
pub open spec fn lockdown_calls(mounts: Seq<MountEntry>, path: Seq<char>, i: int) -> Seq<
    Seq<Seq<char>>,
> {
    if mounts[i].read_only {
        Seq::empty()
    } else {
        seq![bind_args(path), read_only_args(path)]
    }
}

/// Finds the entry last mounted on `path`.
pub fn find_last_mount(mounts: &Vec<MountEntry>, path: &str) -> (r: Option<usize>)
    ensures
        r is None <==> !is_mounted(mounts@, path@),
        r matches Some(i) ==> is_last_mount(mounts@, path@, i as int),
{
    let mut k: usize = mounts.len();
    while k > 0
        invariant
            k <= mounts@.len(),
            forall|j: int| k <= j < mounts@.len() ==> mounts@[j].mount_point@ != path@,
        decreases k,
    {
        if same_text(mounts[k - 1].mount_point.as_str(), path) {
            return Some(k - 1);
        }
        k = k - 1;
    }
    None
}

/// Plans the read-only remount of the package store at `path`.
///
/// Returns the arguments of each `mount` call to make, in order: none when the
/// last entry mounted on `path` is already read-only. With no entry mounted on
/// `path` the store cannot be locked down.
pub fn store_remount_calls(mounts: &Vec<MountEntry>, path: &str) -> (r: Result<
    Vec<Vec<String>>,
    InitError,
>)
    ensures
        r is Err <==> !is_mounted(mounts@, path@),
        r matches Err(e) ==> e is StoreLockdownFailed,
        r matches Ok(calls) ==> exists|i: int|
            is_last_mount(mounts@, path@, i) && calls.deep_view() == lockdown_calls(
                mounts@,
                path@,
                i,
            ),
{
    match find_last_mount(mounts, path) {
        None => Err(InitError::StoreLockdownFailed),
        Some(i) => {
            let mut calls: Vec<Vec<String>> = Vec::new();
            if !mounts[i].read_only {
                let bind = vec!["--bind".to_string(), path.to_string(), path.to_string()];
                let ro = vec!["-o".to_string(), "remount,ro,bind".to_string(), path.to_string()];
                calls.push(bind);
                calls.push(ro);
                assert(calls.deep_view()[0] =~= bind_args(path@));
                assert(calls.deep_view()[1] =~= read_only_args(path@));
            }
            assert(calls.deep_view() =~= lockdown_calls(mounts@, path@, i as int));
            Ok(calls)
        },
    }
}

} // verus!
