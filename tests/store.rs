use nixos_init::store::{find_last_mount, store_remount_calls, MountEntry};
use nixos_init::{InitError, NIX_STORE_PATH};

fn entry(mount_point: &str, read_only: bool) -> MountEntry {
    MountEntry { mount_point: mount_point.to_string(), read_only }
}

fn remount_calls() -> Vec<Vec<String>> {
    vec![
        vec!["--bind".to_string(), "/nix/store".to_string(), "/nix/store".to_string()],
        vec!["-o".to_string(), "remount,ro,bind".to_string(), "/nix/store".to_string()],
    ]
}

#[test]
fn read_only_store_needs_no_mount_call() {
    let mounts = vec![entry("/", false), entry("/nix/store", true)];
    assert_eq!(store_remount_calls(&mounts, NIX_STORE_PATH), Ok(vec![]));
}

#[test]
fn writable_store_is_bind_mounted_and_remounted() {
    let mounts = vec![entry("/", false), entry("/nix/store", false), entry("/boot", false)];
    assert_eq!(store_remount_calls(&mounts, NIX_STORE_PATH), Ok(remount_calls()));
}

#[test]
fn last_store_mount_decides_writable() {
    let mounts = vec![entry("/nix/store", true), entry("/", false), entry("/nix/store", false)];
    assert_eq!(find_last_mount(&mounts, NIX_STORE_PATH), Some(2));
    assert_eq!(store_remount_calls(&mounts, NIX_STORE_PATH), Ok(remount_calls()));
}

#[test]
fn last_store_mount_decides_read_only() {
    let mounts = vec![entry("/nix/store", false), entry("/nix/store", true), entry("/", false)];
    assert_eq!(find_last_mount(&mounts, NIX_STORE_PATH), Some(1));
    assert_eq!(store_remount_calls(&mounts, NIX_STORE_PATH), Ok(vec![]));
}

#[test]
fn unmounted_store_cannot_be_locked_down() {
    let mounts = vec![entry("/", false), entry("/nix", false), entry("/nix/store/x", false)];
    assert_eq!(find_last_mount(&mounts, NIX_STORE_PATH), None);
    assert_eq!(store_remount_calls(&mounts, NIX_STORE_PATH), Err(InitError::StoreLockdownFailed));
}

#[test]
fn no_mounts_at_all() {
    assert_eq!(store_remount_calls(&vec![], NIX_STORE_PATH), Err(InitError::StoreLockdownFailed));
}
