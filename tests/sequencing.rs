use std::collections::HashMap;

use nixos_init::activate::{
    publish_steps, Step, BOOTED_SYSTEM_LINK, CURRENT_SYSTEM_LINK, FIRMWARE_HOOK, MODPROBE_HOOK,
};
use nixos_init::boot::{boot_advance, boot_work, BootStage, BootWork};
use nixos_init::helper::{
    resolution_result, resolver_args, root_switch_result, switch_root_args, HelperRun,
};
use nixos_init::pointer::{publish_cleanup, publish_pointer, temp_link_path, FsOp};
use nixos_init::{activate, Config, InitError};

fn config() -> Config {
    Config {
        toplevel: "/nix/store/abc-system".to_string(),
        firmware: "/nix/store/fw".to_string(),
        modprobe_binary: "/nix/store/kmod/bin/modprobe".to_string(),
        systemd_binary: "/nix/store/systemd/bin/systemd".to_string(),
    }
}

/// Files by path; a write into a path listed in `denied` fails.
struct Fs {
    files: HashMap<String, String>,
    denied: Vec<String>,
}

impl Fs {
    fn new() -> Fs {
        Fs { files: HashMap::new(), denied: vec![] }
    }

    fn perform(&mut self, op: &FsOp) -> bool {
        match op {
            FsOp::Symlink { target, path } | FsOp::Write { path, contents: target } => {
                if self.denied.contains(path) {
                    return false;
                }
                self.files.insert(path.clone(), target.clone());
                true
            }
            FsOp::Rename { from, to } => match self.files.remove(from) {
                Some(v) => {
                    self.files.insert(to.clone(), v);
                    true
                }
                None => false,
            },
            FsOp::Remove { path } => self.files.remove(path).is_some(),
        }
    }

    fn run(&mut self, steps: &[Step]) -> Result<(), InitError> {
        for step in steps {
            if !self.perform(&step.op) {
                if let Some(c) = &step.cleanup {
                    self.perform(c);
                }
                return Err(step.failure.clone());
            }
        }
        Ok(())
    }
}

#[test]
fn temporary_link_name() {
    assert_eq!(temp_link_path("/run/current-system", "42"), "/run/current-system.42");
}

#[test]
fn publish_is_symlink_then_rename() {
    assert_eq!(
        publish_pointer("/nix/store/a", "/run/current-system", "7"),
        vec![
            FsOp::Symlink {
                target: "/nix/store/a".to_string(),
                path: "/run/current-system.7".to_string()
            },
            FsOp::Rename {
                from: "/run/current-system.7".to_string(),
                to: "/run/current-system".to_string()
            },
        ]
    );
    assert_eq!(
        publish_cleanup("/run/current-system", "7"),
        FsOp::Remove { path: "/run/current-system.7".to_string() }
    );
}

#[test]
fn publish_on_first_boot() {
    let mut fs = Fs::new();
    fs.run(&publish_steps("/nix/store/a", BOOTED_SYSTEM_LINK, "1")).unwrap();
    assert_eq!(fs.files.get(BOOTED_SYSTEM_LINK), Some(&"/nix/store/a".to_string()));
    assert_eq!(fs.files.len(), 1);
}

#[test]
fn publish_over_existing_pointer() {
    let mut fs = Fs::new();
    fs.files.insert(BOOTED_SYSTEM_LINK.to_string(), "/nix/store/old".to_string());
    fs.run(&publish_steps("/nix/store/new", BOOTED_SYSTEM_LINK, "1")).unwrap();
    assert_eq!(fs.files.get(BOOTED_SYSTEM_LINK), Some(&"/nix/store/new".to_string()));
    assert_eq!(fs.files.len(), 1);
}

#[test]
fn publish_twice_is_publish_once() {
    let mut fs = Fs::new();
    let steps = publish_steps("/nix/store/a", CURRENT_SYSTEM_LINK, "1");
    fs.run(&steps).unwrap();
    let once = fs.files.clone();
    fs.run(&steps).unwrap();
    assert_eq!(fs.files, once);
}

#[test]
fn publish_never_leaves_pointer_missing() {
    let mut fs = Fs::new();
    fs.files.insert(CURRENT_SYSTEM_LINK.to_string(), "/nix/store/old".to_string());
    for step in publish_steps("/nix/store/new", CURRENT_SYSTEM_LINK, "1") {
        assert!(fs.perform(&step.op));
        let seen = fs.files.get(CURRENT_SYSTEM_LINK).cloned();
        assert!(seen == Some("/nix/store/old".to_string()) || seen == Some("/nix/store/new".to_string()));
    }
}

#[test]
fn failed_rename_removes_temporary_link() {
    let steps = publish_steps("/nix/store/a", CURRENT_SYSTEM_LINK, "9");
    assert_eq!(steps[0].failure, InitError::PointerPublishFailed(CURRENT_SYSTEM_LINK.to_string()));
    assert_eq!(steps[0].cleanup, None);
    assert_eq!(steps[1].failure, InitError::PointerPublishFailed(CURRENT_SYSTEM_LINK.to_string()));
    assert_eq!(
        steps[1].cleanup,
        Some(FsOp::Remove { path: "/run/current-system.9".to_string() })
    );
}

#[test]
fn activation_without_firmware_hook() {
    let steps = activate(&config(), false, "1");
    assert_eq!(steps.len(), 3);
    let mut fs = Fs::new();
    assert_eq!(fs.run(&steps), Ok(()));
    assert_eq!(fs.files.get(CURRENT_SYSTEM_LINK), Some(&"/nix/store/abc-system".to_string()));
    assert_eq!(fs.files.get(MODPROBE_HOOK), Some(&"/nix/store/kmod/bin/modprobe".to_string()));
    assert_eq!(fs.files.get(FIRMWARE_HOOK), None);
}

#[test]
fn activation_with_firmware_hook() {
    let steps = activate(&config(), true, "1");
    assert_eq!(steps.len(), 4);
    assert_eq!(
        steps[3].op,
        FsOp::Write { path: FIRMWARE_HOOK.to_string(), contents: "/nix/store/fw".to_string() }
    );
    assert_eq!(steps[3].failure, InitError::ActivationStepFailed(FIRMWARE_HOOK.to_string()));
    let mut fs = Fs::new();
    assert_eq!(fs.run(&steps), Ok(()));
    assert_eq!(fs.files.get(FIRMWARE_HOOK), Some(&"/nix/store/fw".to_string()));
}

#[test]
fn activation_twice_changes_nothing() {
    let mut fs = Fs::new();
    assert_eq!(fs.run(&activate(&config(), true, "1")), Ok(()));
    let once = fs.files.clone();
    assert_eq!(fs.run(&activate(&config(), true, "1")), Ok(()));
    assert_eq!(fs.files, once);
}

#[test]
fn failed_modprobe_write_keeps_pointer() {
    let mut fs = Fs::new();
    fs.denied.push(MODPROBE_HOOK.to_string());
    assert_eq!(
        fs.run(&activate(&config(), true, "1")),
        Err(InitError::ActivationStepFailed(MODPROBE_HOOK.to_string()))
    );
    assert_eq!(fs.files.get(CURRENT_SYSTEM_LINK), Some(&"/nix/store/abc-system".to_string()));
    assert_eq!(fs.files.get(FIRMWARE_HOOK), None);
}

#[test]
fn boot_walks_all_stages() {
    let c = config();
    let mut stage = BootStage::Start;
    let mut seen = vec![];
    while let Some(work) = boot_work(stage, &c, false, "1") {
        seen.push(work);
        stage = boot_advance(stage, Ok(())).unwrap();
    }
    assert_eq!(stage, BootStage::HandedOff);
    assert_eq!(seen.len(), 5);
    assert_eq!(seen[0], BootWork::CreateDirs("/usr/bin".to_string()));
    assert_eq!(seen[1], BootWork::LockDownStore);
    assert_eq!(seen[2], BootWork::RunSteps(publish_steps("/nix/store/abc-system", BOOTED_SYSTEM_LINK, "1")));
    assert_eq!(seen[3], BootWork::RunSteps(activate(&c, false, "1")));
    assert_eq!(seen[4], BootWork::HandOff("/nix/store/systemd/bin/systemd".to_string()));
}

#[test]
fn boot_stops_at_first_failure() {
    assert_eq!(
        boot_advance(BootStage::UsrPopulated, Err(InitError::StoreLockdownFailed)),
        Err(InitError::StoreLockdownFailed)
    );
    assert_eq!(
        boot_advance(BootStage::Start, Err(InitError::UsrSetupFailed)),
        Err(InitError::UsrSetupFailed)
    );
    assert_eq!(boot_advance(BootStage::StoreLockedDown, Ok(())), Ok(BootStage::BootedPointerPublished));
}

#[test]
fn failed_handoff_still_ends_boot() {
    assert_eq!(
        boot_advance(BootStage::Activated, Err(InitError::HandoffFailed)),
        Ok(BootStage::HandedOff)
    );
}

#[test]
fn resolver_results() {
    assert_eq!(resolver_args("/sysroot", "/init"), vec!["/sysroot".to_string(), "/init".to_string()]);
    assert_eq!(resolution_result(HelperRun::NotStarted), Err(InitError::ResolverUnavailable));
    assert_eq!(
        resolution_result(HelperRun::Failed { stderr: "no such file".to_string() }),
        Err(InitError::PathResolutionFailed("no such file".to_string()))
    );
    assert_eq!(
        resolution_result(HelperRun::Succeeded { stdout: b"/nix/store/abc/init".to_vec() }),
        Ok("/nix/store/abc/init".to_string())
    );
    assert_eq!(
        resolution_result(HelperRun::Succeeded { stdout: "/nix/ü".as_bytes().to_vec() }),
        Ok("/nix/ü".to_string())
    );
    assert_eq!(
        resolution_result(HelperRun::Succeeded { stdout: vec![0x2f, 0xff, 0xfe] }),
        Err(InitError::ResolverOutputInvalid)
    );
}

#[test]
fn root_switch_request() {
    assert_eq!(
        switch_root_args("/sysroot", "/nix/store/abc/init"),
        vec![
            "--no-block".to_string(),
            "switch-root".to_string(),
            "/sysroot".to_string(),
            "/nix/store/abc/init".to_string()
        ]
    );
    assert_eq!(root_switch_result(&HelperRun::Succeeded { stdout: vec![] }), Ok(()));
    assert_eq!(root_switch_result(&HelperRun::NotStarted), Err(InitError::RootSwitchRequestFailed));
    assert_eq!(
        root_switch_result(&HelperRun::Failed { stderr: "denied".to_string() }),
        Err(InitError::RootSwitchRequestFailed)
    );
}
