use vstd::prelude::*;

use crate::activate::{
    activate, activation_ops, publish_steps, publishes, steps_ops, writes_hook, Step,
    BOOTED_SYSTEM_LINK, CURRENT_SYSTEM_LINK, FIRMWARE_HOOK, MODPROBE_HOOK,
};
use crate::config::Config;
use crate::error::InitError;
use crate::pointer::publish_ops;

verus! {

/// The directory that the service manager needs before it starts.
pub const USR_BIN_PATH: &'static str = "/usr/bin";

/// How far a boot has come. Each stage is reached only once every earlier
/// one has been.
#[derive(PartialEq, Eq, Structural, Clone, Copy, Debug)]
pub enum BootStage {
    Start,
    UsrPopulated,
    StoreLockedDown,
    BootedPointerPublished,
    Activated,
    HandedOff,
}

/// The work that leads from one stage to the next.
#[derive(Clone, Debug, PartialEq, Eq)]
pub enum BootWork {
    /// Create the directory and its parents.
    CreateDirs(String),
    /// Give the store its owner and mode, where the filesystem allows it
    /// (a failure there is logged and passed over), then remount it read-only.
    LockDownStore,
    /// Run these steps in order, ending at the first failure.
    RunSteps(Vec<Step>),
    /// Replace this process with the service manager, passing on the
    /// process's own arguments.
    HandOff(String),
}

/// The stage that follows `s`.
pub open spec fn next_stage(s: BootStage) -> BootStage {
    match s {
        BootStage::Start => BootStage::UsrPopulated,
        BootStage::UsrPopulated => BootStage::StoreLockedDown,
        BootStage::StoreLockedDown => BootStage::BootedPointerPublished,
        BootStage::BootedPointerPublished => BootStage::Activated,
        BootStage::Activated => BootStage::HandedOff,
        BootStage::HandedOff => BootStage::HandedOff,
    }
}

/// The work that leaves `stage`, for a boot of `config`; none once the
/// service manager has taken over. `firmware_hook_present` tells whether the
/// kernel has the firmware hook; `tag` names the temporary links.
pub fn boot_work(stage: BootStage, config: &Config, firmware_hook_present: bool, tag: &str) -> (r:
    Option<BootWork>)
    ensures
        match stage {
            BootStage::Start => r matches Some(BootWork::CreateDirs(p)) && p@ == USR_BIN_PATH@,
            BootStage::UsrPopulated => r matches Some(BootWork::LockDownStore),
            BootStage::StoreLockedDown => r matches Some(BootWork::RunSteps(steps)) && steps_ops(
                steps@,
            ) == publish_ops(config.toplevel@, BOOTED_SYSTEM_LINK@, tag@) && publishes(
                steps@,
                0,
                BOOTED_SYSTEM_LINK@,
                tag@,
            ),
            BootStage::BootedPointerPublished => r matches Some(BootWork::RunSteps(steps))
                && steps_ops(steps@) == activation_ops(config@, firmware_hook_present, tag@)
                && publishes(steps@, 0, CURRENT_SYSTEM_LINK@, tag@) && writes_hook(
                steps@,
                2,
                MODPROBE_HOOK@,
            ) && (firmware_hook_present ==> writes_hook(steps@, 3, FIRMWARE_HOOK@)),
            BootStage::Activated => r matches Some(BootWork::HandOff(b)) && b@
                == config.systemd_binary@,
            BootStage::HandedOff => r is None,
        },
{
    match stage {
        BootStage::Start => Some(BootWork::CreateDirs(USR_BIN_PATH.to_string())),
        BootStage::UsrPopulated => Some(BootWork::LockDownStore),
        BootStage::StoreLockedDown => Some(
            BootWork::RunSteps(publish_steps(config.toplevel.as_str(), BOOTED_SYSTEM_LINK, tag)),
        ),
        BootStage::BootedPointerPublished => Some(
            BootWork::RunSteps(activate(config, firmware_hook_present, tag)),
        ),
        BootStage::Activated => Some(BootWork::HandOff(config.systemd_binary.clone())),
        BootStage::HandedOff => None,
    }
}

/// The stage a boot reaches when the work that leaves `stage` ends with
/// `outcome`. Any failure ends the boot with its error, except that of the
/// handoff: once the service manager has been asked to take over there is
/// nothing left for this process to do.
pub fn boot_advance(stage: BootStage, outcome: Result<(), InitError>) -> (r: Result<
    BootStage,
    InitError,
>)
    requires
        stage != BootStage::HandedOff,
    ensures
        match outcome {
            Ok(()) => r == Ok::<BootStage, InitError>(next_stage(stage)),
            Err(e) => if stage == BootStage::Activated {
                r == Ok::<BootStage, InitError>(BootStage::HandedOff)
            } else {
                r == Err::<BootStage, InitError>(e)
            },
        },
{
    let next = match stage {
        BootStage::Start => BootStage::UsrPopulated,
        BootStage::UsrPopulated => BootStage::StoreLockedDown,
        BootStage::StoreLockedDown => BootStage::BootedPointerPublished,
        BootStage::BootedPointerPublished => BootStage::Activated,
        BootStage::Activated => BootStage::HandedOff,
        BootStage::HandedOff => BootStage::HandedOff,
    };
    match outcome {
        Ok(()) => Ok(next),
        Err(e) => if stage == BootStage::Activated {
            Ok(BootStage::HandedOff)
        } else {
            Err(e)
        },
    }
}

} // verus!
