use vstd::prelude::*;

verus! {

/// Every way in which a boot or an activation can fail.
#[derive(Clone, Debug, PartialEq, Eq)]
pub enum InitError {
    /// The kernel command line holds no `init=` parameter, or more than one.
    /// Carries the raw command line.
    MalformedBootParameters(String),
    /// The path resolution helper could not be started.
    ResolverUnavailable,
    /// The path resolution helper ran and reported an error (its message).
    PathResolutionFailed(String),
    /// The helper's output is not valid text.
    ResolverOutputInvalid,
    /// A system pointer could not be published (the pointer's path).
    PointerPublishFailed(String),
    /// The package store could not be made read-only.
    StoreLockdownFailed,
    /// A kernel hook file could not be written (the hook's path).
    ActivationStepFailed(String),
    /// A required environment variable is not set (its name).
    ConfigurationMissing(String),
    /// The minimal `/usr` hierarchy could not be created.
    UsrSetupFailed,
    /// The root switch request could not be made or was refused.
    RootSwitchRequestFailed,
    /// The service manager could not be started in place of this process.
    HandoffFailed,
}

} // verus!
