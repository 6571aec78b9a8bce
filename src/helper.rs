use vstd::prelude::*;
use vstd::utf8::{decode_utf8, valid_utf8};

use crate::error::InitError;

verus! {

/// Where the real root filesystem is mounted inside the boot ramdisk.
pub const SYSROOT_PATH: &'static str = "/sysroot";

/// What came of running a helper program.
#[derive(Clone, Debug, PartialEq, Eq)]
pub enum HelperRun {
    /// The program could not be started (most likely it is not on PATH).
    NotStarted,
    /// The program ran and exited unsuccessfully, with this diagnostic output.
    Failed { stderr: String },
    /// The program ran and exited successfully, with this standard output.
    Succeeded { stdout: Vec<u8> },
}

/// Relies on `String::from_utf8`: it accepts exactly the valid UTF-8 byte
/// sequences and yields the text they encode.
#[verifier::external_body]
fn decode_text(bytes: Vec<u8>) -> (r: Option<String>)
    ensures
        r is Some <==> valid_utf8(bytes@),
        r matches Some(s) ==> s@ == decode_utf8(bytes@),
{
    String::from_utf8(bytes).ok()
}

/// Arguments of the helper that resolves `path` as if `root` were `/`.
pub fn resolver_args(root: &str, path: &str) -> (r: Vec<String>)
    ensures
        r.deep_view() == seq![root@, path@],
{
    let r = vec![root.to_string(), path.to_string()];
    assert(r.deep_view() =~= seq![root@, path@]);
    r
}

/// Interprets a run of the path resolution helper: the path it printed,
/// unchanged, or why there is none. A helper that could not be started is an
/// environment problem and is told apart from one that reported an error.
pub fn resolution_result(run: HelperRun) -> (r: Result<String, InitError>)
    ensures
        match run {
            HelperRun::NotStarted => r matches Err(e) && e is ResolverUnavailable,
            HelperRun::Failed { stderr } => r matches Err(e) && e matches InitError::PathResolutionFailed(m) && m@ == stderr@,
            HelperRun::Succeeded { stdout } => if valid_utf8(stdout@) {
                r matches Ok(p) && p@ == decode_utf8(stdout@)
            } else {
                r matches Err(e) && e is ResolverOutputInvalid
            },
        },
{
    match run {
        HelperRun::NotStarted => Err(InitError::ResolverUnavailable),
        HelperRun::Failed { stderr } => Err(InitError::PathResolutionFailed(stderr)),
        HelperRun::Succeeded { stdout } => match decode_text(stdout) {
            Some(p) => Ok(p),
            None => Err(InitError::ResolverOutputInvalid),
        },
    }
}

/// Arguments of the service manager call that asks, without waiting, for the
/// root to be switched to `root` with `init` as the new init.
pub fn switch_root_args(root: &str, init: &str) -> (r: Vec<String>)
    ensures
        r.deep_view() == seq!["--no-block"@, "switch-root"@, root@, init@],
{
    let r = vec!["--no-block".to_string(), "switch-root".to_string(), root.to_string(), init.to_string()];
    assert(r.deep_view() =~= seq!["--no-block"@, "switch-root"@, root@, init@]);
    r
}

/// Interprets a run of the root switch request: success only when the
/// request was made and accepted.
pub fn root_switch_result(run: &HelperRun) -> (r: Result<(), InitError>)
    ensures
        r is Ok <==> run is Succeeded,
        r matches Err(e) ==> e is RootSwitchRequestFailed,
{
    match run {
        HelperRun::Succeeded { .. } => Ok(()),
        _ => Err(InitError::RootSwitchRequestFailed),
    }
}

} // verus!
