use vstd::prelude::*;

use crate::config::Config;
use crate::error::InitError;
use crate::pointer::{
    apply_op, apply_ops, lemma_apply_ops_append, lemma_publish_states, ops_view, publish_cleanup,
    publish_ops, publish_pointer, temp_link, FsOp, FsState, OpModel,
};

verus! {

/// The pointer to the system that is active now.
pub const CURRENT_SYSTEM_LINK: &'static str = "/run/current-system";

/// The pointer to the system that was booted.
pub const BOOTED_SYSTEM_LINK: &'static str = "/run/booted-system";

/// The kernel hook that names the program run for module loads.
pub const MODPROBE_HOOK: &'static str = "/proc/sys/kernel/modprobe";

/// The kernel hook that names an extra firmware directory; absent from
/// kernels built without it.
pub const FIRMWARE_HOOK: &'static str = "/sys/module/firmware_class/parameters/path";

/// One step of a sequence: the operation, the error that ends the sequence
/// when it fails, and what to undo before reporting that error.
#[derive(Clone, Debug, PartialEq, Eq)]
pub struct Step {
    pub op: FsOp,
    pub failure: InitError,
    pub cleanup: Option<FsOp>,
}

pub open spec fn steps_ops(steps: Seq<Step>) -> Seq<OpModel> {
    steps.map_values(|s: Step| s.op@)
}

/// The steps of `steps` from `from` on publish `link`: a failure of either is
/// reported as a failed publication of `link`, and a failed rename removes
/// the temporary link.
pub open spec fn publishes(steps: Seq<Step>, from: int, link: Seq<char>, tag: Seq<char>) -> bool {
    &&& steps[from].failure matches InitError::PointerPublishFailed(p) && p@ == link
    &&& steps[from].cleanup is None
    &&& steps[from + 1].failure matches InitError::PointerPublishFailed(p) && p@ == link
    &&& steps[from + 1].cleanup matches Some(c) && c@ == OpModel::Remove(temp_link(link, tag))
}

/// The step at `i` writes a kernel hook, and its failure is reported as a
/// failed activation step naming `hook`.
pub open spec fn writes_hook(steps: Seq<Step>, i: int, hook: Seq<char>) -> bool {
    &&& steps[i].failure matches InitError::ActivationStepFailed(p) && p@ == hook
    &&& steps[i].cleanup is None
}

/// The steps that publish the pointer `link` to `target`.
pub fn publish_steps(target: &str, link: &str, tag: &str) -> (r: Vec<Step>)
    ensures
        r@.len() == 2,
        steps_ops(r@) == publish_ops(target@, link@, tag@),
        publishes(r@, 0, link@, tag@),
{
    let mut ops = publish_pointer(target, link, tag);
    let ghost planned = ops@;
    assert(ops_view(planned)[0] == planned[0]@ && ops_view(planned)[1] == planned[1]@);
    let rename = ops.pop().unwrap();
    let symlink = ops.pop().unwrap();
    let r = vec![
        Step {
            op: symlink,
            failure: InitError::PointerPublishFailed(link.to_string()),
            cleanup: None,
        },
        Step {
            op: rename,
            failure: InitError::PointerPublishFailed(link.to_string()),
            cleanup: Some(publish_cleanup(link, tag)),
        },
    ];
    assert(steps_ops(r@) =~= publish_ops(target@, link@, tag@));
    r
}

/// The operations of one activation of the configuration `c` (closure,
/// firmware directory, modprobe binary, service manager).
pub open spec fn activation_ops(
    c: (Seq<char>, Seq<char>, Seq<char>, Seq<char>),
    firmware_hook: bool,
    tag: Seq<char>,
) -> Seq<OpModel> {
    publish_ops(c.0, CURRENT_SYSTEM_LINK@, tag) + seq![OpModel::Write(MODPROBE_HOOK@, c.2)] + if firmware_hook {
        seq![OpModel::Write(FIRMWARE_HOOK@, c.1)]
    } else {
        Seq::empty()
    }
}

/// Plans one activation of `config`, the same at boot and at every later
/// reconfiguration: publish the current-system pointer to the closure, write
/// the modprobe binary into the modprobe hook, then, only where the kernel
/// has the firmware hook, write the firmware directory into it. The steps run
/// in order and the first failure ends the run; nothing done before it is
/// undone.
pub fn activate(config: &Config, firmware_hook_present: bool, tag: &str) -> (r: Vec<Step>)
    ensures
        steps_ops(r@) == activation_ops(config@, firmware_hook_present, tag@),
        publishes(r@, 0, CURRENT_SYSTEM_LINK@, tag@),
        writes_hook(r@, 2, MODPROBE_HOOK@),
        firmware_hook_present ==> writes_hook(r@, 3, FIRMWARE_HOOK@),
{
    let mut r = publish_steps(config.toplevel.as_str(), CURRENT_SYSTEM_LINK, tag);
    r.push(
        Step {
            op: FsOp::Write {
                path: MODPROBE_HOOK.to_string(),
                contents: config.modprobe_binary.clone(),
            },
            failure: InitError::ActivationStepFailed(MODPROBE_HOOK.to_string()),
            cleanup: None,
        },
    );
    if firmware_hook_present {
        r.push(
            Step {
                op: FsOp::Write {
                    path: FIRMWARE_HOOK.to_string(),
                    contents: config.firmware.clone(),
                },
                failure: InitError::ActivationStepFailed(FIRMWARE_HOOK.to_string()),
                cleanup: None,
            },
        );
    }
    assert(steps_ops(r@) =~= activation_ops(config@, firmware_hook_present, tag@));
    r
}

/// The state after one activation.
pub open spec fn activated(
    fs: FsState,
    c: (Seq<char>, Seq<char>, Seq<char>, Seq<char>),
    firmware_hook: bool,
    tag: Seq<char>,
) -> FsState {
    let published = fs.remove(temp_link(CURRENT_SYSTEM_LINK@, tag)).insert(CURRENT_SYSTEM_LINK@, c.0);
    let probed = published.insert(MODPROBE_HOOK@, c.2);
    if firmware_hook {
        probed.insert(FIRMWARE_HOOK@, c.1)
    } else {
        probed
    }
}

proof fn lemma_activation_state(
    fs: FsState,
    c: (Seq<char>, Seq<char>, Seq<char>, Seq<char>),
    firmware_hook: bool,
    tag: Seq<char>,
)
    ensures
        apply_ops(fs, activation_ops(c, firmware_hook, tag)) == activated(fs, c, firmware_hook, tag),
        apply_ops(fs, activation_ops(c, firmware_hook, tag).take(2)) == fs.remove(
            temp_link(CURRENT_SYSTEM_LINK@, tag),
        ).insert(CURRENT_SYSTEM_LINK@, c.0),
        apply_ops(fs, activation_ops(c, firmware_hook, tag).take(3)) == fs.remove(
            temp_link(CURRENT_SYSTEM_LINK@, tag),
        ).insert(CURRENT_SYSTEM_LINK@, c.0).insert(MODPROBE_HOOK@, c.2),
{
    let p = publish_ops(c.0, CURRENT_SYSTEM_LINK@, tag);
    let w = seq![OpModel::Write(MODPROBE_HOOK@, c.2)];
    let f: Seq<OpModel> = if firmware_hook {
        seq![OpModel::Write(FIRMWARE_HOOK@, c.1)]
    } else {
        Seq::empty()
    };
    let ops = activation_ops(c, firmware_hook, tag);
    lemma_publish_states(fs, c.0, CURRENT_SYSTEM_LINK@, tag);
    lemma_apply_ops_append(fs, p, w);
    lemma_apply_ops_append(fs, p + w, f);
    let published = apply_ops(fs, p);
    assert(w.drop_last() =~= Seq::<OpModel>::empty());
    assert(apply_ops(published, w.drop_last()) == published);
    assert(apply_ops(published, w) == published.insert(MODPROBE_HOOK@, c.2));
    let probed = apply_ops(fs, p + w);
    assert(ops =~= p + w + f);
    assert(ops.take(2) =~= p);
    assert(ops.take(3) =~= p + w);
    if firmware_hook {
        assert(f.drop_last() =~= Seq::<OpModel>::empty());
        assert(apply_ops(probed, f.drop_last()) == probed);
        assert(apply_ops(probed, f) == probed.insert(FIRMWARE_HOOK@, c.1));
    } else {
        assert(apply_ops(probed, f) == probed);
    }
}

/// Activating the same configuration twice in a row leaves the pointers and
/// hook files as one activation left them.
pub proof fn lemma_activation_idempotent(
    fs: FsState,
    c: (Seq<char>, Seq<char>, Seq<char>, Seq<char>),
    firmware_hook: bool,
    tag: Seq<char>,
)
    ensures
        apply_ops(
            apply_ops(fs, activation_ops(c, firmware_hook, tag)),
            activation_ops(c, firmware_hook, tag),
        ) == apply_ops(fs, activation_ops(c, firmware_hook, tag)),
{
    let once = apply_ops(fs, activation_ops(c, firmware_hook, tag));
    lemma_activation_state(fs, c, firmware_hook, tag);
    lemma_activation_state(once, c, firmware_hook, tag);
    assert(activated(once, c, firmware_hook, tag) =~= once);
}

/// An activation that stops at a failed hook write keeps the current-system
/// pointer that its first steps published: nothing is rolled back.
pub proof fn lemma_failed_hook_keeps_pointer(
    fs: FsState,
    c: (Seq<char>, Seq<char>, Seq<char>, Seq<char>),
    firmware_hook: bool,
    tag: Seq<char>,
    failed_at: int,
)
    requires
        2 <= failed_at < activation_ops(c, firmware_hook, tag).len(),
    ensures
        apply_ops(fs, activation_ops(c, firmware_hook, tag).take(failed_at)).contains_key(
            CURRENT_SYSTEM_LINK@,
        ),
        apply_ops(fs, activation_ops(c, firmware_hook, tag).take(failed_at))[CURRENT_SYSTEM_LINK@]
            == c.0,
{
    lemma_activation_state(fs, c, firmware_hook, tag);
    reveal_strlit("/run/current-system");
    reveal_strlit("/proc/sys/kernel/modprobe");
    assert(CURRENT_SYSTEM_LINK@ != MODPROBE_HOOK@) by {
        assert(CURRENT_SYSTEM_LINK@.len() != MODPROBE_HOOK@.len());
    }
}

} // verus!
