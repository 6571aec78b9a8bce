use vstd::prelude::*;

verus! {

/// The state of the files that activation touches: each path that exists,
/// with the target of its symlink or the contents of its file.
pub type FsState = Map<Seq<char>, Seq<char>>;

/// One filesystem operation for the program around the library to perform.
#[derive(Clone, Debug, PartialEq, Eq)]
pub enum FsOp {
    /// Create a symlink at `path` that points at `target`.
    Symlink { target: String, path: String },
    /// Rename `from` over `to`, in one atomic step.
    Rename { from: String, to: String },
    /// Remove the link at `path`.
    Remove { path: String },
    /// Write `contents` into the file at `path`.
    Write { path: String, contents: String },
}

/// An operation with its strings as character sequences.
pub enum OpModel {
    Symlink(Seq<char>, Seq<char>),
    Rename(Seq<char>, Seq<char>),
    Remove(Seq<char>),
    Write(Seq<char>, Seq<char>),
}

impl FsOp {
    pub open spec fn view(&self) -> OpModel {
        match self {
            FsOp::Symlink { target, path } => OpModel::Symlink(target@, path@),
            FsOp::Rename { from, to } => OpModel::Rename(from@, to@),
            FsOp::Remove { path } => OpModel::Remove(path@),
            FsOp::Write { path, contents } => OpModel::Write(path@, contents@),
        }
    }
}

pub open spec fn ops_view(ops: Seq<FsOp>) -> Seq<OpModel> {
    ops.map_values(|op: FsOp| op@)
}

/// The state after `op` succeeds on `fs`.
pub open spec fn apply_op(fs: FsState, op: OpModel) -> FsState {
    match op {
        OpModel::Symlink(target, path) => fs.insert(path, target),
        OpModel::Rename(from, to) => if fs.contains_key(from) {
            fs.remove(from).insert(to, fs[from])
        } else {
            fs
        },
        OpModel::Remove(path) => fs.remove(path),
        OpModel::Write(path, contents) => fs.insert(path, contents),
    }
}

/// The state after `ops` succeed on `fs`, one after another.
pub open spec fn apply_ops(fs: FsState, ops: Seq<OpModel>) -> FsState
    decreases ops.len(),
{
    if ops.len() == 0 {
        fs
    } else {
        apply_op(apply_ops(fs, ops.drop_last()), ops.last())
    }
}

/// The name of the temporary link used to publish `link`: `link`, a dot and `tag`.
pub open spec fn temp_link(link: Seq<char>, tag: Seq<char>) -> Seq<char> {
    link + "."@ + tag
}

/// The operations that publish the pointer `link` to `target`: a new symlink
/// under a temporary name beside `link`, renamed over `link`.
pub open spec fn publish_ops(target: Seq<char>, link: Seq<char>, tag: Seq<char>) -> Seq<OpModel> {
    seq![
        OpModel::Symlink(target, temp_link(link, tag)),
        OpModel::Rename(temp_link(link, tag), link),
    ]
}

/// Running `a` then `b` is running `a + b`.
pub proof fn lemma_apply_ops_append(fs: FsState, a: Seq<OpModel>, b: Seq<OpModel>)
    ensures
        apply_ops(fs, a + b) == apply_ops(apply_ops(fs, a), b),
    decreases b.len(),
{
    if b.len() == 0 {
        assert(a + b =~= a);
    } else {
        assert((a + b).drop_last() =~= a + b.drop_last());
        lemma_apply_ops_append(fs, a, b.drop_last());
    }
}

/// The states that a publication goes through: the state before it, the
/// state with the temporary link, and the state with `link` renamed into place.
pub proof fn lemma_publish_states(fs: FsState, target: Seq<char>, link: Seq<char>, tag: Seq<char>)
    ensures
        temp_link(link, tag) != link,
        apply_ops(fs, publish_ops(target, link, tag).take(0)) == fs,
        apply_ops(fs, publish_ops(target, link, tag).take(1)) == fs.insert(
            temp_link(link, tag),
            target,
        ),
        apply_ops(fs, publish_ops(target, link, tag)) == fs.remove(temp_link(link, tag)).insert(
            link,
            target,
        ),
{
    let ops = publish_ops(target, link, tag);
    let tmp = temp_link(link, tag);
    reveal_strlit(".");
    assert(tmp.len() > link.len());
    assert(ops.take(0) =~= Seq::<OpModel>::empty());
    assert(ops.take(1).drop_last() =~= Seq::<OpModel>::empty());
    assert(ops.drop_last() =~= ops.take(1));
    let mid = fs.insert(tmp, target);
    assert(apply_ops(fs, ops.take(1).drop_last()) == fs);
    assert(apply_ops(fs, ops.take(1)) == mid);
    assert(apply_ops(fs, ops) == apply_op(mid, ops.last()));
    assert(mid.contains_key(tmp) && mid[tmp] == target);
    assert(apply_op(mid, ops.last()) == mid.remove(tmp).insert(link, target));
    assert(mid.remove(tmp).insert(link, target) =~= fs.remove(tmp).insert(link, target));
}

/// Publishing a pointer makes it point at the target, whether it did not
/// exist before (first boot) or pointed elsewhere, and leaves no temporary
/// link behind.
pub proof fn lemma_publish_sets_pointer(fs: FsState, target: Seq<char>, link: Seq<char>, tag: Seq<char>)
    ensures
        apply_ops(fs, publish_ops(target, link, tag)).contains_key(link),
        apply_ops(fs, publish_ops(target, link, tag))[link] == target,
        !apply_ops(fs, publish_ops(target, link, tag)).contains_key(temp_link(link, tag)),
{
    lemma_publish_states(fs, target, link, tag);
}

/// Publishing the same target twice in a row leaves the same state as
/// publishing it once.
pub proof fn lemma_publish_idempotent(fs: FsState, target: Seq<char>, link: Seq<char>, tag: Seq<char>)
    ensures
        apply_ops(apply_ops(fs, publish_ops(target, link, tag)), publish_ops(target, link, tag))
            == apply_ops(fs, publish_ops(target, link, tag)),
{
    let once = apply_ops(fs, publish_ops(target, link, tag));
    lemma_publish_states(fs, target, link, tag);
    lemma_publish_states(once, target, link, tag);
    let tmp = temp_link(link, tag);
    assert(once.remove(tmp).insert(link, target) =~= once);
}

/// A reader of `link` never finds it missing while it is published: in every
/// state that the publication goes through, a pointer that existed still
/// exists, and points at its old target or at the new one.
pub proof fn lemma_publish_never_missing(
    fs: FsState,
    target: Seq<char>,
    link: Seq<char>,
    tag: Seq<char>,
    k: int,
)
    requires
        0 <= k <= 2,
        fs.contains_key(link),
    ensures
        apply_ops(fs, publish_ops(target, link, tag).take(k)).contains_key(link),
        apply_ops(fs, publish_ops(target, link, tag).take(k))[link] == fs[link]
            || apply_ops(fs, publish_ops(target, link, tag).take(k))[link] == target,
{
    lemma_publish_states(fs, target, link, tag);
    assert(publish_ops(target, link, tag).take(2) =~= publish_ops(target, link, tag));
}

/// Joins `link`, a dot and `tag`.
pub fn temp_link_path(link: &str, tag: &str) -> (r: String)
    ensures
        r@ == temp_link(link@, tag@),
{
    let mut r = link.to_string();
    r.append(".");
    r.append(tag);
    r
}

/// Plans the atomic publication of the pointer `link` to `target`: a symlink
/// made under the temporary name [`temp_link_path`]`(link, tag)`, then renamed
/// over `link`. A reader of `link` sees the old target until the rename and
/// the new one after it. `tag` tells this publication apart from others
/// under way (a process id).
pub fn publish_pointer(target: &str, link: &str, tag: &str) -> (r: Vec<FsOp>)
    ensures
        r@.len() == 2,
        ops_view(r@) == publish_ops(target@, link@, tag@),
{
    let r = vec![
        FsOp::Symlink { target: target.to_string(), path: temp_link_path(link, tag) },
        FsOp::Rename { from: temp_link_path(link, tag), to: link.to_string() },
    ];
    assert(ops_view(r@) =~= publish_ops(target@, link@, tag@));
    r
}

/// The operation that removes the temporary link of a publication whose
/// rename failed, so that no stale name is left behind.
pub fn publish_cleanup(link: &str, tag: &str) -> (r: FsOp)
    ensures
        r@ == OpModel::Remove(temp_link(link@, tag@)),
{
    FsOp::Remove { path: temp_link_path(link, tag) }
}

} // verus!
