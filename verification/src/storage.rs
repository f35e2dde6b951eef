//! The files under the podcast root, and the steps that replace the state
//! file without ever leaving a half-written one in its place.

use vstd::prelude::*;

verus! {

/// One step on the files under the podcast root.
#[derive(Clone, Debug, PartialEq, Eq)]
pub enum FileOp {
    /// Create or truncate the file `name` and write `data` into it.
    Write { name: String, data: String },
    /// Rename the file `from` to `to`, replacing what `to` held, in one step.
    Rename { from: String, to: String },
}

/// What a `FileOp` holds, as plain text.
pub enum FileOpView {
    Write { name: Seq<char>, data: Seq<char> },
    Rename { from: Seq<char>, to: Seq<char> },
}

impl View for FileOp {
    type V = FileOpView;

    open spec fn view(&self) -> FileOpView {
        match self {
            FileOp::Write { name, data } => FileOpView::Write { name: name@, data: data@ },
            FileOp::Rename { from, to } => FileOpView::Rename { from: from@, to: to@ },
        }
    }
}

/// The views of a sequence of steps.
pub open spec fn op_views(ops: Seq<FileOp>) -> Seq<FileOpView> {
    Seq::new(ops.len(), |i: int| ops[i]@)
}

/// The name of the state file.
pub open spec fn state_name() -> Seq<char> {
    ".subscriptions"@
}

/// The name of the file that a new state is written to first.
pub open spec fn temp_name() -> Seq<char> {
    ".subscriptions.tmp"@
}

/// The name of the configuration file.
pub open spec fn config_name() -> Seq<char> {
    ".config"@
}

/// The name of the state file, relative to the podcast root.
pub fn state_file() -> (name: &'static str)
    ensures
        name@ == state_name(),
{
    ".subscriptions"
}

/// The name of the temporary state file, relative to the podcast root.
pub fn temp_state_file() -> (name: &'static str)
    ensures
        name@ == temp_name(),
{
    ".subscriptions.tmp"
}

/// The name of the configuration file, relative to the podcast root.
pub fn config_file() -> (name: &'static str)
    ensures
        name@ == config_name(),
{
    ".config"
}

/// The files after a step that ran to its end. Renaming a file that does not
/// exist changes nothing.
pub open spec fn apply(files: Map<Seq<char>, Seq<char>>, op: FileOpView) -> Map<Seq<char>, Seq<char>> {
    match op {
        FileOpView::Write { name, data } => files.insert(name, data),
        FileOpView::Rename { from, to } => if files.dom().contains(from) {
            files.remove(from).insert(to, files[from])
        } else {
            files
        },
    }
}

/// Whether `after` may be what the files hold when the process dies during a
/// step: a write may have put down any leading part of its data, a rename has
/// happened or has not.
pub open spec fn interrupted(
    files: Map<Seq<char>, Seq<char>>,
    op: FileOpView,
    after: Map<Seq<char>, Seq<char>>,
) -> bool {
    ||| after == files
    ||| after == apply(files, op)
    ||| op matches FileOpView::Write { name, data } && exists|k: int|
        0 <= k <= data.len() && after == files.insert(name, #[trigger] data.subrange(0, k))
}

/// The files after all of `ops` ran, one after the other.
pub open spec fn run(files: Map<Seq<char>, Seq<char>>, ops: Seq<FileOpView>) -> Map<Seq<char>, Seq<char>>
    decreases ops.len(),
{
    if ops.len() == 0 {
        files
    } else {
        run(apply(files, ops[0]), ops.drop_first())
    }
}

/// Whether `after` may be what the files hold when the process dies at any
/// point while it runs `ops`.
pub open spec fn may_crash_into(
    files: Map<Seq<char>, Seq<char>>,
    ops: Seq<FileOpView>,
    after: Map<Seq<char>, Seq<char>>,
) -> bool
    decreases ops.len(),
{
    if ops.len() == 0 {
        after == files
    } else {
        interrupted(files, ops[0], after) || may_crash_into(
            apply(files, ops[0]),
            ops.drop_first(),
            after,
        )
    }
}

/// What a reader finds under `name`.
pub open spec fn read(files: Map<Seq<char>, Seq<char>>, name: Seq<char>) -> Option<Seq<char>> {
    if files.dom().contains(name) {
        Some(files[name])
    } else {
        None
    }
}

/// The steps that save a serialized state: write it to the temporary file,
/// then rename that file over the state file.
pub open spec fn save_ops(data: Seq<char>) -> Seq<FileOpView> {
    seq![
        FileOpView::Write { name: temp_name(), data: data },
        FileOpView::Rename { from: temp_name(), to: state_name() },
    ]
}

/// The steps that save a serialized state.
pub fn save_steps(serialized: String) -> (ops: Vec<FileOp>)
    ensures
        op_views(ops@) == save_ops(serialized@),
{
    let mut ops: Vec<FileOp> = Vec::new();
    ops.push(FileOp::Write { name: temp_state_file().to_owned(), data: serialized });
    ops.push(FileOp::Rename { from: temp_state_file().to_owned(), to: state_file().to_owned() });
    assert(op_views(ops@) =~= save_ops(serialized@));
    ops
}

/// The temporary file is not the state file.
pub proof fn lemma_names_differ()
    ensures
        temp_name() != state_name(),
        temp_name() != config_name(),
        state_name() != config_name(),
{
    reveal_strlit(".subscriptions");
    reveal_strlit(".subscriptions.tmp");
    reveal_strlit(".config");
    assert(temp_name().len() == 18);
    assert(state_name().len() == 14);
    assert(config_name().len() == 7);
}

/// A save that runs to its end leaves the serialized state in the state file,
/// no temporary file, and every other file as it was.
pub proof fn lemma_save_completes(files: Map<Seq<char>, Seq<char>>, data: Seq<char>)
    ensures
        read(run(files, save_ops(data)), state_name()) == Some(data),
        read(run(files, save_ops(data)), temp_name()) is None,
        forall|name: Seq<char>|
            name != state_name() && name != temp_name() ==> read(
                run(files, save_ops(data)),
                name,
            ) == read(files, name),
{
    lemma_names_differ();
    let ops = save_ops(data);
    let written = apply(files, ops[0]);
    assert(ops.drop_first() =~= seq![ops[1]]);
    assert(ops.drop_first().drop_first() =~= Seq::<FileOpView>::empty());
    reveal_with_fuel(run, 3);
    assert(run(files, ops) == apply(written, ops[1]));
}

/// However a save is cut short, a reader of the state file finds either what
/// it held before or the whole new state: never a part of it.
pub proof fn lemma_save_is_atomic(
    files: Map<Seq<char>, Seq<char>>,
    data: Seq<char>,
    after: Map<Seq<char>, Seq<char>>,
)
    requires
        may_crash_into(files, save_ops(data), after),
    ensures
        read(after, state_name()) == read(files, state_name()) || read(after, state_name())
            == Some(data),
{
    lemma_names_differ();
    let ops = save_ops(data);
    let written = apply(files, ops[0]);
    assert(ops.drop_first() =~= seq![ops[1]]);
    assert(ops.drop_first().drop_first() =~= Seq::<FileOpView>::empty());
    reveal_with_fuel(may_crash_into, 3);
    assert(read(written, state_name()) == read(files, state_name()));
    if interrupted(files, ops[0], after) {
    } else if interrupted(written, ops[1], after) {
    } else {
        assert(after == apply(written, ops[1]));
    }
}

} // verus!
