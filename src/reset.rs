//! Resetting the plugin directory to an empty directory before each run.

use vstd::prelude::*;

verus! {

/// What is found at a path before it is reset.
#[derive(Clone, Copy, Debug, PartialEq, Eq, Structural)]
pub enum PathKind {
    Missing,
    File,
    Directory,
}

/// One filesystem operation of a reset.
#[derive(Clone, Copy, Debug, PartialEq, Eq, Structural)]
pub enum ResetStep {
    /// Remove the file at the path.
    RemoveFile,
    /// Remove the directory at the path with everything in it.
    RemoveDirAll,
    /// Create the directory at the path, with its parents.
    CreateDirAll,
}

/// The state of a path, as the reset sees it.
pub enum Entry {
    Missing,
    File,
    EmptyDir,
    FullDir,
}

pub open spec fn kind_of(e: Entry) -> PathKind {
    match e {
        Entry::Missing => PathKind::Missing,
        Entry::File => PathKind::File,
        Entry::EmptyDir | Entry::FullDir => PathKind::Directory,
    }
}

/// The effect of one step; a step that does not apply leaves the path as it
/// is.
pub open spec fn apply_step(e: Entry, step: ResetStep) -> Entry {
    match step {
        ResetStep::RemoveFile => if e is File {
            Entry::Missing
        } else {
            e
        },
        ResetStep::RemoveDirAll => if e is EmptyDir || e is FullDir {
            Entry::Missing
        } else {
            e
        },
        ResetStep::CreateDirAll => if e is Missing {
            Entry::EmptyDir
        } else {
            e
        },
    }
}

/// The effect of the steps, one after another.
pub open spec fn run_steps(e: Entry, steps: Seq<ResetStep>) -> Entry
    decreases steps.len(),
{
    if steps.len() == 0 {
        e
    } else {
        run_steps(apply_step(e, steps[0]), steps.drop_first())
    }
}

/// Whatever is at the path is removed, then the directory is created.
pub open spec fn reset_steps(existing: PathKind) -> Seq<ResetStep> {
    match existing {
        PathKind::Missing => seq![ResetStep::CreateDirAll],
        PathKind::File => seq![ResetStep::RemoveFile, ResetStep::CreateDirAll],
        PathKind::Directory => seq![ResetStep::RemoveDirAll, ResetStep::CreateDirAll],
    }
}

/// The state of the path after one reset.
pub open spec fn ensure_empty_spec(e: Entry) -> Entry {
    run_steps(e, reset_steps(kind_of(e)))
}

/// The steps that reset a path holding `existing` to an empty directory.
pub fn reset_plan(existing: PathKind) -> (r: Vec<ResetStep>)
    ensures
        r@ == reset_steps(existing),
{
    let mut r: Vec<ResetStep> = Vec::new();
    match existing {
        PathKind::Missing => {},
        PathKind::File => r.push(ResetStep::RemoveFile),
        PathKind::Directory => r.push(ResetStep::RemoveDirAll),
    }
    r.push(ResetStep::CreateDirAll);
    assert(r@ =~= reset_steps(existing));
    r
}

/// A reset leaves an empty directory whatever was there, and a second reset
/// right after the first leaves an empty directory again.
pub proof fn lemma_ensure_empty_idempotent(e: Entry)
    ensures
        ensure_empty_spec(e) is EmptyDir,
        ensure_empty_spec(ensure_empty_spec(e)) is EmptyDir,
{
    reveal_with_fuel(run_steps, 3);
    let s = reset_steps(kind_of(e));
    assert(s.drop_first().drop_first() =~= Seq::<ResetStep>::empty() || s.drop_first()
        =~= Seq::<ResetStep>::empty());
    let d = reset_steps(PathKind::Directory);
    assert(d.drop_first() =~= seq![ResetStep::CreateDirAll]);
    assert(d.drop_first().drop_first() =~= Seq::<ResetStep>::empty());
    let m = reset_steps(PathKind::Missing);
    assert(m.drop_first() =~= Seq::<ResetStep>::empty());
    let f = reset_steps(PathKind::File);
    assert(f.drop_first() =~= seq![ResetStep::CreateDirAll]);
    assert(f.drop_first().drop_first() =~= Seq::<ResetStep>::empty());
}

} // verus!
