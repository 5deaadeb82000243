//! The directory mirror: which entries of a directory are copied into
//! another, in what order, and where the copy stops.

use crate::error::Error;
use crate::pipeline::reversed;
use std::path::PathBuf;
use vstd::prelude::*;
use vstd::string::StringExecFns;

verus! {

/// One entry of the directory that is copied, as a listing gives it.
#[derive(Debug)]
pub struct DirEntry {
    /// The entry's file name, as text.
    pub name: String,
    /// The entry's path.
    pub source: PathBuf,
    /// Where its copy goes: the destination directory, then the name.
    pub target: PathBuf,
    /// Whether the entry is a directory.
    pub is_dir: bool,
    /// Whether anything stands at `target` already.
    pub target_exists: bool,
}

/// One thing to do for an entry that is copied.
#[derive(Debug)]
pub enum CopyStep {
    /// Create the directory `to` if it is not there, then mirror the
    /// directory `from` into it.
    Descend { from: PathBuf, to: PathBuf },
    /// Copy the file `from` to `to`.
    CopyFile { from: PathBuf, to: PathBuf },
}

/// What to do for one directory: the steps, in the order of the entries, and
/// how the copy ends once they are done.
#[derive(Debug)]
pub struct CopyPlan {
    /// The steps to take, first to last.
    pub steps: Vec<CopyStep>,
    /// `Ok` when every entry was dealt with, else the error that ends the
    /// copy after the steps.
    pub outcome: Result<(), Error>,
}

/// A name that the mirror passes over: it starts with a dot and is not
/// `.well-known`.
pub open spec fn is_hidden(name: Seq<char>) -> bool {
    name.len() > 0 && name[0] == '.' && name != ".well-known"@
}

/// An entry whose copy would land on something that is there: a file that
/// is not passed over, with its target taken.
pub open spec fn collides(entry: DirEntry) -> bool {
    !is_hidden(entry.name@) && !entry.is_dir && entry.target_exists
}

/// The step for an entry that is copied.
pub open spec fn step_of(entry: DirEntry) -> CopyStep {
    if entry.is_dir {
        CopyStep::Descend { from: entry.source, to: entry.target }
    } else {
        CopyStep::CopyFile { from: entry.source, to: entry.target }
    }
}

/// The steps for a run of entries none of which collides: one for each
/// entry that is not passed over, in the order of the entries.
pub open spec fn steps_of(entries: Seq<DirEntry>) -> Seq<CopyStep> {
    entries.filter(|entry: DirEntry| !is_hidden(entry.name@)).map_values(
        |entry: DirEntry| step_of(entry),
    )
}

/// The copy stops before the entry at `at`: it is the first that collides,
/// or `at` is the number of entries and none does.
pub open spec fn stops_at(entries: Seq<DirEntry>, at: int) -> bool {
    &&& 0 <= at <= entries.len()
    &&& forall|i: int| 0 <= i < at ==> !collides(#[trigger] entries[i])
    &&& at < entries.len() ==> collides(entries[at])
}

/// What mirroring one directory comes to: the steps for the entries before
/// the first collision, and the collision as the error if there is one.
pub open spec fn plan_outcome(entries: Seq<DirEntry>, plan: CopyPlan) -> bool {
    exists|at: int|
        {
            &&& #[trigger] stops_at(entries, at)
            &&& plan.steps@ == steps_of(entries.take(at))
            &&& at == entries.len() ==> plan.outcome == Ok::<(), Error>(())
            &&& at < entries.len() ==> plan.outcome == Err::<(), Error>(
                Error::FileExists(entries[at].target),
            )
        }
}

/// One more entry adds its step to the steps, or nothing if it is passed
/// over.
proof fn lemma_steps_push(entries: Seq<DirEntry>, entry: DirEntry)
    ensures
        is_hidden(entry.name@) ==> steps_of(entries.push(entry)) == steps_of(entries),
        !is_hidden(entry.name@) ==> steps_of(entries.push(entry)) == steps_of(entries).push(
            step_of(entry),
        ),
{
    let shown = |entry: DirEntry| !is_hidden(entry.name@);
    let step = |entry: DirEntry| step_of(entry);
    entries.lemma_filter_push(entry, shown);
    if !is_hidden(entry.name@) {
        entries.filter(shown).lemma_push_map_commute(step, entry);
    }
}

/// `step` is the step of an entry of `entries` that is not passed over.
pub open spec fn is_step_of_shown(entries: Seq<DirEntry>, step: CopyStep) -> bool {
    exists|i: int|
        0 <= i < entries.len() && !is_hidden((#[trigger] entries[i]).name@) && step == step_of(
            entries[i],
        )
}

/// The steps leave out exactly the entries that are passed over: every other
/// entry has its step among them, and every step is the step of an entry
/// that is not passed over.
pub proof fn lemma_steps_leave_out_hidden(entries: Seq<DirEntry>)
    ensures
        forall|i: int|
            0 <= i < entries.len() && !is_hidden((#[trigger] entries[i]).name@) ==> steps_of(
                entries,
            ).contains(step_of(entries[i])),
        forall|k: int|
            0 <= k < steps_of(entries).len() ==> is_step_of_shown(
                entries,
                #[trigger] steps_of(entries)[k],
            ),
        steps_of(entries).len() <= entries.len(),
{
    let shown = |entry: DirEntry| !is_hidden(entry.name@);
    let step = |entry: DirEntry| step_of(entry);
    let kept = entries.filter(shown);
    broadcast use vstd::seq_lib::group_filter_ensures;

    assert forall|i: int|
        0 <= i < entries.len() && !is_hidden((#[trigger] entries[i]).name@) implies steps_of(
        entries,
    ).contains(step_of(entries[i])) by {
        assert(shown(entries[i]));
        assert(kept.contains(entries[i]));
        let k = choose|k: int| 0 <= k < kept.len() && kept[k] == entries[i];
        assert(steps_of(entries)[k] == step_of(entries[i]));
    }
    assert forall|k: int| 0 <= k < steps_of(entries).len() implies is_step_of_shown(
        entries,
        #[trigger] steps_of(entries)[k],
    ) by {
        assert(shown(kept[k]));
        assert(kept.contains(kept[k]));
        entries.lemma_filter_contains_rev(shown, kept[k]);
        let i = choose|i: int| 0 <= i < entries.len() && entries[i] == kept[k];
        assert(!is_hidden(entries[i].name@));
        assert(steps_of(entries)[k] == step_of(entries[i]));
    }
}

/// Whether the mirror passes over an entry of this name.
pub fn skips(name: &String) -> (hidden: bool)
    ensures
        hidden == is_hidden(name@),
{
    let text = name.as_str();
    if text.unicode_len() == 0 {
        return false;
    }
    if text.get_char(0) != '.' {
        return false;
    }
    let kept = String::from_str(".well-known");
    !(*name == kept)
}

/// Plans the mirror of one directory from its listing.
///
/// Entries whose name starts with a dot are passed over, but for
/// `.well-known`. A directory is created at its target, unless it is there,
/// and mirrored in turn.
/// A file is copied, unless something stands at its target: then the copy
/// ends there with `FileExists`, and the steps before it stay in the plan.
pub fn copy_dir(entries: Vec<DirEntry>) -> (plan: CopyPlan)
    ensures
        plan_outcome(entries@, plan),
{
    let ghost all = entries@;
    let mut rest = reversed(entries);
    let mut steps: Vec<CopyStep> = Vec::new();
    assert(all.take(0) =~= Seq::<DirEntry>::empty());
    while rest.len() > 0
        invariant
            all == entries@,
            rest@.len() <= all.len(),
            forall|k: int| 0 <= k < rest@.len() ==> #[trigger] rest@[k] == all[all.len() - 1 - k],
            forall|i: int| 0 <= i < all.len() - rest@.len() ==> !collides(#[trigger] all[i]),
            steps@ == steps_of(all.take(all.len() - rest@.len())),
        decreases rest@.len(),
    {
        let ghost at = all.len() - rest@.len();
        let ghost before = rest@;
        let next = rest.pop();
        assert(next == Some(before[before.len() - 1]));
        assert(before[before.len() - 1] == all[at]);
        proof {
            assert(all.take(at + 1) =~= all.take(at).push(all[at]));
            lemma_steps_push(all.take(at), all[at]);
        }
        match next {
            Some(entry) => {
                if skips(&entry.name) {
                } else if entry.is_dir {
                    steps.push(CopyStep::Descend { from: entry.source, to: entry.target });
                } else if entry.target_exists {
                    assert(stops_at(all, at));
                    return CopyPlan { steps, outcome: Err(Error::FileExists(entry.target)) };
                } else {
                    steps.push(CopyStep::CopyFile { from: entry.source, to: entry.target });
                }
            },
            None => {},
        }
    }
    assert(all.take(all.len() as int) =~= all);
    assert(stops_at(all, all.len() as int));
    CopyPlan { steps, outcome: Ok(()) }
}

} // verus!
