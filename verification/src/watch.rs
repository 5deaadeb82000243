//! The watcher's decisions: what to do with each thing that the debounced
//! event source hands over.

use crate::pipeline::reversed;
use notify_debouncer_mini::notify::Error as NotifyError;
use std::path::PathBuf;
use vstd::prelude::*;

verus! {

/// The debounce window, in milliseconds: changes that come within it of one
/// another are handed over as one batch.
pub const DEBOUNCE_MILLIS: u64 = 200;

/// Why a watch ended.
#[derive(Debug)]
pub enum WatchError {
    /// The watcher could not be set up, or it stopped delivering.
    Notify(NotifyError),
}

/// What the event source hands over.
#[derive(Debug)]
pub enum WatchEvent {
    /// The paths that changed within one debounce window.
    Batch(Vec<PathBuf>),
    /// The watcher reported an error.
    Failed(NotifyError),
    /// The source closed: nothing will come any more.
    Closed,
}

/// What the loop does next.
#[derive(Debug)]
pub enum WatchStep {
    /// Nothing changed: wait for the next event.
    Wait,
    /// Call the callback once with these paths, then wait for the next event.
    Notify(Vec<PathBuf>),
    /// Leave the loop with this error.
    Stop(WatchError),
}

/// Whether two paths are equal, as `PartialEq::eq` of `PathBuf` finds.
pub uninterp spec fn same_path(a: PathBuf, b: PathBuf) -> bool;

/// Calls `PartialEq::eq` of `PathBuf`, which std computes from the two paths
/// alone, component by component.
#[verifier::external_body]
fn paths_equal(a: &PathBuf, b: &PathBuf) -> (equal: bool)
    ensures
        equal == same_path(*a, *b),
{
    a == b
}

/// notify's error of the generic kind with a message, about no path.
pub uninterp spec fn generic_error_of(message: Seq<char>) -> NotifyError;

/// Calls `notify::Error::generic`, which builds the error from the message
/// alone.
#[verifier::external_body]
fn generic_error(message: &str) -> (error: NotifyError)
    ensures
        error == generic_error_of(message@),
{
    NotifyError::generic(message)
}

/// `path` equals one of `seen`.
pub open spec fn seen_before(seen: Seq<PathBuf>, path: PathBuf) -> bool {
    exists|i: int| 0 <= i < seen.len() && same_path(#[trigger] seen[i], path)
}

/// The paths of `raw`, each once, in the order in which they first appear.
pub open spec fn distinct(raw: Seq<PathBuf>) -> Seq<PathBuf>
    decreases raw.len(),
{
    if raw.len() == 0 {
        Seq::<PathBuf>::empty()
    } else {
        let front = distinct(raw.drop_last());
        if seen_before(front, raw.last()) {
            front
        } else {
            front.push(raw.last())
        }
    }
}

/// What the loop does with an event.
pub open spec fn step_for(event: WatchEvent, step: WatchStep) -> bool {
    match event {
        WatchEvent::Batch(raw) => if raw@.len() == 0 {
            step is Wait
        } else {
            step matches WatchStep::Notify(batch) && batch@ == distinct(raw@)
        },
        WatchEvent::Failed(e) => step == WatchStep::Stop(WatchError::Notify(e)),
        WatchEvent::Closed => step == WatchStep::Stop(
            WatchError::Notify(generic_error_of("the event source closed"@)),
        ),
    }
}

/// No path stands twice in a batch.
pub proof fn lemma_distinct_has_no_repeats(raw: Seq<PathBuf>)
    ensures
        forall|i: int, j: int|
            #![trigger distinct(raw)[i], distinct(raw)[j]]
            0 <= i < j < distinct(raw).len() ==> !same_path(distinct(raw)[i], distinct(raw)[j]),
    decreases raw.len(),
{
    if raw.len() > 0 {
        let front = distinct(raw.drop_last());
        lemma_distinct_has_no_repeats(raw.drop_last());
        assert forall|i: int, j: int|
            #![trigger distinct(raw)[i], distinct(raw)[j]]
            0 <= i < j < distinct(raw).len() implies !same_path(
            distinct(raw)[i],
            distinct(raw)[j],
        ) by {
            if j < front.len() {
                assert(distinct(raw)[i] == front[i]);
                assert(distinct(raw)[j] == front[j]);
            } else {
                assert(!seen_before(front, raw.last()));
                assert(distinct(raw)[j] == raw.last());
                assert(distinct(raw)[i] == front[i]);
            }
        }
    }
}

/// Every path of a batch is one of the raw paths.
pub proof fn lemma_distinct_is_from_raw(raw: Seq<PathBuf>)
    ensures
        forall|i: int| 0 <= i < distinct(raw).len() ==> raw.contains(#[trigger] distinct(raw)[i]),
    decreases raw.len(),
{
    if raw.len() > 0 {
        let front = raw.drop_last();
        lemma_distinct_is_from_raw(front);
        assert forall|i: int| 0 <= i < distinct(raw).len() implies raw.contains(
            #[trigger] distinct(raw)[i],
        ) by {
            if i < distinct(front).len() {
                let k = choose|k: int| 0 <= k < front.len() && front[k] == distinct(front)[i];
                assert(raw[k] == distinct(raw)[i]);
            } else {
                assert(raw[raw.len() - 1] == distinct(raw)[i]);
            }
        }
    }
}

/// Every raw path is in the batch, itself or as a path equal to it.
pub proof fn lemma_distinct_covers_raw(raw: Seq<PathBuf>)
    ensures
        forall|k: int|
            0 <= k < raw.len() ==> distinct(raw).contains(#[trigger] raw[k]) || seen_before(
                distinct(raw),
                raw[k],
            ),
    decreases raw.len(),
{
    if raw.len() > 0 {
        let front = raw.drop_last();
        lemma_distinct_covers_raw(front);
        assert forall|k: int| 0 <= k < raw.len() implies distinct(raw).contains(#[trigger] raw[k])
            || seen_before(distinct(raw), raw[k]) by {
            if k < front.len() {
                assert(front[k] == raw[k]);
                if distinct(front).contains(front[k]) {
                    let i = choose|i: int|
                        0 <= i < distinct(front).len() && distinct(front)[i] == front[k];
                    assert(distinct(raw)[i] == raw[k]);
                } else {
                    let i = choose|i: int|
                        0 <= i < distinct(front).len() && same_path(
                            #[trigger] distinct(front)[i],
                            front[k],
                        );
                    assert(same_path(distinct(raw)[i], raw[k]));
                }
            } else {
                if !seen_before(distinct(front), raw.last()) {
                    assert(distinct(raw)[distinct(raw).len() - 1] == raw[k]);
                }
            }
        }
    }
}

/// A batch is empty only when nothing was handed over.
pub proof fn lemma_distinct_is_empty(raw: Seq<PathBuf>)
    ensures
        distinct(raw).len() == 0 <==> raw.len() == 0,
        distinct(raw).len() <= raw.len(),
    decreases raw.len(),
{
    if raw.len() > 0 {
        lemma_distinct_is_empty(raw.drop_last());
        let front = distinct(raw.drop_last());
        if front.len() == 0 {
            assert(!seen_before(front, raw.last()));
        }
    }
}

/// Whether `path` equals one of `seen`.
fn is_among(seen: &Vec<PathBuf>, path: &PathBuf) -> (found: bool)
    ensures
        found == seen_before(seen@, *path),
{
    let mut i: usize = 0;
    while i < seen.len()
        invariant
            i <= seen@.len(),
            forall|k: int| 0 <= k < i ==> !same_path(#[trigger] seen@[k], *path),
        decreases seen@.len() - i,
    {
        if paths_equal(&seen[i], path) {
            return true;
        }
        i = i + 1;
    }
    false
}

/// The paths of `raw`, each once, in the order in which they first appear.
pub fn distinct_paths(raw: Vec<PathBuf>) -> (batch: Vec<PathBuf>)
    ensures
        batch@ == distinct(raw@),
{
    let ghost all = raw@;
    let mut rest = reversed(raw);
    let mut batch: Vec<PathBuf> = Vec::new();
    assert(all.take(0) =~= Seq::<PathBuf>::empty());
    while rest.len() > 0
        invariant
            all == raw@,
            rest@.len() <= all.len(),
            forall|k: int| 0 <= k < rest@.len() ==> #[trigger] rest@[k] == all[all.len() - 1 - k],
            batch@ == distinct(all.take(all.len() - rest@.len())),
        decreases rest@.len(),
    {
        let ghost at = all.len() - rest@.len();
        let ghost before = rest@;
        let next = rest.pop();
        assert(next == Some(before[before.len() - 1]));
        assert(before[before.len() - 1] == all[at]);
        proof {
            assert(all.take(at + 1).drop_last() =~= all.take(at));
            assert(all.take(at + 1).last() == all[at]);
        }
        match next {
            Some(path) => {
                if !is_among(&batch, &path) {
                    batch.push(path);
                }
            },
            None => {},
        }
    }
    assert(all.take(all.len() as int) =~= all);
    batch
}

/// Decides what the watch loop does with one event.
///
/// A batch of changes goes to the callback once, each path once; an empty
/// batch goes nowhere. An error of the watcher ends the loop with that
/// error. A source that closed ends the loop with an error too.
pub fn watch(event: WatchEvent) -> (step: WatchStep)
    ensures
        step_for(event, step),
{
    match event {
        WatchEvent::Batch(raw) => {
            proof {
                lemma_distinct_is_empty(raw@);
            }
            let batch = distinct_paths(raw);
            if batch.len() == 0 {
                WatchStep::Wait
            } else {
                WatchStep::Notify(batch)
            }
        },
        WatchEvent::Failed(e) => WatchStep::Stop(WatchError::Notify(e)),
        WatchEvent::Closed => WatchStep::Stop(
            WatchError::Notify(generic_error("the event source closed")),
        ),
    }
}

} // verus!
