//! Bookkeeping for a set of tasks that run concurrently: which task stands for
//! which item, and which items failed.
//!
//! The tasks themselves are spawned and awaited by the caller. Every task is
//! joined, whether or not an earlier one has failed; the failures are kept in
//! the order in which the tasks were joined.

use std::collections::HashMap;
use itertools::Itertools;
use vstd::prelude::*;

verus! {

broadcast use vstd::std_specs::hash::group_hash_axioms;

/// The runtime's account of a task that it could not run to its end.
#[derive(Debug, Clone, PartialEq, Eq)]
pub struct JoinFailure {
    /// The runtime's number for the task.
    pub task: u64,
    /// Whether the task was cancelled; otherwise it panicked.
    pub cancelled: bool,
    /// The runtime's words for what happened.
    pub reason: String,
}

/// What joining one task yields.
#[derive(Debug, PartialEq, Eq)]
pub enum Joined<E> {
    /// The task ran to its end, successfully or not.
    Finished(Result<(), E>),
    /// The runtime failed to run the task.
    Lost(JoinFailure),
}

/// Errors that can stand for a task that the runtime failed to run.
pub trait FromLost<Id>: Sized {
    /// The error for the lost task of the item `id`.
    spec fn lost(id: Id, failure: JoinFailure) -> Self;

    /// Makes the error for the lost task of the item `id`.
    fn from_lost(id: Id, failure: JoinFailure) -> (error: Self)
        ensures
            error == Self::lost(id, failure),
    ;
}

/// The ledger of a set of spawned tasks: the item that each running task stands
/// for, and the errors of the tasks joined so far.
pub struct JoinLedger<Id, E> {
    ids: HashMap<u64, Id>,
    errors: Vec<E>,
}

impl<Id, E: FromLost<Id>> JoinLedger<Id, E> {
    /// The item that each task not yet lost stands for.
    pub closed spec fn ids(&self) -> Map<u64, Id> {
        self.ids@
    }

    /// The errors collected so far, in the order in which their tasks were joined.
    pub closed spec fn errors(&self) -> Seq<E> {
        self.errors@
    }

    /// A ledger without tasks.
    pub fn new() -> (ledger: Self)
        ensures
            ledger.ids() == Map::<u64, Id>::empty(),
            ledger.errors() == Seq::<E>::empty(),
    {
        JoinLedger { ids: HashMap::new(), errors: Vec::new() }
    }

    /// Notes that the task `task` was spawned for the item `id`.
    pub fn spawned(&mut self, task: u64, id: Id)
        ensures
            final(self).ids() == old(self).ids().insert(task, id),
            final(self).errors() == old(self).errors(),
    {
        self.ids.insert(task, id);
    }

    /// Whether a running task of that number is known.
    pub fn knows(&self, task: u64) -> (known: bool)
        ensures
            known == self.ids().contains_key(task),
    {
        self.ids.contains_key(&task)
    }

    /// How many errors were collected so far.
    pub fn failed(&self) -> (n: usize)
        ensures
            n == self.errors().len(),
    {
        self.errors.len()
    }

    /// Notes the result of joining one task. A success changes nothing, a
    /// failure is kept as it is, and a task that the runtime lost is kept as
    /// the error that stands for the lost task of its item. No result touches
    /// what was collected before.
    pub fn joined(&mut self, result: Joined<E>)
        requires
            result matches Joined::Lost(failure) ==> old(self).ids().contains_key(failure.task),
        ensures
            final(self).errors() == match result {
                Joined::Finished(Ok(_)) => old(self).errors(),
                Joined::Finished(Err(error)) => old(self).errors().push(error),
                Joined::Lost(failure) => old(self).errors().push(
                    E::lost(old(self).ids()[failure.task], failure),
                ),
            },
            final(self).ids() == match result {
                Joined::Lost(failure) => old(self).ids().remove(failure.task),
                _ => old(self).ids(),
            },
    {
        match result {
            Joined::Finished(Ok(_)) => {},
            Joined::Finished(Err(error)) => {
                self.errors.push(error);
            },
            Joined::Lost(failure) => {
                let id = self.ids.remove(&failure.task);
                match id {
                    Some(id) => {
                        self.errors.push(E::from_lost(id, failure));
                    },
                    None => {
                        assert(false);
                    },
                }
            },
        }
    }

    /// The errors of all tasks joined, in the order in which they were joined.
    pub fn into_errors(self) -> (errors: Vec<E>)
        ensures
            errors@ == self.errors(),
    {
        self.errors
    }
}

/// The values of the successful results, in their order.
pub open spec fn successes<T, E>(results: Seq<Result<T, E>>) -> Seq<T>
    decreases results.len(),
{
    if results.len() == 0 {
        Seq::empty()
    } else {
        match results.last() {
            Ok(value) => successes(results.drop_last()).push(value),
            Err(_) => successes(results.drop_last()),
        }
    }
}

/// The errors of the failed results, in their order.
pub open spec fn failures<T, E>(results: Seq<Result<T, E>>) -> Seq<E>
    decreases results.len(),
{
    if results.len() == 0 {
        Seq::empty()
    } else {
        match results.last() {
            Ok(_) => failures(results.drop_last()),
            Err(error) => failures(results.drop_last()).push(error),
        }
    }
}

/// Calls `Itertools::partition_result` on the results. Trusted to hand back
/// the values of all successes and the errors of all failures, each in the
/// order of the results.
#[verifier::external_body]
fn partition<T, E>(results: Vec<Result<T, E>>) -> (parts: (Vec<T>, Vec<E>))
    ensures
        parts.0@ == successes(results@),
        parts.1@ == failures(results@),
{
    results.into_iter().partition_result()
}

/// All values if every result is a success, and otherwise all errors: one
/// failure fails the whole, but every failure is reported.
pub fn all_or_errors<T, E>(results: Vec<Result<T, E>>) -> (gathered: Result<Vec<T>, Vec<E>>)
    ensures
        match gathered {
            Ok(values) => failures(results@).len() == 0 && values@ == successes(results@),
            Err(errors) => errors.len() > 0 && errors@ == failures(results@),
        },
{
    let (values, errors) = partition(results);
    if errors.len() > 0 {
        Err(errors)
    } else {
        Ok(values)
    }
}

/// Every result is either among the successes or among the failures, and a
/// failed result leaves a failure.
pub proof fn lemma_partition_sizes<T, E>(results: Seq<Result<T, E>>)
    ensures
        successes(results).len() + failures(results).len() == results.len(),
        failures(results).len() == 0 <==> forall|i: int|
            0 <= i < results.len() ==> (#[trigger] results[i]) is Ok,
    decreases results.len(),
{
    if results.len() > 0 {
        let init = results.drop_last();
        lemma_partition_sizes(init);
        if failures(results).len() == 0 {
            assert forall|i: int| 0 <= i < results.len() implies (#[trigger] results[i]) is Ok by {
                if i < results.len() - 1 {
                    assert(init[i] is Ok);
                }
            }
        } else if failures(init).len() != 0 {
            let i = choose|i: int| 0 <= i < init.len() && !((#[trigger] init[i]) is Ok);
            assert(!(results[i] is Ok));
        } else {
            assert(!(results[results.len() - 1] is Ok));
        }
    }
}

} // verus!
