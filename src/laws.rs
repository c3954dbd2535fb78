//! Properties of the registry that hold over sequences of operations.
use vstd::prelude::*;
use crate::action::ActionKind;
use crate::registry::{RegistryModel, add_model, remove_model, complete_model, wait_model};
use crate::task::{ObjTask, WaitStep};

verus! {

/// An operation of the registry on one key.
pub enum Op {
    Add(ActionKind),
    Remove,
    Complete(u64, bool),
    Wait,
}

/// The registry after `op` on `key`.
pub open spec fn apply(m: RegistryModel, key: Seq<char>, op: Op) -> RegistryModel {
    match op {
        Op::Add(kind) => add_model(m, key, kind),
        Op::Remove => remove_model(m, key),
        Op::Complete(id, succeeded) => complete_model(m, key, id, succeeded),
        Op::Wait => wait_model(m, key).0,
    }
}

/// The registry after each step, in order.
pub open spec fn run(m: RegistryModel, steps: Seq<(Seq<char>, Op)>) -> RegistryModel
    decreases steps.len(),
{
    if steps.len() == 0 {
        m
    } else {
        apply(run(m, steps.drop_last()), steps.last().0, steps.last().1)
    }
}

/// The registry after one registration under `key` for each action of `kinds`.
pub open spec fn add_all(m: RegistryModel, key: Seq<char>, kinds: Seq<ActionKind>) -> RegistryModel
    decreases kinds.len(),
{
    if kinds.len() == 0 {
        m
    } else {
        add_model(add_all(m, key, kinds.drop_last()), key, kinds.last())
    }
}

/// After registrations under one key with no removal between them, the key
/// shows the handle of the latest registration only.
pub proof fn lemma_latest_add_visible(m: RegistryModel, key: Seq<char>, kinds: Seq<ActionKind>)
    requires
        kinds.len() > 0,
    ensures
        add_all(m, key, kinds).tasks.contains_key(key),
        add_all(m, key, kinds).tasks[key] == (ObjTask {
            kind: kinds.last(),
            id: (m.next_id + kinds.len() - 1) as u64,
            finished: false,
        }),
    decreases kinds.len(),
{
    lemma_add_all_next_id(m, key, kinds.drop_last());
}

proof fn lemma_add_all_next_id(m: RegistryModel, key: Seq<char>, kinds: Seq<ActionKind>)
    ensures
        add_all(m, key, kinds).next_id == m.next_id + kinds.len(),
    decreases kinds.len(),
{
    if kinds.len() > 0 {
        lemma_add_all_next_id(m, key, kinds.drop_last());
    }
}

/// A registered operation that completes successfully leaves no handle behind.
pub proof fn lemma_success_cleans_up(m: RegistryModel, key: Seq<char>, kind: ActionKind)
    ensures
        ({
            let added = add_model(m, key, kind);
            !complete_model(added, key, added.tasks[key].id, true).tasks.contains_key(key)
        }),
{
}

/// A registered operation that fails stays visible, finished, through any
/// steps that neither register, remove nor await under its key, nor report
/// the same spawn again.
pub proof fn lemma_failure_persists(
    m: RegistryModel,
    key: Seq<char>,
    kind: ActionKind,
    steps: Seq<(Seq<char>, Op)>,
)
    requires
        forall|i: int|
            0 <= i < steps.len() && (#[trigger] steps[i]).0 == key ==> match steps[i].1 {
                Op::Complete(id, _) => id != m.next_id as u64,
                _ => false,
            },
    ensures
        ({
            let failed = complete_model(add_model(m, key, kind), key, m.next_id as u64, false);
            &&& failed.tasks.contains_key(key)
            &&& failed.tasks[key].finished
            &&& run(failed, steps).tasks.contains_key(key)
            &&& run(failed, steps).tasks[key] == failed.tasks[key]
        }),
    decreases steps.len(),
{
    if steps.len() > 0 {
        let prefix = steps.drop_last();
        assert forall|i: int| 0 <= i < prefix.len() && (#[trigger] prefix[i]).0 == key implies match prefix[i].1 {
            Op::Complete(id, _) => id != m.next_id as u64,
            _ => false,
        } by {
            assert(prefix[i] == steps[i]);
        }
        lemma_failure_persists(m, key, kind, prefix);
        let last = steps.last();
        assert(last == steps[steps.len() - 1]);
    }
}

/// Removing twice is the same as removing once, and leaves the key empty.
pub proof fn lemma_remove_idempotent(m: RegistryModel, key: Seq<char>)
    ensures
        remove_model(remove_model(m, key), key) == remove_model(m, key),
        !remove_model(m, key).tasks.contains_key(key),
{
    assert(remove_model(m, key).tasks.remove(key) =~= remove_model(m, key).tasks);
}

/// Once the registered operation has completed, whether it succeeded or not,
/// one look of a waiter ends the wait and leaves the key empty.
pub proof fn lemma_wait_after_completion(m: RegistryModel, key: Seq<char>, succeeded: bool)
    requires
        m.tasks.contains_key(key),
    ensures
        ({
            let done = complete_model(m, key, m.tasks[key].id, succeeded);
            &&& wait_model(done, key).1 == WaitStep::Done
            &&& !wait_model(done, key).0.tasks.contains_key(key)
        }),
{
}

/// A wait that ends leaves the key empty.
pub proof fn lemma_wait_done_empties(m: RegistryModel, key: Seq<char>)
    ensures
        wait_model(m, key).1 == WaitStep::Done ==> !wait_model(m, key).0.tasks.contains_key(key),
{
}

/// Operations under one key leave the handle of every other key as it was.
pub proof fn lemma_keys_isolated(m: RegistryModel, key: Seq<char>, other: Seq<char>, op: Op)
    requires
        key != other,
    ensures
        apply(m, key, op).tasks.contains_key(other) == m.tasks.contains_key(other),
        m.tasks.contains_key(other) ==> apply(m, key, op).tasks[other] == m.tasks[other],
{
}

} // verus!
