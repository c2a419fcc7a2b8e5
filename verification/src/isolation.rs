//! Stores do not interfere.
//!
//! Several stores may be worked on in any interleaving. What becomes of one
//! store is decided by the operations on that store alone, in their order;
//! what is done to the others in between makes no difference.

use crate::store::{Operation, StoreView};
use vstd::prelude::*;

verus! {

/// One step of a schedule: an operation on the store at `target`.
pub struct Step<H> {
    pub target: int,
    pub operation: Operation<H>,
}

/// The stores after one step. A step on a store that is not there does nothing.
pub open spec fn after_step<H>(stores: Seq<StoreView<H>>, step: Step<H>) -> Seq<StoreView<H>> {
    if 0 <= step.target < stores.len() {
        stores.update(step.target, stores[step.target].apply(step.operation))
    } else {
        stores
    }
}

/// The stores after a whole schedule, step by step.
pub open spec fn after_schedule<H>(stores: Seq<StoreView<H>>, schedule: Seq<Step<H>>) -> Seq<
    StoreView<H>,
>
    decreases schedule.len(),
{
    if schedule.len() == 0 {
        stores
    } else {
        after_schedule(after_step(stores, schedule[0]), schedule.drop_first())
    }
}

/// The operations that a schedule holds for one store, in their order.
pub open spec fn operations_on<H>(schedule: Seq<Step<H>>, target: int) -> Seq<Operation<H>>
    decreases schedule.len(),
{
    if schedule.len() == 0 {
        Seq::empty()
    } else if schedule[0].target == target {
        seq![schedule[0].operation] + operations_on(schedule.drop_first(), target)
    } else {
        operations_on(schedule.drop_first(), target)
    }
}

/// One store after a sequence of operations on it.
pub open spec fn after_operations<H>(store: StoreView<H>, operations: Seq<Operation<H>>)
    -> StoreView<H>
    decreases operations.len(),
{
    if operations.len() == 0 {
        store
    } else {
        after_operations(store.apply(operations[0]), operations.drop_first())
    }
}

/// A schedule neither adds a store nor takes one away.
pub proof fn lemma_schedule_keeps_the_stores<H>(
    stores: Seq<StoreView<H>>,
    schedule: Seq<Step<H>>,
)
    ensures
        after_schedule(stores, schedule).len() == stores.len(),
    decreases schedule.len(),
{
    if schedule.len() > 0 {
        lemma_schedule_keeps_the_stores(after_step(stores, schedule[0]), schedule.drop_first());
    }
}

/// Whatever the interleaving, a store ends as if the operations on it had
/// been done to it alone: it sees nothing of what happens to the others.
pub proof fn law_stores_do_not_interfere<H>(
    stores: Seq<StoreView<H>>,
    schedule: Seq<Step<H>>,
    target: int,
)
    requires
        0 <= target < stores.len(),
    ensures
        after_schedule(stores, schedule).len() == stores.len(),
        after_schedule(stores, schedule)[target] == after_operations(
            stores[target],
            operations_on(schedule, target),
        ),
    decreases schedule.len(),
{
    lemma_schedule_keeps_the_stores(stores, schedule);
    if schedule.len() > 0 {
        let step = schedule[0];
        let next = after_step(stores, step);
        let rest = schedule.drop_first();
        law_stores_do_not_interfere(next, rest, target);
        if step.target == target {
            let operations = operations_on(schedule, target);
            assert(operations[0] == step.operation);
            assert(operations.drop_first() =~= operations_on(rest, target));
        }
    }
}

/// Two stores that start alike and are given the same operations end alike,
/// however their steps are interleaved with each other's and with those of
/// other stores.
pub proof fn law_same_inputs_same_results<H>(
    stores: Seq<StoreView<H>>,
    schedule: Seq<Step<H>>,
    first: int,
    second: int,
)
    requires
        0 <= first < stores.len(),
        0 <= second < stores.len(),
        stores[first] == stores[second],
        operations_on(schedule, first) == operations_on(schedule, second),
    ensures
        after_schedule(stores, schedule)[first] == after_schedule(stores, schedule)[second],
{
    law_stores_do_not_interfere(stores, schedule, first);
    law_stores_do_not_interfere(stores, schedule, second);
}

} // verus!
