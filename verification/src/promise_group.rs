//! The records behind [27.2.4.1 Promise.all](https://tc39.es/ecma262/#sec-promise.all),
//! [27.2.4.2 Promise.allSettled](https://tc39.es/ecma262/#sec-promise.allsettled)
//! and [27.2.4.3 Promise.any](https://tc39.es/ecma262/#sec-promise.any):
//! a result array, the number of elements still to settle, and the promise
//! that the combinator returned.
//!
//! Making the objects that allSettled stores and the AggregateError that
//! any rejects with is the engine's work ([`GroupOutcome`]).

use vstd::prelude::*;
use crate::value::{JsError, Value};
use crate::array::{Array, ArrayHeap};
use crate::elements::ElementProperty;
use crate::promise_jobs::settled_with;
use crate::promise::{
    Promise, PromiseCapability, PromiseHeap, PromiseReactionType, ResolveStep, rejected_post,
    spec_is_already_resolved,
};

verus! {

/// Which combinator a group serves.
#[derive(Debug, Clone, Copy, PartialEq, Eq, Structural)]
pub enum PromiseGroupType {
    All,
    AllSettled,
    Any,
}

/// The state of a combinator.
#[derive(Debug, Clone, Copy, PartialEq, Eq, Structural)]
pub struct PromiseGroupRecord {
    pub promise_group_type: PromiseGroupType,
    /// remainingElementsCount
    pub remaining_elements_count: u32,
    /// The values (or errors) collected, by index.
    pub result_array: Array,
    /// The promise the combinator returned.
    pub promise: Promise,
}

/// The arena of group records.
pub struct PromiseGroupHeap {
    pub records: Vec<PromiseGroupRecord>,
}

/// A handle to a group record.
#[derive(Debug, Clone, Copy, PartialEq, Eq, Structural)]
pub struct PromiseGroup(pub u32);

/// The object that allSettled stores for a settled element:
/// `{ status: "fulfilled", value }` or `{ status: "rejected", reason }`.
#[derive(Debug, Clone, Copy, PartialEq, Eq, Structural)]
pub struct AllSettledObject {
    pub status: PromiseReactionType,
    pub value: Value,
}

/// What the engine does after a settlement reached a group.
#[derive(Debug, Clone, Copy, PartialEq, Eq)]
pub enum GroupOutcome {
    /// Nothing more.
    Done,
    /// The group's promise is being resolved; where the step is `GetThen`,
    /// the engine reads "then" and continues with
    /// [`PromiseCapability::resolve_with_then`] on `capability`.
    Resolving { capability: PromiseCapability, step: ResolveStep },
    /// Make `obj` and hand it to [`PromiseGroup::fulfill`] at `index`.
    MakeAllSettledObject { index: u32, obj: AllSettledObject },
    /// Make an AggregateError whose "errors" (writable, enumerable,
    /// configurable) is `errors`, and reject `promise` with it (or with the
    /// error that defining the property throws).
    RejectWithAggregateError { promise: Promise, errors: Array },
}

impl PromiseGroupRecord {
    /// One element fewer remains (not below zero); the result array is
    /// returned, and with it the promise where no element remains.
    pub fn take_result_and_promise(&mut self) -> (r: (Array, Option<Promise>))
        ensures
            final(self).remaining_elements_count == (if old(self).remaining_elements_count == 0 { 0 } else { old(self).remaining_elements_count - 1 }),
            final(self).promise_group_type == old(self).promise_group_type,
            final(self).result_array == old(self).result_array,
            final(self).promise == old(self).promise,
            r.0 == old(self).result_array,
            r.1 == (if final(self).remaining_elements_count > 0 { None::<Promise> } else { Some(old(self).promise) }),
    {
        self.remaining_elements_count = self.remaining_elements_count.saturating_sub(1);
        if self.remaining_elements_count > 0 {
            (self.result_array, None)
        } else {
            (self.result_array, Some(self.promise))
        }
    }
}

impl PromiseGroupHeap {
    pub open spec fn contains(&self, g: PromiseGroup) -> bool {
        g.0 < self.records@.len()
    }

    pub open spec fn record(&self, g: PromiseGroup) -> PromiseGroupRecord {
        self.records@[g.0 as int]
    }

    pub fn new() -> (r: Self)
        ensures
            r.records@.len() == 0,
    {
        PromiseGroupHeap { records: Vec::new() }
    }

    /// Adds a group record.
    pub fn create(&mut self, data: PromiseGroupRecord) -> (r: PromiseGroup)
        requires
            old(self).records@.len() < u32::MAX,
        ensures
            r.0 == old(self).records@.len(),
            final(self).records@ == old(self).records@.push(data),
    {
        let index = self.records.len() as u32;
        self.records.push(data);
        PromiseGroup(index)
    }
}

/// The heaps that a group works on, each valid, with the group's result
/// array and promise in them.
pub open spec fn group_heaps_valid(groups: &PromiseGroupHeap, arrays: &ArrayHeap, promises: &PromiseHeap, g: PromiseGroup) -> bool {
    &&& groups.contains(g)
    &&& arrays.wf()
    &&& arrays.contains(groups.record(g).result_array)
    &&& promises.contains(groups.record(g).promise)
}

/// `after` is `before` with the record of `g` counting one settled element
/// more.
pub open spec fn counted_down(before: &PromiseGroupHeap, after: &PromiseGroupHeap, g: PromiseGroup) -> bool {
    let old_count = before.record(g).remaining_elements_count;
    &&& after.records@ == before.records@.update(g.0 as int, PromiseGroupRecord {
        remaining_elements_count: if old_count == 0 { 0 } else { (old_count - 1) as u32 },
        ..before.record(g)
    })
}

/// `after` is `before` with element `index` of array `a` a plain data
/// element holding `value`.
pub open spec fn element_stored(before: &ArrayHeap, after: &ArrayHeap, a: Array, index: u32, value: Value) -> bool {
    &&& after.wf()
    &&& after.arrays@.len() == before.arrays@.len()
    &&& forall|i: int| 0 <= i < before.arrays@.len() && i != a.0 ==> #[trigger] after.arrays@[i] == before.arrays@[i]
    &&& after.elems(a).spec_len() == before.elems(a).spec_len()
    &&& after.elems(a).property(index as int) == Some(ElementProperty::Data { value, writable: true, enumerable: true, configurable: true })
    &&& forall|j: int| j != index ==> #[trigger] after.elems(a).property(j) == before.elems(a).property(j)
}

/// Stores `value` as element `index` of the Array.
fn store_element(arrays: &mut ArrayHeap, a: Array, index: u32, value: Value)
    requires
        old(arrays).wf(),
        old(arrays).contains(a),
        index < old(arrays).elems(a).spec_len(),
    ensures
        element_stored(old(arrays), final(arrays), a, index, value),
{
    let elements = a.get_elements_mut(arrays);
    elements.set_element(index, Some(value), None);
    proof {
        assert(arrays.arrays@[a.0 as int].elements.wf());
        assert forall|k: int| 0 <= k < arrays.arrays@.len() implies #[trigger] arrays.arrays@[k].elements.wf() by {
            if k != a.0 {
                assert(old(arrays).arrays@[k].elements.wf());
                assert(arrays.arrays@[k] == old(arrays).arrays@[k]);
            }
        }
    }
}

impl PromiseGroup {
    pub fn get_index(self) -> (r: usize)
        ensures
            r == self.0,
    {
        self.0 as usize
    }

    /// The group's record.
    pub fn get(self, groups: &PromiseGroupHeap) -> (r: PromiseGroupRecord)
        requires
            groups.contains(self),
        ensures
            r == groups.record(self),
    {
        groups.records[self.0 as usize]
    }

    /// Exclusive access to the group's record; what is written through it
    /// lands in the record and nowhere else.
    pub fn get_mut(self, groups: &mut PromiseGroupHeap) -> (r: &mut PromiseGroupRecord)
        requires
            old(groups).contains(self),
        ensures
            *r == old(groups).record(self),
            final(groups).records@ == old(groups).records@.update(self.0 as int, *final(r)),
    {
        &mut groups.records[self.0 as usize]
    }

    /// Element `index` fulfilled with `value`: the value is stored, and
    /// where it was the last element to settle, the group's promise is
    /// resolved with the result array.
    pub fn fulfill(
        self,
        groups: &mut PromiseGroupHeap,
        arrays: &mut ArrayHeap,
        promises: &mut PromiseHeap,
        index: u32,
        value: Value,
    ) -> (r: GroupOutcome)
        requires
            group_heaps_valid(old(groups), old(arrays), old(promises), self),
            index < old(arrays).elems(old(groups).record(self).result_array).spec_len(),
        ensures
            counted_down(old(groups), final(groups), self),
            element_stored(old(arrays), final(arrays), old(groups).record(self).result_array, index, value),
            ({
                let rec = old(groups).record(self);
                let capability = PromiseCapability { promise: rec.promise, must_be_unresolved: true };
                if rec.remaining_elements_count <= 1 {
                    &&& r is Resolving && r->capability == capability
                    &&& spec_is_already_resolved(old(promises), capability) ==> r->step == ResolveStep::Done && final(promises).unchanged(old(promises))
                    &&& !spec_is_already_resolved(old(promises), capability) ==> r->step == ResolveStep::GetThen(Value::Array(rec.result_array.0))
                        && crate::promise::marked_resolved(old(promises), final(promises), rec.promise)
                    &&& settled_with(old(promises), final(promises), capability, Ok(Value::Array(rec.result_array.0)), r->step)
                } else {
                    r == GroupOutcome::Done && final(promises).unchanged(old(promises))
                }
            }),
    {
        let i = self.0 as usize;
        let mut record = groups.records[i];
        let (result_array, promise_to_resolve) = record.take_result_and_promise();
        groups.records.set(i, record);
        store_element(arrays, result_array, index, value);
        match promise_to_resolve {
            Some(promise) => {
                let capability = PromiseCapability::from_promise(promise, true);
                let step = capability.resolve(promises, Value::Array(result_array.0));
                GroupOutcome::Resolving { capability, step }
            },
            None => GroupOutcome::Done,
        }
    }

    /// Element `index` rejected with `error` (for Promise.any): the error is
    /// stored, and where it was the last element to settle, the group's
    /// promise is to be rejected with an AggregateError of them all.
    pub fn reject(
        self,
        groups: &mut PromiseGroupHeap,
        arrays: &mut ArrayHeap,
        index: u32,
        error: Value,
    ) -> (r: GroupOutcome)
        requires
            groups_and_array_valid(old(groups), old(arrays), self),
            index < old(arrays).elems(old(groups).record(self).result_array).spec_len(),
        ensures
            counted_down(old(groups), final(groups), self),
            element_stored(old(arrays), final(arrays), old(groups).record(self).result_array, index, error),
            ({
                let rec = old(groups).record(self);
                if rec.remaining_elements_count <= 1 {
                    r == (GroupOutcome::RejectWithAggregateError { promise: rec.promise, errors: rec.result_array })
                } else {
                    r == GroupOutcome::Done
                }
            }),
    {
        let i = self.0 as usize;
        let mut record = groups.records[i];
        let (result_array, promise_to_resolve) = record.take_result_and_promise();
        groups.records.set(i, record);
        store_element(arrays, result_array, index, error);
        match promise_to_resolve {
            Some(promise) => GroupOutcome::RejectWithAggregateError { promise, errors: result_array },
            None => GroupOutcome::Done,
        }
    }

    /// Resolves the group's promise with `value` (the first fulfillment, for
    /// Promise.any).
    pub fn immediately_resolve(self, groups: &PromiseGroupHeap, promises: &mut PromiseHeap, value: Value) -> (r: GroupOutcome)
        requires
            groups.contains(self),
            old(promises).contains(groups.record(self).promise),
        ensures
            ({
                let capability = PromiseCapability { promise: groups.record(self).promise, must_be_unresolved: true };
                &&& r is Resolving && r->capability == capability
                &&& spec_is_already_resolved(old(promises), capability) ==> r->step == ResolveStep::Done && final(promises).unchanged(old(promises))
                &&& !spec_is_already_resolved(old(promises), capability) && value.spec_is_object() && value != Value::Promise(capability.promise.0)
                    ==> r->step == ResolveStep::GetThen(value) && crate::promise::marked_resolved(old(promises), final(promises), capability.promise)
                &&& settled_with(old(promises), final(promises), capability, Ok(value), r->step)
            }),
    {
        let capability = PromiseCapability::from_promise(groups.records[self.0 as usize].promise, true);
        let step = capability.resolve(promises, value);
        GroupOutcome::Resolving { capability, step }
    }

    /// Rejects the group's promise with `value` (the first rejection, for
    /// Promise.all).
    pub fn immediately_reject(self, groups: &PromiseGroupHeap, promises: &mut PromiseHeap, value: Value)
        requires
            groups.contains(self),
            old(promises).contains(groups.record(self).promise),
        ensures
            ({
                let capability = PromiseCapability { promise: groups.record(self).promise, must_be_unresolved: true };
                &&& spec_is_already_resolved(old(promises), capability) ==> final(promises).unchanged(old(promises))
                &&& !spec_is_already_resolved(old(promises), capability) ==> rejected_post(old(promises), final(promises), capability.promise, JsError::Thrown(value))
            }),
    {
        let capability = PromiseCapability::from_promise(groups.records[self.0 as usize].promise, true);
        capability.reject(promises, JsError::Thrown(value));
    }

    /// The object that allSettled stores for a settlement.
    pub fn to_all_settled_obj(self, reaction_type: PromiseReactionType, value: Value) -> (r: AllSettledObject)
        ensures
            r == (AllSettledObject { status: reaction_type, value }),
    {
        AllSettledObject { status: reaction_type, value }
    }

    /// A settlement of element `index` reached the group. Promise.all
    /// stores a fulfillment and rejects at the first rejection;
    /// Promise.allSettled stores an object for either; Promise.any resolves
    /// at the first fulfillment and stores a rejection.
    pub fn settle(
        self,
        groups: &mut PromiseGroupHeap,
        arrays: &mut ArrayHeap,
        promises: &mut PromiseHeap,
        reaction_type: PromiseReactionType,
        index: u32,
        value: Value,
    ) -> (r: GroupOutcome)
        requires
            group_heaps_valid(old(groups), old(arrays), old(promises), self),
            index < old(arrays).elems(old(groups).record(self).result_array).spec_len(),
        ensures
            ({
                let rec = old(groups).record(self);
                let capability = PromiseCapability { promise: rec.promise, must_be_unresolved: true };
                match (rec.promise_group_type, reaction_type) {
                    (PromiseGroupType::All, PromiseReactionType::Fulfill) => counted_down(old(groups), final(groups), self)
                        && element_stored(old(arrays), final(arrays), rec.result_array, index, value)
                        && (rec.remaining_elements_count <= 1 ==> r is Resolving && r->capability == capability
                            && settled_with(old(promises), final(promises), capability, Ok(Value::Array(rec.result_array.0)), r->step))
                        && (rec.remaining_elements_count > 1 ==> r == GroupOutcome::Done && final(promises).unchanged(old(promises))),
                    (PromiseGroupType::All, PromiseReactionType::Reject) => r == GroupOutcome::Done
                        && final(groups).records@ == old(groups).records@ && final(arrays).arrays@ == old(arrays).arrays@
                        && (spec_is_already_resolved(old(promises), capability) ==> final(promises).unchanged(old(promises)))
                        && (!spec_is_already_resolved(old(promises), capability) ==> rejected_post(old(promises), final(promises), rec.promise, JsError::Thrown(value))),
                    (PromiseGroupType::AllSettled, _) => r == (GroupOutcome::MakeAllSettledObject {
                            index,
                            obj: AllSettledObject { status: reaction_type, value },
                        })
                        && final(groups).records@ == old(groups).records@ && final(arrays).arrays@ == old(arrays).arrays@
                        && final(promises).unchanged(old(promises)),
                    (PromiseGroupType::Any, PromiseReactionType::Fulfill) => r is Resolving && r->capability == capability
                        && settled_with(old(promises), final(promises), capability, Ok(value), r->step)
                        && final(groups).records@ == old(groups).records@ && final(arrays).arrays@ == old(arrays).arrays@,
                    (PromiseGroupType::Any, PromiseReactionType::Reject) => counted_down(old(groups), final(groups), self)
                        && element_stored(old(arrays), final(arrays), rec.result_array, index, value)
                        && final(promises).unchanged(old(promises))
                        && r == (if rec.remaining_elements_count <= 1 {
                            GroupOutcome::RejectWithAggregateError { promise: rec.promise, errors: rec.result_array }
                        } else {
                            GroupOutcome::Done
                        }),
                }
            }),
    {
        let record = groups.records[self.0 as usize];
        match record.promise_group_type {
            PromiseGroupType::All => match reaction_type {
                PromiseReactionType::Fulfill => self.fulfill(groups, arrays, promises, index, value),
                PromiseReactionType::Reject => {
                    self.immediately_reject(groups, promises, value);
                    GroupOutcome::Done
                },
            },
            PromiseGroupType::AllSettled => {
                let obj = self.to_all_settled_obj(reaction_type, value);
                GroupOutcome::MakeAllSettledObject { index, obj }
            },
            PromiseGroupType::Any => match reaction_type {
                PromiseReactionType::Fulfill => self.immediately_resolve(groups, promises, value),
                PromiseReactionType::Reject => self.reject(groups, arrays, index, value),
            },
        }
    }
}

/// The group's record and result array are in their heaps.
pub open spec fn groups_and_array_valid(groups: &PromiseGroupHeap, arrays: &ArrayHeap, g: PromiseGroup) -> bool {
    &&& groups.contains(g)
    &&& arrays.wf()
    &&& arrays.contains(groups.record(g).result_array)
}

/// The combinator settles its promise exactly at the last element: from a
/// record with `n` remaining elements, each settled element counts one down
/// (as [`PromiseGroup::fulfill`] and [`PromiseGroup::reject`] do), so after
/// `k <= n` of them `n - k` remain; and since those resolve or reject the
/// group's promise exactly when the count they start from is at most one,
/// that happens at the `n`-th element and not before.
pub proof fn lemma_settles_at_last_element(heaps: Seq<PromiseGroupHeap>, g: PromiseGroup)
    requires
        heaps.len() > 0,
        heaps[0].contains(g),
        heaps.len() - 1 <= heaps[0].record(g).remaining_elements_count,
        forall|i: int| 0 <= i < heaps.len() - 1 ==> #[trigger] counted_down(&heaps[i], &heaps[i + 1], g),
    ensures
        forall|i: int| 0 <= i < heaps.len() ==> #[trigger] heaps[i].contains(g),
        forall|i: int| 0 <= i < heaps.len() ==>
            #[trigger] heaps[i].record(g).remaining_elements_count == heaps[0].record(g).remaining_elements_count - i,
        forall|i: int| 0 <= i < heaps.len() ==>
            (#[trigger] heaps[i].record(g).remaining_elements_count <= 1 <==> i + 1 >= heaps[0].record(g).remaining_elements_count),
    decreases heaps.len(),
{
    if heaps.len() > 1 {
        let prefix = heaps.drop_last();
        let n = heaps.len() - 1;
        assert forall|i: int| 0 <= i < prefix.len() - 1 implies #[trigger] counted_down(&prefix[i], &prefix[i + 1], g) by {
            assert(prefix[i] == heaps[i]);
            assert(prefix[i + 1] == heaps[i + 1]);
            assert(counted_down(&heaps[i], &heaps[i + 1], g));
        }
        lemma_settles_at_last_element(prefix, g);
        assert(prefix[n - 1] == heaps[n - 1]);
        assert(heaps[n - 1].contains(g));
        assert(heaps[n - 1].record(g).remaining_elements_count == heaps[0].record(g).remaining_elements_count - (n - 1));
        let k = n - 1;
        assert(counted_down(&heaps[k], &heaps[k + 1], g));
        assert(k + 1 == n);
        let c = heaps[n - 1].record(g).remaining_elements_count;
        assert(c >= 1);
        assert(heaps[n].records@[g.0 as int] == PromiseGroupRecord {
            remaining_elements_count: (c - 1) as u32,
            ..heaps[n - 1].record(g)
        });
        assert(heaps[n].record(g).remaining_elements_count == c - 1);
        assert forall|i: int| 0 <= i < heaps.len() implies #[trigger] heaps[i].contains(g) by {
            if i < n {
                assert(prefix[i] == heaps[i]);
            }
        }
        assert forall|i: int| 0 <= i < heaps.len() implies
            #[trigger] heaps[i].record(g).remaining_elements_count == heaps[0].record(g).remaining_elements_count - i by {
            if i < n {
                assert(prefix[i] == heaps[i]);
            }
        }
    }
}

/// The state of Promise.all.
#[derive(Debug, Clone, Copy, PartialEq, Eq, Structural)]
pub struct PromiseAllRecord {
    pub remaining_unresolved_promise_count: u32,
    pub result_array: Array,
    pub promise: Promise,
}

/// A handle to a Promise.all record.
#[derive(Debug, Clone, Copy, PartialEq, Eq, Structural)]
pub struct PromiseAll(pub u32);

/// The arena of Promise.all records.
pub struct PromiseAllHeap {
    pub records: Vec<PromiseAllRecord>,
}

impl PromiseAllHeap {
    pub open spec fn contains(&self, p: PromiseAll) -> bool {
        p.0 < self.records@.len()
    }

    pub open spec fn record(&self, p: PromiseAll) -> PromiseAllRecord {
        self.records@[p.0 as int]
    }
}

impl PromiseAll {
    /// The result array.
    pub fn get_result_array(self, heap: &PromiseAllHeap) -> (r: Array)
        requires
            heap.contains(self),
        ensures
            r == heap.record(self).result_array,
    {
        heap.records[self.0 as usize].result_array
    }

    /// The record.
    pub fn get(self, heap: &PromiseAllHeap) -> (r: PromiseAllRecord)
        requires
            heap.contains(self),
        ensures
            r == heap.record(self),
    {
        heap.records[self.0 as usize]
    }

    /// Element `index` fulfilled with `value`: it is stored, the count goes
    /// down (not below zero), and at zero the promise is resolved with the
    /// result array.
    pub fn on_promise_fulfilled(
        self,
        heap: &mut PromiseAllHeap,
        arrays: &mut ArrayHeap,
        promises: &mut PromiseHeap,
        index: u32,
        value: Value,
    ) -> (r: Option<(PromiseCapability, ResolveStep)>)
        requires
            old(heap).contains(self),
            old(arrays).wf(),
            old(arrays).contains(old(heap).record(self).result_array),
            old(promises).contains(old(heap).record(self).promise),
            index < old(arrays).elems(old(heap).record(self).result_array).spec_len(),
        ensures
            ({
                let rec = old(heap).record(self);
                let count = if rec.remaining_unresolved_promise_count == 0 { 0 } else { rec.remaining_unresolved_promise_count - 1 };
                let capability = PromiseCapability { promise: rec.promise, must_be_unresolved: false };
                &&& final(heap).records@ == old(heap).records@.update(self.0 as int, PromiseAllRecord {
                    remaining_unresolved_promise_count: count as u32,
                    ..rec
                })
                &&& element_stored(old(arrays), final(arrays), rec.result_array, index, value)
                &&& count > 0 ==> r is None && final(promises).unchanged(old(promises))
                &&& count == 0 ==> r is Some && r->Some_0.0 == capability
                    && (spec_is_already_resolved(old(promises), capability) ==> r->Some_0.1 == ResolveStep::Done)
                    && settled_with(old(promises), final(promises), capability, Ok(Value::Array(rec.result_array.0)), r->Some_0.1)
            }),
    {
        let i = self.0 as usize;
        let mut data = heap.records[i];
        store_element(arrays, data.result_array, index, value);
        data.remaining_unresolved_promise_count = data.remaining_unresolved_promise_count.saturating_sub(1);
        heap.records.set(i, data);
        if data.remaining_unresolved_promise_count == 0 {
            let capability = PromiseCapability::from_promise(data.promise, false);
            let step = capability.resolve(promises, Value::Array(data.result_array.0));
            Some((capability, step))
        } else {
            None
        }
    }
}

/// The state of Promise.allSettled.
#[derive(Debug, Clone, Copy, PartialEq, Eq, Structural)]
pub struct PromiseAllSettledRecord {
    pub remaining_elements_count: u32,
    pub result_array: Array,
    pub promise: Promise,
}

impl PromiseAllSettledRecord {
    /// An element settled: `obj` is the object made for it
    /// (`{ status, value }` or `{ status, reason }`); it is stored, the count
    /// goes down (not below zero), and at zero the promise is resolved with
    /// the result array.
    pub fn on_promise_settled(
        &mut self,
        arrays: &mut ArrayHeap,
        promises: &mut PromiseHeap,
        index: u32,
        obj: Value,
    ) -> (r: Option<(PromiseCapability, ResolveStep)>)
        requires
            old(arrays).wf(),
            old(arrays).contains(old(self).result_array),
            old(promises).contains(old(self).promise),
            index < old(arrays).elems(old(self).result_array).spec_len(),
        ensures
            final(self).result_array == old(self).result_array,
            final(self).promise == old(self).promise,
            final(self).remaining_elements_count == (if old(self).remaining_elements_count == 0 { 0 } else { old(self).remaining_elements_count - 1 }),
            element_stored(old(arrays), final(arrays), old(self).result_array, index, obj),
            final(self).remaining_elements_count > 0 ==> r is None && final(promises).unchanged(old(promises)),
            final(self).remaining_elements_count == 0 ==> r is Some && r->Some_0.0 == (PromiseCapability { promise: old(self).promise, must_be_unresolved: true })
                && settled_with(old(promises), final(promises), r->Some_0.0, Ok(Value::Array(old(self).result_array.0)), r->Some_0.1),
    {
        // 12. Set elements[index] to obj.
        store_element(arrays, self.result_array, index, obj);
        // 13. Set remainingElementsCount.[[Value]] to remainingElementsCount.[[Value]] - 1.
        self.remaining_elements_count = self.remaining_elements_count.saturating_sub(1);
        // 14. If remainingElementsCount.[[Value]] = 0, then
        if self.remaining_elements_count == 0 {
            // a. Let valuesArray be CreateArrayFromList(values).
            // b. Return ? Call(promiseCapability.[[Resolve]], undefined, « valuesArray »).
            let capability = PromiseCapability::from_promise(self.promise, true);
            let step = capability.resolve(promises, Value::Array(self.result_array.0));
            Some((capability, step))
        } else {
            None
        }
    }
}

} // verus!
