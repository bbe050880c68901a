//! ## [27.2 Promise Objects](https://tc39.es/ecma262/#sec-promise-objects)
//!
//! Promises, their reaction records, PromiseCapability records and the
//! resolving functions. Jobs that the operations enqueue, and the calls of
//! the host's rejection tracker, are recorded in the heap in order.
//!
//! A rejection reason is a [`JsError`]: a thrown value, or an exception of
//! a kind that the engine creates when the reason is observed.

use vstd::prelude::*;
use crate::value::{ExceptionType, JsError, Value};

verus! {

/// A handle to a Promise in the [`PromiseHeap`].
#[derive(Debug, Clone, Copy, PartialEq, Eq, Structural)]
pub struct Promise(pub u32);

/// \[\[Type]] of a reaction: fulfill or reject.
#[derive(Debug, Clone, Copy, PartialEq, Eq, Structural)]
pub enum PromiseReactionType {
    Fulfill,
    Reject,
}

/// \[\[Handler]] of a reaction: the function, or the suspended engine
/// record, that the settlement value is handed to; empty for a reaction
/// that passes the value on to its capability.
#[derive(Debug, Clone, Copy, PartialEq, Eq, Structural)]
pub enum PromiseReactionHandler {
    JobCallback(u32),
    Await(u32),
    AsyncGenerator(u32),
    AsyncFromSyncIterator { done: bool },
    AsyncFromSyncIteratorClose(u32),
    PromiseGroup { promise_group: u32, index: u32 },
    Empty,
}

/// A promise capability: the promise, and whether a resolution of it that
/// is still pending counts as already resolved (as for the resolving
/// functions that a NewPromiseCapability makes).
#[derive(Debug, Clone, Copy, PartialEq, Eq, Structural)]
pub struct PromiseCapability {
    pub promise: Promise,
    pub must_be_unresolved: bool,
}

/// ### [27.2.1.2 PromiseReaction Records](https://tc39.es/ecma262/#sec-promisereaction-records)
#[derive(Debug, Clone, Copy, PartialEq, Eq, Structural)]
pub struct PromiseReactionRecord {
    /// \[\[Capability]]: the capability of the derived promise, if any.
    pub capability: Option<PromiseCapability>,
    /// \[\[Type]]
    pub reaction_type: PromiseReactionType,
    /// \[\[Handler]]
    pub handler: PromiseReactionHandler,
}

/// A handle to a reaction record in the [`PromiseHeap`].
#[derive(Debug, Clone, Copy, PartialEq, Eq, Structural)]
pub struct PromiseReaction(pub u32);

/// \[\[PromiseState]] with what belongs to each state.
pub enum PromiseState {
    Pending {
        /// \[\[PromiseFulfillReactions]]
        fulfill_reactions: Vec<PromiseReaction>,
        /// \[\[PromiseRejectReactions]]
        reject_reactions: Vec<PromiseReaction>,
        /// Whether the promise's resolving functions have been used.
        is_resolved: bool,
    },
    Fulfilled {
        /// \[\[PromiseResult]]
        promise_result: Value,
    },
    Rejected {
        /// \[\[PromiseResult]]: the rejection reason.
        reason: JsError,
        /// \[\[PromiseIsHandled]]
        is_handled: bool,
    },
}

/// The state of a promise as a mathematical value.
pub enum PromiseStateView {
    Pending { fulfill_reactions: Seq<PromiseReaction>, reject_reactions: Seq<PromiseReaction>, is_resolved: bool },
    Fulfilled { promise_result: Value },
    Rejected { reason: JsError, is_handled: bool },
}

impl View for PromiseState {
    type V = PromiseStateView;

    open spec fn view(&self) -> PromiseStateView {
        match self {
            PromiseState::Pending { fulfill_reactions, reject_reactions, is_resolved } => PromiseStateView::Pending {
                fulfill_reactions: fulfill_reactions@,
                reject_reactions: reject_reactions@,
                is_resolved: *is_resolved,
            },
            PromiseState::Fulfilled { promise_result } => PromiseStateView::Fulfilled { promise_result: *promise_result },
            PromiseState::Rejected { reason, is_handled } => PromiseStateView::Rejected {
                reason: *reason,
                is_handled: *is_handled,
            },
        }
    }
}

/// The heap data of a Promise.
pub struct PromiseHeapData {
    pub object_index: Option<u32>,
    pub promise_state: PromiseState,
}

impl PromiseHeapData {
    /// A pending promise with no reactions, not yet resolved.
    pub fn default() -> (r: Self)
        ensures
            r.object_index is None,
            r.promise_state@ == (PromiseStateView::Pending {
                fulfill_reactions: Seq::empty(),
                reject_reactions: Seq::empty(),
                is_resolved: false,
            }),
    {
        PromiseHeapData {
            object_index: None,
            promise_state: PromiseState::Pending {
                fulfill_reactions: Vec::new(),
                reject_reactions: Vec::new(),
                is_resolved: false,
            },
        }
    }
}

/// The value that a promise settled with, handed to its reactions.
#[derive(Debug, Clone, Copy, PartialEq, Eq, Structural)]
pub enum Settlement {
    Fulfilled(Value),
    Rejected(JsError),
}

/// A job that a promise operation enqueues with the host.
#[derive(Debug, Clone, Copy, PartialEq, Eq, Structural)]
pub enum PromiseJob {
    /// ### [27.2.2.1 NewPromiseReactionJob ( reaction, argument )](https://tc39.es/ecma262/#sec-newpromisereactionjob)
    ///
    /// The argument is the fulfillment value, or the rejection reason.
    Reaction { reaction: PromiseReaction, argument: Settlement },
    /// ### [27.2.2.2 NewPromiseResolveThenableJob ( promiseToResolve, thenable, then )](https://tc39.es/ecma262/#sec-newpromiseresolvethenablejob)
    ResolveThenable { promise_to_resolve: Promise, thenable: Value, then: u32 },
}

/// The operations of HostPromiseRejectionTracker.
#[derive(Debug, Clone, Copy, PartialEq, Eq, Structural)]
pub enum PromiseRejectionTrackerOperation {
    Reject,
    Handle,
}

/// A call of HostPromiseRejectionTracker.
#[derive(Debug, Clone, Copy, PartialEq, Eq, Structural)]
pub struct RejectionTrackerCall {
    pub promise: Promise,
    pub operation: PromiseRejectionTrackerOperation,
}

/// The promises and reaction records, with the jobs enqueued with the host
/// and the calls of the host's rejection tracker, in order.
pub struct PromiseHeap {
    pub promises: Vec<PromiseHeapData>,
    pub reactions: Vec<PromiseReactionRecord>,
    pub jobs: Vec<PromiseJob>,
    pub rejection_tracker: Vec<RejectionTrackerCall>,
}

/// One reaction job per reaction, in order, each with `argument`.
pub open spec fn reaction_jobs(reactions: Seq<PromiseReaction>, argument: Settlement) -> Seq<PromiseJob> {
    Seq::new(reactions.len(), |i: int| PromiseJob::Reaction { reaction: reactions[i], argument })
}

impl PromiseHeap {
    pub open spec fn contains(&self, p: Promise) -> bool {
        p.0 < self.promises@.len()
    }

    pub open spec fn state(&self, p: Promise) -> PromiseStateView {
        self.promises@[p.0 as int].promise_state@
    }

    pub open spec fn is_pending(&self, p: Promise) -> bool {
        self.state(p) is Pending
    }

    /// Every promise but `p` is as in `other`, and so are the reaction
    /// records.
    pub open spec fn same_except(&self, other: &PromiseHeap, p: Promise) -> bool {
        &&& self.promises@.len() == other.promises@.len()
        &&& forall|i: int| 0 <= i < self.promises@.len() && i != p.0 ==> #[trigger] self.promises@[i] == other.promises@[i]
        &&& self.promises@[p.0 as int].object_index == other.promises@[p.0 as int].object_index
        &&& self.reactions@ == other.reactions@
    }

    /// Nothing changed: the promises, the reactions, the jobs and the
    /// rejection tracker calls are as in `other`.
    pub open spec fn unchanged(&self, other: &PromiseHeap) -> bool {
        &&& self.promises@.len() == other.promises@.len()
        &&& forall|i: int| 0 <= i < self.promises@.len() ==> #[trigger] self.promises@[i] == other.promises@[i]
        &&& self.reactions@ == other.reactions@
        &&& self.jobs@ == other.jobs@
        &&& self.rejection_tracker@ == other.rejection_tracker@
    }

    /// An empty heap.
    pub fn new() -> (r: Self)
        ensures
            r.promises@.len() == 0,
            r.reactions@.len() == 0,
            r.jobs@.len() == 0,
            r.rejection_tracker@.len() == 0,
    {
        PromiseHeap { promises: Vec::new(), reactions: Vec::new(), jobs: Vec::new(), rejection_tracker: Vec::new() }
    }

    /// Adds a Promise with the given data.
    pub fn create(&mut self, data: PromiseHeapData) -> (r: Promise)
        requires
            old(self).promises@.len() < u32::MAX,
        ensures
            r.0 == old(self).promises@.len(),
            final(self).promises@ == old(self).promises@.push(data),
            final(self).reactions@ == old(self).reactions@,
            final(self).jobs@ == old(self).jobs@,
            final(self).rejection_tracker@ == old(self).rejection_tracker@,
    {
        let index = self.promises.len() as u32;
        self.promises.push(data);
        Promise(index)
    }

    /// Adds a reaction record.
    pub fn create_reaction(&mut self, data: PromiseReactionRecord) -> (r: PromiseReaction)
        requires
            old(self).reactions@.len() < u32::MAX,
        ensures
            r.0 == old(self).reactions@.len(),
            final(self).reactions@ == old(self).reactions@.push(data),
            final(self).promises@ == old(self).promises@,
            final(self).jobs@ == old(self).jobs@,
            final(self).rejection_tracker@ == old(self).rejection_tracker@,
    {
        let index = self.reactions.len() as u32;
        self.reactions.push(data);
        PromiseReaction(index)
    }
}

impl Promise {
    pub fn get_index(self) -> (r: usize)
        ensures
            r == self.0,
    {
        self.0 as usize
    }
}

impl PromiseReaction {
    pub fn get_index(self) -> (r: usize)
        ensures
            r == self.0,
    {
        self.0 as usize
    }
}

/// ### [27.2.4.7.1 TriggerPromiseReactions ( reactions, argument )](https://tc39.es/ecma262/#sec-triggerpromisereactions)
///
/// Enqueues a reaction job for each reaction, in order.
pub fn trigger_promise_reactions(heap: &mut PromiseHeap, reactions: &Vec<PromiseReaction>, argument: Settlement)
    ensures
        final(heap).jobs@ == old(heap).jobs@ + reaction_jobs(reactions@, argument),
        final(heap).promises@ == old(heap).promises@,
        final(heap).reactions@ == old(heap).reactions@,
        final(heap).rejection_tracker@ == old(heap).rejection_tracker@,
{
    let mut i: usize = 0;
    // 1. For each element reaction of reactions, do
    while i < reactions.len()
        invariant
            i <= reactions@.len(),
            heap.jobs@ == old(heap).jobs@ + reaction_jobs(reactions@.subrange(0, i as int), argument),
            heap.promises@ == old(heap).promises@,
            heap.reactions@ == old(heap).reactions@,
            heap.rejection_tracker@ == old(heap).rejection_tracker@,
        decreases reactions@.len() - i,
    {
        // a. Let job be NewPromiseReactionJob(reaction, argument).
        // b. Perform HostEnqueuePromiseJob(job.[[Job]], job.[[Realm]]).
        heap.jobs.push(PromiseJob::Reaction { reaction: reactions[i], argument });
        proof {
            assert(reaction_jobs(reactions@.subrange(0, i + 1), argument)
                =~= reaction_jobs(reactions@.subrange(0, i as int), argument).push(PromiseJob::Reaction { reaction: reactions@[i as int], argument }));
        }
        i = i + 1;
    }
    assert(reactions@.subrange(0, reactions@.len() as int) =~= reactions@);
    // 2. Return unused.
}

/// What `alreadyResolved` of the capability's resolving functions is: a
/// settled promise is always resolved; a pending one is where the
/// capability's functions must not have been used and have been.
pub open spec fn spec_is_already_resolved(heap: &PromiseHeap, capability: PromiseCapability) -> bool {
    match heap.state(capability.promise) {
        PromiseStateView::Pending { is_resolved, .. } => capability.must_be_unresolved && is_resolved,
        _ => true,
    }
}

/// `after` is `before` with the pending promise `p` fulfilled with `value`:
/// its fulfill reactions are enqueued as jobs.
pub open spec fn fulfilled_post(before: &PromiseHeap, after: &PromiseHeap, p: Promise, value: Value) -> bool {
    &&& after.same_except(before, p)
    &&& after.state(p) == (PromiseStateView::Fulfilled { promise_result: value })
    &&& after.jobs@ == before.jobs@ + reaction_jobs(before.state(p)->Pending_fulfill_reactions, Settlement::Fulfilled(value))
    &&& after.rejection_tracker@ == before.rejection_tracker@
}

/// `after` is `before` with the pending promise `p` rejected with
/// `reason`: it is handled where it had reject reactions, the rejection
/// tracker is told where it is not, and its reject reactions are enqueued.
pub open spec fn rejected_post(before: &PromiseHeap, after: &PromiseHeap, p: Promise, reason: JsError) -> bool {
    let reactions = before.state(p)->Pending_reject_reactions;
    &&& after.same_except(before, p)
    &&& after.state(p) == (PromiseStateView::Rejected { reason, is_handled: reactions.len() > 0 })
    &&& after.jobs@ == before.jobs@ + reaction_jobs(reactions, Settlement::Rejected(reason))
    &&& after.rejection_tracker@ == if reactions.len() > 0 {
        before.rejection_tracker@
    } else {
        before.rejection_tracker@.push(RejectionTrackerCall { promise: p, operation: PromiseRejectionTrackerOperation::Reject })
    }
}

/// `after` is `before` with the pending promise `p` marked resolved.
pub open spec fn marked_resolved(before: &PromiseHeap, after: &PromiseHeap, p: Promise) -> bool {
    &&& after.same_except(before, p)
    &&& after.state(p) == (PromiseStateView::Pending {
        fulfill_reactions: before.state(p)->Pending_fulfill_reactions,
        reject_reactions: before.state(p)->Pending_reject_reactions,
        is_resolved: true,
    })
    &&& after.jobs@ == before.jobs@
    &&& after.rejection_tracker@ == before.rejection_tracker@
}

/// What a resolve function does with a resolution that is not an object,
/// or is the promise itself: the resolution to look `then` up on, or
/// nothing more to do.
#[derive(Debug, Clone, Copy, PartialEq, Eq, Structural)]
pub enum ResolveStep {
    /// The promise was already resolved, or is now settled.
    Done,
    /// The resolution is an object: its "then" property must be read, and
    /// the outcome handed to [`PromiseCapability::resolve_with_then`].
    GetThen(Value),
}

/// The outcome of reading a property without running ECMAScript code.
#[derive(Debug, Clone, Copy, PartialEq, Eq, Structural)]
pub enum TryGetOutcome {
    /// The property is absent.
    Unset,
    /// The property holds this value.
    Value(Value),
    /// Reading it would run ECMAScript code (a getter or a proxy trap).
    NeedsCall,
}

/// A try-operation that could not complete without running ECMAScript
/// code.
#[derive(Debug, Clone, Copy, PartialEq, Eq, Structural)]
pub struct TryError;

impl PromiseCapability {
    /// ### [27.2.1.5 NewPromiseCapability ( C )](https://tc39.es/ecma262/#sec-newpromisecapability)
    ///
    /// A new pending promise, whose resolving functions are unused.
    pub fn new(heap: &mut PromiseHeap) -> (r: Self)
        requires
            old(heap).promises@.len() < u32::MAX,
        ensures
            r.promise.0 == old(heap).promises@.len(),
            r.must_be_unresolved,
            final(heap).promises@.len() == old(heap).promises@.len() + 1,
            forall|i: int| 0 <= i < old(heap).promises@.len() ==> #[trigger] final(heap).promises@[i] == old(heap).promises@[i],
            final(heap).promises@[r.promise.0 as int].object_index is None,
            final(heap).state(r.promise) == (PromiseStateView::Pending {
                fulfill_reactions: Seq::empty(),
                reject_reactions: Seq::empty(),
                is_resolved: false,
            }),
            final(heap).reactions@ == old(heap).reactions@,
            final(heap).jobs@ == old(heap).jobs@,
            final(heap).rejection_tracker@ == old(heap).rejection_tracker@,
    {
        let promise = heap.create(PromiseHeapData::default());
        Self::from_promise(promise, true)
    }

    pub fn from_promise(promise: Promise, must_be_unresolved: bool) -> (r: Self)
        ensures
            r.promise == promise,
            r.must_be_unresolved == must_be_unresolved,
    {
        PromiseCapability { promise, must_be_unresolved }
    }

    /// \[\[Promise]]
    pub fn promise(&self) -> (r: Promise)
        ensures
            r == self.promise,
    {
        self.promise
    }

    /// Whether the capability's resolving functions count as already used.
    pub fn is_already_resolved(&self, heap: &PromiseHeap) -> (r: bool)
        requires
            heap.contains(self.promise),
        ensures
            r == spec_is_already_resolved(heap, *self),
    {
        match &heap.promises[self.promise.0 as usize].promise_state {
            PromiseState::Pending { is_resolved, .. } => {
                if self.must_be_unresolved {
                    *is_resolved
                } else {
                    false
                }
            },
            _ => true,
        }
    }

    /// Sets the pending promise's resolved flag.
    fn set_already_resolved(&self, heap: &mut PromiseHeap)
        requires
            old(heap).contains(self.promise),
            old(heap).is_pending(self.promise),
        ensures
            marked_resolved(old(heap), final(heap), self.promise),
            final(heap).reactions@ == old(heap).reactions@,
    {
        let i = self.promise.0 as usize;
        let placeholder = PromiseState::Fulfilled { promise_result: Value::Undefined };
        let mut state = placeholder;
        std::mem::swap(&mut state, &mut heap.promises[i].promise_state);
        let new_state = match state {
            PromiseState::Pending { fulfill_reactions, reject_reactions, .. } => PromiseState::Pending {
                fulfill_reactions,
                reject_reactions,
                is_resolved: true,
            },
            other => other,
        };
        heap.promises[i].promise_state = new_state;
    }

    /// ### [27.2.1.4 FulfillPromise ( promise, value )](https://tc39.es/ecma262/#sec-fulfillpromise)
    pub fn internal_fulfill(&self, heap: &mut PromiseHeap, value: Value)
        requires
            old(heap).contains(self.promise),
            old(heap).is_pending(self.promise),
        ensures
            fulfilled_post(old(heap), final(heap), self.promise, value),
    {
        let i = self.promise.0 as usize;
        // 1. Assert: The value of promise.[[PromiseState]] is pending.
        // 3. Set promise.[[PromiseResult]] to value.
        // 4. Set promise.[[PromiseFulfillReactions]] to undefined.
        // 5. Set promise.[[PromiseRejectReactions]] to undefined.
        // 6. Set promise.[[PromiseState]] to FULFILLED.
        let mut state = PromiseState::Fulfilled { promise_result: value };
        std::mem::swap(&mut state, &mut heap.promises[i].promise_state);
        // 2. Let reactions be promise.[[PromiseFulfillReactions]].
        match state {
            PromiseState::Pending { fulfill_reactions, .. } => {
                // 7. Perform TriggerPromiseReactions(reactions, value).
                trigger_promise_reactions(heap, &fulfill_reactions, Settlement::Fulfilled(value));
            },
            _ => {
                assert(false);
            },
        }
    }

    /// ### [27.2.1.7 RejectPromise ( promise, reason )](https://tc39.es/ecma262/#sec-rejectpromise)
    pub fn internal_reject(&self, heap: &mut PromiseHeap, reason: JsError)
        requires
            old(heap).contains(self.promise),
            old(heap).is_pending(self.promise),
        ensures
            rejected_post(old(heap), final(heap), self.promise, reason),
    {
        let i = self.promise.0 as usize;
        let placeholder = PromiseState::Fulfilled { promise_result: Value::Undefined };
        // 1. Assert: The value of promise.[[PromiseState]] is pending.
        // 2. Let reactions be promise.[[PromiseRejectReactions]].
        let mut state = placeholder;
        std::mem::swap(&mut state, &mut heap.promises[i].promise_state);
        match state {
            PromiseState::Pending { reject_reactions, .. } => {
                // [[PromiseIsHandled]] of a pending promise is whether it has
                // reject reactions.
                let is_handled = reject_reactions.len() > 0;
                // 3. Set promise.[[PromiseResult]] to reason.
                // 4. Set promise.[[PromiseFulfillReactions]] to undefined.
                // 5. Set promise.[[PromiseRejectReactions]] to undefined.
                // 6. Set promise.[[PromiseState]] to REJECTED.
                heap.promises[i].promise_state = PromiseState::Rejected { reason, is_handled };
                // 7. If promise.[[PromiseIsHandled]] is false, perform
                //    HostPromiseRejectionTracker(promise, "reject").
                if !is_handled {
                    heap.rejection_tracker.push(RejectionTrackerCall {
                        promise: self.promise,
                        operation: PromiseRejectionTrackerOperation::Reject,
                    });
                }
                // 8. Perform TriggerPromiseReactions(reactions, reason).
                trigger_promise_reactions(heap, &reject_reactions, Settlement::Rejected(reason));
            },
            _ => {
                assert(false);
            },
        }
    }

    /// ### [27.2.1.3.2 Promise Resolve Functions](https://tc39.es/ecma262/#sec-promise-resolve-functions), steps 1 to 9
    ///
    /// Nothing happens where the capability is already resolved. Otherwise
    /// the promise is marked resolved, and then rejected with a TypeError
    /// where the resolution is the promise itself, fulfilled where the
    /// resolution is not an object; for an object, the caller reads its
    /// "then" property and continues with
    /// [`PromiseCapability::resolve_with_then`].
    pub fn resolve(self, heap: &mut PromiseHeap, resolution: Value) -> (r: ResolveStep)
        requires
            old(heap).contains(self.promise),
        ensures
            spec_is_already_resolved(old(heap), self) ==> r == ResolveStep::Done && final(heap).unchanged(old(heap)),
            !spec_is_already_resolved(old(heap), self) ==> {
                let p = self.promise;
                if resolution == Value::Promise(p.0) {
                    &&& r == ResolveStep::Done
                    &&& exists|mid: PromiseHeap| marked_resolved(old(heap), &mid, p)
                        && rejected_post(&mid, final(heap), p, JsError::Exception(ExceptionType::TypeError))
                } else if !resolution.spec_is_object() {
                    &&& r == ResolveStep::Done
                    &&& exists|mid: PromiseHeap| marked_resolved(old(heap), &mid, p)
                        && fulfilled_post(&mid, final(heap), p, resolution)
                } else {
                    &&& r == ResolveStep::GetThen(resolution)
                    &&& marked_resolved(old(heap), final(heap), p)
                }
            },
    {
        // 5. If alreadyResolved.[[Value]] is true, return undefined.
        if self.is_already_resolved(heap) {
            return ResolveStep::Done;
        }
        // 6. Set alreadyResolved.[[Value]] to true.
        let ghost before = *heap;
        self.set_already_resolved(heap);
        let ghost mid = *heap;
        // 7. If SameValue(resolution, promise) is true, then
        if resolution == Value::Promise(self.promise.0) {
            // a. Let selfResolutionError be a newly created TypeError object.
            // b. Perform RejectPromise(promise, selfResolutionError).
            self.internal_reject(heap, JsError::Exception(ExceptionType::TypeError));
            // c. Return undefined.
            assert(marked_resolved(&before, &mid, self.promise));
            return ResolveStep::Done;
        }
        // 8. If resolution is not an Object, then
        if !resolution.is_object() {
            // a. Perform FulfillPromise(promise, resolution).
            self.internal_fulfill(heap, resolution);
            // b. Return undefined.
            assert(marked_resolved(&before, &mid, self.promise));
            return ResolveStep::Done;
        }
        // 9. Let then be Completion(Get(resolution, "then")).
        ResolveStep::GetThen(resolution)
    }

    /// ### [27.2.1.3.2 Promise Resolve Functions](https://tc39.es/ecma262/#sec-promise-resolve-functions), steps 10 to 16
    ///
    /// `then` is the outcome of Get(resolution, "then"). An abrupt one
    /// rejects the promise; a value that is not callable fulfills it with
    /// the resolution; a callable one enqueues a
    /// NewPromiseResolveThenableJob.
    pub fn resolve_with_then(self, heap: &mut PromiseHeap, resolution: Value, then: Result<Value, JsError>)
        requires
            old(heap).contains(self.promise),
            old(heap).is_pending(self.promise),
        ensures
            then matches Err(e) ==> rejected_post(old(heap), final(heap), self.promise, e),
            then matches Ok(Value::Function(f)) ==> {
                &&& final(heap).unchanged_but_jobs(old(heap))
                &&& final(heap).jobs@ == old(heap).jobs@.push(PromiseJob::ResolveThenable {
                    promise_to_resolve: self.promise,
                    thenable: resolution,
                    then: f,
                })
            },
            then matches Ok(v) && !(v is Function) ==> fulfilled_post(old(heap), final(heap), self.promise, resolution),
    {
        match then {
            // 10. If then is an abrupt completion, then
            Err(err) => {
                // a. Perform RejectPromise(promise, then.[[Value]]).
                self.internal_reject(heap, err);
                // b. Return undefined.
            },
            // 11. Let thenAction be then.[[Value]].
            // 12. If IsCallable(thenAction) is false, then
            Ok(Value::Function(f)) => {
                // 13. Let thenJobCallback be HostMakeJobCallback(thenAction).
                // 14. Let job be NewPromiseResolveThenableJob(promise, resolution, thenJobCallback).
                // 15. Perform HostEnqueuePromiseJob(job.[[Job]], job.[[Realm]]).
                heap.jobs.push(PromiseJob::ResolveThenable { promise_to_resolve: self.promise, thenable: resolution, then: f });
                // 16. Return undefined.
            },
            Ok(_) => {
                // a. Perform FulfillPromise(promise, resolution).
                self.internal_fulfill(heap, resolution);
                // b. Return undefined.
            },
        }
    }

    /// ### [27.2.1.3.2 Promise Resolve Functions](https://tc39.es/ecma262/#sec-promise-resolve-functions), without running ECMAScript code
    ///
    /// As [`PromiseCapability::resolve`] followed by
    /// [`PromiseCapability::resolve_with_then`], with `then_lookup` the
    /// outcome of reading "then" from the resolution without running code.
    /// Where that would run code, the promise is left marked resolved and
    /// the error is returned.
    pub fn try_resolve(&self, heap: &mut PromiseHeap, resolution: Value, then_lookup: TryGetOutcome) -> (r: Result<(), TryError>)
        requires
            old(heap).contains(self.promise),
        ensures
            spec_is_already_resolved(old(heap), *self) ==> r is Ok && final(heap).unchanged(old(heap)),
            !spec_is_already_resolved(old(heap), *self) ==> {
                let p = self.promise;
                if resolution == Value::Promise(p.0) {
                    &&& r is Ok
                    &&& exists|mid: PromiseHeap| marked_resolved(old(heap), &mid, p)
                        && rejected_post(&mid, final(heap), p, JsError::Exception(ExceptionType::TypeError))
                } else if !resolution.spec_is_object() {
                    &&& r is Ok
                    &&& exists|mid: PromiseHeap| marked_resolved(old(heap), &mid, p)
                        && fulfilled_post(&mid, final(heap), p, resolution)
                } else {
                    match then_lookup {
                        TryGetOutcome::NeedsCall => r is Err && marked_resolved(old(heap), final(heap), p),
                        TryGetOutcome::Value(Value::Function(f)) => {
                            &&& r is Ok
                            &&& exists|mid: PromiseHeap| marked_resolved(old(heap), &mid, p)
                                && final(heap).unchanged_but_jobs(&mid)
                                && final(heap).jobs@ == mid.jobs@.push(PromiseJob::ResolveThenable {
                                    promise_to_resolve: p,
                                    thenable: resolution,
                                    then: f,
                                })
                        },
                        _ => r is Ok && exists|mid: PromiseHeap| marked_resolved(old(heap), &mid, p)
                            && fulfilled_post(&mid, final(heap), p, resolution),
                    }
                }
            },
    {
        // 5. If alreadyResolved.[[Value]] is true, return undefined.
        if self.is_already_resolved(heap) {
            return Ok(());
        }
        // 6. Set alreadyResolved.[[Value]] to true.
        let ghost before = *heap;
        self.set_already_resolved(heap);
        let ghost mid = *heap;
        assert(marked_resolved(&before, &mid, self.promise));
        // 7. If SameValue(resolution, promise) is true, then
        if resolution == Value::Promise(self.promise.0) {
            // a. Let selfResolutionError be a newly created TypeError object.
            // b. Perform RejectPromise(promise, selfResolutionError).
            self.internal_reject(heap, JsError::Exception(ExceptionType::TypeError));
            assert(rejected_post(&mid, heap, self.promise, JsError::Exception(ExceptionType::TypeError)));
            assert(marked_resolved(&before, &mid, self.promise));
            // c. Return undefined.
            return Ok(());
        }
        // 8. If resolution is not an Object, then
        if !resolution.is_object() {
            // a. Perform FulfillPromise(promise, resolution).
            self.internal_fulfill(heap, resolution);
            assert(fulfilled_post(&mid, heap, self.promise, resolution));
            assert(marked_resolved(&before, &mid, self.promise));
            // b. Return undefined.
            return Ok(());
        }
        // 9. Let then be Completion(Get(resolution, "then")).
        // 11. Let thenAction be then.[[Value]].
        let then_action = match then_lookup {
            TryGetOutcome::Unset => Value::Undefined,
            TryGetOutcome::Value(v) => v,
            TryGetOutcome::NeedsCall => return Err(TryError),
        };
        // 12.-16.
        self.resolve_with_then(heap, resolution, Ok(then_action));
        Ok(())
    }

    /// ### [27.2.1.3.1 Promise Reject Functions](https://tc39.es/ecma262/#sec-promise-reject-functions)
    ///
    /// Nothing happens where the capability is already resolved; otherwise
    /// the promise is rejected with `reason`.
    pub fn reject(&self, heap: &mut PromiseHeap, reason: JsError)
        requires
            old(heap).contains(self.promise),
        ensures
            spec_is_already_resolved(old(heap), *self) ==> final(heap).unchanged(old(heap)),
            !spec_is_already_resolved(old(heap), *self) ==> rejected_post(old(heap), final(heap), self.promise, reason),
    {
        // 5. If alreadyResolved.[[Value]] is true, return undefined.
        if self.is_already_resolved(heap) {
            return;
        }
        // 6. Set alreadyResolved.[[Value]] to true.
        // 7. Perform RejectPromise(promise, reason).
        self.internal_reject(heap, reason);
    }
}

impl PromiseHeap {
    /// All but the job queue is as in `other`.
    pub open spec fn unchanged_but_jobs(&self, other: &PromiseHeap) -> bool {
        &&& self.promises@.len() == other.promises@.len()
        &&& forall|i: int| 0 <= i < self.promises@.len() ==> #[trigger] self.promises@[i] == other.promises@[i]
        &&& self.reactions@ == other.reactions@
        &&& self.rejection_tracker@ == other.rejection_tracker@
    }
}

/// ### [27.2.1.1.1 IfAbruptRejectPromise ( value, capability )](https://tc39.es/ecma262/#sec-ifabruptrejectpromise)
///
/// An abrupt completion rejects the capability (where it is not already
/// resolved) and gives its promise back as the error; a normal one gives
/// its value.
pub fn if_abrupt_reject_promise<T>(heap: &mut PromiseHeap, value: Result<T, JsError>, capability: PromiseCapability) -> (r: Result<T, Promise>)
    requires
        old(heap).contains(capability.promise),
    ensures
        value matches Ok(v) ==> r == Ok::<T, Promise>(v) && final(heap).unchanged(old(heap)),
        value matches Err(e) ==> {
            &&& r == Err::<T, Promise>(capability.promise)
            &&& spec_is_already_resolved(old(heap), capability) ==> final(heap).unchanged(old(heap))
            &&& !spec_is_already_resolved(old(heap), capability) ==> rejected_post(old(heap), final(heap), capability.promise, e)
        },
{
    match value {
        // 2. If value is an abrupt completion, then
        Err(err) => {
            // a. Perform ? Call(capability.[[Reject]], undefined, « value.[[Value]] »).
            capability.reject(heap, err);
            // b. Return capability.[[Promise]].
            Err(capability.promise)
        },
        // 3. Else,
        // a. Set value to ! value.
        Ok(v) => Ok(v),
    }
}

/// Which of the two resolving functions a promise resolving function is.
#[derive(Debug, Clone, Copy, PartialEq, Eq, Structural)]
pub enum PromiseResolvingFunctionType {
    Resolve,
    Reject,
}

/// The heap data of a promise resolve or reject function.
#[derive(Debug, Clone, Copy, PartialEq, Eq, Structural)]
pub struct PromiseResolvingFunctionHeapData {
    pub object_index: Option<u32>,
    pub promise_capability: PromiseCapability,
    pub resolve_type: PromiseResolvingFunctionType,
}

/// A promise resolve or reject function.
#[derive(Debug, Clone, Copy, PartialEq, Eq, Structural)]
pub struct BuiltinPromiseResolvingFunction(pub u32);

impl BuiltinPromiseResolvingFunction {
    /// The "length" of a resolving function is 1.
    pub fn get_length(self) -> (r: u8)
        ensures
            r == 1,
    {
        1
    }

    /// \[\[Call]]: resolves the capability with the first argument (where
    /// the outcome needs the "then" of an object, that is returned), or
    /// rejects it with the first argument as the thrown value; the call
    /// itself returns undefined.
    pub fn function_call(data: &PromiseResolvingFunctionHeapData, heap: &mut PromiseHeap, first_argument: Value) -> (r: ResolveStep)
        requires
            old(heap).contains(data.promise_capability.promise),
        ensures
            data.resolve_type is Reject ==> r == ResolveStep::Done && {
                let c = data.promise_capability;
                &&& spec_is_already_resolved(old(heap), c) ==> final(heap).unchanged(old(heap))
                &&& !spec_is_already_resolved(old(heap), c) ==> rejected_post(old(heap), final(heap), c.promise, JsError::Thrown(first_argument))
            },
            data.resolve_type is Resolve ==> {
                let c = data.promise_capability;
                &&& spec_is_already_resolved(old(heap), c) ==> r == ResolveStep::Done && final(heap).unchanged(old(heap))
                &&& !spec_is_already_resolved(old(heap), c) && first_argument.spec_is_object()
                    && first_argument != Value::Promise(c.promise.0) ==> r == ResolveStep::GetThen(first_argument)
                        && marked_resolved(old(heap), final(heap), c.promise)
                &&& !spec_is_already_resolved(old(heap), c) && !first_argument.spec_is_object() ==> r == ResolveStep::Done
                        && exists|mid: PromiseHeap| marked_resolved(old(heap), &mid, c.promise)
                            && fulfilled_post(&mid, final(heap), c.promise, first_argument)
            },
    {
        let promise_capability = data.promise_capability;
        match data.resolve_type {
            PromiseResolvingFunctionType::Resolve => promise_capability.resolve(heap, first_argument),
            PromiseResolvingFunctionType::Reject => {
                promise_capability.reject(heap, JsError::Thrown(first_argument));
                ResolveStep::Done
            },
        }
    }
}

/// ### [27.2.1.3.1 Promise Reject Functions](https://tc39.es/ecma262/#sec-promise-reject-functions)
///
/// A promise reject function with its own \[\[AlreadyResolved]] record.
#[derive(Debug, Clone, Copy, PartialEq, Eq, Structural)]
pub struct PromiseRejectFunctionHeapData {
    /// \[\[Promise]]
    pub promise: Promise,
    /// \[\[AlreadyResolved]]
    pub already_resolved: bool,
    pub object_index: Option<u32>,
}

/// A handle to a promise reject function.
#[derive(Debug, Clone, Copy, PartialEq, Eq, Structural)]
pub struct BuiltinPromiseRejectFunction(pub u32);

impl PromiseRejectFunctionHeapData {
    /// When a promise reject function is called with argument reason: where
    /// it was already used nothing happens; otherwise it is marked used and
    /// the promise (which must then be pending) is rejected.
    pub fn call(&mut self, heap: &mut PromiseHeap, reason: Value)
        requires
            old(heap).contains(old(self).promise),
            !old(self).already_resolved ==> old(heap).is_pending(old(self).promise),
        ensures
            final(self).promise == old(self).promise,
            final(self).object_index == old(self).object_index,
            final(self).already_resolved,
            old(self).already_resolved ==> final(heap).unchanged(old(heap)),
            !old(self).already_resolved ==> rejected_post(old(heap), final(heap), old(self).promise, JsError::Thrown(reason)),
    {
        // 5. If alreadyResolved.[[Value]] is true, return undefined.
        if !self.already_resolved {
            // 6. Set alreadyResolved.[[Value]] to true.
            self.already_resolved = true;
            // 7. Perform RejectPromise(promise, reason).
            PromiseCapability::from_promise(self.promise, true).internal_reject(heap, JsError::Thrown(reason));
            // 8. Return undefined.
        }
    }
}

/// A settled promise stays as it is: every resolving function of it,
/// whichever capability it belongs to, counts as already resolved, so
/// resolving or rejecting it again changes nothing.
pub proof fn lemma_settled_promise_is_resolved(heap: &PromiseHeap, capability: PromiseCapability)
    requires
        heap.contains(capability.promise),
        !heap.is_pending(capability.promise),
    ensures
        spec_is_already_resolved(heap, capability),
{
}

/// Once a capability that must be unresolved has resolved or rejected its
/// promise, its resolving functions count as already resolved: the promise
/// is either settled or pending with its resolved flag set.
pub proof fn lemma_resolved_once(before: &PromiseHeap, after: &PromiseHeap, capability: PromiseCapability, v: Value, e: JsError)
    requires
        before.contains(capability.promise),
        capability.must_be_unresolved,
        marked_resolved(before, after, capability.promise)
            || fulfilled_post(before, after, capability.promise, v)
            || rejected_post(before, after, capability.promise, e),
    ensures
        spec_is_already_resolved(after, capability),
{
}

} // verus!
