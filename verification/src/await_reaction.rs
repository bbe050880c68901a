//! ## [27.7.5.3 Await ( value )](https://tc39.es/ecma262/#await) in async functions
//!
//! An await reaction keeps an async function suspended on an await: its
//! suspended VM and execution context (by handle), and the capability of
//! the promise that the function returned. When the awaited promise
//! settles, the function resumes; the VM's outcome settles the capability
//! or suspends the function on a new await.

use vstd::prelude::*;
use crate::value::{JsError, Value};
use crate::promise_jobs::settled_with;
use crate::promise::{
    PromiseCapability, PromiseHeap, PromiseReactionType, ResolveStep, rejected_post,
    spec_is_already_resolved,
};

verus! {

/// The heap data of an await reaction.
#[derive(Debug, Clone, Copy, PartialEq, Eq, Structural)]
pub struct AwaitReactionRecord {
    /// The suspended VM, while the function is suspended.
    pub vm: Option<u32>,
    /// The async function or module that runs.
    pub async_executable: Option<u32>,
    /// The suspended execution context, while the function is suspended.
    pub execution_context: Option<u32>,
    /// The capability of the promise that the async function returned.
    pub return_promise_capability: PromiseCapability,
}

/// The arena of await reactions.
pub struct AwaitReactionHeap {
    pub records: Vec<AwaitReactionRecord>,
}

/// A handle to an await reaction.
#[derive(Debug, Clone, Copy, PartialEq, Eq, Structural)]
pub struct AwaitReaction(pub u32);

/// How the VM's run of the async function ended.
#[derive(Debug, Clone, Copy, PartialEq, Eq, Structural)]
pub enum AwaitExecutionResult {
    Return(Value),
    Throw(JsError),
    Await { vm: u32, awaited_value: Value },
    /// An async function never yields.
    Yield,
}

/// What the engine does after the function's run.
#[derive(Debug, Clone, Copy, PartialEq, Eq)]
pub enum AwaitOutcome {
    /// The returned promise was settled (or, where the step is `GetThen`,
    /// is being resolved with an object whose "then" the engine reads).
    Settled(ResolveStep),
    /// `PromiseResolve(%Promise%, value)` and `PerformPromiseThen` with this
    /// reaction as both handlers.
    Await(Value),
}

impl AwaitReactionHeap {
    pub open spec fn contains(&self, r: AwaitReaction) -> bool {
        r.0 < self.records@.len()
    }

    pub open spec fn record(&self, r: AwaitReaction) -> AwaitReactionRecord {
        self.records@[r.0 as int]
    }

    pub fn new() -> (r: Self)
        ensures
            r.records@.len() == 0,
    {
        AwaitReactionHeap { records: Vec::new() }
    }

    /// Adds an await reaction.
    pub fn create(&mut self, data: AwaitReactionRecord) -> (r: AwaitReaction)
        requires
            old(self).records@.len() < u32::MAX,
        ensures
            r.0 == old(self).records@.len(),
            final(self).records@ == old(self).records@.push(data),
    {
        let index = self.records.len() as u32;
        self.records.push(data);
        AwaitReaction(index)
    }
}

impl AwaitReaction {
    pub fn into_index(self) -> (r: usize)
        ensures
            r == self.0,
    {
        self.0 as usize
    }

    /// The awaited promise settled: the suspended VM and execution context
    /// are taken out to resume the function, with a normal completion of
    /// the value where the promise was fulfilled and a throw completion
    /// where it was rejected.
    pub fn resume(self, heap: &mut AwaitReactionHeap, reaction_type: PromiseReactionType, value: Value) -> (r: (u32, u32, Result<Value, JsError>))
        requires
            old(heap).contains(self),
            old(heap).record(self).vm is Some,
            old(heap).record(self).execution_context is Some,
        ensures
            r.0 == old(heap).record(self).vm->Some_0,
            r.1 == old(heap).record(self).execution_context->Some_0,
            reaction_type is Fulfill ==> r.2 == Ok::<Value, JsError>(value),
            reaction_type is Reject ==> r.2 == Err::<Value, JsError>(JsError::Thrown(value)),
            final(heap).records@ == old(heap).records@.update(self.0 as int, AwaitReactionRecord {
                vm: None,
                execution_context: None,
                ..old(heap).record(self)
            }),
    {
        let i = self.0 as usize;
        let mut record = heap.records[i];
        // 3.c. Push asyncContext onto the execution context stack.
        let execution_context = match record.execution_context {
            Some(c) => c,
            None => {
                assert(false);
                0
            },
        };
        let vm = match record.vm {
            Some(v) => v,
            None => {
                assert(false);
                0
            },
        };
        record.vm = None;
        record.execution_context = None;
        heap.records.set(i, record);
        // 3.d. Resume the suspended evaluation of asyncContext using NormalCompletion(v).
        // 5.d. Resume the suspended evaluation of asyncContext using ThrowCompletion(reason).
        let completion = match reaction_type {
            PromiseReactionType::Fulfill => Ok(value),
            PromiseReactionType::Reject => Err(JsError::Thrown(value)),
        };
        (vm, execution_context, completion)
    }

    /// The end of the function's run. A return resolves the returned
    /// promise with the value, a throw rejects it, and an await suspends the
    /// function again (keeping the VM and the execution context).
    pub fn finish(
        self,
        heap: &mut AwaitReactionHeap,
        promises: &mut PromiseHeap,
        execution_result: AwaitExecutionResult,
        execution_context: u32,
    ) -> (r: AwaitOutcome)
        requires
            old(heap).contains(self),
            old(promises).contains(old(heap).record(self).return_promise_capability.promise),
            !(execution_result is Yield),
        ensures
            ({
                let capability = old(heap).record(self).return_promise_capability;
                match execution_result {
                    AwaitExecutionResult::Return(v) => final(heap).records@ == old(heap).records@
                        && r is Settled
                        && settled_with(old(promises), final(promises), capability, Ok(v), r->Settled_0),
                    AwaitExecutionResult::Throw(e) => final(heap).records@ == old(heap).records@
                        && r == AwaitOutcome::Settled(ResolveStep::Done)
                        && (spec_is_already_resolved(old(promises), capability) ==> final(promises).unchanged(old(promises)))
                        && (!spec_is_already_resolved(old(promises), capability) ==> rejected_post(old(promises), final(promises), capability.promise, e)),
                    AwaitExecutionResult::Await { vm, awaited_value } => r == AwaitOutcome::Await(awaited_value)
                        && final(promises).unchanged(old(promises))
                        && final(heap).records@ == old(heap).records@.update(self.0 as int, AwaitReactionRecord {
                            vm: Some(vm),
                            execution_context: Some(execution_context),
                            ..old(heap).record(self)
                        }),
                    AwaitExecutionResult::Yield => false,
                }
            }),
    {
        let i = self.0 as usize;
        let capability = heap.records[i].return_promise_capability;
        match execution_result {
            AwaitExecutionResult::Return(result) => {
                // AsyncBlockStart 2.d. Remove acAsyncContext from the execution context stack.
                // 2.e.i. Perform ! Call(promiseCapability.[[Resolve]], undefined, « undefined »).
                // 2.f.i. Perform ! Call(promiseCapability.[[Resolve]], undefined, « result.[[Value]] »).
                AwaitOutcome::Settled(capability.resolve(promises, result))
            },
            AwaitExecutionResult::Throw(err) => {
                // 2.g.ii. Perform ! Call(promiseCapability.[[Reject]], undefined, « result.[[Value]] »).
                capability.reject(promises, err);
                AwaitOutcome::Settled(ResolveStep::Done)
            },
            AwaitExecutionResult::Await { vm, awaited_value } => {
                // Await 8. Remove asyncContext from the execution context stack.
                let mut record = heap.records[i];
                record.vm = Some(vm);
                record.execution_context = Some(execution_context);
                heap.records.set(i, record);
                // 2. Let promise be ? PromiseResolve(%Promise%, value).
                // 7. Perform PerformPromiseThen(promise, onFulfilled, onRejected).
                AwaitOutcome::Await(awaited_value)
            },
            AwaitExecutionResult::Yield => {
                assert(false);
                AwaitOutcome::Settled(ResolveStep::Done)
            },
        }
    }
}

} // verus!
