//! ### [27.2.5.4.1 PerformPromiseThen ( promise, onFulfilled, onRejected \[ , resultCapability \] )](https://tc39.es/ecma262/#sec-performpromisethen)
//! and the [27.2.2 Promise Jobs](https://tc39.es/ecma262/#sec-promise-jobs).
//!
//! A reaction job hands the settlement of a promise to the reaction's
//! handler; calling functions, resuming suspended code and making iterator
//! result objects is the engine's work ([`ReactionJobAction`]), after which
//! the derived promise is settled with the handler's result.

use vstd::prelude::*;
use crate::value::{ArgumentsList, ExceptionType, JsError, Value};
use crate::promise::{
    Promise, PromiseCapability, PromiseHeap, PromiseJob, PromiseReaction, PromiseReactionHandler,
    PromiseReactionRecord, PromiseReactionType, PromiseRejectionTrackerOperation,
    PromiseResolvingFunctionHeapData, PromiseResolvingFunctionType, PromiseState, PromiseStateView,
    RejectionTrackerCall, ResolveStep, Settlement, fulfilled_post, marked_resolved, rejected_post,
    spec_is_already_resolved,
};

verus! {

/// `after` is `before` after PerformPromiseThen on `p` from step 7 on: the
/// fulfill and reject reaction records are added (in that order). A pending
/// promise lists them; a fulfilled one has the fulfill reaction's job
/// enqueued with its value; a rejected one becomes handled (the rejection
/// tracker is told where it was not) and has the reject reaction's job
/// enqueued with its reason.
pub open spec fn then_post(
    before: &PromiseHeap,
    after: &PromiseHeap,
    p: Promise,
    on_fulfilled: PromiseReactionHandler,
    on_rejected: PromiseReactionHandler,
    capability: Option<PromiseCapability>,
) -> bool {
    let n = before.reactions@.len();
    let fulfill_reaction = PromiseReaction(n as u32);
    let reject_reaction = PromiseReaction((n + 1) as u32);
    &&& after.reactions@ == before.reactions@
        .push(PromiseReactionRecord { capability, reaction_type: PromiseReactionType::Fulfill, handler: on_fulfilled })
        .push(PromiseReactionRecord { capability, reaction_type: PromiseReactionType::Reject, handler: on_rejected })
    &&& after.promises@.len() == before.promises@.len()
    &&& forall|i: int| 0 <= i < before.promises@.len() && i != p.0 ==> #[trigger] after.promises@[i] == before.promises@[i]
    &&& after.promises@[p.0 as int].object_index == before.promises@[p.0 as int].object_index
    &&& match before.state(p) {
        PromiseStateView::Pending { fulfill_reactions, reject_reactions, is_resolved } => {
            &&& after.state(p) == (PromiseStateView::Pending {
                fulfill_reactions: fulfill_reactions.push(fulfill_reaction),
                reject_reactions: reject_reactions.push(reject_reaction),
                is_resolved,
            })
            &&& after.jobs@ == before.jobs@
            &&& after.rejection_tracker@ == before.rejection_tracker@
        },
        PromiseStateView::Fulfilled { promise_result } => {
            &&& after.state(p) == before.state(p)
            &&& after.jobs@ == before.jobs@.push(PromiseJob::Reaction {
                reaction: fulfill_reaction,
                argument: Settlement::Fulfilled(promise_result),
            })
            &&& after.rejection_tracker@ == before.rejection_tracker@
        },
        PromiseStateView::Rejected { reason, is_handled } => {
            &&& after.state(p) == (PromiseStateView::Rejected { reason, is_handled: true })
            &&& after.jobs@ == before.jobs@.push(PromiseJob::Reaction {
                reaction: reject_reaction,
                argument: Settlement::Rejected(reason),
            })
            &&& after.rejection_tracker@ == if is_handled {
                before.rejection_tracker@
            } else {
                before.rejection_tracker@.push(RejectionTrackerCall {
                    promise: p,
                    operation: PromiseRejectionTrackerOperation::Handle,
                })
            }
        },
    }
}

/// PerformPromiseThen from step 7 on, with the handlers already made; the
/// engine uses it for its own reaction handlers too.
pub fn inner_promise_then(
    heap: &mut PromiseHeap,
    promise: Promise,
    on_fulfilled: PromiseReactionHandler,
    on_rejected: PromiseReactionHandler,
    result_capability: Option<PromiseCapability>,
)
    requires
        old(heap).contains(promise),
        old(heap).reactions@.len() + 2 <= u32::MAX,
    ensures
        then_post(old(heap), final(heap), promise, on_fulfilled, on_rejected, result_capability),
{
    // 7. Let fulfillReaction be the PromiseReaction Record { [[Capability]]: resultCapability,
    //    [[Type]]: fulfill, [[Handler]]: onFulfilledJobCallback }.
    let fulfill_reaction = heap.create_reaction(PromiseReactionRecord {
        capability: result_capability,
        reaction_type: PromiseReactionType::Fulfill,
        handler: on_fulfilled,
    });
    // 8. Let rejectReaction be the PromiseReaction Record { [[Capability]]: resultCapability,
    //    [[Type]]: reject, [[Handler]]: onRejectedJobCallback }.
    let reject_reaction = heap.create_reaction(PromiseReactionRecord {
        capability: result_capability,
        reaction_type: PromiseReactionType::Reject,
        handler: on_rejected,
    });
    let i = promise.0 as usize;
    let mut state = PromiseState::Fulfilled { promise_result: Value::Undefined };
    std::mem::swap(&mut state, &mut heap.promises[i].promise_state);
    match state {
        // 9. If promise.[[PromiseState]] is pending, then
        PromiseState::Pending { mut fulfill_reactions, mut reject_reactions, is_resolved } => {
            // a. Append fulfillReaction to promise.[[PromiseFulfillReactions]].
            fulfill_reactions.push(fulfill_reaction);
            // b. Append rejectReaction to promise.[[PromiseRejectReactions]].
            reject_reactions.push(reject_reaction);
            heap.promises[i].promise_state = PromiseState::Pending { fulfill_reactions, reject_reactions, is_resolved };
        },
        // 10. Else if promise.[[PromiseState]] is fulfilled, then
        PromiseState::Fulfilled { promise_result } => {
            heap.promises[i].promise_state = PromiseState::Fulfilled { promise_result };
            // a. Let value be promise.[[PromiseResult]].
            // b. Let fulfillJob be NewPromiseReactionJob(fulfillReaction, value).
            // c. Perform HostEnqueuePromiseJob(fulfillJob.[[Job]], fulfillJob.[[Realm]]).
            heap.jobs.push(PromiseJob::Reaction { reaction: fulfill_reaction, argument: Settlement::Fulfilled(promise_result) });
        },
        // 11. Else,
        PromiseState::Rejected { reason, is_handled } => {
            // 12. Set promise.[[PromiseIsHandled]] to true.
            heap.promises[i].promise_state = PromiseState::Rejected { reason, is_handled: true };
            // c. If promise.[[PromiseIsHandled]] is false, perform
            //    HostPromiseRejectionTracker(promise, "handle").
            if !is_handled {
                heap.rejection_tracker.push(RejectionTrackerCall {
                    promise,
                    operation: PromiseRejectionTrackerOperation::Handle,
                });
            }
            // d. Let rejectJob be NewPromiseReactionJob(rejectReaction, reason).
            // e. Perform HostEnqueuePromiseJob(rejectJob.[[Job]], rejectJob.[[Realm]]).
            heap.jobs.push(PromiseJob::Reaction { reaction: reject_reaction, argument: Settlement::Rejected(reason) });
        },
    }
}

/// The reaction handler that PerformPromiseThen makes of an argument: a
/// job callback of a callable one, else empty.
pub open spec fn spec_handler_of(v: Value) -> PromiseReactionHandler {
    match v {
        Value::Function(f) => PromiseReactionHandler::JobCallback(f),
        _ => PromiseReactionHandler::Empty,
    }
}

fn handler_of(v: Value) -> (r: PromiseReactionHandler)
    ensures
        r == spec_handler_of(v),
{
    match v {
        Value::Function(f) => PromiseReactionHandler::JobCallback(f),
        _ => PromiseReactionHandler::Empty,
    }
}

/// ### [27.2.5.4.1 PerformPromiseThen ( promise, onFulfilled, onRejected \[ , resultCapability \] )](https://tc39.es/ecma262/#sec-performpromisethen)
///
/// A callable `on_fulfilled` or `on_rejected` becomes a job callback, and
/// anything else an empty handler.
pub fn perform_promise_then(
    heap: &mut PromiseHeap,
    promise: Promise,
    on_fulfilled: Value,
    on_rejected: Value,
    result_capability: Option<PromiseCapability>,
)
    requires
        old(heap).contains(promise),
        old(heap).reactions@.len() + 2 <= u32::MAX,
    ensures
        then_post(old(heap), final(heap), promise, spec_handler_of(on_fulfilled), spec_handler_of(on_rejected), result_capability),
{
    // 3. If IsCallable(onFulfilled) is false, then
    //    a. Let onFulfilledJobCallback be empty.
    // 4. Else,
    //    a. Let onFulfilledJobCallback be HostMakeJobCallback(onFulfilled).
    let on_fulfilled_job_callback = handler_of(on_fulfilled);
    // 5. If IsCallable(onRejected) is false, then
    //    a. Let onRejectedJobCallback be empty.
    // 6. Else,
    //    a. Let onRejectedJobCallback be HostMakeJobCallback(onRejected).
    let on_rejected_job_callback = handler_of(on_rejected);
    inner_promise_then(heap, promise, on_fulfilled_job_callback, on_rejected_job_callback, result_capability)
}

/// `after` is `before` with a new pending promise at the end, as
/// NewPromiseCapability(%Promise%) makes it.
pub open spec fn new_capability_post(before: &PromiseHeap, after: &PromiseHeap) -> bool {
    let n = before.promises@.len();
    &&& after.promises@.len() == n + 1
    &&& forall|i: int| 0 <= i < n ==> #[trigger] after.promises@[i] == before.promises@[i]
    &&& after.promises@[n as int].object_index is None
    &&& after.state(Promise(n as u32)) == (PromiseStateView::Pending {
        fulfill_reactions: Seq::empty(),
        reject_reactions: Seq::empty(),
        is_resolved: false,
    })
    &&& after.reactions@ == before.reactions@
    &&& after.jobs@ == before.jobs@
    &&& after.rejection_tracker@ == before.rejection_tracker@
}

/// The argument at `index`, or undefined.
pub open spec fn arg_at(arguments: &ArgumentsList, index: int) -> Value {
    if 0 <= index < arguments.values@.len() { arguments.values@[index] } else { Value::Undefined }
}

/// ### [27.2.5.4 Promise.prototype.then ( onFulfilled, onRejected )](https://tc39.es/ecma262/#sec-promise.prototype.then)
///
/// A this value that is not a promise is a TypeError. Otherwise a new
/// promise capability is made (subclasses are not looked at), the handlers
/// are attached with it, and its promise is returned.
pub fn promise_prototype_then(heap: &mut PromiseHeap, this_value: Value, arguments: &ArgumentsList) -> (r: Result<Value, JsError>)
    requires
        this_value matches Value::Promise(p) ==> old(heap).contains(Promise(p)),
        old(heap).promises@.len() < u32::MAX,
        old(heap).reactions@.len() + 2 <= u32::MAX,
    ensures
        !(this_value is Promise) ==> r == Err::<Value, JsError>(JsError::Exception(ExceptionType::TypeError))
            && final(heap).unchanged(old(heap)),
        this_value matches Value::Promise(p) ==> ({
            let n = old(heap).promises@.len();
            let capability = PromiseCapability { promise: Promise(n as u32), must_be_unresolved: true };
            &&& r == Ok::<Value, JsError>(Value::Promise(n as u32))
            &&& exists|mid: PromiseHeap| new_capability_post(old(heap), &mid)
                && then_post(&mid, final(heap), Promise(p), spec_handler_of(arg_at(arguments, 0)),
                    spec_handler_of(arg_at(arguments, 1)), Some(capability))
        }),
{
    let on_fulfilled = arguments.get(0);
    let on_rejected = arguments.get(1);
    // 1. Let promise be the this value.
    // 2. If IsPromise(promise) is false, throw a TypeError exception.
    let promise = match this_value {
        Value::Promise(p) => Promise(p),
        _ => return Err(JsError::Exception(ExceptionType::TypeError)),
    };
    // 3. Let C be ? SpeciesConstructor(promise, %Promise%).
    // 4. Let resultCapability be ? NewPromiseCapability(C).
    let result_capability = PromiseCapability::new(heap);
    let ghost mid = *heap;
    // 5. Return PerformPromiseThen(promise, onFulfilled, onRejected, resultCapability).
    perform_promise_then(heap, promise, on_fulfilled, on_rejected, Some(result_capability));
    proof {
        assert(new_capability_post(old(heap), &mid));
    }
    Ok(Value::Promise(result_capability.promise.0))
}

/// `Invoke(promise, "then", « undefined, onRejected »)`: the call that
/// Promise.prototype.catch makes.
pub struct ThenInvocation {
    pub target: Value,
    pub arguments: Vec<Value>,
}

/// ### [27.2.5.1 Promise.prototype.catch ( onRejected )](https://tc39.es/ecma262/#sec-promise.prototype.catch)
///
/// Invokes "then" on the this value with undefined and the first argument.
pub fn promise_prototype_catch(this_value: Value, arguments: &ArgumentsList) -> (r: ThenInvocation)
    ensures
        r.target == this_value,
        r.arguments@ == seq![Value::Undefined, arg_at(arguments, 0)],
{
    // 1. Let promise be the this value.
    // 2. Return ? Invoke(promise, "then", « undefined, onRejected »).
    let on_rejected = arguments.get(0);
    let mut call_arguments: Vec<Value> = Vec::new();
    call_arguments.push(Value::Undefined);
    call_arguments.push(on_rejected);
    ThenInvocation { target: this_value, arguments: call_arguments }
}


/// `after` and `step` are what settling the capability with the handler's
/// result gives: a throw completion rejects it, a normal one resolves it
/// ([`PromiseCapability::reject`], [`PromiseCapability::resolve`]).
pub open spec fn settled_with(
    before: &PromiseHeap,
    after: &PromiseHeap,
    capability: PromiseCapability,
    result: Result<Value, JsError>,
    step: ResolveStep,
) -> bool {
    let p = capability.promise;
    let already = spec_is_already_resolved(before, capability);
    match result {
        Err(e) => {
            &&& step == ResolveStep::Done
            &&& already ==> after.unchanged(before)
            &&& !already ==> rejected_post(before, after, p, e)
        },
        Ok(v) => {
            &&& already ==> step == ResolveStep::Done && after.unchanged(before)
            &&& !already && v == Value::Promise(p.0) ==> step == ResolveStep::Done
                && exists|mid: PromiseHeap| marked_resolved(before, &mid, p)
                    && rejected_post(&mid, after, p, JsError::Exception(ExceptionType::TypeError))
            &&& !already && !v.spec_is_object() ==> step == ResolveStep::Done
                && exists|mid: PromiseHeap| marked_resolved(before, &mid, p) && fulfilled_post(&mid, after, p, v)
            &&& !already && v.spec_is_object() && v != Value::Promise(p.0) ==> step == ResolveStep::GetThen(v)
                && marked_resolved(before, after, p)
        },
    }
}

/// ### [27.2.2.1 NewPromiseReactionJob ( reaction, argument )](https://tc39.es/ecma262/#sec-newpromisereactionjob), steps 1.f to 1.i
///
/// The derived promise is rejected with a throw completion of the handler,
/// and resolved with a normal one.
pub fn reaction_job_on_handler_result(heap: &mut PromiseHeap, capability: PromiseCapability, result: Result<Value, JsError>) -> (r: ResolveStep)
    requires
        old(heap).contains(capability.promise),
    ensures
        settled_with(old(heap), final(heap), capability, result, r),
{
    match result {
        // h. If handlerResult is an abrupt completion, then
        //    i. Return ? Call(promiseCapability.[[Reject]], undefined, « handlerResult.[[Value]] »).
        Err(err) => {
            capability.reject(heap, err);
            ResolveStep::Done
        },
        // i. Else,
        //    i. Return ? Call(promiseCapability.[[Resolve]], undefined, « handlerResult.[[Value]] »).
        Ok(value) => capability.resolve(heap, value),
    }
}

/// What the engine does for a promise reaction job.
#[derive(Debug, Clone, Copy, PartialEq, Eq)]
pub enum ReactionJobAction {
    /// The job is done, the derived promise settled; where the step is
    /// `GetThen`, the engine reads "then" and continues with
    /// [`PromiseCapability::resolve_with_then`] on `capability`.
    Settled { capability: PromiseCapability, step: ResolveStep },
    /// `HostCallJobCallback(handler, undefined, « argument »)`; its
    /// completion goes to [`reaction_job_on_handler_result`] with `capability`.
    CallHandler { callback: u32, argument: Settlement, capability: PromiseCapability },
    /// Resume the async function suspended in the await reaction.
    ResumeAwait { await_reaction: u32, reaction_type: PromiseReactionType, argument: Settlement },
    /// Resume the async generator awaiting the promise.
    ResumeAsyncGenerator { async_generator: u32, reaction_type: PromiseReactionType, argument: Settlement },
    /// `CreateIteratorResultObject(argument, done)`; its completion goes to
    /// [`reaction_job_on_handler_result`] with `capability`.
    CreateIterResult { argument: Settlement, done: bool, capability: PromiseCapability },
    /// `IteratorClose(syncIteratorRecord, ThrowCompletion(argument))`; the
    /// error it completes with goes to [`reaction_job_on_handler_result`] with
    /// `capability`.
    CloseIterator { iterator: u32, argument: Settlement, capability: PromiseCapability },
    /// Hand the settlement to the promise group at `index`
    /// ([`crate::promise_group::PromiseGroup::settle`]).
    SettleGroup { promise_group: u32, index: u32, reaction_type: PromiseReactionType, argument: Settlement },
}

/// Whether a reaction handler settles the reaction's capability (and so
/// needs one).
pub open spec fn settles_capability(handler: PromiseReactionHandler) -> bool {
    handler is Empty || handler is JobCallback || handler is AsyncFromSyncIterator || handler is AsyncFromSyncIteratorClose
}

/// The completion that an empty handler passes on: the value of a
/// fulfillment, the reason of a rejection.
pub open spec fn passed_on(argument: Settlement) -> Result<Value, JsError> {
    match argument {
        Settlement::Fulfilled(v) => Ok(v),
        Settlement::Rejected(e) => Err(e),
    }
}

/// ### [27.2.2.1 NewPromiseReactionJob ( reaction, argument )](https://tc39.es/ecma262/#sec-newpromisereactionjob), the job
///
/// An empty handler passes the settlement on to the derived promise at
/// once; any other handler is the engine's to run. `argument` is the
/// settlement the reaction was triggered with.
pub fn promise_reaction_job_run(heap: &mut PromiseHeap, reaction: PromiseReaction, argument: Settlement) -> (r: ReactionJobAction)
    requires
        reaction.0 < old(heap).reactions@.len(),
        settles_capability(old(heap).reactions@[reaction.0 as int].handler) ==> {
            let c = old(heap).reactions@[reaction.0 as int].capability;
            c is Some && old(heap).contains(c->Some_0.promise)
        },
    ensures
        ({
            let record = old(heap).reactions@[reaction.0 as int];
            let capability = record.capability->Some_0;
            match record.handler {
                PromiseReactionHandler::Empty => r is Settled && r->Settled_capability == capability
                    && settled_with(old(heap), final(heap), capability, passed_on(argument), r->Settled_step),
                PromiseReactionHandler::JobCallback(callback) => final(heap).unchanged(old(heap))
                    && r == (ReactionJobAction::CallHandler { callback, argument, capability }),
                PromiseReactionHandler::Await(await_reaction) => final(heap).unchanged(old(heap))
                    && r == (ReactionJobAction::ResumeAwait { await_reaction, reaction_type: record.reaction_type, argument }),
                PromiseReactionHandler::AsyncGenerator(async_generator) => final(heap).unchanged(old(heap))
                    && r == (ReactionJobAction::ResumeAsyncGenerator { async_generator, reaction_type: record.reaction_type, argument }),
                PromiseReactionHandler::AsyncFromSyncIterator { done } => final(heap).unchanged(old(heap))
                    && r == (ReactionJobAction::CreateIterResult { argument, done, capability }),
                PromiseReactionHandler::AsyncFromSyncIteratorClose(iterator) => final(heap).unchanged(old(heap))
                    && r == (ReactionJobAction::CloseIterator { iterator, argument, capability }),
                PromiseReactionHandler::PromiseGroup { promise_group, index } => final(heap).unchanged(old(heap))
                    && r == (ReactionJobAction::SettleGroup { promise_group, index, reaction_type: record.reaction_type, argument }),
            }
        }),
{
    let record = heap.reactions[reaction.0 as usize];
    match record.handler {
        PromiseReactionHandler::Empty => {
            let capability = match record.capability {
                Some(c) => c,
                None => unreached(),
            };
            // d.i.1. Let handlerResult be NormalCompletion(argument).
            // d.ii.1. Let handlerResult be ThrowCompletion(argument).
            let handler_result = match argument {
                Settlement::Fulfilled(v) => Ok(v),
                Settlement::Rejected(e) => Err(e),
            };
            let step = reaction_job_on_handler_result(heap, capability, handler_result);
            ReactionJobAction::Settled { capability, step }
        },
        // e.1. Let handlerResult be Completion(HostCallJobCallback(handler, undefined, « argument »)).
        PromiseReactionHandler::JobCallback(callback) => {
            let capability = match record.capability {
                Some(c) => c,
                None => unreached(),
            };
            ReactionJobAction::CallHandler { callback, argument, capability }
        },
        PromiseReactionHandler::Await(await_reaction) => {
            ReactionJobAction::ResumeAwait { await_reaction, reaction_type: record.reaction_type, argument }
        },
        PromiseReactionHandler::AsyncGenerator(async_generator) => {
            ReactionJobAction::ResumeAsyncGenerator { async_generator, reaction_type: record.reaction_type, argument }
        },
        // a. Return CreateIteratorResultObject(v, done).
        PromiseReactionHandler::AsyncFromSyncIterator { done } => {
            let capability = match record.capability {
                Some(c) => c,
                None => unreached(),
            };
            ReactionJobAction::CreateIterResult { argument, done, capability }
        },
        // i. Return ? IteratorClose(syncIteratorRecord, ThrowCompletion(error)).
        PromiseReactionHandler::AsyncFromSyncIteratorClose(iterator) => {
            let capability = match record.capability {
                Some(c) => c,
                None => unreached(),
            };
            ReactionJobAction::CloseIterator { iterator, argument, capability }
        },
        PromiseReactionHandler::PromiseGroup { promise_group, index } => {
            ReactionJobAction::SettleGroup { promise_group, index, reaction_type: record.reaction_type, argument }
        },
    }
}

/// ### [27.2.2.1 NewPromiseReactionJob ( reaction, argument )](https://tc39.es/ecma262/#sec-newpromisereactionjob)
///
/// The job, and the realm it runs in: a job callback's function realm (the
/// current realm where GetFunctionRealm throws), `callback_realm` being
/// the outcome of GetFunctionRealm; the realm of the suspended async
/// function for an await; none for the other handlers.
pub fn new_promise_reaction_job(
    heap: &PromiseHeap,
    reaction: PromiseReaction,
    argument: Settlement,
    callback_realm: Result<u32, JsError>,
    current_realm: u32,
    await_realm: u32,
) -> (r: (PromiseJob, Option<u32>))
    requires
        reaction.0 < heap.reactions@.len(),
    ensures
        r.0 == (PromiseJob::Reaction { reaction, argument }),
        ({
            let handler = heap.reactions@[reaction.0 as int].handler;
            &&& handler is JobCallback ==> r.1 == Some(if callback_realm is Ok { callback_realm->Ok_0 } else { current_realm })
            &&& handler is Await ==> r.1 == Some(await_realm)
            &&& !(handler is JobCallback || handler is Await) ==> r.1 is None
        }),
{
    let handler_realm = match heap.reactions[reaction.0 as usize].handler {
        // 3. If reaction.[[Handler]] is not empty, then
        PromiseReactionHandler::JobCallback(_) => {
            // a. Let getHandlerRealmResult be Completion(GetFunctionRealm(reaction.[[Handler]].[[Callback]])).
            match callback_realm {
                // b. If getHandlerRealmResult is a normal completion, set handlerRealm to getHandlerRealmResult.[[Value]].
                Ok(realm) => Some(realm),
                // c. Else, set handlerRealm to the current Realm Record.
                Err(_) => Some(current_realm),
            }
        },
        PromiseReactionHandler::Await(_) => Some(await_realm),
        // 2. Let handlerRealm be null.
        _ => None,
    };
    // 4. Return the Record { [[Job]]: job, [[Realm]]: handlerRealm }.
    (PromiseJob::Reaction { reaction, argument }, handler_realm)
}

/// The call that a NewPromiseResolveThenableJob job makes: `then` on the
/// thenable, with resolving functions for the promise to resolve.
#[derive(Debug, Clone, Copy, PartialEq, Eq)]
pub struct ThenableCall {
    pub then: u32,
    pub thenable: Value,
    pub resolve: PromiseResolvingFunctionHeapData,
    pub reject: PromiseResolvingFunctionHeapData,
}

/// The capability that the resolving functions of a resolve-thenable job
/// act on; a resolution of the promise that is still pending does not
/// count against it.
pub open spec fn thenable_capability(promise_to_resolve: Promise) -> PromiseCapability {
    PromiseCapability { promise: promise_to_resolve, must_be_unresolved: false }
}

/// ### [27.2.2.2 NewPromiseResolveThenableJob ( promiseToResolve, thenable, then )](https://tc39.es/ecma262/#sec-newpromiseresolvethenablejob), steps 1.a and 1.b
///
/// The resolving functions of the promise, and the call of `then` with them.
pub fn promise_resolve_thenable_job_run(promise_to_resolve: Promise, thenable: Value, then: u32) -> (r: ThenableCall)
    ensures
        r == (ThenableCall {
            then,
            thenable,
            resolve: PromiseResolvingFunctionHeapData {
                object_index: None,
                promise_capability: thenable_capability(promise_to_resolve),
                resolve_type: PromiseResolvingFunctionType::Resolve,
            },
            reject: PromiseResolvingFunctionHeapData {
                object_index: None,
                promise_capability: thenable_capability(promise_to_resolve),
                resolve_type: PromiseResolvingFunctionType::Reject,
            },
        }),
{
    // a. Let resolvingFunctions be CreateResolvingFunctions(promiseToResolve).
    let promise_capability = PromiseCapability::from_promise(promise_to_resolve, false);
    let resolve = PromiseResolvingFunctionHeapData {
        object_index: None,
        promise_capability,
        resolve_type: PromiseResolvingFunctionType::Resolve,
    };
    let reject = PromiseResolvingFunctionHeapData {
        object_index: None,
        promise_capability,
        resolve_type: PromiseResolvingFunctionType::Reject,
    };
    // b. Let thenCallResult be Completion(HostCallJobCallback(then, thenable,
    //    « resolvingFunctions.[[Resolve]], resolvingFunctions.[[Reject]] »)).
    ThenableCall { then, thenable, resolve, reject }
}

/// NewPromiseResolveThenableJob, steps 1.c and 1.d: `then_call_result` is
/// the completion of the call of `then`; a throw completion rejects the
/// promise through the resolving functions.
pub fn promise_resolve_thenable_job_on_call(heap: &mut PromiseHeap, promise_to_resolve: Promise, then_call_result: Result<Value, JsError>)
    requires
        old(heap).contains(promise_to_resolve),
    ensures
        then_call_result is Ok ==> final(heap).unchanged(old(heap)),
        then_call_result matches Err(e) ==> {
            let c = thenable_capability(promise_to_resolve);
            &&& spec_is_already_resolved(old(heap), c) ==> final(heap).unchanged(old(heap))
            &&& !spec_is_already_resolved(old(heap), c) ==> rejected_post(old(heap), final(heap), promise_to_resolve, e)
        },
{
    let promise_capability = PromiseCapability::from_promise(promise_to_resolve, false);
    // c. If thenCallResult is an abrupt completion, then
    if let Err(err) = then_call_result {
        // i. Return ? Call(resolvingFunctions.[[Reject]], undefined, « thenCallResult.[[Value]] »).
        promise_capability.reject(heap, err);
    }
    // d. Return ? thenCallResult.
}

/// ### [27.2.2.2 NewPromiseResolveThenableJob ( promiseToResolve, thenable, then )](https://tc39.es/ecma262/#sec-newpromiseresolvethenablejob)
///
/// The job, and the realm it runs in: the function realm of `then`
/// (`then_realm` is the outcome of GetFunctionRealm), or the current realm
/// where that throws.
pub fn new_promise_resolve_thenable_job(
    promise_to_resolve: Promise,
    thenable: Value,
    then: u32,
    then_realm: Result<u32, JsError>,
    current_realm: u32,
) -> (r: (PromiseJob, u32))
    ensures
        r.0 == (PromiseJob::ResolveThenable { promise_to_resolve, thenable, then }),
        r.1 == (if then_realm is Ok { then_realm->Ok_0 } else { current_realm }),
{
    // 2. Let getThenRealmResult be Completion(GetFunctionRealm(then.[[Callback]])).
    let realm = match then_realm {
        // 3. If getThenRealmResult is a normal completion, let thenRealm be getThenRealmResult.[[Value]].
        Ok(realm) => realm,
        // 4. Else, let thenRealm be the current Realm Record.
        Err(_) => current_realm,
    };
    // 6. Return the Record { [[Job]]: job, [[Realm]]: thenRealm }.
    (PromiseJob::ResolveThenable { promise_to_resolve, thenable, then }, realm)
}

/// A handler attached with `then` gets its job with the promise's
/// settlement whether it was attached before the promise settled or after:
/// attached to a pending promise, the fulfill (reject) reaction's job with
/// the value (reason) is enqueued when the promise is fulfilled (rejected);
/// attached to a settled promise, it is enqueued at once.
pub proof fn lemma_then_reaction_runs(
    h0: &PromiseHeap,
    h1: &PromiseHeap,
    h2: &PromiseHeap,
    p: Promise,
    on_fulfilled: PromiseReactionHandler,
    on_rejected: PromiseReactionHandler,
    capability: Option<PromiseCapability>,
    value: Value,
    reason: JsError,
)
    requires
        h0.contains(p),
        then_post(h0, h1, p, on_fulfilled, on_rejected, capability),
    ensures
        ({
            let n = h0.reactions@.len();
            let fulfill_job = PromiseJob::Reaction { reaction: PromiseReaction(n as u32), argument: Settlement::Fulfilled(value) };
            let reject_job = PromiseJob::Reaction { reaction: PromiseReaction((n + 1) as u32), argument: Settlement::Rejected(reason) };
            &&& h0.is_pending(p) && fulfilled_post(h1, h2, p, value) ==> h2.jobs@.contains(fulfill_job)
            &&& h0.is_pending(p) && rejected_post(h1, h2, p, reason) ==> h2.jobs@.contains(reject_job)
            &&& h0.state(p) == (PromiseStateView::Fulfilled { promise_result: value }) ==> h1.jobs@.contains(fulfill_job)
            &&& h0.state(p) is Rejected && h0.state(p)->Rejected_reason == reason ==> h1.jobs@.contains(reject_job)
        }),
{
    let n = h0.reactions@.len();
    let fulfill_job = PromiseJob::Reaction { reaction: PromiseReaction(n as u32), argument: Settlement::Fulfilled(value) };
    let reject_job = PromiseJob::Reaction { reaction: PromiseReaction((n + 1) as u32), argument: Settlement::Rejected(reason) };
    if h0.is_pending(p) {
        let fr = h1.state(p)->Pending_fulfill_reactions;
        let rr = h1.state(p)->Pending_reject_reactions;
        if fulfilled_post(h1, h2, p, value) {
            let k = h1.jobs@.len() + fr.len() - 1;
            assert(h2.jobs@[k] == fulfill_job);
        }
        if rejected_post(h1, h2, p, reason) {
            let k = h1.jobs@.len() + rr.len() - 1;
            assert(h2.jobs@[k] == reject_job);
        }
    }
    if h0.state(p) == (PromiseStateView::Fulfilled { promise_result: value }) {
        assert(h1.jobs@[h1.jobs@.len() - 1] == fulfill_job);
    }
    if h0.state(p) is Rejected && h0.state(p)->Rejected_reason == reason {
        assert(h1.jobs@[h1.jobs@.len() - 1] == reject_job);
    }
}

} // verus!
