//! ## [27.2.3 The Promise Constructor](https://tc39.es/ecma262/#sec-promise-constructor)
//! and [27.2.4 Properties of the Promise Constructor](https://tc39.es/ecma262/#sec-properties-of-the-promise-constructor)
//!
//! Subclassing %Promise% is not supported: a this value or NewTarget other
//! than the realm's %Promise% is an Error. Calling the executor, callbacks
//! and iterators is the engine's work; the functions here decide what comes
//! next from each outcome.

use vstd::prelude::*;
use crate::value::{ArgumentsList, ExceptionType, JsError, Value};
use crate::array::{Array, ArrayHeap, array_create};
use crate::promise::{
    Promise, PromiseCapability, PromiseHeap, PromiseHeapData, PromiseReactionHandler,
    PromiseResolvingFunctionHeapData, PromiseResolvingFunctionType, PromiseState, PromiseStateView,
    ResolveStep, rejected_post, spec_is_already_resolved,
};
use crate::promise_group::{PromiseGroup, PromiseGroupHeap, PromiseGroupRecord, PromiseGroupType};
use crate::promise_jobs::{inner_promise_then, new_capability_post, settled_with, then_post};
use crate::promise_group::counted_down;
use crate::async_from_sync::rejected_with;

verus! {

/// The error for a this value or NewTarget other than %Promise%.
pub fn throw_promise_subclassing_not_supported() -> (r: JsError)
    ensures
        r == JsError::Exception(ExceptionType::Error),
{
    JsError::Exception(ExceptionType::Error)
}

/// The resolving functions of a capability that must be unresolved, as
/// CreateResolvingFunctions makes them.
pub open spec fn resolving_functions(promise: Promise) -> (PromiseResolvingFunctionHeapData, PromiseResolvingFunctionHeapData) {
    let capability = PromiseCapability { promise, must_be_unresolved: true };
    (
        PromiseResolvingFunctionHeapData { object_index: None, promise_capability: capability, resolve_type: PromiseResolvingFunctionType::Resolve },
        PromiseResolvingFunctionHeapData { object_index: None, promise_capability: capability, resolve_type: PromiseResolvingFunctionType::Reject },
    )
}

fn create_resolving_functions(promise: Promise) -> (r: (PromiseResolvingFunctionHeapData, PromiseResolvingFunctionHeapData))
    ensures
        r == resolving_functions(promise),
{
    let capability = PromiseCapability::from_promise(promise, true);
    (
        PromiseResolvingFunctionHeapData { object_index: None, promise_capability: capability, resolve_type: PromiseResolvingFunctionType::Resolve },
        PromiseResolvingFunctionHeapData { object_index: None, promise_capability: capability, resolve_type: PromiseResolvingFunctionType::Reject },
    )
}

/// The call of the executor that the Promise constructor makes: the new
/// promise, and its resolving functions.
#[derive(Debug, Clone, Copy, PartialEq, Eq)]
pub struct ExecutorCall {
    pub executor: u32,
    pub promise: Promise,
    pub resolve: PromiseResolvingFunctionHeapData,
    pub reject: PromiseResolvingFunctionHeapData,
}

/// ### [27.2.3.1 Promise ( executor )](https://tc39.es/ecma262/#sec-promise-executor), steps 1 to 9
///
/// Without NewTarget it is a TypeError, with one other than %Promise% an
/// Error, and with an executor that is not callable a TypeError. Otherwise
/// a pending promise is made, and the executor is to be called with its
/// resolving functions.
pub fn promise_constructor(heap: &mut PromiseHeap, new_target: Option<Value>, executor: Value, promise_intrinsic: Value) -> (r: Result<ExecutorCall, JsError>)
    requires
        old(heap).promises@.len() < u32::MAX,
    ensures
        new_target is None ==> r == Err::<ExecutorCall, JsError>(JsError::Exception(ExceptionType::TypeError)),
        new_target is Some && new_target != Some(promise_intrinsic) ==> r == Err::<ExecutorCall, JsError>(JsError::Exception(ExceptionType::Error)),
        new_target == Some(promise_intrinsic) && !(executor is Function) ==> r == Err::<ExecutorCall, JsError>(JsError::Exception(ExceptionType::TypeError)),
        new_target == Some(promise_intrinsic) && executor is Function ==> r is Ok,
        r is Err ==> final(heap).unchanged(old(heap)),
        r matches Ok(call) ==> {
            let p = Promise(old(heap).promises@.len() as u32);
            &&& new_target == Some(promise_intrinsic) && executor is Function
            &&& new_capability_post(old(heap), final(heap))
            &&& call == (ExecutorCall { executor: executor->Function_0, promise: p, resolve: resolving_functions(p).0, reject: resolving_functions(p).1 })
        },
{
    // 1. If NewTarget is undefined, throw a TypeError exception.
    let new_target = match new_target {
        Some(t) => t,
        None => return Err(JsError::Exception(ExceptionType::TypeError)),
    };
    if new_target != promise_intrinsic {
        return Err(throw_promise_subclassing_not_supported());
    }
    // 2. If IsCallable(executor) is false, throw a TypeError exception.
    let executor = match executor {
        Value::Function(f) => f,
        _ => return Err(JsError::Exception(ExceptionType::TypeError)),
    };
    // 3. Let promise be ? OrdinaryCreateFromConstructor(NewTarget, "%Promise.prototype%", « ... »).
    // 4. Set promise.[[PromiseState]] to pending.
    // 5. Set promise.[[PromiseFulfillReactions]] to a new empty List.
    // 6. Set promise.[[PromiseRejectReactions]] to a new empty List.
    // 7. Set promise.[[PromiseIsHandled]] to false.
    let promise = heap.create(PromiseHeapData::default());
    // 8. Let resolvingFunctions be CreateResolvingFunctions(promise).
    let (resolve, reject) = create_resolving_functions(promise);
    // 9. Let completion be Completion(Call(executor, undefined, « resolvingFunctions.[[Resolve]], resolvingFunctions.[[Reject]] »)).
    Ok(ExecutorCall { executor, promise, resolve, reject })
}

/// The Promise constructor, steps 10 and 11: a throw completion of the
/// executor rejects the promise through its reject function; the promise
/// is returned.
pub fn promise_constructor_on_executor(heap: &mut PromiseHeap, promise: Promise, completion: Result<Value, JsError>) -> (r: Value)
    requires
        old(heap).contains(promise),
    ensures
        r == Value::Promise(promise.0),
        completion is Ok ==> final(heap).unchanged(old(heap)),
        completion matches Err(e) ==> {
            let c = PromiseCapability { promise, must_be_unresolved: true };
            &&& spec_is_already_resolved(old(heap), c) ==> final(heap).unchanged(old(heap))
            &&& !spec_is_already_resolved(old(heap), c) ==> rejected_post(old(heap), final(heap), promise, e)
        },
{
    // 10. If completion is an abrupt completion, then
    if let Err(err) = completion {
        // a. Perform ? Call(resolvingFunctions.[[Reject]], undefined, « completion.[[Value]] »).
        let promise_capability = PromiseCapability::from_promise(promise, true);
        promise_capability.reject(heap, err);
    }
    // 11. Return promise.
    Value::Promise(promise.0)
}

/// ### [27.2.4.6 Promise.reject ( r )](https://tc39.es/ecma262/#sec-promise.reject)
///
/// A this value other than %Promise% is an Error. Otherwise a new promise
/// is made and rejected with `r`.
pub fn promise_reject(heap: &mut PromiseHeap, this_value: Value, r: Value, promise_intrinsic: Value) -> (res: Result<Value, JsError>)
    requires
        old(heap).promises@.len() < u32::MAX,
    ensures
        this_value != promise_intrinsic ==> res == Err::<Value, JsError>(JsError::Exception(ExceptionType::Error))
            && final(heap).unchanged(old(heap)),
        this_value == promise_intrinsic ==> {
            let n = old(heap).promises@.len();
            &&& res == Ok::<Value, JsError>(Value::Promise(n as u32))
            &&& exists|mid: PromiseHeap| new_capability_post(old(heap), &mid)
                && rejected_post(&mid, final(heap), Promise(n as u32), JsError::Thrown(r))
        },
{
    if this_value != promise_intrinsic {
        return Err(throw_promise_subclassing_not_supported());
    }
    // 1. Let C be the this value.
    // 2. Let promiseCapability be ? NewPromiseCapability(C).
    let promise_capability = PromiseCapability::new(heap);
    let ghost mid = *heap;
    // 3. Perform ? Call(promiseCapability.[[Reject]], undefined, « r »).
    promise_capability.reject(heap, JsError::Thrown(r));
    proof {
        assert(new_capability_post(old(heap), &mid));
    }
    // 4. Return promiseCapability.[[Promise]].
    Ok(Value::Promise(promise_capability.promise.0))
}

/// ### [27.2.4.7.1 PromiseResolve ( C, x )](https://tc39.es/ecma262/#sec-promise-resolve) for %Promise%
///
/// A promise is returned as it is. Anything else resolves a new promise;
/// where the step is `GetThen`, the engine reads "then" of `x` and
/// continues with [`PromiseCapability::resolve_with_then`].
pub fn promise_resolve(heap: &mut PromiseHeap, x: Value) -> (r: (Promise, ResolveStep))
    requires
        old(heap).promises@.len() < u32::MAX,
    ensures
        x matches Value::Promise(p) ==> r == (Promise(p), ResolveStep::Done) && final(heap).unchanged(old(heap)),
        !(x is Promise) ==> {
            let n = old(heap).promises@.len();
            let capability = PromiseCapability { promise: Promise(n as u32), must_be_unresolved: true };
            &&& r.0 == Promise(n as u32)
            &&& exists|mid: PromiseHeap| new_capability_post(old(heap), &mid)
                && settled_with(&mid, final(heap), capability, Ok(x), r.1)
        },
{
    // 1. If IsPromise(x) is true, then
    if let Value::Promise(p) = x {
        // b. If SameValue(xConstructor, C) is true, return x.
        return (Promise(p), ResolveStep::Done);
    }
    // 2. Let promiseCapability be ? NewPromiseCapability(C).
    let promise_capability = PromiseCapability::new(heap);
    let ghost mid = *heap;
    // 3. Perform ? Call(promiseCapability.[[Resolve]], undefined, « x »).
    let step = promise_capability.resolve(heap, x);
    proof {
        assert(new_capability_post(old(heap), &mid));
        assert(settled_with(&mid, heap, promise_capability, Ok(x), step));
    }
    // 4. Return promiseCapability.[[Promise]].
    (promise_capability.promise, step)
}

/// ### [27.2.4.7 Promise.resolve ( x )](https://tc39.es/ecma262/#sec-promise.resolve)
///
/// A this value other than %Promise% is an Error; otherwise
/// PromiseResolve(%Promise%, x).
pub fn promise_constructor_resolve(heap: &mut PromiseHeap, this_value: Value, x: Value, promise_intrinsic: Value) -> (r: Result<(Promise, ResolveStep), JsError>)
    requires
        old(heap).promises@.len() < u32::MAX,
    ensures
        this_value != promise_intrinsic ==> r == Err::<(Promise, ResolveStep), JsError>(JsError::Exception(ExceptionType::Error))
            && final(heap).unchanged(old(heap)),
        this_value == promise_intrinsic && x is Promise ==> r == Ok::<(Promise, ResolveStep), JsError>((Promise(x->Promise_0), ResolveStep::Done))
            && final(heap).unchanged(old(heap)),
        this_value == promise_intrinsic && !(x is Promise) ==> r is Ok && ({
            let n = old(heap).promises@.len();
            let capability = PromiseCapability { promise: Promise(n as u32), must_be_unresolved: true };
            &&& r->Ok_0.0 == Promise(n as u32)
            &&& exists|mid: PromiseHeap| new_capability_post(old(heap), &mid)
                && settled_with(&mid, final(heap), capability, Ok(x), r->Ok_0.1)
        }),
{
    if this_value != promise_intrinsic {
        return Err(throw_promise_subclassing_not_supported());
    }
    // 3. Return ? PromiseResolve(C, x).
    Ok(promise_resolve(heap, x))
}

/// The call that Promise.try makes: the callback, with the arguments after
/// it.
pub struct TryCall {
    pub callback: Value,
    pub arguments: Vec<Value>,
}

/// ### [27.2.4.8 Promise.try ( callback, ...args )](https://tc39.es/ecma262/#sec-promise.try), steps 1 to 4
///
/// A this value that is not a constructor is a TypeError, and one other
/// than %Promise% an Error. Otherwise the callback is to be called with the
/// remaining arguments.
pub fn promise_try(this_value: Value, this_is_constructor: bool, promise_intrinsic: Value, arguments: &ArgumentsList) -> (r: Result<TryCall, JsError>)
    ensures
        !this_is_constructor ==> r is Err && r->Err_0 == JsError::Exception(ExceptionType::TypeError),
        this_is_constructor && this_value != promise_intrinsic ==> r is Err && r->Err_0 == JsError::Exception(ExceptionType::Error),
        this_is_constructor && this_value == promise_intrinsic ==> r is Ok
            && r->Ok_0.callback == (if arguments.values@.len() > 0 { arguments.values@[0] } else { Value::Undefined })
            && r->Ok_0.arguments@ == (if arguments.values@.len() > 0 { arguments.values@.subrange(1, arguments.values@.len() as int) } else { Seq::empty() }),
{
    // 2. If C is not an Object, throw a TypeError exception.
    if !this_is_constructor {
        return Err(JsError::Exception(ExceptionType::TypeError));
    }
    if this_value != promise_intrinsic {
        return Err(throw_promise_subclassing_not_supported());
    }
    let callback = arguments.get(0);
    let n = arguments.len();
    let mut rest: Vec<Value> = Vec::new();
    let mut i: usize = 1;
    while i < n
        invariant
            n == arguments.values@.len(),
            1 <= i,
            n > 0 ==> i <= n,
            n > 0 ==> rest@ == arguments.values@.subrange(1, i as int),
            n == 0 ==> rest@.len() == 0,
        decreases n - i,
    {
        rest.push(arguments.get(i));
        i = i + 1;
    }
    Ok(TryCall { callback, arguments: rest })
}

/// Promise.try, steps 5 to 7: a throw completion of the callback makes a
/// rejected promise; a normal one is resolved to a promise with
/// PromiseResolve.
pub fn promise_try_on_status(heap: &mut PromiseHeap, status: Result<Value, JsError>) -> (r: (Value, ResolveStep))
    requires
        old(heap).promises@.len() < u32::MAX,
    ensures
        status matches Err(e) ==> {
            let n = old(heap).promises@.len();
            &&& r == (Value::Promise(n as u32), ResolveStep::Done)
            &&& final(heap).promises@.len() == n + 1
            &&& forall|i: int| 0 <= i < n ==> #[trigger] final(heap).promises@[i] == old(heap).promises@[i]
            &&& final(heap).promises@[n as int].object_index is None
            &&& final(heap).state(Promise(n as u32)) == (PromiseStateView::Rejected { reason: e, is_handled: false })
            &&& final(heap).reactions@ == old(heap).reactions@
            &&& final(heap).jobs@ == old(heap).jobs@
            &&& final(heap).rejection_tracker@ == old(heap).rejection_tracker@
        },
        status is Ok && status->Ok_0 is Promise ==> r == (status->Ok_0, ResolveStep::Done) && final(heap).unchanged(old(heap)),
        status is Ok && !(status->Ok_0 is Promise) ==> {
            let n = old(heap).promises@.len();
            let capability = PromiseCapability { promise: Promise(n as u32), must_be_unresolved: true };
            &&& r.0 == Value::Promise(n as u32)
            &&& exists|mid: PromiseHeap| new_capability_post(old(heap), &mid)
                && settled_with(&mid, final(heap), capability, Ok(status->Ok_0), r.1)
        },
{
    match status {
        // 5. If status is an abrupt completion, then
        Err(err) => {
            // a. Perform ? Call(promiseCapability.[[Reject]], undefined, « status.[[Value]] »).
            let p = heap.create(PromiseHeapData {
                object_index: None,
                promise_state: PromiseState::Rejected { reason: err, is_handled: false },
            });
            (Value::Promise(p.0), ResolveStep::Done)
        },
        // 6. Else,
        Ok(result) => {
            // a. Perform ? Call(promiseCapability.[[Resolve]], undefined, « status.[[Value]] »).
            let (p, step) = promise_resolve(heap, result);
            // 7. Return promiseCapability.[[Promise]].
            (Value::Promise(p.0), step)
        },
    }
}

/// The object that Promise.withResolvers returns: `{ promise, resolve,
/// reject }`.
#[derive(Debug, Clone, Copy, PartialEq, Eq)]
pub struct WithResolvers {
    pub promise: Promise,
    pub resolve: PromiseResolvingFunctionHeapData,
    pub reject: PromiseResolvingFunctionHeapData,
}

/// ### [27.2.4.9 Promise.withResolvers ( )](https://tc39.es/ecma262/#sec-promise.withResolvers)
///
/// A this value that is not a constructor is a TypeError, and one other
/// than %Promise% an Error. Otherwise a new pending promise with its
/// resolving functions.
pub fn promise_with_resolvers(heap: &mut PromiseHeap, this_value: Value, this_is_constructor: bool, promise_intrinsic: Value) -> (r: Result<WithResolvers, JsError>)
    requires
        old(heap).promises@.len() < u32::MAX,
    ensures
        !this_is_constructor ==> r == Err::<WithResolvers, JsError>(JsError::Exception(ExceptionType::TypeError)),
        this_is_constructor && this_value != promise_intrinsic ==> r == Err::<WithResolvers, JsError>(JsError::Exception(ExceptionType::Error)),
        r is Err ==> final(heap).unchanged(old(heap)),
        this_is_constructor && this_value == promise_intrinsic ==> {
            let p = Promise(old(heap).promises@.len() as u32);
            &&& r == Ok::<WithResolvers, JsError>(WithResolvers { promise: p, resolve: resolving_functions(p).0, reject: resolving_functions(p).1 })
            &&& new_capability_post(old(heap), final(heap))
        },
{
    // Step 2 will throw if `this_value` is not a constructor.
    if !this_is_constructor {
        return Err(JsError::Exception(ExceptionType::TypeError));
    }
    if this_value != promise_intrinsic {
        return Err(throw_promise_subclassing_not_supported());
    }
    // 1. Let C be the this value.
    // 2. Let promiseCapability be ? NewPromiseCapability(C).
    let promise_capability = PromiseCapability::new(heap);
    let (resolve, reject) = create_resolving_functions(promise_capability.promise);
    // 3. Let obj be OrdinaryObjectCreate(%Object.prototype%).
    // 4. Perform ! CreateDataPropertyOrThrow(obj, "promise", promiseCapability.[[Promise]]).
    // 5. Perform ! CreateDataPropertyOrThrow(obj, "resolve", promiseCapability.[[Resolve]]).
    // 6. Perform ! CreateDataPropertyOrThrow(obj, "reject", promiseCapability.[[Reject]]).
    // 7. Return obj.
    Ok(WithResolvers { promise: promise_capability.promise, resolve, reject })
}

/// ### [27.2.4.10 get Promise \[ %Symbol.species% \]](https://tc39.es/ecma262/#sec-get-promise-%symbol.species%)
pub fn promise_get_species(this_value: Value) -> (r: Value)
    ensures
        r == this_value,
{
    // 1. Return the this value.
    this_value
}

/// ### [27.2.4.1.1 GetPromiseResolve ( promiseConstructor )](https://tc39.es/ecma262/#sec-getpromiseresolve)
///
/// `promise_resolve` is the outcome of `Get(promiseConstructor, "resolve")`:
/// an error is thrown, and a value that is not callable is a TypeError.
pub fn get_promise_resolve(promise_resolve: Result<Value, JsError>) -> (r: Result<u32, JsError>)
    ensures
        r == spec_get_promise_resolve(promise_resolve),
        promise_resolve matches Err(e) ==> r == Err::<u32, JsError>(e),
        promise_resolve matches Ok(Value::Function(f)) ==> r == Ok::<u32, JsError>(f),
        promise_resolve matches Ok(v) && !(v is Function) ==> r == Err::<u32, JsError>(JsError::Exception(ExceptionType::TypeError)),
{
    // 1. Let promiseResolve be ? Get(promiseConstructor, "resolve").
    let promise_resolve = promise_resolve?;
    // 2. If IsCallable(promiseResolve) is false, throw a TypeError exception.
    match promise_resolve {
        // 3. Return promiseResolve.
        Value::Function(f) => Ok(f),
        _ => Err(JsError::Exception(ExceptionType::TypeError)),
    }
}


/// GetPromiseResolve of an outcome of `Get(promiseConstructor, "resolve")`.
pub open spec fn spec_get_promise_resolve(promise_resolve: Result<Value, JsError>) -> Result<u32, JsError> {
    match promise_resolve {
        Err(e) => Err(e),
        Ok(Value::Function(f)) => Ok(f),
        Ok(_) => Err(JsError::Exception(ExceptionType::TypeError)),
    }
}

/// Where a run of Promise.all or Promise.allSettled stands.
#[derive(Debug, Clone, Copy, PartialEq, Eq, Structural)]
pub enum GroupPhase {
    AwaitingResolveFunction,
    AwaitingIterator,
    AwaitingStep,
    AwaitingNextPromise,
    AwaitingClose,
    Finished,
}

/// What the engine does next for Promise.all or Promise.allSettled.
#[derive(Debug, Clone, Copy, PartialEq, Eq)]
pub enum GroupAction {
    /// `Get(C, "resolve")`; the outcome goes to
    /// [`PromiseGroupRun::on_promise_resolve`].
    GetResolve(Value),
    /// `GetIterator(iterable, sync)`; the outcome (whether the iterator's
    /// "next" is callable, and which function it is) goes to
    /// [`PromiseGroupRun::on_iterator`].
    GetIterator(Value),
    /// `IteratorStepValue(iteratorRecord)`; the outcome goes to
    /// [`PromiseGroupRun::on_step`].
    StepValue,
    /// `Call(promiseResolve, constructor, « next »)`; the outcome goes to
    /// [`PromiseGroupRun::on_next_promise`].
    CallResolve { promise_resolve: u32, constructor: Value, next: Value },
    /// `IteratorClose(iteratorRecord, ThrowCompletion(error))`; the error it
    /// completes with goes to [`PromiseGroupRun::on_close`].
    CloseIterator(JsError),
    /// Return the promise; where the step is `GetThen`, the engine first
    /// reads "then" of the result array and continues the resolution with
    /// [`PromiseCapability::resolve_with_then`].
    ReturnPromise { promise: Promise, step: ResolveStep },
}

/// A run of Promise.all or Promise.allSettled
/// ([27.2.4.1.2 PerformPromiseAll](https://tc39.es/ecma262/#sec-performpromiseall),
/// [27.2.4.2.1 PerformPromiseAllSettled](https://tc39.es/ecma262/#sec-performpromiseallsettled)).
#[derive(Debug, Clone, Copy, PartialEq, Eq)]
pub struct PromiseGroupRun {
    pub group_type: PromiseGroupType,
    /// The promise of the capability that the combinator made.
    pub promise: Promise,
    /// C, the this value.
    pub constructor: Value,
    pub iterable: Value,
    /// The "resolve" function of C, once read.
    pub promise_resolve: u32,
    /// The group record, once the iteration started.
    pub group: PromiseGroup,
    /// The values, once the iteration started.
    pub result_array: Array,
    /// The index of the next element.
    pub index: u32,
    /// iteratorRecord.\[\[Done]]
    pub iterator_done: bool,
    pub phase: GroupPhase,
}

impl PromiseGroupRun {
    /// The capability whose promise the combinator returns.
    pub open spec fn capability(self) -> PromiseCapability {
        PromiseCapability { promise: self.promise, must_be_unresolved: true }
    }

    /// ### [27.2.4.1 Promise.all ( iterable )](https://tc39.es/ecma262/#sec-promise.all) and [27.2.4.2 Promise.allSettled ( iterable )](https://tc39.es/ecma262/#sec-promise.allsettled), steps 1 to 3
    ///
    /// A this value other than %Promise% is an Error, and one that is not a
    /// constructor a TypeError. Otherwise a new promise capability is made,
    /// and C's "resolve" is read.
    pub fn start(
        heap: &mut PromiseHeap,
        this_value: Value,
        this_is_constructor: bool,
        promise_intrinsic: Value,
        arguments: &ArgumentsList,
        group_type: PromiseGroupType,
    ) -> (r: Result<(PromiseGroupRun, GroupAction), JsError>)
        requires
            old(heap).promises@.len() < u32::MAX,
        ensures
            this_value != promise_intrinsic ==> r == Err::<(PromiseGroupRun, GroupAction), JsError>(JsError::Exception(ExceptionType::Error)),
            this_value == promise_intrinsic && !this_is_constructor ==> r == Err::<(PromiseGroupRun, GroupAction), JsError>(JsError::Exception(ExceptionType::TypeError)),
            this_value == promise_intrinsic && this_is_constructor ==> r is Ok,
            r is Err ==> final(heap).unchanged(old(heap)),
            r matches Ok((run, action)) ==> {
                &&& this_value == promise_intrinsic && this_is_constructor
                &&& new_capability_post(old(heap), final(heap))
                &&& run.promise == Promise(old(heap).promises@.len() as u32)
                &&& run.group_type == group_type
                &&& run.constructor == this_value
                &&& run.iterable == (if arguments.values@.len() > 0 { arguments.values@[0] } else { Value::Undefined })
                &&& run.phase is AwaitingResolveFunction
                &&& action == GroupAction::GetResolve(this_value)
            },
    {
        let iterable = arguments.get(0);
        // 1. Let C be the this value.
        if this_value != promise_intrinsic {
            return Err(throw_promise_subclassing_not_supported());
        }
        // 2. Let promiseCapability be ? NewPromiseCapability(C).
        if !this_is_constructor {
            return Err(JsError::Exception(ExceptionType::TypeError));
        }
        let promise_capability = PromiseCapability::new(heap);
        let run = PromiseGroupRun {
            group_type,
            promise: promise_capability.promise,
            constructor: this_value,
            iterable,
            promise_resolve: 0,
            group: PromiseGroup(0),
            result_array: Array(0),
            index: 0,
            iterator_done: false,
            phase: GroupPhase::AwaitingResolveFunction,
        };
        // 3. Let promiseResolve be Completion(GetPromiseResolve(C)).
        Ok((run, GroupAction::GetResolve(this_value)))
    }

    /// Steps 3 to 5: `outcome` is that of `Get(C, "resolve")`.
    /// IfAbruptRejectPromise: a throw completion of GetPromiseResolve
    /// rejects the capability, whose promise is returned. Otherwise the
    /// iterator of the iterable is got.
    pub fn on_promise_resolve(&mut self, heap: &mut PromiseHeap, outcome: Result<Value, JsError>) -> (r: GroupAction)
        requires
            old(self).phase is AwaitingResolveFunction,
            old(heap).contains(old(self).promise),
        ensures
            final(self).promise == old(self).promise,
            final(self).group_type == old(self).group_type,
            final(self).constructor == old(self).constructor,
            spec_get_promise_resolve(outcome) matches Err(e) ==> r == (GroupAction::ReturnPromise { promise: old(self).promise, step: ResolveStep::Done })
                && final(self).phase is Finished
                && rejected_with(old(heap), final(heap), old(self).capability(), e),
            spec_get_promise_resolve(outcome) matches Ok(f) ==> r == GroupAction::GetIterator(old(self).iterable)
                && final(self).phase is AwaitingIterator && final(self).promise_resolve == f
                && final(heap).unchanged(old(heap)),
    {
        match get_promise_resolve(outcome) {
            // 4. IfAbruptRejectPromise(promiseResolve, promiseCapability).
            Err(e) => {
                PromiseCapability::from_promise(self.promise, true).reject(heap, e);
                self.phase = GroupPhase::Finished;
                GroupAction::ReturnPromise { promise: self.promise, step: ResolveStep::Done }
            },
            Ok(f) => {
                self.promise_resolve = f;
                self.phase = GroupPhase::AwaitingIterator;
                // 5. Let iteratorRecord be Completion(GetIterator(iterable, sync)).
                GroupAction::GetIterator(self.iterable)
            },
        }
    }

    /// Steps 6 and 7: `outcome` is that of `GetIterator(iterable, sync)`,
    /// holding whether the iterator's "next" is callable. A throw completion
    /// rejects the capability (IfAbruptRejectPromise). A "next" that is not
    /// callable fails PerformPromiseAll with a TypeError, so the iterator is
    /// closed. Otherwise an empty result array (with room for `capacity`
    /// values) and a group record with one remaining element are made, and
    /// the iteration starts.
    pub fn on_iterator(
        &mut self,
        promises: &mut PromiseHeap,
        arrays: &mut ArrayHeap,
        groups: &mut PromiseGroupHeap,
        outcome: Result<bool, JsError>,
        capacity: u32,
    ) -> (r: GroupAction)
        requires
            old(self).phase is AwaitingIterator,
            old(promises).contains(old(self).promise),
            old(arrays).wf(),
            old(arrays).arrays@.len() < u32::MAX,
            old(groups).records@.len() < u32::MAX,
        ensures
            final(self).promise == old(self).promise,
            final(self).group_type == old(self).group_type,
            final(self).constructor == old(self).constructor,
            final(self).promise_resolve == old(self).promise_resolve,
            final(arrays).wf(),
            outcome matches Err(e) ==> r == (GroupAction::ReturnPromise { promise: old(self).promise, step: ResolveStep::Done })
                && final(self).phase is Finished
                && rejected_with(old(promises), final(promises), old(self).capability(), e)
                && final(arrays).arrays@ == old(arrays).arrays@ && final(groups).records@ == old(groups).records@,
            outcome == Ok::<bool, JsError>(false) ==> r == GroupAction::CloseIterator(JsError::Exception(ExceptionType::TypeError))
                && final(self).phase is AwaitingClose && !final(self).iterator_done
                && final(promises).unchanged(old(promises))
                && final(arrays).arrays@ == old(arrays).arrays@ && final(groups).records@ == old(groups).records@,
            outcome == Ok::<bool, JsError>(true) ==> {
                let a = Array(old(arrays).arrays@.len() as u32);
                &&& r == GroupAction::StepValue
                &&& final(self).phase is AwaitingStep
                &&& !final(self).iterator_done
                &&& final(self).index == 0
                &&& final(self).result_array == a
                &&& final(self).group == PromiseGroup(old(groups).records@.len() as u32)
                &&& final(promises).unchanged(old(promises))
                &&& final(arrays).arrays@.len() == old(arrays).arrays@.len() + 1
                &&& forall|i: int| 0 <= i < old(arrays).arrays@.len() ==> #[trigger] final(arrays).arrays@[i] == old(arrays).arrays@[i]
                &&& final(arrays).elems(a).spec_len() == 0
                &&& final(groups).records@ == old(groups).records@.push(PromiseGroupRecord {
                    promise_group_type: old(self).group_type,
                    remaining_elements_count: 1,
                    result_array: a,
                    promise: old(self).promise,
                })
            },
    {
        // 6. IfAbruptRejectPromise(iteratorRecord, promiseCapability).
        let next_is_callable = match outcome {
            Err(e) => {
                PromiseCapability::from_promise(self.promise, true).reject(promises, e);
                self.phase = GroupPhase::Finished;
                return GroupAction::ReturnPromise { promise: self.promise, step: ResolveStep::Done };
            },
            Ok(b) => b,
        };
        // 7. Let result be Completion(PerformPromiseAll(iteratorRecord, C, promiseCapability, promiseResolve)).
        self.iterator_done = false;
        if !next_is_callable {
            // 8.a. If iteratorRecord.[[Done]] is false, set result to
            //      Completion(IteratorClose(iteratorRecord, result)).
            self.phase = GroupPhase::AwaitingClose;
            return GroupAction::CloseIterator(JsError::Exception(ExceptionType::TypeError));
        }
        // 1. Let values be a new empty List.
        let result_array = match array_create(arrays, 0, capacity as u64, None) {
            Ok(a) => a,
            Err(_) => unreached(),
        };
        // 2. Let remainingElementsCount be the Record { [[Value]]: 1 }.
        let group = groups.create(PromiseGroupRecord {
            promise_group_type: self.group_type,
            remaining_elements_count: 1,
            result_array,
            promise: self.promise,
        });
        self.result_array = result_array;
        self.group = group;
        // 3. Let index be 0.
        self.index = 0;
        self.phase = GroupPhase::AwaitingStep;
        // 4. Repeat,
        //    a. Let next be ? IteratorStepValue(iteratorRecord).
        GroupAction::StepValue
    }

    /// Step 4.a to 4.d: `outcome` is that of IteratorStepValue. A throw
    /// completion closes the iterator. Where the iterator is done, one
    /// element fewer remains, and at zero the capability is resolved with
    /// the result array; the promise is returned. A value makes room for one
    /// more element (a hole until it settles) and is resolved with C's
    /// "resolve".
    pub fn on_step(
        &mut self,
        promises: &mut PromiseHeap,
        arrays: &mut ArrayHeap,
        groups: &mut PromiseGroupHeap,
        outcome: Result<Option<Value>, JsError>,
    ) -> (r: GroupAction)
        requires
            old(self).phase is AwaitingStep,
            !old(self).iterator_done,
            old(promises).contains(old(self).promise),
            old(arrays).wf(),
            old(arrays).contains(old(self).result_array),
            old(arrays).elems(old(self).result_array).spec_len() == old(self).index,
            old(groups).contains(old(self).group),
            old(groups).record(old(self).group).remaining_elements_count >= 1,
            outcome matches Ok(Some(_)) ==> old(self).index < u32::MAX,
        ensures
            final(self).promise == old(self).promise,
            final(self).group_type == old(self).group_type,
            final(self).constructor == old(self).constructor,
            final(self).promise_resolve == old(self).promise_resolve,
            final(self).group == old(self).group,
            final(self).result_array == old(self).result_array,
            final(self).index == old(self).index,
            final(arrays).wf(),
            outcome matches Err(e) ==> r == GroupAction::CloseIterator(e) && final(self).phase is AwaitingClose
                && !final(self).iterator_done
                && final(promises).unchanged(old(promises))
                && final(arrays).arrays@ == old(arrays).arrays@ && final(groups).records@ == old(groups).records@,
            outcome == Ok::<Option<Value>, JsError>(None) ==> {
                let count = old(groups).record(old(self).group).remaining_elements_count;
                &&& final(self).phase is Finished
                &&& final(self).iterator_done
                &&& counted_down(old(groups), final(groups), old(self).group)
                &&& final(arrays).arrays@ == old(arrays).arrays@
                &&& r is ReturnPromise && r->promise == old(self).promise
                &&& count == 1 ==> settled_with(old(promises), final(promises), old(self).capability(),
                    Ok(Value::Array(old(self).result_array.0)), r->step)
                &&& count > 1 ==> r->step == ResolveStep::Done && final(promises).unchanged(old(promises))
            },
            outcome matches Ok(Some(next)) ==> {
                let a = old(self).result_array;
                &&& !final(self).iterator_done
                &&& r == (GroupAction::CallResolve { promise_resolve: old(self).promise_resolve, constructor: old(self).constructor, next })
                &&& final(self).phase is AwaitingNextPromise
                &&& final(promises).unchanged(old(promises))
                &&& final(groups).records@ == old(groups).records@
                &&& final(arrays).arrays@.len() == old(arrays).arrays@.len()
                &&& forall|i: int| 0 <= i < old(arrays).arrays@.len() && i != a.0 ==> #[trigger] final(arrays).arrays@[i] == old(arrays).arrays@[i]
                &&& final(arrays).elems(a).spec_len() == old(self).index + 1
                &&& final(arrays).elems(a).property(old(self).index as int) is None
                &&& forall|j: int| j < old(self).index ==> #[trigger] final(arrays).elems(a).property(j) == old(arrays).elems(a).property(j)
            },
    {
        let next = match outcome {
            Err(e) => {
                self.phase = GroupPhase::AwaitingClose;
                return GroupAction::CloseIterator(e);
            },
            Ok(next) => next,
        };
        match next {
            // b. If next is done, then
            None => {
                self.iterator_done = true;
                self.phase = GroupPhase::Finished;
                // i. Set remainingElementsCount.[[Value]] to remainingElementsCount.[[Value]] - 1.
                let record = self.group.get_mut(groups);
                record.remaining_elements_count = record.remaining_elements_count - 1;
                let remaining = record.remaining_elements_count;
                // ii. If remainingElementsCount.[[Value]] = 0, then
                let step = if remaining == 0 {
                    // 1. Let valuesArray be CreateArrayFromList(values).
                    // 2. Perform ? Call(resultCapability.[[Resolve]], undefined, « valuesArray »).
                    PromiseCapability::from_promise(self.promise, true).resolve(promises, Value::Array(self.result_array.0))
                } else {
                    ResolveStep::Done
                };
                // iii. Return resultCapability.[[Promise]].
                GroupAction::ReturnPromise { promise: self.promise, step }
            },
            Some(next) => {
                // c. Append undefined to values.
                let a = self.result_array;
                let elements = a.get_elements_mut(arrays);
                elements.extend_to(self.index + 1);
                proof {
                    assert(arrays.arrays@[a.0 as int].elements.wf());
                    assert forall|k: int| 0 <= k < arrays.arrays@.len() implies #[trigger] arrays.arrays@[k].elements.wf() by {
                        if k != a.0 {
                            assert(old(arrays).arrays@[k].elements.wf());
                            assert(arrays.arrays@[k] == old(arrays).arrays@[k]);
                        }
                    }
                }
                self.phase = GroupPhase::AwaitingNextPromise;
                // d. Let nextPromise be ? Call(promiseResolve, constructor, « next »).
                GroupAction::CallResolve { promise_resolve: self.promise_resolve, constructor: self.constructor, next }
            },
        }
    }

    /// Steps 4.d to 4.o: `outcome` is that of `Call(promiseResolve,
    /// constructor, « next »)`. A throw completion closes the iterator. A
    /// result that is not a promise is wrapped in a fulfilled one. One more
    /// element remains, the group settles the element at this index when
    /// the promise does, and the next value is read.
    pub fn on_next_promise(
        &mut self,
        promises: &mut PromiseHeap,
        groups: &mut PromiseGroupHeap,
        outcome: Result<Value, JsError>,
    ) -> (r: GroupAction)
        requires
            old(self).phase is AwaitingNextPromise,
            !old(self).iterator_done,
            old(self).index < u32::MAX,
            old(promises).contains(old(self).promise),
            old(promises).promises@.len() < u32::MAX,
            old(promises).reactions@.len() + 2 <= u32::MAX,
            old(groups).contains(old(self).group),
            old(groups).record(old(self).group).remaining_elements_count < u32::MAX,
            outcome matches Ok(Value::Promise(p)) ==> old(promises).contains(Promise(p)),
        ensures
            final(self).promise == old(self).promise,
            final(self).group_type == old(self).group_type,
            final(self).constructor == old(self).constructor,
            final(self).promise_resolve == old(self).promise_resolve,
            final(self).group == old(self).group,
            final(self).result_array == old(self).result_array,
            outcome matches Err(e) ==> r == GroupAction::CloseIterator(e) && final(self).phase is AwaitingClose
                && !final(self).iterator_done && final(self).index == old(self).index
                && final(promises).unchanged(old(promises)) && final(groups).records@ == old(groups).records@,
            outcome is Ok ==> {
                let g = old(self).group;
                let handler = PromiseReactionHandler::PromiseGroup { promise_group: g.0, index: old(self).index };
                let n = old(promises).promises@.len();
                &&& r == GroupAction::StepValue
                &&& final(self).phase is AwaitingStep
                &&& !final(self).iterator_done
                &&& final(self).index == old(self).index + 1
                &&& final(groups).records@ == old(groups).records@.update(g.0 as int, PromiseGroupRecord {
                    remaining_elements_count: (old(groups).record(g).remaining_elements_count + 1) as u32,
                    ..old(groups).record(g)
                })
                &&& outcome->Ok_0 is Promise ==> then_post(old(promises), final(promises), Promise(outcome->Ok_0->Promise_0), handler, handler, None)
                &&& !(outcome->Ok_0 is Promise) ==> exists|mid: PromiseHeap| {
                    &&& mid.promises@.len() == n + 1
                    &&& forall|i: int| 0 <= i < n ==> #[trigger] mid.promises@[i] == old(promises).promises@[i]
                    &&& mid.state(Promise(n as u32)) == (PromiseStateView::Fulfilled { promise_result: outcome->Ok_0 })
                    &&& mid.reactions@ == old(promises).reactions@
                    &&& mid.jobs@ == old(promises).jobs@
                    &&& mid.rejection_tracker@ == old(promises).rejection_tracker@
                    &&& then_post(&mid, final(promises), Promise(n as u32), handler, handler, None)
                }
            },
    {
        let call_result = match outcome {
            Err(e) => {
                self.phase = GroupPhase::AwaitingClose;
                return GroupAction::CloseIterator(e);
            },
            Ok(v) => v,
        };
        let ghost before = *promises;
        // A result that is not a promise is wrapped in a resolved promise to
        // get then-chaining.
        let next_promise = match call_result {
            Value::Promise(p) => Promise(p),
            _ => promises.create(PromiseHeapData {
                object_index: None,
                promise_state: PromiseState::Fulfilled { promise_result: call_result },
            }),
        };
        let ghost mid = *promises;
        // m. Set remainingElementsCount.[[Value]] to remainingElementsCount.[[Value]] + 1.
        let record = self.group.get_mut(groups);
        record.remaining_elements_count = record.remaining_elements_count + 1;
        // g. Let onFulfilled be CreateBuiltinFunction(steps, length, "", « [[AlreadyCalled]],
        //    [[Index]], [[Values]], [[Capability]], [[RemainingElements]] »).
        let reaction = PromiseReactionHandler::PromiseGroup { promise_group: self.group.0, index: self.index };
        // n. Perform ? Invoke(nextPromise, "then", « onFulfilled, resultCapability.[[Reject]] »).
        inner_promise_then(promises, next_promise, reaction, reaction, None);
        proof {
            if !(call_result is Promise) {
                assert(mid.state(Promise(before.promises@.len() as u32)) == (PromiseStateView::Fulfilled { promise_result: call_result }));
            }
        }
        // o. Set index to index + 1.
        self.index = self.index + 1;
        self.phase = GroupPhase::AwaitingStep;
        GroupAction::StepValue
    }

    /// Step 8: `error` is what closing the iterator completed with; the
    /// capability is rejected with it (IfAbruptRejectPromise) and its
    /// promise returned.
    pub fn on_close(&mut self, promises: &mut PromiseHeap, error: JsError) -> (r: GroupAction)
        requires
            old(self).phase is AwaitingClose,
            old(promises).contains(old(self).promise),
        ensures
            final(self).promise == old(self).promise,
            final(self).phase is Finished,
            r == (GroupAction::ReturnPromise { promise: old(self).promise, step: ResolveStep::Done }),
            rejected_with(old(promises), final(promises), old(self).capability(), error),
    {
        // b. IfAbruptRejectPromise(result, promiseCapability).
        PromiseCapability::from_promise(self.promise, true).reject(promises, error);
        self.phase = GroupPhase::Finished;
        GroupAction::ReturnPromise { promise: self.promise, step: ResolveStep::Done }
    }
}

/// ### [27.2.4.1 Promise.all ( iterable )](https://tc39.es/ecma262/#sec-promise.all)
///
/// The run of a group of type All ([`PromiseGroupRun::start`]).
pub fn promise_all(
    heap: &mut PromiseHeap,
    this_value: Value,
    this_is_constructor: bool,
    promise_intrinsic: Value,
    arguments: &ArgumentsList,
) -> (r: Result<(PromiseGroupRun, GroupAction), JsError>)
    requires
        old(heap).promises@.len() < u32::MAX,
    ensures
        this_value != promise_intrinsic ==> r == Err::<(PromiseGroupRun, GroupAction), JsError>(JsError::Exception(ExceptionType::Error)),
        this_value == promise_intrinsic && !this_is_constructor ==> r == Err::<(PromiseGroupRun, GroupAction), JsError>(JsError::Exception(ExceptionType::TypeError)),
        this_value == promise_intrinsic && this_is_constructor ==> r is Ok,
        r is Err ==> final(heap).unchanged(old(heap)),
        r matches Ok((run, action)) ==> run.group_type is All && run.phase is AwaitingResolveFunction
            && run.promise == Promise(old(heap).promises@.len() as u32)
            && new_capability_post(old(heap), final(heap)) && action == GroupAction::GetResolve(this_value),
{
    PromiseGroupRun::start(heap, this_value, this_is_constructor, promise_intrinsic, arguments, PromiseGroupType::All)
}

/// ### [27.2.4.2 Promise.allSettled ( iterable )](https://tc39.es/ecma262/#sec-promise.allsettled)
///
/// The run of a group of type AllSettled ([`PromiseGroupRun::start`]).
pub fn promise_all_settled(
    heap: &mut PromiseHeap,
    this_value: Value,
    this_is_constructor: bool,
    promise_intrinsic: Value,
    arguments: &ArgumentsList,
) -> (r: Result<(PromiseGroupRun, GroupAction), JsError>)
    requires
        old(heap).promises@.len() < u32::MAX,
    ensures
        this_value != promise_intrinsic ==> r == Err::<(PromiseGroupRun, GroupAction), JsError>(JsError::Exception(ExceptionType::Error)),
        this_value == promise_intrinsic && !this_is_constructor ==> r == Err::<(PromiseGroupRun, GroupAction), JsError>(JsError::Exception(ExceptionType::TypeError)),
        this_value == promise_intrinsic && this_is_constructor ==> r is Ok,
        r is Err ==> final(heap).unchanged(old(heap)),
        r matches Ok((run, action)) ==> run.group_type is AllSettled && run.phase is AwaitingResolveFunction
            && run.promise == Promise(old(heap).promises@.len() as u32)
            && new_capability_post(old(heap), final(heap)) && action == GroupAction::GetResolve(this_value),
{
    PromiseGroupRun::start(heap, this_value, this_is_constructor, promise_intrinsic, arguments, PromiseGroupType::AllSettled)
}

} // verus!
