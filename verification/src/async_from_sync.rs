//! ## [27.1.6 Async-from-Sync Iterator Objects](https://tc39.es/ecma262/#sec-async-from-sync-iterator-objects)
//!
//! An async iterator that adapts a synchronous one. Each of its methods
//! makes a new promise capability, works the synchronous iterator through
//! the engine (the [`AsyncFromSyncAction`]s), and settles or chains the
//! promise. An abrupt completion on the way rejects the capability
//! (IfAbruptRejectPromise), which this module does itself.

use vstd::prelude::*;
use crate::value::{ExceptionType, JsError, Value};
use crate::promise::{
    PromiseCapability, PromiseHeap, rejected_post, spec_is_already_resolved,
};

verus! {

/// Which method of the adapter runs.
#[derive(Debug, Clone, Copy, PartialEq, Eq, Structural)]
pub enum AsyncFromSyncMethod {
    Next,
    Return,
    Throw,
}

/// What the engine does next.
#[derive(Debug, Clone, Copy, PartialEq, Eq)]
pub enum AsyncFromSyncAction {
    /// `IteratorNext(syncIteratorRecord, value?)`; the outcome goes to
    /// [`AsyncFromSyncIterator::on_sync_result`].
    IteratorNext(Option<Value>),
    /// `GetMethod(syncIterator, "return")` or `"throw"`; the outcome goes
    /// to [`AsyncFromSyncIterator::on_method`].
    GetMethod,
    /// `Call(method, syncIterator, « value »?)`; the outcome goes to
    /// [`AsyncFromSyncIterator::on_sync_result`].
    CallMethod { method: Value, argument: Option<Value> },
    /// `IteratorClose(syncIteratorRecord, completion)`; the outcome goes to
    /// [`AsyncFromSyncIterator::on_close`].
    CloseIterator,
    /// `IteratorComplete(result)`; the outcome goes to
    /// [`AsyncFromSyncIterator::on_done`].
    IteratorComplete(Value),
    /// `IteratorValue(result)`; the outcome goes to
    /// [`AsyncFromSyncIterator::on_value`].
    IteratorValue(Value),
    /// `PromiseResolve(%Promise%, value)`; the outcome goes to
    /// [`AsyncFromSyncIterator::on_value_wrapper`].
    PromiseResolve(Value),
    /// Resolve the capability with `CreateIteratorResultObject(value, done)`,
    /// then return its promise.
    ResolveWithIterResult { value: Value, done: bool },
    /// `PerformPromiseThen(valueWrapper, onFulfilled, onRejected,
    /// promiseCapability)`, where onFulfilled makes
    /// `CreateIteratorResultObject(v, done)` and onRejected closes the
    /// synchronous iterator where `close_on_rejected` holds (else it is
    /// undefined); then return the capability's promise.
    Then { value_wrapper: Value, done: bool, close_on_rejected: bool },
    /// Return the capability's promise, which is settled.
    ReturnPromise,
}

/// Where the machine stands.
#[derive(Debug, Clone, Copy, PartialEq, Eq, Structural)]
pub enum AsyncFromSyncPhase {
    AwaitingSyncResult,
    AwaitingMethod,
    AwaitingClose,
    AwaitingDone,
    AwaitingValue,
    AwaitingValueWrapper,
    Finished,
}

/// A running method of an Async-from-Sync iterator.
#[derive(Debug, Clone, Copy, PartialEq, Eq)]
pub struct AsyncFromSyncIterator {
    pub method: AsyncFromSyncMethod,
    /// The capability whose promise the method returns.
    pub capability: PromiseCapability,
    /// The argument the method was called with.
    pub value: Option<Value>,
    /// AsyncFromSyncIteratorContinuation's closeOnRejection.
    pub close_on_rejection: bool,
    /// The result object under inspection.
    pub result: Value,
    /// Its "done".
    pub done: bool,
    /// The error that closing the iterator carries, where it closes on an
    /// abrupt valueWrapper.
    pub pending_error: Option<JsError>,
    pub phase: AsyncFromSyncPhase,
}

/// The capability was rejected with `e` where it was not already resolved,
/// and left alone where it was.
pub open spec fn rejected_with(before: &PromiseHeap, after: &PromiseHeap, capability: PromiseCapability, e: JsError) -> bool {
    &&& spec_is_already_resolved(before, capability) ==> after.unchanged(before)
    &&& !spec_is_already_resolved(before, capability) ==> rejected_post(before, after, capability.promise, e)
}

impl AsyncFromSyncIterator {
    /// Starts `next`, `return` or `throw` with a capability made beforehand
    /// by NewPromiseCapability(%Promise%): `next` calls IteratorNext with
    /// the value where it is present; `return` and `throw` look up the
    /// method of that name.
    pub fn start(method: AsyncFromSyncMethod, capability: PromiseCapability, value: Option<Value>) -> (r: (AsyncFromSyncIterator, AsyncFromSyncAction))
        ensures
            r.0.method == method,
            r.0.capability == capability,
            r.0.value == value,
            r.0.pending_error is None,
            method is Next ==> r.1 == AsyncFromSyncAction::IteratorNext(value) && r.0.phase is AwaitingSyncResult,
            !(method is Next) ==> r.1 == AsyncFromSyncAction::GetMethod && r.0.phase is AwaitingMethod,
    {
        let mut m = AsyncFromSyncIterator {
            method,
            capability,
            value,
            close_on_rejection: false,
            result: Value::Undefined,
            done: false,
            pending_error: None,
            phase: AsyncFromSyncPhase::AwaitingMethod,
        };
        match method {
            AsyncFromSyncMethod::Next => {
                // 5. If value is present, then
                //    a. Let result be Completion(IteratorNext(syncIteratorRecord, value)).
                // 6. Else,
                //    a. Let result be Completion(IteratorNext(syncIteratorRecord)).
                m.phase = AsyncFromSyncPhase::AwaitingSyncResult;
                (m, AsyncFromSyncAction::IteratorNext(value))
            },
            // 6. Let return be Completion(GetMethod(syncIterator, "return")).
            // 6. Let throw be Completion(GetMethod(syncIterator, "throw")).
            _ => (m, AsyncFromSyncAction::GetMethod),
        }
    }

    /// IfAbruptRejectPromise: rejects the capability and finishes with its
    /// promise.
    fn reject_and_finish(&mut self, heap: &mut PromiseHeap, e: JsError) -> (r: AsyncFromSyncAction)
        requires
            old(heap).contains(old(self).capability.promise),
        ensures
            r == AsyncFromSyncAction::ReturnPromise,
            final(self).phase is Finished,
            final(self).method == old(self).method,
            final(self).capability == old(self).capability,
            final(self).value == old(self).value,
            final(self).close_on_rejection == old(self).close_on_rejection,
            final(self).result == old(self).result,
            final(self).done == old(self).done,
            final(self).pending_error == old(self).pending_error,
            rejected_with(old(heap), final(heap), old(self).capability, e),
    {
        // a. Perform ? Call(capability.[[Reject]], undefined, « value.[[Value]] »).
        self.capability.reject(heap, e);
        self.phase = AsyncFromSyncPhase::Finished;
        // b. Return capability.[[Promise]].
        AsyncFromSyncAction::ReturnPromise
    }

    /// The outcome of GetMethod for `return` or `throw`.
    ///
    /// An error rejects. Where there is no method, `return` resolves with
    /// `{ value, done: true }`, and `throw` closes the synchronous iterator
    /// (then rejects with a TypeError). Otherwise the method is called with
    /// the value where it is present.
    pub fn on_method(&mut self, heap: &mut PromiseHeap, outcome: Result<Option<Value>, JsError>) -> (r: AsyncFromSyncAction)
        requires
            old(self).phase is AwaitingMethod,
            !(old(self).method is Next),
            old(heap).contains(old(self).capability.promise),
        ensures
            final(self).method == old(self).method,
            final(self).capability == old(self).capability,
            final(self).value == old(self).value,
            final(self).close_on_rejection == old(self).close_on_rejection,
            final(self).result == old(self).result,
            final(self).done == old(self).done,
            final(self).pending_error == old(self).pending_error,
            outcome matches Err(e) ==> r == AsyncFromSyncAction::ReturnPromise && final(self).phase is Finished
                && rejected_with(old(heap), final(heap), old(self).capability, e),
            outcome matches Ok(None) && old(self).method is Return ==> final(heap).unchanged(old(heap))
                && final(self).phase is Finished
                && r == (AsyncFromSyncAction::ResolveWithIterResult {
                    value: if old(self).value is Some { old(self).value->Some_0 } else { Value::Undefined },
                    done: true,
                }),
            outcome matches Ok(None) && old(self).method is Throw ==> final(heap).unchanged(old(heap))
                && final(self).phase is AwaitingClose && r == AsyncFromSyncAction::CloseIterator,
            outcome matches Ok(Some(m)) ==> final(heap).unchanged(old(heap))
                && final(self).phase is AwaitingSyncResult
                && r == (AsyncFromSyncAction::CallMethod { method: m, argument: old(self).value }),
    {
        // 7. IfAbruptRejectPromise(return, promiseCapability).
        let method = match outcome {
            Err(e) => return self.reject_and_finish(heap, e),
            Ok(method) => method,
        };
        match method {
            // 8. If return is undefined, then
            None => match self.method {
                AsyncFromSyncMethod::Return => {
                    self.phase = AsyncFromSyncPhase::Finished;
                    // a. Let iteratorResult be CreateIteratorResultObject(value, true).
                    // b. Perform ! Call(promiseCapability.[[Resolve]], undefined, « iteratorResult »).
                    // c. Return promiseCapability.[[Promise]].
                    let value = match self.value {
                        Some(v) => v,
                        None => Value::Undefined,
                    };
                    AsyncFromSyncAction::ResolveWithIterResult { value, done: true }
                },
                _ => {
                    // a. NOTE: If syncIterator does not have a throw method, close it to give
                    //    it a chance to clean up before we reject the capability.
                    // b. Let closeCompletion be NormalCompletion(empty).
                    // c. Let result be Completion(IteratorClose(syncIteratorRecord, closeCompletion)).
                    self.phase = AsyncFromSyncPhase::AwaitingClose;
                    AsyncFromSyncAction::CloseIterator
                },
            },
            // 9. If value is present, then
            //    a. Let result be Completion(Call(return, syncIterator, « value »)).
            // 10. Else,
            //    a. Let result be Completion(Call(return, syncIterator)).
            Some(m) => {
                self.phase = AsyncFromSyncPhase::AwaitingSyncResult;
                AsyncFromSyncAction::CallMethod { method: m, argument: self.value }
            },
        }
    }

    /// The outcome of closing the synchronous iterator.
    ///
    /// For `throw` without a method: an error rejects with it, and
    /// otherwise the capability is rejected with a TypeError (a protocol
    /// violation). After an abrupt valueWrapper: the capability is rejected
    /// with the valueWrapper's error, whatever closing gave.
    pub fn on_close(&mut self, heap: &mut PromiseHeap, outcome: Result<(), JsError>) -> (r: AsyncFromSyncAction)
        requires
            old(self).phase is AwaitingClose,
            old(heap).contains(old(self).capability.promise),
        ensures
            r == AsyncFromSyncAction::ReturnPromise,
            final(self).phase is Finished,
            final(self).capability == old(self).capability,
            old(self).pending_error matches Some(e) ==> rejected_with(old(heap), final(heap), old(self).capability, e),
            old(self).pending_error is None && outcome is Err
                ==> rejected_with(old(heap), final(heap), old(self).capability, outcome->Err_0),
            old(self).pending_error is None && outcome is Ok
                ==> rejected_with(old(heap), final(heap), old(self).capability, JsError::Exception(ExceptionType::TypeError)),
    {
        match self.pending_error {
            // 7.a. Set valueWrapper to Completion(IteratorClose(syncIteratorRecord, valueWrapper)).
            // 8. IfAbruptRejectPromise(valueWrapper, promiseCapability).
            Some(e) => self.reject_and_finish(heap, e),
            None => match outcome {
                // d. IfAbruptRejectPromise(result, promiseCapability).
                Err(e) => self.reject_and_finish(heap, e),
                // g. Perform ! Call(promiseCapability.[[Reject]], undefined,
                //    « a newly created TypeError object »).
                // h. Return promiseCapability.[[Promise]].
                Ok(()) => self.reject_and_finish(heap, JsError::Exception(ExceptionType::TypeError)),
            },
        }
    }

    /// The outcome of IteratorNext (for `next`) or of calling the method
    /// (for `return` and `throw`).
    ///
    /// An error rejects; a result that is not an Object rejects with a
    /// TypeError for `return` and `throw`. Otherwise
    /// AsyncFromSyncIteratorContinuation runs on the result, closing on
    /// rejection for `next` and `throw` but not for `return`.
    pub fn on_sync_result(&mut self, heap: &mut PromiseHeap, outcome: Result<Value, JsError>) -> (r: AsyncFromSyncAction)
        requires
            old(self).phase is AwaitingSyncResult,
            old(heap).contains(old(self).capability.promise),
        ensures
            final(self).method == old(self).method,
            final(self).capability == old(self).capability,
            outcome matches Err(e) ==> r == AsyncFromSyncAction::ReturnPromise && final(self).phase is Finished
                && rejected_with(old(heap), final(heap), old(self).capability, e),
            outcome matches Ok(v) && !v.spec_is_object() && !(old(self).method is Next) ==> r == AsyncFromSyncAction::ReturnPromise
                && final(self).phase is Finished
                && rejected_with(old(heap), final(heap), old(self).capability, JsError::Exception(ExceptionType::TypeError)),
            outcome is Ok && (outcome->Ok_0.spec_is_object() || old(self).method is Next) ==> {
                &&& r == AsyncFromSyncAction::IteratorComplete(outcome->Ok_0)
                &&& final(self).phase is AwaitingDone
                &&& final(self).result == outcome->Ok_0
                &&& final(self).close_on_rejection == !(old(self).method is Return)
                &&& final(self).pending_error is None
                &&& final(heap).unchanged(old(heap))
            },
    {
        // IfAbruptRejectPromise(result, promiseCapability).
        let result = match outcome {
            Err(e) => return self.reject_and_finish(heap, e),
            Ok(result) => result,
        };
        // 12. If result is not an Object, then
        if !matches!(self.method, AsyncFromSyncMethod::Next) && !result.is_object() {
            // a. Perform ! Call(promiseCapability.[[Reject]], undefined, « a newly created TypeError object »).
            // b. Return promiseCapability.[[Promise]].
            return self.reject_and_finish(heap, JsError::Exception(ExceptionType::TypeError));
        }
        // 13. Return AsyncFromSyncIteratorContinuation(result, promiseCapability,
        //     syncIteratorRecord, closeOnRejection).
        self.result = result;
        self.close_on_rejection = !matches!(self.method, AsyncFromSyncMethod::Return);
        self.pending_error = None;
        // 2. Let done be Completion(IteratorComplete(result)).
        self.phase = AsyncFromSyncPhase::AwaitingDone;
        AsyncFromSyncAction::IteratorComplete(result)
    }

    /// ### [27.1.6.4 AsyncFromSyncIteratorContinuation ( result, promiseCapability, syncIteratorRecord, closeOnRejection )](https://tc39.es/ecma262/#sec-asyncfromsynciteratorcontinuation), steps 2 to 4
    pub fn on_done(&mut self, heap: &mut PromiseHeap, outcome: Result<bool, JsError>) -> (r: AsyncFromSyncAction)
        requires
            old(self).phase is AwaitingDone,
            old(heap).contains(old(self).capability.promise),
        ensures
            final(self).capability == old(self).capability,
            final(self).close_on_rejection == old(self).close_on_rejection,
            final(self).pending_error == old(self).pending_error,
            outcome matches Err(e) ==> r == AsyncFromSyncAction::ReturnPromise && final(self).phase is Finished
                && rejected_with(old(heap), final(heap), old(self).capability, e),
            outcome matches Ok(d) ==> r == AsyncFromSyncAction::IteratorValue(old(self).result)
                && final(self).done == d && final(self).phase is AwaitingValue && final(heap).unchanged(old(heap)),
    {
        // 3. IfAbruptRejectPromise(done, promiseCapability).
        match outcome {
            Err(e) => self.reject_and_finish(heap, e),
            Ok(done) => {
                self.done = done;
                // 4. Let value be Completion(IteratorValue(result)).
                self.phase = AsyncFromSyncPhase::AwaitingValue;
                AsyncFromSyncAction::IteratorValue(self.result)
            },
        }
    }

    /// AsyncFromSyncIteratorContinuation, steps 5 and 6.
    pub fn on_value(&mut self, heap: &mut PromiseHeap, outcome: Result<Value, JsError>) -> (r: AsyncFromSyncAction)
        requires
            old(self).phase is AwaitingValue,
            old(heap).contains(old(self).capability.promise),
        ensures
            final(self).capability == old(self).capability,
            final(self).close_on_rejection == old(self).close_on_rejection,
            final(self).done == old(self).done,
            final(self).pending_error == old(self).pending_error,
            outcome matches Err(e) ==> r == AsyncFromSyncAction::ReturnPromise && final(self).phase is Finished
                && rejected_with(old(heap), final(heap), old(self).capability, e),
            outcome matches Ok(v) ==> r == AsyncFromSyncAction::PromiseResolve(v)
                && final(self).phase is AwaitingValueWrapper && final(heap).unchanged(old(heap)),
    {
        // 5. IfAbruptRejectPromise(value, promiseCapability).
        match outcome {
            Err(e) => self.reject_and_finish(heap, e),
            Ok(value) => {
                // 6. Let valueWrapper be Completion(PromiseResolve(%Promise%, value)).
                self.phase = AsyncFromSyncPhase::AwaitingValueWrapper;
                AsyncFromSyncAction::PromiseResolve(value)
            },
        }
    }

    /// AsyncFromSyncIteratorContinuation, steps 7 to 15.
    ///
    /// An abrupt valueWrapper closes the synchronous iterator first where
    /// the result is not done and closeOnRejection holds, and rejects. A
    /// promise is chained: its fulfillment gives `{ v, done }`, and its
    /// rejection closes the iterator unless the result was done or
    /// closeOnRejection is false.
    pub fn on_value_wrapper(&mut self, heap: &mut PromiseHeap, outcome: Result<Value, JsError>) -> (r: AsyncFromSyncAction)
        requires
            old(self).phase is AwaitingValueWrapper,
            old(heap).contains(old(self).capability.promise),
        ensures
            final(self).capability == old(self).capability,
            outcome is Err && !old(self).done && old(self).close_on_rejection ==> r == AsyncFromSyncAction::CloseIterator
                && final(self).phase is AwaitingClose && final(self).pending_error == Some(outcome->Err_0)
                && final(heap).unchanged(old(heap)),
            outcome is Err && (old(self).done || !old(self).close_on_rejection) ==> r == AsyncFromSyncAction::ReturnPromise
                && final(self).phase is Finished && rejected_with(old(heap), final(heap), old(self).capability, outcome->Err_0),
            outcome matches Ok(w) ==> final(self).phase is Finished && final(heap).unchanged(old(heap))
                && r == (AsyncFromSyncAction::Then {
                    value_wrapper: w,
                    done: old(self).done,
                    close_on_rejected: !(old(self).done || !old(self).close_on_rejection),
                }),
    {
        match outcome {
            Err(e) => {
                // 7. If valueWrapper is an abrupt completion, done is false, and
                //    closeOnRejection is true, then
                if !self.done && self.close_on_rejection {
                    // a. Set valueWrapper to Completion(IteratorClose(syncIteratorRecord, valueWrapper)).
                    self.pending_error = Some(e);
                    self.phase = AsyncFromSyncPhase::AwaitingClose;
                    AsyncFromSyncAction::CloseIterator
                } else {
                    // 8. IfAbruptRejectPromise(valueWrapper, promiseCapability).
                    self.reject_and_finish(heap, e)
                }
            },
            Ok(value_wrapper) => {
                // 9. Let unwrap be a new Abstract Closure with parameters (v) that
                //    captures done and performs the following steps when called:
                //    a. Return CreateIteratorResultObject(v, done).
                // 10. Let onFulfilled be CreateBuiltinFunction(unwrap, 1, "", « »).
                // 12. If done is true, or if closeOnRejection is false, then
                //     a. Let onRejected be undefined.
                // 13. Else,
                //     b. Let onRejected be CreateBuiltinFunction(closeIterator, 1, "", « »).
                let close_on_rejected = !(self.done || !self.close_on_rejection);
                self.phase = AsyncFromSyncPhase::Finished;
                // 14. Perform PerformPromiseThen(valueWrapper, onFulfilled, onRejected, promiseCapability).
                // 15. Return promiseCapability.[[Promise]].
                AsyncFromSyncAction::Then { value_wrapper, done: self.done, close_on_rejected }
            },
        }
    }
}

/// The iterator record of an Async-from-Sync iterator, or of an iterator
/// whose "next" is not callable.
#[derive(Debug, Clone, Copy, PartialEq, Eq, Structural)]
pub enum VmIteratorRecord {
    InvalidIterator { iterator: Value },
    AsyncFromSyncGenericIterator { iterator: Value, next_method: Value },
}

/// ### [27.1.6.1 CreateAsyncFromSyncIterator ( syncIteratorRecord )](https://tc39.es/ecma262/#sec-createasyncfromsynciterator)
///
/// An iterator record of the adapter over the synchronous iterator, whose
/// next method is `next_method`; where that is not callable, the invalid
/// iterator record.
pub fn create_async_from_sync_iterator(iterator: Value, next_method: Value) -> (r: VmIteratorRecord)
    ensures
        next_method is Function ==> r == (VmIteratorRecord::AsyncFromSyncGenericIterator { iterator, next_method }),
        !(next_method is Function) ==> r == (VmIteratorRecord::InvalidIterator { iterator }),
{
    // 3. Let nextMethod be ! Get(asyncIterator, "next").
    if !next_method.is_callable() {
        return VmIteratorRecord::InvalidIterator { iterator };
    }
    // 4. Let iteratorRecord be the Iterator Record { [[Iterator]]: asyncIterator,
    //    [[NextMethod]]: nextMethod, [[Done]]: false }.
    // 5. Return iteratorRecord.
    VmIteratorRecord::AsyncFromSyncGenericIterator { iterator, next_method }
}

} // verus!
