//! ## The functions that [27.2.5.3 Promise.prototype.finally ( onFinally )](https://tc39.es/ecma262/#sec-promise.prototype.finally) creates
//!
//! thenFinally and catchFinally call onFinally, resolve its result to a
//! promise, and chain that promise to a thunk that gives back the value
//! thenFinally was called with (valueThunk) or throws the reason
//! catchFinally was called with (thrower). Calling
//! onFinally, PromiseResolve and Invoke are the engine's work
//! ([`FinallyAction`]); the thunks are made here.

use vstd::prelude::*;
use crate::value::{ArgumentsList, JsError, Value};

verus! {

/// What a finally function does when called.
#[derive(Debug, Clone, Copy, PartialEq, Eq, Structural)]
pub enum PromiseFinallyFunctionType {
    /// thenFinally: calls onFinally, then gives back the fulfillment value.
    ResolveFinally { on_finally: u32, c: u32 },
    /// catchFinally: calls onFinally, then throws the rejection reason.
    RejectFinally { on_finally: u32, c: u32 },
    /// valueThunk: returns the value.
    ReturnValue { value: Value },
    /// thrower: throws the reason.
    ThrowReason { reason: JsError },
}

/// The heap data of a promise finally function.
#[derive(Debug, Clone, Copy, PartialEq, Eq, Structural)]
pub struct PromiseFinallyFunctionHeapData {
    pub backing_object: Option<u32>,
    pub resolve_type: PromiseFinallyFunctionType,
}

/// The arena of the promise finally functions.
pub struct PromiseFinallyHeap {
    pub functions: Vec<PromiseFinallyFunctionHeapData>,
}

/// A handle to a promise finally function.
#[derive(Debug, Clone, Copy, PartialEq, Eq, Structural)]
pub struct BuiltinPromiseFinallyFunction(pub u32);

impl PromiseFinallyHeap {
    pub open spec fn contains(&self, f: BuiltinPromiseFinallyFunction) -> bool {
        f.0 < self.functions@.len()
    }

    pub open spec fn data(&self, f: BuiltinPromiseFinallyFunction) -> PromiseFinallyFunctionHeapData {
        self.functions@[f.0 as int]
    }

    pub fn new() -> (r: Self)
        ensures
            r.functions@.len() == 0,
    {
        PromiseFinallyHeap { functions: Vec::new() }
    }

    /// Adds a finally function.
    pub fn create(&mut self, data: PromiseFinallyFunctionHeapData) -> (r: BuiltinPromiseFinallyFunction)
        requires
            old(self).functions@.len() < u32::MAX,
        ensures
            r.0 == old(self).functions@.len(),
            final(self).functions@ == old(self).functions@.push(data),
    {
        let index = self.functions.len() as u32;
        self.functions.push(data);
        BuiltinPromiseFinallyFunction(index)
    }
}

/// What the engine does next for a call of a finally function.
#[derive(Debug, Clone, Copy, PartialEq, Eq)]
pub enum FinallyAction {
    /// The call returns this value.
    Return(Value),
    /// The call throws this error.
    Throw(JsError),
    /// `? Call(onFinally, undefined)`; the outcome goes to
    /// [`FinallyCall::on_finally_result`].
    CallOnFinally(u32),
    /// `? PromiseResolve(C, result)`; the outcome goes to
    /// [`FinallyCall::on_promise`].
    PromiseResolve { constructor: u32, result: Value },
    /// `? Invoke(p, "then", « thunk »)`, whose completion is the call's.
    InvokeThen { promise: Value, thunk: BuiltinPromiseFinallyFunction },
}

/// A call of thenFinally or catchFinally in progress.
#[derive(Debug, Clone, Copy, PartialEq, Eq, Structural)]
pub struct FinallyCall {
    /// Whether the promise's own settlement was a rejection.
    pub rejected: bool,
    /// The fulfillment value or rejection reason.
    pub value: Value,
    /// C, the promise constructor.
    pub c: u32,
}

impl BuiltinPromiseFinallyFunction {
    /// Creates thenFinally and catchFinally for `on_finally` and the
    /// constructor `c`.
    pub fn create_finally_functions(heap: &mut PromiseFinallyHeap, c: u32, on_finally: u32) -> (r: (Self, Self))
        requires
            old(heap).functions@.len() + 2 < u32::MAX,
        ensures
            r.0.0 == old(heap).functions@.len(),
            r.1.0 == old(heap).functions@.len() + 1,
            final(heap).functions@ == old(heap).functions@
                .push(PromiseFinallyFunctionHeapData {
                    backing_object: None,
                    resolve_type: PromiseFinallyFunctionType::ResolveFinally { on_finally, c },
                })
                .push(PromiseFinallyFunctionHeapData {
                    backing_object: None,
                    resolve_type: PromiseFinallyFunctionType::RejectFinally { on_finally, c },
                }),
    {
        let then_finally_closure = heap.create(PromiseFinallyFunctionHeapData {
            backing_object: None,
            resolve_type: PromiseFinallyFunctionType::ResolveFinally { on_finally, c },
        });
        let catch_finally_closure = heap.create(PromiseFinallyFunctionHeapData {
            backing_object: None,
            resolve_type: PromiseFinallyFunctionType::RejectFinally { on_finally, c },
        });
        (then_finally_closure, catch_finally_closure)
    }

    /// The "length": 1 for thenFinally and catchFinally, 0 for the thunks.
    pub fn get_length(self, heap: &PromiseFinallyHeap) -> (r: u8)
        requires
            heap.contains(self),
        ensures
            r == (if heap.data(self).resolve_type is ResolveFinally || heap.data(self).resolve_type is RejectFinally { 1u8 } else { 0u8 }),
    {
        match heap.functions[self.0 as usize].resolve_type {
            PromiseFinallyFunctionType::ResolveFinally { .. } | PromiseFinallyFunctionType::RejectFinally { .. } => 1,
            PromiseFinallyFunctionType::ReturnValue { .. } | PromiseFinallyFunctionType::ThrowReason { .. } => 0,
        }
    }

    pub fn get_function_backing_object(self, heap: &PromiseFinallyHeap) -> (r: Option<u32>)
        requires
            heap.contains(self),
        ensures
            r == heap.data(self).backing_object,
    {
        heap.functions[self.0 as usize].backing_object
    }

    /// Gives the function a backing object; it must have none yet.
    pub fn set_function_backing_object(self, heap: &mut PromiseFinallyHeap, backing_object: u32)
        requires
            old(heap).contains(self),
            old(heap).data(self).backing_object is None,
        ensures
            final(heap).functions@ == old(heap).functions@.update(self.0 as int, PromiseFinallyFunctionHeapData {
                backing_object: Some(backing_object),
                resolve_type: old(heap).data(self).resolve_type,
            }),
    {
        let i = self.0 as usize;
        let mut data = heap.functions[i];
        data.backing_object = Some(backing_object);
        heap.functions.set(i, data);
    }

    /// \[\[Call]]: thenFinally and catchFinally call onFinally (the call
    /// continues in [`FinallyCall`]); valueThunk returns its value, and
    /// thrower throws its reason.
    pub fn function_call(self, heap: &PromiseFinallyHeap, arguments: &ArgumentsList) -> (r: (Option<FinallyCall>, FinallyAction))
        requires
            heap.contains(self),
        ensures
            match heap.data(self).resolve_type {
                PromiseFinallyFunctionType::ResolveFinally { on_finally, c } => r == (Some(FinallyCall {
                    rejected: false,
                    value: if arguments.values@.len() > 0 { arguments.values@[0] } else { Value::Undefined },
                    c,
                }), FinallyAction::CallOnFinally(on_finally)),
                PromiseFinallyFunctionType::RejectFinally { on_finally, c } => r == (Some(FinallyCall {
                    rejected: true,
                    value: if arguments.values@.len() > 0 { arguments.values@[0] } else { Value::Undefined },
                    c,
                }), FinallyAction::CallOnFinally(on_finally)),
                PromiseFinallyFunctionType::ReturnValue { value } => r == (None::<FinallyCall>, FinallyAction::Return(value)),
                PromiseFinallyFunctionType::ThrowReason { reason } => r == (None::<FinallyCall>, FinallyAction::Throw(reason)),
            },
    {
        match heap.functions[self.0 as usize].resolve_type {
            PromiseFinallyFunctionType::ResolveFinally { on_finally, c } => {
                let value = arguments.get(0);
                // i. Let result be ? Call(onFinally, undefined).
                (Some(FinallyCall { rejected: false, value, c }), FinallyAction::CallOnFinally(on_finally))
            },
            PromiseFinallyFunctionType::RejectFinally { on_finally, c } => {
                let reason = arguments.get(0);
                // i. Let result be ? Call(onFinally, undefined).
                (Some(FinallyCall { rejected: true, value: reason, c }), FinallyAction::CallOnFinally(on_finally))
            },
            // 1. Return NormalCompletion(value).
            PromiseFinallyFunctionType::ReturnValue { value } => (None, FinallyAction::Return(value)),
            // 1. Return ThrowCompletion(reason).
            PromiseFinallyFunctionType::ThrowReason { reason } => (None, FinallyAction::Throw(reason)),
        }
    }
}

impl FinallyCall {
    /// The outcome of calling onFinally: an error is thrown; a result is
    /// resolved to a promise with C.
    pub fn on_finally_result(&self, outcome: Result<Value, JsError>) -> (r: FinallyAction)
        ensures
            outcome matches Err(e) ==> r == FinallyAction::Throw(e),
            outcome matches Ok(v) ==> r == (FinallyAction::PromiseResolve { constructor: self.c, result: v }),
    {
        match outcome {
            Err(e) => FinallyAction::Throw(e),
            // ii. Let p be ? PromiseResolve(C, result).
            Ok(result) => FinallyAction::PromiseResolve { constructor: self.c, result },
        }
    }

    /// The outcome of PromiseResolve: an error is thrown; for a promise `p`,
    /// the thunk is made (valueThunk returning the value for thenFinally,
    /// thrower throwing the reason for catchFinally) and `p.then(thunk)` is
    /// invoked.
    pub fn on_promise(&self, heap: &mut PromiseFinallyHeap, outcome: Result<Value, JsError>) -> (r: FinallyAction)
        requires
            old(heap).functions@.len() < u32::MAX,
        ensures
            outcome matches Err(e) ==> r == FinallyAction::Throw(e) && final(heap).functions@ == old(heap).functions@,
            outcome matches Ok(p) ==> {
                &&& r == (FinallyAction::InvokeThen { promise: p, thunk: BuiltinPromiseFinallyFunction(old(heap).functions@.len() as u32) })
                &&& final(heap).functions@ == old(heap).functions@.push(PromiseFinallyFunctionHeapData {
                    backing_object: None,
                    resolve_type: if self.rejected {
                        PromiseFinallyFunctionType::ThrowReason { reason: JsError::Thrown(self.value) }
                    } else {
                        PromiseFinallyFunctionType::ReturnValue { value: self.value }
                    },
                })
            },
    {
        let p = match outcome {
            Err(e) => return FinallyAction::Throw(e),
            Ok(p) => p,
        };
        let resolve_type = if self.rejected {
            // iii. Let throwReason be a new Abstract Closure with no parameters that captures
            //      reason and performs the following steps when called:
            //      1. Return ThrowCompletion(reason).
            PromiseFinallyFunctionType::ThrowReason { reason: JsError::Thrown(self.value) }
        } else {
            // iii. Let returnValue be a new Abstract Closure with no parameters that captures
            //      value and performs the following steps when called:
            //      1. Return NormalCompletion(value).
            PromiseFinallyFunctionType::ReturnValue { value: self.value }
        };
        // iv. Let thunk be CreateBuiltinFunction(closure, 0, "", « »).
        let thunk = heap.create(PromiseFinallyFunctionHeapData { backing_object: None, resolve_type });
        // v. Return ? Invoke(p, "then", « thunk »).
        FinallyAction::InvokeThen { promise: p, thunk }
    }
}

/// finally passes the settlement through: the thunk that a thenFinally
/// call chains, once called, returns the promise's own fulfillment value, and
/// the one that a catchFinally call chains throws the promise's own rejection reason.
pub proof fn lemma_finally_passes_settlement_through(
    call: FinallyCall,
    before: &PromiseFinallyHeap,
    after: &PromiseFinallyHeap,
    p: Value,
)
    requires
        after.functions@ == before.functions@.push(PromiseFinallyFunctionHeapData {
            backing_object: None,
            resolve_type: if call.rejected {
                PromiseFinallyFunctionType::ThrowReason { reason: JsError::Thrown(call.value) }
            } else {
                PromiseFinallyFunctionType::ReturnValue { value: call.value }
            },
        }),
    ensures
        ({
            let thunk = BuiltinPromiseFinallyFunction(before.functions@.len() as u32);
            &&& after.contains(thunk) || before.functions@.len() >= u32::MAX
            &&& before.functions@.len() < u32::MAX ==> {
                &&& !call.rejected ==> after.data(thunk).resolve_type == (PromiseFinallyFunctionType::ReturnValue { value: call.value })
                &&& call.rejected ==> after.data(thunk).resolve_type == (PromiseFinallyFunctionType::ThrowReason { reason: JsError::Thrown(call.value) })
            }
        }),
{
}

} // verus!
