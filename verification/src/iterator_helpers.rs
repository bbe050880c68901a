//! ## [27.1.4 The %Iterator.prototype% Object](https://tc39.es/ecma262/#sec-%iterator.prototype%-object): the methods that consume an iterator
//!
//! `every`, `find`, `forEach`, `some`, `reduce` and `toArray` step an
//! iterator and call a callback in turn. Each is a machine whose state is an
//! [`IteratorHelper`]: the engine performs the [`IteratorAction`] that a
//! step returns (reading the iterator, calling the callback, closing the
//! iterator) and hands the outcome to the next step.

use vstd::prelude::*;
use crate::value::{ArgumentsList, ExceptionType, JsError, Value, EMPTY_STRING, spec_to_boolean, to_boolean};

verus! {

/// The method being run.
#[derive(Debug, Clone, Copy, PartialEq, Eq, Structural)]
pub enum IteratorMethod {
    Every,
    Find,
    ForEach,
    /// `some`
    Any,
    Reduce,
    ToArray,
}

/// A completion: a normal one with its value, or a throw one.
#[derive(Debug, Clone, Copy, PartialEq, Eq)]
pub enum Completion {
    Normal(Value),
    Throw(JsError),
}

/// What the engine does next.
#[derive(Debug, Clone, Copy, PartialEq, Eq)]
pub enum IteratorAction {
    /// The method returns this value.
    Return(Value),
    /// The method throws this error.
    Throw(JsError),
    /// `? IteratorClose(iterated, completion)`: the iterator's "return"
    /// method is called, and the method completes with `completion` (or
    /// with an error that closing throws over a normal completion).
    Close(Completion),
    /// `? GetIteratorDirect(O)`; the outcome goes to
    /// [`IteratorHelper::on_iterator_direct`].
    GetIteratorDirect(Value),
    /// `? IteratorStepValue(iterated)`; the outcome goes to
    /// [`IteratorHelper::on_step`].
    StepValue,
    /// `Call(callback, undefined, « accumulator?, value, 𝔽(counter) »)`
    /// (the accumulator for reduce only); the outcome goes to
    /// [`IteratorHelper::on_call`].
    Call { accumulator: Option<Value>, value: Value, counter: u64 },
    /// The method returns CreateArrayFromList of the collected items.
    ReturnItems,
}

/// Where the machine stands.
#[derive(Debug, Clone, Copy, PartialEq, Eq, Structural)]
pub enum HelperPhase {
    AwaitingIterator,
    AwaitingStep,
    AwaitingCall,
    Finished,
}

/// The state of a running iterator method.
pub struct IteratorHelper {
    pub method: IteratorMethod,
    /// The predicate, procedure or reducer.
    pub callback: Value,
    /// The number handed to the callback as its last argument.
    pub counter: u64,
    /// The accumulator of reduce; `None` until the first value where reduce
    /// was given no initial value.
    pub accumulator: Option<Value>,
    /// The value that the callback was last called with.
    pub current: Value,
    /// The values collected by toArray.
    pub items: Vec<Value>,
    pub phase: HelperPhase,
}

/// What the callback's result decides for a predicate method: whether the
/// method stops, and with which completion.
pub open spec fn spec_decisive(method: IteratorMethod, result: Value) -> bool {
    match method {
        IteratorMethod::Every => !spec_to_boolean(result),
        IteratorMethod::Find | IteratorMethod::Any => spec_to_boolean(result),
        _ => false,
    }
}

/// The completion that a decisive callback result closes the iterator
/// with: false for every, the value found for find, true for some.
pub open spec fn spec_decided_value(method: IteratorMethod, current: Value) -> Value {
    match method {
        IteratorMethod::Every => Value::Boolean(false),
        IteratorMethod::Find => current,
        _ => Value::Boolean(true),
    }
}

/// The value a method returns when the iterator is done (toArray and a
/// reduce without accumulator excepted).
pub open spec fn spec_done_value(method: IteratorMethod, accumulator: Option<Value>) -> Value {
    match method {
        IteratorMethod::Every => Value::Boolean(true),
        IteratorMethod::Any => Value::Boolean(false),
        IteratorMethod::Reduce => accumulator.unwrap(),
        _ => Value::Undefined,
    }
}

impl IteratorHelper {
    /// Steps 1 to 4 (and 6 to 7 of reduce): `this_value` must be an Object,
    /// and the callback (the first argument; toArray has none) callable,
    /// else the iterator is closed with a TypeError. Reduce takes its
    /// initial accumulator from the second argument where there is one.
    pub fn start(method: IteratorMethod, this_value: Value, arguments: &ArgumentsList) -> (r: (IteratorHelper, IteratorAction))
        ensures
            r.0.method == method,
            r.0.callback == (if arguments.values@.len() > 0 { arguments.values@[0] } else { Value::Undefined }),
            r.0.counter == 0,
            r.0.items@.len() == 0,
            r.0.accumulator == (if method is Reduce && arguments.values@.len() > 1 {
                Some(arguments.values@[1])
            } else {
                None::<Value>
            }),
            !this_value.spec_is_object() ==> r.1 == IteratorAction::Throw(JsError::Exception(ExceptionType::TypeError))
                && r.0.phase is Finished,
            this_value.spec_is_object() && !(method is ToArray) && !(r.0.callback is Function)
                ==> r.1 == IteratorAction::Close(Completion::Throw(JsError::Exception(ExceptionType::TypeError)))
                && r.0.phase is Finished,
            this_value.spec_is_object() && (method is ToArray || r.0.callback is Function)
                ==> r.1 == IteratorAction::GetIteratorDirect(this_value) && r.0.phase is AwaitingIterator,
    {
        let callback = arguments.get(0);
        let accumulator = if matches!(method, IteratorMethod::Reduce) && arguments.len() > 1 {
            // 7.a. Let accumulator be initialValue.
            Some(arguments.get(1))
        } else {
            None
        };
        let mut helper = IteratorHelper {
            method,
            callback,
            counter: 0,
            accumulator,
            current: Value::Undefined,
            items: Vec::new(),
            phase: HelperPhase::Finished,
        };
        // 1. Let O be the this value.
        // 2. If O is not an Object, throw a TypeError exception.
        if !this_value.is_object() {
            return (helper, IteratorAction::Throw(JsError::Exception(ExceptionType::TypeError)));
        }
        // 3. Let iterated be the Iterator Record { [[Iterator]]: O, [[NextMethod]]: undefined, [[Done]]: false }.
        // 4. If IsCallable(predicate) is false, then
        if !matches!(method, IteratorMethod::ToArray) && !callback.is_callable() {
            // a. Let error be ThrowCompletion(a newly created TypeError object).
            // b. Return ? IteratorClose(iterated, error).
            return (helper, IteratorAction::Close(Completion::Throw(JsError::Exception(ExceptionType::TypeError))));
        }
        // 5. Set iterated to ? GetIteratorDirect(O).
        helper.phase = HelperPhase::AwaitingIterator;
        (helper, IteratorAction::GetIteratorDirect(this_value))
    }

    /// The outcome of GetIteratorDirect: an error is thrown; an iterator
    /// whose "next" is not callable is a TypeError; otherwise the first
    /// value is read.
    pub fn on_iterator_direct(&mut self, outcome: Result<bool, JsError>) -> (r: IteratorAction)
        requires
            old(self).phase is AwaitingIterator,
        ensures
            final(self).method == old(self).method,
            final(self).callback == old(self).callback,
            final(self).counter == old(self).counter,
            final(self).accumulator == old(self).accumulator,
            final(self).items@ == old(self).items@,
            outcome matches Err(e) ==> r == IteratorAction::Throw(e) && final(self).phase is Finished,
            outcome == Ok::<bool, JsError>(false) ==> r == IteratorAction::Throw(JsError::Exception(ExceptionType::TypeError))
                && final(self).phase is Finished,
            outcome == Ok::<bool, JsError>(true) ==> r == IteratorAction::StepValue && final(self).phase is AwaitingStep,
    {
        match outcome {
            Err(e) => {
                self.phase = HelperPhase::Finished;
                IteratorAction::Throw(e)
            },
            Ok(false) => {
                self.phase = HelperPhase::Finished;
                IteratorAction::Throw(JsError::Exception(ExceptionType::TypeError))
            },
            Ok(true) => {
                self.phase = HelperPhase::AwaitingStep;
                IteratorAction::StepValue
            },
        }
    }

    /// The outcome of IteratorStepValue.
    ///
    /// An error is thrown. Where the iterator is done, every returns true,
    /// some false, find and forEach undefined, reduce its accumulator (a
    /// TypeError where it never had one) and toArray the collected values.
    /// A value is collected by toArray, becomes the accumulator of a reduce
    /// that has none (the counter becomes 1), and is otherwise handed to the
    /// callback.
    pub fn on_step(&mut self, outcome: Result<Option<Value>, JsError>) -> (r: IteratorAction)
        requires
            old(self).phase is AwaitingStep,
        ensures
            final(self).method == old(self).method,
            final(self).callback == old(self).callback,
            outcome matches Err(e) ==> r == IteratorAction::Throw(e) && final(self).phase is Finished
                && final(self).counter == old(self).counter && final(self).items@ == old(self).items@
                && final(self).accumulator == old(self).accumulator,
            outcome == Ok::<Option<Value>, JsError>(None) ==> {
                &&& final(self).phase is Finished
                &&& final(self).counter == old(self).counter
                &&& final(self).items@ == old(self).items@
                &&& final(self).accumulator == old(self).accumulator
                &&& if old(self).method is ToArray {
                    r == IteratorAction::ReturnItems
                } else if old(self).method is Reduce && old(self).accumulator is None {
                    r == IteratorAction::Throw(JsError::Exception(ExceptionType::TypeError))
                } else {
                    r == IteratorAction::Return(spec_done_value(old(self).method, old(self).accumulator))
                }
            },
            outcome matches Ok(Some(v)) ==> {
                if old(self).method is ToArray {
                    &&& r == IteratorAction::StepValue
                    &&& final(self).phase is AwaitingStep
                    &&& final(self).items@ == old(self).items@.push(v)
                    &&& final(self).counter == old(self).counter
                } else if old(self).method is Reduce && old(self).accumulator is None {
                    &&& r == IteratorAction::StepValue
                    &&& final(self).phase is AwaitingStep
                    &&& final(self).accumulator == Some(v)
                    &&& final(self).counter == 1
                    &&& final(self).items@ == old(self).items@
                } else {
                    &&& r == (IteratorAction::Call {
                        accumulator: if old(self).method is Reduce { old(self).accumulator } else { None },
                        value: v,
                        counter: old(self).counter,
                    })
                    &&& final(self).phase is AwaitingCall
                    &&& final(self).current == v
                    &&& final(self).counter == old(self).counter
                    &&& final(self).accumulator == old(self).accumulator
                    &&& final(self).items@ == old(self).items@
                }
            },
    {
        // a. Let value be ? IteratorStepValue(iterated).
        let value = match outcome {
            Err(e) => {
                self.phase = HelperPhase::Finished;
                return IteratorAction::Throw(e);
            },
            Ok(value) => value,
        };
        match value {
            // b. If value is done, return ...
            None => {
                self.phase = HelperPhase::Finished;
                match self.method {
                    // return true.
                    IteratorMethod::Every => IteratorAction::Return(Value::Boolean(true)),
                    // return false.
                    IteratorMethod::Any => IteratorAction::Return(Value::Boolean(false)),
                    // return undefined.
                    IteratorMethod::Find | IteratorMethod::ForEach => IteratorAction::Return(Value::Undefined),
                    // return accumulator.
                    IteratorMethod::Reduce => match self.accumulator {
                        Some(a) => IteratorAction::Return(a),
                        // 6.b. If accumulator is done, throw a TypeError exception.
                        None => IteratorAction::Throw(JsError::Exception(ExceptionType::TypeError)),
                    },
                    // return CreateArrayFromList(items).
                    IteratorMethod::ToArray => IteratorAction::ReturnItems,
                }
            },
            Some(v) => {
                match self.method {
                    IteratorMethod::ToArray => {
                        // c. Append value to items.
                        self.items.push(v);
                        IteratorAction::StepValue
                    },
                    IteratorMethod::Reduce if self.accumulator.is_none() => {
                        // 6.a. Let accumulator be ? IteratorStepValue(iterated).
                        self.accumulator = Some(v);
                        // 6.c. Let counter be 1.
                        self.counter = 1;
                        IteratorAction::StepValue
                    },
                    _ => {
                        // c. Let result be Completion(Call(callback, undefined,
                        //    « accumulator?, value, 𝔽(counter) »)).
                        self.current = v;
                        self.phase = HelperPhase::AwaitingCall;
                        let accumulator = if matches!(self.method, IteratorMethod::Reduce) { self.accumulator } else { None };
                        IteratorAction::Call { accumulator, value: v, counter: self.counter }
                    },
                }
            },
        }
    }

    /// The outcome of the callback call.
    ///
    /// An error closes the iterator with it (IfAbruptCloseIterator). A
    /// falsy result of every's predicate closes it with false, a truthy
    /// one of find's with the value found and of some's with true; reduce
    /// takes the result as its accumulator. Otherwise the counter goes up
    /// and the next value is read.
    pub fn on_call(&mut self, outcome: Result<Value, JsError>) -> (r: IteratorAction)
        requires
            old(self).phase is AwaitingCall,
            old(self).counter < u64::MAX,
        ensures
            final(self).method == old(self).method,
            final(self).callback == old(self).callback,
            final(self).current == old(self).current,
            final(self).items@ == old(self).items@,
            outcome matches Err(e) ==> r == IteratorAction::Close(Completion::Throw(e)) && final(self).phase is Finished
                && final(self).counter == old(self).counter && final(self).accumulator == old(self).accumulator,
            outcome matches Ok(v) && spec_decisive(old(self).method, v) ==> {
                &&& r == IteratorAction::Close(Completion::Normal(spec_decided_value(old(self).method, old(self).current)))
                &&& final(self).phase is Finished
                &&& final(self).counter == old(self).counter
                &&& final(self).accumulator == old(self).accumulator
            },
            outcome matches Ok(v) && !spec_decisive(old(self).method, v) ==> {
                &&& r == IteratorAction::StepValue
                &&& final(self).phase is AwaitingStep
                &&& final(self).counter == old(self).counter + 1
                &&& final(self).accumulator == if old(self).method is Reduce { Some(outcome->Ok_0) } else { old(self).accumulator }
            },
    {
        // d. IfAbruptCloseIterator(result, iterated).
        let result = match outcome {
            Err(e) => {
                self.phase = HelperPhase::Finished;
                return IteratorAction::Close(Completion::Throw(e));
            },
            Ok(result) => result,
        };
        match self.method {
            IteratorMethod::Every => {
                // e. If ToBoolean(result) is false, return ? IteratorClose(iterated, NormalCompletion(false)).
                if !to_boolean(result) {
                    self.phase = HelperPhase::Finished;
                    return IteratorAction::Close(Completion::Normal(Value::Boolean(false)));
                }
            },
            IteratorMethod::Find => {
                // e. If ToBoolean(result) is true, return ? IteratorClose(iterated, NormalCompletion(value)).
                if to_boolean(result) {
                    self.phase = HelperPhase::Finished;
                    return IteratorAction::Close(Completion::Normal(self.current));
                }
            },
            IteratorMethod::Any => {
                // e. If ToBoolean(result) is true, return ? IteratorClose(iterated, NormalCompletion(true)).
                if to_boolean(result) {
                    self.phase = HelperPhase::Finished;
                    return IteratorAction::Close(Completion::Normal(Value::Boolean(true)));
                }
            },
            IteratorMethod::Reduce => {
                // e. Set accumulator to result.
                self.accumulator = Some(result);
            },
            _ => {},
        }
        // f. Set counter to counter + 1.
        self.counter = self.counter + 1;
        self.phase = HelperPhase::AwaitingStep;
        IteratorAction::StepValue
    }

    /// The values collected by toArray.
    pub fn items(&self) -> (r: &Vec<Value>)
        ensures
            r@ == self.items@,
    {
        &self.items
    }
}

/// ### [27.1.4.8 Iterator.prototype \[ %Symbol.iterator% \] ( )](https://tc39.es/ecma262/#sec-%iterator.prototype%-%symbol.iterator%)
///
/// Returns the this value.
pub fn iterator_prototype_iterator(this_value: Value) -> (r: Value)
    ensures
        r == this_value,
{
    this_value
}


/// The predicate methods decide by the truthiness of the callback's result:
/// `find` and `some` stop at the first result that is not falsy, and
/// `every` at the first that is; the falsy results are exactly undefined,
/// null, false, 0 and the empty String. `find` stops with the value it was
/// called on, `some` with true and `every` with false; `forEach`, `reduce`
/// and `toArray` never stop on a result.
pub proof fn lemma_predicate_decides_by_truthiness(result: Value, current: Value)
    ensures
        ({
            let falsy = result is Undefined || result is Null || result == Value::Boolean(false)
                || result == Value::Integer(0) || result == Value::String(EMPTY_STRING);
            &&& spec_decisive(IteratorMethod::Find, result) <==> !falsy
            &&& spec_decisive(IteratorMethod::Any, result) <==> !falsy
            &&& spec_decisive(IteratorMethod::Every, result) <==> falsy
        }),
        !spec_decisive(IteratorMethod::ForEach, result),
        !spec_decisive(IteratorMethod::Reduce, result),
        !spec_decisive(IteratorMethod::ToArray, result),
        spec_decided_value(IteratorMethod::Find, current) == current,
        spec_decided_value(IteratorMethod::Any, current) == Value::Boolean(true),
        spec_decided_value(IteratorMethod::Every, current) == Value::Boolean(false),
{
}

} // verus!
