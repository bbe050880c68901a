use nova_vm::array::{Array, ArrayHeap};
use nova_vm::promise::{
    Promise, PromiseCapability, PromiseHeap, PromiseJob, PromiseReaction, PromiseReactionHandler,
    PromiseReactionType, PromiseResolvingFunctionType, PromiseState, ResolveStep,
};
use nova_vm::promise_constructor::{
    get_promise_resolve, promise_all, promise_all_settled, promise_constructor,
    promise_constructor_on_executor, promise_constructor_resolve, promise_get_species,
    promise_reject, promise_resolve, promise_try, promise_try_on_status, promise_with_resolvers,
    throw_promise_subclassing_not_supported, GroupAction, GroupPhase,
};
use nova_vm::promise_group::{GroupOutcome, PromiseGroup, PromiseGroupHeap, PromiseGroupType};
use nova_vm::value::{ArgumentsList, ExceptionType, JsError, Value};

const PROMISE: Value = Value::Function(100);

fn fulfilled_with(heap: &PromiseHeap, p: Promise) -> Option<Value> {
    match &heap.promises[p.0 as usize].promise_state {
        PromiseState::Fulfilled { promise_result } => Some(*promise_result),
        _ => None,
    }
}

fn rejected_with(heap: &PromiseHeap, p: Promise) -> Option<JsError> {
    match &heap.promises[p.0 as usize].promise_state {
        PromiseState::Rejected { reason, .. } => Some(*reason),
        _ => None,
    }
}

fn is_pending(heap: &PromiseHeap, p: Promise) -> bool {
    matches!(heap.promises[p.0 as usize].promise_state, PromiseState::Pending { .. })
}

#[test]
fn subclassing_error_is_an_error() {
    assert_eq!(throw_promise_subclassing_not_supported(), JsError::Exception(ExceptionType::Error));
}

#[test]
fn constructor_needs_new_target_and_callable_executor() {
    let mut heap = PromiseHeap::new();
    assert_eq!(
        promise_constructor(&mut heap, None, Value::Function(1), PROMISE),
        Err(JsError::Exception(ExceptionType::TypeError))
    );
    assert_eq!(
        promise_constructor(&mut heap, Some(Value::Function(7)), Value::Function(1), PROMISE),
        Err(JsError::Exception(ExceptionType::Error))
    );
    assert_eq!(
        promise_constructor(&mut heap, Some(PROMISE), Value::Integer(1), PROMISE),
        Err(JsError::Exception(ExceptionType::TypeError))
    );
    assert!(heap.promises.is_empty());
}

#[test]
fn constructor_calls_executor_with_resolving_functions() {
    let mut heap = PromiseHeap::new();
    let call = promise_constructor(&mut heap, Some(PROMISE), Value::Function(3), PROMISE).unwrap();
    assert_eq!(call.executor, 3);
    assert_eq!(call.promise, Promise(0));
    let capability = PromiseCapability { promise: Promise(0), must_be_unresolved: true };
    assert_eq!(call.resolve.promise_capability, capability);
    assert_eq!(call.reject.promise_capability, capability);
    assert_eq!(call.resolve.resolve_type, PromiseResolvingFunctionType::Resolve);
    assert_eq!(call.reject.resolve_type, PromiseResolvingFunctionType::Reject);
    assert!(is_pending(&heap, call.promise));
    // The executor returned normally: the promise stays as it is.
    assert_eq!(promise_constructor_on_executor(&mut heap, call.promise, Ok(Value::Undefined)), Value::Promise(0));
    assert!(is_pending(&heap, call.promise));
}

#[test]
fn executor_throw_rejects_the_promise() {
    let mut heap = PromiseHeap::new();
    let call = promise_constructor(&mut heap, Some(PROMISE), Value::Function(3), PROMISE).unwrap();
    let thrown = JsError::Thrown(Value::Integer(13));
    assert_eq!(promise_constructor_on_executor(&mut heap, call.promise, Err(thrown)), Value::Promise(0));
    assert_eq!(rejected_with(&heap, call.promise), Some(thrown));
}

#[test]
fn executor_throw_after_resolve_is_ignored() {
    let mut heap = PromiseHeap::new();
    let call = promise_constructor(&mut heap, Some(PROMISE), Value::Function(3), PROMISE).unwrap();
    let step = call.resolve.promise_capability.resolve(&mut heap, Value::Integer(1));
    assert_eq!(step, ResolveStep::Done);
    promise_constructor_on_executor(&mut heap, call.promise, Err(JsError::Thrown(Value::Null)));
    assert_eq!(fulfilled_with(&heap, call.promise), Some(Value::Integer(1)));
}

#[test]
fn reject_makes_a_rejected_promise() {
    let mut heap = PromiseHeap::new();
    assert_eq!(
        promise_reject(&mut heap, Value::Function(5), Value::Integer(1), PROMISE),
        Err(JsError::Exception(ExceptionType::Error))
    );
    let r = promise_reject(&mut heap, PROMISE, Value::Integer(1), PROMISE);
    assert_eq!(r, Ok(Value::Promise(0)));
    assert_eq!(rejected_with(&heap, Promise(0)), Some(JsError::Thrown(Value::Integer(1))));
}

#[test]
fn resolve_returns_promises_as_they_are() {
    let mut heap = PromiseHeap::new();
    let c = PromiseCapability::new(&mut heap);
    assert_eq!(promise_resolve(&mut heap, Value::Promise(c.promise.0)), (c.promise, ResolveStep::Done));
    assert_eq!(heap.promises.len(), 1);
    let (p, step) = promise_resolve(&mut heap, Value::Integer(2));
    assert_eq!((p, step), (Promise(1), ResolveStep::Done));
    assert_eq!(fulfilled_with(&heap, p), Some(Value::Integer(2)));
    let (p, step) = promise_resolve(&mut heap, Value::Object(4));
    assert_eq!((p, step), (Promise(2), ResolveStep::GetThen(Value::Object(4))));
}

#[test]
fn promise_resolve_static_checks_this() {
    let mut heap = PromiseHeap::new();
    assert_eq!(
        promise_constructor_resolve(&mut heap, Value::Undefined, Value::Integer(1), PROMISE),
        Err(JsError::Exception(ExceptionType::Error))
    );
    assert_eq!(
        promise_constructor_resolve(&mut heap, PROMISE, Value::Boolean(false), PROMISE),
        Ok((Promise(0), ResolveStep::Done))
    );
    assert_eq!(fulfilled_with(&heap, Promise(0)), Some(Value::Boolean(false)));
}

#[test]
fn try_splits_callback_and_arguments() {
    let args = ArgumentsList { values: vec![Value::Function(1), Value::Integer(2), Value::Integer(3)] };
    assert_eq!(promise_try(PROMISE, false, PROMISE, &args).err(), Some(JsError::Exception(ExceptionType::TypeError)));
    assert_eq!(promise_try(Value::Function(2), true, PROMISE, &args).err(), Some(JsError::Exception(ExceptionType::Error)));
    let call = promise_try(PROMISE, true, PROMISE, &args).ok().unwrap();
    assert_eq!(call.callback, Value::Function(1));
    assert_eq!(call.arguments, vec![Value::Integer(2), Value::Integer(3)]);
    let call = promise_try(PROMISE, true, PROMISE, &ArgumentsList { values: vec![] }).ok().unwrap();
    assert_eq!(call.callback, Value::Undefined);
    assert!(call.arguments.is_empty());
}

#[test]
fn try_status_settles_a_new_promise() {
    let mut heap = PromiseHeap::new();
    let thrown = JsError::Thrown(Value::Integer(9));
    assert_eq!(promise_try_on_status(&mut heap, Err(thrown)), (Value::Promise(0), ResolveStep::Done));
    assert_eq!(rejected_with(&heap, Promise(0)), Some(thrown));
    assert_eq!(promise_try_on_status(&mut heap, Ok(Value::Integer(4))), (Value::Promise(1), ResolveStep::Done));
    assert_eq!(fulfilled_with(&heap, Promise(1)), Some(Value::Integer(4)));
    assert_eq!(promise_try_on_status(&mut heap, Ok(Value::Promise(0))), (Value::Promise(0), ResolveStep::Done));
    assert_eq!(heap.promises.len(), 2);
}

#[test]
fn with_resolvers_hands_out_a_pending_promise() {
    let mut heap = PromiseHeap::new();
    assert_eq!(
        promise_with_resolvers(&mut heap, PROMISE, false, PROMISE).err(),
        Some(JsError::Exception(ExceptionType::TypeError))
    );
    assert_eq!(
        promise_with_resolvers(&mut heap, Value::Function(3), true, PROMISE).err(),
        Some(JsError::Exception(ExceptionType::Error))
    );
    let w = promise_with_resolvers(&mut heap, PROMISE, true, PROMISE).unwrap();
    assert_eq!(w.promise, Promise(0));
    assert!(is_pending(&heap, w.promise));
    assert_eq!(w.resolve.resolve_type, PromiseResolvingFunctionType::Resolve);
    assert_eq!(w.reject.resolve_type, PromiseResolvingFunctionType::Reject);
    assert_eq!(w.reject.promise_capability, PromiseCapability { promise: Promise(0), must_be_unresolved: true });
}

#[test]
fn species_is_this_value() {
    assert_eq!(promise_get_species(Value::Integer(3)), Value::Integer(3));
}

#[test]
fn get_promise_resolve_needs_a_function() {
    assert_eq!(get_promise_resolve(Ok(Value::Function(4))), Ok(4));
    assert_eq!(get_promise_resolve(Ok(Value::Null)), Err(JsError::Exception(ExceptionType::TypeError)));
    let e = JsError::Thrown(Value::Integer(1));
    assert_eq!(get_promise_resolve(Err(e)), Err(e));
}

#[test]
fn all_checks_this_value() {
    let mut heap = PromiseHeap::new();
    let args = ArgumentsList { values: vec![Value::Array(0)] };
    assert_eq!(
        promise_all(&mut heap, Value::Function(1), true, PROMISE, &args).err(),
        Some(JsError::Exception(ExceptionType::Error))
    );
    assert_eq!(
        promise_all_settled(&mut heap, PROMISE, false, PROMISE, &args).err(),
        Some(JsError::Exception(ExceptionType::TypeError))
    );
    assert!(heap.promises.is_empty());
}

#[test]
fn all_rejects_when_resolve_is_not_callable() {
    let mut heap = PromiseHeap::new();
    let args = ArgumentsList { values: vec![Value::Array(0)] };
    let (mut run, action) = promise_all(&mut heap, PROMISE, true, PROMISE, &args).unwrap();
    assert_eq!(action, GroupAction::GetResolve(PROMISE));
    let action = run.on_promise_resolve(&mut heap, Ok(Value::Integer(1)));
    assert_eq!(action, GroupAction::ReturnPromise { promise: run.promise, step: ResolveStep::Done });
    assert_eq!(run.phase, GroupPhase::Finished);
    assert_eq!(rejected_with(&heap, run.promise), Some(JsError::Exception(ExceptionType::TypeError)));
}

#[test]
fn all_closes_the_iterator_on_a_step_error() {
    let mut heap = PromiseHeap::new();
    let mut arrays = ArrayHeap::new();
    let mut groups = PromiseGroupHeap::new();
    let args = ArgumentsList { values: vec![Value::Array(0)] };
    let (mut run, _) = promise_all(&mut heap, PROMISE, true, PROMISE, &args).unwrap();
    assert_eq!(run.on_promise_resolve(&mut heap, Ok(Value::Function(2))), GroupAction::GetIterator(Value::Array(0)));
    assert_eq!(run.on_iterator(&mut heap, &mut arrays, &mut groups, Ok(true), 0), GroupAction::StepValue);
    let e = JsError::Thrown(Value::Integer(5));
    assert_eq!(run.on_step(&mut heap, &mut arrays, &mut groups, Err(e)), GroupAction::CloseIterator(e));
    assert_eq!(run.phase, GroupPhase::AwaitingClose);
    let closed = run.on_close(&mut heap, e);
    assert_eq!(closed, GroupAction::ReturnPromise { promise: run.promise, step: ResolveStep::Done });
    assert_eq!(rejected_with(&heap, run.promise), Some(e));
}

#[test]
fn all_with_uncallable_next_closes_with_type_error() {
    let mut heap = PromiseHeap::new();
    let mut arrays = ArrayHeap::new();
    let mut groups = PromiseGroupHeap::new();
    let args = ArgumentsList { values: vec![Value::Object(1)] };
    let (mut run, _) = promise_all(&mut heap, PROMISE, true, PROMISE, &args).unwrap();
    run.on_promise_resolve(&mut heap, Ok(Value::Function(2)));
    let action = run.on_iterator(&mut heap, &mut arrays, &mut groups, Ok(false), 0);
    assert_eq!(action, GroupAction::CloseIterator(JsError::Exception(ExceptionType::TypeError)));
    assert!(arrays.arrays.is_empty());
    assert!(groups.records.is_empty());
}

#[test]
fn all_of_empty_iterable_fulfills_with_empty_array() {
    let mut heap = PromiseHeap::new();
    let mut arrays = ArrayHeap::new();
    let mut groups = PromiseGroupHeap::new();
    let args = ArgumentsList { values: vec![Value::Array(0)] };
    let (mut run, _) = promise_all(&mut heap, PROMISE, true, PROMISE, &args).unwrap();
    run.on_promise_resolve(&mut heap, Ok(Value::Function(2)));
    run.on_iterator(&mut heap, &mut arrays, &mut groups, Ok(true), 4);
    let action = run.on_step(&mut heap, &mut arrays, &mut groups, Ok(None));
    let array = run.result_array;
    assert_eq!(array, Array(0));
    // An Array value is an object: the engine looks up its "then".
    assert_eq!(action, GroupAction::ReturnPromise { promise: run.promise, step: ResolveStep::GetThen(Value::Array(0)) });
    assert!(run.iterator_done);
    assert_eq!(groups.records[0].remaining_elements_count, 0);
}

#[test]
fn all_runs_to_completion() {
    let mut heap = PromiseHeap::new();
    let mut arrays = ArrayHeap::new();
    let mut groups = PromiseGroupHeap::new();
    let existing = PromiseCapability::new(&mut heap);
    let args = ArgumentsList { values: vec![Value::Array(7)] };
    let (mut run, _) = promise_all(&mut heap, PROMISE, true, PROMISE, &args).unwrap();
    assert_eq!(run.promise, Promise(1));
    run.on_promise_resolve(&mut heap, Ok(Value::Function(2)));
    run.on_iterator(&mut heap, &mut arrays, &mut groups, Ok(true), 2);
    let group = run.group;
    assert_eq!(group, PromiseGroup(0));

    // First element: a plain value, resolved to a fulfilled promise.
    let action = run.on_step(&mut heap, &mut arrays, &mut groups, Ok(Some(Value::Integer(5))));
    assert_eq!(
        action,
        GroupAction::CallResolve { promise_resolve: 2, constructor: PROMISE, next: Value::Integer(5) }
    );
    assert_eq!(arrays.arrays[0].elements.len(), 1);
    assert_eq!(run.on_next_promise(&mut heap, &mut groups, Ok(Value::Integer(5))), GroupAction::StepValue);
    assert_eq!(heap.promises.len(), 3);
    assert_eq!(fulfilled_with(&heap, Promise(2)), Some(Value::Integer(5)));
    let handler0 = PromiseReactionHandler::PromiseGroup { promise_group: 0, index: 0 };
    assert_eq!(heap.reactions[0].handler, handler0);
    assert_eq!(
        heap.jobs,
        vec![PromiseJob::Reaction {
            reaction: PromiseReaction(0),
            argument: nova_vm::promise::Settlement::Fulfilled(Value::Integer(5)),
        }]
    );

    // Second element: a pending promise, which gets the group's reactions.
    run.on_step(&mut heap, &mut arrays, &mut groups, Ok(Some(Value::Promise(existing.promise.0))));
    run.on_next_promise(&mut heap, &mut groups, Ok(Value::Promise(existing.promise.0)));
    assert_eq!(run.index, 2);
    assert_eq!(heap.reactions[2].handler, PromiseReactionHandler::PromiseGroup { promise_group: 0, index: 1 });
    assert_eq!(groups.records[0].remaining_elements_count, 3);

    // The iterator is done: two elements still remain.
    let action = run.on_step(&mut heap, &mut arrays, &mut groups, Ok(None));
    assert_eq!(action, GroupAction::ReturnPromise { promise: Promise(1), step: ResolveStep::Done });
    assert_eq!(groups.records[0].remaining_elements_count, 2);
    assert!(is_pending(&heap, run.promise));

    // The elements settle, the last one resolves the promise with the array.
    let r = group.settle(&mut groups, &mut arrays, &mut heap, PromiseReactionType::Fulfill, 1, Value::Integer(6));
    assert_eq!(r, GroupOutcome::Done);
    assert!(is_pending(&heap, run.promise));
    let r = group.settle(&mut groups, &mut arrays, &mut heap, PromiseReactionType::Fulfill, 0, Value::Integer(5));
    assert!(matches!(r, GroupOutcome::Resolving { step: ResolveStep::GetThen(Value::Array(0)), .. }));
    assert_eq!(arrays.arrays[0].elements.values, vec![Some(Value::Integer(5)), Some(Value::Integer(6))]);
}

#[test]
fn all_settled_starts_a_group_of_its_type() {
    let mut heap = PromiseHeap::new();
    let mut arrays = ArrayHeap::new();
    let mut groups = PromiseGroupHeap::new();
    let args = ArgumentsList { values: vec![] };
    let (mut run, action) = promise_all_settled(&mut heap, PROMISE, true, PROMISE, &args).unwrap();
    assert_eq!(run.iterable, Value::Undefined);
    assert_eq!(action, GroupAction::GetResolve(PROMISE));
    run.on_promise_resolve(&mut heap, Ok(Value::Function(2)));
    run.on_iterator(&mut heap, &mut arrays, &mut groups, Ok(true), 0);
    assert_eq!(groups.records[0].promise_group_type, PromiseGroupType::AllSettled);
    assert_eq!(groups.records[0].remaining_elements_count, 1);
}

#[test]
fn iterator_error_rejects_the_promise() {
    let mut heap = PromiseHeap::new();
    let mut arrays = ArrayHeap::new();
    let mut groups = PromiseGroupHeap::new();
    let args = ArgumentsList { values: vec![Value::Integer(1)] };
    let (mut run, _) = promise_all(&mut heap, PROMISE, true, PROMISE, &args).unwrap();
    run.on_promise_resolve(&mut heap, Ok(Value::Function(2)));
    let action = run.on_iterator(&mut heap, &mut arrays, &mut groups, Err(JsError::Exception(ExceptionType::TypeError)), 0);
    assert_eq!(action, GroupAction::ReturnPromise { promise: run.promise, step: ResolveStep::Done });
    assert_eq!(rejected_with(&heap, run.promise), Some(JsError::Exception(ExceptionType::TypeError)));
}
