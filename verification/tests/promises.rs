use nova_vm::promise::{
    if_abrupt_reject_promise, trigger_promise_reactions, BuiltinPromiseResolvingFunction, Promise,
    PromiseCapability, PromiseHeap, PromiseHeapData, PromiseJob, PromiseReaction,
    PromiseReactionHandler, PromiseReactionRecord, PromiseReactionType,
    PromiseRejectFunctionHeapData, PromiseRejectionTrackerOperation, PromiseResolvingFunctionHeapData,
    PromiseResolvingFunctionType, PromiseState, RejectionTrackerCall, ResolveStep, Settlement,
    TryGetOutcome,
};
use nova_vm::value::{ExceptionType, JsError, Value};

fn fulfilled_with(heap: &PromiseHeap, p: Promise) -> Option<Value> {
    match &heap.promises[p.0 as usize].promise_state {
        PromiseState::Fulfilled { promise_result } => Some(*promise_result),
        _ => None,
    }
}

fn rejected_with(heap: &PromiseHeap, p: Promise) -> Option<(JsError, bool)> {
    match &heap.promises[p.0 as usize].promise_state {
        PromiseState::Rejected { reason, is_handled } => Some((*reason, *is_handled)),
        _ => None,
    }
}

fn pending_resolved(heap: &PromiseHeap, p: Promise) -> Option<bool> {
    match &heap.promises[p.0 as usize].promise_state {
        PromiseState::Pending { is_resolved, .. } => Some(*is_resolved),
        _ => None,
    }
}

fn add_reaction(heap: &mut PromiseHeap, p: Promise, t: PromiseReactionType) -> PromiseReaction {
    let r = heap.create_reaction(PromiseReactionRecord {
        capability: None,
        reaction_type: t,
        handler: PromiseReactionHandler::JobCallback(9),
    });
    match &mut heap.promises[p.0 as usize].promise_state {
        PromiseState::Pending { fulfill_reactions, reject_reactions, .. } => match t {
            PromiseReactionType::Fulfill => fulfill_reactions.push(r),
            PromiseReactionType::Reject => reject_reactions.push(r),
        },
        _ => panic!("not pending"),
    }
    r
}

#[test]
fn new_capability_is_pending() {
    let mut heap = PromiseHeap::new();
    let c = PromiseCapability::new(&mut heap);
    assert_eq!(c.promise(), Promise(0));
    assert_eq!(pending_resolved(&heap, c.promise), Some(false));
    assert!(!c.is_already_resolved(&heap));
    assert_eq!(Promise(3).get_index(), 3);
}

#[test]
fn resolve_with_non_object_fulfills_and_runs_reactions() {
    let mut heap = PromiseHeap::new();
    let c = PromiseCapability::new(&mut heap);
    let r1 = add_reaction(&mut heap, c.promise, PromiseReactionType::Fulfill);
    let _r2 = add_reaction(&mut heap, c.promise, PromiseReactionType::Reject);
    assert_eq!(c.resolve(&mut heap, Value::Integer(5)), ResolveStep::Done);
    assert_eq!(fulfilled_with(&heap, c.promise), Some(Value::Integer(5)));
    assert_eq!(
        heap.jobs,
        vec![PromiseJob::Reaction { reaction: r1, argument: Settlement::Fulfilled(Value::Integer(5)) }]
    );
    // Resolving again changes nothing.
    assert!(c.is_already_resolved(&heap));
    assert_eq!(c.resolve(&mut heap, Value::Integer(6)), ResolveStep::Done);
    c.reject(&mut heap, JsError::Thrown(Value::Null));
    assert_eq!(fulfilled_with(&heap, c.promise), Some(Value::Integer(5)));
    assert_eq!(heap.jobs.len(), 1);
}

#[test]
fn resolve_with_itself_is_a_type_error() {
    let mut heap = PromiseHeap::new();
    let c = PromiseCapability::new(&mut heap);
    assert_eq!(c.resolve(&mut heap, Value::Promise(0)), ResolveStep::Done);
    assert_eq!(
        rejected_with(&heap, c.promise),
        Some((JsError::Exception(ExceptionType::TypeError), false))
    );
    assert_eq!(
        heap.rejection_tracker,
        vec![RejectionTrackerCall { promise: c.promise, operation: PromiseRejectionTrackerOperation::Reject }]
    );
}

#[test]
fn resolve_with_object_reads_then() {
    let mut heap = PromiseHeap::new();
    let c = PromiseCapability::new(&mut heap);
    let thenable = Value::Object(4);
    assert_eq!(c.resolve(&mut heap, thenable), ResolveStep::GetThen(thenable));
    assert_eq!(pending_resolved(&heap, c.promise), Some(true));
    assert!(c.is_already_resolved(&heap));
    c.resolve_with_then(&mut heap, thenable, Ok(Value::Function(8)));
    assert_eq!(
        heap.jobs,
        vec![PromiseJob::ResolveThenable { promise_to_resolve: c.promise, thenable, then: 8 }]
    );
    assert_eq!(pending_resolved(&heap, c.promise), Some(true));
}

#[test]
fn resolve_with_then_outcomes() {
    let mut heap = PromiseHeap::new();
    let a = PromiseCapability::new(&mut heap);
    a.resolve_with_then(&mut heap, Value::Object(1), Ok(Value::Integer(3)));
    assert_eq!(fulfilled_with(&heap, a.promise), Some(Value::Object(1)));
    let b = PromiseCapability::new(&mut heap);
    add_reaction(&mut heap, b.promise, PromiseReactionType::Reject);
    b.resolve_with_then(&mut heap, Value::Object(1), Err(JsError::Thrown(Value::Integer(2))));
    assert_eq!(rejected_with(&heap, b.promise), Some((JsError::Thrown(Value::Integer(2)), true)));
    // A handled rejection is not tracked.
    assert!(heap.rejection_tracker.is_empty());
}

#[test]
fn try_resolve_outcomes() {
    let mut heap = PromiseHeap::new();
    let a = PromiseCapability::new(&mut heap);
    assert_eq!(a.try_resolve(&mut heap, Value::Object(2), TryGetOutcome::NeedsCall).is_err(), true);
    assert_eq!(pending_resolved(&heap, a.promise), Some(true));
    let b = PromiseCapability::new(&mut heap);
    assert!(b.try_resolve(&mut heap, Value::Object(2), TryGetOutcome::Unset).is_ok());
    assert_eq!(fulfilled_with(&heap, b.promise), Some(Value::Object(2)));
    let c = PromiseCapability::new(&mut heap);
    assert!(c.try_resolve(&mut heap, Value::Object(2), TryGetOutcome::Value(Value::Function(1))).is_ok());
    assert_eq!(
        heap.jobs,
        vec![PromiseJob::ResolveThenable { promise_to_resolve: c.promise, thenable: Value::Object(2), then: 1 }]
    );
    let d = PromiseCapability::new(&mut heap);
    assert!(d.try_resolve(&mut heap, Value::Boolean(true), TryGetOutcome::NeedsCall).is_ok());
    assert_eq!(fulfilled_with(&heap, d.promise), Some(Value::Boolean(true)));
}

#[test]
fn reject_runs_reject_reactions() {
    let mut heap = PromiseHeap::new();
    let c = PromiseCapability::new(&mut heap);
    add_reaction(&mut heap, c.promise, PromiseReactionType::Fulfill);
    let r = add_reaction(&mut heap, c.promise, PromiseReactionType::Reject);
    let reason = JsError::Exception(ExceptionType::RangeError);
    c.reject(&mut heap, reason);
    assert_eq!(rejected_with(&heap, c.promise), Some((reason, true)));
    assert_eq!(heap.jobs, vec![PromiseJob::Reaction { reaction: r, argument: Settlement::Rejected(reason) }]);
}

#[test]
fn capability_that_may_be_resolved_again() {
    let mut heap = PromiseHeap::new();
    let p = heap.create(PromiseHeapData::default());
    let c = PromiseCapability::from_promise(p, false);
    assert_eq!(c.resolve(&mut heap, Value::Object(1)), ResolveStep::GetThen(Value::Object(1)));
    // Not yet settled, and this capability does not count the flag.
    assert!(!c.is_already_resolved(&heap));
    c.internal_fulfill(&mut heap, Value::Integer(1));
    assert!(c.is_already_resolved(&heap));
}

#[test]
fn trigger_reactions_in_order() {
    let mut heap = PromiseHeap::new();
    let reactions = vec![PromiseReaction(2), PromiseReaction(0)];
    trigger_promise_reactions(&mut heap, &reactions, Settlement::Fulfilled(Value::Null));
    assert_eq!(
        heap.jobs,
        vec![
            PromiseJob::Reaction { reaction: PromiseReaction(2), argument: Settlement::Fulfilled(Value::Null) },
            PromiseJob::Reaction { reaction: PromiseReaction(0), argument: Settlement::Fulfilled(Value::Null) },
        ]
    );
    assert_eq!(PromiseReaction(2).get_index(), 2);
}

#[test]
fn if_abrupt_reject_promise_rejects_on_error() {
    let mut heap = PromiseHeap::new();
    let c = PromiseCapability::new(&mut heap);
    assert_eq!(if_abrupt_reject_promise(&mut heap, Ok::<u8, JsError>(3), c), Ok(3));
    assert_eq!(pending_resolved(&heap, c.promise), Some(false));
    let e = JsError::Thrown(Value::Integer(1));
    assert_eq!(if_abrupt_reject_promise(&mut heap, Err::<u8, JsError>(e), c), Err(c.promise));
    assert_eq!(rejected_with(&heap, c.promise), Some((e, false)));
}

#[test]
fn resolving_functions() {
    let mut heap = PromiseHeap::new();
    let c = PromiseCapability::new(&mut heap);
    let resolve = PromiseResolvingFunctionHeapData {
        object_index: None,
        promise_capability: c,
        resolve_type: PromiseResolvingFunctionType::Resolve,
    };
    let reject = PromiseResolvingFunctionHeapData { resolve_type: PromiseResolvingFunctionType::Reject, ..resolve };
    assert_eq!(BuiltinPromiseResolvingFunction(0).get_length(), 1);
    assert_eq!(BuiltinPromiseResolvingFunction::function_call(&reject, &mut heap, Value::Integer(7)), ResolveStep::Done);
    assert_eq!(rejected_with(&heap, c.promise), Some((JsError::Thrown(Value::Integer(7)), false)));
    // The resolve function of the same capability now does nothing.
    assert_eq!(BuiltinPromiseResolvingFunction::function_call(&resolve, &mut heap, Value::Integer(1)), ResolveStep::Done);
    assert_eq!(rejected_with(&heap, c.promise), Some((JsError::Thrown(Value::Integer(7)), false)));
}

#[test]
fn reject_function_with_own_flag() {
    let mut heap = PromiseHeap::new();
    let p = heap.create(PromiseHeapData::default());
    let mut f = PromiseRejectFunctionHeapData { promise: p, already_resolved: false, object_index: None };
    f.call(&mut heap, Value::Integer(3));
    assert!(f.already_resolved);
    assert_eq!(rejected_with(&heap, p), Some((JsError::Thrown(Value::Integer(3)), false)));
    f.call(&mut heap, Value::Integer(4));
    assert_eq!(rejected_with(&heap, p), Some((JsError::Thrown(Value::Integer(3)), false)));
    assert_eq!(heap.rejection_tracker.len(), 1);
}
