use nova_vm::promise::{
    Promise, PromiseCapability, PromiseHeap, PromiseHeapData, PromiseJob, PromiseReaction,
    PromiseReactionHandler, PromiseReactionRecord, PromiseReactionType,
    PromiseRejectionTrackerOperation, PromiseResolvingFunctionType, PromiseState,
    RejectionTrackerCall, ResolveStep, Settlement,
};
use nova_vm::promise_jobs::{
    inner_promise_then, new_promise_reaction_job, new_promise_resolve_thenable_job,
    perform_promise_then, promise_prototype_catch, promise_prototype_then,
    promise_reaction_job_run, promise_resolve_thenable_job_on_call,
    promise_resolve_thenable_job_run, reaction_job_on_handler_result, ReactionJobAction,
};
use nova_vm::value::{ArgumentsList, ExceptionType, JsError, Value};

fn settled_promise(heap: &mut PromiseHeap, state: PromiseState) -> Promise {
    heap.create(PromiseHeapData { object_index: None, promise_state: state })
}

fn fulfilled_with(heap: &PromiseHeap, p: Promise) -> Option<Value> {
    match &heap.promises[p.0 as usize].promise_state {
        PromiseState::Fulfilled { promise_result } => Some(*promise_result),
        _ => None,
    }
}

fn rejected_with(heap: &PromiseHeap, p: Promise) -> Option<(JsError, bool)> {
    match &heap.promises[p.0 as usize].promise_state {
        PromiseState::Rejected { reason, is_handled } => Some((*reason, *is_handled)),
        _ => None,
    }
}

fn pending_reactions(heap: &PromiseHeap, p: Promise) -> Option<(Vec<PromiseReaction>, Vec<PromiseReaction>)> {
    match &heap.promises[p.0 as usize].promise_state {
        PromiseState::Pending { fulfill_reactions, reject_reactions, .. } => {
            Some((fulfill_reactions.clone(), reject_reactions.clone()))
        }
        _ => None,
    }
}

#[test]
fn then_on_pending_promise_lists_both_reactions() {
    let mut heap = PromiseHeap::new();
    let c = PromiseCapability::new(&mut heap);
    let args = ArgumentsList { values: vec![Value::Function(5), Value::Integer(1)] };
    let r = promise_prototype_then(&mut heap, Value::Promise(c.promise.0), &args);
    assert_eq!(r, Ok(Value::Promise(1)));
    let derived = PromiseCapability { promise: Promise(1), must_be_unresolved: true };
    assert_eq!(heap.reactions.len(), 2);
    assert_eq!(
        heap.reactions[0],
        PromiseReactionRecord {
            capability: Some(derived),
            reaction_type: PromiseReactionType::Fulfill,
            handler: PromiseReactionHandler::JobCallback(5),
        }
    );
    assert_eq!(
        heap.reactions[1],
        PromiseReactionRecord {
            capability: Some(derived),
            reaction_type: PromiseReactionType::Reject,
            handler: PromiseReactionHandler::Empty,
        }
    );
    assert_eq!(
        pending_reactions(&heap, c.promise),
        Some((vec![PromiseReaction(0)], vec![PromiseReaction(1)]))
    );
    assert!(heap.jobs.is_empty());
}

#[test]
fn then_on_non_promise_is_type_error() {
    let mut heap = PromiseHeap::new();
    let args = ArgumentsList { values: vec![] };
    let r = promise_prototype_then(&mut heap, Value::Integer(3), &args);
    assert_eq!(r, Err(JsError::Exception(ExceptionType::TypeError)));
    assert!(heap.promises.is_empty());
    assert!(heap.reactions.is_empty());
}

#[test]
fn then_on_fulfilled_promise_enqueues_fulfill_job() {
    let mut heap = PromiseHeap::new();
    let p = settled_promise(&mut heap, PromiseState::Fulfilled { promise_result: Value::Integer(7) });
    perform_promise_then(&mut heap, p, Value::Function(2), Value::Function(3), None);
    assert_eq!(heap.jobs.len(), 1);
    assert_eq!(
        heap.jobs[0],
        PromiseJob::Reaction { reaction: PromiseReaction(0), argument: Settlement::Fulfilled(Value::Integer(7)) }
    );
    assert_eq!(fulfilled_with(&heap, p), Some(Value::Integer(7)));
    assert!(heap.rejection_tracker.is_empty());
}

#[test]
fn then_on_unhandled_rejection_marks_it_handled() {
    let mut heap = PromiseHeap::new();
    let reason = JsError::Thrown(Value::Integer(4));
    let p = settled_promise(&mut heap, PromiseState::Rejected { reason, is_handled: false });
    inner_promise_then(&mut heap, p, PromiseReactionHandler::Empty, PromiseReactionHandler::Empty, None);
    assert_eq!(rejected_with(&heap, p), Some((reason, true)));
    assert_eq!(
        heap.rejection_tracker,
        vec![RejectionTrackerCall { promise: p, operation: PromiseRejectionTrackerOperation::Handle }]
    );
    assert_eq!(
        heap.jobs,
        vec![PromiseJob::Reaction { reaction: PromiseReaction(1), argument: Settlement::Rejected(reason) }]
    );
    // A second then does not tell the tracker again.
    inner_promise_then(&mut heap, p, PromiseReactionHandler::Empty, PromiseReactionHandler::Empty, None);
    assert_eq!(heap.rejection_tracker.len(), 1);
    assert_eq!(heap.jobs.len(), 2);
}

#[test]
fn catch_invokes_then_with_undefined_first() {
    let args = ArgumentsList { values: vec![Value::Function(8)] };
    let call = promise_prototype_catch(Value::Promise(2), &args);
    assert_eq!(call.target, Value::Promise(2));
    assert_eq!(call.arguments, vec![Value::Undefined, Value::Function(8)]);
    let call = promise_prototype_catch(Value::Null, &ArgumentsList { values: vec![] });
    assert_eq!(call.arguments, vec![Value::Undefined, Value::Undefined]);
}

#[test]
fn empty_handler_passes_fulfillment_on() {
    let mut heap = PromiseHeap::new();
    let c = PromiseCapability::new(&mut heap);
    let reaction = heap.create_reaction(PromiseReactionRecord {
        capability: Some(c),
        reaction_type: PromiseReactionType::Fulfill,
        handler: PromiseReactionHandler::Empty,
    });
    let r = promise_reaction_job_run(&mut heap, reaction, Settlement::Fulfilled(Value::Integer(3)));
    assert_eq!(r, ReactionJobAction::Settled { capability: c, step: ResolveStep::Done });
    assert_eq!(fulfilled_with(&heap, c.promise), Some(Value::Integer(3)));
}

#[test]
fn empty_handler_passes_rejection_on() {
    let mut heap = PromiseHeap::new();
    let c = PromiseCapability::new(&mut heap);
    let reaction = heap.create_reaction(PromiseReactionRecord {
        capability: Some(c),
        reaction_type: PromiseReactionType::Reject,
        handler: PromiseReactionHandler::Empty,
    });
    let reason = JsError::Exception(ExceptionType::RangeError);
    let r = promise_reaction_job_run(&mut heap, reaction, Settlement::Rejected(reason));
    assert_eq!(r, ReactionJobAction::Settled { capability: c, step: ResolveStep::Done });
    assert_eq!(rejected_with(&heap, c.promise), Some((reason, false)));
}

#[test]
fn empty_handler_with_object_asks_for_then() {
    let mut heap = PromiseHeap::new();
    let c = PromiseCapability::new(&mut heap);
    let reaction = heap.create_reaction(PromiseReactionRecord {
        capability: Some(c),
        reaction_type: PromiseReactionType::Fulfill,
        handler: PromiseReactionHandler::Empty,
    });
    let r = promise_reaction_job_run(&mut heap, reaction, Settlement::Fulfilled(Value::Object(9)));
    assert_eq!(r, ReactionJobAction::Settled { capability: c, step: ResolveStep::GetThen(Value::Object(9)) });
}

#[test]
fn job_callback_is_called_and_its_throw_rejects() {
    let mut heap = PromiseHeap::new();
    let c = PromiseCapability::new(&mut heap);
    let reaction = heap.create_reaction(PromiseReactionRecord {
        capability: Some(c),
        reaction_type: PromiseReactionType::Fulfill,
        handler: PromiseReactionHandler::JobCallback(6),
    });
    let argument = Settlement::Fulfilled(Value::Integer(1));
    let r = promise_reaction_job_run(&mut heap, reaction, argument);
    assert_eq!(r, ReactionJobAction::CallHandler { callback: 6, argument, capability: c });
    assert!(heap.jobs.is_empty());
    let thrown = JsError::Thrown(Value::Integer(2));
    let step = reaction_job_on_handler_result(&mut heap, c, Err(thrown));
    assert_eq!(step, ResolveStep::Done);
    assert_eq!(rejected_with(&heap, c.promise), Some((thrown, false)));
}

#[test]
fn job_callback_result_fulfills() {
    let mut heap = PromiseHeap::new();
    let c = PromiseCapability::new(&mut heap);
    let step = reaction_job_on_handler_result(&mut heap, c, Ok(Value::Boolean(true)));
    assert_eq!(step, ResolveStep::Done);
    assert_eq!(fulfilled_with(&heap, c.promise), Some(Value::Boolean(true)));
    // The promise is settled: a second result changes nothing.
    let step = reaction_job_on_handler_result(&mut heap, c, Ok(Value::Integer(0)));
    assert_eq!(step, ResolveStep::Done);
    assert_eq!(fulfilled_with(&heap, c.promise), Some(Value::Boolean(true)));
}

#[test]
fn handler_resolving_with_its_own_promise_is_type_error() {
    let mut heap = PromiseHeap::new();
    let c = PromiseCapability::new(&mut heap);
    let step = reaction_job_on_handler_result(&mut heap, c, Ok(Value::Promise(c.promise.0)));
    assert_eq!(step, ResolveStep::Done);
    assert_eq!(rejected_with(&heap, c.promise), Some((JsError::Exception(ExceptionType::TypeError), false)));
}

#[test]
fn engine_handlers_are_handed_out() {
    let mut heap = PromiseHeap::new();
    let c = PromiseCapability::new(&mut heap);
    let argument = Settlement::Rejected(JsError::Thrown(Value::Null));
    let cases = [
        (
            PromiseReactionHandler::Await(3),
            ReactionJobAction::ResumeAwait { await_reaction: 3, reaction_type: PromiseReactionType::Reject, argument },
        ),
        (
            PromiseReactionHandler::AsyncGenerator(4),
            ReactionJobAction::ResumeAsyncGenerator { async_generator: 4, reaction_type: PromiseReactionType::Reject, argument },
        ),
        (
            PromiseReactionHandler::AsyncFromSyncIterator { done: true },
            ReactionJobAction::CreateIterResult { argument, done: true, capability: c },
        ),
        (
            PromiseReactionHandler::AsyncFromSyncIteratorClose(5),
            ReactionJobAction::CloseIterator { iterator: 5, argument, capability: c },
        ),
        (
            PromiseReactionHandler::PromiseGroup { promise_group: 1, index: 2 },
            ReactionJobAction::SettleGroup { promise_group: 1, index: 2, reaction_type: PromiseReactionType::Reject, argument },
        ),
    ];
    for (handler, expected) in cases {
        let reaction = heap.create_reaction(PromiseReactionRecord {
            capability: Some(c),
            reaction_type: PromiseReactionType::Reject,
            handler,
        });
        assert_eq!(promise_reaction_job_run(&mut heap, reaction, argument), expected);
    }
    assert!(heap.jobs.is_empty());
    assert!(c.promise.0 == 0 && !c.is_already_resolved(&heap));
}

#[test]
fn reaction_job_realms() {
    let mut heap = PromiseHeap::new();
    let callback = heap.create_reaction(PromiseReactionRecord {
        capability: None,
        reaction_type: PromiseReactionType::Fulfill,
        handler: PromiseReactionHandler::JobCallback(1),
    });
    let awaiting = heap.create_reaction(PromiseReactionRecord {
        capability: None,
        reaction_type: PromiseReactionType::Fulfill,
        handler: PromiseReactionHandler::Await(1),
    });
    let empty = heap.create_reaction(PromiseReactionRecord {
        capability: None,
        reaction_type: PromiseReactionType::Fulfill,
        handler: PromiseReactionHandler::Empty,
    });
    let argument = Settlement::Fulfilled(Value::Undefined);
    let (job, realm) = new_promise_reaction_job(&heap, callback, argument, Ok(7), 1, 2);
    assert_eq!(job, PromiseJob::Reaction { reaction: callback, argument });
    assert_eq!(realm, Some(7));
    let (_, realm) = new_promise_reaction_job(&heap, callback, argument, Err(JsError::Exception(ExceptionType::TypeError)), 1, 2);
    assert_eq!(realm, Some(1));
    let (_, realm) = new_promise_reaction_job(&heap, awaiting, argument, Ok(7), 1, 2);
    assert_eq!(realm, Some(2));
    let (_, realm) = new_promise_reaction_job(&heap, empty, argument, Ok(7), 1, 2);
    assert_eq!(realm, None);
}

#[test]
fn thenable_job_calls_then_with_resolving_functions() {
    let call = promise_resolve_thenable_job_run(Promise(3), Value::Object(4), 5);
    assert_eq!(call.then, 5);
    assert_eq!(call.thenable, Value::Object(4));
    assert_eq!(call.resolve.resolve_type, PromiseResolvingFunctionType::Resolve);
    assert_eq!(call.reject.resolve_type, PromiseResolvingFunctionType::Reject);
    let expected = PromiseCapability { promise: Promise(3), must_be_unresolved: false };
    assert_eq!(call.resolve.promise_capability, expected);
    assert_eq!(call.reject.promise_capability, expected);
    assert_eq!(call.resolve.object_index, None);
}

#[test]
fn thenable_job_throw_rejects_the_promise() {
    let mut heap = PromiseHeap::new();
    let c = PromiseCapability::new(&mut heap);
    promise_resolve_thenable_job_on_call(&mut heap, c.promise, Ok(Value::Undefined));
    assert!(pending_reactions(&heap, c.promise).is_some());
    let thrown = JsError::Thrown(Value::String(1));
    promise_resolve_thenable_job_on_call(&mut heap, c.promise, Err(thrown));
    assert_eq!(rejected_with(&heap, c.promise), Some((thrown, false)));
}

#[test]
fn thenable_job_realm() {
    let (job, realm) = new_promise_resolve_thenable_job(Promise(0), Value::Object(1), 2, Ok(3), 9);
    assert_eq!(job, PromiseJob::ResolveThenable { promise_to_resolve: Promise(0), thenable: Value::Object(1), then: 2 });
    assert_eq!(realm, 3);
    let (_, realm) = new_promise_resolve_thenable_job(Promise(0), Value::Object(1), 2, Err(JsError::Thrown(Value::Null)), 9);
    assert_eq!(realm, 9);
}

#[test]
fn reaction_attached_before_settlement_runs() {
    let mut heap = PromiseHeap::new();
    let c = PromiseCapability::new(&mut heap);
    perform_promise_then(&mut heap, c.promise, Value::Function(1), Value::Function(2), None);
    assert!(heap.jobs.is_empty());
    let step = c.resolve(&mut heap, Value::Integer(10));
    assert_eq!(step, ResolveStep::Done);
    assert!(heap.jobs.contains(&PromiseJob::Reaction {
        reaction: PromiseReaction(0),
        argument: Settlement::Fulfilled(Value::Integer(10)),
    }));
    // And one attached after settlement runs at once.
    perform_promise_then(&mut heap, c.promise, Value::Function(3), Value::Undefined, None);
    assert_eq!(
        heap.jobs.last(),
        Some(&PromiseJob::Reaction { reaction: PromiseReaction(2), argument: Settlement::Fulfilled(Value::Integer(10)) })
    );
}

#[test]
fn rejected_reaction_attached_before_settlement_runs() {
    let mut heap = PromiseHeap::new();
    let c = PromiseCapability::new(&mut heap);
    perform_promise_then(&mut heap, c.promise, Value::Undefined, Value::Function(2), None);
    let reason = JsError::Thrown(Value::Integer(-1));
    c.reject(&mut heap, reason);
    assert!(heap.jobs.contains(&PromiseJob::Reaction {
        reaction: PromiseReaction(1),
        argument: Settlement::Rejected(reason),
    }));
}
