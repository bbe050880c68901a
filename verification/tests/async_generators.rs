use nova_vm::async_generator::{
    async_generator_drain_queue, async_generator_prototype_next, async_generator_prototype_return,
    async_generator_prototype_throw, async_generator_validate, resume_handle_result,
    AsyncExecutionResult, AsyncGenerator, AsyncGeneratorAction, AsyncGeneratorAwaitKind,
    AsyncGeneratorHeap, AsyncGeneratorHeapData, AsyncGeneratorRequest,
    AsyncGeneratorRequestCompletion, AsyncGeneratorState, Settle,
};
use nova_vm::promise::{Promise, PromiseCapability, PromiseReactionType};
use nova_vm::value::{ArgumentsList, ExceptionType, JsError, Value};

fn cap(i: u32) -> PromiseCapability {
    PromiseCapability::from_promise(Promise(i), true)
}

fn args(v: Vec<Value>) -> ArgumentsList {
    ArgumentsList { values: v }
}

fn new_generator(heap: &mut AsyncGeneratorHeap) -> AsyncGenerator {
    heap.create(AsyncGeneratorHeapData {
        object_index: None,
        async_generator_state: AsyncGeneratorState::SuspendedStart { vm: 1, execution_context: 2 },
        queue: Vec::new(),
        executable: Some(3),
    })
}

fn state(heap: &AsyncGeneratorHeap, g: AsyncGenerator) -> AsyncGeneratorState {
    heap.generators[g.0 as usize].async_generator_state
}

#[test]
fn next_yield_return() {
    let mut heap = AsyncGeneratorHeap::new();
    let mut settled = Vec::new();
    let g = new_generator(&mut heap);
    let this = Value::AsyncGenerator(g.0);
    let a = async_generator_prototype_next(&mut heap, &mut settled, this, &args(vec![Value::Integer(1)]), cap(0));
    assert_eq!(a, AsyncGeneratorAction::ResumeVm { vm: 1, completion: AsyncGeneratorRequestCompletion::Normal(Value::Integer(1)) });
    assert_eq!(state(&heap, g), AsyncGeneratorState::Executing);
    // A second request while executing only queues.
    let a = async_generator_prototype_next(&mut heap, &mut settled, this, &args(vec![]), cap(1));
    assert_eq!(a, AsyncGeneratorAction::Nothing);
    assert_eq!(heap.generators[0].queue.len(), 2);
    // The code yields 10: the first request resolves, the second resumes.
    let a = resume_handle_result(&mut heap, &mut settled, g, AsyncExecutionResult::Yield { vm: 4, yielded_value: Value::Integer(10) }, 5, 6);
    assert_eq!(a, AsyncGeneratorAction::ResumeVm { vm: 4, completion: AsyncGeneratorRequestCompletion::Normal(Value::Undefined) });
    assert_eq!(
        settled,
        vec![Settle::ResolveIterResult { capability: cap(0), value: Value::Integer(10), done: false, realm: Some(6) }]
    );
    assert_eq!(state(&heap, g), AsyncGeneratorState::Executing);
    // The code returns 20: the second request resolves done, the generator completes.
    let a = resume_handle_result(&mut heap, &mut settled, g, AsyncExecutionResult::Return(Value::Integer(20)), 5, 6);
    assert_eq!(a, AsyncGeneratorAction::Nothing);
    assert_eq!(settled[1], Settle::ResolveIterResult { capability: cap(1), value: Value::Integer(20), done: true, realm: None });
    assert_eq!(state(&heap, g), AsyncGeneratorState::Completed);
    assert!(g.queue_is_empty(&heap));
    // next on a completed generator resolves { undefined, done: true } at once.
    let a = async_generator_prototype_next(&mut heap, &mut settled, this, &args(vec![]), cap(2));
    assert_eq!(a, AsyncGeneratorAction::Nothing);
    assert_eq!(settled[2], Settle::ResolveIterResult { capability: cap(2), value: Value::Undefined, done: true, realm: None });
}

#[test]
fn yield_with_empty_queue_suspends() {
    let mut heap = AsyncGeneratorHeap::new();
    let mut settled = Vec::new();
    let g = new_generator(&mut heap);
    async_generator_prototype_next(&mut heap, &mut settled, Value::AsyncGenerator(0), &args(vec![]), cap(0));
    let a = resume_handle_result(&mut heap, &mut settled, g, AsyncExecutionResult::Yield { vm: 4, yielded_value: Value::Null }, 5, 6);
    assert_eq!(a, AsyncGeneratorAction::Nothing);
    assert_eq!(state(&heap, g), AsyncGeneratorState::SuspendedYield { vm: 4, execution_context: 5 });
    assert!(g.is_suspended_yield(&heap));
}

#[test]
fn throw_from_code_rejects_and_drains() {
    let mut heap = AsyncGeneratorHeap::new();
    let mut settled = Vec::new();
    let g = new_generator(&mut heap);
    let this = Value::AsyncGenerator(0);
    async_generator_prototype_next(&mut heap, &mut settled, this, &args(vec![]), cap(0));
    async_generator_prototype_next(&mut heap, &mut settled, this, &args(vec![]), cap(1));
    async_generator_prototype_return(&mut heap, &mut settled, this, &args(vec![Value::Integer(7)]), cap(2));
    async_generator_prototype_next(&mut heap, &mut settled, this, &args(vec![]), cap(3));
    let e = JsError::Thrown(Value::Integer(99));
    let a = resume_handle_result(&mut heap, &mut settled, g, AsyncExecutionResult::Throw(e), 5, 6);
    // The first request rejects, the second resolves done, the return is awaited.
    assert_eq!(a, AsyncGeneratorAction::AwaitReturn(Value::Integer(7)));
    assert_eq!(
        settled,
        vec![
            Settle::Reject { capability: cap(0), reason: e },
            Settle::ResolveIterResult { capability: cap(1), value: Value::Undefined, done: true, realm: None },
        ]
    );
    assert_eq!(state(&heap, g), AsyncGeneratorState::DrainingQueue);
    assert_eq!(heap.generators[0].queue.len(), 2);
    // The awaited return value fulfils: the return request resolves, the rest drains.
    let a = g.resume_await(&mut heap, &mut settled, PromiseReactionType::Fulfill, Value::Integer(7), 0);
    assert_eq!(a, AsyncGeneratorAction::Nothing);
    assert_eq!(settled[2], Settle::ResolveIterResult { capability: cap(2), value: Value::Integer(7), done: true, realm: None });
    assert_eq!(settled[3], Settle::ResolveIterResult { capability: cap(3), value: Value::Undefined, done: true, realm: None });
    assert_eq!(state(&heap, g), AsyncGeneratorState::Completed);
}

#[test]
fn return_on_a_fresh_generator_awaits() {
    let mut heap = AsyncGeneratorHeap::new();
    let mut settled = Vec::new();
    let g = new_generator(&mut heap);
    let a = async_generator_prototype_return(&mut heap, &mut settled, Value::AsyncGenerator(0), &args(vec![Value::Integer(3)]), cap(0));
    assert_eq!(a, AsyncGeneratorAction::AwaitReturn(Value::Integer(3)));
    assert!(g.is_draining_queue(&heap));
    // The awaited value rejects: the return request rejects with it.
    let a = g.resume_await(&mut heap, &mut settled, PromiseReactionType::Reject, Value::Integer(4), 0);
    assert_eq!(a, AsyncGeneratorAction::Nothing);
    assert_eq!(settled, vec![Settle::Reject { capability: cap(0), reason: JsError::Thrown(Value::Integer(4)) }]);
    assert!(g.is_completed(&heap));
}

#[test]
fn throw_on_a_fresh_generator_completes_it() {
    let mut heap = AsyncGeneratorHeap::new();
    let mut settled = Vec::new();
    let g = new_generator(&mut heap);
    let a = async_generator_prototype_throw(&mut heap, &mut settled, Value::AsyncGenerator(0), &args(vec![Value::Integer(8)]), cap(0));
    assert_eq!(a, AsyncGeneratorAction::Nothing);
    assert_eq!(settled, vec![Settle::Reject { capability: cap(0), reason: JsError::Thrown(Value::Integer(8)) }]);
    assert_eq!(state(&heap, g), AsyncGeneratorState::Completed);
}

#[test]
fn throw_into_suspended_yield_resumes() {
    let mut heap = AsyncGeneratorHeap::new();
    let mut settled = Vec::new();
    let g = new_generator(&mut heap);
    async_generator_prototype_next(&mut heap, &mut settled, Value::AsyncGenerator(0), &args(vec![]), cap(0));
    resume_handle_result(&mut heap, &mut settled, g, AsyncExecutionResult::Yield { vm: 4, yielded_value: Value::Null }, 5, 6);
    let a = async_generator_prototype_throw(&mut heap, &mut settled, Value::AsyncGenerator(0), &args(vec![Value::Integer(8)]), cap(1));
    assert_eq!(
        a,
        AsyncGeneratorAction::ResumeVm { vm: 4, completion: AsyncGeneratorRequestCompletion::Throw(JsError::Thrown(Value::Integer(8))) }
    );
    assert!(g.is_executing(&heap));
}

#[test]
fn await_inside_the_generator() {
    let mut heap = AsyncGeneratorHeap::new();
    let mut settled = Vec::new();
    let g = new_generator(&mut heap);
    async_generator_prototype_next(&mut heap, &mut settled, Value::AsyncGenerator(0), &args(vec![]), cap(0));
    let a = resume_handle_result(&mut heap, &mut settled, g, AsyncExecutionResult::Await { vm: 9, awaited_value: Value::Promise(5) }, 7, 0);
    assert_eq!(a, AsyncGeneratorAction::PerformAwait(Value::Promise(5)));
    assert_eq!(
        state(&heap, g),
        AsyncGeneratorState::ExecutingAwait { vm: 9, execution_context: 7, kind: AsyncGeneratorAwaitKind::Await }
    );
    assert!(g.is_active(&heap));
    let a = g.resume_await(&mut heap, &mut settled, PromiseReactionType::Fulfill, Value::Integer(1), 0);
    assert_eq!(a, AsyncGeneratorAction::ResumeVm { vm: 9, completion: AsyncGeneratorRequestCompletion::Normal(Value::Integer(1)) });
    assert!(g.is_executing(&heap));
    assert!(settled.is_empty());
}

#[test]
fn drain_queue_stops_at_return() {
    let mut heap = AsyncGeneratorHeap::new();
    let mut settled = Vec::new();
    let g = heap.create(AsyncGeneratorHeapData {
        object_index: None,
        async_generator_state: AsyncGeneratorState::DrainingQueue,
        queue: vec![
            AsyncGeneratorRequest { completion: AsyncGeneratorRequestCompletion::Throw(JsError::Thrown(Value::Null)), capability: cap(0) },
            AsyncGeneratorRequest { completion: AsyncGeneratorRequestCompletion::Normal(Value::Integer(1)), capability: cap(1) },
            AsyncGeneratorRequest { completion: AsyncGeneratorRequestCompletion::Return(Value::Integer(2)), capability: cap(2) },
            AsyncGeneratorRequest { completion: AsyncGeneratorRequestCompletion::Normal(Value::Integer(3)), capability: cap(3) },
        ],
        executable: None,
    });
    let a = async_generator_drain_queue(&mut heap, &mut settled, g);
    assert_eq!(a, AsyncGeneratorAction::AwaitReturn(Value::Integer(2)));
    assert_eq!(
        settled,
        vec![
            Settle::Reject { capability: cap(0), reason: JsError::Thrown(Value::Null) },
            Settle::ResolveIterResult { capability: cap(1), value: Value::Undefined, done: true, realm: None },
        ]
    );
    assert_eq!(heap.generators[0].queue.len(), 2);
    assert_eq!(g.peek_first(&heap).capability, cap(2));
    assert!(g.is_draining_queue(&heap));
}

#[test]
fn methods_reject_other_this_values() {
    let mut heap = AsyncGeneratorHeap::new();
    let mut settled = Vec::new();
    let type_error = JsError::Exception(ExceptionType::TypeError);
    assert_eq!(async_generator_prototype_next(&mut heap, &mut settled, Value::Generator(0), &args(vec![]), cap(0)), AsyncGeneratorAction::Nothing);
    async_generator_prototype_return(&mut heap, &mut settled, Value::Null, &args(vec![]), cap(1));
    async_generator_prototype_throw(&mut heap, &mut settled, Value::Object(0), &args(vec![]), cap(2));
    assert_eq!(
        settled,
        vec![
            Settle::Reject { capability: cap(0), reason: type_error },
            Settle::Reject { capability: cap(1), reason: type_error },
            Settle::Reject { capability: cap(2), reason: type_error },
        ]
    );
    assert_eq!(async_generator_validate(Value::AsyncGenerator(4)), Ok(AsyncGenerator(4)));
    assert_eq!(async_generator_validate(Value::Undefined), Err(type_error));
}

#[test]
fn executable_and_backing_object() {
    let mut heap = AsyncGeneratorHeap::new();
    let g = new_generator(&mut heap);
    assert_eq!(g.get_executable(&heap), 3);
    assert_eq!(g.get_backing_object(&heap), None);
    g.set_backing_object(&mut heap, 6);
    assert_eq!(g.get_backing_object(&heap), Some(6));
    assert!(g.is_suspended_start(&heap));
    assert_eq!(g.get_index(), 0);
}
