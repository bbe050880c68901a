use nova_vm::generator::{
    generator_prototype_next, generator_prototype_return, generator_prototype_throw,
    ExecutionResult, Generator, GeneratorHeap, GeneratorHeapData, GeneratorOutput, GeneratorState,
    ResumeBegin, SuspendedGeneratorState,
};
use nova_vm::value::{ArgumentsList, ExceptionType, JsError, Value};

fn suspended(vm: u32) -> SuspendedGeneratorState {
    SuspendedGeneratorState { vm, executable: 1, execution_context: 2 }
}

fn new_generator(heap: &mut GeneratorHeap) -> Generator {
    heap.create(GeneratorHeapData::new(suspended(0)))
}

fn type_error<T>() -> Result<T, JsError> {
    Err(JsError::Exception(ExceptionType::TypeError))
}

fn args(v: Vec<Value>) -> ArgumentsList {
    ArgumentsList { values: v }
}

#[test]
fn next_runs_yield_then_return() {
    let mut heap = GeneratorHeap::new();
    let g = new_generator(&mut heap);
    let this = Value::Generator(g.0);
    let (begin, sent) = generator_prototype_next(&mut heap, this, &args(vec![Value::Integer(4)])).unwrap();
    assert_eq!(begin, ResumeBegin::Resume(suspended(0)));
    assert_eq!(sent, Value::Integer(4));
    assert_eq!(heap.generators[0].generator_state, GeneratorState::Executing);
    // A running generator refuses to be resumed.
    let (again, _) = generator_prototype_next(&mut heap, this, &args(vec![])).unwrap();
    assert_eq!(again, ResumeBegin::Done(Err(JsError::Exception(ExceptionType::TypeError))));
    assert_eq!(heap.generators[0].generator_state, GeneratorState::Executing);
    // It yields.
    let out = g.finish_resume(&mut heap, ExecutionResult::Yield { vm: 7, yielded_value: Value::Object(3) }, 5, 6);
    assert_eq!(out, Ok(GeneratorOutput::Yielded(Value::Object(3))));
    assert_eq!(
        heap.generators[0].generator_state,
        GeneratorState::SuspendedYield(SuspendedGeneratorState { vm: 7, executable: 5, execution_context: 6 })
    );
    // It is resumed and returns.
    let (begin, _) = generator_prototype_next(&mut heap, this, &args(vec![])).unwrap();
    assert_eq!(begin, ResumeBegin::Resume(SuspendedGeneratorState { vm: 7, executable: 5, execution_context: 6 }));
    let out = g.finish_resume(&mut heap, ExecutionResult::Return(Value::Integer(9)), 5, 6);
    assert_eq!(out, Ok(GeneratorOutput::IterResult { value: Value::Integer(9), done: true }));
    assert_eq!(heap.generators[0].generator_state, GeneratorState::Completed);
    // A completed generator answers { undefined, done: true } at once.
    let (begin, _) = generator_prototype_next(&mut heap, this, &args(vec![])).unwrap();
    assert_eq!(
        begin,
        ResumeBegin::Done(Ok(GeneratorOutput::IterResult { value: Value::Undefined, done: true }))
    );
    assert_eq!(heap.generators[0].generator_state, GeneratorState::Completed);
}

#[test]
fn throw_and_return_on_a_fresh_generator() {
    let mut heap = GeneratorHeap::new();
    let g = new_generator(&mut heap);
    let h = new_generator(&mut heap);
    let r = generator_prototype_return(&mut heap, Value::Generator(g.0), &args(vec![Value::Integer(1)])).unwrap();
    assert_eq!(r, ResumeBegin::Done(Ok(GeneratorOutput::IterResult { value: Value::Integer(1), done: true })));
    assert_eq!(heap.generators[0].generator_state, GeneratorState::Completed);
    let r = generator_prototype_throw(&mut heap, Value::Generator(h.0), &args(vec![Value::Integer(2)])).unwrap();
    assert_eq!(r, ResumeBegin::Done(Err(JsError::Thrown(Value::Integer(2)))));
    assert_eq!(heap.generators[1].generator_state, GeneratorState::Completed);
    // On a completed generator they complete at once too.
    let r = generator_prototype_throw(&mut heap, Value::Generator(g.0), &args(vec![Value::Null])).unwrap();
    assert_eq!(r, ResumeBegin::Done(Err(JsError::Thrown(Value::Null))));
}

#[test]
fn throw_into_a_suspended_yield_resumes() {
    let mut heap = GeneratorHeap::new();
    let g = new_generator(&mut heap);
    g.resume(&mut heap);
    g.finish_resume(&mut heap, ExecutionResult::Yield { vm: 3, yielded_value: Value::Null }, 1, 2);
    let r = g.resume_throw(&mut heap, Value::Integer(5));
    assert_eq!(r, ResumeBegin::Resume(suspended(3)));
    assert_eq!(heap.generators[0].generator_state, GeneratorState::Executing);
    let out = g.finish_resume(&mut heap, ExecutionResult::Throw(JsError::Thrown(Value::Integer(5))), 1, 2);
    assert_eq!(out, Err(JsError::Thrown(Value::Integer(5))));
    assert_eq!(heap.generators[0].generator_state, GeneratorState::Completed);
}

#[test]
fn return_into_a_suspended_yield_resumes() {
    let mut heap = GeneratorHeap::new();
    let g = new_generator(&mut heap);
    g.resume(&mut heap);
    g.finish_resume(&mut heap, ExecutionResult::Yield { vm: 3, yielded_value: Value::Null }, 1, 2);
    assert_eq!(g.resume_return(&mut heap, Value::Integer(5)), ResumeBegin::Resume(suspended(3)));
}

#[test]
fn methods_refuse_other_this_values() {
    let mut heap = GeneratorHeap::new();
    new_generator(&mut heap);
    assert_eq!(generator_prototype_next(&mut heap, Value::Object(0), &args(vec![])), type_error());
    assert_eq!(generator_prototype_return(&mut heap, Value::Undefined, &args(vec![])), type_error());
    assert_eq!(generator_prototype_throw(&mut heap, Value::AsyncGenerator(0), &args(vec![])), type_error());
    assert_eq!(heap.generators[0].generator_state, GeneratorState::SuspendedStart(suspended(0)));
}

#[test]
fn backing_object_and_conversion() {
    let mut heap = GeneratorHeap::new();
    let g = new_generator(&mut heap);
    assert_eq!(g.get_backing_object(&heap), None);
    g.set_backing_object(&mut heap, 12);
    assert_eq!(g.get_backing_object(&heap), Some(12));
    assert_eq!(heap.generators[0].generator_state, GeneratorState::SuspendedStart(suspended(0)));
    assert_eq!(Generator::try_from(Value::Generator(0)), Ok(g));
    assert_eq!(Generator::try_from(Value::Object(0)), Err(()));
    assert_eq!(g.get_index(), 0);
}
