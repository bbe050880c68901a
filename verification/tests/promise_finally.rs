use nova_vm::promise_finally::{
    BuiltinPromiseFinallyFunction, FinallyAction, FinallyCall, PromiseFinallyFunctionHeapData,
    PromiseFinallyFunctionType, PromiseFinallyHeap,
};
use nova_vm::value::{ArgumentsList, JsError, Value};

fn args(v: Vec<Value>) -> ArgumentsList {
    ArgumentsList { values: v }
}

/// Runs a finally function through to the `then` invocation, and then calls
/// the thunk it chains.
fn run_through(heap: &mut PromiseFinallyHeap, f: BuiltinPromiseFinallyFunction, settled: Value) -> FinallyAction {
    let (call, action) = f.function_call(heap, &args(vec![settled]));
    assert_eq!(action, FinallyAction::CallOnFinally(11));
    let call = call.unwrap();
    let action = call.on_finally_result(Ok(Value::Undefined));
    assert_eq!(action, FinallyAction::PromiseResolve { constructor: 22, result: Value::Undefined });
    match call.on_promise(heap, Ok(Value::Promise(3))) {
        FinallyAction::InvokeThen { promise, thunk } => {
            assert_eq!(promise, Value::Promise(3));
            assert_eq!(thunk.get_length(heap), 0);
            thunk.function_call(heap, &args(vec![])).1
        }
        other => panic!("unexpected {:?}", other),
    }
}

#[test]
fn then_finally_passes_the_value_through() {
    let mut heap = PromiseFinallyHeap::new();
    let (then_finally, catch_finally) = BuiltinPromiseFinallyFunction::create_finally_functions(&mut heap, 22, 11);
    assert_eq!(then_finally, BuiltinPromiseFinallyFunction(0));
    assert_eq!(catch_finally, BuiltinPromiseFinallyFunction(1));
    assert_eq!(then_finally.get_length(&heap), 1);
    assert_eq!(catch_finally.get_length(&heap), 1);
    assert_eq!(run_through(&mut heap, then_finally, Value::Integer(42)), FinallyAction::Return(Value::Integer(42)));
    assert_eq!(
        heap.functions[2].resolve_type,
        PromiseFinallyFunctionType::ReturnValue { value: Value::Integer(42) }
    );
}

#[test]
fn catch_finally_passes_the_reason_through() {
    let mut heap = PromiseFinallyHeap::new();
    let (_, catch_finally) = BuiltinPromiseFinallyFunction::create_finally_functions(&mut heap, 22, 11);
    assert_eq!(
        run_through(&mut heap, catch_finally, Value::Integer(13)),
        FinallyAction::Throw(JsError::Thrown(Value::Integer(13)))
    );
}

#[test]
fn on_finally_errors_are_thrown() {
    let call = FinallyCall { rejected: false, value: Value::Null, c: 1 };
    let e = JsError::Thrown(Value::Integer(1));
    assert_eq!(call.on_finally_result(Err(e)), FinallyAction::Throw(e));
    let mut heap = PromiseFinallyHeap::new();
    assert_eq!(call.on_promise(&mut heap, Err(e)), FinallyAction::Throw(e));
    assert!(heap.functions.is_empty());
}

#[test]
fn backing_object() {
    let mut heap = PromiseFinallyHeap::new();
    let f = heap.create(PromiseFinallyFunctionHeapData {
        backing_object: None,
        resolve_type: PromiseFinallyFunctionType::ReturnValue { value: Value::Null },
    });
    assert_eq!(f.get_function_backing_object(&heap), None);
    f.set_function_backing_object(&mut heap, 8);
    assert_eq!(f.get_function_backing_object(&heap), Some(8));
    assert_eq!(f.function_call(&heap, &args(vec![])), (None, FinallyAction::Return(Value::Null)));
}
