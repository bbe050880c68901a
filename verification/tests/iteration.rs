use nova_vm::iterator_helpers::{
    iterator_prototype_iterator, Completion, HelperPhase, IteratorAction, IteratorHelper,
    IteratorMethod,
};
use nova_vm::value::{ArgumentsList, ExceptionType, JsError, Value};

/// Runs a method over `values`, calling `callback` for each Call action.
/// Returns the final action and the calls made (accumulator, value, counter).
fn run(
    method: IteratorMethod,
    values: &[Value],
    args: Vec<Value>,
    callback: impl Fn(Option<Value>, Value, u64) -> Result<Value, JsError>,
) -> (IteratorAction, IteratorHelper, Vec<(Option<Value>, Value, u64)>) {
    let arguments = ArgumentsList { values: args };
    let (mut helper, mut action) = IteratorHelper::start(method, Value::Object(1), &arguments);
    let mut next = 0;
    let mut calls = Vec::new();
    loop {
        action = match action {
            IteratorAction::GetIteratorDirect(_) => helper.on_iterator_direct(Ok(true)),
            IteratorAction::StepValue => {
                let step = if next < values.len() { Some(values[next]) } else { None };
                next += 1;
                helper.on_step(Ok(step))
            }
            IteratorAction::Call { accumulator, value, counter } => {
                calls.push((accumulator, value, counter));
                helper.on_call(callback(accumulator, value, counter))
            }
            done => return (done, helper, calls),
        };
    }
}

fn ints(v: &[i64]) -> Vec<Value> {
    v.iter().map(|i| Value::Integer(*i)).collect()
}

fn is_even(_acc: Option<Value>, v: Value, _c: u64) -> Result<Value, JsError> {
    match v {
        Value::Integer(i) => Ok(Value::Boolean(i % 2 == 0)),
        _ => Ok(Value::Boolean(false)),
    }
}

#[test]
fn every_stops_at_first_falsy() {
    let (action, helper, calls) = run(IteratorMethod::Every, &ints(&[2, 4, 5, 6]), vec![Value::Function(0)], is_even);
    assert_eq!(action, IteratorAction::Close(Completion::Normal(Value::Boolean(false))));
    assert_eq!(calls.len(), 3);
    assert_eq!(calls[2], (None, Value::Integer(5), 2));
    assert_eq!(helper.phase, HelperPhase::Finished);
    let (action, _, _) = run(IteratorMethod::Every, &ints(&[2, 4]), vec![Value::Function(0)], is_even);
    assert_eq!(action, IteratorAction::Return(Value::Boolean(true)));
}

#[test]
fn find_and_some() {
    let (action, _, calls) = run(IteratorMethod::Find, &ints(&[1, 3, 8, 10]), vec![Value::Function(0)], is_even);
    assert_eq!(action, IteratorAction::Close(Completion::Normal(Value::Integer(8))));
    assert_eq!(calls.len(), 3);
    let (action, _, _) = run(IteratorMethod::Find, &ints(&[1, 3]), vec![Value::Function(0)], is_even);
    assert_eq!(action, IteratorAction::Return(Value::Undefined));
    let (action, _, _) = run(IteratorMethod::Any, &ints(&[1, 2]), vec![Value::Function(0)], is_even);
    assert_eq!(action, IteratorAction::Close(Completion::Normal(Value::Boolean(true))));
    let (action, _, _) = run(IteratorMethod::Any, &ints(&[1]), vec![Value::Function(0)], is_even);
    assert_eq!(action, IteratorAction::Return(Value::Boolean(false)));
}

#[test]
fn for_each_visits_all_with_counter() {
    let (action, helper, calls) = run(IteratorMethod::ForEach, &ints(&[7, 8, 9]), vec![Value::Function(0)], |_, _, _| Ok(Value::Boolean(false)));
    assert_eq!(action, IteratorAction::Return(Value::Undefined));
    assert_eq!(
        calls,
        vec![(None, Value::Integer(7), 0), (None, Value::Integer(8), 1), (None, Value::Integer(9), 2)]
    );
    assert_eq!(helper.counter, 3);
}

fn sum(acc: Option<Value>, v: Value, _c: u64) -> Result<Value, JsError> {
    match (acc, v) {
        (Some(Value::Integer(a)), Value::Integer(b)) => Ok(Value::Integer(a + b)),
        _ => Err(JsError::Exception(ExceptionType::TypeError)),
    }
}

#[test]
fn reduce_with_and_without_initial_value() {
    let (action, _, calls) = run(IteratorMethod::Reduce, &ints(&[1, 2, 3]), vec![Value::Function(0)], sum);
    assert_eq!(action, IteratorAction::Return(Value::Integer(6)));
    // The first value is the accumulator; counting starts at 1.
    assert_eq!(calls[0], (Some(Value::Integer(1)), Value::Integer(2), 1));
    let (action, _, calls) = run(IteratorMethod::Reduce, &ints(&[1, 2]), vec![Value::Function(0), Value::Integer(10)], sum);
    assert_eq!(action, IteratorAction::Return(Value::Integer(13)));
    assert_eq!(calls[0], (Some(Value::Integer(10)), Value::Integer(1), 0));
    // Empty without initial value: TypeError.
    let (action, _, _) = run(IteratorMethod::Reduce, &[], vec![Value::Function(0)], sum);
    assert_eq!(action, IteratorAction::Throw(JsError::Exception(ExceptionType::TypeError)));
    // Empty with initial value: the initial value.
    let (action, _, _) = run(IteratorMethod::Reduce, &[], vec![Value::Function(0), Value::Null], sum);
    assert_eq!(action, IteratorAction::Return(Value::Null));
}

#[test]
fn to_array_collects() {
    let (action, helper, calls) = run(IteratorMethod::ToArray, &ints(&[4, 5]), vec![], is_even);
    assert_eq!(action, IteratorAction::ReturnItems);
    assert!(calls.is_empty());
    assert_eq!(helper.items(), &ints(&[4, 5]));
}

#[test]
fn callback_error_closes_iterator() {
    let err = JsError::Thrown(Value::Integer(99));
    let (action, _, calls) = run(IteratorMethod::ForEach, &ints(&[1, 2]), vec![Value::Function(0)], |_, _, _| Err(err));
    assert_eq!(action, IteratorAction::Close(Completion::Throw(err)));
    assert_eq!(calls.len(), 1);
}

#[test]
fn start_errors() {
    let args = ArgumentsList { values: vec![Value::Function(0)] };
    let (_, action) = IteratorHelper::start(IteratorMethod::Every, Value::Integer(1), &args);
    assert_eq!(action, IteratorAction::Throw(JsError::Exception(ExceptionType::TypeError)));
    let not_callable = ArgumentsList { values: vec![Value::Integer(0)] };
    let (helper, action) = IteratorHelper::start(IteratorMethod::Find, Value::Object(0), &not_callable);
    assert_eq!(action, IteratorAction::Close(Completion::Throw(JsError::Exception(ExceptionType::TypeError))));
    assert_eq!(helper.phase, HelperPhase::Finished);
    // toArray needs no callback.
    let none = ArgumentsList { values: vec![] };
    let (_, action) = IteratorHelper::start(IteratorMethod::ToArray, Value::Object(0), &none);
    assert_eq!(action, IteratorAction::GetIteratorDirect(Value::Object(0)));
}

#[test]
fn iterator_errors_are_thrown() {
    let args = ArgumentsList { values: vec![Value::Function(0)] };
    let (mut helper, _) = IteratorHelper::start(IteratorMethod::Every, Value::Object(1), &args);
    assert_eq!(helper.on_iterator_direct(Ok(false)), IteratorAction::Throw(JsError::Exception(ExceptionType::TypeError)));
    let (mut helper, _) = IteratorHelper::start(IteratorMethod::Every, Value::Object(1), &args);
    assert_eq!(helper.on_iterator_direct(Ok(true)), IteratorAction::StepValue);
    let e = JsError::Thrown(Value::Null);
    assert_eq!(helper.on_step(Err(e)), IteratorAction::Throw(e));
}

#[test]
fn iterator_prototype_iterator_returns_this() {
    assert_eq!(iterator_prototype_iterator(Value::Object(5)), Value::Object(5));
}
