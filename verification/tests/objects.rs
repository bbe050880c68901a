use nova_vm::array::{Array, ArrayHeap};
use nova_vm::array_species::{
    array_species_create, is_iterable_array, is_trivially_iterable, species_on_constructor,
    species_on_realm, species_on_species, ArraySetPrototype, SpeciesAction,
};
use nova_vm::await_reaction::{
    AwaitExecutionResult, AwaitOutcome, AwaitReaction, AwaitReactionHeap, AwaitReactionRecord,
};
use nova_vm::constructors::{
    dynamic_function_arguments, dynamic_function_prototype_property, iterator_constructor,
    iterator_set_to_string_tag, setter_on_own_property, setter_that_ignores_prototype_properties,
    DynamicFunctionKind, SetterAction,
};
use nova_vm::date::{Date, DateHeap, DateHeapData, DateValue};
use nova_vm::error::{Error, ErrorHeap, ErrorHeapData, ErrorLookup, ErrorPrototype};
use nova_vm::promise::{
    PromiseCapability, PromiseHeap, PromiseReactionType, PromiseState, ResolveStep, TryGetOutcome,
};
use nova_vm::value::{ArgumentsList, ExceptionType, JsError, PropertyDescriptor, PropertyKey, Value};

fn type_error<T>() -> Result<T, JsError> {
    Err(JsError::Exception(ExceptionType::TypeError))
}

#[test]
fn await_reaction_resume_and_finish() {
    let mut promises = PromiseHeap::new();
    let capability = PromiseCapability::new(&mut promises);
    let mut heap = AwaitReactionHeap::new();
    let r = heap.create(AwaitReactionRecord {
        vm: Some(3),
        async_executable: Some(4),
        execution_context: Some(5),
        return_promise_capability: capability,
    });
    assert_eq!(r, AwaitReaction(0));
    assert_eq!(r.into_index(), 0);
    let (vm, ctx, completion) = r.resume(&mut heap, PromiseReactionType::Reject, Value::Integer(1));
    assert_eq!((vm, ctx), (3, 5));
    assert_eq!(completion, Err(JsError::Thrown(Value::Integer(1))));
    assert_eq!(heap.records[0].vm, None);
    assert_eq!(heap.records[0].execution_context, None);
    // The function awaits again.
    let out = r.finish(&mut heap, &mut promises, AwaitExecutionResult::Await { vm: 8, awaited_value: Value::Promise(2) }, 9);
    assert_eq!(out, AwaitOutcome::Await(Value::Promise(2)));
    assert_eq!(heap.records[0].vm, Some(8));
    assert_eq!(heap.records[0].execution_context, Some(9));
    let (_, _, completion) = r.resume(&mut heap, PromiseReactionType::Fulfill, Value::Integer(2));
    assert_eq!(completion, Ok(Value::Integer(2)));
    // It returns: the promise is fulfilled.
    let out = r.finish(&mut heap, &mut promises, AwaitExecutionResult::Return(Value::Integer(6)), 0);
    assert_eq!(out, AwaitOutcome::Settled(ResolveStep::Done));
    match &promises.promises[0].promise_state {
        PromiseState::Fulfilled { promise_result } => assert_eq!(*promise_result, Value::Integer(6)),
        _ => panic!("not fulfilled"),
    }
}

#[test]
fn await_reaction_throw_rejects() {
    let mut promises = PromiseHeap::new();
    let capability = PromiseCapability::new(&mut promises);
    let mut heap = AwaitReactionHeap::new();
    let r = heap.create(AwaitReactionRecord { vm: None, async_executable: None, execution_context: None, return_promise_capability: capability });
    let e = JsError::Exception(ExceptionType::RangeError);
    assert_eq!(r.finish(&mut heap, &mut promises, AwaitExecutionResult::Throw(e), 0), AwaitOutcome::Settled(ResolveStep::Done));
    match &promises.promises[0].promise_state {
        PromiseState::Rejected { reason, .. } => assert_eq!(*reason, e),
        _ => panic!("not rejected"),
    }
    // Returning an object asks for its "then".
    let c2 = PromiseCapability::new(&mut promises);
    let r2 = heap.create(AwaitReactionRecord { vm: None, async_executable: None, execution_context: None, return_promise_capability: c2 });
    assert_eq!(
        r2.finish(&mut heap, &mut promises, AwaitExecutionResult::Return(Value::Object(1)), 0),
        AwaitOutcome::Settled(ResolveStep::GetThen(Value::Object(1)))
    );
}

#[test]
fn date_values() {
    assert_eq!(DateValue::nan().get_i64(), None);
    assert_eq!(DateValue(1234).get_i64(), Some(1234));
    assert_eq!(DateValue::now(1_700_000_000_000), DateValue(1_700_000_000_000));
    let mut heap = DateHeap::new();
    let d = heap.create(DateHeapData::new_invalid());
    let other = heap.create(DateHeapData::new_invalid());
    assert_eq!(d, Date(0));
    assert_eq!(d.date_value(&heap), DateValue::nan());
    d.set_date_value(&mut heap, DateValue(86_400_000));
    assert_eq!(d.date_value(&heap), DateValue(86_400_000));
    assert_eq!(other.date_value(&heap), DateValue::nan());
    assert_eq!(d.get_backing_object(&heap), None);
    d.set_backing_object(&mut heap, 3);
    assert_eq!(d.get_backing_object(&heap), Some(3));
    assert_eq!(d.date_value(&heap), DateValue(86_400_000));
}

#[test]
fn error_direct_properties() {
    let mut heap = ErrorHeap::new();
    let e = heap.create(ErrorHeapData::new(ExceptionType::TypeError, Some(7), None));
    assert_eq!(e, Error(0));
    assert_eq!(e.internal_prototype(&heap), ErrorPrototype::Intrinsic(ExceptionType::TypeError));
    assert_eq!(e.internal_get(&heap, PropertyKey::Message), ErrorLookup::Own(Value::String(7)));
    assert_eq!(e.internal_get(&heap, PropertyKey::Cause), ErrorLookup::Prototype);
    assert_eq!(e.internal_has_property(&heap, PropertyKey::Name), ErrorLookup::Prototype);
    match e.try_get_own_property(&heap, PropertyKey::Message) {
        ErrorLookup::Own(Some(d)) => {
            assert_eq!(d.value, Some(Value::String(7)));
            assert_eq!(d.writable, Some(true));
            assert_eq!(d.enumerable, Some(false));
            assert_eq!(d.configurable, Some(true));
        }
        other => panic!("unexpected {:?}", other),
    }
    assert_eq!(e.try_get_own_property(&heap, PropertyKey::Cause), ErrorLookup::Own(None));
    // Set then get.
    assert_eq!(e.internal_set(&mut heap, PropertyKey::Cause, Value::Integer(3)), ErrorLookup::Own(true));
    assert_eq!(e.internal_get(&heap, PropertyKey::Cause), ErrorLookup::Own(Value::Integer(3)));
    assert_eq!(e.internal_has_property(&heap, PropertyKey::Cause), ErrorLookup::Own(true));
    assert_eq!(e.try_own_property_keys(&heap), ErrorLookup::Own(vec![PropertyKey::Message, PropertyKey::Cause]));
    // A message that is not a String, or another key, needs a backing object.
    assert_eq!(e.internal_set(&mut heap, PropertyKey::Message, Value::Integer(1)), ErrorLookup::CreateBackingObject);
    assert_eq!(e.internal_set(&mut heap, PropertyKey::Name, Value::String(1)), ErrorLookup::CreateBackingObject);
    // Delete.
    assert_eq!(e.try_delete(&mut heap, PropertyKey::Message), ErrorLookup::Own(true));
    assert_eq!(e.internal_get(&heap, PropertyKey::Message), ErrorLookup::Prototype);
    assert_eq!(e.try_own_property_keys(&heap), ErrorLookup::Own(vec![PropertyKey::Cause]));
}

#[test]
fn error_with_backing_object() {
    let mut heap = ErrorHeap::new();
    let e = heap.create(ErrorHeapData::new(ExceptionType::RangeError, Some(1), Some(Value::Null)));
    assert_eq!(e.backing_object_entries(&heap), vec![(PropertyKey::Message, Value::String(1)), (PropertyKey::Cause, Value::Null)]);
    e.set_backing_object(&mut heap, 4);
    assert_eq!(e.get_backing_object(&heap), Some(4));
    assert_eq!(e.internal_prototype(&heap), ErrorPrototype::BackingObject);
    assert_eq!(e.internal_get(&heap, PropertyKey::Message), ErrorLookup::BackingObject);
    assert_eq!(e.internal_set(&mut heap, PropertyKey::Cause, Value::Null), ErrorLookup::BackingObject);
    assert_eq!(e.try_delete(&mut heap, PropertyKey::Cause), ErrorLookup::BackingObject);
    assert_eq!(e.try_own_property_keys(&heap), ErrorLookup::BackingObject);
    assert_eq!(e.get_index(), 0);
}

#[test]
fn array_species_steps() {
    let e = JsError::Thrown(Value::Null);
    assert_eq!(array_species_create(Err(e), 3), SpeciesAction::Throw(e));
    assert_eq!(array_species_create(Ok(false), 3), SpeciesAction::ArrayCreate(3));
    assert_eq!(array_species_create(Ok(true), 3), SpeciesAction::GetConstructor);
    assert_eq!(species_on_constructor(Ok(Value::Function(1)), true, 3), SpeciesAction::GetFunctionRealm(Value::Function(1)));
    assert_eq!(species_on_constructor(Ok(Value::Undefined), false, 3), SpeciesAction::ArrayCreate(3));
    assert_eq!(species_on_constructor(Ok(Value::Object(2)), false, 3), SpeciesAction::GetSpecies(Value::Object(2)));
    assert_eq!(species_on_constructor(Ok(Value::Integer(2)), false, 3), SpeciesAction::Throw(JsError::Exception(ExceptionType::TypeError)));
    // Another realm's %Array% counts as undefined.
    assert_eq!(species_on_realm(Value::Function(9), Ok(2), 1, Value::Function(9), 4), SpeciesAction::ArrayCreate(4));
    assert_eq!(species_on_realm(Value::Function(9), Ok(1), 1, Value::Function(9), 4), SpeciesAction::GetSpecies(Value::Function(9)));
    assert_eq!(species_on_realm(Value::Function(9), Err(e), 1, Value::Function(9), 4), SpeciesAction::Throw(e));
    assert_eq!(species_on_species(Ok(Value::Null), false, 5), SpeciesAction::ArrayCreate(5));
    assert_eq!(species_on_species(Ok(Value::Function(3)), true, 5), SpeciesAction::Construct { constructor: Value::Function(3), length: 5 });
    assert_eq!(species_on_species(Ok(Value::Object(3)), false, 5), SpeciesAction::Throw(JsError::Exception(ExceptionType::TypeError)));
}

#[test]
fn iterable_array_checks() {
    let values = Value::Function(50);
    assert_eq!(is_iterable_array(Value::Array(2), values, values), Some(Array(2)));
    assert_eq!(is_iterable_array(Value::Array(2), Value::Function(51), values), None);
    assert_eq!(is_iterable_array(Value::Object(2), values, values), None);
    let mut heap = ArrayHeap::new();
    let dense = Array::from_slice(&mut heap, &[Value::Integer(1)]);
    let holey = Array::new(&mut heap);
    holey.set_len(&mut heap, 2);
    assert!(is_trivially_iterable(dense, &heap, TryGetOutcome::Value(values), values));
    assert!(!is_trivially_iterable(dense, &heap, TryGetOutcome::NeedsCall, values));
    assert!(!is_trivially_iterable(holey, &heap, TryGetOutcome::Value(values), values));
}

#[test]
fn array_prototype_and_extensions() {
    let mut heap = ArrayHeap::new();
    let a = Array::new(&mut heap);
    assert_eq!(a.internal_set_prototype(&heap, Some(7), 7), ArraySetPrototype::Unchanged);
    assert_eq!(a.internal_set_prototype(&heap, None, 7), ArraySetPrototype::CreateBackingObject(None));
    assert!(a.try_prevent_extensions(&mut heap));
    assert!(!a.length_writable(&heap));
    heap.arrays[0].object_index = Some(1);
    assert_eq!(a.internal_set_prototype(&heap, Some(7), 7), ArraySetPrototype::BackingObject);
}

#[test]
fn dynamic_function_arguments_split() {
    let args = ArgumentsList { values: vec![Value::String(1), Value::String(2), Value::String(3)] };
    let d = dynamic_function_arguments(&args, None, Value::Function(9), DynamicFunctionKind::Generator);
    assert_eq!(d.parameter_args, vec![Value::String(1), Value::String(2)]);
    assert_eq!(d.body_arg, Some(Value::String(3)));
    assert_eq!(d.constructor, Value::Function(9));
    assert_eq!(d.kind, DynamicFunctionKind::Generator);
    let none = ArgumentsList { values: vec![] };
    let d = dynamic_function_arguments(&none, Some(Value::Function(4)), Value::Function(9), DynamicFunctionKind::Async);
    assert!(d.parameter_args.is_empty());
    assert_eq!(d.body_arg, None);
    assert_eq!(d.constructor, Value::Function(4));
    let p = dynamic_function_prototype_property(Value::Object(5));
    assert_eq!(p.value, Some(Value::Object(5)));
    assert_eq!(p.writable, Some(true));
    assert_eq!(p.enumerable, Some(false));
    assert_eq!(p.configurable, Some(false));
}

#[test]
fn iterator_constructor_needs_a_subclass() {
    assert_eq!(iterator_constructor(None, Value::Function(1)), type_error());
    assert_eq!(iterator_constructor(Some(Value::Function(1)), Value::Function(1)), type_error());
    assert_eq!(iterator_constructor(Some(Value::Function(2)), Value::Function(1)), Ok(Value::Function(2)));
}

#[test]
fn setter_that_ignores_prototype_properties_steps() {
    let te = SetterAction::Throw(JsError::Exception(ExceptionType::TypeError));
    let home = Value::Object(1);
    assert_eq!(setter_that_ignores_prototype_properties(Value::Integer(1), home, PropertyKey::Name), te);
    assert_eq!(setter_that_ignores_prototype_properties(home, home, PropertyKey::Name), te);
    assert_eq!(
        setter_that_ignores_prototype_properties(Value::Object(2), home, PropertyKey::Name),
        SetterAction::GetOwnProperty { object: Value::Object(2), key: PropertyKey::Name }
    );
    let v = Value::Integer(5);
    assert_eq!(
        setter_on_own_property(Value::Object(2), PropertyKey::Name, v, Ok(None)),
        SetterAction::CreateDataProperty { object: Value::Object(2), key: PropertyKey::Name, value: v }
    );
    assert_eq!(
        setter_on_own_property(Value::Object(2), PropertyKey::Name, v, Ok(Some(PropertyDescriptor::empty()))),
        SetterAction::SetProperty { object: Value::Object(2), key: PropertyKey::Name, value: v }
    );
    let e = JsError::Thrown(Value::Null);
    assert_eq!(setter_on_own_property(Value::Object(2), PropertyKey::Name, v, Err(e)), SetterAction::Throw(e));
}

#[test]
fn iterator_string_tag_setter() {
    let args = ArgumentsList { values: vec![Value::String(3)] };
    let (v, action) = iterator_set_to_string_tag(Value::Object(2), &args, Value::Object(1));
    assert_eq!(v, Value::String(3));
    assert_eq!(action, SetterAction::GetOwnProperty { object: Value::Object(2), key: PropertyKey::Constructor });
    let (_, action) = iterator_set_to_string_tag(Value::Object(1), &args, Value::Object(1));
    assert_eq!(action, SetterAction::Throw(JsError::Exception(ExceptionType::TypeError)));
}

#[test]
fn iterator_string_tag_getter() {
    assert_eq!(nova_vm::constructors::iterator_get_to_string_tag(), "Iterator");
}
