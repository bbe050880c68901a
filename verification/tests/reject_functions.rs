use nova_vm::promise::{BuiltinPromiseRejectFunction, Promise, PromiseRejectFunctionHeapData};
use nova_vm::promise_reject_function::{PromiseRejectFunctionHeap, RejectFunctionLookup};
use nova_vm::value::{PropertyDescriptor, PropertyKey, Value, EMPTY_STRING};

fn heap_with_one() -> (PromiseRejectFunctionHeap, BuiltinPromiseRejectFunction) {
    let mut heap = PromiseRejectFunctionHeap::new();
    let f = heap.create(PromiseRejectFunctionHeapData { promise: Promise(0), already_resolved: false, object_index: None });
    (heap, f)
}

fn own_descriptor(value: Value) -> PropertyDescriptor {
    PropertyDescriptor {
        value: Some(value),
        writable: Some(false),
        get: None,
        set: None,
        enumerable: Some(false),
        configurable: Some(true),
    }
}

#[test]
fn reject_function_own_properties() {
    let (heap, f) = heap_with_one();
    assert_eq!(f, BuiltinPromiseRejectFunction(0));
    assert_eq!(f.get_backing_object(&heap), None);
    assert_eq!(
        f.internal_get_own_property(&heap, PropertyKey::Length),
        RejectFunctionLookup::Own(Some(own_descriptor(Value::Integer(1))))
    );
    assert_eq!(
        f.internal_get_own_property(&heap, PropertyKey::Name),
        RejectFunctionLookup::Own(Some(own_descriptor(Value::String(EMPTY_STRING))))
    );
    assert_eq!(f.internal_get_own_property(&heap, PropertyKey::Then), RejectFunctionLookup::Own(None));
    assert_eq!(f.internal_has_property(&heap, PropertyKey::Name), RejectFunctionLookup::Own(true));
    assert_eq!(f.internal_has_property(&heap, PropertyKey::Constructor), RejectFunctionLookup::Prototype);
    assert_eq!(f.internal_get(&heap, PropertyKey::Length), RejectFunctionLookup::Own(Value::Integer(1)));
    assert_eq!(f.internal_get(&heap, PropertyKey::String(5)), RejectFunctionLookup::Prototype);
    assert_eq!(
        f.internal_own_property_keys(&heap),
        RejectFunctionLookup::Own(vec![PropertyKey::Length, PropertyKey::Name])
    );
}

#[test]
fn reject_function_writes_need_a_backing_object() {
    let (mut heap, f) = heap_with_one();
    assert_eq!(f.internal_set(&heap, PropertyKey::Length), RejectFunctionLookup::Own(false));
    assert_eq!(f.internal_set(&heap, PropertyKey::Message), RejectFunctionLookup::CreateBackingObject);
    assert_eq!(f.internal_delete(&heap, PropertyKey::Name), RejectFunctionLookup::CreateBackingObject);
    assert_eq!(f.internal_delete(&heap, PropertyKey::Cause), RejectFunctionLookup::Own(true));
    assert_eq!(f.internal_define_own_property(&heap), RejectFunctionLookup::CreateBackingObject);
    assert_eq!(
        f.backing_object_entries(),
        vec![
            (PropertyKey::Length, own_descriptor(Value::Integer(1))),
            (PropertyKey::Name, own_descriptor(Value::String(EMPTY_STRING))),
        ]
    );
    f.create_backing_object(&mut heap, 7);
    assert_eq!(f.get_backing_object(&heap), Some(7));
    assert_eq!(heap.functions[0].promise, Promise(0));
    assert_eq!(f.internal_get(&heap, PropertyKey::Length), RejectFunctionLookup::BackingObject);
    assert_eq!(f.internal_set(&heap, PropertyKey::Length), RejectFunctionLookup::BackingObject);
    assert_eq!(f.internal_delete(&heap, PropertyKey::Cause), RejectFunctionLookup::BackingObject);
    assert_eq!(f.internal_define_own_property(&heap), RejectFunctionLookup::BackingObject);
    assert_eq!(f.internal_own_property_keys(&heap), RejectFunctionLookup::BackingObject);
    assert_eq!(f.internal_get_own_property(&heap, PropertyKey::Name), RejectFunctionLookup::BackingObject);
    assert_eq!(f.internal_has_property(&heap, PropertyKey::Name), RejectFunctionLookup::BackingObject);
}
