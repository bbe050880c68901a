use nova_vm::arguments::{create_unmapped_arguments_object, ObjectRecord, UnmappedArguments};
use nova_vm::array::{
    array_create, array_set_length, array_try_set_length, Array, ArrayHeap, ArrayLookup,
    ElementGet,
};
use nova_vm::descriptor_map::ElementDescriptor;
use nova_vm::elements::ElementsVector;
use nova_vm::value::{ArgumentsList, ExceptionType, JsError, PropertyDescriptor, PropertyKey, Value};

fn length_desc(v: Value) -> PropertyDescriptor {
    PropertyDescriptor { value: Some(v), ..PropertyDescriptor::empty() }
}

fn frozen_element() -> ElementDescriptor {
    ElementDescriptor { accessor: false, writable: false, get: None, set: None, enumerable: true, configurable: false }
}

#[test]
fn array_create_refuses_too_long() {
    let mut heap = ArrayHeap::new();
    let r = array_create(&mut heap, 4294967296, 0, None);
    assert_eq!(r, Err(JsError::Exception(ExceptionType::RangeError)));
    assert_eq!(heap.arrays.len(), 0);
}

#[test]
fn array_create_makes_holes() {
    let mut heap = ArrayHeap::new();
    let a = array_create(&mut heap, 3, 10, Some(5)).unwrap();
    assert_eq!(a, Array(0));
    assert_eq!(a.len(&heap), 3);
    assert_eq!(heap.arrays[0].object_index, Some(5));
    assert_eq!(a.as_slice(&heap), &[None, None, None][..]);
    assert!(!a.is_dense(&heap));
    assert!(a.is_simple(&heap));
    assert!(a.is_trivial(&heap));
}

#[test]
fn push_and_from_slice() {
    let mut heap = ArrayHeap::new();
    let a = Array::new(&mut heap);
    assert!(a.is_empty(&heap));
    assert_eq!(a.push(&mut heap, Value::Integer(1)), Ok(()));
    assert_eq!(a.push(&mut heap, Value::Integer(2)), Ok(()));
    assert_eq!(a.len(&heap), 2);
    let b = Array::from_slice(&mut heap, &[Value::Null, Value::Boolean(true)]);
    assert_eq!(b, Array(1));
    assert_eq!(b.as_slice(&heap), &[Some(Value::Null), Some(Value::Boolean(true))][..]);
    assert!(b.is_dense(&heap));
    // The first array is untouched.
    assert_eq!(a.as_slice(&heap), &[Some(Value::Integer(1)), Some(Value::Integer(2))][..]);
}

#[test]
fn to_cloned_copies_values_only() {
    let mut heap = ArrayHeap::new();
    let a = Array::from_slice(&mut heap, &[Value::Integer(1), Value::Integer(2)]);
    a.get_elements_mut(&mut heap).set_element(1, Some(Value::Integer(2)), Some(frozen_element()));
    assert!(!a.is_trivial(&heap));
    let c = a.to_cloned(&mut heap);
    assert_eq!(c, Array(1));
    assert_eq!(c.as_slice(&heap), a.as_slice(&heap));
    assert!(c.is_trivial(&heap));
    assert!(c.length_writable(&heap));
}

#[test]
fn get_elements_mut_writes_through() {
    let mut heap = ArrayHeap::new();
    let a = Array::from_slice(&mut heap, &[Value::Integer(1)]);
    let b = Array::from_slice(&mut heap, &[Value::Integer(9)]);
    a.get_elements_mut(&mut heap).set_element(0, Some(Value::Null), None);
    assert_eq!(a.get_elements(&heap).values, vec![Some(Value::Null)]);
    assert_eq!(b.get_elements(&heap).values, vec![Some(Value::Integer(9))]);
}

#[test]
fn set_length_shrinks_and_grows() {
    let mut e = ElementsVector::new();
    for i in 0..4 {
        e.push(Some(Value::Integer(i)), None).unwrap();
    }
    assert_eq!(array_set_length(&mut e, length_desc(Value::Integer(2))), Ok(true));
    assert_eq!(e.values, vec![Some(Value::Integer(0)), Some(Value::Integer(1))]);
    assert_eq!(array_set_length(&mut e, length_desc(Value::Integer(4))), Ok(true));
    assert_eq!(e.values.len(), 4);
    assert_eq!(e.values[3], None);
}

#[test]
fn set_length_stops_at_non_configurable_element() {
    let mut e = ElementsVector::new();
    for i in 0..5 {
        e.push(Some(Value::Integer(i)), None).unwrap();
    }
    e.set_element(2, Some(Value::Integer(2)), Some(frozen_element()));
    let desc = PropertyDescriptor { writable: Some(false), ..length_desc(Value::Integer(0)) };
    assert_eq!(array_set_length(&mut e, desc), Ok(false));
    assert_eq!(e.values.len(), 3);
    assert_eq!(e.values[2], Some(Value::Integer(2)));
    assert!(!e.len_writable);
}

#[test]
fn set_length_errors() {
    let mut e = ElementsVector::new();
    assert_eq!(
        array_set_length(&mut e, length_desc(Value::Integer(-1))),
        Err(JsError::Exception(ExceptionType::RangeError))
    );
    assert_eq!(
        array_set_length(&mut e, length_desc(Value::Integer(4294967296))),
        Err(JsError::Exception(ExceptionType::RangeError))
    );
    assert_eq!(
        array_set_length(&mut e, length_desc(Value::Symbol(0))),
        Err(JsError::Exception(ExceptionType::TypeError))
    );
    assert_eq!(e.values.len(), 0);
}

#[test]
fn set_length_without_value() {
    let mut e = ElementsVector::with_length(2);
    assert_eq!(array_set_length(&mut e, PropertyDescriptor::empty()), Ok(true));
    let enumerable = PropertyDescriptor { enumerable: Some(true), ..PropertyDescriptor::empty() };
    assert_eq!(array_set_length(&mut e, enumerable), Ok(false));
    let freeze = PropertyDescriptor { writable: Some(false), ..PropertyDescriptor::empty() };
    assert_eq!(array_set_length(&mut e, freeze), Ok(true));
    assert!(!e.len_writable);
    let thaw = PropertyDescriptor { writable: Some(true), ..PropertyDescriptor::empty() };
    assert_eq!(array_set_length(&mut e, thaw), Ok(false));
    // A frozen length cannot change.
    assert_eq!(array_set_length(&mut e, length_desc(Value::Integer(5))), Ok(false));
    assert_eq!(e.values.len(), 2);
}

#[test]
fn try_set_length_leaves_conversions_to_the_caller() {
    let mut e = ElementsVector::with_length(2);
    assert_eq!(array_try_set_length(&mut e, length_desc(Value::Null)), None);
    assert_eq!(array_try_set_length(&mut e, length_desc(Value::Integer(-5))), None);
    assert_eq!(e.values.len(), 2);
    assert_eq!(array_try_set_length(&mut e, length_desc(Value::Integer(1))), Some(true));
    assert_eq!(e.values.len(), 1);
}

#[test]
fn own_property_lookups() {
    let mut heap = ArrayHeap::new();
    let a = Array::from_slice(&mut heap, &[Value::Integer(7)]);
    match a.try_get(&heap, PropertyKey::Index(0)) {
        ArrayLookup::Own(g) => assert_eq!(g, ElementGet::Value(Value::Integer(7))),
        ArrayLookup::Backing => panic!("element not found"),
    }
    match a.try_get(&heap, PropertyKey::Length) {
        ArrayLookup::Own(g) => assert_eq!(g, ElementGet::Value(Value::Integer(1))),
        ArrayLookup::Backing => panic!("length not found"),
    }
    assert!(matches!(a.try_get(&heap, PropertyKey::Index(5)), ArrayLookup::Backing));
    assert!(matches!(a.try_get(&heap, PropertyKey::Name), ArrayLookup::Backing));
    assert!(matches!(a.try_has_property(&heap, PropertyKey::Index(0)), ArrayLookup::Own(true)));
    match a.try_get_own_property(&heap, PropertyKey::Length) {
        ArrayLookup::Own(Some(d)) => {
            assert_eq!(d.value, Some(Value::Integer(1)));
            assert_eq!(d.writable, Some(true));
            assert_eq!(d.enumerable, Some(false));
            assert_eq!(d.configurable, Some(false));
        }
        _ => panic!("length has a descriptor"),
    }
    assert_eq!(
        a.try_own_property_keys(&heap),
        vec![PropertyKey::Index(0), PropertyKey::Length]
    );
}

#[test]
fn delete_elements() {
    let mut heap = ArrayHeap::new();
    let a = Array::from_slice(&mut heap, &[Value::Integer(1), Value::Integer(2)]);
    a.get_elements_mut(&mut heap).set_element(1, Some(Value::Integer(2)), Some(frozen_element()));
    assert!(matches!(a.try_delete(&mut heap, PropertyKey::Index(0)), ArrayLookup::Own(true)));
    assert!(matches!(a.try_delete(&mut heap, PropertyKey::Index(1)), ArrayLookup::Own(false)));
    assert!(matches!(a.try_delete(&mut heap, PropertyKey::Length), ArrayLookup::Own(false)));
    assert_eq!(a.as_slice(&heap), &[None, Some(Value::Integer(2))][..]);
    assert_eq!(a.try_own_property_keys(&heap), vec![PropertyKey::Index(1), PropertyKey::Length]);
}

#[test]
fn define_own_property_past_the_end_grows() {
    let mut heap = ArrayHeap::new();
    let a = Array::new(&mut heap);
    let desc = PropertyDescriptor {
        value: Some(Value::Integer(3)),
        writable: Some(true),
        enumerable: Some(true),
        configurable: Some(true),
        ..PropertyDescriptor::empty()
    };
    assert!(matches!(
        a.internal_define_own_property(&mut heap, PropertyKey::Index(2), desc),
        ArrayLookup::Own(Ok(true))
    ));
    assert_eq!(a.as_slice(&heap), &[None, None, Some(Value::Integer(3))][..]);
    // A non-writable length refuses new elements.
    a.set_length_readonly(&mut heap);
    assert!(matches!(
        a.internal_define_own_property(&mut heap, PropertyKey::Index(5), desc),
        ArrayLookup::Own(Ok(false))
    ));
    assert_eq!(a.len(&heap), 3);
}

#[test]
fn define_own_property_respects_non_configurable() {
    let mut heap = ArrayHeap::new();
    let a = Array::from_slice(&mut heap, &[Value::Integer(1)]);
    a.get_elements_mut(&mut heap).set_element(0, Some(Value::Integer(1)), Some(frozen_element()));
    let change = PropertyDescriptor { value: Some(Value::Integer(2)), ..PropertyDescriptor::empty() };
    assert!(matches!(
        a.internal_define_own_property(&mut heap, PropertyKey::Index(0), change),
        ArrayLookup::Own(Ok(false))
    ));
    assert_eq!(a.as_slice(&heap), &[Some(Value::Integer(1))][..]);
    let same = PropertyDescriptor { value: Some(Value::Integer(1)), ..PropertyDescriptor::empty() };
    assert!(matches!(
        a.internal_define_own_property(&mut heap, PropertyKey::Index(0), same),
        ArrayLookup::Own(Ok(true))
    ));
    let e = a.get_elements(&heap);
    assert_eq!(e.descriptor_at(0), Some(frozen_element()));
}

#[test]
fn unmapped_arguments_object() {
    let args = ArgumentsList { values: vec![Value::Integer(10), Value::Null] };
    let obj = create_unmapped_arguments_object(&args, 1, 2, 3).unwrap();
    assert_eq!(
        obj.keys,
        vec![
            PropertyKey::Length,
            PropertyKey::Callee,
            PropertyKey::SymbolIterator,
            PropertyKey::Index(0),
            PropertyKey::Index(1)
        ]
    );
    assert_eq!(obj.storage.values[0], Some(Value::Integer(2)));
    assert_eq!(obj.storage.values[2], Some(Value::Function(2)));
    assert_eq!(obj.storage.values[3], Some(Value::Integer(10)));
    assert_eq!(obj.storage.values[4], Some(Value::Null));
    let callee = obj.storage.descriptor_at(1).unwrap();
    assert!(callee.accessor);
    assert_eq!(callee.get, Some(3));
    assert_eq!(callee.set, Some(3));
    assert!(!callee.configurable);
    assert_eq!(obj.storage.descriptor_at(3), None);
    assert!(obj.internal_extensible());
    assert_eq!(obj.internal_prototype(), Some(1));
}

#[test]
fn unmapped_arguments_get_direct_mut() {
    let args = ArgumentsList { values: vec![] };
    let mut records: Vec<ObjectRecord> = vec![create_unmapped_arguments_object(&args, 1, 2, 3).unwrap()];
    let handle = UnmappedArguments(0);
    handle.get_direct_mut(&mut records).internal_set_extensible(false);
    assert!(!records[0].internal_extensible());
    handle.get_direct_mut(&mut records).internal_set_prototype(None);
    assert_eq!(records[0].internal_prototype(), None);
}

#[test]
fn set_len_truncates_and_extends_with_holes() {
    let mut heap = ArrayHeap::new();
    assert_eq!(Array::next_array(&heap), Array(0));
    let a = Array::from_slice(&mut heap, &[Value::Integer(1), Value::Integer(2), Value::Integer(3)]);
    assert_eq!(Array::next_array(&heap), Array(1));
    a.set_len(&mut heap, 1);
    assert_eq!(a.len(&heap), 1);
    assert_eq!(a.as_slice(&heap), &[Some(Value::Integer(1))]);
    a.set_len(&mut heap, 3);
    assert_eq!(a.len(&heap), 3);
    assert_eq!(a.as_slice(&heap), &[Some(Value::Integer(1)), None, None]);
    assert!(a.length_writable(&heap));
}

#[test]
fn unmapped_arguments_handles() {
    let args = ArgumentsList { values: vec![Value::Integer(4)] };
    let records: Vec<ObjectRecord> = vec![create_unmapped_arguments_object(&args, 1, 2, 3).unwrap()];
    let handle = UnmappedArguments::from_index_u32(0);
    assert_eq!(handle.get_index_u32(), 0);
    let record = handle.get_direct(&records);
    assert_eq!(record.keys.len(), 4);
    assert_eq!(record.keys[3], PropertyKey::Index(0));
}

#[test]
fn defined_element_reads_back() {
    let mut heap = ArrayHeap::new();
    let a = Array::from_slice(&mut heap, &[Value::Integer(1), Value::Integer(2)]);
    let desc = PropertyDescriptor { value: Some(Value::Integer(5)), ..PropertyDescriptor::empty() };
    assert!(matches!(
        a.internal_define_own_property(&mut heap, PropertyKey::Index(1), desc),
        ArrayLookup::Own(Ok(true))
    ));
    match a.try_get(&heap, PropertyKey::Index(1)) {
        ArrayLookup::Own(g) => assert_eq!(g, ElementGet::Value(Value::Integer(5))),
        ArrayLookup::Backing => panic!("element not found"),
    }
    match a.try_get(&heap, PropertyKey::Index(0)) {
        ArrayLookup::Own(g) => assert_eq!(g, ElementGet::Value(Value::Integer(1))),
        ArrayLookup::Backing => panic!("element not found"),
    }
}

#[test]
fn with_capacity_makes_an_empty_array() {
    let mut heap = ArrayHeap::new();
    let a = Array::with_capacity(&mut heap, 8).unwrap();
    assert_eq!(a, Array(0));
    assert_eq!(a.len(&heap), 0);
    assert!(a.is_empty(&heap));
    assert!(a.length_writable(&heap));
    assert_eq!(heap.arrays[0].object_index, None);
    assert_eq!(a.push(&mut heap, Value::Integer(3)), Ok(()));
    assert_eq!(a.as_slice(&heap), &[Some(Value::Integer(3))][..]);
}

#[test]
fn data_element_turned_accessor_has_an_empty_slot() {
    let mut e = ElementsVector::new();
    e.push(Some(Value::Integer(1)), None).unwrap();
    let getter = PropertyDescriptor { get: Some(Some(9)), ..PropertyDescriptor::empty() };
    assert!(nova_vm::array::ordinary_define_own_property_for_array(&mut e, 0, getter));
    assert_eq!(e.values, vec![None]);
    assert_eq!(
        e.descriptor_at(0),
        Some(ElementDescriptor { accessor: true, writable: false, get: Some(9), set: None, enumerable: true, configurable: true })
    );
}

#[test]
fn refused_definition_changes_nothing() {
    let mut e = ElementsVector::new();
    e.push(Some(Value::Integer(1)), Some(frozen_element())).unwrap();
    let change = PropertyDescriptor { value: Some(Value::Integer(2)), ..PropertyDescriptor::empty() };
    assert!(!nova_vm::array::ordinary_define_own_property_for_array(&mut e, 0, change));
    assert_eq!(e.values, vec![Some(Value::Integer(1))]);
    assert_eq!(e.descriptor_at(0), Some(frozen_element()));
}

#[test]
fn growing_keeps_the_stored_elements() {
    let mut e = ElementsVector::new();
    e.push(Some(Value::Integer(1)), Some(frozen_element())).unwrap();
    let grow = PropertyDescriptor { value: Some(Value::Integer(3)), ..PropertyDescriptor::empty() };
    assert_eq!(array_try_set_length(&mut e, grow), Some(true));
    assert_eq!(e.values, vec![Some(Value::Integer(1)), None, None]);
    assert_eq!(e.descriptor_at(0), Some(frozen_element()));
}
