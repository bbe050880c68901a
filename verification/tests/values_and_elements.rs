use nova_vm::descriptor_map::ElementDescriptor;
use nova_vm::elements::{ElementsVector, CapacityError};
use nova_vm::value::{
    same_value, to_boolean, to_index, ArgumentsList, ExceptionType, JsError, PropertyDescriptor,
    Value,
};

fn data_desc(writable: bool, enumerable: bool, configurable: bool) -> ElementDescriptor {
    ElementDescriptor { accessor: false, writable, get: None, set: None, enumerable, configurable }
}

#[test]
fn to_index_of_primitives() {
    assert_eq!(to_index(Value::Undefined), Ok(0));
    assert_eq!(to_index(Value::Null), Ok(0));
    assert_eq!(to_index(Value::Boolean(true)), Ok(1));
    assert_eq!(to_index(Value::Integer(42)), Ok(42));
    assert_eq!(to_index(Value::Integer(9007199254740991)), Ok(9007199254740991));
}

#[test]
fn to_index_errors() {
    assert_eq!(to_index(Value::Integer(-1)), Err(JsError::Exception(ExceptionType::RangeError)));
    assert_eq!(
        to_index(Value::Integer(9007199254740992)),
        Err(JsError::Exception(ExceptionType::RangeError))
    );
    assert_eq!(to_index(Value::Symbol(3)), Err(JsError::Exception(ExceptionType::TypeError)));
}

#[test]
fn to_boolean_and_same_value() {
    assert!(!to_boolean(Value::Undefined));
    assert!(!to_boolean(Value::Null));
    assert!(!to_boolean(Value::Integer(0)));
    assert!(to_boolean(Value::Integer(-3)));
    assert!(to_boolean(Value::Object(0)));
    assert!(!to_boolean(Value::String(nova_vm::value::EMPTY_STRING)));
    assert!(to_boolean(Value::String(4)));
    assert!(same_value(Value::Integer(5), Value::Integer(5)));
    assert!(!same_value(Value::Integer(5), Value::Boolean(true)));
    assert!(!same_value(Value::Object(1), Value::Object(2)));
}

#[test]
fn value_predicates() {
    assert!(Value::Array(0).is_object());
    assert!(!Value::String(0).is_object());
    assert!(Value::String(0).is_string());
    assert!(Value::Function(7).is_callable());
    assert!(!Value::Object(7).is_callable());
    assert!(Value::Undefined.is_undefined());
    assert!(Value::Null.is_null());
}

#[test]
fn arguments_list_reads_undefined_past_the_end() {
    let args = ArgumentsList { values: vec![Value::Integer(1), Value::Null] };
    assert_eq!(args.len(), 2);
    assert_eq!(args.get(0), Value::Integer(1));
    assert_eq!(args.get(1), Value::Null);
    assert_eq!(args.get(2), Value::Undefined);
}

#[test]
fn property_descriptor_kinds() {
    let empty = PropertyDescriptor::empty();
    assert!(!empty.has_fields());
    assert!(empty.is_generic_descriptor());
    let data = PropertyDescriptor { value: Some(Value::Integer(1)), ..PropertyDescriptor::empty() };
    assert!(data.is_data_descriptor());
    assert!(!data.is_accessor_descriptor());
    let accessor = PropertyDescriptor { get: Some(None), ..PropertyDescriptor::empty() };
    assert!(accessor.is_accessor_descriptor());
    assert!(!accessor.is_generic_descriptor());
}

#[test]
fn element_descriptors_are_stored_replaced_and_removed() {
    let mut e = ElementsVector::with_length(4);
    assert_eq!(e.descriptor_at(3), None);
    let d = data_desc(false, true, true);
    e.set_element(3, Some(Value::Integer(1)), Some(d));
    assert_eq!(e.descriptor_at(3), Some(d));
    let d2 = data_desc(true, false, false);
    e.set_element(3, Some(Value::Integer(2)), Some(d2));
    assert_eq!(e.descriptor_at(3), Some(d2));
    e.clear_element(3);
    assert_eq!(e.descriptor_at(3), None);
    assert_eq!(e.descriptor_at(0), None);
}

#[test]
fn element_descriptor_from_wec() {
    assert_eq!(ElementDescriptor::new_with_wec(true, true, true), None);
    assert_eq!(ElementDescriptor::new_with_wec(false, true, true), Some(data_desc(false, true, true)));
    let d = data_desc(false, false, true);
    assert_eq!(d.is_writable(), Some(false));
    assert!(!d.is_enumerable());
    assert!(d.is_configurable());
    assert!(d.is_data_descriptor());
    assert_eq!(d.getter_function(), None);
}

#[test]
fn element_descriptor_from_property_descriptor() {
    let accessor = PropertyDescriptor {
        get: Some(Some(4)),
        set: Some(None),
        enumerable: Some(true),
        ..PropertyDescriptor::empty()
    };
    let d = ElementDescriptor::from_property_descriptor(accessor).unwrap();
    assert!(d.is_accessor_descriptor());
    assert_eq!(d.getter_function(), Some(4));
    assert_eq!(d.setter_function(), None);
    assert!(d.is_enumerable());
    assert!(!d.is_configurable());
    assert_eq!(d.is_writable(), None);
    // A data descriptor with no attributes: everything false.
    let data = PropertyDescriptor { value: Some(Value::Integer(0)), ..PropertyDescriptor::empty() };
    assert_eq!(
        ElementDescriptor::from_property_descriptor(data),
        Some(data_desc(false, false, false))
    );
    // All attributes true: no descriptor needed.
    let plain = PropertyDescriptor {
        writable: Some(true),
        enumerable: Some(true),
        configurable: Some(true),
        ..PropertyDescriptor::empty()
    };
    assert_eq!(ElementDescriptor::from_property_descriptor(plain), None);
}

#[test]
fn element_to_property_descriptor() {
    let plain = ElementDescriptor::to_property_descriptor(None, Some(Value::Integer(3)));
    assert_eq!(plain.value, Some(Value::Integer(3)));
    assert_eq!(plain.writable, Some(true));
    assert_eq!(plain.enumerable, Some(true));
    assert_eq!(plain.configurable, Some(true));
    let acc = ElementDescriptor::from_accessor_descriptor_fields(Some(1), Some(2), false, true);
    let pd = ElementDescriptor::to_property_descriptor(Some(acc), None);
    assert_eq!(pd.value, None);
    assert_eq!(pd.get, Some(Some(1)));
    assert_eq!(pd.set, Some(Some(2)));
    assert_eq!(pd.enumerable, Some(false));
    assert_eq!(pd.configurable, Some(true));
}

#[test]
fn elements_vector_push_set_clear() {
    let mut e = ElementsVector::new();
    assert!(e.is_empty());
    assert_eq!(e.push(Some(Value::Integer(1)), None), Ok(()));
    assert_eq!(e.push(Some(Value::Integer(2)), Some(data_desc(false, true, true))), Ok(()));
    assert_eq!(e.len(), 2);
    assert_eq!(e.values, vec![Some(Value::Integer(1)), Some(Value::Integer(2))]);
    assert_eq!(e.descriptor_at(1), Some(data_desc(false, true, true)));
    e.set_element(0, Some(Value::Null), Some(data_desc(true, false, true)));
    assert_eq!(e.values[0], Some(Value::Null));
    assert_eq!(e.descriptor_at(0), Some(data_desc(true, false, true)));
    e.clear_element(1);
    assert_eq!(e.values[1], None);
    assert_eq!(e.descriptor_at(1), None);
    assert_eq!(e.len(), 2);
}

#[test]
fn elements_vector_truncate_and_extend() {
    let mut e = ElementsVector::with_length(3);
    assert_eq!(e.len(), 3);
    assert_eq!(e.values, vec![None, None, None]);
    e.set_element(2, Some(Value::Integer(9)), Some(data_desc(false, false, false)));
    e.set_element(0, Some(Value::Integer(7)), None);
    e.truncate(1);
    assert_eq!(e.len(), 1);
    assert_eq!(e.values, vec![Some(Value::Integer(7))]);
    assert_eq!(e.descriptor_at(2), None);
    e.extend_to(4);
    assert_eq!(e.values, vec![Some(Value::Integer(7)), None, None, None]);
    assert!(e.len_writable);
}

#[test]
fn capacity_error_is_comparable() {
    assert_eq!(CapacityError, CapacityError);
}
