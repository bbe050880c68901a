//! ### [10.4.4 Arguments Exotic Objects](https://tc39.es/ecma262/#arguments-exotic-object)
//!
//! The ordinary-object version of an arguments object, as created for
//! strict functions and functions with non-simple parameter lists.

use vstd::prelude::*;
use crate::descriptor_map::ElementDescriptor;
use crate::elements::{CapacityError, ElementProperty, ElementsVector};
use crate::value::{ArgumentsList, PropertyKey, Value};

verus! {

/// An ordinary object record: its property keys in creation order, and the
/// value slot and descriptor of each, stored at the key's position.
pub struct ObjectRecord {
    pub keys: Vec<PropertyKey>,
    pub storage: ElementsVector,
    pub extensible: bool,
    pub prototype: Option<u32>,
}

impl ObjectRecord {
    /// There is a property slot for every key.
    pub open spec fn wf(&self) -> bool {
        &&& self.storage.wf()
        &&& self.storage.spec_len() == self.keys@.len()
    }
}

/// ### Arguments objects: an ordinary object holding the arguments of a call.
#[derive(Debug, Clone, Copy, PartialEq, Eq, Structural)]
pub struct UnmappedArguments(pub u32);

impl UnmappedArguments {
    /// The handle with the given index.
    pub fn from_index_u32(index: u32) -> (r: Self)
        ensures
            r.0 == index,
    {
        UnmappedArguments(index)
    }

    /// The index of this handle.
    pub fn get_index_u32(self) -> (r: u32)
        ensures
            r == self.0,
    {
        self.0
    }

    /// This arguments object's record in `source`, the arena of object
    /// records.
    pub fn get_direct(self, source: &Vec<ObjectRecord>) -> (r: &ObjectRecord)
        requires
            self.0 < source@.len(),
        ensures
            *r == source@[self.0 as int],
    {
        &source[self.0 as usize]
    }

    /// Exclusive access to this arguments object's record in `source`, the
    /// arena of object records; what is written through it lands there and
    /// nowhere else.
    pub fn get_direct_mut(self, source: &mut Vec<ObjectRecord>) -> (r: &mut ObjectRecord)
        requires
            self.0 < old(source)@.len(),
        ensures
            *r == old(source)@[self.0 as int],
            final(source)@ == old(source)@.update(self.0 as int, *final(r)),
    {
        &mut source[self.0 as usize]
    }
}

/// ### [10.4.4.6 CreateUnmappedArgumentsObject ( argumentsList )](https://tc39.es/ecma262/#sec-createunmappedargumentsobject)
///
/// Creates the ordinary object: "length" (writable, configurable, not
/// enumerable) holds the number of arguments; "callee" is an accessor whose
/// getter and setter are %ThrowTypeError% (neither enumerable nor
/// configurable); @@iterator holds %Array.prototype.values%; and each
/// argument is a plain data property under its index.
pub fn create_unmapped_arguments_object(
    arguments_list: &ArgumentsList,
    object_prototype: u32,
    array_prototype_values: u32,
    throw_type_error: u32,
) -> (r: Result<ObjectRecord, CapacityError>)
    requires
        arguments_list.values@.len() < u32::MAX - 3,
    ensures
        r matches Ok(obj) && {
            let len = arguments_list.values@.len();
            &&& obj.wf()
            &&& obj.extensible
            &&& obj.prototype == Some(object_prototype)
            &&& obj.keys@ == seq![PropertyKey::Length, PropertyKey::Callee, PropertyKey::SymbolIterator]
                + Seq::new(len, |i: int| PropertyKey::Index(i as u32))
            &&& obj.storage.property(0) == Some(ElementProperty::Data {
                value: Value::Integer(len as i64), writable: true, enumerable: false, configurable: true })
            &&& obj.storage.property(1) == Some(ElementProperty::Accessor {
                get: Some(throw_type_error), set: Some(throw_type_error), enumerable: false, configurable: false })
            &&& obj.storage.property(2) == Some(ElementProperty::Data {
                value: Value::Function(array_prototype_values), writable: true, enumerable: false, configurable: true })
            &&& forall|i: int| 0 <= i < len ==> #[trigger] obj.storage.property(i + 3) == Some(ElementProperty::Data {
                value: arguments_list.values@[i], writable: true, enumerable: true, configurable: true })
        },
{
    // 1. Let len be the number of elements in argumentsList.
    let len = arguments_list.len();
    // 2. Let obj be OrdinaryObjectCreate(%Object.prototype%, « [[ParameterMap]] »).
    let mut keys: Vec<PropertyKey> = Vec::new();
    keys.push(PropertyKey::Length);
    keys.push(PropertyKey::Callee);
    keys.push(PropertyKey::SymbolIterator);
    let mut storage = ElementsVector::new();
    let unenumerable = ElementDescriptor { accessor: false, writable: true, get: None, set: None, enumerable: false, configurable: true };
    // 4. Perform ! DefinePropertyOrThrow(obj, "length", PropertyDescriptor {
    //    [[Value]]: 𝔽(len), [[Writable]]: true, [[Enumerable]]: false,
    //    [[Configurable]]: true }).
    let _ = storage.push(Some(Value::Integer(len as i64)), Some(unenumerable));
    // 8. Perform ! DefinePropertyOrThrow(obj, "callee", PropertyDescriptor {
    //    [[Get]]: %ThrowTypeError%, [[Set]]: %ThrowTypeError%,
    //    [[Enumerable]]: false, [[Configurable]]: false }).
    let _ = storage.push(None, Some(ElementDescriptor {
        accessor: true,
        writable: false,
        get: Some(throw_type_error),
        set: Some(throw_type_error),
        enumerable: false,
        configurable: false,
    }));
    // 7. Perform ! DefinePropertyOrThrow(obj, @@iterator, PropertyDescriptor {
    //    [[Value]]: %Array.prototype.values%, [[Writable]]: true,
    //    [[Enumerable]]: false, [[Configurable]]: true }).
    let _ = storage.push(Some(Value::Function(array_prototype_values)), Some(unenumerable));
    assert(storage.property(0) == Some(ElementProperty::Data {
        value: Value::Integer(len as i64), writable: true, enumerable: false, configurable: true }));
    // 5. Let index be 0.
    // 6. Repeat, while index < len,
    let mut index: usize = 0;
    while index < len
        invariant
            storage.wf(),
            len == arguments_list.values@.len(),
            len < u32::MAX - 3,
            index <= len,
            storage.spec_len() == index + 3,
            keys@.len() == index + 3,
            keys@ == seq![PropertyKey::Length, PropertyKey::Callee, PropertyKey::SymbolIterator]
                + Seq::new(index as nat, |i: int| PropertyKey::Index(i as u32)),
            storage.property(0) == Some(ElementProperty::Data {
                value: Value::Integer(len as i64), writable: true, enumerable: false, configurable: true }),
            storage.property(1) == Some(ElementProperty::Accessor {
                get: Some(throw_type_error), set: Some(throw_type_error), enumerable: false, configurable: false }),
            storage.property(2) == Some(ElementProperty::Data {
                value: Value::Function(array_prototype_values), writable: true, enumerable: false, configurable: true }),
            forall|i: int| 0 <= i < index ==> #[trigger] storage.property(i + 3) == Some(ElementProperty::Data {
                value: arguments_list.values@[i], writable: true, enumerable: true, configurable: true }),
        decreases len - index,
    {
        // a. Let val be argumentsList[index].
        let val = arguments_list.get(index);
        // b. Perform ! CreateDataPropertyOrThrow(obj, ! ToString(𝔽(index)), val).
        let pushed = storage.push(Some(val), None);
        assert(pushed is Ok);
        keys.push(PropertyKey::Index(index as u32));
        proof {
            assert(keys@ == seq![PropertyKey::Length, PropertyKey::Callee, PropertyKey::SymbolIterator]
                + Seq::new((index + 1) as nat, |i: int| PropertyKey::Index(i as u32)));
            assert forall|i: int| 0 <= i < index + 1 implies #[trigger] storage.property(i + 3) == Some(ElementProperty::Data {
                value: arguments_list.values@[i], writable: true, enumerable: true, configurable: true }) by {
                if i < index {
                    assert(storage.property(i + 3) == Some(ElementProperty::Data {
                        value: arguments_list.values@[i], writable: true, enumerable: true, configurable: true }));
                }
            }
        }
        // c. Set index to index + 1.
        index = index + 1;
    }
    // 9. Return obj.
    Ok(ObjectRecord { keys, storage, extensible: true, prototype: Some(object_prototype) })
}

impl ObjectRecord {
    /// \[\[IsExtensible]]
    pub fn internal_extensible(&self) -> (r: bool)
        ensures
            r == self.extensible,
    {
        self.extensible
    }

    /// Sets \[\[Extensible]].
    pub fn internal_set_extensible(&mut self, value: bool)
        ensures
            final(self).extensible == value,
            final(self).keys@ == old(self).keys@,
            final(self).prototype == old(self).prototype,
    {
        self.extensible = value;
    }

    /// \[\[GetPrototypeOf]]
    pub fn internal_prototype(&self) -> (r: Option<u32>)
        ensures
            r == self.prototype,
    {
        self.prototype
    }

    /// Sets \[\[Prototype]].
    pub fn internal_set_prototype(&mut self, prototype: Option<u32>)
        ensures
            final(self).prototype == prototype,
            final(self).keys@ == old(self).keys@,
            final(self).extensible == old(self).extensible,
    {
        self.prototype = prototype;
    }
}

} // verus!
