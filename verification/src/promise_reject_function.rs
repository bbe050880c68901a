//! The object side of [27.2.1.3.1 Promise Reject Functions](https://tc39.es/ecma262/#sec-promise-reject-functions).
//!
//! A promise reject function has a "length" of 1 and an empty "name", both
//! neither writable nor enumerable but configurable. Until it gets a backing
//! object it answers its internal methods from these two alone; everything
//! else goes to its prototype or to a backing object that must be made
//! first.

use vstd::prelude::*;
use crate::promise::{BuiltinPromiseRejectFunction, PromiseRejectFunctionHeapData};
use crate::value::{PropertyDescriptor, PropertyKey, Value, EMPTY_STRING};

verus! {

/// The arena of promise reject functions.
pub struct PromiseRejectFunctionHeap {
    pub functions: Vec<PromiseRejectFunctionHeapData>,
}

impl PromiseRejectFunctionHeap {
    pub open spec fn contains(&self, f: BuiltinPromiseRejectFunction) -> bool {
        f.0 < self.functions@.len()
    }

    pub open spec fn data(&self, f: BuiltinPromiseRejectFunction) -> PromiseRejectFunctionHeapData {
        self.functions@[f.0 as int]
    }

    pub fn new() -> (r: Self)
        ensures
            r.functions@.len() == 0,
    {
        PromiseRejectFunctionHeap { functions: Vec::new() }
    }

    /// Adds a reject function with the given data.
    pub fn create(&mut self, data: PromiseRejectFunctionHeapData) -> (r: BuiltinPromiseRejectFunction)
        requires
            old(self).functions@.len() < u32::MAX,
        ensures
            r.0 == old(self).functions@.len(),
            final(self).functions@ == old(self).functions@.push(data),
    {
        let index = self.functions.len() as u32;
        self.functions.push(data);
        BuiltinPromiseRejectFunction(index)
    }
}

/// Who answers an internal method of a reject function: the function
/// itself, the ordinary method on its backing object, the ordinary method
/// on its prototype (there is no backing object), or the ordinary method on
/// a backing object that must be created first.
#[derive(Debug, Clone, Copy, PartialEq, Eq)]
pub enum RejectFunctionLookup<T> {
    Own(T),
    BackingObject,
    Prototype,
    CreateBackingObject,
}

/// The value that a reject function without backing object holds under
/// `key`: 1 for "length", the empty String for "name".
pub open spec fn own_value(key: PropertyKey) -> Option<Value> {
    match key {
        PropertyKey::Length => Some(Value::Integer(1)),
        PropertyKey::Name => Some(Value::String(EMPTY_STRING)),
        _ => None,
    }
}

/// The descriptor of "length" and "name": a data property that is neither
/// writable nor enumerable, but configurable.
pub open spec fn own_descriptor(value: Value) -> PropertyDescriptor {
    PropertyDescriptor {
        value: Some(value),
        writable: Some(false),
        get: None,
        set: None,
        enumerable: Some(false),
        configurable: Some(true),
    }
}

fn get_own_value(key: PropertyKey) -> (r: Option<Value>)
    ensures
        r == own_value(key),
{
    match key {
        PropertyKey::Length => Some(Value::Integer(1)),
        PropertyKey::Name => Some(Value::String(EMPTY_STRING)),
        _ => None,
    }
}

fn make_own_descriptor(value: Value) -> (r: PropertyDescriptor)
    ensures
        r == own_descriptor(value),
{
    PropertyDescriptor {
        value: Some(value),
        writable: Some(false),
        get: None,
        set: None,
        enumerable: Some(false),
        configurable: Some(true),
    }
}

impl BuiltinPromiseRejectFunction {
    /// The backing object, if one was made.
    pub fn get_backing_object(self, heap: &PromiseRejectFunctionHeap) -> (r: Option<u32>)
        requires
            heap.contains(self),
        ensures
            r == heap.data(self).object_index,
    {
        heap.functions[self.0 as usize].object_index
    }

    /// The properties that the backing object is made with, in order:
    /// "length" and then "name".
    pub fn backing_object_entries(self) -> (r: Vec<(PropertyKey, PropertyDescriptor)>)
        ensures
            r@ == seq![
                (PropertyKey::Length, own_descriptor(Value::Integer(1))),
                (PropertyKey::Name, own_descriptor(Value::String(EMPTY_STRING))),
            ],
    {
        let mut entries: Vec<(PropertyKey, PropertyDescriptor)> = Vec::new();
        entries.push((PropertyKey::Length, make_own_descriptor(Value::Integer(1))));
        entries.push((PropertyKey::Name, make_own_descriptor(Value::String(EMPTY_STRING))));
        entries
    }

    /// Records the backing object that the engine made from
    /// [`Self::backing_object_entries`]; there must be none yet.
    pub fn create_backing_object(self, heap: &mut PromiseRejectFunctionHeap, backing_object: u32)
        requires
            old(heap).contains(self),
            old(heap).data(self).object_index is None,
        ensures
            final(heap).functions@ == old(heap).functions@.update(self.0 as int, PromiseRejectFunctionHeapData {
                object_index: Some(backing_object),
                ..old(heap).data(self)
            }),
    {
        let i = self.0 as usize;
        let mut data = heap.functions[i];
        data.object_index = Some(backing_object);
        heap.functions.set(i, data);
    }

    /// \[\[GetOwnProperty]]: without a backing object, "length" and "name"
    /// are the function's own properties, and nothing else is.
    pub fn internal_get_own_property(self, heap: &PromiseRejectFunctionHeap, key: PropertyKey) -> (r: RejectFunctionLookup<Option<PropertyDescriptor>>)
        requires
            heap.contains(self),
        ensures
            heap.data(self).object_index is Some ==> r == RejectFunctionLookup::<Option<PropertyDescriptor>>::BackingObject,
            heap.data(self).object_index is None ==> r == RejectFunctionLookup::Own(match own_value(key) {
                Some(v) => Some(own_descriptor(v)),
                None => None::<PropertyDescriptor>,
            }),
    {
        if heap.functions[self.0 as usize].object_index.is_some() {
            return RejectFunctionLookup::BackingObject;
        }
        match get_own_value(key) {
            Some(value) => RejectFunctionLookup::Own(Some(make_own_descriptor(value))),
            None => RejectFunctionLookup::Own(None),
        }
    }

    /// \[\[DefineOwnProperty]] always goes to the backing object, which is
    /// made first where there is none.
    pub fn internal_define_own_property(self, heap: &PromiseRejectFunctionHeap) -> (r: RejectFunctionLookup<bool>)
        requires
            heap.contains(self),
        ensures
            heap.data(self).object_index is Some ==> r == RejectFunctionLookup::<bool>::BackingObject,
            heap.data(self).object_index is None ==> r == RejectFunctionLookup::<bool>::CreateBackingObject,
    {
        if heap.functions[self.0 as usize].object_index.is_some() {
            RejectFunctionLookup::BackingObject
        } else {
            RejectFunctionLookup::CreateBackingObject
        }
    }

    /// \[\[HasProperty]]: without a backing object, "length" and "name" are
    /// found; anything else is asked of the prototype.
    pub fn internal_has_property(self, heap: &PromiseRejectFunctionHeap, key: PropertyKey) -> (r: RejectFunctionLookup<bool>)
        requires
            heap.contains(self),
        ensures
            heap.data(self).object_index is Some ==> r == RejectFunctionLookup::<bool>::BackingObject,
            heap.data(self).object_index is None && own_value(key) is Some ==> r == RejectFunctionLookup::Own(true),
            heap.data(self).object_index is None && own_value(key) is None ==> r == RejectFunctionLookup::<bool>::Prototype,
    {
        if heap.functions[self.0 as usize].object_index.is_some() {
            return RejectFunctionLookup::BackingObject;
        }
        if get_own_value(key).is_some() {
            RejectFunctionLookup::Own(true)
        } else {
            RejectFunctionLookup::Prototype
        }
    }

    /// \[\[Get]]: without a backing object, "length" is 1 and "name" the
    /// empty String; anything else is read from the prototype.
    pub fn internal_get(self, heap: &PromiseRejectFunctionHeap, key: PropertyKey) -> (r: RejectFunctionLookup<Value>)
        requires
            heap.contains(self),
        ensures
            heap.data(self).object_index is Some ==> r == RejectFunctionLookup::<Value>::BackingObject,
            heap.data(self).object_index is None && own_value(key) is Some ==> r == RejectFunctionLookup::Own(own_value(key)->Some_0),
            heap.data(self).object_index is None && own_value(key) is None ==> r == RejectFunctionLookup::<Value>::Prototype,
    {
        if heap.functions[self.0 as usize].object_index.is_some() {
            return RejectFunctionLookup::BackingObject;
        }
        match get_own_value(key) {
            Some(value) => RejectFunctionLookup::Own(value),
            None => RejectFunctionLookup::Prototype,
        }
    }

    /// \[\[Set]]: without a backing object, "length" and "name" are not
    /// writable, so setting them fails; any other key is set on a backing
    /// object made for it.
    pub fn internal_set(self, heap: &PromiseRejectFunctionHeap, key: PropertyKey) -> (r: RejectFunctionLookup<bool>)
        requires
            heap.contains(self),
        ensures
            heap.data(self).object_index is Some ==> r == RejectFunctionLookup::<bool>::BackingObject,
            heap.data(self).object_index is None && own_value(key) is Some ==> r == RejectFunctionLookup::Own(false),
            heap.data(self).object_index is None && own_value(key) is None ==> r == RejectFunctionLookup::<bool>::CreateBackingObject,
    {
        if heap.functions[self.0 as usize].object_index.is_some() {
            return RejectFunctionLookup::BackingObject;
        }
        if get_own_value(key).is_some() {
            // length and name are not writable
            RejectFunctionLookup::Own(false)
        } else {
            RejectFunctionLookup::CreateBackingObject
        }
    }

    /// \[\[Delete]]: without a backing object, deleting "length" or "name"
    /// needs one made first; deleting a property that does not exist
    /// succeeds.
    pub fn internal_delete(self, heap: &PromiseRejectFunctionHeap, key: PropertyKey) -> (r: RejectFunctionLookup<bool>)
        requires
            heap.contains(self),
        ensures
            heap.data(self).object_index is Some ==> r == RejectFunctionLookup::<bool>::BackingObject,
            heap.data(self).object_index is None && own_value(key) is Some ==> r == RejectFunctionLookup::<bool>::CreateBackingObject,
            heap.data(self).object_index is None && own_value(key) is None ==> r == RejectFunctionLookup::Own(true),
    {
        if heap.functions[self.0 as usize].object_index.is_some() {
            return RejectFunctionLookup::BackingObject;
        }
        if get_own_value(key).is_some() {
            RejectFunctionLookup::CreateBackingObject
        } else {
            // Non-existing property
            RejectFunctionLookup::Own(true)
        }
    }

    /// \[\[OwnPropertyKeys]]: without a backing object, "length" and then
    /// "name".
    pub fn internal_own_property_keys(self, heap: &PromiseRejectFunctionHeap) -> (r: RejectFunctionLookup<Vec<PropertyKey>>)
        requires
            heap.contains(self),
        ensures
            heap.data(self).object_index is Some ==> r is BackingObject,
            heap.data(self).object_index is None ==> r is Own && r->Own_0@ == seq![PropertyKey::Length, PropertyKey::Name],
    {
        if heap.functions[self.0 as usize].object_index.is_some() {
            return RejectFunctionLookup::BackingObject;
        }
        let mut keys: Vec<PropertyKey> = Vec::new();
        keys.push(PropertyKey::Length);
        keys.push(PropertyKey::Name);
        RejectFunctionLookup::Own(keys)
    }
}

/// A reject function without backing object describes its own properties
/// consistently: a key it has is found, read with the value its descriptor
/// holds, listed among its keys, and cannot be set; a key it lacks has no
/// descriptor and is not listed.
pub proof fn lemma_own_properties_agree(key: PropertyKey)
    ensures
        own_value(key) is Some <==> seq![PropertyKey::Length, PropertyKey::Name].contains(key),
        own_value(key) is Some ==> own_descriptor(own_value(key)->Some_0).value == own_value(key)
            && own_descriptor(own_value(key)->Some_0).writable == Some(false),
{
    if seq![PropertyKey::Length, PropertyKey::Name].contains(key) {
        let i = choose|i: int| 0 <= i < 2 && seq![PropertyKey::Length, PropertyKey::Name][i] == key;
        assert(i == 0 || i == 1);
    }
    if key is Length {
        assert(seq![PropertyKey::Length, PropertyKey::Name][0] == key);
    }
    if key is Name {
        assert(seq![PropertyKey::Length, PropertyKey::Name][1] == key);
    }
}

} // verus!
