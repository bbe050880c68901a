//! ## [20.5 Error Objects](https://tc39.es/ecma262/#sec-error-objects)
//!
//! An Error keeps its "message" and "cause" in its record until it needs a
//! backing object. While it has none, its internal methods answer for those
//! two properties themselves; everything else is the ordinary object's
//! (the backing object's, or the prototype chain's) to answer.

use vstd::prelude::*;
use crate::value::{ExceptionType, PropertyDescriptor, PropertyKey, Value};

verus! {

/// The heap data of an Error.
#[derive(Debug, Clone, Copy, PartialEq, Eq, Structural)]
pub struct ErrorHeapData {
    pub object_index: Option<u32>,
    pub kind: ExceptionType,
    /// The "message", by string handle.
    pub message: Option<u32>,
    /// The "cause".
    pub cause: Option<Value>,
}

impl ErrorHeapData {
    pub fn new(kind: ExceptionType, message: Option<u32>, cause: Option<Value>) -> (r: Self)
        ensures
            r == (ErrorHeapData { object_index: None, kind, message, cause }),
    {
        ErrorHeapData { object_index: None, kind, message, cause }
    }
}

/// The arena of all Errors.
pub struct ErrorHeap {
    pub errors: Vec<ErrorHeapData>,
}

/// A handle to an Error.
#[derive(Debug, Clone, Copy, PartialEq, Eq, Structural)]
pub struct Error(pub u32);

/// Who answers an internal method of an Error: the Error itself, the
/// ordinary method on its backing object, the ordinary method on its
/// prototype (there is no backing object), or the ordinary method on a
/// backing object that must be created first.
#[derive(Debug, Clone, Copy, PartialEq, Eq)]
pub enum ErrorLookup<T> {
    Own(T),
    BackingObject,
    Prototype,
    CreateBackingObject,
}

/// The %Error.prototype% kind an Error without backing object inherits
/// from.
#[derive(Debug, Clone, Copy, PartialEq, Eq, Structural)]
pub enum ErrorPrototype {
    Intrinsic(ExceptionType),
    /// The backing object's prototype.
    BackingObject,
}

/// The descriptor of a direct "message" or "cause": a data property that
/// is writable and configurable but not enumerable.
pub open spec fn direct_descriptor(value: Value) -> PropertyDescriptor {
    PropertyDescriptor {
        value: Some(value),
        writable: Some(true),
        get: None,
        set: None,
        enumerable: Some(false),
        configurable: Some(true),
    }
}

/// The value an Error without backing object holds directly under `key`.
pub open spec fn direct_value(data: ErrorHeapData, key: PropertyKey) -> Option<Value> {
    match key {
        PropertyKey::Message => match data.message {
            Some(m) => Some(Value::String(m)),
            None => None,
        },
        PropertyKey::Cause => data.cause,
        _ => None,
    }
}

impl ErrorHeap {
    pub open spec fn contains(&self, e: Error) -> bool {
        e.0 < self.errors@.len()
    }

    pub open spec fn data(&self, e: Error) -> ErrorHeapData {
        self.errors@[e.0 as int]
    }

    pub fn new() -> (r: Self)
        ensures
            r.errors@.len() == 0,
    {
        ErrorHeap { errors: Vec::new() }
    }

    /// Adds an Error.
    pub fn create(&mut self, data: ErrorHeapData) -> (r: Error)
        requires
            old(self).errors@.len() < u32::MAX,
        ensures
            r.0 == old(self).errors@.len(),
            final(self).errors@ == old(self).errors@.push(data),
    {
        let index = self.errors.len() as u32;
        self.errors.push(data);
        Error(index)
    }
}

/// The direct value under `key`.
fn get_direct_value(data: &ErrorHeapData, key: PropertyKey) -> (r: Option<Value>)
    ensures
        r == direct_value(*data, key),
{
    match key {
        PropertyKey::Message => match data.message {
            Some(m) => Some(Value::String(m)),
            None => None,
        },
        PropertyKey::Cause => data.cause,
        _ => None,
    }
}

impl Error {
    pub fn get_index(self) -> (r: usize)
        ensures
            r == self.0,
    {
        self.0 as usize
    }

    pub fn get_backing_object(self, heap: &ErrorHeap) -> (r: Option<u32>)
        requires
            heap.contains(self),
        ensures
            r == heap.data(self).object_index,
    {
        heap.errors[self.0 as usize].object_index
    }

    /// Gives the Error a backing object; it must have none yet.
    pub fn set_backing_object(self, heap: &mut ErrorHeap, backing_object: u32)
        requires
            old(heap).contains(self),
            old(heap).data(self).object_index is None,
        ensures
            final(heap).errors@ == old(heap).errors@.update(self.0 as int, ErrorHeapData {
                object_index: Some(backing_object),
                ..old(heap).data(self)
            }),
    {
        let i = self.0 as usize;
        let mut data = heap.errors[i];
        data.object_index = Some(backing_object);
        heap.errors.set(i, data);
    }

    /// The entries of the backing object that the Error gets: "message" and
    /// then "cause", each where present, as data properties that are
    /// writable and configurable but not enumerable.
    pub fn backing_object_entries(self, heap: &ErrorHeap) -> (r: Vec<(PropertyKey, Value)>)
        requires
            heap.contains(self),
        ensures
            ({
                let d = heap.data(self);
                let message: Seq<(PropertyKey, Value)> = if d.message is Some {
                    seq![(PropertyKey::Message, Value::String(d.message->Some_0))]
                } else {
                    Seq::empty()
                };
                let cause: Seq<(PropertyKey, Value)> = if d.cause is Some {
                    seq![(PropertyKey::Cause, d.cause->Some_0)]
                } else {
                    Seq::empty()
                };
                r@ == message + cause
            }),
    {
        let data = heap.errors[self.0 as usize];
        let mut entries: Vec<(PropertyKey, Value)> = Vec::new();
        if let Some(message) = data.message {
            entries.push((PropertyKey::Message, Value::String(message)));
        }
        if let Some(cause) = data.cause {
            entries.push((PropertyKey::Cause, cause));
        }
        proof {
            let message: Seq<(PropertyKey, Value)> = if data.message is Some {
                seq![(PropertyKey::Message, Value::String(data.message->Some_0))]
            } else {
                Seq::empty()
            };
            let cause: Seq<(PropertyKey, Value)> = if data.cause is Some {
                seq![(PropertyKey::Cause, data.cause->Some_0)]
            } else {
                Seq::empty()
            };
            assert(entries@ =~= message + cause);
        }
        entries
    }

    /// \[\[GetPrototypeOf]]: the intrinsic prototype of the Error's kind,
    /// or the backing object's prototype.
    pub fn internal_prototype(self, heap: &ErrorHeap) -> (r: ErrorPrototype)
        requires
            heap.contains(self),
        ensures
            heap.data(self).object_index is Some ==> r == ErrorPrototype::BackingObject,
            heap.data(self).object_index is None ==> r == ErrorPrototype::Intrinsic(heap.data(self).kind),
    {
        let data = heap.errors[self.0 as usize];
        if data.object_index.is_some() {
            ErrorPrototype::BackingObject
        } else {
            ErrorPrototype::Intrinsic(data.kind)
        }
    }

    /// \[\[GetOwnProperty]]: without a backing object, "message" and "cause"
    /// are the Error's own properties where present, and nothing else is.
    pub fn try_get_own_property(self, heap: &ErrorHeap, key: PropertyKey) -> (r: ErrorLookup<Option<PropertyDescriptor>>)
        requires
            heap.contains(self),
        ensures
            heap.data(self).object_index is Some ==> r == ErrorLookup::<Option<PropertyDescriptor>>::BackingObject,
            heap.data(self).object_index is None ==> r == ErrorLookup::Own(match direct_value(heap.data(self), key) {
                Some(v) => Some(direct_descriptor(v)),
                None => None::<PropertyDescriptor>,
            }),
    {
        let data = heap.errors[self.0 as usize];
        if data.object_index.is_some() {
            return ErrorLookup::BackingObject;
        }
        match get_direct_value(&data, key) {
            Some(value) => ErrorLookup::Own(Some(PropertyDescriptor {
                value: Some(value),
                writable: Some(true),
                get: None,
                set: None,
                enumerable: Some(false),
                configurable: Some(true),
            })),
            None => ErrorLookup::Own(None),
        }
    }

    /// \[\[HasProperty]]: without a backing object, a present "message" or
    /// "cause" is found; anything else is asked of the prototype.
    pub fn internal_has_property(self, heap: &ErrorHeap, key: PropertyKey) -> (r: ErrorLookup<bool>)
        requires
            heap.contains(self),
        ensures
            heap.data(self).object_index is Some ==> r == ErrorLookup::<bool>::BackingObject,
            heap.data(self).object_index is None && direct_value(heap.data(self), key) is Some ==> r == ErrorLookup::Own(true),
            heap.data(self).object_index is None && direct_value(heap.data(self), key) is None ==> r == ErrorLookup::<bool>::Prototype,
    {
        let data = heap.errors[self.0 as usize];
        if data.object_index.is_some() {
            return ErrorLookup::BackingObject;
        }
        if get_direct_value(&data, key).is_some() {
            ErrorLookup::Own(true)
        } else {
            ErrorLookup::Prototype
        }
    }

    /// \[\[Get]]: without a backing object, a present "message" or "cause"
    /// gives its value; anything else is read from the prototype.
    pub fn internal_get(self, heap: &ErrorHeap, key: PropertyKey) -> (r: ErrorLookup<Value>)
        requires
            heap.contains(self),
        ensures
            heap.data(self).object_index is Some ==> r == ErrorLookup::<Value>::BackingObject,
            heap.data(self).object_index is None && direct_value(heap.data(self), key) is Some
                ==> r == ErrorLookup::Own(direct_value(heap.data(self), key)->Some_0),
            heap.data(self).object_index is None && direct_value(heap.data(self), key) is None ==> r == ErrorLookup::<Value>::Prototype,
    {
        let data = heap.errors[self.0 as usize];
        if data.object_index.is_some() {
            return ErrorLookup::BackingObject;
        }
        match get_direct_value(&data, key) {
            Some(value) => ErrorLookup::Own(value),
            None => ErrorLookup::Prototype,
        }
    }

    /// \[\[Set]]: without a backing object, a String "message" and any
    /// "cause" are stored directly; anything else needs the backing object,
    /// which is created first.
    pub fn internal_set(self, heap: &mut ErrorHeap, key: PropertyKey, value: Value) -> (r: ErrorLookup<bool>)
        requires
            old(heap).contains(self),
        ensures
            ({
                let d = old(heap).data(self);
                if d.object_index is Some {
                    r == ErrorLookup::<bool>::BackingObject && final(heap).errors@ == old(heap).errors@
                } else if key is Message && value is String {
                    r == ErrorLookup::Own(true) && final(heap).errors@ == old(heap).errors@.update(self.0 as int,
                        ErrorHeapData { message: Some(value->String_0), ..d })
                } else if key is Cause {
                    r == ErrorLookup::Own(true) && final(heap).errors@ == old(heap).errors@.update(self.0 as int,
                        ErrorHeapData { cause: Some(value), ..d })
                } else {
                    r == ErrorLookup::<bool>::CreateBackingObject && final(heap).errors@ == old(heap).errors@
                }
            }),
    {
        let i = self.0 as usize;
        let mut data = heap.errors[i];
        if data.object_index.is_some() {
            return ErrorLookup::BackingObject;
        }
        match (key, value) {
            (PropertyKey::Message, Value::String(s)) => {
                data.message = Some(s);
                heap.errors.set(i, data);
                ErrorLookup::Own(true)
            },
            (PropertyKey::Cause, _) => {
                data.cause = Some(value);
                heap.errors.set(i, data);
                ErrorLookup::Own(true)
            },
            _ => ErrorLookup::CreateBackingObject,
        }
    }

    /// \[\[Delete]]: without a backing object, "message" and "cause" are
    /// removed and every deletion succeeds.
    pub fn try_delete(self, heap: &mut ErrorHeap, key: PropertyKey) -> (r: ErrorLookup<bool>)
        requires
            old(heap).contains(self),
        ensures
            ({
                let d = old(heap).data(self);
                if d.object_index is Some {
                    r == ErrorLookup::<bool>::BackingObject && final(heap).errors@ == old(heap).errors@
                } else {
                    &&& r == ErrorLookup::Own(true)
                    &&& final(heap).errors@ == old(heap).errors@.update(self.0 as int, match key {
                        PropertyKey::Message => ErrorHeapData { message: None, ..d },
                        PropertyKey::Cause => ErrorHeapData { cause: None, ..d },
                        _ => d,
                    })
                }
            }),
    {
        let i = self.0 as usize;
        let mut data = heap.errors[i];
        if data.object_index.is_some() {
            return ErrorLookup::BackingObject;
        }
        match key {
            PropertyKey::Message => data.message = None,
            PropertyKey::Cause => data.cause = None,
            _ => {},
        }
        heap.errors.set(i, data);
        ErrorLookup::Own(true)
    }

    /// \[\[OwnPropertyKeys]]: without a backing object, "message" and then
    /// "cause", each where present.
    pub fn try_own_property_keys(self, heap: &ErrorHeap) -> (r: ErrorLookup<Vec<PropertyKey>>)
        requires
            heap.contains(self),
        ensures
            heap.data(self).object_index is Some ==> r is BackingObject,
            heap.data(self).object_index is None ==> r is Own && ({
                let d = heap.data(self);
                let message: Seq<PropertyKey> = if d.message is Some { seq![PropertyKey::Message] } else { Seq::empty() };
                let cause: Seq<PropertyKey> = if d.cause is Some { seq![PropertyKey::Cause] } else { Seq::empty() };
                r->Own_0@ == message + cause
            }),
    {
        let data = heap.errors[self.0 as usize];
        if data.object_index.is_some() {
            return ErrorLookup::BackingObject;
        }
        let mut property_keys: Vec<PropertyKey> = Vec::new();
        if data.message.is_some() {
            property_keys.push(PropertyKey::Message);
        }
        if data.cause.is_some() {
            property_keys.push(PropertyKey::Cause);
        }
        proof {
            let message: Seq<PropertyKey> = if data.message is Some { seq![PropertyKey::Message] } else { Seq::empty() };
            let cause: Seq<PropertyKey> = if data.cause is Some { seq![PropertyKey::Cause] } else { Seq::empty() };
            assert(property_keys@ =~= message + cause);
        }
        ErrorLookup::Own(property_keys)
    }
}

/// What an Error without backing object holds is read back as written: a
/// String "message" or any "cause" that \[\[Set]] stored is what \[\[Get]]
/// gives and \[\[HasProperty]] finds, until \[\[Delete]] removes it.
pub proof fn lemma_error_set_then_get(before: ErrorHeapData, key: PropertyKey, value: Value)
    requires
        before.object_index is None,
        (key is Message && value is String) || key is Cause,
    ensures
        ({
            let after = if key is Cause { ErrorHeapData { cause: Some(value), ..before } } else { ErrorHeapData { message: Some(value->String_0), ..before } };
            let deleted = if key is Cause { ErrorHeapData { cause: None, ..after } } else { ErrorHeapData { message: None, ..after } };
            &&& direct_value(after, key) == Some(value)
            &&& direct_value(deleted, key) is None
        }),
{
}

/// An object that an embedder supplies.
#[derive(Debug, Clone, Copy, PartialEq, Eq, Structural)]
pub struct EmbedderObject(pub u32);

/// The heap data of an embedder object: its backing object.
#[derive(Debug, Clone, Copy, PartialEq, Eq, Structural)]
pub struct EmbedderObjectHeapData {
    pub backing_object: Option<u32>,
}

} // verus!
