//! ### [10.4.2.3 ArraySpeciesCreate ( originalArray, length )](https://tc39.es/ecma262/#sec-arrayspeciescreate)
//! and the checks by which the engine iterates Arrays without calling code.
//!
//! ArraySpeciesCreate reads properties and may construct, which is the
//! engine's work; the steps here decide, from each outcome, what comes next
//! ([`SpeciesAction`]).

use vstd::prelude::*;
use crate::value::{ExceptionType, JsError, Value};
use crate::array::{Array, ArrayHeap};
use crate::promise::TryGetOutcome;

verus! {

/// What the engine does next for ArraySpeciesCreate.
#[derive(Debug, Clone, Copy, PartialEq, Eq)]
pub enum SpeciesAction {
    /// Return `? ArrayCreate(length)`.
    ArrayCreate(u64),
    /// Throw this error.
    Throw(JsError),
    /// `? Get(originalArray, "constructor")`; the outcome goes to
    /// [`species_on_constructor`].
    GetConstructor,
    /// `? GetFunctionRealm(C)`; the outcome goes to [`species_on_realm`].
    GetFunctionRealm(Value),
    /// `? Get(C, @@species)`; the outcome goes to [`species_on_species`].
    GetSpecies(Value),
    /// Return `? Construct(C, « 𝔽(length) »)`.
    Construct { constructor: Value, length: u64 },
}

/// ArraySpeciesCreate, steps 1 and 2: `is_array` is the outcome of
/// `IsArray(originalArray)`.
pub fn array_species_create(is_array: Result<bool, JsError>, length: u64) -> (r: SpeciesAction)
    ensures
        is_array matches Err(e) ==> r == SpeciesAction::Throw(e),
        is_array == Ok::<bool, JsError>(false) ==> r == SpeciesAction::ArrayCreate(length),
        is_array == Ok::<bool, JsError>(true) ==> r == SpeciesAction::GetConstructor,
{
    // 1. Let isArray be ? IsArray(originalArray).
    match is_array {
        Err(e) => SpeciesAction::Throw(e),
        // 2. If isArray is false, return ? ArrayCreate(length).
        Ok(false) => SpeciesAction::ArrayCreate(length),
        // 3. Let C be ? Get(originalArray, "constructor").
        Ok(true) => SpeciesAction::GetConstructor,
    }
}

/// Steps 5 to 8 of ArraySpeciesCreate for a `C` that was not replaced by
/// @@species yet: an Object's @@species is read; undefined creates an
/// Array; anything else is no constructor.
pub open spec fn spec_species_step5(c: Value, length: u64) -> SpeciesAction {
    if c.spec_is_object() {
        SpeciesAction::GetSpecies(c)
    } else if c is Undefined {
        SpeciesAction::ArrayCreate(length)
    } else {
        SpeciesAction::Throw(JsError::Exception(ExceptionType::TypeError))
    }
}

fn species_step5(c: Value, length: u64) -> (r: SpeciesAction)
    ensures
        r == spec_species_step5(c, length),
{
    // 5. If C is an Object, then
    if c.is_object() {
        // a. Set C to ? Get(C, @@species).
        SpeciesAction::GetSpecies(c)
    } else if c.is_undefined() {
        // 6. If C is undefined, return ? ArrayCreate(length).
        SpeciesAction::ArrayCreate(length)
    } else {
        // 7. If IsConstructor(C) is false, throw a TypeError exception.
        SpeciesAction::Throw(JsError::Exception(ExceptionType::TypeError))
    }
}

/// ArraySpeciesCreate, step 3 and 4: `c` is the outcome of
/// `Get(originalArray, "constructor")`, `c_is_constructor` is
/// `IsConstructor(C)`. A constructor's realm is looked up.
pub fn species_on_constructor(c: Result<Value, JsError>, c_is_constructor: bool, length: u64) -> (r: SpeciesAction)
    ensures
        c matches Err(e) ==> r == SpeciesAction::Throw(e),
        c is Ok && c_is_constructor ==> r == SpeciesAction::GetFunctionRealm(c->Ok_0),
        c is Ok && !c_is_constructor ==> r == spec_species_step5(c->Ok_0, length),
{
    let c = match c {
        Err(e) => return SpeciesAction::Throw(e),
        Ok(c) => c,
    };
    // 4. If IsConstructor(C) is true, then
    if c_is_constructor {
        // b. Let realmC be ? GetFunctionRealm(C).
        SpeciesAction::GetFunctionRealm(c)
    } else {
        species_step5(c, length)
    }
}

/// ArraySpeciesCreate, step 4.b and 4.c: `realm_c` is the outcome of
/// `GetFunctionRealm(C)`; a constructor from another realm that is that
/// realm's %Array% counts as undefined.
pub fn species_on_realm(
    c: Value,
    realm_c: Result<u32, JsError>,
    this_realm: u32,
    realm_c_array: Value,
    length: u64,
) -> (r: SpeciesAction)
    ensures
        realm_c matches Err(e) ==> r == SpeciesAction::Throw(e),
        realm_c is Ok && realm_c->Ok_0 != this_realm && c == realm_c_array ==> r == SpeciesAction::ArrayCreate(length),
        realm_c is Ok && !(realm_c->Ok_0 != this_realm && c == realm_c_array) ==> r == spec_species_step5(c, length),
{
    let realm_c = match realm_c {
        Err(e) => return SpeciesAction::Throw(e),
        Ok(realm) => realm,
    };
    // c. If thisRealm and realmC are not the same Realm Record, then
    //    i. If SameValue(C, realmC.[[Intrinsics]].[[%Array%]]) is true, set C to undefined.
    if realm_c != this_realm && c == realm_c_array {
        return SpeciesAction::ArrayCreate(length);
    }
    species_step5(c, length)
}

/// ArraySpeciesCreate, steps 5.a to 8: `species` is the outcome of
/// `Get(C, @@species)`, `species_is_constructor` is `IsConstructor` of it.
/// null counts as undefined, which creates an Array; a constructor
/// constructs; anything else is a TypeError.
pub fn species_on_species(species: Result<Value, JsError>, species_is_constructor: bool, length: u64) -> (r: SpeciesAction)
    ensures
        species matches Err(e) ==> r == SpeciesAction::Throw(e),
        species is Ok && (species->Ok_0 is Null || species->Ok_0 is Undefined) ==> r == SpeciesAction::ArrayCreate(length),
        species is Ok && !(species->Ok_0 is Null || species->Ok_0 is Undefined) && species_is_constructor
            ==> r == (SpeciesAction::Construct { constructor: species->Ok_0, length }),
        species is Ok && !(species->Ok_0 is Null || species->Ok_0 is Undefined) && !species_is_constructor
            ==> r == SpeciesAction::Throw(JsError::Exception(ExceptionType::TypeError)),
{
    let c = match species {
        Err(e) => return SpeciesAction::Throw(e),
        Ok(c) => c,
    };
    // b. If C is null, set C to undefined.
    // 6. If C is undefined, return ? ArrayCreate(length).
    if c.is_null() || c.is_undefined() {
        return SpeciesAction::ArrayCreate(length);
    }
    // 7. If IsConstructor(C) is false, throw a TypeError exception.
    if !species_is_constructor {
        return SpeciesAction::Throw(JsError::Exception(ExceptionType::TypeError));
    }
    // 8. Return ? Construct(C, « 𝔽(length) »).
    SpeciesAction::Construct { constructor: c, length }
}

/// The Array that `value` is, where `method` (its @@iterator) is
/// %Array.prototype.values%.
pub fn is_iterable_array(value: Value, method: Value, array_prototype_values: Value) -> (r: Option<Array>)
    ensures
        value is Array && method == array_prototype_values ==> r == Some(Array(value->Array_0)),
        !(value is Array && method == array_prototype_values) ==> r is None,
{
    match value {
        Value::Array(a) => {
            if method == array_prototype_values {
                Some(Array(a))
            } else {
                None
            }
        },
        _ => None,
    }
}

/// Whether the Array can be iterated without calling code: it is dense
/// (no holes, no getters) and its @@iterator, read without running code
/// (`iterator_method`), is %Array.prototype.values%.
pub fn is_trivially_iterable(a: Array, heap: &ArrayHeap, iterator_method: TryGetOutcome, array_prototype_values: Value) -> (r: bool)
    requires
        heap.wf(),
        heap.contains(a),
    ensures
        r == (Array::spec_is_dense(heap.elems(a)) && iterator_method == TryGetOutcome::Value(array_prototype_values)),
{
    if !a.is_dense(heap) {
        // Contains holes or getters, so cannot be iterated without looking
        // into the prototype chain or calling getters.
        return false;
    }
    match iterator_method {
        // We got a proper iterator method; but is it the intrinsic Array
        // values iterator method?
        TryGetOutcome::Value(method) => method == array_prototype_values,
        // Can't get the iterator method without calling a getter or a Proxy
        // method, or there is none.
        _ => false,
    }
}

/// What \[\[SetPrototypeOf]] of an Array does.
#[derive(Debug, Clone, Copy, PartialEq, Eq, Structural)]
pub enum ArraySetPrototype {
    /// The backing object's \[\[SetPrototypeOf]] sets it.
    BackingObject,
    /// %Array.prototype% is the prototype of an Array without backing
    /// object: nothing to do.
    Unchanged,
    /// A backing object is created with the new prototype.
    CreateBackingObject(Option<u32>),
}

impl Array {
    /// \[\[SetPrototypeOf]] ( V ) of this Array.
    pub fn internal_set_prototype(self, heap: &ArrayHeap, prototype: Option<u32>, array_prototype: u32) -> (r: ArraySetPrototype)
        requires
            heap.contains(self),
        ensures
            heap.arrays@[self.0 as int].object_index is Some ==> r == ArraySetPrototype::BackingObject,
            heap.arrays@[self.0 as int].object_index is None && prototype == Some(array_prototype) ==> r == ArraySetPrototype::Unchanged,
            heap.arrays@[self.0 as int].object_index is None && prototype != Some(array_prototype) ==> r == ArraySetPrototype::CreateBackingObject(prototype),
    {
        if heap.arrays[self.0 as usize].object_index.is_some() {
            return ArraySetPrototype::BackingObject;
        }
        // 1. Let current be O.[[Prototype]].
        if prototype == Some(array_prototype) {
            return ArraySetPrototype::Unchanged;
        }
        // Create array base object with custom prototype
        ArraySetPrototype::CreateBackingObject(prototype)
    }

    /// \[\[PreventExtensions]] of this Array: it is no longer extensible, and
    /// that always succeeds.
    pub fn try_prevent_extensions(self, heap: &mut ArrayHeap) -> (r: bool)
        requires
            old(heap).wf(),
            old(heap).contains(self),
        ensures
            r,
            final(heap).wf(),
            final(heap).arrays@.len() == old(heap).arrays@.len(),
            forall|i: int| 0 <= i < old(heap).arrays@.len() && i != self.0 ==> #[trigger] final(heap).arrays@[i] == old(heap).arrays@[i],
            final(heap).elems(self).values@ == old(heap).elems(self).values@,
            final(heap).elems(self).dmap() == old(heap).elems(self).dmap(),
            !final(heap).elems(self).len_writable,
    {
        self.internal_set_extensible(heap, false);
        true
    }
}

} // verus!
