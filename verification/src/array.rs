//! ### [10.4.2 Array Exotic Objects](https://tc39.es/ecma262/#sec-array-exotic-objects)

use vstd::prelude::*;
use crate::descriptor_map::{ElementDescriptor, descriptor_map_get, descriptor_map_is_empty};
use crate::elements::{CapacityError, ElementProperty, ElementsVector, element_property, fits, lemma_same_elements, lemma_kept_below, lemma_kept_except};
use crate::value::{ExceptionType, JsError, PropertyDescriptor, PropertyKey, Value};

verus! {

/// `o` where it is present, else `d`.
pub open spec fn or_else<T>(o: Option<T>, d: T) -> T {
    match o {
        Some(v) => v,
        None => d,
    }
}

/// The getter or setter that a present descriptor field names.
pub open spec fn flat(o: Option<Option<u32>>) -> Option<u32> {
    match o {
        Some(f) => f,
        None => None,
    }
}

/// The element that defining `desc` on a hole creates: fields that `desc`
/// lacks take their default values.
pub open spec fn new_element(desc: PropertyDescriptor) -> ElementProperty {
    if desc.spec_is_accessor_descriptor() {
        ElementProperty::Accessor {
            get: flat(desc.get),
            set: flat(desc.set),
            enumerable: desc.enumerable == Some(true),
            configurable: desc.configurable == Some(true),
        }
    } else {
        ElementProperty::Data {
            value: or_else(desc.value, Value::Undefined),
            writable: desc.writable == Some(true),
            enumerable: desc.enumerable == Some(true),
            configurable: desc.configurable == Some(true),
        }
    }
}

/// Whether `desc` may be applied to the existing element `current`
/// (steps 5.a to 5.e of ValidateAndApplyPropertyDescriptor).
pub open spec fn compatible(current: ElementProperty, desc: PropertyDescriptor) -> bool {
    current.configurable() || {
        &&& desc.configurable != Some(true)
        &&& (desc.enumerable matches Some(e) ==> e == current.enumerable())
        &&& (!desc.spec_is_generic_descriptor() ==> (desc.spec_is_accessor_descriptor() == (current is Accessor)))
        &&& match current {
            ElementProperty::Accessor { get, set, .. } => {
                &&& (desc.get matches Some(g) ==> g == get)
                &&& (desc.set matches Some(s) ==> s == set)
            },
            ElementProperty::Data { value, writable, .. } => writable || {
                &&& desc.writable != Some(true)
                &&& (desc.value matches Some(v) ==> v == value)
            },
        }
    }
}

/// The element that applying `desc` to `current` leaves (step 6 of
/// ValidateAndApplyPropertyDescriptor).
pub open spec fn apply_descriptor(current: ElementProperty, desc: PropertyDescriptor) -> ElementProperty {
    let e = or_else(desc.enumerable, current.enumerable());
    let c = or_else(desc.configurable, current.configurable());
    match current {
        ElementProperty::Data { value, writable, .. } => if desc.spec_is_accessor_descriptor() {
            ElementProperty::Accessor { get: flat(desc.get), set: flat(desc.set), enumerable: e, configurable: c }
        } else {
            ElementProperty::Data {
                value: or_else(desc.value, value),
                writable: or_else(desc.writable, writable),
                enumerable: e,
                configurable: c,
            }
        },
        ElementProperty::Accessor { get, set, .. } => if desc.spec_is_data_descriptor() {
            ElementProperty::Data {
                value: or_else(desc.value, Value::Undefined),
                writable: or_else(desc.writable, false),
                enumerable: e,
                configurable: c,
            }
        } else {
            ElementProperty::Accessor {
                get: or_else(desc.get, get),
                set: or_else(desc.set, set),
                enumerable: e,
                configurable: c,
            }
        },
    }
}

/// ### [10.1.6.3 ValidateAndApplyPropertyDescriptor](https://tc39.es/ecma262/#sec-validateandapplypropertydescriptor)
///
/// `None` where the definition is refused; else the element that it leaves
/// (`Some(None)` for no element).
pub open spec fn validate_and_apply(
    extensible: bool,
    current: Option<ElementProperty>,
    desc: PropertyDescriptor,
) -> Option<Option<ElementProperty>> {
    match current {
        None => if !extensible { None } else { Some(Some(new_element(desc))) },
        Some(cur) => if !desc.spec_has_fields() {
            Some(Some(cur))
        } else if !compatible(cur, desc) {
            None
        } else {
            Some(Some(apply_descriptor(cur, desc)))
        },
    }
}

/// A property descriptor as ToPropertyDescriptor makes it: never both a data
/// and an accessor descriptor.
pub open spec fn valid_descriptor(desc: PropertyDescriptor) -> bool {
    !(desc.spec_is_accessor_descriptor() && desc.spec_is_data_descriptor())
}

/// Writes the element at `index`, whose slot holds a hole, from a value and
/// a descriptor, where the descriptor is absent for a plain data element.
fn insert_data_descriptor(
    elements: &mut ElementsVector,
    index: u32,
    descriptor_value: Option<Value>,
    elem_descriptor: Option<ElementDescriptor>,
)
    requires
        old(elements).wf(),
        index < old(elements).spec_len(),
        elem_descriptor matches Some(d) ==> fits(d, Some(or_else(descriptor_value, Value::Undefined))),
    ensures
        final(elements).wf(),
        final(elements).spec_len() == old(elements).spec_len(),
        final(elements).len_writable == old(elements).len_writable,
        final(elements).property(index as int) == element_property(
            Some(or_else(descriptor_value, Value::Undefined)),
            elem_descriptor,
        ),
        forall|j: int| j != index ==> #[trigger] final(elements).property(j) == old(elements).property(j),
{
    let value = match descriptor_value { Some(v) => v, None => Value::Undefined };
    match elem_descriptor {
        Some(d) => insert_element_descriptor(elements, index, Some(value), d),
        None => elements.set_element(index, Some(value), None),
    }
}

/// Stores `descriptor` and the value slot `descriptor_value` as the element
/// at `index`.
fn insert_element_descriptor(
    elements: &mut ElementsVector,
    index: u32,
    descriptor_value: Option<Value>,
    descriptor: ElementDescriptor,
)
    requires
        old(elements).wf(),
        index < old(elements).spec_len(),
        fits(descriptor, descriptor_value),
    ensures
        final(elements).wf(),
        final(elements).spec_len() == old(elements).spec_len(),
        final(elements).len_writable == old(elements).len_writable,
        final(elements).property(index as int) == element_property(descriptor_value, Some(descriptor)),
        forall|j: int| j != index ==> #[trigger] final(elements).property(j) == old(elements).property(j),
{
    elements.set_element(index, descriptor_value, Some(descriptor));
}

/// Replaces the element at `index` with a data element: `descriptor_value`
/// in the value slot, and `elem_descriptor` or, where it is absent, no
/// descriptor.
fn mutate_data_descriptor(
    elements: &mut ElementsVector,
    index: u32,
    descriptor_value: Option<Value>,
    elem_descriptor: Option<ElementDescriptor>,
)
    requires
        old(elements).wf(),
        index < old(elements).spec_len(),
        elem_descriptor matches Some(d) ==> fits(d, descriptor_value),
    ensures
        final(elements).wf(),
        final(elements).spec_len() == old(elements).spec_len(),
        final(elements).len_writable == old(elements).len_writable,
        final(elements).property(index as int) == element_property(descriptor_value, elem_descriptor),
        forall|j: int| j != index ==> #[trigger] final(elements).property(j) == old(elements).property(j),
{
    match elem_descriptor {
        Some(d) => insert_element_descriptor(elements, index, descriptor_value, d),
        None => elements.set_element(index, descriptor_value, None),
    }
}

/// Replaces the descriptor of the element at `index` together with its
/// value slot.
fn mutate_element_descriptor(
    elements: &mut ElementsVector,
    index: u32,
    descriptor_value: Option<Value>,
    elem_descriptor: Option<ElementDescriptor>,
)
    requires
        old(elements).wf(),
        index < old(elements).spec_len(),
        elem_descriptor matches Some(d) ==> fits(d, descriptor_value),
    ensures
        final(elements).wf(),
        final(elements).spec_len() == old(elements).spec_len(),
        final(elements).len_writable == old(elements).len_writable,
        final(elements).property(index as int) == element_property(descriptor_value, elem_descriptor),
        forall|j: int| j != index ==> #[trigger] final(elements).property(j) == old(elements).property(j),
{
    mutate_data_descriptor(elements, index, descriptor_value, elem_descriptor);
}

/// ### [10.1.6.3 ValidateAndApplyPropertyDescriptor](https://tc39.es/ecma262/#sec-validateandapplypropertydescriptor)
/// for an element below the array's length.
///
/// Returns whether the definition succeeded; the element becomes what the
/// algorithm leaves, and no other element changes.
pub fn ordinary_define_own_property_for_array(
    elements: &mut ElementsVector,
    index: u32,
    descriptor: PropertyDescriptor,
) -> (r: bool)
    requires
        old(elements).wf(),
        index < old(elements).spec_len(),
        valid_descriptor(descriptor),
    ensures
        final(elements).wf(),
        final(elements).spec_len() == old(elements).spec_len(),
        final(elements).len_writable == old(elements).len_writable,
        r == validate_and_apply(old(elements).len_writable, old(elements).property(index as int), descriptor) is Some,
        r ==> final(elements).property(index as int) == validate_and_apply(
            old(elements).len_writable,
            old(elements).property(index as int),
            descriptor,
        ).unwrap(),
        !r ==> *final(elements) == *old(elements),
        forall|j: int| j != index ==> #[trigger] final(elements).property(j) == old(elements).property(j),
        final(elements).kept_except(old(elements), index as int),
{
    let r = define_element_below_length(elements, index, descriptor);
    proof {
        lemma_kept_except(old(elements), elements, index as int);
    }
    r
}

/// ValidateAndApplyPropertyDescriptor for an element below the length,
/// element by element.
fn define_element_below_length(
    elements: &mut ElementsVector,
    index: u32,
    descriptor: PropertyDescriptor,
) -> (r: bool)
    requires
        old(elements).wf(),
        index < old(elements).spec_len(),
        valid_descriptor(descriptor),
    ensures
        final(elements).wf(),
        final(elements).spec_len() == old(elements).spec_len(),
        final(elements).len_writable == old(elements).len_writable,
        r == validate_and_apply(old(elements).len_writable, old(elements).property(index as int), descriptor) is Some,
        r ==> final(elements).property(index as int) == validate_and_apply(
            old(elements).len_writable,
            old(elements).property(index as int),
            descriptor,
        ).unwrap(),
        !r ==> *final(elements) == *old(elements),
        forall|j: int| j != index ==> #[trigger] final(elements).property(j) == old(elements).property(j),
{
    let descriptor_value = descriptor.value;
    let current_value = elements.values[index as usize];
    let stored = descriptor_map_get(&elements.descriptors, index);
    let current_descriptor = if current_value.is_some() && stored.is_none() {
        Some(ElementDescriptor { accessor: false, writable: true, get: None, set: None, enumerable: true, configurable: true })
    } else {
        stored
    };
    proof {
        assert(stored == elements.desc_at(index as int));
        assert(current_descriptor matches Some(d) ==> d.wf());
        assert(current_descriptor matches Some(d) ==> (!d.accessor ==> current_value is Some));
    }
    // 2. If current is undefined, then
    if current_descriptor.is_none() {
        // a. If extensible is false, return false.
        if !elements.len_writable {
            return false;
        }
        // c. If IsAccessorDescriptor(Desc) is true, then
        if descriptor.is_accessor_descriptor() {
            let elem_descriptor = ElementDescriptor::from_accessor_descriptor(descriptor);
            insert_element_descriptor(elements, index, None, elem_descriptor);
        } else {
            // d. Else, create an own data property.
            insert_data_descriptor(
                elements,
                index,
                Some(match descriptor_value { Some(v) => v, None => Value::Undefined }),
                ElementDescriptor::from_data_descriptor(descriptor),
            );
        }
        // e. Return true.
        return true;
    }
    let cur = current_descriptor.unwrap();
    // 4. If Desc does not have any fields, return true.
    if !descriptor.has_fields() {
        return true;
    }
    let current_writable = cur.is_writable();
    let current_enumerable = cur.is_enumerable();
    let current_configurable = cur.is_configurable();
    let current_is_accessor_descriptor = cur.is_accessor_descriptor();
    let current_getter = cur.getter_function();
    let current_setter = cur.setter_function();
    // 5. If current.[[Configurable]] is false, then
    if !current_configurable {
        // a.
        if descriptor.configurable == Some(true) {
            return false;
        }
        // b.
        match descriptor.enumerable {
            Some(e) => if e != current_enumerable {
                return false;
            },
            None => {},
        }
        // c.
        if !descriptor.is_generic_descriptor()
            && descriptor.is_accessor_descriptor() != current_is_accessor_descriptor
        {
            return false;
        }
        // d. If IsAccessorDescriptor(current) is true, then
        if current_is_accessor_descriptor {
            match descriptor.get {
                Some(g) => if g != current_getter {
                    return false;
                },
                None => {},
            }
            match descriptor.set {
                Some(s) => if s != current_setter {
                    return false;
                },
                None => {},
            }
        } else if current_writable == Some(false) {
            // e. Else if current.[[Writable]] is false, then
            if descriptor.writable == Some(true) {
                return false;
            }
            match descriptor.value {
                Some(v) => if current_value != Some(v) {
                    return false;
                },
                None => {},
            }
        }
    }
    let enumerable = match descriptor.enumerable { Some(e) => e, None => current_enumerable };
    let configurable = match descriptor.configurable { Some(c) => c, None => current_configurable };
    if !current_is_accessor_descriptor && descriptor.is_accessor_descriptor() {
        // a. Replace the data property with an accessor property.
        let get = match descriptor.get { Some(g) => g, None => None };
        let set = match descriptor.set { Some(s) => s, None => None };
        let elem_descriptor = ElementDescriptor::from_accessor_descriptor_fields(get, set, enumerable, configurable);
        insert_element_descriptor(elements, index, None, elem_descriptor);
    } else if current_is_accessor_descriptor && descriptor.is_data_descriptor() {
        // b. Replace the accessor property with a data property.
        let writable = match descriptor.writable { Some(w) => w, None => false };
        mutate_element_descriptor(
            elements,
            index,
            Some(match descriptor.value { Some(v) => v, None => Value::Undefined }),
            ElementDescriptor::new_with_wec(writable, enumerable, configurable),
        );
    } else if current_is_accessor_descriptor {
        // c. Set the fields of the accessor that Desc has.
        let get = match descriptor.get { Some(g) => g, None => current_getter };
        let set = match descriptor.set { Some(s) => s, None => current_setter };
        let elem_descriptor = ElementDescriptor::from_accessor_descriptor_fields(get, set, enumerable, configurable);
        insert_element_descriptor(elements, index, None, elem_descriptor);
    } else {
        // c. Set the fields of the data property that Desc has.
        let value = match descriptor.value {
            Some(v) => v,
            None => match current_value { Some(v) => v, None => Value::Undefined },
        };
        let writable = match descriptor.writable {
            Some(w) => w,
            None => match current_writable { Some(w) => w, None => false },
        };
        mutate_data_descriptor(elements, index, Some(value), ElementDescriptor::new_with_wec(writable, enumerable, configurable));
    }
    true
}

} // verus!

verus! {

/// ### [10.4.2 Array Exotic Objects](https://tc39.es/ecma262/#sec-array-exotic-objects)
///
/// An Array is an exotic object that gives special treatment to array index
/// property keys. Every Array has a non-configurable "length" property whose
/// value is always a non-negative integral Number whose mathematical value
/// is strictly less than 2**32.
pub struct ArrayHeapData {
    pub elements: ElementsVector,
    /// The ordinary object that holds the Array's other properties, once
    /// one is needed.
    pub object_index: Option<u32>,
}

/// The arena of all Arrays.
pub struct ArrayHeap {
    pub arrays: Vec<ArrayHeapData>,
}

/// A handle to an Array in the [`ArrayHeap`].
#[derive(Debug, Clone, Copy, PartialEq, Eq, Structural)]
pub struct Array(pub u32);

impl ArrayHeap {
    /// Every Array's elements are well formed.
    pub open spec fn wf(&self) -> bool {
        forall|i: int| 0 <= i < self.arrays@.len() ==> #[trigger] self.arrays@[i].elements.wf()
    }

    /// Whether `a` names an Array of this heap.
    pub open spec fn contains(&self, a: Array) -> bool {
        a.0 < self.arrays@.len()
    }

    /// The elements of the Array `a`.
    pub open spec fn elems(&self, a: Array) -> &ElementsVector {
        &self.arrays@[a.0 as int].elements
    }

    /// An empty heap.
    pub fn new() -> (r: Self)
        ensures
            r.wf(),
            r.arrays@.len() == 0,
    {
        ArrayHeap { arrays: Vec::new() }
    }

    /// Adds an Array with the given elements.
    pub fn create(&mut self, elements: ElementsVector) -> (r: Array)
        requires
            old(self).wf(),
            elements.wf(),
            old(self).arrays@.len() < u32::MAX,
        ensures
            final(self).wf(),
            final(self).arrays@.len() == old(self).arrays@.len() + 1,
            r.0 == old(self).arrays@.len(),
            forall|i: int| 0 <= i < old(self).arrays@.len() ==> #[trigger] final(self).arrays@[i] == old(self).arrays@[i],
            final(self).arrays@[r.0 as int].elements == elements,
            final(self).arrays@[r.0 as int].object_index is None,
    {
        let index = self.arrays.len() as u32;
        self.arrays.push(ArrayHeapData { elements, object_index: None });
        Array(index)
    }
}

impl Array {
    /// The handle that the next Array allocated will get, for making
    /// references to it ahead of time.
    pub fn next_array(heap: &ArrayHeap) -> (r: Self)
        requires
            heap.arrays@.len() <= u32::MAX,
        ensures
            r.0 == heap.arrays@.len(),
    {
        Array(heap.arrays.len() as u32)
    }

    /// Allocates a new empty Array.
    pub fn new(heap: &mut ArrayHeap) -> (r: Self)
        requires
            old(heap).wf(),
            old(heap).arrays@.len() < u32::MAX,
        ensures
            final(heap).wf(),
            final(heap).contains(r),
            r.0 == old(heap).arrays@.len(),
            final(heap).elems(r).spec_len() == 0,
            final(heap).elems(r).len_writable,
            final(heap).arrays@[r.0 as int].object_index is None,
            forall|i: int| 0 <= i < old(heap).arrays@.len() ==> #[trigger] final(heap).arrays@[i] == old(heap).arrays@[i],
    {
        heap.create(ElementsVector::new())
    }

    /// Allocates a new empty Array with room reserved for `capacity`
    /// values; where that room cannot be reserved, no Array is made.
    pub fn with_capacity(heap: &mut ArrayHeap, capacity: u32) -> (r: Result<Self, std::collections::TryReserveError>)
        requires
            old(heap).wf(),
            old(heap).arrays@.len() < u32::MAX,
        ensures
            final(heap).wf(),
            r matches Ok(a) ==> {
                &&& a.0 == old(heap).arrays@.len()
                &&& final(heap).arrays@.len() == old(heap).arrays@.len() + 1
                &&& final(heap).elems(a).spec_len() == 0
                &&& final(heap).elems(a).len_writable
                &&& final(heap).arrays@[a.0 as int].object_index is None
            },
            r is Err ==> final(heap).arrays@ == old(heap).arrays@,
            forall|i: int| 0 <= i < old(heap).arrays@.len() ==> #[trigger] final(heap).arrays@[i] == old(heap).arrays@[i],
    {
        let mut elements = ElementsVector::new();
        let ghost empty = elements;
        let reserved = elements.values.try_reserve(capacity as usize);
        proof {
            lemma_same_elements(&elements, &empty);
        }
        match reserved {
            Ok(()) => Ok(heap.create(elements)),
            Err(e) => Err(e),
        }
    }

    /// Pushes a value onto the end of this Array.
    pub fn push(self, heap: &mut ArrayHeap, value: Value) -> (r: Result<(), CapacityError>)
        requires
            old(heap).wf(),
            old(heap).contains(self),
        ensures
            final(heap).wf(),
            final(heap).arrays@.len() == old(heap).arrays@.len(),
            forall|i: int| 0 <= i < old(heap).arrays@.len() && i != self.0 ==> #[trigger] final(heap).arrays@[i] == old(heap).arrays@[i],
            r is Err <==> old(heap).elems(self).spec_len() == u32::MAX,
            r is Ok ==> final(heap).elems(self).spec_len() == old(heap).elems(self).spec_len() + 1,
            r is Ok ==> final(heap).elems(self).property(old(heap).elems(self).spec_len() as int) == Some(
                ElementProperty::Data { value, writable: true, enumerable: true, configurable: true },
            ),
            r is Ok ==> forall|j: int| j != old(heap).elems(self).spec_len() ==> #[trigger] final(heap).elems(self).property(j) == old(heap).elems(self).property(j),
            r is Ok ==> final(heap).elems(self).kept_below(old(heap).elems(self), old(heap).elems(self).spec_len() as int),
            r is Err ==> final(heap).arrays@ == old(heap).arrays@,
            final(heap).elems(self).len_writable == old(heap).elems(self).len_writable,
            final(heap).arrays@[self.0 as int].object_index == old(heap).arrays@[self.0 as int].object_index,
    {
        let data = &mut heap.arrays[self.0 as usize];
        let r = data.elements.push(Some(value), None);
        r
    }
}

} // verus!

verus! {

/// The Number that the length value converts to, where it is an integral
/// Number in the array length range; `None` where the conversion does not
/// give such a Number.
pub open spec fn length_number(v: Value) -> Option<u32> {
    match v {
        Value::Null => Some(0u32),
        Value::Boolean(b) => Some(if b { 1u32 } else { 0u32 }),
        Value::Integer(n) => if 0 <= n <= u32::MAX { Some(n as u32) } else { None },
        _ => None,
    }
}

/// Whether the element at `k` exists and cannot be deleted.
pub open spec fn blocks_deletion(elements: &ElementsVector, k: int) -> bool {
    elements.property(k) matches Some(p) && !p.configurable()
}

/// What \[\[DefineOwnProperty]] of an Array does to its elements `before`
/// (becoming `after`) and returns (`r`) for `key` and `desc`.
pub open spec fn define_post(
    before: &ElementsVector,
    after: &ElementsVector,
    key: PropertyKey,
    desc: PropertyDescriptor,
    r: ArrayLookup<Result<bool, JsError>>,
) -> bool {
    &&& array_index(key) is None && !(key is Length) ==> r == ArrayLookup::<Result<bool, JsError>>::Backing && *after == *before
    &&& key is Length ==> r is Own && set_length_post(before, after, desc, r->Own_0)
    &&& array_index(key) matches Some(i) ==> if i < before.spec_len() {
        let outcome = validate_and_apply(before.len_writable, before.property(i as int), desc);
        &&& r == ArrayLookup::<Result<bool, JsError>>::Own(Ok(outcome is Some))
        &&& after.spec_len() == before.spec_len()
        &&& after.len_writable == before.len_writable
        &&& (outcome matches Some(p) ==> after.property(i as int) == p)
        &&& (outcome is None ==> after.property(i as int) == before.property(i as int))
        &&& forall|j: int| j != i ==> #[trigger] after.property(j) == before.property(j)
        &&& (outcome is None ==> *after == *before)
        &&& after.kept_except(before, i as int)
    } else if !before.len_writable {
        &&& r == ArrayLookup::<Result<bool, JsError>>::Own(Ok(false))
        &&& *after == *before
    } else {
        &&& r == ArrayLookup::<Result<bool, JsError>>::Own(Ok(true))
        &&& after.spec_len() == i + 1
        &&& after.len_writable == before.len_writable
        &&& after.property(i as int) == Some(new_element(desc))
        &&& forall|j: int| j != i ==> #[trigger] after.property(j) == before.property(j)
        &&& after.kept_below(before, before.spec_len() as int)
    }
}

/// What ArraySetLength does to the elements `before` (becoming `after`)
/// and returns (`r`) for the descriptor `desc`, and that every element it
/// keeps is stored as before.
pub open spec fn set_length_post(before: &ElementsVector, after: &ElementsVector, desc: PropertyDescriptor, r: Result<bool, JsError>) -> bool {
    &&& set_length_effect(before, after, desc, r)
    &&& after.kept_below(before, if before.spec_len() <= after.spec_len() { before.spec_len() as int } else { after.spec_len() as int })
}

/// What ArraySetLength does to the elements and returns, element by
/// element.
pub open spec fn set_length_effect(before: &ElementsVector, after: &ElementsVector, desc: PropertyDescriptor, r: Result<bool, JsError>) -> bool {
    // No [[Value]]: only [[Writable]] of "length" can change.
    &&& desc.value is None ==> {
        &&& after.values@ == before.values@
        &&& after.dmap() == before.dmap()
        &&& r == Ok::<bool, JsError>(
            if !desc.spec_has_fields() {
                true
            } else if desc.configurable == Some(true) || desc.enumerable == Some(true) {
                false
            } else if desc.spec_is_accessor_descriptor() {
                false
            } else if !before.len_writable {
                desc.writable != Some(true)
            } else {
                true
            })
        &&& after.len_writable == (before.len_writable
            && !(desc.spec_has_fields() && desc.configurable != Some(true) && desc.enumerable != Some(true)
                && !desc.spec_is_accessor_descriptor() && desc.writable == Some(false)))
    }
    &&& desc.value matches Some(v) ==> {
        let new_writable = desc.writable != Some(false);
        let old_len = before.spec_len();
        match length_number(v) {
            None => {
                &&& r == Err::<bool, JsError>(JsError::Exception(
                    if v is Symbol { ExceptionType::TypeError } else { ExceptionType::RangeError }))
                &&& after.values@ == before.values@
                &&& after.dmap() == before.dmap()
                &&& after.len_writable == before.len_writable
            },
            Some(new_len) => if !before.len_writable
                || desc.configurable == Some(true) || desc.enumerable == Some(true) {
                &&& r == Ok::<bool, JsError>(false)
                &&& after.values@ == before.values@
                &&& after.dmap() == before.dmap()
                &&& after.len_writable == before.len_writable
            } else if new_len >= old_len {
                &&& r == Ok::<bool, JsError>(true)
                &&& after.spec_len() == new_len
                &&& after.len_writable == new_writable
                &&& forall|j: int| j < old_len ==> #[trigger] after.property(j) == before.property(j)
                &&& forall|j: int| old_len <= j ==> #[trigger] after.property(j) is None
            } else if forall|k: int| new_len <= k < old_len ==> !#[trigger] blocks_deletion(before, k) {
                &&& r == Ok::<bool, JsError>(true)
                &&& after.spec_len() == new_len
                &&& after.len_writable == new_writable
                &&& forall|j: int| j < new_len ==> #[trigger] after.property(j) == before.property(j)
            } else {
                &&& r == Ok::<bool, JsError>(false)
                &&& new_len < after.spec_len() <= old_len
                &&& blocks_deletion(before, after.spec_len() - 1)
                &&& forall|k: int| after.spec_len() <= k < old_len ==> !#[trigger] blocks_deletion(before, k)
                &&& after.len_writable == new_writable
                &&& forall|j: int| j < after.spec_len() ==> #[trigger] after.property(j) == before.property(j)
            },
        }
    }
}

/// ### [10.4.2.4 ArraySetLength ( A, Desc )](https://tc39.es/ecma262/#sec-arraysetlength)
///
/// `Desc.[[Value]]`, where present, is the value to convert: a primitive
/// that is not a String (Strings and Objects are converted to Numbers
/// before this is called).
///
/// Returns a RangeError where the value is not an integral Number in the
/// array length range, a TypeError for a Symbol, and else whether the
/// length could be set. Elements at or above the new length are deleted in
/// descending index order; where one cannot be deleted, the length stops
/// just above it and false is returned.
pub fn array_set_length(elements: &mut ElementsVector, desc: PropertyDescriptor) -> (r: Result<bool, JsError>)
    requires
        old(elements).wf(),
        desc.value matches Some(v) ==> !(v is String || v.spec_is_object()),
    ensures
        final(elements).wf(),
        set_length_post(old(elements), final(elements), desc, r),
{
    let r = set_length_of_elements(elements, desc);
    proof {
        let n = if old(elements).spec_len() <= elements.spec_len() { old(elements).spec_len() as int } else { elements.spec_len() as int };
        if elements.values@ == old(elements).values@ && elements.dmap() == old(elements).dmap() {
            lemma_same_elements(elements, old(elements));
        }
        lemma_kept_below(old(elements), elements, n);
    }
    r
}

/// ArraySetLength, element by element.
fn set_length_of_elements(elements: &mut ElementsVector, desc: PropertyDescriptor) -> (r: Result<bool, JsError>)
    requires
        old(elements).wf(),
        desc.value matches Some(v) ==> !(v is String || v.spec_is_object()),
    ensures
        final(elements).wf(),
        set_length_effect(old(elements), final(elements), desc, r),
{
    // 1. If Desc does not have a [[Value]] field, then
    let desc_value = match desc.value {
        Some(v) => v,
        None => {
            // a. Return ! OrdinaryDefineOwnProperty(A, "length", Desc).
            if !desc.has_fields() {
                return Ok(true);
            }
            if desc.configurable == Some(true) || desc.enumerable == Some(true) {
                return Ok(false);
            }
            if !desc.is_generic_descriptor() && desc.is_accessor_descriptor() {
                return Ok(false);
            }
            if !elements.len_writable {
                // Length is already frozen.
                if desc.writable == Some(true) {
                    return Ok(false);
                }
            } else if desc.writable == Some(false) {
                elements.len_writable = false;
            }
            return Ok(true);
        },
    };
    // 13. If newLenDesc does not have a [[Writable]] field or newLenDesc.[[Writable]]
    //     is true, let newWritable be true.
    let new_len_writable = match desc.writable { Some(w) => w, None => true };
    // 3. Let newLen be ? ToUint32(Desc.[[Value]]).
    // 4. Let numberLen be ? ToNumber(Desc.[[Value]]).
    // 5. If SameValueZero(newLen, numberLen) is false, throw a RangeError exception.
    assert(new_len_writable == (desc.writable != Some(false)));
    let new_len: u32 = match desc_value {
        Value::Null => 0,
        Value::Boolean(b) => if b { 1 } else { 0 },
        Value::Integer(n) => if 0 <= n && n <= u32::MAX as i64 {
            n as u32
        } else {
            return Err(JsError::Exception(ExceptionType::RangeError));
        },
        Value::Symbol(_) => {
            return Err(JsError::Exception(ExceptionType::TypeError));
        },
        _ => {
            return Err(JsError::Exception(ExceptionType::RangeError));
        },
    };
    // 10. Let oldLen be oldLenDesc.[[Value]].
    let old_len = elements.len();
    // 12. If oldLenDesc.[[Writable]] is false, return false.
    if !elements.len_writable {
        return Ok(false);
    }
    if desc.configurable == Some(true) || desc.enumerable == Some(true) {
        // 16. If succeeded is false, return false.
        return Ok(false);
    }
    // 11. If newLen ≥ oldLen, then
    if new_len >= old_len {
        // a. Return ! OrdinaryDefineOwnProperty(A, "length", newLenDesc).
        elements.len_writable = new_len_writable;
        elements.extend_to(new_len);
        assert forall|j: int| old_len <= j implies #[trigger] elements.property(j) is None by {
            if j < new_len {
                assert(elements.property(j) is None);
            }
        }
        return Ok(true);
    }
    // 17. For each own property key P of A such that P is an array index and
    //     ! ToUint32(P) ≥ newLen, in descending numeric index order, do
    let mut i = old_len;
    while i > new_len
        invariant
            elements.wf(),
            new_len <= i <= old_len,
            old_len == old(elements).spec_len(),
            elements.spec_len() == old_len,
            elements.len_writable == old(elements).len_writable,
            forall|j: int| j < i ==> #[trigger] elements.property(j) == old(elements).property(j),
            forall|k: int| i <= k < old_len ==> !#[trigger] blocks_deletion(old(elements), k),
            desc.value == Some(desc_value),
            length_number(desc_value) == Some(new_len),
            new_len < old_len,
            old(elements).len_writable,
            desc.configurable != Some(true),
            desc.enumerable != Some(true),
            new_len_writable == (desc.writable != Some(false)),
        decreases i - new_len,
    {
        let index = i - 1;
        let stored = descriptor_map_get(&elements.descriptors, index);
        // a. Let deleteSucceeded be ! A.[[Delete]](P).
        let configurable = match stored { Some(d) => d.configurable, None => true };
        proof {
            assert(stored == elements.desc_at(index as int));
            assert(elements.property(index as int) == old(elements).property(index as int));
        }
        if !configurable {
            // b. If deleteSucceeded is false, then
            //   i. Set newLenDesc.[[Value]] to ! ToUint32(P) + 1𝔽.
            //   ii. If newWritable is false, set newLenDesc.[[Writable]] to false.
            //   iii. Perform ! OrdinaryDefineOwnProperty(A, "length", newLenDesc).
            assert(blocks_deletion(old(elements), index as int));
            let ghost pre = *elements;
            elements.len_writable = new_len_writable;
            assert forall|j: int| j < i implies #[trigger] elements.property(j) == old(elements).property(j) by {
                assert(pre.property(j) == old(elements).property(j));
            }
            elements.truncate(i);
            assert(!(forall|k: int| new_len <= k < old_len ==> !#[trigger] blocks_deletion(old(elements), k)));
            assert(new_len < elements.spec_len() <= old_len);
            assert(blocks_deletion(old(elements), elements.spec_len() - 1));
            assert(forall|j: int| j < elements.spec_len() ==> #[trigger] elements.property(j) == old(elements).property(j));
            //   iv. Return false.
            return Ok(false);
        }
        elements.clear_element(index);
        i = index;
    }
    // 18. If newWritable is false, then
    //   a. Set succeeded to ! OrdinaryDefineOwnProperty(A, "length",
    //      PropertyDescriptor { [[Writable]]: false }).
    let ghost pre = *elements;
    elements.len_writable = new_len_writable;
    assert forall|j: int| j < new_len implies #[trigger] elements.property(j) == old(elements).property(j) by {
        assert(pre.property(j) == old(elements).property(j));
    }
    elements.truncate(new_len);
    assert(forall|k: int| new_len <= k < old_len ==> !#[trigger] blocks_deletion(old(elements), k));
    assert(forall|j: int| j < new_len ==> #[trigger] elements.property(j) == old(elements).property(j));
    assert(elements.len_writable == (desc.writable != Some(false)));
    // 19. Return true.
    Ok(true)
}

} // verus!

verus! {

/// Where an own-property operation on an Array is answered: by the Array's
/// elements and length, or by its backing ordinary object (for every other
/// key).
#[derive(Debug)]
pub enum ArrayLookup<T> {
    Own(T),
    Backing,
}

/// What reading an existing element gives: its value, or the getter to call
/// (undefined where the accessor has none).
#[derive(Debug, Clone, Copy, PartialEq, Eq, Structural)]
pub enum ElementGet {
    Value(Value),
    Getter(Option<u32>),
}

/// The element key of an array index property key.
pub open spec fn array_index(key: PropertyKey) -> Option<u32> {
    match key {
        PropertyKey::Index(i) => if i < u32::MAX { Some(i) } else { None },
        _ => None,
    }
}

impl Array {
    /// The elements of this Array.
    pub fn get_elements(self, heap: &ArrayHeap) -> (r: &ElementsVector)
        requires
            heap.contains(self),
        ensures
            *r == *heap.elems(self),
    {
        &heap.arrays[self.0 as usize].elements
    }

    /// Exclusive access to the elements of this Array; what is written
    /// through it becomes the Array's elements, and nothing else changes.
    pub fn get_elements_mut(self, heap: &mut ArrayHeap) -> (r: &mut ElementsVector)
        requires
            old(heap).contains(self),
        ensures
            *r == *old(heap).elems(self),
            final(heap).arrays@.len() == old(heap).arrays@.len(),
            *final(heap).elems(self) == *final(r),
            final(heap).arrays@[self.0 as int].object_index == old(heap).arrays@[self.0 as int].object_index,
            forall|i: int| 0 <= i < old(heap).arrays@.len() && i != self.0 ==> #[trigger] final(heap).arrays@[i] == old(heap).arrays@[i],
    {
        &mut heap.arrays[self.0 as usize].elements
    }

    /// Reserve space for `additional` more values in the Array.
    pub fn reserve(self, heap: &mut ArrayHeap, additional: u32) -> (r: Result<(), std::collections::TryReserveError>)
        requires
            old(heap).wf(),
            old(heap).contains(self),
        ensures
            final(heap).wf(),
            final(heap).arrays@.len() == old(heap).arrays@.len(),
            forall|i: int| 0 <= i < old(heap).arrays@.len() && i != self.0 ==> #[trigger] final(heap).arrays@[i] == old(heap).arrays@[i],
            final(heap).elems(self).values@ == old(heap).elems(self).values@,
            final(heap).elems(self).dmap() == old(heap).elems(self).dmap(),
            final(heap).elems(self).len_writable == old(heap).elems(self).len_writable,
            final(heap).arrays@[self.0 as int].object_index == old(heap).arrays@[self.0 as int].object_index,
    {
        let ghost pre = heap.arrays@[self.0 as int].elements;
        let data = &mut heap.arrays[self.0 as usize];
        let r = data.elements.values.try_reserve(additional as usize);
        proof {
            lemma_same_elements(&heap.arrays@[self.0 as int].elements, &pre);
            assert(heap.arrays@[self.0 as int].elements.wf());
        }
        r
    }

    /// Get the length property value of the Array.
    pub fn len(self, heap: &ArrayHeap) -> (r: u32)
        requires
            heap.wf(),
            heap.contains(self),
        ensures
            r == heap.elems(self).spec_len(),
    {
        heap.arrays[self.0 as usize].elements.len()
    }

    /// Returns `true` if the Array length is 0.
    pub fn is_empty(self, heap: &ArrayHeap) -> (r: bool)
        requires
            heap.contains(self),
        ensures
            r == (heap.elems(self).spec_len() == 0),
    {
        heap.arrays[self.0 as usize].elements.is_empty()
    }

    /// Whether the "length" property is writable.
    pub fn length_writable(self, heap: &ArrayHeap) -> (r: bool)
        requires
            heap.contains(self),
        ensures
            r == heap.elems(self).len_writable,
    {
        heap.arrays[self.0 as usize].elements.len_writable
    }

    /// Sets the length directly: elements at or beyond `len` go away, and
    /// new indices below it are holes. The length must be writable.
    pub fn set_len(self, heap: &mut ArrayHeap, len: u32)
        requires
            old(heap).wf(),
            old(heap).contains(self),
            old(heap).elems(self).len_writable,
        ensures
            final(heap).wf(),
            final(heap).arrays@.len() == old(heap).arrays@.len(),
            forall|i: int| 0 <= i < old(heap).arrays@.len() && i != self.0 ==> #[trigger] final(heap).arrays@[i] == old(heap).arrays@[i],
            final(heap).arrays@[self.0 as int].object_index == old(heap).arrays@[self.0 as int].object_index,
            final(heap).elems(self).spec_len() == len,
            final(heap).elems(self).len_writable,
            forall|j: int| j < len && j < old(heap).elems(self).spec_len()
                ==> #[trigger] final(heap).elems(self).property(j) == old(heap).elems(self).property(j),
            forall|j: int| old(heap).elems(self).spec_len() <= j < len ==> #[trigger] final(heap).elems(self).property(j) is None,
            final(heap).elems(self).kept_below(old(heap).elems(self), if len < old(heap).elems(self).spec_len() { len as int } else { old(heap).elems(self).spec_len() as int }),
    {
        let ghost pre = *heap;
        let elements = self.get_elements_mut(heap);
        proof {
            assert(pre.arrays@[self.0 as int].elements.wf());
        }
        if len < elements.len() {
            elements.truncate(len);
        } else {
            elements.extend_to(len);
        }
        proof {
            assert forall|k: int| 0 <= k < heap.arrays@.len() implies #[trigger] heap.arrays@[k].elements.wf() by {
                if k != self.0 {
                    assert(pre.arrays@[k].elements.wf());
                    assert(heap.arrays@[k] == pre.arrays@[k]);
                }
            }
        }
    }

    /// Makes the "length" property read-only.
    pub fn set_length_readonly(self, heap: &mut ArrayHeap)
        requires
            old(heap).wf(),
            old(heap).contains(self),
        ensures
            final(heap).wf(),
            final(heap).arrays@.len() == old(heap).arrays@.len(),
            forall|i: int| 0 <= i < old(heap).arrays@.len() && i != self.0 ==> #[trigger] final(heap).arrays@[i] == old(heap).arrays@[i],
            final(heap).elems(self).values@ == old(heap).elems(self).values@,
            final(heap).elems(self).dmap() == old(heap).elems(self).dmap(),
            !final(heap).elems(self).len_writable,
    {
        let ghost pre = heap.arrays@[self.0 as int].elements;
        let data = &mut heap.arrays[self.0 as usize];
        data.elements.len_writable = false;
        proof {
            lemma_same_elements(&heap.arrays@[self.0 as int].elements, &pre);
            assert(heap.arrays@[self.0 as int].elements.wf());
        }
    }

    /// An array is dense if it contains no holes or getters: every element
    /// can be read without calling into ECMAScript.
    pub open spec fn spec_is_dense(elements: &ElementsVector) -> bool {
        forall|i: int| 0 <= i < elements.spec_len() ==> match #[trigger] elements.property(i) {
            None => false,
            Some(ElementProperty::Data { .. }) => true,
            Some(ElementProperty::Accessor { get, .. }) => get is None,
        }
    }

    /// An array is simple if it contains no accessor elements.
    pub open spec fn spec_is_simple(elements: &ElementsVector) -> bool {
        forall|i: int| 0 <= i < elements.spec_len() ==> !(#[trigger] elements.property(i) matches Some(ElementProperty::Accessor { .. }))
    }

    /// Returns true if the Array contains no holes or getters.
    pub fn is_dense(self, heap: &ArrayHeap) -> (r: bool)
        requires
            heap.wf(),
            heap.contains(self),
        ensures
            r == Self::spec_is_dense(heap.elems(self)),
    {
        let elements = &heap.arrays[self.0 as usize].elements;
        let len = elements.len();
        let mut i: u32 = 0;
        while i < len
            invariant
                elements.wf(),
                *elements == *heap.elems(self),
                len == elements.spec_len(),
                i <= len,
                forall|j: int| 0 <= j < i ==> match #[trigger] elements.property(j) {
                    None => false,
                    Some(ElementProperty::Data { .. }) => true,
                    Some(ElementProperty::Accessor { get, .. }) => get is None,
                },
            decreases len - i,
        {
            let stored = descriptor_map_get(&elements.descriptors, i);
            proof {
                assert(stored == elements.desc_at(i as int));
            }
            match stored {
                None => {
                    if elements.values[i as usize].is_none() {
                        assert(elements.property(i as int) is None);
                        return false;
                    }
                },
                Some(d) => {
                    if d.accessor && d.get.is_some() {
                        assert(elements.property(i as int) matches Some(ElementProperty::Accessor { get, .. }) && get is Some);
                        return false;
                    }
                },
            }
            i = i + 1;
        }
        true
    }

    /// Returns true if the Array contains no accessor elements.
    pub fn is_simple(self, heap: &ArrayHeap) -> (r: bool)
        requires
            heap.wf(),
            heap.contains(self),
        ensures
            r == Self::spec_is_simple(heap.elems(self)),
    {
        let elements = &heap.arrays[self.0 as usize].elements;
        let len = elements.len();
        let mut i: u32 = 0;
        while i < len
            invariant
                elements.wf(),
                *elements == *heap.elems(self),
                len == elements.spec_len(),
                i <= len,
                forall|j: int| 0 <= j < i ==> !(#[trigger] elements.property(j) matches Some(ElementProperty::Accessor { .. })),
            decreases len - i,
        {
            let stored = descriptor_map_get(&elements.descriptors, i);
            proof {
                assert(stored == elements.desc_at(i as int));
            }
            match stored {
                Some(d) => {
                    if d.accessor {
                        assert(elements.property(i as int) matches Some(ElementProperty::Accessor { .. }));
                        return false;
                    }
                },
                None => {},
            }
            i = i + 1;
        }
        true
    }

    /// Returns true if the Array holds no element descriptors: every element
    /// is a hole or a plain data element.
    pub fn is_trivial(self, heap: &ArrayHeap) -> (r: bool)
        requires
            heap.wf(),
            heap.contains(self),
        ensures
            r == (heap.elems(self).dmap().dom() == Set::<u32>::empty()),
            r ==> forall|i: int| 0 <= i < heap.elems(self).spec_len() ==> match #[trigger] heap.elems(self).property(i) {
                None => true,
                Some(p) => p == (ElementProperty::Data {
                    value: heap.elems(self).values@[i].unwrap(),
                    writable: true,
                    enumerable: true,
                    configurable: true,
                }),
            },
    {
        descriptor_map_is_empty(&heap.arrays[self.0 as usize].elements.descriptors)
    }

    /// A shallow clone of the element values of this Array as a new Array:
    /// data elements keep their values, every element descriptor is
    /// dropped.
    pub fn to_cloned(self, heap: &mut ArrayHeap) -> (r: Self)
        requires
            old(heap).wf(),
            old(heap).contains(self),
            old(heap).arrays@.len() < u32::MAX,
        ensures
            final(heap).wf(),
            r.0 == old(heap).arrays@.len(),
            final(heap).contains(r),
            forall|i: int| 0 <= i < old(heap).arrays@.len() ==> #[trigger] final(heap).arrays@[i] == old(heap).arrays@[i],
            final(heap).elems(r).values@ == old(heap).elems(self).values@,
            final(heap).elems(r).dmap().dom() == Set::<u32>::empty(),
            final(heap).elems(r).len_writable,
    {
        let source = &heap.arrays[self.0 as usize].elements.values;
        let mut values: Vec<Option<Value>> = Vec::new();
        let mut i: usize = 0;
        while i < source.len()
            invariant
                i <= source@.len(),
                values@ == source@.subrange(0, i as int),
            decreases source@.len() - i,
        {
            values.push(source[i]);
            i = i + 1;
        }
        assert(values@ == source@);
        assert(heap.arrays@[self.0 as int].elements.wf());
        let elements = ElementsVector { values, descriptors: crate::descriptor_map::descriptor_map_with_capacity(0), len_writable: true };
        proof {
            assert(elements.wf());
        }
        heap.create(elements)
    }

    /// The element value slots of this Array.
    pub fn as_slice(self, heap: &ArrayHeap) -> (r: &[Option<Value>])
        requires
            heap.contains(self),
        ensures
            r@ == heap.elems(self).values@,
    {
        heap.arrays[self.0 as usize].elements.values.as_slice()
    }
}

} // verus!

verus! {

/// \[\[GetOwnProperty]] of an Array: elements and "length" are answered by
/// the Array itself, other keys by its backing object.
pub open spec fn spec_get_own_property(elements: &ElementsVector, key: PropertyKey) -> ArrayLookup<Option<PropertyDescriptor>> {
    match array_index(key) {
        Some(i) => ArrayLookup::Own(match elements.property(i as int) {
            Some(p) => Some(crate::elements::property_to_descriptor(p)),
            None => None,
        }),
        None => if key is Length {
            ArrayLookup::Own(Some(PropertyDescriptor {
                value: Some(Value::Integer(elements.spec_len() as i64)),
                writable: Some(elements.len_writable),
                get: None,
                set: None,
                enumerable: Some(false),
                configurable: Some(false),
            }))
        } else {
            ArrayLookup::Backing
        },
    }
}

/// \[\[HasProperty]] of an Array, as far as the Array answers it: an existing
/// element or "length" is found; otherwise the lookup continues on the
/// backing object and prototype.
pub open spec fn spec_has_property(elements: &ElementsVector, key: PropertyKey) -> ArrayLookup<bool> {
    match array_index(key) {
        Some(i) => if elements.property(i as int) is Some { ArrayLookup::Own(true) } else { ArrayLookup::Backing },
        None => if key is Length { ArrayLookup::Own(true) } else { ArrayLookup::Backing },
    }
}

/// \[\[Get]] of an Array, as far as the Array answers it.
pub open spec fn spec_get(elements: &ElementsVector, key: PropertyKey) -> ArrayLookup<ElementGet> {
    match array_index(key) {
        Some(i) => match elements.property(i as int) {
            Some(ElementProperty::Data { value, .. }) => ArrayLookup::Own(ElementGet::Value(value)),
            Some(ElementProperty::Accessor { get, .. }) => ArrayLookup::Own(ElementGet::Getter(get)),
            None => ArrayLookup::Backing,
        },
        None => if key is Length {
            ArrayLookup::Own(ElementGet::Value(Value::Integer(elements.spec_len() as i64)))
        } else {
            ArrayLookup::Backing
        },
    }
}

/// The array index keys of the elements below `n`, in ascending order.
pub open spec fn index_keys_below(elements: &ElementsVector, n: int) -> Seq<PropertyKey>
    decreases n,
{
    if n <= 0 {
        Seq::empty()
    } else {
        index_keys_below(elements, n - 1) + if elements.property(n - 1) is Some {
            seq![PropertyKey::Index((n - 1) as u32)]
        } else {
            Seq::empty()
        }
    }
}

impl ElementsVector {
    /// \[\[GetOwnProperty]] ( P ) of an Array.
    pub fn get_own_property(&self, key: PropertyKey) -> (r: ArrayLookup<Option<PropertyDescriptor>>)
        requires
            self.wf(),
        ensures
            r == spec_get_own_property(self, key),
    {
        match key {
            PropertyKey::Index(index) => if index < u32::MAX {
                if index >= self.len() {
                    return ArrayLookup::Own(None);
                }
                let value = self.values[index as usize];
                let descriptor = descriptor_map_get(&self.descriptors, index);
                proof {
                    assert(descriptor == self.desc_at(index as int));
                }
                if value.is_none() && descriptor.is_none() {
                    ArrayLookup::Own(None)
                } else {
                    ArrayLookup::Own(Some(ElementDescriptor::to_property_descriptor(descriptor, value)))
                }
            } else {
                ArrayLookup::Backing
            },
            PropertyKey::Length => ArrayLookup::Own(Some(PropertyDescriptor {
                value: Some(Value::Integer(self.len() as i64)),
                writable: Some(self.len_writable),
                get: None,
                set: None,
                enumerable: Some(false),
                configurable: Some(false),
            })),
            _ => ArrayLookup::Backing,
        }
    }

    /// \[\[HasProperty]] ( P ) of an Array, as far as the Array answers it.
    pub fn has_property(&self, key: PropertyKey) -> (r: ArrayLookup<bool>)
        requires
            self.wf(),
        ensures
            r == spec_has_property(self, key),
    {
        match key {
            PropertyKey::Index(index) => if index < u32::MAX && index < self.len() {
                let present = self.values[index as usize].is_some()
                    || descriptor_map_get(&self.descriptors, index).is_some();
                proof {
                    assert(descriptor_map_get_spec(self, index) == self.desc_at(index as int));
                }
                if present { ArrayLookup::Own(true) } else { ArrayLookup::Backing }
            } else {
                ArrayLookup::Backing
            },
            PropertyKey::Length => ArrayLookup::Own(true),
            _ => ArrayLookup::Backing,
        }
    }

    /// \[\[Get]] ( P, Receiver ) of an Array, as far as the Array answers it.
    pub fn get(&self, key: PropertyKey) -> (r: ArrayLookup<ElementGet>)
        requires
            self.wf(),
        ensures
            r == spec_get(self, key),
    {
        match key {
            PropertyKey::Index(index) => if index < u32::MAX && index < self.len() {
                let value = self.values[index as usize];
                let descriptor = descriptor_map_get(&self.descriptors, index);
                proof {
                    assert(descriptor == self.desc_at(index as int));
                }
                match descriptor {
                    Some(d) => if d.accessor {
                        ArrayLookup::Own(ElementGet::Getter(d.get))
                    } else {
                        ArrayLookup::Own(ElementGet::Value(match value { Some(v) => v, None => Value::Undefined }))
                    },
                    None => match value {
                        Some(v) => ArrayLookup::Own(ElementGet::Value(v)),
                        None => ArrayLookup::Backing,
                    },
                }
            } else {
                ArrayLookup::Backing
            },
            PropertyKey::Length => ArrayLookup::Own(ElementGet::Value(Value::Integer(self.len() as i64))),
            _ => ArrayLookup::Backing,
        }
    }

    /// \[\[Delete]] ( P ) of an Array, as far as the Array answers it:
    /// "length" cannot be deleted, a non-configurable element cannot be
    /// deleted, and any other element becomes a hole.
    pub fn delete(&mut self, key: PropertyKey) -> (r: ArrayLookup<bool>)
        requires
            old(self).wf(),
        ensures
            final(self).wf(),
            final(self).spec_len() == old(self).spec_len(),
            final(self).len_writable == old(self).len_writable,
            key is Length ==> r == ArrayLookup::<bool>::Own(false),
            array_index(key) is None && !(key is Length) ==> r == ArrayLookup::<bool>::Backing,
            array_index(key) matches Some(i) ==> {
                let deletable = !(old(self).property(i as int) matches Some(p) && !p.configurable());
                &&& r == ArrayLookup::<bool>::Own(deletable)
                &&& (deletable ==> final(self).property(i as int) is None)
                &&& (!deletable ==> final(self).property(i as int) == old(self).property(i as int))
            },
            forall|j: int| !(array_index(key) == Some(j as u32) && 0 <= j < u32::MAX) ==> #[trigger] final(self).property(j) == old(self).property(j),
    {
        match key {
            PropertyKey::Length => ArrayLookup::Own(false),
            PropertyKey::Index(index) => if index < u32::MAX {
                if index >= self.len() {
                    return ArrayLookup::Own(true);
                }
                let descriptor = descriptor_map_get(&self.descriptors, index);
                proof {
                    assert(descriptor == self.desc_at(index as int));
                }
                match descriptor {
                    Some(d) => if !d.configurable {
                        // Unconfigurable property.
                        return ArrayLookup::Own(false);
                    },
                    None => {},
                }
                self.clear_element(index);
                assert forall|j: int| !(array_index(key) == Some(j as u32) && 0 <= j < u32::MAX) implies #[trigger] self.property(j) == old(self).property(j) by {
                    if j == index {
                        assert(array_index(key) == Some(j as u32));
                    }
                }
                ArrayLookup::Own(true)
            } else {
                ArrayLookup::Backing
            },
            _ => ArrayLookup::Backing,
        }
    }

    /// \[\[OwnPropertyKeys]] ( ) of an Array, as far as the Array answers it:
    /// the indexes of its elements in ascending order, then "length".
    pub fn own_property_keys(&self) -> (r: Vec<PropertyKey>)
        requires
            self.wf(),
        ensures
            r@ == index_keys_below(self, self.spec_len() as int).push(PropertyKey::Length),
    {
        let len = self.len();
        let mut keys: Vec<PropertyKey> = Vec::new();
        let mut index: u32 = 0;
        while index < len
            invariant
                self.wf(),
                len == self.spec_len(),
                index <= len,
                keys@ == index_keys_below(self, index as int),
            decreases len - index,
        {
            let present = self.values[index as usize].is_some()
                || descriptor_map_get(&self.descriptors, index).is_some();
            proof {
                assert(descriptor_map_get_spec(self, index) == self.desc_at(index as int));
            }
            if present {
                keys.push(PropertyKey::Index(index));
            }
            proof {
                assert(index_keys_below(self, index + 1) == index_keys_below(self, index as int) + if self.property(index as int) is Some {
                    seq![PropertyKey::Index(index)]
                } else {
                    Seq::empty()
                });
                if !present {
                    assert(keys@ == index_keys_below(self, index as int) + Seq::<PropertyKey>::empty());
                }
            }
            index = index + 1;
        }
        keys.push(PropertyKey::Length);
        keys
    }

    /// Sets whether the Array is extensible (and its length writable).
    pub fn internal_set_extensible(&mut self, value: bool)
        requires
            old(self).wf(),
        ensures
            final(self).wf(),
            final(self).values@ == old(self).values@,
            final(self).dmap() == old(self).dmap(),
            final(self).len_writable == value,
    {
        let ghost pre = *self;
        self.len_writable = value;
        proof {
            lemma_same_elements(self, &pre);
        }
    }
}

/// The descriptor that the map of `elements` holds for `index`.
pub open spec fn descriptor_map_get_spec(elements: &ElementsVector, index: u32) -> Option<ElementDescriptor> {
    if elements.dmap().dom().contains(index) { Some(elements.dmap()[index]) } else { None }
}

} // verus!

verus! {

impl ElementsVector {
    /// \[\[DefineOwnProperty]] ( P, Desc ) of an Array, as far as the Array
    /// answers it.
    ///
    /// "length" goes to ArraySetLength. An element below the length goes to
    /// ValidateAndApplyPropertyDescriptor. An element at or above the length
    /// is refused where the length is not writable, and else created as
    /// ValidateAndApplyPropertyDescriptor creates it on a hole, the length
    /// growing to the index plus one.
    pub fn define_own_property(&mut self, key: PropertyKey, desc: PropertyDescriptor) -> (r: ArrayLookup<Result<bool, JsError>>)
        requires
            old(self).wf(),
            valid_descriptor(desc),
            key is Length ==> (desc.value matches Some(v) ==> !(v is String || v.spec_is_object())),
        ensures
            final(self).wf(),
            define_post(old(self), final(self), key, desc, r),
    {
        match key {
            PropertyKey::Length => {
                let set = array_set_length(self, desc);
                assert(set_length_post(old(self), self, desc, set));
                ArrayLookup::Own(set)
            },
            PropertyKey::Index(index) => if index < u32::MAX {
                // d. Let length be lengthDesc.[[Value]].
                let length = self.len();
                if index >= length {
                    // g. If index ≥ length and lengthDesc.[[Writable]] is false, return false.
                    if !self.len_writable {
                        return ArrayLookup::Own(Ok(false));
                    }
                    let mut value = desc.value;
                    let element_descriptor = ElementDescriptor::from_property_descriptor(desc);
                    let is_data = match element_descriptor { Some(d) => !d.accessor, None => true };
                    if is_data {
                        value = Some(match value { Some(v) => v, None => Value::Undefined });
                    }
                    // Holes up to the index.
                    self.extend_to(index);
                    // j. If index ≥ length, then set lengthDesc.[[Value]] to index + 1𝔽.
                    let pushed = self.push(value, element_descriptor);
                    proof {
                        assert(pushed is Ok);
                        if desc.spec_is_accessor_descriptor() {
                            assert(element_descriptor == Some(ElementDescriptor::from_accessor_spec(desc)));
                        }
                        assert(self.property(index as int) == Some(new_element(desc)));
                    }
                    ArrayLookup::Own(Ok(true))
                } else {
                    // h. Let succeeded be ! OrdinaryDefineOwnProperty(A, P, Desc).
                    ArrayLookup::Own(Ok(ordinary_define_own_property_for_array(self, index, desc)))
                }
            } else {
                ArrayLookup::Backing
            },
            _ => ArrayLookup::Backing,
        }
    }
}

/// ### [10.4.2.4 ArraySetLength ( A, Desc )](https://tc39.es/ecma262/#sec-arraysetlength)
/// without calling into ECMAScript: where `Desc.[[Value]]` is not already an
/// integral Number in the array length range (it would need converting, or
/// it throws), nothing changes and `None` is returned for the full
/// operation to handle.
pub fn array_try_set_length(elements: &mut ElementsVector, desc: PropertyDescriptor) -> (r: Option<bool>)
    requires
        old(elements).wf(),
    ensures
        final(elements).wf(),
        (desc.value matches Some(v) && !(v is Integer && length_number(v) is Some)) <==> r is None,
        r is None ==> *final(elements) == *old(elements),
        r matches Some(b) ==> set_length_post(old(elements), final(elements), desc, Ok(b)),
{
    match desc.value {
        Some(v) => match v {
            Value::Integer(n) => if n < 0 || n > u32::MAX as i64 {
                return None;
            },
            _ => {
                return None;
            },
        },
        None => {},
    }
    match array_set_length(elements, desc) {
        Ok(b) => Some(b),
        Err(_) => None,
    }
}

/// ### [10.4.2.2 ArrayCreate ( length \[ , proto \] )](https://tc39.es/ecma262/#sec-arraycreate)
///
/// Creates an Array of `length` holes, with room reserved for `capacity`
/// elements. A RangeError is returned where `length` exceeds 2**32 - 1.
/// `proto` is the Array's prototype where it is not %Array.prototype%; it
/// is kept as the Array's backing object.
pub fn array_create(heap: &mut ArrayHeap, length: u64, capacity: u64, proto: Option<u32>) -> (r: Result<Array, JsError>)
    requires
        old(heap).wf(),
        old(heap).arrays@.len() < u32::MAX,
    ensures
        final(heap).wf(),
        length > u32::MAX <==> r is Err,
        r is Err ==> r == Err::<Array, JsError>(JsError::Exception(ExceptionType::RangeError)) && final(heap).arrays@ == old(heap).arrays@,
        r matches Ok(a) ==> {
            &&& a.0 == old(heap).arrays@.len()
            &&& final(heap).arrays@.len() == old(heap).arrays@.len() + 1
            &&& final(heap).elems(a).spec_len() == length
            &&& final(heap).elems(a).len_writable
            &&& final(heap).arrays@[a.0 as int].object_index == proto
            &&& forall|i: int| 0 <= i < length ==> #[trigger] final(heap).elems(a).property(i) is None
            &&& forall|i: int| 0 <= i < old(heap).arrays@.len() ==> #[trigger] final(heap).arrays@[i] == old(heap).arrays@[i]
        },
{
    // 1. If length > 2**32 - 1, throw a RangeError exception.
    if length > u32::MAX as u64 {
        return Err(JsError::Exception(ExceptionType::RangeError));
    }
    // 3. Let A be MakeBasicObject(« [[Prototype]], [[Extensible]] »).
    let mut elements = ElementsVector::with_length(length as u32);
    let extra = if capacity > length { capacity - length } else { 0 };
    let ghost pre = elements;
    let _ = elements.values.try_reserve(if extra > u32::MAX as u64 { u32::MAX as usize } else { extra as usize });
    proof {
        lemma_same_elements(&elements, &pre);
    }
    // 2. If proto is not present, set proto to %Array.prototype%.
    // 4. Set A.[[Prototype]] to proto.
    let index = heap.arrays.len() as u32;
    heap.arrays.push(ArrayHeapData { elements, object_index: proto });
    // 7. Return A.
    Ok(Array(index))
}

impl Array {
    /// Creates a new array with the given elements.
    ///
    /// This is equal to the [CreateArrayFromList](https://tc39.es/ecma262/#sec-createarrayfromlist)
    /// abstract operation.
    pub fn from_slice(heap: &mut ArrayHeap, elements: &[Value]) -> (r: Self)
        requires
            old(heap).wf(),
            old(heap).arrays@.len() < u32::MAX,
            elements@.len() <= u32::MAX,
        ensures
            final(heap).wf(),
            r.0 == old(heap).arrays@.len(),
            final(heap).contains(r),
            forall|i: int| 0 <= i < old(heap).arrays@.len() ==> #[trigger] final(heap).arrays@[i] == old(heap).arrays@[i],
            final(heap).elems(r).spec_len() == elements@.len(),
            final(heap).elems(r).len_writable,
            forall|i: int| 0 <= i < elements@.len() ==> #[trigger] final(heap).elems(r).property(i) == Some(
                ElementProperty::Data { value: elements@[i], writable: true, enumerable: true, configurable: true },
            ),
    {
        let mut storage = ElementsVector::new();
        let mut i: usize = 0;
        while i < elements.len()
            invariant
                storage.wf(),
                storage.len_writable,
                elements@.len() <= u32::MAX,
                i <= elements@.len(),
                storage.spec_len() == i,
                forall|j: int| 0 <= j < i ==> #[trigger] storage.property(j) == Some(
                    ElementProperty::Data { value: elements@[j], writable: true, enumerable: true, configurable: true },
                ),
            decreases elements@.len() - i,
        {
            let pushed = storage.push(Some(elements[i]), None);
            assert(pushed is Ok);
            i = i + 1;
        }
        heap.create(storage)
    }

    /// Sets whether this Array is extensible; a non-extensible Array's length
    /// is not writable either.
    pub fn internal_set_extensible(self, heap: &mut ArrayHeap, value: bool)
        requires
            old(heap).wf(),
            old(heap).contains(self),
        ensures
            final(heap).wf(),
            final(heap).arrays@.len() == old(heap).arrays@.len(),
            forall|i: int| 0 <= i < old(heap).arrays@.len() && i != self.0 ==> #[trigger] final(heap).arrays@[i] == old(heap).arrays@[i],
            final(heap).elems(self).values@ == old(heap).elems(self).values@,
            final(heap).elems(self).dmap() == old(heap).elems(self).dmap(),
            final(heap).elems(self).len_writable == value,
    {
        heap.arrays[self.0 as usize].elements.internal_set_extensible(value);
    }

    /// \[\[DefineOwnProperty]] ( P, Desc ) of this Array; see
    /// [`ElementsVector::define_own_property`].
    pub fn internal_define_own_property(self, heap: &mut ArrayHeap, key: PropertyKey, desc: PropertyDescriptor) -> (r: ArrayLookup<Result<bool, JsError>>)
        requires
            old(heap).wf(),
            old(heap).contains(self),
            valid_descriptor(desc),
            key is Length ==> (desc.value matches Some(v) ==> !(v is String || v.spec_is_object())),
        ensures
            final(heap).wf(),
            final(heap).arrays@.len() == old(heap).arrays@.len(),
            forall|i: int| 0 <= i < old(heap).arrays@.len() && i != self.0 ==> #[trigger] final(heap).arrays@[i] == old(heap).arrays@[i],
            final(heap).arrays@[self.0 as int].object_index == old(heap).arrays@[self.0 as int].object_index,
            define_post(old(heap).elems(self), final(heap).elems(self), key, desc, r),
    {
        heap.arrays[self.0 as usize].elements.define_own_property(key, desc)
    }

    /// \[\[GetOwnProperty]] ( P ) of this Array.
    pub fn try_get_own_property(self, heap: &ArrayHeap, key: PropertyKey) -> (r: ArrayLookup<Option<PropertyDescriptor>>)
        requires
            heap.wf(),
            heap.contains(self),
        ensures
            r == spec_get_own_property(heap.elems(self), key),
    {
        heap.arrays[self.0 as usize].elements.get_own_property(key)
    }

    /// \[\[HasProperty]] ( P ) of this Array, as far as the Array answers it.
    pub fn try_has_property(self, heap: &ArrayHeap, key: PropertyKey) -> (r: ArrayLookup<bool>)
        requires
            heap.wf(),
            heap.contains(self),
        ensures
            r == spec_has_property(heap.elems(self), key),
    {
        heap.arrays[self.0 as usize].elements.has_property(key)
    }

    /// \[\[Get]] ( P, Receiver ) of this Array, as far as the Array answers it.
    pub fn try_get(self, heap: &ArrayHeap, key: PropertyKey) -> (r: ArrayLookup<ElementGet>)
        requires
            heap.wf(),
            heap.contains(self),
        ensures
            r == spec_get(heap.elems(self), key),
    {
        heap.arrays[self.0 as usize].elements.get(key)
    }

    /// \[\[Delete]] ( P ) of this Array, as far as the Array answers it.
    pub fn try_delete(self, heap: &mut ArrayHeap, key: PropertyKey) -> (r: ArrayLookup<bool>)
        requires
            old(heap).wf(),
            old(heap).contains(self),
        ensures
            final(heap).wf(),
            final(heap).arrays@.len() == old(heap).arrays@.len(),
            forall|i: int| 0 <= i < old(heap).arrays@.len() && i != self.0 ==> #[trigger] final(heap).arrays@[i] == old(heap).arrays@[i],
            key is Length ==> r == ArrayLookup::<bool>::Own(false),
            array_index(key) matches Some(i) ==> {
                let deletable = !(old(heap).elems(self).property(i as int) matches Some(p) && !p.configurable());
                &&& r == ArrayLookup::<bool>::Own(deletable)
                &&& (deletable ==> final(heap).elems(self).property(i as int) is None)
            },
            array_index(key) is None && !(key is Length) ==> r == ArrayLookup::<bool>::Backing,
    {
        heap.arrays[self.0 as usize].elements.delete(key)
    }

    /// \[\[OwnPropertyKeys]] ( ) of this Array, as far as the Array answers it.
    pub fn try_own_property_keys(self, heap: &ArrayHeap) -> (r: Vec<PropertyKey>)
        requires
            heap.wf(),
            heap.contains(self),
        ensures
            r@ == index_keys_below(heap.elems(self), heap.elems(self).spec_len() as int).push(PropertyKey::Length),
    {
        heap.arrays[self.0 as usize].elements.own_property_keys()
    }
}


/// What \[\[DefineOwnProperty]] writes to an array element is what
/// \[\[Get]] reads back: once a data descriptor with a value has been
/// defined at index `i`, reading `i` gives that value, and every other
/// element reads as before.
pub proof fn lemma_array_get_after_define(
    before: &ElementsVector,
    after: &ElementsVector,
    i: u32,
    desc: PropertyDescriptor,
    r: ArrayLookup<Result<bool, JsError>>,
    j: u32,
)
    requires
        i < u32::MAX,
        define_post(before, after, PropertyKey::Index(i), desc, r),
        r == ArrayLookup::<Result<bool, JsError>>::Own(Ok(true)),
        desc.value is Some,
        !desc.spec_is_accessor_descriptor(),
    ensures
        spec_get(after, PropertyKey::Index(i)) == ArrayLookup::Own(ElementGet::Value(desc.value->Some_0)),
        j != i && j < u32::MAX ==> spec_get(after, PropertyKey::Index(j)) == spec_get(before, PropertyKey::Index(j)),
{
    if i < before.spec_len() {
        let outcome = validate_and_apply(before.len_writable, before.property(i as int), desc);
        assert(outcome is Some);
        match before.property(i as int) {
            None => {},
            Some(cur) => {
                assert(desc.spec_has_fields());
                match cur {
                    ElementProperty::Data { .. } => {},
                    ElementProperty::Accessor { .. } => {
                        assert(desc.spec_is_data_descriptor());
                    },
                }
            },
        }
    }
}


/// The "length" property reports the array's length and whether it can
/// still change: its descriptor holds the number of elements and is
/// writable exactly while the length is, never enumerable or configurable.
/// After ArraySetLength succeeds with a \[\[Writable]] field, "length" is
/// writable exactly as that field says (so an array whose length was made
/// read-only reports a read-only "length").
pub proof fn lemma_length_descriptor_reports_writability(
    elements: &ElementsVector,
    before: &ElementsVector,
    after: &ElementsVector,
    desc: PropertyDescriptor,
    r: Result<bool, JsError>,
)
    requires
        set_length_post(before, after, desc, r),
        r == Ok::<bool, JsError>(true),
        desc.writable is Some,
    ensures
        spec_get_own_property(elements, PropertyKey::Length) == ArrayLookup::Own(Some(PropertyDescriptor {
            value: Some(Value::Integer(elements.spec_len() as i64)),
            writable: Some(elements.len_writable),
            get: None,
            set: None,
            enumerable: Some(false),
            configurable: Some(false),
        })),
        spec_get_own_property(after, PropertyKey::Length) matches ArrayLookup::Own(Some(d))
            && d.writable == desc.writable
            && d.value == Some(Value::Integer(after.spec_len() as i64)),
{
}

} // verus!
