//! Element storage: the element values of an array-like object together
//! with the descriptors of the elements that are not plain data elements.

use vstd::prelude::*;
use crate::descriptor_map::{DescriptorMap, ElementDescriptor, descriptor_map, descriptor_map_get, descriptor_map_insert, descriptor_map_remove, descriptor_map_with_capacity};
use crate::value::{PropertyDescriptor, Value};

verus! {

/// What an element of an array-like object is, as a property.
#[derive(Debug, Clone, Copy, PartialEq, Eq, Structural)]
pub enum ElementProperty {
    Data { value: Value, writable: bool, enumerable: bool, configurable: bool },
    Accessor { get: Option<u32>, set: Option<u32>, enumerable: bool, configurable: bool },
}

impl ElementProperty {
    pub open spec fn configurable(self) -> bool {
        match self {
            ElementProperty::Data { configurable, .. } => configurable,
            ElementProperty::Accessor { configurable, .. } => configurable,
        }
    }

    pub open spec fn enumerable(self) -> bool {
        match self {
            ElementProperty::Data { enumerable, .. } => enumerable,
            ElementProperty::Accessor { enumerable, .. } => enumerable,
        }
    }
}

/// The element that a value slot and an optional descriptor make up.
pub open spec fn element_property(value: Option<Value>, desc: Option<ElementDescriptor>) -> Option<ElementProperty> {
    match desc {
        None => match value {
            Some(v) => Some(ElementProperty::Data { value: v, writable: true, enumerable: true, configurable: true }),
            None => None,
        },
        Some(d) => if d.accessor {
            Some(ElementProperty::Accessor { get: d.get, set: d.set, enumerable: d.enumerable, configurable: d.configurable })
        } else {
            Some(ElementProperty::Data {
                value: match value { Some(v) => v, None => Value::Undefined },
                writable: d.writable,
                enumerable: d.enumerable,
                configurable: d.configurable,
            })
        },
    }
}

/// The property descriptor that describes an element property.
pub open spec fn property_to_descriptor(p: ElementProperty) -> PropertyDescriptor {
    match p {
        ElementProperty::Data { value, writable, enumerable, configurable } => PropertyDescriptor {
            value: Some(value),
            writable: Some(writable),
            get: None,
            set: None,
            enumerable: Some(enumerable),
            configurable: Some(configurable),
        },
        ElementProperty::Accessor { get, set, enumerable, configurable } => PropertyDescriptor {
            value: None,
            writable: None,
            get: Some(get),
            set: Some(set),
            enumerable: Some(enumerable),
            configurable: Some(configurable),
        },
    }
}

impl ElementDescriptor {
    /// A data descriptor has no getter or setter; an accessor is not writable.
    pub open spec fn wf(self) -> bool {
        &&& !self.accessor ==> (self.get is None && self.set is None)
        &&& self.accessor ==> !self.writable
    }

    /// \[\[Writable]] of a data element; accessors have none.
    pub fn is_writable(&self) -> (r: Option<bool>)
        ensures
            r == (if self.accessor { None } else { Some(self.writable) }),
    {
        if self.accessor {
            None
        } else {
            Some(self.writable)
        }
    }

    /// \[\[Enumerable]]
    pub fn is_enumerable(&self) -> (r: bool)
        ensures
            r == self.enumerable,
    {
        self.enumerable
    }

    /// \[\[Configurable]]
    pub fn is_configurable(&self) -> (r: bool)
        ensures
            r == self.configurable,
    {
        self.configurable
    }

    pub fn is_data_descriptor(&self) -> (r: bool)
        ensures
            r == !self.accessor,
    {
        !self.accessor
    }

    pub fn is_accessor_descriptor(&self) -> (r: bool)
        ensures
            r == self.accessor,
    {
        self.accessor
    }

    /// The getter of an accessor element, if it has one.
    pub fn getter_function(&self) -> (r: Option<u32>)
        ensures
            r == (if self.accessor { self.get } else { None }),
    {
        if self.accessor {
            self.get
        } else {
            None
        }
    }

    /// The setter of an accessor element, if it has one.
    pub fn setter_function(&self) -> (r: Option<u32>)
        ensures
            r == (if self.accessor { self.set } else { None }),
    {
        if self.accessor {
            self.set
        } else {
            None
        }
    }

    /// The descriptor of a data element with the given attributes; a plain
    /// writable, enumerable and configurable element needs none.
    pub fn new_with_wec(writable: bool, enumerable: bool, configurable: bool) -> (r: Option<Self>)
        ensures
            (writable && enumerable && configurable) <==> r is None,
            r matches Some(d) ==> (d == ElementDescriptor {
                accessor: false,
                writable,
                get: None,
                set: None,
                enumerable,
                configurable,
            }),
    {
        if writable && enumerable && configurable {
            None
        } else {
            Some(ElementDescriptor { accessor: false, writable, get: None, set: None, enumerable, configurable })
        }
    }

    /// The descriptor of a data element created from `desc`, absent fields
    /// taking their default value false.
    pub fn from_data_descriptor(desc: PropertyDescriptor) -> (r: Option<Self>)
        ensures
            element_property(Some(Value::Undefined), r) == Some(ElementProperty::Data {
                value: Value::Undefined,
                writable: desc.writable == Some(true),
                enumerable: desc.enumerable == Some(true),
                configurable: desc.configurable == Some(true),
            }),
            r matches Some(d) ==> d.wf() && !d.accessor && !(d.writable && d.enumerable && d.configurable),
    {
        let w = match desc.writable { Some(w) => w, None => false };
        let e = match desc.enumerable { Some(e) => e, None => false };
        let c = match desc.configurable { Some(c) => c, None => false };
        Self::new_with_wec(w, e, c)
    }

    /// The descriptor of an accessor element with the given fields.
    pub fn from_accessor_descriptor_fields(
        get: Option<u32>,
        set: Option<u32>,
        enumerable: bool,
        configurable: bool,
    ) -> (r: Self)
        ensures
            r == (ElementDescriptor { accessor: true, writable: false, get, set, enumerable, configurable }),
            r.wf(),
    {
        ElementDescriptor { accessor: true, writable: false, get, set, enumerable, configurable }
    }

    /// The descriptor of an accessor element created from `desc`, absent
    /// fields taking their default values.
    pub fn from_accessor_descriptor(desc: PropertyDescriptor) -> (r: Self)
        ensures
            r == (ElementDescriptor {
                accessor: true,
                writable: false,
                get: match desc.get { Some(g) => g, None => None },
                set: match desc.set { Some(s) => s, None => None },
                enumerable: desc.enumerable == Some(true),
                configurable: desc.configurable == Some(true),
            }),
            r.wf(),
    {
        let get = match desc.get { Some(g) => g, None => None };
        let set = match desc.set { Some(s) => s, None => None };
        let e = match desc.enumerable { Some(e) => e, None => false };
        let c = match desc.configurable { Some(c) => c, None => false };
        Self::from_accessor_descriptor_fields(get, set, e, c)
    }

    /// The descriptor of an element created from `desc`: an accessor
    /// descriptor where `desc` is one, else a data descriptor.
    pub fn from_property_descriptor(desc: PropertyDescriptor) -> (r: Option<Self>)
        ensures
            desc.spec_is_accessor_descriptor() ==> r == Some(Self::from_accessor_spec(desc)),
            !desc.spec_is_accessor_descriptor() ==> element_property(Some(Value::Undefined), r) == Some(ElementProperty::Data {
                value: Value::Undefined,
                writable: desc.writable == Some(true),
                enumerable: desc.enumerable == Some(true),
                configurable: desc.configurable == Some(true),
            }),
            r matches Some(d) ==> d.wf() && d.accessor == desc.spec_is_accessor_descriptor()
                && (!d.accessor ==> !(d.writable && d.enumerable && d.configurable)),
    {
        if desc.is_accessor_descriptor() {
            Some(Self::from_accessor_descriptor(desc))
        } else {
            Self::from_data_descriptor(desc)
        }
    }

    pub open spec fn from_accessor_spec(desc: PropertyDescriptor) -> Self {
        ElementDescriptor {
            accessor: true,
            writable: false,
            get: match desc.get { Some(g) => g, None => None },
            set: match desc.set { Some(s) => s, None => None },
            enumerable: desc.enumerable == Some(true),
            configurable: desc.configurable == Some(true),
        }
    }

    /// The property descriptor of an element with the given descriptor and
    /// value slot, which must make up an element.
    pub fn to_property_descriptor(desc: Option<Self>, value: Option<Value>) -> (r: PropertyDescriptor)
        requires
            element_property(value, desc) is Some,
        ensures
            r == property_to_descriptor(element_property(value, desc).unwrap()),
    {
        match desc {
            None => PropertyDescriptor {
                value,
                writable: Some(true),
                get: None,
                set: None,
                enumerable: Some(true),
                configurable: Some(true),
            },
            Some(d) => if d.accessor {
                PropertyDescriptor {
                    value: None,
                    writable: None,
                    get: Some(d.get),
                    set: Some(d.set),
                    enumerable: Some(d.enumerable),
                    configurable: Some(d.configurable),
                }
            } else {
                PropertyDescriptor {
                    value: Some(match value { Some(v) => v, None => Value::Undefined }),
                    writable: Some(d.writable),
                    get: None,
                    set: None,
                    enumerable: Some(d.enumerable),
                    configurable: Some(d.configurable),
                }
            },
        }
    }
}

/// Whether a descriptor fits the value slot beside it: an accessor element
/// has an empty slot, a data element a value, and only an element that is
/// not a plain writable, enumerable and configurable data element has a
/// descriptor at all.
pub open spec fn fits(d: ElementDescriptor, value: Option<Value>) -> bool {
    &&& d.wf()
    &&& d.accessor ==> value is None
    &&& !d.accessor ==> value is Some && !(d.writable && d.enumerable && d.configurable)
}

/// The value slot that an element is stored with: the value of a data
/// element, nothing for an accessor or a hole.
pub open spec fn slot_of(p: Option<ElementProperty>) -> Option<Value> {
    match p {
        Some(ElementProperty::Data { value, .. }) => Some(value),
        _ => None,
    }
}

/// The descriptor that an element is stored with: none for a hole or a
/// plain writable, enumerable and configurable data element.
pub open spec fn descriptor_of(p: Option<ElementProperty>) -> Option<ElementDescriptor> {
    match p {
        None => None,
        Some(ElementProperty::Data { value, writable, enumerable, configurable }) => if writable && enumerable && configurable {
            None
        } else {
            Some(ElementDescriptor { accessor: false, writable, get: None, set: None, enumerable, configurable })
        },
        Some(ElementProperty::Accessor { get, set, enumerable, configurable }) => Some(ElementDescriptor {
            accessor: true,
            writable: false,
            get,
            set,
            enumerable,
            configurable,
        }),
    }
}

/// The descriptor that `m` holds for index `i`, if any.
pub open spec fn desc_in(m: Map<u32, ElementDescriptor>, i: int) -> Option<ElementDescriptor> {
    if m.dom().contains(i as u32) { Some(m[i as u32]) } else { None }
}

/// The elements of an array-like object: a value slot per index below the
/// length, descriptors for the elements that are not plain data elements,
/// and whether the length may change.
pub struct ElementsVector {
    pub values: Vec<Option<Value>>,
    pub descriptors: DescriptorMap,
    pub len_writable: bool,
}

impl ElementsVector {
    /// The entries of the descriptor map.
    pub open spec fn dmap(&self) -> Map<u32, ElementDescriptor> {
        descriptor_map(self.descriptors)
    }

    /// The descriptor stored for index `i`, if any.
    pub open spec fn desc_at(&self, i: int) -> Option<ElementDescriptor> {
        desc_in(self.dmap(), i)
    }

    /// The length of the elements.
    pub open spec fn spec_len(&self) -> nat {
        self.values@.len()
    }

    /// The element at index `i`, if there is one. In well-formed elements it
    /// fixes how the element is stored ([`lemma_property_is_storage`]).
    pub open spec fn property(&self, i: int) -> Option<ElementProperty> {
        if 0 <= i < self.values@.len() {
            element_property(self.values@[i], self.desc_at(i))
        } else {
            None
        }
    }

    /// Well-formedness: the length fits the array index range, and every
    /// descriptor belongs to an index below the length and is well formed.
    pub open spec fn wf(&self) -> bool {
        &&& self.values@.len() <= u32::MAX
        &&& forall|k: u32| #[trigger] self.dmap().dom().contains(k) ==> {
            &&& k < self.values@.len()
            &&& fits(self.dmap()[k], self.values@[k as int])
        }
    }

    /// Every value slot below the length of `before` but the one at `i`, and
    /// the descriptor stored for it, is as in `before`.
    pub open spec fn kept_except(&self, before: &ElementsVector, i: int) -> bool {
        forall|j: int| 0 <= j < before.spec_len() && j != i ==> #[trigger] self.values@[j] == before.values@[j] && self.desc_at(j) == before.desc_at(j)
    }

    /// The first `n` value slots, and the descriptors stored for them, are
    /// as in `before`.
    pub open spec fn kept_below(&self, before: &ElementsVector, n: int) -> bool {
        forall|j: int| 0 <= j < n ==> #[trigger] self.values@[j] == before.values@[j] && self.desc_at(j) == before.desc_at(j)
    }

    /// No elements and a writable length.
    pub fn new() -> (r: Self)
        ensures
            r.wf(),
            r.spec_len() == 0,
            r.len_writable,
    {
        ElementsVector { values: Vec::new(), descriptors: descriptor_map_with_capacity(0), len_writable: true }
    }

    /// `len` holes and a writable length.
    pub fn with_length(len: u32) -> (r: Self)
        ensures
            r.wf(),
            r.spec_len() == len,
            r.len_writable,
            forall|i: int| 0 <= i < len ==> r.property(i) is None,
    {
        let mut values: Vec<Option<Value>> = Vec::new();
        let mut i: u32 = 0;
        while i < len
            invariant
                i <= len,
                values@.len() == i,
                forall|j: int| 0 <= j < i ==> values@[j] is None,
            decreases len - i,
        {
            values.push(None);
            i = i + 1;
        }
        let r = ElementsVector { values, descriptors: descriptor_map_with_capacity(0), len_writable: true };
        assert forall|i: int| 0 <= i < len implies r.property(i) is None by {
            assert(!r.dmap().dom().contains(i as u32));
        }
        r
    }

    /// The length.
    pub fn len(&self) -> (r: u32)
        requires
            self.wf(),
        ensures
            r == self.spec_len(),
    {
        self.values.len() as u32
    }

    /// The descriptor stored for the element at `index`, if any.
    pub fn descriptor_at(&self, index: u32) -> (r: Option<ElementDescriptor>)
        ensures
            r == self.desc_at(index as int),
    {
        descriptor_map_get(&self.descriptors, index)
    }

    /// Whether the length is 0.
    pub fn is_empty(&self) -> (r: bool)
        ensures
            r == (self.spec_len() == 0),
    {
        self.values.len() == 0
    }

    /// Stores `value` and `descriptor` as the element at `index`: the element
    /// becomes what they make up, and no other element changes.
    pub fn set_element(&mut self, index: u32, value: Option<Value>, descriptor: Option<ElementDescriptor>)
        requires
            old(self).wf(),
            index < old(self).spec_len(),
            descriptor matches Some(d) ==> fits(d, value),
        ensures
            final(self).wf(),
            final(self).spec_len() == old(self).spec_len(),
            final(self).len_writable == old(self).len_writable,
            final(self).property(index as int) == element_property(value, descriptor),
            forall|j: int| j != index ==> #[trigger] final(self).property(j) == old(self).property(j),
            final(self).dmap() == (match descriptor {
                Some(d) => old(self).dmap().insert(index, d),
                None => old(self).dmap().remove(index),
            }),
            final(self).values@ == old(self).values@.update(index as int, value),
    {
        self.values.set(index as usize, value);
        match descriptor {
            Some(d) => {
                descriptor_map_insert(&mut self.descriptors, index, d);
            },
            None => {
                descriptor_map_remove(&mut self.descriptors, index);
            },
        }
        assert forall|j: int| j != index implies #[trigger] self.property(j) == old(self).property(j) by {
            if 0 <= j < self.values@.len() {
                assert(self.desc_at(j) == old(self).desc_at(j));
            }
        }
    }

    /// Removes the element at `index`, leaving a hole.
    pub fn clear_element(&mut self, index: u32)
        requires
            old(self).wf(),
            index < old(self).spec_len(),
        ensures
            final(self).wf(),
            final(self).spec_len() == old(self).spec_len(),
            final(self).len_writable == old(self).len_writable,
            final(self).property(index as int) is None,
            forall|j: int| j != index ==> #[trigger] final(self).property(j) == old(self).property(j),
            final(self).dmap() == old(self).dmap().remove(index),
    {
        self.set_element(index, None, None);
    }

    /// Appends an element made up of `value` and `descriptor`.
    pub fn push(&mut self, value: Option<Value>, descriptor: Option<ElementDescriptor>) -> (r: Result<(), CapacityError>)
        requires
            old(self).wf(),
            descriptor matches Some(d) ==> fits(d, value),
        ensures
            final(self).wf(),
            final(self).len_writable == old(self).len_writable,
            r is Err <==> old(self).spec_len() == u32::MAX,
            r is Err ==> *final(self) == *old(self),
            r is Ok ==> final(self).spec_len() == old(self).spec_len() + 1,
            r is Ok ==> final(self).property(old(self).spec_len() as int) == element_property(value, descriptor),
            r is Ok ==> forall|j: int| j != old(self).spec_len() ==> #[trigger] final(self).property(j) == old(self).property(j),
            r is Ok ==> final(self).kept_below(old(self), old(self).spec_len() as int),
    {
        if self.values.len() >= u32::MAX as usize {
            return Err(CapacityError);
        }
        let index = self.values.len() as u32;
        self.values.push(None);
        assert(!self.dmap().dom().contains(index));
        assert forall|j: int| j != index implies #[trigger] self.property(j) == old(self).property(j) by {
            if 0 <= j < old(self).values@.len() {
                assert(self.values@[j] == old(self).values@[j]);
            }
        }
        self.set_element(index, value, descriptor);
        proof {
            lemma_kept_below(old(self), self, index as int);
        }
        Ok(())
    }

    /// Shortens the elements to `new_len`, dropping the elements at and
    /// above it.
    pub fn truncate(&mut self, new_len: u32)
        requires
            old(self).wf(),
            new_len <= old(self).spec_len(),
        ensures
            final(self).wf(),
            final(self).spec_len() == new_len,
            final(self).len_writable == old(self).len_writable,
            forall|j: int| j < new_len ==> #[trigger] final(self).property(j) == old(self).property(j),
            final(self).kept_below(old(self), new_len as int),
    {
        let old_len = self.values.len() as u32;
        let mut i = old_len;
        while i > new_len
            invariant
                self.wf(),
                self.spec_len() == old(self).spec_len(),
                new_len <= i <= old_len,
                self.spec_len() == old_len,
                self.len_writable == old(self).len_writable,
                forall|j: int| j < i ==> #[trigger] self.property(j) == old(self).property(j),
                forall|k: u32| #[trigger] self.dmap().dom().contains(k) ==> k < i,
            decreases i - new_len,
        {
            i = i - 1;
            self.clear_element(i);
        }
        let ghost before = self.values@;
        let ghost before_dmap = self.dmap();
        assert(forall|j: int| 0 <= j < new_len ==> #[trigger] element_property(before[j], desc_in(before_dmap, j)) == old(self).property(j)) by {
            assert forall|j: int| 0 <= j < new_len implies #[trigger] element_property(before[j], desc_in(before_dmap, j)) == old(self).property(j) by {
                assert(self.property(j) == old(self).property(j));
            }
        }
        self.values.truncate(new_len as usize);
        assert(self.dmap() == before_dmap);
        assert forall|j: int| j < new_len implies #[trigger] self.property(j) == old(self).property(j) by {
            if 0 <= j {
                assert(self.values@[j] == before[j]);
                assert(element_property(before[j], desc_in(before_dmap, j)) == old(self).property(j));
            }
        }
        assert forall|k: u32| #[trigger] self.dmap().dom().contains(k) implies {
            &&& k < self.values@.len()
            &&& self.dmap()[k].wf()
            &&& (!self.dmap()[k].accessor ==> self.values@[k as int] is Some)
        } by {
            assert(before_dmap.dom().contains(k));
            assert(self.values@[k as int] == before[k as int]);
        }
        proof {
            lemma_kept_below(old(self), self, new_len as int);
        }
    }

    /// Appends holes until the length is `new_len`.
    pub fn extend_to(&mut self, new_len: u32)
        requires
            old(self).wf(),
            new_len >= old(self).spec_len(),
        ensures
            final(self).wf(),
            final(self).spec_len() == new_len,
            final(self).len_writable == old(self).len_writable,
            forall|j: int| j < old(self).spec_len() ==> #[trigger] final(self).property(j) == old(self).property(j),
            forall|j: int| old(self).spec_len() <= j < new_len ==> #[trigger] final(self).property(j) is None,
            final(self).kept_below(old(self), old(self).spec_len() as int),
            final(self).dmap() == old(self).dmap(),
    {
        while self.values.len() < new_len as usize
            invariant
                self.wf(),
                old(self).spec_len() <= self.spec_len() <= new_len,
                self.len_writable == old(self).len_writable,
                self.dmap() == old(self).dmap(),
                forall|j: int| 0 <= j < old(self).spec_len() ==> self.values@[j] == old(self).values@[j],
                forall|j: int| old(self).spec_len() <= j < self.spec_len() ==> self.values@[j] is None,
            decreases new_len - self.spec_len(),
        {
            self.values.push(None);
        }
        assert forall|j: int| j < old(self).spec_len() implies #[trigger] self.property(j) == old(self).property(j) by {
            if 0 <= j {
                assert(self.desc_at(j) == old(self).desc_at(j));
            }
        }
        assert forall|j: int| old(self).spec_len() <= j < new_len implies #[trigger] self.property(j) is None by {
            assert(!self.dmap().dom().contains(j as u32));
        }
    }
}

/// Two element storages with the same value slots and descriptors are the
/// same elements.
pub proof fn lemma_same_elements(a: &ElementsVector, b: &ElementsVector)
    requires
        a.values@ == b.values@,
        a.dmap() == b.dmap(),
    ensures
        a.wf() == b.wf(),
        a.spec_len() == b.spec_len(),
        forall|j: int| #[trigger] a.property(j) == b.property(j),
{
    assert forall|j: int| #[trigger] a.property(j) == b.property(j) by {
        if 0 <= j < a.values@.len() {
            assert(a.desc_at(j) == b.desc_at(j));
        }
    }
}

/// In well-formed elements an element's property fixes how it is stored:
/// its value slot and its descriptor.
pub proof fn lemma_property_is_storage(e: &ElementsVector, i: int)
    requires
        e.wf(),
        0 <= i < e.spec_len(),
    ensures
        e.values@[i] == slot_of(e.property(i)),
        e.desc_at(i) == descriptor_of(e.property(i)),
{
    if e.dmap().dom().contains(i as u32) {
        assert(fits(e.dmap()[i as u32], e.values@[(i as u32) as int]));
    }
}

/// Well-formed elements with the same properties below `n` store them the
/// same way.
pub proof fn lemma_kept_below(before: &ElementsVector, after: &ElementsVector, n: int)
    requires
        before.wf(),
        after.wf(),
        n <= before.spec_len(),
        n <= after.spec_len(),
        forall|j: int| 0 <= j < n ==> #[trigger] after.property(j) == before.property(j),
    ensures
        after.kept_below(before, n),
{
    assert forall|j: int| 0 <= j < n implies #[trigger] after.values@[j] == before.values@[j] && after.desc_at(j) == before.desc_at(j) by {
        lemma_property_is_storage(before, j);
        lemma_property_is_storage(after, j);
        assert(after.property(j) == before.property(j));
    }
}

/// Well-formed elements of the same length whose properties agree at every
/// index but `i` store them the same way.
pub proof fn lemma_kept_except(before: &ElementsVector, after: &ElementsVector, i: int)
    requires
        before.wf(),
        after.wf(),
        before.spec_len() == after.spec_len(),
        forall|j: int| j != i ==> #[trigger] after.property(j) == before.property(j),
    ensures
        after.kept_except(before, i),
{
    assert forall|j: int| 0 <= j < before.spec_len() && j != i implies #[trigger] after.values@[j] == before.values@[j] && after.desc_at(j) == before.desc_at(j) by {
        lemma_property_is_storage(before, j);
        lemma_property_is_storage(after, j);
        assert(after.property(j) == before.property(j));
    }
}

/// Growing the elements past the largest array length was refused.
#[derive(Debug, Clone, Copy, PartialEq, Eq, Structural)]
pub struct CapacityError;

} // verus!
