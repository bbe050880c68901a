//! The map from element indexes to element descriptors that arrays and
//! arguments objects keep beside their element values.

use vstd::prelude::*;

verus! {

#[verifier::external_type_specification]
#[verifier::external_body]
#[verifier::reject_recursive_types(K)]
#[verifier::reject_recursive_types(V)]
#[verifier::reject_recursive_types(S)]
pub struct ExAHashMap<K, V, S>(ahash::AHashMap<K, V, S>);

#[verifier::external_type_specification]
#[verifier::external_body]
pub struct ExRandomState(ahash::RandomState);

/// The attributes of an element that differ from those of a plain
/// writable, enumerable and configurable data element.
///
/// A data element keeps its value in the element values beside the
/// descriptor; an accessor element keeps its getter and setter here and has
/// no value.
#[derive(Debug, Clone, Copy, PartialEq, Eq, Structural)]
pub struct ElementDescriptor {
    pub accessor: bool,
    pub writable: bool,
    pub get: Option<u32>,
    pub set: Option<u32>,
    pub enumerable: bool,
    pub configurable: bool,
}

/// A map from element indexes to element descriptors.
pub type DescriptorMap = ahash::AHashMap<u32, ElementDescriptor>;

/// The index-to-descriptor entries that a descriptor map holds.
pub uninterp spec fn descriptor_map(m: DescriptorMap) -> Map<u32, ElementDescriptor>;

/// Calls `ahash::AHashMap::with_capacity`: a new map holds no entry.
#[verifier::external_body]
pub(crate) fn descriptor_map_with_capacity(capacity: usize) -> (r: DescriptorMap)
    ensures
        descriptor_map(r).dom() == Set::<u32>::empty(),
{
    ahash::AHashMap::with_capacity(capacity)
}

/// Calls `ahash::AHashMap::get` and copies the entry: the descriptor stored
/// under `index`, if any.
#[verifier::external_body]
pub(crate) fn descriptor_map_get(m: &DescriptorMap, index: u32) -> (r: Option<ElementDescriptor>)
    ensures
        r == (if descriptor_map(*m).dom().contains(index) {
            Some(descriptor_map(*m)[index])
        } else {
            None
        }),
{
    m.get(&index).copied()
}

/// Calls `ahash::AHashMap::insert`: the entry for `index` becomes
/// `descriptor`, and the previous entry is returned.
#[verifier::external_body]
pub(crate) fn descriptor_map_insert(
    m: &mut DescriptorMap,
    index: u32,
    descriptor: ElementDescriptor,
) -> (r: Option<ElementDescriptor>)
    ensures
        descriptor_map(*final(m)) == descriptor_map(*old(m)).insert(index, descriptor),
        r == (if descriptor_map(*old(m)).dom().contains(index) {
            Some(descriptor_map(*old(m))[index])
        } else {
            None
        }),
{
    m.insert(index, descriptor)
}

/// Calls `ahash::AHashMap::remove`: the entry for `index` is gone, and the
/// removed entry is returned.
#[verifier::external_body]
pub(crate) fn descriptor_map_remove(m: &mut DescriptorMap, index: u32) -> (r: Option<ElementDescriptor>)
    ensures
        descriptor_map(*final(m)) == descriptor_map(*old(m)).remove(index),
        r == (if descriptor_map(*old(m)).dom().contains(index) {
            Some(descriptor_map(*old(m))[index])
        } else {
            None
        }),
{
    m.remove(&index)
}

/// Calls `HashMap::is_empty` through `ahash::AHashMap`'s `Deref`: whether
/// the map holds no entry.
#[verifier::external_body]
pub(crate) fn descriptor_map_is_empty(m: &DescriptorMap) -> (r: bool)
    ensures
        r == (descriptor_map(*m).dom() == Set::<u32>::empty()),
{
    m.is_empty()
}

} // verus!
