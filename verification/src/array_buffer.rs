//! ## [25.1 ArrayBuffer Objects](https://tc39.es/ecma262/#sec-arraybuffer-objects)

use vstd::prelude::*;
use crate::value::{ExceptionType, JsError, Value};
use crate::numeric_bytes::{
    ElementType, ViewValue, bits_of, decoded_value, encoded_bytes, lemma_le_bytes_len, lemma_raw_bytes_roundtrip,
    numeric_to_raw_bytes, raw_bytes_to_numeric, value_of,
};

verus! {

/// The largest byte length of a Data Block: 2**53 - 1, the largest index
/// that ToIndex gives.
pub const MAX_BYTE_LENGTH: u64 = 9007199254740991u64;

/// A DataView's \[\[ByteLength]] as stored in its record: a byte length
/// below `u32::MAX - 1`, or one of two sentinels.
#[derive(Debug, Clone, Copy, PartialEq, Eq, Structural)]
pub struct ViewedArrayBufferByteLength(pub u32);

impl ViewedArrayBufferByteLength {
    /// A byte length stored inline.
    pub fn value(value: u32) -> (r: Self)
        ensures
            r.0 == value,
    {
        Self(value)
    }

    /// A sentinel value of `u32::MAX - 1` means that the byte length is stored in an
    /// associated map in the heap. This will most likely be a very rare case,
    /// only applicable for 4GB+ buffers.
    pub fn heap() -> (r: Self)
        ensures
            r.0 == u32::MAX - 1,
    {
        Self(u32::MAX - 1)
    }

    /// A sentinel value of `u32::MAX` means that the byte length is the
    /// `AUTO` value used in the spec.
    pub fn auto() -> (r: Self)
        ensures
            r.0 == u32::MAX,
    {
        Self(u32::MAX)
    }

    /// The default byte length is `AUTO`.
    pub fn default() -> (r: Self)
        ensures
            r.0 == u32::MAX,
    {
        Self::auto()
    }

    /// Encodes an optional byte length: `None` is `AUTO`; a length that does
    /// not fit below the heap sentinel is stored in the heap.
    pub fn from_option(value: Option<usize>) -> (r: Self)
        ensures
            r == Self::spec_from_option(value),
    {
        match value {
            Some(value) => {
                if value >= (u32::MAX - 1) as usize {
                    Self::heap()
                } else {
                    Self::value(value as u32)
                }
            },
            None => Self::auto(),
        }
    }

    pub open spec fn spec_from_option(value: Option<usize>) -> Self {
        match value {
            Some(v) => if v >= u32::MAX - 1 { ViewedArrayBufferByteLength((u32::MAX - 1) as u32) } else { ViewedArrayBufferByteLength(v as u32) },
            None => ViewedArrayBufferByteLength(u32::MAX),
        }
    }
}

/// A DataView's \[\[ByteOffset]] as stored in its record: a byte offset
/// below `u32::MAX`, or the heap sentinel.
#[derive(Debug, Clone, Copy, PartialEq, Eq, Structural)]
pub struct ViewedArrayBufferByteOffset(pub u32);

impl ViewedArrayBufferByteOffset {
    /// A byte offset stored inline.
    pub fn value(value: u32) -> (r: Self)
        ensures
            r.0 == value,
    {
        Self(value)
    }

    /// A sentinel value of `u32::MAX` means that the byte offset is stored in
    /// an associated map in the heap. This will most likely be a very rare
    /// case, only applicable for 4GB+ buffers.
    pub fn heap() -> (r: Self)
        ensures
            r.0 == u32::MAX,
    {
        Self(u32::MAX)
    }

    /// The default byte offset is 0.
    pub fn default() -> (r: Self)
        ensures
            r.0 == 0,
    {
        Self::value(0)
    }

    /// Encodes a byte offset; one that does not fit below the sentinel is
    /// stored in the heap.
    pub fn from_usize(value: usize) -> (r: Self)
        ensures
            r == Self::spec_from_usize(value),
    {
        if value >= u32::MAX as usize {
            Self::heap()
        } else {
            Self::value(value as u32)
        }
    }

    pub open spec fn spec_from_usize(value: usize) -> Self {
        if value >= u32::MAX { ViewedArrayBufferByteOffset(u32::MAX) } else { ViewedArrayBufferByteOffset(value as u32) }
    }
}

/// A key that must be presented to detach an ArrayBuffer.
#[derive(Debug, Clone, Copy, PartialEq, Eq, Structural)]
pub struct DetachKey(pub u64);

/// The memory orders of the memory model that byte length reads name.
#[derive(Debug, Clone, Copy, PartialEq, Eq, Structural)]
pub enum MemoryOrder {
    Unordered,
    SeqCst,
    Init,
}

/// The data block of an ArrayBuffer, with the capacity of a resizable one.
pub struct InternalBuffer {
    /// The bytes; `None` once the buffer is detached.
    pub data_block: Option<Vec<u8>>,
    /// Capacity of a resizable ArrayBuffer, or usize::MAX if the buffer is not
    /// resizable.
    pub capacity: usize,
}

/// `n` zero bytes.
pub fn zeroed_bytes(n: usize) -> (r: Vec<u8>)
    ensures
        r@.len() == n,
        forall|i: int| 0 <= i < n ==> #[trigger] r@[i] == 0u8,
{
    let mut v: Vec<u8> = Vec::new();
    let mut i: usize = 0;
    while i < n
        invariant
            i <= n,
            v@.len() == i,
            forall|j: int| 0 <= j < i ==> #[trigger] v@[j] == 0u8,
        decreases n - i,
    {
        v.push(0u8);
        i = i + 1;
    }
    v
}

impl InternalBuffer {
    /// Returns the contained data block. The buffer must not be detached.
    pub fn get_data_block(&self) -> (r: &Vec<u8>)
        requires
            self.data_block is Some,
        ensures
            *r == self.data_block.unwrap(),
    {
        self.data_block.as_ref().unwrap()
    }

    /// Exclusive access to the contained data block. The buffer must not be
    /// detached; what is written through the block stays in the buffer.
    pub fn get_data_block_mut(&mut self) -> (r: &mut Vec<u8>)
        requires
            old(self).data_block is Some,
        ensures
            *r == old(self).data_block.unwrap(),
            final(self).data_block == Some(*final(r)),
            final(self).capacity == old(self).capacity,
    {
        match &mut self.data_block {
            Some(block) => block,
            None => unreached(),
        }
    }

    /// Drops the data block: the buffer is detached. A resizable buffer
    /// stays resizable and a fixed-length one fixed-length: detaching does
    /// not remove \[\[ArrayBufferMaxByteLength]].
    pub fn detach(&mut self)
        ensures
            final(self).data_block is None,
            final(self).capacity == old(self).capacity,
    {
        self.data_block = None;
    }

    /// A detached buffer.
    pub fn detached() -> (r: Self)
        ensures
            r.data_block is None,
            r.capacity == usize::MAX,
    {
        InternalBuffer { data_block: None, capacity: usize::MAX }
    }

    /// A fixed-length buffer holding `data_block`.
    pub fn fixed_length(data_block: Vec<u8>) -> (r: Self)
        ensures
            r.data_block == Some(data_block),
            r.capacity == usize::MAX,
    {
        InternalBuffer { data_block: Some(data_block), capacity: usize::MAX }
    }

    /// A resizable buffer holding `data_block`, growable to `capacity` bytes.
    pub fn resizable(data_block: Vec<u8>, capacity: usize) -> (r: Self)
        requires
            capacity != usize::MAX,
        ensures
            r.data_block == Some(data_block),
            r.capacity == capacity,
    {
        InternalBuffer { data_block: Some(data_block), capacity }
    }
}

/// The heap data of an ArrayBuffer.
pub struct ArrayBufferHeapData {
    pub object_index: Option<u32>,
    pub buffer: InternalBuffer,
    /// \[\[ArrayBufferDetachKey]]: absent means undefined.
    pub detach_key: Option<DetachKey>,
}

impl ArrayBufferHeapData {
    pub open spec fn spec_is_detached(&self) -> bool {
        self.buffer.data_block is None
    }

    pub open spec fn spec_is_resizable(&self) -> bool {
        self.buffer.capacity != usize::MAX
    }

    /// \[\[ArrayBufferByteLength]]: 0 for a detached buffer.
    pub open spec fn spec_byte_length(&self) -> nat {
        match self.buffer.data_block {
            Some(b) => b@.len(),
            None => 0,
        }
    }

    /// The bytes of the buffer (empty once detached).
    pub open spec fn bytes(&self) -> Seq<u8> {
        match self.buffer.data_block {
            Some(b) => b@,
            None => Seq::empty(),
        }
    }

    /// The byte length stays within the maximum: a resizable buffer that is
    /// not detached holds at most its capacity.
    pub open spec fn wf(&self) -> bool {
        !self.spec_is_detached() && self.spec_is_resizable() ==> self.spec_byte_length() <= self.buffer.capacity
    }

    /// \[\[ArrayBufferMaxByteLength]] of a resizable buffer, else its length.
    pub open spec fn spec_max_byte_length(&self) -> nat {
        if self.spec_is_detached() {
            0
        } else if self.spec_is_resizable() {
            self.buffer.capacity as nat
        } else {
            self.spec_byte_length()
        }
    }

    /// A detached buffer with no backing object.
    pub fn default() -> (r: Self)
        ensures
            r.spec_is_detached(),
            !r.spec_is_resizable(),
            r.object_index is None,
            r.detach_key is None,
    {
        ArrayBufferHeapData { object_index: None, buffer: InternalBuffer::detached(), detach_key: None }
    }

    /// A resizable buffer holding `db`, growable to `cap` bytes.
    pub fn new_resizable(db: Vec<u8>, cap: usize) -> (r: Self)
        requires
            cap != usize::MAX,
        ensures
            !r.spec_is_detached(),
            r.spec_is_resizable(),
            r.bytes() == db@,
            r.buffer.capacity == cap,
            r.object_index is None,
            r.detach_key is None,
            r.wf() <==> db@.len() <= cap,
    {
        ArrayBufferHeapData { object_index: None, buffer: InternalBuffer::resizable(db, cap), detach_key: None }
    }

    /// A fixed-length buffer holding `db`.
    pub fn new_fixed_length(db: Vec<u8>) -> (r: Self)
        ensures
            !r.spec_is_detached(),
            !r.spec_is_resizable(),
            r.bytes() == db@,
            r.object_index is None,
            r.detach_key is None,
    {
        ArrayBufferHeapData { object_index: None, buffer: InternalBuffer::fixed_length(db), detach_key: None }
    }

    /// The bytes of a buffer that is not detached.
    pub fn get_data_block(&self) -> (r: &Vec<u8>)
        requires
            !self.spec_is_detached(),
        ensures
            r@ == self.bytes(),
    {
        self.buffer.get_data_block()
    }

    pub fn is_detached(&self) -> (r: bool)
        ensures
            r == self.spec_is_detached(),
    {
        self.buffer.data_block.is_none()
    }

    pub fn is_resizable(&self) -> (r: bool)
        ensures
            r == self.spec_is_resizable(),
    {
        self.buffer.capacity != usize::MAX
    }

    pub fn byte_length(&self) -> (r: usize)
        ensures
            r == self.spec_byte_length(),
    {
        match &self.buffer.data_block {
            Some(b) => b.len(),
            None => 0,
        }
    }

    pub fn max_byte_length(&self) -> (r: usize)
        ensures
            r == self.spec_max_byte_length(),
    {
        if self.is_detached() {
            0
        } else if self.is_resizable() {
            self.buffer.capacity
        } else {
            self.byte_length()
        }
    }

    /// Resizes a resizable buffer to `new_byte_length` bytes: the bytes
    /// below both lengths are kept and new bytes are zero.
    pub fn resize(&mut self, new_byte_length: usize)
        requires
            old(self).spec_is_resizable(),
            !old(self).spec_is_detached(),
        ensures
            !final(self).spec_is_detached(),
            final(self).buffer.capacity == old(self).buffer.capacity,
            final(self).object_index == old(self).object_index,
            final(self).detach_key == old(self).detach_key,
            final(self).wf() <==> new_byte_length <= old(self).buffer.capacity,
            final(self).spec_byte_length() == new_byte_length,
            forall|i: int| 0 <= i < new_byte_length ==> #[trigger] final(self).bytes()[i] == if i < old(self).spec_byte_length() {
                old(self).bytes()[i]
            } else {
                0u8
            },
    {
        let mut block = match self.buffer.data_block.take() {
            Some(b) => b,
            None => {
                assert(false);
                Vec::new()
            },
        };
        let ghost old_bytes = block@;
        if new_byte_length <= block.len() {
            block.truncate(new_byte_length);
        } else {
            while block.len() < new_byte_length
                invariant
                    old_bytes.len() <= block@.len() <= new_byte_length,
                    forall|i: int| 0 <= i < block@.len() ==> #[trigger] block@[i] == if i < old_bytes.len() { old_bytes[i] } else { 0u8 },
                decreases new_byte_length - block@.len(),
            {
                block.push(0u8);
            }
        }
        self.buffer.data_block = Some(block);
    }
}

/// The arena of all ArrayBuffers.
pub struct ArrayBufferHeap {
    pub buffers: Vec<ArrayBufferHeapData>,
}

/// A handle to an ArrayBuffer in the [`ArrayBufferHeap`].
#[derive(Debug, Clone, Copy, PartialEq, Eq, Structural)]
pub struct ArrayBuffer(pub u32);

impl ArrayBufferHeap {
    pub open spec fn contains(&self, ab: ArrayBuffer) -> bool {
        ab.0 < self.buffers@.len()
    }

    pub open spec fn get(&self, ab: ArrayBuffer) -> &ArrayBufferHeapData {
        &self.buffers@[ab.0 as int]
    }

    /// The heap is unchanged but for the buffer `ab`.
    pub open spec fn same_except(&self, other: &ArrayBufferHeap, ab: ArrayBuffer) -> bool {
        &&& self.buffers@.len() == other.buffers@.len()
        &&& forall|i: int| 0 <= i < self.buffers@.len() && i != ab.0 ==> #[trigger] self.buffers@[i] == other.buffers@[i]
    }

    /// An empty heap.
    pub fn new() -> (r: Self)
        ensures
            r.buffers@.len() == 0,
    {
        ArrayBufferHeap { buffers: Vec::new() }
    }

    /// Adds an ArrayBuffer with the given data.
    pub fn create(&mut self, data: ArrayBufferHeapData) -> (r: ArrayBuffer)
        requires
            old(self).buffers@.len() < u32::MAX,
        ensures
            r.0 == old(self).buffers@.len(),
            final(self).buffers@ == old(self).buffers@.push(data),
    {
        let index = self.buffers.len() as u32;
        self.buffers.push(data);
        ArrayBuffer(index)
    }
}

/// An ArrayBuffer's byte length never exceeds its maximum byte length: a
/// detached buffer has both 0, a fixed-length buffer has them equal, and a
/// resizable one (kept within its capacity by every operation that
/// resizes within the maximum) has its length at most the maximum.
pub proof fn lemma_byte_length_within_max(data: &ArrayBufferHeapData)
    requires
        data.wf(),
    ensures
        data.spec_is_detached() ==> data.spec_byte_length() == 0 && data.spec_max_byte_length() == 0,
        data.spec_byte_length() <= data.spec_max_byte_length(),
        !data.spec_is_resizable() ==> data.spec_byte_length() == data.spec_max_byte_length(),
{
}

/// ### CreateByteDataBlock ( size )
///
/// A Data Block of `size` zero bytes; a RangeError where a block of that
/// size cannot be created.
pub fn create_byte_data_block(size: u64) -> (r: Result<Vec<u8>, JsError>)
    ensures
        size > MAX_BYTE_LENGTH || size > usize::MAX <==> r is Err,
        r is Err ==> r == Err::<Vec<u8>, JsError>(JsError::Exception(ExceptionType::RangeError)),
        r matches Ok(b) ==> b@.len() == size && forall|i: int| 0 <= i < size ==> #[trigger] b@[i] == 0u8,
{
    if size > MAX_BYTE_LENGTH || size > usize::MAX as u64 {
        return Err(JsError::Exception(ExceptionType::RangeError));
    }
    Ok(zeroed_bytes(size as usize))
}

impl ArrayBuffer {
    /// The ArrayBuffer that a value is, if it is one.
    pub fn try_from(value: Value) -> (r: Result<ArrayBuffer, ()>)
        ensures
            r == (match value {
                Value::ArrayBuffer(i) => Ok(ArrayBuffer(i)),
                _ => Err(()),
            }),
    {
        match value {
            Value::ArrayBuffer(i) => Ok(ArrayBuffer(i)),
            _ => Err(()),
        }
    }

    /// Creates a fixed-length ArrayBuffer of `byte_length` zero bytes.
    pub fn new(heap: &mut ArrayBufferHeap, byte_length: usize) -> (r: Result<ArrayBuffer, JsError>)
        requires
            old(heap).buffers@.len() < u32::MAX,
        ensures
            byte_length > MAX_BYTE_LENGTH <==> r is Err,
            r is Err ==> r == Err::<ArrayBuffer, JsError>(JsError::Exception(ExceptionType::RangeError))
                && final(heap).buffers@ == old(heap).buffers@,
            r matches Ok(ab) ==> {
                &&& ab.0 == old(heap).buffers@.len()
                &&& final(heap).buffers@.len() == old(heap).buffers@.len() + 1
                &&& forall|i: int| 0 <= i < old(heap).buffers@.len() ==> #[trigger] final(heap).buffers@[i] == old(heap).buffers@[i]
                &&& !final(heap).get(ab).spec_is_detached()
                &&& !final(heap).get(ab).spec_is_resizable()
                &&& final(heap).get(ab).spec_byte_length() == byte_length
                &&& forall|i: int| 0 <= i < byte_length ==> #[trigger] final(heap).get(ab).bytes()[i] == 0u8
                &&& final(heap).get(ab).detach_key is None
                &&& final(heap).get(ab).wf()
            },
    {
        let block = create_byte_data_block(byte_length as u64)?;
        Ok(heap.create(ArrayBufferHeapData::new_fixed_length(block)))
    }

    pub fn is_detached(self, heap: &ArrayBufferHeap) -> (r: bool)
        requires
            heap.contains(self),
        ensures
            r == heap.get(self).spec_is_detached(),
    {
        heap.buffers[self.0 as usize].is_detached()
    }

    pub fn is_resizable(self, heap: &ArrayBufferHeap) -> (r: bool)
        requires
            heap.contains(self),
        ensures
            r == heap.get(self).spec_is_resizable(),
    {
        heap.buffers[self.0 as usize].is_resizable()
    }

    pub fn byte_length(self, heap: &ArrayBufferHeap) -> (r: usize)
        requires
            heap.contains(self),
        ensures
            r == heap.get(self).spec_byte_length(),
    {
        heap.buffers[self.0 as usize].byte_length()
    }

    pub fn max_byte_length(self, heap: &ArrayBufferHeap) -> (r: usize)
        requires
            heap.contains(self),
        ensures
            r == heap.get(self).spec_max_byte_length(),
    {
        heap.buffers[self.0 as usize].max_byte_length()
    }

    /// \[\[ArrayBufferDetachKey]]
    pub fn get_detach_key(self, heap: &ArrayBufferHeap) -> (r: Option<DetachKey>)
        requires
            heap.contains(self),
        ensures
            r == heap.get(self).detach_key,
    {
        heap.buffers[self.0 as usize].detach_key
    }

    /// Sets \[\[ArrayBufferDetachKey]] (`None` for undefined).
    pub fn set_detach_key(self, heap: &mut ArrayBufferHeap, key: Option<DetachKey>)
        requires
            old(heap).contains(self),
        ensures
            final(heap).same_except(old(heap), self),
            final(heap).get(self).detach_key == key,
            final(heap).get(self).buffer == old(heap).get(self).buffer,
            final(heap).get(self).object_index == old(heap).get(self).object_index,
    {
        heap.buffers[self.0 as usize].detach_key = key;
    }

    /// ### [25.1.3.4 DetachArrayBuffer ( arrayBuffer \[ , key \] )](https://tc39.es/ecma262/#sec-detacharraybuffer)
    pub fn detach(self, heap: &mut ArrayBufferHeap, key: Option<DetachKey>) -> (r: Result<(), JsError>)
        requires
            old(heap).contains(self),
        ensures
            final(heap).same_except(old(heap), self),
            (old(heap).get(self).detach_key != key) <==> r is Err,
            r is Err ==> r == Err::<(), JsError>(JsError::Exception(ExceptionType::TypeError))
                && final(heap).buffers@ == old(heap).buffers@,
            r is Ok ==> final(heap).get(self).spec_is_detached()
                && final(heap).get(self).spec_byte_length() == 0
                && final(heap).get(self).detach_key == old(heap).get(self).detach_key
                && final(heap).get(self).object_index == old(heap).get(self).object_index
                && final(heap).get(self).spec_is_resizable() == old(heap).get(self).spec_is_resizable(),
    {
        detach_array_buffer(heap, self, key)
    }

    /// Resize a Resizable ArrayBuffer.
    pub fn resize(self, heap: &mut ArrayBufferHeap, new_byte_length: usize)
        requires
            old(heap).contains(self),
            old(heap).get(self).spec_is_resizable(),
            !old(heap).get(self).spec_is_detached(),
        ensures
            final(heap).same_except(old(heap), self),
            !final(heap).get(self).spec_is_detached(),
            final(heap).get(self).spec_is_resizable(),
            final(heap).get(self).spec_byte_length() == new_byte_length,
            final(heap).get(self).wf() <==> new_byte_length <= old(heap).get(self).buffer.capacity,
            forall|i: int| 0 <= i < new_byte_length ==> #[trigger] final(heap).get(self).bytes()[i] == if i < old(heap).get(self).spec_byte_length() {
                old(heap).get(self).bytes()[i]
            } else {
                0u8
            },
    {
        heap.buffers[self.0 as usize].resize(new_byte_length);
    }

    /// The bytes of this ArrayBuffer, which must not be detached.
    pub fn as_slice(self, heap: &ArrayBufferHeap) -> (r: &[u8])
        requires
            heap.contains(self),
            !heap.get(self).spec_is_detached(),
        ensures
            r@ == heap.get(self).bytes(),
    {
        heap.buffers[self.0 as usize].get_data_block().as_slice()
    }

    /// Exclusive access to the bytes of this ArrayBuffer, which must not be
    /// detached: what is written through the slice becomes the buffer's
    /// bytes, and nothing else in the heap changes.
    pub fn as_mut_slice(self, heap: &mut ArrayBufferHeap) -> (r: &mut [u8])
        requires
            old(heap).contains(self),
            !old(heap).get(self).spec_is_detached(),
        ensures
            r@ == old(heap).get(self).bytes(),
            final(heap).same_except(old(heap), self),
            !final(heap).get(self).spec_is_detached(),
            final(heap).get(self).bytes() == final(r)@,
            final(heap).get(self).buffer.capacity == old(heap).get(self).buffer.capacity,
            final(heap).get(self).object_index == old(heap).get(self).object_index,
            final(heap).get(self).detach_key == old(heap).get(self).detach_key,
    {
        let data = &mut heap.buffers[self.0 as usize];
        match &mut data.buffer.data_block {
            Some(block) => block.as_mut_slice(),
            None => unreached(),
        }
    }

    /// Copy `count` bytes from `source`, starting at byte `first`, to the
    /// start of this ArrayBuffer.
    ///
    /// `self` and `source` must be different ArrayBuffers.
    pub fn copy_array_buffer_data(self, heap: &mut ArrayBufferHeap, source: ArrayBuffer, first: usize, count: usize)
        requires
            old(heap).contains(self),
            old(heap).contains(source),
            self != source,
            !old(heap).get(self).spec_is_detached(),
            !old(heap).get(source).spec_is_detached(),
            first + count <= old(heap).get(source).spec_byte_length(),
            count <= old(heap).get(self).spec_byte_length(),
        ensures
            final(heap).same_except(old(heap), self),
            !final(heap).get(self).spec_is_detached(),
            final(heap).get(self).buffer.capacity == old(heap).get(self).buffer.capacity,
            final(heap).get(self).object_index == old(heap).get(self).object_index,
            final(heap).get(self).detach_key == old(heap).get(self).detach_key,
            final(heap).get(self).bytes() == old(heap).get(source).bytes().subrange(first as int, first + count)
                + old(heap).get(self).bytes().subrange(count as int, old(heap).get(self).spec_byte_length() as int),
    {
        let mut bytes: Vec<u8> = Vec::new();
        {
            let source_data = heap.buffers[source.0 as usize].get_data_block();
            let source_len = source_data.len();
            let mut i: usize = 0;
            while i < count
                invariant
                    i <= count,
                    source_len == source_data@.len(),
                    first + count <= source_len,
                    bytes@ == source_data@.subrange(first as int, first + i),
                decreases count - i,
            {
                bytes.push(source_data[first + i]);
                i = i + 1;
            }
        }
        let target = &mut heap.buffers[self.0 as usize];
        let mut block = match target.buffer.data_block.take() {
            Some(b) => b,
            None => {
                assert(false);
                Vec::new()
            },
        };
        let ghost old_block = block@;
        let mut i: usize = 0;
        while i < count
            invariant
                i <= count,
                count <= old_block.len(),
                bytes@.len() == count,
                block@.len() == old_block.len(),
                forall|j: int| 0 <= j < i ==> #[trigger] block@[j] == bytes@[j],
                forall|j: int| i <= j < old_block.len() ==> #[trigger] block@[j] == old_block[j],
            decreases count - i,
        {
            block.set(i, bytes[i]);
            i = i + 1;
        }
        assert(block@ =~= bytes@ + old_block.subrange(count as int, old_block.len() as int));
        target.buffer.data_block = Some(block);
    }

    pub fn get_index(self) -> (r: usize)
        ensures
            r == self.0,
    {
        self.0 as usize
    }
}

/// An ArrayBuffer of either kind; this build has only unshared ones.
#[derive(Debug, Clone, Copy, PartialEq, Eq, Structural)]
pub enum AnyArrayBuffer {
    ArrayBuffer(ArrayBuffer),
}

impl AnyArrayBuffer {
    pub open spec fn buffer(self) -> ArrayBuffer {
        match self {
            AnyArrayBuffer::ArrayBuffer(ab) => ab,
        }
    }

    pub fn is_detached(self, heap: &ArrayBufferHeap) -> (r: bool)
        requires
            heap.contains(self.buffer()),
        ensures
            r == heap.get(self.buffer()).spec_is_detached(),
    {
        match self {
            AnyArrayBuffer::ArrayBuffer(ab) => ab.is_detached(heap),
        }
    }

    /// Returns true if the ArrayBuffer is resizable.
    pub fn is_resizable(self, heap: &ArrayBufferHeap) -> (r: bool)
        requires
            heap.contains(self.buffer()),
        ensures
            r == heap.get(self.buffer()).spec_is_resizable(),
    {
        match self {
            AnyArrayBuffer::ArrayBuffer(ab) => ab.is_resizable(heap),
        }
    }

    /// \[\[ByteLength]]
    pub fn byte_length(self, heap: &ArrayBufferHeap) -> (r: usize)
        requires
            heap.contains(self.buffer()),
        ensures
            r == heap.get(self.buffer()).spec_byte_length(),
    {
        match self {
            AnyArrayBuffer::ArrayBuffer(ab) => ab.byte_length(heap),
        }
    }
}

/// #### [25.1.3.1 AllocateArrayBuffer ( constructor, byteLength \[ , maxByteLength \] )](https://tc39.es/ecma262/#sec-allocatearraybuffer)
///
/// A resizable buffer where `max_byte_length` is present (a RangeError where
/// the byte length exceeds it), else a fixed-length one; a RangeError where
/// the block cannot be created.
pub fn allocate_array_buffer(heap: &mut ArrayBufferHeap, byte_length: u64, max_byte_length: Option<u64>) -> (r: Result<ArrayBuffer, JsError>)
    requires
        old(heap).buffers@.len() < u32::MAX,
    ensures
        r is Err <==> (max_byte_length matches Some(m) && byte_length > m)
            || or_else_u64(max_byte_length, byte_length) > MAX_BYTE_LENGTH
            || or_else_u64(max_byte_length, byte_length) >= usize::MAX,
        r is Err ==> r == Err::<ArrayBuffer, JsError>(JsError::Exception(ExceptionType::RangeError))
            && final(heap).buffers@ == old(heap).buffers@,
        r matches Ok(ab) ==> {
            &&& ab.0 == old(heap).buffers@.len()
            &&& final(heap).buffers@.len() == old(heap).buffers@.len() + 1
            &&& forall|i: int| 0 <= i < old(heap).buffers@.len() ==> #[trigger] final(heap).buffers@[i] == old(heap).buffers@[i]
            &&& !final(heap).get(ab).spec_is_detached()
            &&& final(heap).get(ab).spec_is_resizable() == max_byte_length is Some
            &&& final(heap).get(ab).spec_byte_length() == byte_length
            &&& final(heap).get(ab).spec_max_byte_length() == or_else_u64(max_byte_length, byte_length)
            &&& forall|i: int| 0 <= i < byte_length ==> #[trigger] final(heap).get(ab).bytes()[i] == 0u8
            &&& final(heap).get(ab).detach_key is None
            &&& final(heap).get(ab).wf()
        },
{
    // 2. If maxByteLength is present and maxByteLength is not EMPTY, let
    //    allocatingResizableBuffer be true.
    match max_byte_length {
        Some(max) => {
            // 3.a. If byteLength > maxByteLength, throw a RangeError exception.
            if byte_length > max {
                return Err(JsError::Exception(ExceptionType::RangeError));
            }
            // 8.a. If it is not possible to create a Data Block block consisting
            //      of maxByteLength bytes, throw a RangeError exception.
            if max > MAX_BYTE_LENGTH || max >= usize::MAX as u64 {
                return Err(JsError::Exception(ExceptionType::RangeError));
            }
            // 5. Let block be ? CreateByteDataBlock(byteLength).
            let block = create_byte_data_block(byte_length)?;
            // 8.c. Set obj.[[ArrayBufferMaxByteLength]] to maxByteLength.
            Ok(heap.create(ArrayBufferHeapData::new_resizable(block, max as usize)))
        },
        None => {
            if byte_length >= usize::MAX as u64 {
                return Err(JsError::Exception(ExceptionType::RangeError));
            }
            let block = create_byte_data_block(byte_length)?;
            // 6. Set obj.[[ArrayBufferData]] to block.
            // 7. Set obj.[[ArrayBufferByteLength]] to byteLength.
            Ok(heap.create(ArrayBufferHeapData::new_fixed_length(block)))
        },
    }
}

pub open spec fn or_else_u64(o: Option<u64>, d: u64) -> u64 {
    match o {
        Some(v) => v,
        None => d,
    }
}

/// #### [25.1.3.2 ArrayBufferByteLength ( arrayBuffer, order )](https://tc39.es/ecma262/#sec-arraybufferbytelength)
pub fn array_buffer_byte_length(heap: &ArrayBufferHeap, array_buffer: ArrayBuffer, _order: MemoryOrder) -> (r: usize)
    requires
        heap.contains(array_buffer),
        !heap.get(array_buffer).spec_is_detached(),
    ensures
        r == heap.get(array_buffer).spec_byte_length(),
{
    // 2. Assert: IsDetachedBuffer(arrayBuffer) is false.
    // 3. Return arrayBuffer.[[ArrayBufferByteLength]].
    heap.buffers[array_buffer.0 as usize].byte_length()
}

/// #### [25.1.3.3 IsDetachedBuffer ( arrayBuffer )](https://tc39.es/ecma262/#sec-isdetachedbuffer)
pub fn is_detached_buffer(heap: &ArrayBufferHeap, array_buffer: ArrayBuffer) -> (r: bool)
    requires
        heap.contains(array_buffer),
    ensures
        r == heap.get(array_buffer).spec_is_detached(),
{
    // 1. If arrayBuffer.[[ArrayBufferData]] is null, return true.
    // 2. Return false.
    heap.buffers[array_buffer.0 as usize].is_detached()
}

/// #### [25.1.3.4 DetachArrayBuffer ( arrayBuffer \[ , key \] )](https://tc39.es/ecma262/#sec-detacharraybuffer)
///
/// A TypeError where `key` is not the buffer's detach key; else the buffer
/// is detached.
pub fn detach_array_buffer(heap: &mut ArrayBufferHeap, array_buffer: ArrayBuffer, key: Option<DetachKey>) -> (r: Result<(), JsError>)
    requires
        old(heap).contains(array_buffer),
    ensures
        final(heap).same_except(old(heap), array_buffer),
        (old(heap).get(array_buffer).detach_key != key) <==> r is Err,
        r is Err ==> r == Err::<(), JsError>(JsError::Exception(ExceptionType::TypeError))
            && final(heap).buffers@ == old(heap).buffers@,
        r is Ok ==> final(heap).get(array_buffer).spec_is_detached()
            && final(heap).get(array_buffer).spec_byte_length() == 0
            && final(heap).get(array_buffer).detach_key == old(heap).get(array_buffer).detach_key
            && final(heap).get(array_buffer).object_index == old(heap).get(array_buffer).object_index
            && final(heap).get(array_buffer).buffer.capacity == old(heap).get(array_buffer).buffer.capacity
            && final(heap).get(array_buffer).spec_is_resizable() == old(heap).get(array_buffer).spec_is_resizable()
            && final(heap).get(array_buffer).wf(),
{
    let data = &mut heap.buffers[array_buffer.0 as usize];
    // 2. If key is not present, set key to undefined.
    // 3. If arrayBuffer.[[ArrayBufferDetachKey]] is not key, throw a TypeError exception.
    if data.detach_key != key {
        return Err(JsError::Exception(ExceptionType::TypeError));
    }
    // 4. Set arrayBuffer.[[ArrayBufferData]] to null.
    // 5. Set arrayBuffer.[[ArrayBufferByteLength]] to 0.
    data.buffer.detach();
    // 6. Return UNUSED.
    Ok(())
}

/// #### [25.1.3.5 CloneArrayBuffer ( srcBuffer, srcByteOffset, srcLength )](https://tc39.es/ecma262/#sec-clonearraybuffer)
///
/// A new fixed-length ArrayBuffer holding a copy of `src_length` bytes of
/// `src_buffer` from `src_byte_offset` on.
pub fn clone_array_buffer(heap: &mut ArrayBufferHeap, src_buffer: ArrayBuffer, src_byte_offset: usize, src_length: usize) -> (r: Result<ArrayBuffer, JsError>)
    requires
        old(heap).contains(src_buffer),
        !old(heap).get(src_buffer).spec_is_detached(),
        src_byte_offset + src_length <= old(heap).get(src_buffer).spec_byte_length(),
        old(heap).buffers@.len() < u32::MAX,
    ensures
        r is Err <==> src_length > MAX_BYTE_LENGTH || src_length >= usize::MAX,
        r is Err ==> final(heap).buffers@ == old(heap).buffers@,
        r matches Ok(ab) ==> {
            &&& ab.0 == old(heap).buffers@.len()
            &&& final(heap).buffers@.len() == old(heap).buffers@.len() + 1
            &&& forall|i: int| 0 <= i < old(heap).buffers@.len() ==> #[trigger] final(heap).buffers@[i] == old(heap).buffers@[i]
            &&& !final(heap).get(ab).spec_is_detached()
            &&& !final(heap).get(ab).spec_is_resizable()
            &&& final(heap).get(ab).bytes() == old(heap).get(src_buffer).bytes().subrange(src_byte_offset as int, src_byte_offset + src_length)
        },
{
    // 2. Let targetBuffer be ? AllocateArrayBuffer(%ArrayBuffer%, srcLength).
    let target_buffer = allocate_array_buffer(heap, src_length as u64, None)?;
    // 5. Perform CopyDataBlockBytes(targetBlock, 0, srcBlock, srcByteOffset, srcLength).
    target_buffer.copy_array_buffer_data(heap, src_buffer, src_byte_offset, src_length);
    proof {
        assert(heap.get(target_buffer).bytes() =~= old(heap).get(src_buffer).bytes().subrange(src_byte_offset as int, src_byte_offset + src_length));
    }
    // 6. Return targetBuffer.
    Ok(target_buffer)
}

/// #### [25.1.3.6 GetArrayBufferMaxByteLengthOption ( options )](https://tc39.es/ecma262/#sec-getarraybuffermaxbytelengthoption)
///
/// `max_byte_length` is what `Get(options, "maxByteLength")` gave, where
/// `options` is an Object; it is a primitive other than a String (Strings
/// and Objects are converted to Numbers before this is called). EMPTY is
/// `None`; ToIndex refuses a Number outside 0 to 2**53 - 1 with a
/// RangeError, and a Symbol with a TypeError.
pub fn get_array_buffer_max_byte_length_option(options: Value, max_byte_length: Value) -> (r: Result<Option<u64>, JsError>)
    requires
        options.spec_is_object() ==> !(max_byte_length is String || max_byte_length.spec_is_object()),
    ensures
        r == spec_max_byte_length_option(options, max_byte_length),
{
    // 1. If options is not an Object, return EMPTY.
    if !options.is_object() {
        return Ok(None);
    }
    // 3. If maxByteLength is undefined, return EMPTY.
    if max_byte_length.is_undefined() {
        return Ok(None);
    }
    // 4. Return ? ToIndex(maxByteLength).
    match max_byte_length {
        Value::Null => Ok(Some(0)),
        Value::Boolean(b) => Ok(Some(if b { 1 } else { 0 })),
        Value::Integer(n) => if 0 <= n && n <= MAX_BYTE_LENGTH as i64 {
            Ok(Some(n as u64))
        } else {
            Err(JsError::Exception(ExceptionType::RangeError))
        },
        _ => Err(JsError::Exception(ExceptionType::TypeError)),
    }
}

pub open spec fn spec_max_byte_length_option(options: Value, max_byte_length: Value) -> Result<Option<u64>, JsError> {
    if !options.spec_is_object() || max_byte_length is Undefined {
        Ok(None)
    } else {
        match max_byte_length {
            Value::Null => Ok(Some(0u64)),
            Value::Boolean(b) => Ok(Some(if b { 1u64 } else { 0u64 })),
            Value::Integer(n) => if 0 <= n <= MAX_BYTE_LENGTH {
                Ok(Some(n as u64))
            } else {
                Err(JsError::Exception(ExceptionType::RangeError))
            },
            _ => Err(JsError::Exception(ExceptionType::TypeError)),
        }
    }
}

/// #### [25.1.3.7 HostResizeArrayBuffer ( buffer, newByteLength )](https://tc39.es/ecma262/#sec-hostresizearraybuffer)
///
/// Resizes a resizable, attached buffer and returns true (HANDLED);
/// returns false (UNHANDLED) and changes nothing for any other buffer.
pub fn host_resize_array_buffer(heap: &mut ArrayBufferHeap, buffer: ArrayBuffer, new_byte_length: usize) -> (r: bool)
    requires
        old(heap).contains(buffer),
    ensures
        final(heap).same_except(old(heap), buffer),
        r == (old(heap).get(buffer).spec_is_resizable() && !old(heap).get(buffer).spec_is_detached()),
        !r ==> final(heap).buffers@ == old(heap).buffers@,
        r ==> final(heap).get(buffer).spec_byte_length() == new_byte_length,
        r ==> (final(heap).get(buffer).wf() <==> new_byte_length <= old(heap).get(buffer).buffer.capacity),
{
    let data = &mut heap.buffers[buffer.0 as usize];
    if data.is_detached() || !data.is_resizable() {
        return false;
    }
    data.resize(new_byte_length);
    true
}

/// #### [25.1.3.8 IsFixedLengthArrayBuffer ( arrayBuffer )](https://tc39.es/ecma262/#sec-isfixedlengtharraybuffer)
pub fn is_fixed_length_array_buffer(heap: &ArrayBufferHeap, array_buffer: ArrayBuffer) -> (r: bool)
    requires
        heap.contains(array_buffer),
    ensures
        r == !heap.get(array_buffer).spec_is_resizable(),
{
    // 1. If arrayBuffer has an [[ArrayBufferMaxByteLength]] internal slot, return false.
    // 2. Return true.
    !heap.buffers[array_buffer.0 as usize].is_resizable()
}

/// `bytes` with the bytes from `index` on replaced by `written`.
pub open spec fn write_bytes(bytes: Seq<u8>, index: int, written: Seq<u8>) -> Seq<u8> {
    bytes.subrange(0, index) + written + bytes.subrange(index + written.len(), bytes.len() as int)
}

/// #### [25.1.3.15 GetValueFromBuffer ( arrayBuffer, byteIndex, type, isTypedArray, order \[ , isLittleEndian \] )](https://tc39.es/ecma262/#sec-getvaluefrombuffer)
///
/// The Element Size bytes of the buffer from `byte_index` on, read as a
/// value of the type.
pub fn get_value_from_buffer(
    heap: &ArrayBufferHeap,
    array_buffer: ArrayBuffer,
    byte_index: usize,
    t: ElementType,
    _is_typed_array: bool,
    _order: MemoryOrder,
    is_little_endian: bool,
) -> (r: ViewValue)
    requires
        heap.contains(array_buffer),
        !heap.get(array_buffer).spec_is_detached(),
        byte_index + t.size() <= heap.get(array_buffer).spec_byte_length(),
    ensures
        r == decoded_value(t, heap.get(array_buffer).bytes().subrange(byte_index as int, byte_index + t.size()), is_little_endian),
{
    // 1. Assert: IsDetachedBuffer(arrayBuffer) is false.
    // 2. Assert: There are sufficient bytes in arrayBuffer starting at byteIndex to represent a value of type.
    // 3. Let block be arrayBuffer.[[ArrayBufferData]].
    let block = heap.buffers[array_buffer.0 as usize].get_data_block();
    // 4. Let elementSize be the Element Size value specified in Table 71 for Element Type type.
    let element_size = t.element_size();
    // 6.a. Let rawValue be a List whose elements are bytes from block at indices in the interval
    //      from byteIndex (inclusive) to byteIndex + elementSize (exclusive).
    let block_len = block.len();
    let mut raw_value: Vec<u8> = Vec::new();
    let mut i: usize = 0;
    while i < element_size
        invariant
            i <= element_size,
            block_len == block@.len(),
            element_size == t.size(),
            byte_index + element_size <= block@.len(),
            raw_value@ == block@.subrange(byte_index as int, byte_index + i),
        decreases element_size - i,
    {
        raw_value.push(block[byte_index + i]);
        i = i + 1;
    }
    // 9. Return RawBytesToNumeric(type, rawValue, isLittleEndian).
    raw_bytes_to_numeric(t, raw_value.as_slice(), is_little_endian)
}

/// #### [25.1.3.17 SetValueInBuffer ( arrayBuffer, byteIndex, type, value, isTypedArray, order \[ , isLittleEndian \] )](https://tc39.es/ecma262/#sec-setvalueinbuffer)
///
/// The bytes that NumericToRawBytes gives for the value are stored from
/// `byte_index` on; the rest of the buffer, and every other buffer, is
/// unchanged.
pub fn set_value_in_buffer(
    heap: &mut ArrayBufferHeap,
    array_buffer: ArrayBuffer,
    byte_index: usize,
    t: ElementType,
    value: ViewValue,
    _is_typed_array: bool,
    _order: MemoryOrder,
    is_little_endian: bool,
)
    requires
        old(heap).contains(array_buffer),
        !old(heap).get(array_buffer).spec_is_detached(),
        byte_index + t.size() <= old(heap).get(array_buffer).spec_byte_length(),
        t.holds_kind(value),
        value matches ViewValue::Int(i) ==> i64::MIN <= i <= u64::MAX,
    ensures
        final(heap).same_except(old(heap), array_buffer),
        !final(heap).get(array_buffer).spec_is_detached(),
        final(heap).get(array_buffer).buffer.capacity == old(heap).get(array_buffer).buffer.capacity,
        final(heap).get(array_buffer).object_index == old(heap).get(array_buffer).object_index,
        final(heap).get(array_buffer).detach_key == old(heap).get(array_buffer).detach_key,
        final(heap).get(array_buffer).bytes() == write_bytes(
            old(heap).get(array_buffer).bytes(),
            byte_index as int,
            encoded_bytes(t, value, is_little_endian),
        ),
{
    // 5. Let elementSize be the Element Size value specified in Table 71 for Element Type type.
    let element_size = t.element_size();
    // 7. Let rawBytes be NumericToRawBytes(type, value, isLittleEndian).
    let raw_bytes = numeric_to_raw_bytes(t, value, is_little_endian);
    // 4. Let block be arrayBuffer.[[ArrayBufferData]].
    let target = &mut heap.buffers[array_buffer.0 as usize];
    let mut block = match target.buffer.data_block.take() {
        Some(b) => b,
        None => {
            assert(false);
            Vec::new()
        },
    };
    let ghost old_block = block@;
    let block_len = block.len();
    // 9.a. Store the individual bytes of rawBytes into block, starting at block[byteIndex].
    let mut i: usize = 0;
    while i < element_size
        invariant
            i <= element_size,
            element_size == raw_bytes@.len(),
            byte_index + element_size <= old_block.len(),
            block_len == old_block.len(),
            block@.len() == old_block.len(),
            forall|j: int| 0 <= j < byte_index ==> #[trigger] block@[j] == old_block[j],
            forall|j: int| byte_index <= j < byte_index + i ==> #[trigger] block@[j] == raw_bytes@[j - byte_index],
            forall|j: int| byte_index + i <= j < old_block.len() ==> #[trigger] block@[j] == old_block[j],
        decreases element_size - i,
    {
        block.set(byte_index + i, raw_bytes[i]);
        i = i + 1;
    }
    assert(block@ =~= write_bytes(old_block, byte_index as int, raw_bytes@));
    target.buffer.data_block = Some(block);
    // 10. Return UNUSED.
}


/// Reading back what was written: after SetValueInBuffer stored `v` at
/// `byte_index`, GetValueFromBuffer at that index with the same type and
/// byte order gives the value that the type's conversion operation makes of
/// `v`, and `v` itself where the type represents it exactly; a read of bytes
/// that do not overlap the written ones gives what it gave before.
pub proof fn lemma_get_after_set_value_in_buffer(
    before: &ArrayBufferHeap,
    after: &ArrayBufferHeap,
    array_buffer: ArrayBuffer,
    byte_index: int,
    t: ElementType,
    v: ViewValue,
    is_little_endian: bool,
    other_index: int,
    other_type: ElementType,
    other_little_endian: bool,
)
    requires
        before.contains(array_buffer),
        !before.get(array_buffer).spec_is_detached(),
        0 <= byte_index,
        byte_index + t.size() <= before.get(array_buffer).spec_byte_length(),
        t.holds_kind(v),
        after.get(array_buffer).bytes() == write_bytes(
            before.get(array_buffer).bytes(),
            byte_index,
            encoded_bytes(t, v, is_little_endian),
        ),
    ensures
        decoded_value(t, after.get(array_buffer).bytes().subrange(byte_index, byte_index + t.size()), is_little_endian)
            == value_of(t, bits_of(t, v)),
        t.in_range(v) ==> decoded_value(t, after.get(array_buffer).bytes().subrange(byte_index, byte_index + t.size()), is_little_endian) == v,
        0 <= other_index && other_index + other_type.size() <= before.get(array_buffer).spec_byte_length()
            && (other_index + other_type.size() <= byte_index || byte_index + t.size() <= other_index)
            ==> decoded_value(other_type, after.get(array_buffer).bytes().subrange(other_index, other_index + other_type.size()), other_little_endian)
                == decoded_value(other_type, before.get(array_buffer).bytes().subrange(other_index, other_index + other_type.size()), other_little_endian),
{
    let b = before.get(array_buffer).bytes();
    let a = after.get(array_buffer).bytes();
    let w = encoded_bytes(t, v, is_little_endian);
    lemma_le_bytes_len(bits_of(t, v), t.size());
    assert(w.len() == t.size());
    assert(a.subrange(byte_index, byte_index + t.size()) =~= w);
    lemma_raw_bytes_roundtrip(t, v, is_little_endian);
    if 0 <= other_index && other_index + other_type.size() <= b.len()
        && (other_index + other_type.size() <= byte_index || byte_index + t.size() <= other_index) {
        assert forall|k: int| 0 <= k < b.len() && (k < byte_index || k >= byte_index + t.size()) implies a[k] == b[k] by {
            if k < byte_index {
                assert(a[k] == b.subrange(0, byte_index)[k]);
            } else {
                assert(a[k] == b.subrange(byte_index + w.len(), b.len() as int)[k - byte_index - w.len()]);
            }
        }
        assert(a.subrange(other_index, other_index + other_type.size()) =~= b.subrange(other_index, other_index + other_type.size()));
    }
}

} // verus!
