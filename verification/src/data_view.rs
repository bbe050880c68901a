//! ## [25.3 DataView Objects](https://tc39.es/ecma262/#sec-dataview-objects)
//!
//! A DataView record keeps its \[\[ByteLength]] and \[\[ByteOffset]] in 32
//! bits; a value that does not fit is kept in side tables of the heap, and
//! the record holds a sentinel in its place.

use vstd::prelude::*;
use crate::value::{ExceptionType, JsError, Value};
use crate::array_buffer::{
    AnyArrayBuffer, ArrayBuffer, ArrayBufferHeap, MemoryOrder, ViewedArrayBufferByteLength,
    ViewedArrayBufferByteOffset, array_buffer_byte_length, get_value_from_buffer,
    set_value_in_buffer, write_bytes,
};
use crate::numeric_bytes::{
    ElementType, ViewValue, bits_of, decoded_value, encoded_bytes, value_of,
    lemma_raw_bytes_roundtrip,
};

verus! {

/// The heap data of a DataView.
#[derive(Debug, Clone, Copy, PartialEq, Eq, Structural)]
pub struct DataViewRecord {
    pub object_index: Option<u32>,
    /// \[\[ViewedArrayBuffer]]
    pub viewed_array_buffer: ArrayBuffer,
    /// \[\[ByteLength]]
    pub byte_length: ViewedArrayBufferByteLength,
    /// \[\[ByteOffset]]
    pub byte_offset: ViewedArrayBufferByteOffset,
}

impl DataViewRecord {
    /// A record with no backing object, viewing the first ArrayBuffer with
    /// an AUTO byte length from offset 0.
    pub fn default() -> (r: Self)
        ensures
            r.object_index is None,
            r.viewed_array_buffer == ArrayBuffer(0),
            r.byte_length.0 == u32::MAX,
            r.byte_offset.0 == 0,
    {
        DataViewRecord {
            object_index: None,
            viewed_array_buffer: ArrayBuffer(0),
            byte_length: ViewedArrayBufferByteLength::default(),
            byte_offset: ViewedArrayBufferByteOffset::default(),
        }
    }
}

/// The byte length that a record's \[\[ByteLength]] stands for, with the
/// side table's entry for the DataView: `None` for AUTO.
pub open spec fn decoded_byte_length(stored: ViewedArrayBufferByteLength, table: Option<usize>) -> Option<usize> {
    if stored.0 == u32::MAX - 1 {
        table
    } else if stored.0 == u32::MAX {
        None
    } else {
        Some(stored.0 as usize)
    }
}

/// The byte offset that a record's \[\[ByteOffset]] stands for, with the
/// side table's entry for the DataView.
pub open spec fn decoded_byte_offset(stored: ViewedArrayBufferByteOffset, table: Option<usize>) -> usize {
    if stored.0 == u32::MAX {
        table.unwrap()
    } else {
        stored.0 as usize
    }
}

/// The record encoding loses nothing: a byte length (or AUTO) and a byte
/// offset, encoded into a record with the side table holding exactly what
/// does not fit, decode to themselves.
pub proof fn lemma_record_encoding_roundtrip(byte_length: Option<usize>, byte_offset: usize)
    ensures
        ({
            let l = ViewedArrayBufferByteLength::spec_from_option(byte_length);
            let l_table = if l.0 == u32::MAX - 1 { byte_length } else { None };
            decoded_byte_length(l, l_table) == byte_length
        }),
        ({
            let o = ViewedArrayBufferByteOffset::spec_from_usize(byte_offset);
            let o_table = if o.0 == u32::MAX { Some(byte_offset) } else { None };
            decoded_byte_offset(o, o_table) == byte_offset
        }),
{
}

/// The arena of all DataViews, with the side tables for byte lengths and
/// byte offsets that do not fit in a record.
pub struct DataViewHeap {
    pub records: Vec<DataViewRecord>,
    /// The byte length of each DataView whose record holds the heap sentinel.
    pub byte_lengths: Vec<Option<usize>>,
    /// The byte offset of each DataView whose record holds the heap sentinel.
    pub byte_offsets: Vec<Option<usize>>,
}

/// A handle to a DataView in the [`DataViewHeap`].
#[derive(Debug, Clone, Copy, PartialEq, Eq, Structural)]
pub struct DataView(pub u32);

impl DataViewHeap {
    /// The side tables run beside the records, and hold an entry exactly
    /// where the record holds the heap sentinel.
    pub open spec fn wf(&self) -> bool {
        &&& self.byte_lengths@.len() == self.records@.len()
        &&& self.byte_offsets@.len() == self.records@.len()
        &&& forall|i: int| 0 <= i < self.records@.len() ==>
            (#[trigger] self.records@[i].byte_length.0 == u32::MAX - 1 <==> self.byte_lengths@[i] is Some)
        &&& forall|i: int| 0 <= i < self.records@.len() ==>
            (#[trigger] self.records@[i].byte_offset.0 == u32::MAX <==> self.byte_offsets@[i] is Some)
    }

    pub open spec fn contains(&self, dv: DataView) -> bool {
        dv.0 < self.records@.len()
    }

    pub open spec fn record(&self, dv: DataView) -> DataViewRecord {
        self.records@[dv.0 as int]
    }

    /// \[\[ByteLength]] of the DataView: `None` for AUTO.
    pub open spec fn view_byte_length(&self, dv: DataView) -> Option<usize> {
        decoded_byte_length(self.record(dv).byte_length, self.byte_lengths@[dv.0 as int])
    }

    /// \[\[ByteOffset]] of the DataView.
    pub open spec fn view_byte_offset(&self, dv: DataView) -> usize {
        decoded_byte_offset(self.record(dv).byte_offset, self.byte_offsets@[dv.0 as int])
    }

    /// The buffer that the DataView views.
    pub open spec fn buffer_of(&self, dv: DataView) -> ArrayBuffer {
        self.record(dv).viewed_array_buffer
    }

    /// Every DataView views an ArrayBuffer of `buffers`.
    pub open spec fn views_into(&self, buffers: &ArrayBufferHeap) -> bool {
        forall|i: int| 0 <= i < self.records@.len() ==> buffers.contains(#[trigger] self.records@[i].viewed_array_buffer)
    }

    /// The DataView `dv` reads the same as in `other`.
    pub open spec fn same_view(&self, other: &DataViewHeap, dv: DataView) -> bool {
        &&& self.record(dv) == other.record(dv)
        &&& self.view_byte_length(dv) == other.view_byte_length(dv)
        &&& self.view_byte_offset(dv) == other.view_byte_offset(dv)
    }

    /// An empty heap.
    pub fn new() -> (r: Self)
        ensures
            r.wf(),
            r.records@.len() == 0,
    {
        DataViewHeap { records: Vec::new(), byte_lengths: Vec::new(), byte_offsets: Vec::new() }
    }

    /// Adds a DataView with the given record.
    ///
    /// The record's byte length and byte offset must not be the heap
    /// sentinels: a value that needs the side tables is set by
    /// [`DataView::initialise_data`].
    pub fn create(&mut self, data: DataViewRecord) -> (r: DataView)
        requires
            old(self).wf(),
            old(self).records@.len() < u32::MAX,
            data.byte_length.0 != u32::MAX - 1,
            data.byte_offset.0 != u32::MAX,
        ensures
            final(self).wf(),
            r.0 == old(self).records@.len(),
            final(self).records@ == old(self).records@.push(data),
            forall|dv: DataView| old(self).contains(dv) ==> #[trigger] final(self).same_view(old(self), dv),
    {
        let index = self.records.len() as u32;
        self.records.push(data);
        self.byte_lengths.push(None);
        self.byte_offsets.push(None);
        proof {
            assert forall|dv: DataView| old(self).contains(dv) implies #[trigger] self.same_view(old(self), dv) by {
                let i = dv.0 as int;
                assert(self.records@[i] == old(self).records@[i]);
                assert(self.byte_lengths@[i] == old(self).byte_lengths@[i]);
                assert(self.byte_offsets@[i] == old(self).byte_offsets@[i]);
            }
        }
        DataView(index)
    }
}

impl DataView {
    /// \[\[ByteLength]]: `None` for AUTO.
    pub fn byte_length(self, heap: &DataViewHeap) -> (r: Option<usize>)
        requires
            heap.wf(),
            heap.contains(self),
        ensures
            r == heap.view_byte_length(self),
    {
        let byte_length = heap.records[self.0 as usize].byte_length;
        if byte_length == ViewedArrayBufferByteLength::heap() {
            heap.byte_lengths[self.0 as usize]
        } else if byte_length == ViewedArrayBufferByteLength::auto() {
            None
        } else {
            Some(byte_length.0 as usize)
        }
    }

    /// \[\[ByteOffset]]
    pub fn byte_offset(self, heap: &DataViewHeap) -> (r: usize)
        requires
            heap.wf(),
            heap.contains(self),
        ensures
            r == heap.view_byte_offset(self),
    {
        let byte_offset = heap.records[self.0 as usize].byte_offset;
        if byte_offset == ViewedArrayBufferByteOffset::heap() {
            match heap.byte_offsets[self.0 as usize] {
                Some(offset) => offset,
                None => {
                    assert(false);
                    0
                },
            }
        } else {
            byte_offset.0 as usize
        }
    }

    /// \[\[ViewedArrayBuffer]]
    pub fn viewed_array_buffer(self, heap: &DataViewHeap) -> (r: ArrayBuffer)
        requires
            heap.contains(self),
        ensures
            r == heap.buffer_of(self),
    {
        heap.records[self.0 as usize].viewed_array_buffer
    }

    /// Initialise the DataView's internal slots: it views `ab` from
    /// `byte_offset` on, for `byte_length` bytes or (AUTO) to the end of the
    /// buffer. Values that do not fit in the record go to the side tables.
    pub fn initialise_data(self, heap: &mut DataViewHeap, ab: ArrayBuffer, byte_length: Option<usize>, byte_offset: usize)
        requires
            old(heap).wf(),
            old(heap).contains(self),
        ensures
            final(heap).wf(),
            final(heap).records@.len() == old(heap).records@.len(),
            final(heap).buffer_of(self) == ab,
            final(heap).view_byte_length(self) == byte_length,
            final(heap).view_byte_offset(self) == byte_offset,
            final(heap).record(self).object_index == old(heap).record(self).object_index,
            forall|dv: DataView| old(heap).contains(dv) && dv != self ==> #[trigger] final(heap).same_view(old(heap), dv),
    {
        let heap_byte_length = ViewedArrayBufferByteLength::from_option(byte_length);
        let heap_byte_offset = ViewedArrayBufferByteOffset::from_usize(byte_offset);
        let i = self.0 as usize;
        let mut d = heap.records[i];
        d.viewed_array_buffer = ab;
        d.byte_length = heap_byte_length;
        d.byte_offset = heap_byte_offset;
        heap.records.set(i, d);
        if heap_byte_length == ViewedArrayBufferByteLength::heap() {
            heap.byte_lengths.set(i, byte_length);
        } else {
            heap.byte_lengths.set(i, None);
        }
        if heap_byte_offset == ViewedArrayBufferByteOffset::heap() {
            heap.byte_offsets.set(i, Some(byte_offset));
        } else {
            heap.byte_offsets.set(i, None);
        }
        proof {
            assert forall|dv: DataView| old(heap).contains(dv) && dv != self implies #[trigger] heap.same_view(old(heap), dv) by {
                let j = dv.0 as int;
                assert(heap.records@[j] == old(heap).records@[j]);
                assert(heap.byte_lengths@[j] == old(heap).byte_lengths@[j]);
                assert(heap.byte_offsets@[j] == old(heap).byte_offsets@[j]);
            }
        }
    }

    pub fn get_index(self) -> (r: usize)
        ensures
            r == self.0,
    {
        self.0 as usize
    }
}

/// A DataView of either kind; this build has only those over unshared
/// ArrayBuffers.
#[derive(Debug, Clone, Copy, PartialEq, Eq, Structural)]
pub enum AnyDataView {
    DataView(DataView),
}

impl AnyDataView {
    pub open spec fn view(self) -> DataView {
        match self {
            AnyDataView::DataView(dv) => dv,
        }
    }

    /// \[\[ByteLength]]: `None` for AUTO.
    pub fn byte_length(self, heap: &DataViewHeap) -> (r: Option<usize>)
        requires
            heap.wf(),
            heap.contains(self.view()),
        ensures
            r == heap.view_byte_length(self.view()),
    {
        match self {
            AnyDataView::DataView(dv) => dv.byte_length(heap),
        }
    }

    /// \[\[ByteOffset]]
    pub fn byte_offset(self, heap: &DataViewHeap) -> (r: usize)
        requires
            heap.wf(),
            heap.contains(self.view()),
        ensures
            r == heap.view_byte_offset(self.view()),
    {
        match self {
            AnyDataView::DataView(dv) => dv.byte_offset(heap),
        }
    }

    /// \[\[ViewedArrayBuffer]]
    pub fn viewed_array_buffer(self, heap: &DataViewHeap) -> (r: AnyArrayBuffer)
        requires
            heap.contains(self.view()),
        ensures
            r == AnyArrayBuffer::ArrayBuffer(heap.buffer_of(self.view())),
    {
        match self {
            AnyDataView::DataView(dv) => AnyArrayBuffer::ArrayBuffer(dv.viewed_array_buffer(heap)),
        }
    }

    /// Initialise the DataView's internal slots.
    pub fn initialise_data(self, heap: &mut DataViewHeap, buffer: AnyArrayBuffer, byte_length: Option<usize>, byte_offset: usize)
        requires
            old(heap).wf(),
            old(heap).contains(self.view()),
        ensures
            final(heap).wf(),
            final(heap).records@.len() == old(heap).records@.len(),
            final(heap).buffer_of(self.view()) == buffer.buffer(),
            final(heap).view_byte_length(self.view()) == byte_length,
            final(heap).view_byte_offset(self.view()) == byte_offset,
            final(heap).record(self.view()).object_index == old(heap).record(self.view()).object_index,
            forall|dv: DataView| old(heap).contains(dv) && dv != self.view() ==> #[trigger] final(heap).same_view(old(heap), dv),
    {
        match (self, buffer) {
            (AnyDataView::DataView(dv), AnyArrayBuffer::ArrayBuffer(ab)) => dv.initialise_data(heap, ab, byte_length, byte_offset),
        }
    }
}

/// A byte length read from a buffer, or the marker that the buffer was
/// detached (`usize::MAX`).
#[derive(Debug, Clone, Copy, PartialEq, Eq, Structural)]
pub struct ByteLength(pub usize);

impl ByteLength {
    pub fn value(value: usize) -> (r: Self)
        ensures
            r.0 == value,
    {
        ByteLength(value)
    }

    pub fn detached() -> (r: Self)
        ensures
            r.0 == usize::MAX,
    {
        ByteLength(usize::MAX)
    }

    pub fn is_detached(&self) -> (r: bool)
        ensures
            r == (self.0 == usize::MAX),
    {
        self.0 == usize::MAX
    }
}

/// ### [25.3.1.1 DataView With Buffer Witness Records](https://tc39.es/ecma262/#sec-dataview-with-buffer-witness-records)
///
/// A DataView along with a cached byte length of the viewed buffer.
#[derive(Debug, Clone, Copy, PartialEq, Eq, Structural)]
pub struct DataViewWithBufferWitnessRecord {
    /// \[\[Object]]
    pub object: DataView,
    /// \[\[CachedBufferByteLength]]
    pub cached_buffer_byte_length: ByteLength,
}

/// The witness record of `dv` as MakeDataViewWithBufferWitnessRecord makes
/// it.
pub open spec fn spec_witness(views: &DataViewHeap, buffers: &ArrayBufferHeap, dv: DataView) -> DataViewWithBufferWitnessRecord {
    let data = buffers.get(views.buffer_of(dv));
    DataViewWithBufferWitnessRecord {
        object: dv,
        cached_buffer_byte_length: if data.spec_is_detached() {
            ByteLength(usize::MAX)
        } else {
            ByteLength(data.spec_byte_length() as usize)
        },
    }
}

/// IsViewOutOfBounds of a witness record.
pub open spec fn spec_is_view_out_of_bounds(views: &DataViewHeap, rec: DataViewWithBufferWitnessRecord) -> bool {
    let buffer_byte_length = rec.cached_buffer_byte_length.0;
    let start = views.view_byte_offset(rec.object);
    let end: int = match views.view_byte_length(rec.object) {
        Some(l) => start + l,
        None => buffer_byte_length as int,
    };
    buffer_byte_length == usize::MAX || start > buffer_byte_length || end > buffer_byte_length
}

/// GetViewByteLength of a witness record.
pub open spec fn spec_view_byte_length(views: &DataViewHeap, rec: DataViewWithBufferWitnessRecord) -> int {
    match views.view_byte_length(rec.object) {
        Some(l) => l as int,
        None => rec.cached_buffer_byte_length.0 - views.view_byte_offset(rec.object),
    }
}

/// The witness record agrees with the heap: it caches the byte length of
/// the viewed buffer, or the detached marker exactly where the buffer is
/// detached.
pub open spec fn witness_matches(views: &DataViewHeap, buffers: &ArrayBufferHeap, rec: DataViewWithBufferWitnessRecord) -> bool {
    let data = buffers.get(views.buffer_of(rec.object));
    &&& data.spec_is_detached() <==> rec.cached_buffer_byte_length.0 == usize::MAX
    &&& !data.spec_is_detached() ==> rec.cached_buffer_byte_length.0 == data.spec_byte_length()
}

/// ### [25.3.1.2 MakeDataViewWithBufferWitnessRecord ( obj, order )](https://tc39.es/ecma262/#sec-makedataviewwithbufferwitnessrecord)
pub fn make_data_view_with_buffer_witness_record(
    views: &DataViewHeap,
    buffers: &ArrayBufferHeap,
    obj: DataView,
    order: MemoryOrder,
) -> (r: DataViewWithBufferWitnessRecord)
    requires
        views.contains(obj),
        buffers.contains(views.buffer_of(obj)),
    ensures
        r == spec_witness(views, buffers, obj),
{
    // 1. Let buffer be obj.[[ViewedArrayBuffer]].
    let buffer = obj.viewed_array_buffer(views);
    // 2. If IsDetachedBuffer(buffer) is true, then
    let byte_length = if buffer.is_detached(buffers) {
        // a. Let byteLength be detached.
        ByteLength::detached()
    } else {
        // 3. Else,
        // a. Let byteLength be ArrayBufferByteLength(buffer, order).
        ByteLength::value(array_buffer_byte_length(buffers, buffer, order))
    };
    // 4. Return the DataView With Buffer Witness Record { [[Object]]: obj, [[CachedBufferByteLength]]: byteLength }.
    DataViewWithBufferWitnessRecord { object: obj, cached_buffer_byte_length: byte_length }
}

/// ### [25.3.1.3 GetViewByteLength ( viewRecord )](https://tc39.es/ecma262/#sec-getviewbytelength)
pub fn get_view_byte_length(views: &DataViewHeap, view_record: &DataViewWithBufferWitnessRecord) -> (r: usize)
    requires
        views.wf(),
        views.contains(view_record.object),
        !spec_is_view_out_of_bounds(views, *view_record),
    ensures
        r == spec_view_byte_length(views, *view_record),
{
    // 1. Assert: IsViewOutOfBounds(viewRecord) is false.
    // 2. Let view be viewRecord.[[Object]].
    let view = view_record.object;
    // 3. If view.[[ByteLength]] is not auto, return view.[[ByteLength]].
    if let Some(byte_length) = view.byte_length(views) {
        return byte_length;
    }
    // 5. Let byteOffset be view.[[ByteOffset]].
    let byte_offset = view.byte_offset(views);
    // 6. Let byteLength be viewRecord.[[CachedBufferByteLength]].
    // 7. Assert: byteLength is not detached.
    let byte_length = view_record.cached_buffer_byte_length.0;
    // 8. Return byteLength - byteOffset.
    byte_length - byte_offset
}

/// ### [25.3.1.4 IsViewOutOfBounds ( viewRecord )](https://tc39.es/ecma262/#sec-isviewoutofbounds)
pub fn is_view_out_of_bounds(
    views: &DataViewHeap,
    buffers: &ArrayBufferHeap,
    view_record: &DataViewWithBufferWitnessRecord,
) -> (r: bool)
    requires
        views.wf(),
        views.contains(view_record.object),
        buffers.contains(views.buffer_of(view_record.object)),
        witness_matches(views, buffers, *view_record),
    ensures
        r == spec_is_view_out_of_bounds(views, *view_record),
{
    // 1. Let view be viewRecord.[[Object]].
    let view = view_record.object;
    // 2. Let bufferByteLength be viewRecord.[[CachedBufferByteLength]].
    let buffer_byte_length = view_record.cached_buffer_byte_length;
    // 3. Assert: IsDetachedBuffer(view.[[ViewedArrayBuffer]]) is true if and only if
    //    bufferByteLength is detached.
    // 4. If bufferByteLength is detached, return true.
    if buffer_byte_length.is_detached() {
        return true;
    }
    let buffer_byte_length = buffer_byte_length.0;
    // 5. Let byteOffsetStart be view.[[ByteOffset]].
    let byte_offset_start = view.byte_offset(views);
    // 8. If byteOffsetStart > bufferByteLength or byteOffsetEnd > bufferByteLength, return true.
    if byte_offset_start > buffer_byte_length {
        return true;
    }
    // 6. If view.[[ByteLength]] is auto, then
    //    a. Let byteOffsetEnd be bufferByteLength.
    // 7. Else,
    //    a. Let byteOffsetEnd be byteOffsetStart + view.[[ByteLength]].
    if let Some(byte_length) = view.byte_length(views) {
        if byte_length > buffer_byte_length - byte_offset_start {
            return true;
        }
    }
    // 9. NOTE: 0-length DataViews are not considered out-of-bounds.
    // 10. Return false.
    false
}

/// The bytes from which GetViewValue reads, or SetViewValue writes, a
/// value of the type at `get_index`: they start at `get_index` plus the
/// view's byte offset.
pub open spec fn view_bytes(views: &DataViewHeap, buffers: &ArrayBufferHeap, dv: DataView, get_index: int, t: ElementType) -> Seq<u8> {
    let start = get_index + views.view_byte_offset(dv);
    buffers.get(views.buffer_of(dv)).bytes().subrange(start, start + t.size())
}

/// Where GetViewValue and SetViewValue find the DataView's bytes usable:
/// the error they throw (a TypeError where the view is out of bounds, a
/// RangeError where the element does not fit in it), or none.
pub open spec fn spec_view_access_error(views: &DataViewHeap, buffers: &ArrayBufferHeap, dv: DataView, get_index: u64, t: ElementType) -> Option<JsError> {
    let rec = spec_witness(views, buffers, dv);
    if spec_is_view_out_of_bounds(views, rec) {
        Some(JsError::Exception(ExceptionType::TypeError))
    } else if get_index + t.size() > spec_view_byte_length(views, rec) {
        Some(JsError::Exception(ExceptionType::RangeError))
    } else {
        None
    }
}

/// What GetViewValue returns, given the outcome of ToIndex(requestIndex).
pub open spec fn spec_get_view_value(
    views: &DataViewHeap,
    buffers: &ArrayBufferHeap,
    view: Value,
    get_index: Result<u64, JsError>,
    is_little_endian: bool,
    t: ElementType,
) -> Result<ViewValue, JsError> {
    match view {
        Value::DataView(i) => match get_index {
            Err(e) => Err(e),
            Ok(gi) => match spec_view_access_error(views, buffers, DataView(i), gi, t) {
                Some(e) => Err(e),
                None => Ok(decoded_value(t, view_bytes(views, buffers, DataView(i), gi as int, t), is_little_endian)),
            },
        },
        _ => Err(JsError::Exception(ExceptionType::TypeError)),
    }
}

/// What SetViewValue returns, given the outcomes of ToIndex(requestIndex)
/// and of ToNumber or ToBigInt of the value.
pub open spec fn spec_set_view_value(
    views: &DataViewHeap,
    buffers: &ArrayBufferHeap,
    view: Value,
    get_index: Result<u64, JsError>,
    t: ElementType,
    number_value: Result<ViewValue, JsError>,
) -> Result<Value, JsError> {
    match view {
        Value::DataView(i) => match get_index {
            Err(e) => Err(e),
            Ok(gi) => match number_value {
                Err(e) => Err(e),
                Ok(_) => match spec_view_access_error(views, buffers, DataView(i), gi, t) {
                    Some(e) => Err(e),
                    None => Ok(Value::Undefined),
                },
            },
        },
        _ => Err(JsError::Exception(ExceptionType::TypeError)),
    }
}

/// `after` is `before` with the bytes that NumericToRawBytes gives for `v`
/// stored at `get_index` of the DataView `dv`, and nothing else changed.
pub open spec fn view_written(
    views: &DataViewHeap,
    before: &ArrayBufferHeap,
    after: &ArrayBufferHeap,
    dv: DataView,
    get_index: int,
    is_little_endian: bool,
    t: ElementType,
    v: ViewValue,
) -> bool {
    let ab = views.buffer_of(dv);
    &&& after.same_except(before, ab)
    &&& !after.get(ab).spec_is_detached()
    &&& after.get(ab).buffer.capacity == before.get(ab).buffer.capacity
    &&& after.get(ab).object_index == before.get(ab).object_index
    &&& after.get(ab).detach_key == before.get(ab).detach_key
    &&& after.get(ab).bytes() == write_bytes(
        before.get(ab).bytes(),
        get_index + views.view_byte_offset(dv),
        encoded_bytes(t, v, is_little_endian),
    )
}

/// A value that the type's conversion operation and NumericToRawBytes
/// accept.
pub open spec fn storable(t: ElementType, v: ViewValue) -> bool {
    &&& t.holds_kind(v)
    &&& v matches ViewValue::Int(i) ==> i64::MIN <= i <= u64::MAX
}

/// The views of `views` that `view` may name are in the heap, every
/// DataView views a buffer of `buffers`, and no buffer holds `usize::MAX`
/// bytes (the length that marks a detached buffer in a witness record,
/// beyond what an allocation can hold).
pub open spec fn valid_view_heaps(views: &DataViewHeap, buffers: &ArrayBufferHeap, view: Value) -> bool {
    &&& views.wf()
    &&& views.views_into(buffers)
    &&& forall|i: int| 0 <= i < buffers.buffers@.len() ==> #[trigger] buffers.buffers@[i].spec_byte_length() < usize::MAX
    &&& view matches Value::DataView(i) ==> views.contains(DataView(i))
}

/// The DataView's byte access from `get_index` on, given that the witness
/// record shows it in bounds and the element fits: the bytes are within the
/// buffer.
proof fn lemma_view_access_in_buffer(views: &DataViewHeap, buffers: &ArrayBufferHeap, dv: DataView, gi: u64, t: ElementType)
    requires
        views.wf(),
        views.contains(dv),
        buffers.contains(views.buffer_of(dv)),
        spec_view_access_error(views, buffers, dv, gi, t) is None,
    ensures
        !buffers.get(views.buffer_of(dv)).spec_is_detached(),
        gi + views.view_byte_offset(dv) + t.size() <= buffers.get(views.buffer_of(dv)).spec_byte_length(),
{
}

/// ### [25.3.1.5 GetViewValue ( view, requestIndex, isLittleEndian, type )](https://tc39.es/ecma262/#sec-getviewvalue)
///
/// `get_index` is the outcome of ToIndex(requestIndex), and
/// `is_little_endian` that of ToBoolean(isLittleEndian).
pub fn get_view_value(
    views: &DataViewHeap,
    buffers: &ArrayBufferHeap,
    view: Value,
    get_index: Result<u64, JsError>,
    is_little_endian: bool,
    t: ElementType,
) -> (r: Result<ViewValue, JsError>)
    requires
        valid_view_heaps(views, buffers, view),
    ensures
        r == spec_get_view_value(views, buffers, view, get_index, is_little_endian, t),
{
    // 1. Perform ? RequireInternalSlot(view, [[DataView]]).
    // 2. Assert: view has a [[ViewedArrayBuffer]] internal slot.
    let view = match view {
        Value::DataView(i) => DataView(i),
        _ => return Err(JsError::Exception(ExceptionType::TypeError)),
    };
    // 3. Let getIndex be ? ToIndex(requestIndex).
    let get_index = get_index?;
    // 5. Let viewOffset be view.[[ByteOffset]].
    let view_offset = view.byte_offset(views);
    // 6. Let viewRecord be MakeDataViewWithBufferWitnessRecord(view, unordered).
    let view_record = make_data_view_with_buffer_witness_record(views, buffers, view, MemoryOrder::Unordered);
    // 8. If IsViewOutOfBounds(viewRecord) is true, throw a TypeError exception.
    if is_view_out_of_bounds(views, buffers, &view_record) {
        return Err(JsError::Exception(ExceptionType::TypeError));
    }
    // 9. Let viewSize be GetViewByteLength(viewRecord).
    let view_size = get_view_byte_length(views, &view_record);
    // 10. Let elementSize be the Element Size value specified in Table 71 for Element Type type.
    let element_size = t.element_size();
    // 11. If getIndex + elementSize > viewSize, throw a RangeError exception.
    if get_index > view_size as u64 || ((view_size as u64) - get_index) < element_size as u64 {
        return Err(JsError::Exception(ExceptionType::RangeError));
    }
    proof {
        lemma_view_access_in_buffer(views, buffers, view, get_index, t);
    }
    // 12. Let bufferIndex be getIndex + viewOffset.
    let buffer_index = get_index as usize + view_offset;
    // 13. Return GetValueFromBuffer(view.[[ViewedArrayBuffer]], bufferIndex, type, false, unordered, isLittleEndian).
    Ok(get_value_from_buffer(
        buffers,
        view.viewed_array_buffer(views),
        buffer_index,
        t,
        false,
        MemoryOrder::Unordered,
        is_little_endian,
    ))
}

/// ### [25.3.1.6 SetViewValue ( view, requestIndex, isLittleEndian, type, value )](https://tc39.es/ecma262/#sec-setviewvalue)
///
/// `get_index` is the outcome of ToIndex(requestIndex), `number_value` that
/// of ToBigInt(value) for the BigInt types and of ToNumber(value) for the
/// others, and `is_little_endian` that of ToBoolean(isLittleEndian).
/// Where it returns normally, the value's bytes are stored; where it
/// throws, no buffer changes.
pub fn set_view_value(
    views: &DataViewHeap,
    buffers: &mut ArrayBufferHeap,
    view: Value,
    get_index: Result<u64, JsError>,
    is_little_endian: bool,
    t: ElementType,
    number_value: Result<ViewValue, JsError>,
) -> (r: Result<Value, JsError>)
    requires
        valid_view_heaps(views, old(buffers), view),
        number_value matches Ok(v) ==> storable(t, v),
    ensures
        r == spec_set_view_value(views, old(buffers), view, get_index, t, number_value),
        r is Err ==> final(buffers).buffers@ == old(buffers).buffers@,
        r is Ok ==> view_written(
            views,
            old(buffers),
            final(buffers),
            DataView(view->DataView_0),
            get_index->Ok_0 as int,
            is_little_endian,
            t,
            number_value->Ok_0,
        ),
{
    // 1. Perform ? RequireInternalSlot(view, [[DataView]]).
    // 2. Assert: view has a [[ViewedArrayBuffer]] internal slot.
    let view = match view {
        Value::DataView(i) => DataView(i),
        _ => return Err(JsError::Exception(ExceptionType::TypeError)),
    };
    // 3. Let getIndex be ? ToIndex(requestIndex).
    let get_index = get_index?;
    // 4. If IsBigIntElementType(type) is true, let numberValue be ? ToBigInt(value).
    // 5. Otherwise, let numberValue be ? ToNumber(value).
    let number_value = number_value?;
    // 7. Let viewOffset be view.[[ByteOffset]].
    let view_offset = view.byte_offset(views);
    // 8. Let viewRecord be MakeDataViewWithBufferWitnessRecord(view, unordered).
    let view_record = make_data_view_with_buffer_witness_record(views, buffers, view, MemoryOrder::Unordered);
    // 10. If IsViewOutOfBounds(viewRecord) is true, throw a TypeError exception.
    if is_view_out_of_bounds(views, buffers, &view_record) {
        return Err(JsError::Exception(ExceptionType::TypeError));
    }
    // 11. Let viewSize be GetViewByteLength(viewRecord).
    let view_size = get_view_byte_length(views, &view_record);
    // 12. Let elementSize be the Element Size value specified in Table 71 for Element Type type.
    let element_size = t.element_size();
    // 13. If getIndex + elementSize > viewSize, throw a RangeError exception.
    if get_index > view_size as u64 || ((view_size as u64) - get_index) < element_size as u64 {
        return Err(JsError::Exception(ExceptionType::RangeError));
    }
    proof {
        lemma_view_access_in_buffer(views, buffers, view, get_index, t);
    }
    // 14. Let bufferIndex be getIndex + viewOffset.
    let buffer_index = get_index as usize + view_offset;
    // 15. Perform SetValueInBuffer(view.[[ViewedArrayBuffer]], bufferIndex, type, numberValue, false, unordered, isLittleEndian).
    set_value_in_buffer(
        buffers,
        view.viewed_array_buffer(views),
        buffer_index,
        t,
        number_value,
        false,
        MemoryOrder::Unordered,
        is_little_endian,
    );
    // 16. Return undefined.
    Ok(Value::Undefined)
}

/// Reading back what was written: after SetViewValue stored `v` at an index
/// of a DataView, GetViewValue at that index, with the same type and byte
/// order, gives the value that the type's conversion operation makes of
/// `v`, and `v` itself where the type represents it exactly.
pub proof fn lemma_get_after_set_view_value(
    views: &DataViewHeap,
    before: &ArrayBufferHeap,
    after: &ArrayBufferHeap,
    view: Value,
    get_index: u64,
    is_little_endian: bool,
    t: ElementType,
    v: ViewValue,
)
    requires
        valid_view_heaps(views, before, view),
        storable(t, v),
        spec_set_view_value(views, before, view, Ok(get_index), t, Ok(v)) is Ok,
        view_written(views, before, after, DataView(view->DataView_0), get_index as int, is_little_endian, t, v),
    ensures
        spec_get_view_value(views, after, view, Ok(get_index), is_little_endian, t) == Ok::<ViewValue, JsError>(value_of(t, bits_of(t, v))),
        t.in_range(v) ==> spec_get_view_value(views, after, view, Ok(get_index), is_little_endian, t) == Ok::<ViewValue, JsError>(v),
{
    let dv = DataView(view->DataView_0);
    lemma_view_access_in_buffer(views, before, dv, get_index, t);
    lemma_write_keeps_witness(views, before, after, dv, get_index as int, is_little_endian, t, v);
    let start = get_index + views.view_byte_offset(dv);
    let w = encoded_bytes(t, v, is_little_endian);
    crate::numeric_bytes::lemma_le_bytes_len(bits_of(t, v), t.size());
    assert(view_bytes(views, after, dv, get_index as int, t) =~= w);
    lemma_raw_bytes_roundtrip(t, v, is_little_endian);
}

/// Writing through a DataView leaves other reads alone: after SetViewValue
/// stored a value at an index of a DataView, GetViewValue through any
/// DataView of the heap at bytes that do not overlap the written ones gives
/// what it gave before.
pub proof fn lemma_get_elsewhere_after_set_view_value(
    views: &DataViewHeap,
    before: &ArrayBufferHeap,
    after: &ArrayBufferHeap,
    view: Value,
    get_index: u64,
    is_little_endian: bool,
    t: ElementType,
    v: ViewValue,
    other_view: Value,
    other_index: u64,
    other_little_endian: bool,
    other_type: ElementType,
)
    requires
        valid_view_heaps(views, before, view),
        valid_view_heaps(views, before, other_view),
        storable(t, v),
        spec_set_view_value(views, before, view, Ok(get_index), t, Ok(v)) is Ok,
        view_written(views, before, after, DataView(view->DataView_0), get_index as int, is_little_endian, t, v),
        other_view matches Value::DataView(j) ==> {
            let dv = DataView(view->DataView_0);
            let odv = DataView(j);
            let start = get_index + views.view_byte_offset(dv);
            let ostart = other_index + views.view_byte_offset(odv);
            views.buffer_of(odv) != views.buffer_of(dv)
                || ostart + other_type.size() <= start
                || start + t.size() <= ostart
        },
    ensures
        spec_get_view_value(views, after, other_view, Ok(other_index), other_little_endian, other_type)
            == spec_get_view_value(views, before, other_view, Ok(other_index), other_little_endian, other_type),
{
    let dv = DataView(view->DataView_0);
    lemma_view_access_in_buffer(views, before, dv, get_index, t);
    lemma_write_keeps_witness(views, before, after, dv, get_index as int, is_little_endian, t, v);
    if let Value::DataView(j) = other_view {
        let odv = DataView(j);
        let ab = views.buffer_of(dv);
        let oab = views.buffer_of(odv);
        if oab != ab {
            assert(after.get(oab) == before.get(oab));
        } else {
            assert(spec_witness(views, after, odv) == spec_witness(views, before, odv));
            if spec_view_access_error(views, before, odv, other_index, other_type) is None {
                lemma_view_access_in_buffer(views, before, odv, other_index, other_type);
                let a = after.get(ab).bytes();
                let b = before.get(ab).bytes();
                let start = get_index + views.view_byte_offset(dv);
                let w = encoded_bytes(t, v, is_little_endian);
                crate::numeric_bytes::lemma_le_bytes_len(bits_of(t, v), t.size());
                assert(w.len() == t.size());
                assert forall|k: int| 0 <= k < b.len() && (k < start || k >= start + t.size()) implies a[k] == b[k] by {
                    if k < start {
                        assert(a[k] == b.subrange(0, start as int)[k]);
                    } else {
                        assert(a[k] == b.subrange(start + w.len(), b.len() as int)[k - start - w.len()]);
                    }
                }
                assert(view_bytes(views, after, odv, other_index as int, other_type)
                    =~= view_bytes(views, before, odv, other_index as int, other_type));
            }
        }
    }
}

/// A write through a DataView keeps the viewed buffer attached and of the
/// same length, so every witness record stays as it was.
proof fn lemma_write_keeps_witness(
    views: &DataViewHeap,
    before: &ArrayBufferHeap,
    after: &ArrayBufferHeap,
    dv: DataView,
    get_index: int,
    is_little_endian: bool,
    t: ElementType,
    v: ViewValue,
)
    requires
        views.wf(),
        views.views_into(before),
        views.contains(dv),
        !before.get(views.buffer_of(dv)).spec_is_detached(),
        0 <= get_index,
        get_index + views.view_byte_offset(dv) + t.size() <= before.get(views.buffer_of(dv)).spec_byte_length(),
        view_written(views, before, after, dv, get_index, is_little_endian, t, v),
    ensures
        after.get(views.buffer_of(dv)).spec_byte_length() == before.get(views.buffer_of(dv)).spec_byte_length(),
        forall|odv: DataView| views.contains(odv) ==> #[trigger] spec_witness(views, after, odv) == spec_witness(views, before, odv),
{
    crate::numeric_bytes::lemma_le_bytes_len(bits_of(t, v), t.size());
    let ab = views.buffer_of(dv);
    assert(after.get(ab).bytes().len() == before.get(ab).bytes().len());
    assert forall|odv: DataView| views.contains(odv) implies #[trigger] spec_witness(views, after, odv) == spec_witness(views, before, odv) by {
        let oab = views.buffer_of(odv);
        assert(before.contains(oab));
        if oab != ab {
            assert(after.buffers@[oab.0 as int] == before.buffers@[oab.0 as int]);
        }
    }
}


/// A DataView in bounds of its buffer reads and writes exactly the elements
/// that lie within it: with `len` the view's byte length (its
/// \[\[ByteLength]], or for an AUTO length the buffer's length after the
/// offset), an element at `gi` of `t` can be read and written exactly when
/// its bytes `gi .. gi + size` end at or before `len` (an element ending
/// exactly at the end of the view included); a read gives the value of the
/// buffer's bytes at the view's offset plus `gi`, and any other index is a
/// RangeError.
pub proof fn lemma_view_access_within_view(
    views: &DataViewHeap,
    buffers: &ArrayBufferHeap,
    dv: DataView,
    gi: u64,
    is_little_endian: bool,
    t: ElementType,
    v: ViewValue,
)
    requires
        views.wf(),
        views.contains(dv),
        buffers.contains(views.buffer_of(dv)),
        !buffers.get(views.buffer_of(dv)).spec_is_detached(),
        buffers.get(views.buffer_of(dv)).spec_byte_length() < usize::MAX,
        views.view_byte_offset(dv) <= buffers.get(views.buffer_of(dv)).spec_byte_length(),
        views.view_byte_length(dv) matches Some(l)
            ==> views.view_byte_offset(dv) + l <= buffers.get(views.buffer_of(dv)).spec_byte_length(),
    ensures
        ({
            let bytes = buffers.get(views.buffer_of(dv)).bytes();
            let offset = views.view_byte_offset(dv) as int;
            let len: int = match views.view_byte_length(dv) {
                Some(l) => l as int,
                None => bytes.len() - offset,
            };
            let read = spec_get_view_value(views, buffers, Value::DataView(dv.0), Ok(gi), is_little_endian, t);
            let write = spec_set_view_value(views, buffers, Value::DataView(dv.0), Ok(gi), t, Ok(v));
            &&& read is Ok <==> gi + t.size() <= len
            &&& write is Ok <==> gi + t.size() <= len
            &&& gi + t.size() <= len ==> read == Ok::<ViewValue, JsError>(decoded_value(
                t,
                bytes.subrange(offset + gi, offset + gi + t.size()),
                is_little_endian,
            ))
            &&& gi + t.size() > len ==> read == Err::<ViewValue, JsError>(JsError::Exception(ExceptionType::RangeError))
                && write == Err::<Value, JsError>(JsError::Exception(ExceptionType::RangeError))
        }),
{
}

} // verus!
