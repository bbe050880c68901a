use nova_vm::array_buffer::{
    allocate_array_buffer, array_buffer_byte_length, clone_array_buffer, create_byte_data_block,
    detach_array_buffer, get_array_buffer_max_byte_length_option, get_value_from_buffer,
    host_resize_array_buffer, is_detached_buffer, is_fixed_length_array_buffer,
    set_value_in_buffer, AnyArrayBuffer, ArrayBuffer, ArrayBufferHeap, DetachKey, MemoryOrder,
    ViewedArrayBufferByteLength, ViewedArrayBufferByteOffset,
};
use nova_vm::data_view::{
    get_view_byte_length, get_view_value, is_view_out_of_bounds,
    make_data_view_with_buffer_witness_record, set_view_value, AnyDataView, ByteLength, DataView,
    DataViewHeap, DataViewRecord,
};
use nova_vm::numeric_bytes::{
    is_big_int_element_type, is_no_tear_configuration, is_unclamped_integer_element_type,
    is_unsigned_element_type, numeric_to_raw_bytes, raw_bytes_to_numeric, ElementType, ViewValue,
};
use nova_vm::value::{ExceptionType, JsError, Value};

fn range_error<T>() -> Result<T, JsError> {
    Err(JsError::Exception(ExceptionType::RangeError))
}

fn type_error<T>() -> Result<T, JsError> {
    Err(JsError::Exception(ExceptionType::TypeError))
}

#[test]
fn numeric_to_raw_bytes_of_integers() {
    assert_eq!(numeric_to_raw_bytes(ElementType::Int16, ViewValue::Int(-2), true), vec![0xFE, 0xFF]);
    assert_eq!(numeric_to_raw_bytes(ElementType::Int16, ViewValue::Int(-2), false), vec![0xFF, 0xFE]);
    assert_eq!(
        numeric_to_raw_bytes(ElementType::Uint32, ViewValue::Int(0x01020304), true),
        vec![4, 3, 2, 1]
    );
    // The conversion is modulo 2**(8 * size).
    assert_eq!(numeric_to_raw_bytes(ElementType::Uint8, ViewValue::Int(300), true), vec![44]);
    assert_eq!(numeric_to_raw_bytes(ElementType::Int8, ViewValue::Int(-1), true), vec![0xFF]);
    // Uint8Clamped clamps.
    assert_eq!(numeric_to_raw_bytes(ElementType::Uint8Clamped, ViewValue::Int(300), true), vec![255]);
    assert_eq!(numeric_to_raw_bytes(ElementType::Uint8Clamped, ViewValue::Int(-5), true), vec![0]);
    assert_eq!(
        numeric_to_raw_bytes(ElementType::BigInt64, ViewValue::Int(-1), true),
        vec![0xFF; 8]
    );
}

#[test]
fn numeric_to_raw_bytes_of_floats() {
    let one = 1.0f32.to_bits();
    assert_eq!(
        numeric_to_raw_bytes(ElementType::Float32, ViewValue::Float32(one), true),
        one.to_le_bytes().to_vec()
    );
    let x = 2.5f64.to_bits();
    assert_eq!(
        numeric_to_raw_bytes(ElementType::Float64, ViewValue::Float64(x), false),
        x.to_be_bytes().to_vec()
    );
}

#[test]
fn raw_bytes_to_numeric_reads_types() {
    assert_eq!(raw_bytes_to_numeric(ElementType::Int16, &[0xFE, 0xFF], true), ViewValue::Int(-2));
    assert_eq!(raw_bytes_to_numeric(ElementType::Uint16, &[0xFE, 0xFF], true), ViewValue::Int(65534));
    assert_eq!(raw_bytes_to_numeric(ElementType::Uint16, &[0x01, 0x02], false), ViewValue::Int(0x0102));
    assert_eq!(raw_bytes_to_numeric(ElementType::Int8, &[200], true), ViewValue::Int(-56));
    assert_eq!(
        raw_bytes_to_numeric(ElementType::BigUint64, &[0xFF; 8], true),
        ViewValue::Int(18446744073709551615)
    );
    let bits = 3.0f32.to_bits();
    assert_eq!(
        raw_bytes_to_numeric(ElementType::Float32, &bits.to_le_bytes(), true),
        ViewValue::Float32(bits)
    );
}

#[test]
fn raw_bytes_roundtrip_on_samples() {
    let samples = [
        (ElementType::Int8, ViewValue::Int(-128)),
        (ElementType::Uint8, ViewValue::Int(255)),
        (ElementType::Int32, ViewValue::Int(-2147483648)),
        (ElementType::Uint32, ViewValue::Int(4294967295)),
        (ElementType::BigInt64, ViewValue::Int(-9223372036854775808)),
        (ElementType::Float64, ViewValue::Float64(0x7FF8000000000001)),
    ];
    for (t, v) in samples {
        for le in [true, false] {
            let bytes = numeric_to_raw_bytes(t, v, le);
            assert_eq!(bytes.len(), t.element_size());
            assert_eq!(raw_bytes_to_numeric(t, &bytes, le), v);
        }
    }
}

#[test]
fn element_type_classes() {
    assert_eq!(ElementType::Float64.element_size(), 8);
    assert_eq!(ElementType::Uint8Clamped.element_size(), 1);
    assert!(is_unsigned_element_type(ElementType::Uint8Clamped));
    assert!(!is_unsigned_element_type(ElementType::Int32));
    assert!(is_unclamped_integer_element_type(ElementType::Int32));
    assert!(!is_unclamped_integer_element_type(ElementType::Uint8Clamped));
    assert!(is_big_int_element_type(ElementType::BigUint64));
    assert!(is_no_tear_configuration(ElementType::Uint16, MemoryOrder::Unordered));
    assert!(!is_no_tear_configuration(ElementType::BigInt64, MemoryOrder::Unordered));
    assert!(is_no_tear_configuration(ElementType::BigInt64, MemoryOrder::SeqCst));
    assert!(!is_no_tear_configuration(ElementType::Float32, MemoryOrder::SeqCst));
}

#[test]
fn byte_length_and_offset_encodings() {
    assert_eq!(ViewedArrayBufferByteLength::from_option(None), ViewedArrayBufferByteLength::auto());
    assert_eq!(ViewedArrayBufferByteLength::from_option(Some(10)), ViewedArrayBufferByteLength(10));
    assert_eq!(
        ViewedArrayBufferByteLength::from_option(Some(u32::MAX as usize - 1)),
        ViewedArrayBufferByteLength::heap()
    );
    assert_eq!(ViewedArrayBufferByteLength::default().0, u32::MAX);
    assert_eq!(ViewedArrayBufferByteOffset::from_usize(7), ViewedArrayBufferByteOffset(7));
    assert_eq!(
        ViewedArrayBufferByteOffset::from_usize(u32::MAX as usize),
        ViewedArrayBufferByteOffset::heap()
    );
    assert_eq!(ViewedArrayBufferByteOffset::default().0, 0);
}

#[test]
fn create_byte_data_block_zeroes() {
    assert_eq!(create_byte_data_block(4), Ok(vec![0, 0, 0, 0]));
    assert_eq!(create_byte_data_block(9007199254740992), range_error());
}

#[test]
fn allocate_fixed_and_resizable() {
    let mut heap = ArrayBufferHeap::new();
    let a = allocate_array_buffer(&mut heap, 4, None).unwrap();
    assert_eq!(a, ArrayBuffer(0));
    assert_eq!(a.byte_length(&heap), 4);
    assert!(!a.is_resizable(&heap));
    assert!(is_fixed_length_array_buffer(&heap, a));
    assert_eq!(a.max_byte_length(&heap), 4);
    let b = allocate_array_buffer(&mut heap, 2, Some(16)).unwrap();
    assert!(b.is_resizable(&heap));
    assert!(!is_fixed_length_array_buffer(&heap, b));
    assert_eq!(b.max_byte_length(&heap), 16);
    assert_eq!(b.as_slice(&heap), &[0, 0][..]);
    assert_eq!(allocate_array_buffer(&mut heap, 5, Some(4)), range_error());
    assert_eq!(allocate_array_buffer(&mut heap, 0, Some(9007199254740992)), range_error());
    assert_eq!(heap.buffers.len(), 2);
}

#[test]
fn array_buffer_new_and_try_from() {
    let mut heap = ArrayBufferHeap::new();
    let a = ArrayBuffer::new(&mut heap, 3).unwrap();
    assert_eq!(array_buffer_byte_length(&heap, a, MemoryOrder::SeqCst), 3);
    assert_eq!(ArrayBuffer::try_from(Value::ArrayBuffer(0)), Ok(a));
    assert_eq!(ArrayBuffer::try_from(Value::Object(0)), Err(()));
    assert_eq!(a.get_index(), 0);
    let any = AnyArrayBuffer::ArrayBuffer(a);
    assert_eq!(any.byte_length(&heap), 3);
    assert!(!any.is_detached(&heap));
    assert!(!any.is_resizable(&heap));
}

#[test]
fn detach_with_and_without_key() {
    let mut heap = ArrayBufferHeap::new();
    let a = ArrayBuffer::new(&mut heap, 8).unwrap();
    a.set_detach_key(&mut heap, Some(DetachKey(7)));
    assert_eq!(a.get_detach_key(&heap), Some(DetachKey(7)));
    assert_eq!(detach_array_buffer(&mut heap, a, None), type_error());
    assert_eq!(detach_array_buffer(&mut heap, a, Some(DetachKey(8))), type_error());
    assert!(!is_detached_buffer(&heap, a));
    assert_eq!(detach_array_buffer(&mut heap, a, Some(DetachKey(7))), Ok(()));
    assert!(is_detached_buffer(&heap, a));
    assert_eq!(a.byte_length(&heap), 0);
    assert_eq!(a.max_byte_length(&heap), 0);
    let b = ArrayBuffer::new(&mut heap, 1).unwrap();
    assert_eq!(b.detach(&mut heap, None), Ok(()));
    assert!(b.is_detached(&heap));
}

#[test]
fn clone_copies_a_range() {
    let mut heap = ArrayBufferHeap::new();
    let a = ArrayBuffer::new(&mut heap, 5).unwrap();
    a.as_mut_slice(&mut heap).copy_from_slice(&[1, 2, 3, 4, 5]);
    assert_eq!(a.as_slice(&heap), &[1, 2, 3, 4, 5][..]);
    let c = clone_array_buffer(&mut heap, a, 1, 3).unwrap();
    assert_eq!(c.as_slice(&heap), &[2, 3, 4][..]);
    assert!(!c.is_resizable(&heap));
    let d = ArrayBuffer::new(&mut heap, 4).unwrap();
    d.copy_array_buffer_data(&mut heap, a, 2, 2);
    assert_eq!(d.as_slice(&heap), &[3, 4, 0, 0][..]);
}

#[test]
fn resize_keeps_prefix_and_zero_fills() {
    let mut heap = ArrayBufferHeap::new();
    let a = allocate_array_buffer(&mut heap, 3, Some(10)).unwrap();
    a.as_mut_slice(&mut heap).copy_from_slice(&[9, 8, 7]);
    assert!(host_resize_array_buffer(&mut heap, a, 5));
    assert_eq!(a.as_slice(&heap), &[9, 8, 7, 0, 0][..]);
    a.resize(&mut heap, 2);
    assert_eq!(a.as_slice(&heap), &[9, 8][..]);
    let fixed = ArrayBuffer::new(&mut heap, 3).unwrap();
    assert!(!host_resize_array_buffer(&mut heap, fixed, 5));
    assert_eq!(fixed.byte_length(&heap), 3);
}

#[test]
fn max_byte_length_option() {
    assert_eq!(get_array_buffer_max_byte_length_option(Value::Undefined, Value::Integer(5)), Ok(None));
    assert_eq!(get_array_buffer_max_byte_length_option(Value::Object(0), Value::Undefined), Ok(None));
    assert_eq!(get_array_buffer_max_byte_length_option(Value::Object(0), Value::Integer(5)), Ok(Some(5)));
    assert_eq!(get_array_buffer_max_byte_length_option(Value::Object(0), Value::Boolean(true)), Ok(Some(1)));
    assert_eq!(get_array_buffer_max_byte_length_option(Value::Object(0), Value::Integer(-1)), range_error());
    assert_eq!(get_array_buffer_max_byte_length_option(Value::Object(0), Value::Symbol(1)), type_error());
}

#[test]
fn buffer_get_after_set() {
    let mut heap = ArrayBufferHeap::new();
    let a = ArrayBuffer::new(&mut heap, 8).unwrap();
    set_value_in_buffer(&mut heap, a, 2, ElementType::Int32, ViewValue::Int(-7), false, MemoryOrder::Unordered, false);
    assert_eq!(
        get_value_from_buffer(&heap, a, 2, ElementType::Int32, false, MemoryOrder::Unordered, false),
        ViewValue::Int(-7)
    );
    assert_eq!(a.as_slice(&heap), &[0, 0, 0xFF, 0xFF, 0xFF, 0xF9, 0, 0][..]);
    assert_eq!(
        get_value_from_buffer(&heap, a, 4, ElementType::Uint16, false, MemoryOrder::Unordered, true),
        ViewValue::Int(0xF9FF)
    );
}

fn view_over(bytes: &[u8], offset: usize, length: Option<usize>) -> (DataViewHeap, ArrayBufferHeap, DataView) {
    let mut buffers = ArrayBufferHeap::new();
    let ab = ArrayBuffer::new(&mut buffers, bytes.len()).unwrap();
    ab.as_mut_slice(&mut buffers).copy_from_slice(bytes);
    let mut views = DataViewHeap::new();
    let dv = views.create(DataViewRecord::default());
    dv.initialise_data(&mut views, ab, length, offset);
    (views, buffers, dv)
}

#[test]
fn data_view_slots() {
    let (mut views, _buffers, dv) = view_over(&[0; 8], 2, Some(4));
    assert_eq!(dv.byte_length(&views), Some(4));
    assert_eq!(dv.byte_offset(&views), 2);
    assert_eq!(dv.viewed_array_buffer(&views), ArrayBuffer(0));
    assert_eq!(dv.get_index(), 0);
    let any = AnyDataView::DataView(dv);
    assert_eq!(any.byte_length(&views), Some(4));
    assert_eq!(any.viewed_array_buffer(&views), AnyArrayBuffer::ArrayBuffer(ArrayBuffer(0)));
    // A length that does not fit the record goes to the side table.
    dv.initialise_data(&mut views, ArrayBuffer(0), Some(u32::MAX as usize + 5), u32::MAX as usize + 1);
    assert_eq!(views.records[0].byte_length, ViewedArrayBufferByteLength::heap());
    assert_eq!(views.records[0].byte_offset, ViewedArrayBufferByteOffset::heap());
    assert_eq!(dv.byte_length(&views), Some(u32::MAX as usize + 5));
    assert_eq!(dv.byte_offset(&views), u32::MAX as usize + 1);
    dv.initialise_data(&mut views, ArrayBuffer(0), None, 0);
    assert_eq!(dv.byte_length(&views), None);
}

#[test]
fn witness_record_and_bounds() {
    let (views, mut buffers, dv) = view_over(&[0; 8], 2, None);
    let rec = make_data_view_with_buffer_witness_record(&views, &buffers, dv, MemoryOrder::SeqCst);
    assert_eq!(rec.cached_buffer_byte_length, ByteLength::value(8));
    assert!(!is_view_out_of_bounds(&views, &buffers, &rec));
    assert_eq!(get_view_byte_length(&views, &rec), 6);
    detach_array_buffer(&mut buffers, ArrayBuffer(0), None).unwrap();
    let rec = make_data_view_with_buffer_witness_record(&views, &buffers, dv, MemoryOrder::SeqCst);
    assert!(rec.cached_buffer_byte_length.is_detached());
    assert_eq!(rec.cached_buffer_byte_length, ByteLength::detached());
    assert!(is_view_out_of_bounds(&views, &buffers, &rec));
}

#[test]
fn data_view_get_after_set() {
    let (views, mut buffers, dv) = view_over(&[0; 8], 2, Some(4));
    let view = Value::DataView(dv.0);
    let r = set_view_value(&views, &mut buffers, view, Ok(1), true, ElementType::Uint16, Ok(ViewValue::Int(0x1234)));
    assert_eq!(r, Ok(Value::Undefined));
    assert_eq!(buffers.buffers[0].get_data_block()[..], [0, 0, 0, 0x34, 0x12, 0, 0, 0]);
    assert_eq!(
        get_view_value(&views, &buffers, view, Ok(1), true, ElementType::Uint16),
        Ok(ViewValue::Int(0x1234))
    );
    assert_eq!(
        get_view_value(&views, &buffers, view, Ok(1), false, ElementType::Uint16),
        Ok(ViewValue::Int(0x3412))
    );
    // Elsewhere the bytes are untouched.
    assert_eq!(get_view_value(&views, &buffers, view, Ok(0), true, ElementType::Uint8), Ok(ViewValue::Int(0)));
}

#[test]
fn data_view_access_errors() {
    let (views, mut buffers, dv) = view_over(&[0; 8], 2, Some(4));
    let view = Value::DataView(dv.0);
    // Not a DataView.
    assert_eq!(get_view_value(&views, &buffers, Value::Object(0), Ok(0), true, ElementType::Int8), type_error());
    // ToIndex threw.
    assert_eq!(get_view_value(&views, &buffers, view, range_error(), true, ElementType::Int8), range_error());
    // Past the end of the view.
    assert_eq!(get_view_value(&views, &buffers, view, Ok(1), true, ElementType::Int32), range_error());
    assert_eq!(get_view_value(&views, &buffers, view, Ok(5), true, ElementType::Int8), range_error());
    // ToNumber threw: nothing is written.
    assert_eq!(
        set_view_value(&views, &mut buffers, view, Ok(0), true, ElementType::Int8, type_error()),
        type_error()
    );
    assert_eq!(
        set_view_value(&views, &mut buffers, view, Ok(9), true, ElementType::Int8, Ok(ViewValue::Int(1))),
        range_error()
    );
    assert_eq!(buffers.buffers[0].get_data_block()[..], [0; 8]);
    // A detached buffer.
    detach_array_buffer(&mut buffers, ArrayBuffer(0), None).unwrap();
    assert_eq!(get_view_value(&views, &buffers, view, Ok(0), true, ElementType::Int8), type_error());
}

#[test]
fn detaching_keeps_resizability() {
    let mut heap = ArrayBufferHeap::new();
    let fixed = allocate_array_buffer(&mut heap, 4, None).unwrap();
    let growable = allocate_array_buffer(&mut heap, 2, Some(16)).unwrap();
    detach_array_buffer(&mut heap, fixed, None).unwrap();
    detach_array_buffer(&mut heap, growable, None).unwrap();
    assert!(is_fixed_length_array_buffer(&heap, fixed));
    assert!(!fixed.is_resizable(&heap));
    assert!(!is_fixed_length_array_buffer(&heap, growable));
    assert!(growable.is_resizable(&heap));
    assert_eq!(growable.max_byte_length(&heap), 0);
}

#[test]
fn byte_length_stays_within_max() {
    let mut heap = ArrayBufferHeap::new();
    let b = allocate_array_buffer(&mut heap, 2, Some(8)).unwrap();
    assert!(b.byte_length(&heap) <= b.max_byte_length(&heap));
    assert!(host_resize_array_buffer(&mut heap, b, 8));
    assert_eq!(b.byte_length(&heap), 8);
    assert_eq!(b.max_byte_length(&heap), 8);
    let f = allocate_array_buffer(&mut heap, 3, None).unwrap();
    assert_eq!(f.byte_length(&heap), f.max_byte_length(&heap));
    detach_array_buffer(&mut heap, b, None).unwrap();
    assert_eq!(b.byte_length(&heap), 0);
    assert_eq!(b.max_byte_length(&heap), 0);
}
