//! TypedArray element types and the conversions between Numbers and the
//! raw bytes that a buffer stores
//! ([25.1.3.13 RawBytesToNumeric](https://tc39.es/ecma262/#sec-rawbytestonumeric),
//! [25.1.3.16 NumericToRawBytes](https://tc39.es/ecma262/#sec-numerictorawbytes)).
//!
//! Float elements are carried by their IEEE 754 bit patterns.

use vstd::prelude::*;
use crate::array_buffer::MemoryOrder;

verus! {

/// The TypedArray element types (Table 71).
#[derive(Debug, Clone, Copy, PartialEq, Eq, Structural)]
pub enum ElementType {
    Int8,
    Uint8,
    Uint8Clamped,
    Int16,
    Uint16,
    Int32,
    Uint32,
    BigInt64,
    BigUint64,
    Float32,
    Float64,
}

/// A Number or BigInt read from or written to a buffer: an integral value,
/// or the bit pattern of a float.
#[derive(Debug, Clone, Copy, PartialEq, Eq, Structural)]
pub enum ViewValue {
    Int(i128),
    Float32(u32),
    Float64(u64),
}

impl ElementType {
    /// The Element Size of the type, in bytes.
    pub open spec fn size(self) -> nat {
        match self {
            ElementType::Int8 | ElementType::Uint8 | ElementType::Uint8Clamped => 1,
            ElementType::Int16 | ElementType::Uint16 => 2,
            ElementType::Int32 | ElementType::Uint32 | ElementType::Float32 => 4,
            ElementType::BigInt64 | ElementType::BigUint64 | ElementType::Float64 => 8,
        }
    }

    pub open spec fn is_signed(self) -> bool {
        self is Int8 || self is Int16 || self is Int32 || self is BigInt64
    }

    pub open spec fn is_float(self) -> bool {
        self is Float32 || self is Float64
    }

    /// Whether `v` is of the kind that the type stores.
    pub open spec fn holds_kind(self, v: ViewValue) -> bool {
        match v {
            ViewValue::Int(_) => !self.is_float(),
            ViewValue::Float32(_) => self is Float32,
            ViewValue::Float64(_) => self is Float64,
        }
    }

    /// Whether `v` is a value that the type represents exactly.
    pub open spec fn in_range(self, v: ViewValue) -> bool {
        match v {
            ViewValue::Int(i) => if self.is_signed() {
                -(pow256(self.size()) / 2) <= i < pow256(self.size()) / 2
            } else {
                0 <= i < pow256(self.size())
            },
            _ => self.holds_kind(v),
        }
    }

    /// The Element Size of the type, in bytes.
    pub fn element_size(self) -> (r: usize)
        ensures
            r == self.size(),
    {
        match self {
            ElementType::Int8 | ElementType::Uint8 | ElementType::Uint8Clamped => 1,
            ElementType::Int16 | ElementType::Uint16 => 2,
            ElementType::Int32 | ElementType::Uint32 | ElementType::Float32 => 4,
            ElementType::BigInt64 | ElementType::BigUint64 | ElementType::Float64 => 8,
        }
    }
}

/// #### [25.1.3.9 IsUnsignedElementType ( type )](https://tc39.es/ecma262/#sec-isunsignedelementtype)
pub fn is_unsigned_element_type(t: ElementType) -> (r: bool)
    ensures
        r == (t is Uint8 || t is Uint8Clamped || t is Uint16 || t is Uint32 || t is BigUint64),
{
    // 1. If type is one of UINT8, UINT8CLAMPED, UINT16, UINT32, or BIGUINT64, return true.
    // 2. Return false.
    matches!(t, ElementType::Uint8 | ElementType::Uint8Clamped | ElementType::Uint16 | ElementType::Uint32 | ElementType::BigUint64)
}

/// #### [25.1.3.10 IsUnclampedIntegerElementType ( type )](https://tc39.es/ecma262/#sec-isunclampedintegerelementtype)
pub fn is_unclamped_integer_element_type(t: ElementType) -> (r: bool)
    ensures
        r == (t is Int8 || t is Uint8 || t is Int16 || t is Uint16 || t is Int32 || t is Uint32),
{
    // 1. If type is one of INT8, UINT8, INT16, UINT16, INT32, or UINT32, return true.
    // 2. Return false.
    matches!(t, ElementType::Int8 | ElementType::Uint8 | ElementType::Int16 | ElementType::Uint16 | ElementType::Int32 | ElementType::Uint32)
}

/// #### [25.1.3.11 IsBigIntElementType ( type )](https://tc39.es/ecma262/#sec-isbigintelementtype)
pub fn is_big_int_element_type(t: ElementType) -> (r: bool)
    ensures
        r == (t is BigInt64 || t is BigUint64),
{
    // 1. If type is either BIGUINT64 or BIGINT64, return true.
    // 2. Return false.
    matches!(t, ElementType::BigInt64 | ElementType::BigUint64)
}

/// #### [25.1.3.12 IsNoTearConfiguration ( type, order )](https://tc39.es/ecma262/#sec-isnotearconfiguration)
pub fn is_no_tear_configuration(t: ElementType, order: MemoryOrder) -> (r: bool)
    ensures
        r == ((t is Int8 || t is Uint8 || t is Int16 || t is Uint16 || t is Int32 || t is Uint32)
            || ((t is BigInt64 || t is BigUint64) && !(order is Init || order is Unordered))),
{
    if is_unclamped_integer_element_type(t) {
        // 1. If IsUnclampedIntegerElementType(type) is true, return true.
        true
    } else if is_big_int_element_type(t) && !matches!(order, MemoryOrder::Init | MemoryOrder::Unordered) {
        // 2. If IsBigIntElementType(type) is true and order is neither INIT nor UNORDERED, return true.
        true
    } else {
        // 3. Return false.
        false
    }
}

/// 256 to the power `n`.
pub open spec fn pow256(n: nat) -> nat
    decreases n,
{
    if n == 0 { 1 } else { 256 * pow256((n - 1) as nat) }
}

/// The value of bytes read as an unsigned little-endian number.
pub open spec fn le_value(b: Seq<u8>) -> nat
    decreases b.len(),
{
    if b.len() == 0 { 0 } else { b[0] as nat + 256 * le_value(b.subrange(1, b.len() as int)) }
}

/// The `n` low bytes of `v`, least significant first.
pub open spec fn le_bytes(v: nat, n: nat) -> Seq<u8>
    decreases n,
{
    if n == 0 { Seq::empty() } else { seq![(v % 256) as u8] + le_bytes(v / 256, (n - 1) as nat) }
}

/// Bytes in little-endian order, reversed for big endian.
pub open spec fn raw_order(b: Seq<u8>, is_little_endian: bool) -> Seq<u8> {
    if is_little_endian { b } else { b.reverse() }
}

/// The bytes that NumericToRawBytes gives.
pub open spec fn encoded_bytes(t: ElementType, v: ViewValue, is_little_endian: bool) -> Seq<u8> {
    raw_order(le_bytes(bits_of(t, v), t.size()), is_little_endian)
}

/// The value that RawBytesToNumeric gives.
pub open spec fn decoded_value(t: ElementType, b: Seq<u8>, is_little_endian: bool) -> ViewValue {
    value_of(t, le_value(raw_order(b, is_little_endian)))
}

/// The bit pattern that the conversion operation of the type gives for a
/// value (ToInt8, ToUint8, ToUint8Clamp, ..., ToBigUint64 on integral
/// values; the bits themselves for floats).
pub open spec fn bits_of(t: ElementType, v: ViewValue) -> nat {
    match v {
        ViewValue::Int(i) => if t is Uint8Clamped {
            if i < 0 { 0 } else if i > 255 { 255 } else { i as nat }
        } else {
            ((i as int) % (pow256(t.size()) as int)) as nat
        },
        ViewValue::Float32(b) => b as nat,
        ViewValue::Float64(b) => b as nat,
    }
}

/// The value that a bit pattern of the type stands for.
pub open spec fn value_of(t: ElementType, bits: nat) -> ViewValue {
    if t is Float32 {
        ViewValue::Float32(bits as u32)
    } else if t is Float64 {
        ViewValue::Float64(bits as u64)
    } else if t.is_signed() && bits >= pow256(t.size()) / 2 {
        ViewValue::Int((bits - pow256(t.size())) as i128)
    } else {
        ViewValue::Int(bits as i128)
    }
}

pub proof fn lemma_pow256_values()
    ensures
        pow256(0) == 1,
        pow256(1) == 256,
        pow256(2) == 65536,
        pow256(4) == 4294967296,
        pow256(8) == 18446744073709551616,
{
    reveal_with_fuel(pow256, 9);
}

/// A number below 256**n survives being written as n bytes and read back.
pub proof fn lemma_le_roundtrip(v: nat, n: nat)
    requires
        v < pow256(n),
    ensures
        le_bytes(v, n).len() == n,
        le_value(le_bytes(v, n)) == v,
    decreases n,
{
    if n == 0 {
    } else {
        let p = pow256((n - 1) as nat);
        assert(v / 256 < p) by (nonlinear_arith)
            requires v < 256 * p;
        lemma_le_roundtrip(v / 256, (n - 1) as nat);
        let b = le_bytes(v, n);
        assert(b.subrange(1, b.len() as int) =~= le_bytes(v / 256, (n - 1) as nat));
        assert(((v % 256) as u8) as nat == v % 256);
        assert(v == v % 256 + 256 * (v / 256)) by (nonlinear_arith);
    }
}

/// n bytes read as a number give less than 256**n.
pub proof fn lemma_le_value_bound(b: Seq<u8>)
    ensures
        le_value(b) < pow256(b.len()),
    decreases b.len(),
{
    if b.len() > 0 {
        let rest = b.subrange(1, b.len() as int);
        lemma_le_value_bound(rest);
        let p = pow256(rest.len());
        let x = le_value(rest);
        assert((b[0] as nat) + 256 * x < 256 * p) by (nonlinear_arith)
            requires x < p, (b[0] as nat) < 256;
    }
}

/// Reading from position `i` on: the byte at `i` and 256 times the rest.
pub proof fn lemma_le_value_step(b: Seq<u8>, i: int)
    requires
        0 <= i < b.len(),
    ensures
        le_value(b.subrange(i, b.len() as int)) == b[i] as nat + 256 * le_value(b.subrange(i + 1, b.len() as int)),
{
    let s = b.subrange(i, b.len() as int);
    assert(s.subrange(1, s.len() as int) =~= b.subrange(i + 1, b.len() as int));
}

/// #### [25.1.3.16 NumericToRawBytes ( type, value, isLittleEndian )](https://tc39.es/ecma262/#sec-numerictorawbytes)
///
/// The Element Size bytes of the value's bit pattern, least significant
/// first, reversed where `is_little_endian` is false.
pub fn numeric_to_raw_bytes(t: ElementType, value: ViewValue, is_little_endian: bool) -> (r: Vec<u8>)
    requires
        t.holds_kind(value),
        value matches ViewValue::Int(i) ==> i64::MIN <= i <= u64::MAX,
    ensures
        r@ == encoded_bytes(t, value, is_little_endian),
        r@.len() == t.size(),
{
    proof {
        lemma_pow256_values();
    }
    let n = t.element_size();
    let bits: u64 = match value {
        ViewValue::Int(i) => {
            if matches!(t, ElementType::Uint8Clamped) {
                if i < 0 { 0 } else if i > 255 { 255 } else { i as u64 }
            } else {
                // The conversion operation: the value modulo 2**(8 × n).
                let m: u128 = if n == 8 { 18446744073709551616u128 } else if n == 4 { 4294967296u128 } else if n == 2 { 65536u128 } else { 256u128 };
                assert(m == pow256(t.size()));
                let res: u128 = if i >= 0 {
                    (i as u128) % m
                } else {
                    let a: u128 = ((-i) as u128) % m;
                    if a == 0 { 0 } else { m - a }
                };
                proof {
                    let ii = i as int;
                    let mm = m as int;
                    if ii >= 0 {
                        assert(res as int == ii % mm);
                    } else {
                        let a = (-ii) % mm;
                        let q = (-ii) / mm;
                        vstd::arithmetic::div_mod::lemma_fundamental_div_mod(-ii, mm);
                        assert(-ii == q * mm + a) by (nonlinear_arith)
                            requires -ii == mm * q + a;
                        if a == 0 {
                            assert(ii == (-q) * mm + 0) by (nonlinear_arith)
                                requires -ii == q * mm + a, a == 0;
                            vstd::arithmetic::div_mod::lemma_fundamental_div_mod_converse(ii, mm, -q, 0);
                        } else {
                            assert(ii == (-q - 1) * mm + (mm - a)) by (nonlinear_arith)
                                requires -ii == q * mm + a;
                            vstd::arithmetic::div_mod::lemma_fundamental_div_mod_converse(ii, mm, -q - 1, mm - a);
                        }
                    }
                }
                res as u64
            }
        },
        ViewValue::Float32(b) => b as u64,
        ViewValue::Float64(b) => b,
    };
    assert(bits == bits_of(t, value));
    let mut out: Vec<u8> = Vec::new();
    let mut rest: u64 = bits;
    let mut k: usize = 0;
    while k < n
        invariant
            n == t.size(),
            k <= n,
            out@ + le_bytes(rest as nat, (n - k) as nat) == le_bytes(bits as nat, n as nat),
        decreases n - k,
    {
        let byte = (rest % 256) as u8;
        proof {
            let tail = le_bytes((rest / 256) as nat, (n - k - 1) as nat);
            assert(le_bytes(rest as nat, (n - k) as nat) == seq![byte] + tail);
            assert(out@.push(byte) + tail =~= out@ + (seq![byte] + tail));
        }
        out.push(byte);
        rest = rest / 256;
        k = k + 1;
    }
    assert(out@ =~= le_bytes(bits as nat, n as nat));
    proof {
        lemma_le_bytes_len(bits as nat, n as nat);
    }
    if is_little_endian {
        out
    } else {
        let mut reversed: Vec<u8> = Vec::new();
        let mut j: usize = n;
        while j > 0
            invariant
                j <= n,
                n == out@.len(),
                reversed@ =~= out@.subrange(j as int, n as int).reverse(),
            decreases j,
        {
            j = j - 1;
            reversed.push(out[j]);
            proof {
                assert(out@.subrange(j as int, n as int).reverse() =~= out@.subrange(j + 1, n as int).reverse().push(out@[j as int]));
            }
        }
        assert(out@.subrange(0, n as int) =~= out@);
        reversed
    }
}

/// #### [25.1.3.13 RawBytesToNumeric ( type, rawBytes, isLittleEndian )](https://tc39.es/ecma262/#sec-rawbytestonumeric)
///
/// The bytes, reversed where `is_little_endian` is false, read as a
/// little-endian bit pattern of the type: unsigned, two's complement for
/// the signed types, or the float's bits.
pub fn raw_bytes_to_numeric(t: ElementType, raw_bytes: &[u8], is_little_endian: bool) -> (r: ViewValue)
    requires
        raw_bytes@.len() == t.size(),
    ensures
        r == decoded_value(t, raw_bytes@, is_little_endian),
{
    proof {
        lemma_pow256_values();
    }
    let n = t.element_size();
    // 2. If isLittleEndian is false, reverse the order of the elements of rawBytes.
    let ghost b = raw_order(raw_bytes@, is_little_endian);
    let mut acc: u64 = 0;
    let mut k: usize = n;
    while k > 0
        invariant
            k <= n,
            n == t.size(),
            n <= 8,
            b.len() == n,
            raw_bytes@.len() == n,
            b == raw_order(raw_bytes@, is_little_endian),
            (acc as nat) == le_value(b.subrange(k as int, n as int)),
            (acc as nat) < pow256((n - k) as nat),
        decreases k,
    {
        k = k - 1;
        let byte = if is_little_endian { raw_bytes[k] } else { raw_bytes[n - 1 - k] };
        proof {
            assert(byte == b[k as int]);
            lemma_le_value_step(b.subrange(0, n as int), k as int);
            assert(b.subrange(0, n as int) =~= b);
            let p = pow256((n - k - 1) as nat);
            assert(pow256((n - k) as nat) == 256 * p);
            lemma_pow256_values();
            assert(pow256((n - k) as nat) <= pow256(8)) by {
                lemma_pow256_monotone((n - k) as nat, 8);
            }
            assert((byte as nat) + 256 * (acc as nat) < 256 * p) by (nonlinear_arith)
                requires (acc as nat) < p, (byte as nat) < 256;
        }
        acc = (byte as u64) + 256 * acc;
    }
    assert(b.subrange(0, n as int) =~= b);
    let bits = acc;
    // 5. If IsUnsignedElementType(type) is true, then the unsigned value;
    // 6. Else, the two's complement value of bit length elementSize × 8.
    match t {
        ElementType::Float32 => ViewValue::Float32(bits as u32),
        ElementType::Float64 => ViewValue::Float64(bits),
        ElementType::Int8 => if bits >= 128 { ViewValue::Int(bits as i128 - 256) } else { ViewValue::Int(bits as i128) },
        ElementType::Int16 => if bits >= 32768 { ViewValue::Int(bits as i128 - 65536) } else { ViewValue::Int(bits as i128) },
        ElementType::Int32 => if bits >= 2147483648 { ViewValue::Int(bits as i128 - 4294967296) } else { ViewValue::Int(bits as i128) },
        ElementType::BigInt64 => if bits >= 9223372036854775808 {
            ViewValue::Int(bits as i128 - 18446744073709551616i128)
        } else {
            ViewValue::Int(bits as i128)
        },
        _ => ViewValue::Int(bits as i128),
    }
}

/// 256**n grows with n.
pub proof fn lemma_pow256_monotone(a: nat, b: nat)
    requires
        a <= b,
    ensures
        pow256(a) <= pow256(b),
    decreases b,
{
    if a < b {
        lemma_pow256_monotone(a, (b - 1) as nat);
        assert(pow256((b - 1) as nat) >= 1) by {
            lemma_pow256_positive((b - 1) as nat);
        }
    }
}

/// Writing a number as n bytes gives n bytes.
pub proof fn lemma_le_bytes_len(v: nat, n: nat)
    ensures
        le_bytes(v, n).len() == n,
    decreases n,
{
    if n > 0 {
        lemma_le_bytes_len(v / 256, (n - 1) as nat);
    }
}

pub proof fn lemma_pow256_positive(n: nat)
    ensures
        pow256(n) >= 1,
    decreases n,
{
    if n > 0 {
        lemma_pow256_positive((n - 1) as nat);
    }
}

/// The bit pattern of a value of the type's kind fits in its Element Size.
pub proof fn lemma_bits_of_bound(t: ElementType, v: ViewValue)
    requires
        t.holds_kind(v),
    ensures
        bits_of(t, v) < pow256(t.size()),
{
    lemma_pow256_values();
    match v {
        ViewValue::Int(i) => {
            if !(t is Uint8Clamped) {
                let m = pow256(t.size()) as int;
                assert(m > 0);
                assert((i as int) % m < m) by (nonlinear_arith) requires m > 0;
            }
        },
        _ => {},
    }
}

/// Reading back what was written: RawBytesToNumeric of the bytes that
/// NumericToRawBytes gives, in the same byte order, is the value that the
/// type's conversion operation gives, and the value itself where the type
/// represents it exactly.
pub proof fn lemma_raw_bytes_roundtrip(t: ElementType, v: ViewValue, is_little_endian: bool)
    requires
        t.holds_kind(v),
    ensures
        decoded_value(t, encoded_bytes(t, v, is_little_endian), is_little_endian) == value_of(t, bits_of(t, v)),
        t.in_range(v) ==> decoded_value(t, encoded_bytes(t, v, is_little_endian), is_little_endian) == v,
{
    let bits = bits_of(t, v);
    lemma_bits_of_bound(t, v);
    lemma_le_roundtrip(bits, t.size());
    let b = le_bytes(bits, t.size());
    assert(raw_order(raw_order(b, is_little_endian), is_little_endian) =~= b);
    lemma_pow256_values();
    if t.in_range(v) {
        match v {
            ViewValue::Int(i) => {
                let m = pow256(t.size()) as int;
                if !(t is Uint8Clamped) {
                    if i >= 0 {
                        vstd::arithmetic::div_mod::lemma_fundamental_div_mod_converse(i as int, m, 0, i as int);
                    } else {
                        vstd::arithmetic::div_mod::lemma_fundamental_div_mod_converse(i as int, m, -1, i + m);
                    }
                }
            },
            _ => {},
        }
    }
}

} // verus!
