use vstd::prelude::*;

verus! {

/// An ECMAScript language value as the built-ins see it.
///
/// Heap values are handles (indexes into the heap arena of their kind);
/// numbers are held by their integral value, which is all that the
/// built-ins in this crate read of them. Strings are interned: each
/// distinct string content has exactly one handle, so two Strings have the
/// same contents exactly when their handles are equal (the empty String is
/// [`EMPTY_STRING`]).
#[derive(Debug, Clone, Copy, PartialEq, Eq, Structural)]
pub enum Value {
    Undefined,
    Null,
    Boolean(bool),
    Integer(i64),
    String(u32),
    Symbol(u32),
    Object(u32),
    Array(u32),
    Promise(u32),
    Function(u32),
    Error(u32),
    ArrayBuffer(u32),
    DataView(u32),
    Generator(u32),
    AsyncGenerator(u32),
    Date(u32),
}

impl Value {
    /// Whether the value is an Object (of any kind).
    pub open spec fn spec_is_object(self) -> bool {
        match self {
            Value::Object(_) | Value::Array(_) | Value::Promise(_) | Value::Function(_)
            | Value::Error(_) | Value::ArrayBuffer(_) | Value::DataView(_) | Value::Generator(_)
            | Value::AsyncGenerator(_) | Value::Date(_) => true,
            _ => false,
        }
    }

    /// Returns true if the value is an Object.
    pub fn is_object(&self) -> (r: bool)
        ensures
            r == self.spec_is_object(),
    {
        match self {
            Value::Object(_) | Value::Array(_) | Value::Promise(_) | Value::Function(_)
            | Value::Error(_) | Value::ArrayBuffer(_) | Value::DataView(_) | Value::Generator(_)
            | Value::AsyncGenerator(_) | Value::Date(_) => true,
            _ => false,
        }
    }

    /// Returns true if the value is `undefined`.
    pub fn is_undefined(&self) -> (r: bool)
        ensures
            r == (*self is Undefined),
    {
        matches!(self, Value::Undefined)
    }

    /// Returns true if the value is `null`.
    pub fn is_null(&self) -> (r: bool)
        ensures
            r == (*self is Null),
    {
        matches!(self, Value::Null)
    }

    /// Returns true if the value is a String.
    pub fn is_string(&self) -> (r: bool)
        ensures
            r == (*self is String),
    {
        matches!(self, Value::String(_))
    }

    /// Returns true if the value is callable.
    pub fn is_callable(&self) -> (r: bool)
        ensures
            r == (*self is Function),
    {
        matches!(self, Value::Function(_))
    }
}

/// ### SameValue ( x, y )
///
/// Integral numbers carry no signed zero or NaN, and a String's handle
/// stands for its contents (Strings are interned), so SameValue is plain
/// equality of the values: two Strings are the same value when their
/// contents are, and Symbols and Objects when they are the same one.
pub fn same_value(x: Value, y: Value) -> (r: bool)
    ensures
        r == (x == y),
{
    x == y
}

/// ### ToBoolean ( argument )
pub open spec fn spec_to_boolean(v: Value) -> bool {
    match v {
        Value::Undefined | Value::Null => false,
        Value::Boolean(b) => b,
        Value::Integer(i) => i != 0,
        // The empty String is the only falsy String.
        Value::String(s) => s != EMPTY_STRING,
        _ => true,
    }
}

/// ### ToBoolean ( argument )
pub fn to_boolean(v: Value) -> (r: bool)
    ensures
        r == spec_to_boolean(v),
{
    match v {
        Value::Undefined | Value::Null => false,
        Value::Boolean(b) => b,
        Value::Integer(i) => i != 0,
        Value::String(s) => s != EMPTY_STRING,
        _ => true,
    }
}

/// The kinds of exceptions that the built-ins throw.
#[derive(Debug, Clone, Copy, PartialEq, Eq, Structural)]
pub enum ExceptionType {
    Error,
    AggregateError,
    EvalError,
    RangeError,
    ReferenceError,
    SyntaxError,
    TypeError,
    UriError,
}

/// A thrown value: either a newly created exception of some kind, or a
/// value thrown by ECMAScript code.
#[derive(Debug, Clone, Copy, PartialEq, Eq, Structural)]
pub enum JsError {
    Exception(ExceptionType),
    Thrown(Value),
}

/// Property keys that the built-ins name.
#[derive(Debug, Clone, Copy, PartialEq, Eq, Structural)]
pub enum PropertyKey {
    /// An array index.
    Index(u32),
    Length,
    Message,
    Cause,
    Callee,
    Name,
    Then,
    Constructor,
    /// The well-known symbol @@iterator.
    SymbolIterator,
    /// Any other string key, by its string handle.
    String(u32),
    /// Any other symbol key, by its symbol handle.
    Symbol(u32),
}

/// ### [6.2.6 The Property Descriptor Specification Type](https://tc39.es/ecma262/#sec-property-descriptor-specification-type)
///
/// `get` and `set` hold `Some(None)` for a present field whose value is
/// undefined, and `Some(Some(f))` for a function `f`.
#[derive(Debug, Clone, Copy, PartialEq, Eq, Structural)]
pub struct PropertyDescriptor {
    pub value: Option<Value>,
    pub writable: Option<bool>,
    pub get: Option<Option<u32>>,
    pub set: Option<Option<u32>>,
    pub enumerable: Option<bool>,
    pub configurable: Option<bool>,
}

impl PropertyDescriptor {
    pub open spec fn spec_is_accessor_descriptor(self) -> bool {
        self.get is Some || self.set is Some
    }

    pub open spec fn spec_is_data_descriptor(self) -> bool {
        self.value is Some || self.writable is Some
    }

    pub open spec fn spec_is_generic_descriptor(self) -> bool {
        !self.spec_is_accessor_descriptor() && !self.spec_is_data_descriptor()
    }

    pub open spec fn spec_has_fields(self) -> bool {
        self.value is Some || self.writable is Some || self.get is Some || self.set is Some
            || self.enumerable is Some || self.configurable is Some
    }

    /// A descriptor with no fields.
    pub fn empty() -> (r: Self)
        ensures
            !r.spec_has_fields(),
    {
        PropertyDescriptor {
            value: None,
            writable: None,
            get: None,
            set: None,
            enumerable: None,
            configurable: None,
        }
    }

    /// ### IsAccessorDescriptor ( Desc )
    pub fn is_accessor_descriptor(&self) -> (r: bool)
        ensures
            r == self.spec_is_accessor_descriptor(),
    {
        self.get.is_some() || self.set.is_some()
    }

    /// ### IsDataDescriptor ( Desc )
    pub fn is_data_descriptor(&self) -> (r: bool)
        ensures
            r == self.spec_is_data_descriptor(),
    {
        self.value.is_some() || self.writable.is_some()
    }

    /// ### IsGenericDescriptor ( Desc )
    pub fn is_generic_descriptor(&self) -> (r: bool)
        ensures
            r == self.spec_is_generic_descriptor(),
    {
        !self.is_accessor_descriptor() && !self.is_data_descriptor()
    }

    /// Returns true if the descriptor has any field at all.
    pub fn has_fields(&self) -> (r: bool)
        ensures
            r == self.spec_has_fields(),
    {
        self.value.is_some() || self.writable.is_some() || self.get.is_some()
            || self.set.is_some() || self.enumerable.is_some() || self.configurable.is_some()
    }
}

/// The handle of the empty String: as Strings are interned, every empty
/// String is held by it.
pub const EMPTY_STRING: u32 = 0u32;

/// The largest integer that ToIndex gives: 2**53 - 1.
pub const MAX_SAFE_INTEGER: u64 = 9007199254740991u64;

/// ### [7.1.22 ToIndex ( value )](https://tc39.es/ecma262/#sec-toindex)
/// of a primitive that is not a String (Strings and Objects are converted
/// to Numbers before this is called).
pub open spec fn spec_to_index(v: Value) -> Result<u64, JsError> {
    match v {
        Value::Undefined | Value::Null => Ok(0u64),
        Value::Boolean(b) => Ok(if b { 1u64 } else { 0u64 }),
        Value::Integer(n) => if 0 <= n <= MAX_SAFE_INTEGER { Ok(n as u64) } else { Err(JsError::Exception(ExceptionType::RangeError)) },
        _ => Err(JsError::Exception(ExceptionType::TypeError)),
    }
}

/// ### [7.1.22 ToIndex ( value )](https://tc39.es/ecma262/#sec-toindex)
///
/// undefined and null are 0; an integral Number outside 0 to 2**53 - 1 is a
/// RangeError; a Symbol is a TypeError (ToNumber refuses it).
pub fn to_index(v: Value) -> (r: Result<u64, JsError>)
    requires
        !(v is String || v.spec_is_object()),
    ensures
        r == spec_to_index(v),
{
    match v {
        Value::Undefined | Value::Null => Ok(0),
        Value::Boolean(b) => Ok(if b { 1 } else { 0 }),
        Value::Integer(n) => if 0 <= n && n <= MAX_SAFE_INTEGER as i64 {
            Ok(n as u64)
        } else {
            Err(JsError::Exception(ExceptionType::RangeError))
        },
        _ => Err(JsError::Exception(ExceptionType::TypeError)),
    }
}

/// The arguments handed to a built-in function.
#[derive(Debug)]
pub struct ArgumentsList {
    pub values: Vec<Value>,
}

impl ArgumentsList {
    /// The argument at `index`, or undefined where there is none.
    pub fn get(&self, index: usize) -> (r: Value)
        ensures
            r == (if index < self.values@.len() { self.values@[index as int] } else { Value::Undefined }),
    {
        if index < self.values.len() {
            self.values[index]
        } else {
            Value::Undefined
        }
    }

    /// The number of arguments.
    pub fn len(&self) -> (r: usize)
        ensures
            r == self.values@.len(),
    {
        self.values.len()
    }
}

} // verus!
