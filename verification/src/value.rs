//! The dynamically typed value that crosses the boundary.

use std::sync::Arc;
use vstd::prelude::*;

verus! {

/// What a value holds. Floating-point payloads are kept as their IEEE-754 bit
/// patterns, so that a value is compared and moved without any rounding.
#[derive(Debug, PartialEq, Eq)]
pub enum Content {
    Null,
    Bool(bool),
    I8(i8),
    I16(i16),
    I32(i32),
    I64(i64),
    U8(u8),
    U16(u16),
    U32(u32),
    U64(u64),
    F32(u32),
    F64(u64),
    String(String),
    /// A value of the framework that has no form at the boundary. The number
    /// is the name that the embedding gives it; nothing here reads it.
    Internal(u64),
}

/// The mathematical model of a value: `Content` with text as a sequence of
/// characters.
pub enum ValueView {
    Null,
    Bool(bool),
    I8(i8),
    I16(i16),
    I32(i32),
    I64(i64),
    U8(u8),
    U16(u16),
    U32(u32),
    U64(u64),
    F32(u32),
    F64(u64),
    String(Seq<char>),
    Internal(u64),
}

impl View for Content {
    type V = ValueView;

    open spec fn view(&self) -> ValueView {
        match *self {
            Content::Null => ValueView::Null,
            Content::Bool(b) => ValueView::Bool(b),
            Content::I8(n) => ValueView::I8(n),
            Content::I16(n) => ValueView::I16(n),
            Content::I32(n) => ValueView::I32(n),
            Content::I64(n) => ValueView::I64(n),
            Content::U8(n) => ValueView::U8(n),
            Content::U16(n) => ValueView::U16(n),
            Content::U32(n) => ValueView::U32(n),
            Content::U64(n) => ValueView::U64(n),
            Content::F32(bits) => ValueView::F32(bits),
            Content::F64(bits) => ValueView::F64(bits),
            Content::String(s) => ValueView::String(s@),
            Content::Internal(name) => ValueView::Internal(name),
        }
    }
}

impl ValueView {
    /// The payload, where this is `Bool`.
    pub open spec fn as_bool(self) -> Option<bool> {
        match self {
            ValueView::Bool(x) => Some(x),
            _ => None,
        }
    }

    /// The payload, where this is `I8`.
    pub open spec fn as_i8(self) -> Option<i8> {
        match self {
            ValueView::I8(x) => Some(x),
            _ => None,
        }
    }

    /// The payload, where this is `I16`.
    pub open spec fn as_i16(self) -> Option<i16> {
        match self {
            ValueView::I16(x) => Some(x),
            _ => None,
        }
    }

    /// The payload, where this is `I32`.
    pub open spec fn as_i32(self) -> Option<i32> {
        match self {
            ValueView::I32(x) => Some(x),
            _ => None,
        }
    }

    /// The payload, where this is `I64`.
    pub open spec fn as_i64(self) -> Option<i64> {
        match self {
            ValueView::I64(x) => Some(x),
            _ => None,
        }
    }

    /// The payload, where this is `U8`.
    pub open spec fn as_u8(self) -> Option<u8> {
        match self {
            ValueView::U8(x) => Some(x),
            _ => None,
        }
    }

    /// The payload, where this is `U16`.
    pub open spec fn as_u16(self) -> Option<u16> {
        match self {
            ValueView::U16(x) => Some(x),
            _ => None,
        }
    }

    /// The payload, where this is `U32`.
    pub open spec fn as_u32(self) -> Option<u32> {
        match self {
            ValueView::U32(x) => Some(x),
            _ => None,
        }
    }

    /// The payload, where this is `U64`.
    pub open spec fn as_u64(self) -> Option<u64> {
        match self {
            ValueView::U64(x) => Some(x),
            _ => None,
        }
    }

    /// The bit pattern, where this is `F32`.
    pub open spec fn as_f32(self) -> Option<u32> {
        match self {
            ValueView::F32(bits) => Some(bits),
            _ => None,
        }
    }

    /// The bit pattern, where this is `F64`.
    pub open spec fn as_f64(self) -> Option<u64> {
        match self {
            ValueView::F64(bits) => Some(bits),
            _ => None,
        }
    }

    /// The text, where this is `String`.
    pub open spec fn as_str(self) -> Option<Seq<char>> {
        match self {
            ValueView::String(s) => Some(s),
            _ => None,
        }
    }
}

impl Content {
    pub fn is_null(&self) -> (null: bool)
        ensures
            null == (self@ is Null),
    {
        match self {
            Content::Null => true,
            _ => false,
        }
    }

    pub fn as_bool(&self) -> (payload: Option<bool>)
        ensures
            payload == self@.as_bool(),
    {
        match self {
            Content::Bool(x) => Some(*x),
            _ => None,
        }
    }

    pub fn as_i8(&self) -> (payload: Option<i8>)
        ensures
            payload == self@.as_i8(),
    {
        match self {
            Content::I8(x) => Some(*x),
            _ => None,
        }
    }

    pub fn as_i16(&self) -> (payload: Option<i16>)
        ensures
            payload == self@.as_i16(),
    {
        match self {
            Content::I16(x) => Some(*x),
            _ => None,
        }
    }

    pub fn as_i32(&self) -> (payload: Option<i32>)
        ensures
            payload == self@.as_i32(),
    {
        match self {
            Content::I32(x) => Some(*x),
            _ => None,
        }
    }

    pub fn as_i64(&self) -> (payload: Option<i64>)
        ensures
            payload == self@.as_i64(),
    {
        match self {
            Content::I64(x) => Some(*x),
            _ => None,
        }
    }

    pub fn as_u8(&self) -> (payload: Option<u8>)
        ensures
            payload == self@.as_u8(),
    {
        match self {
            Content::U8(x) => Some(*x),
            _ => None,
        }
    }

    pub fn as_u16(&self) -> (payload: Option<u16>)
        ensures
            payload == self@.as_u16(),
    {
        match self {
            Content::U16(x) => Some(*x),
            _ => None,
        }
    }

    pub fn as_u32(&self) -> (payload: Option<u32>)
        ensures
            payload == self@.as_u32(),
    {
        match self {
            Content::U32(x) => Some(*x),
            _ => None,
        }
    }

    pub fn as_u64(&self) -> (payload: Option<u64>)
        ensures
            payload == self@.as_u64(),
    {
        match self {
            Content::U64(x) => Some(*x),
            _ => None,
        }
    }

    pub fn as_f32(&self) -> (bits: Option<u32>)
        ensures
            bits == self@.as_f32(),
    {
        match self {
            Content::F32(x) => Some(*x),
            _ => None,
        }
    }

    pub fn as_f64(&self) -> (bits: Option<u64>)
        ensures
            bits == self@.as_f64(),
    {
        match self {
            Content::F64(x) => Some(*x),
            _ => None,
        }
    }

    pub fn as_str(&self) -> (text: Option<&str>)
        ensures
            text is Some <==> self@ is String,
            text matches Some(t) ==> Some(t@) == self@.as_str(),
    {
        match self {
            Content::String(s) => Some(s.as_str()),
            _ => None,
        }
    }

    /// A copy with the same view.
    pub fn duplicate(&self) -> (copy: Content)
        ensures
            copy@ == self@,
    {
        match self {
            Content::Null => Content::Null,
            Content::Bool(x) => Content::Bool(*x),
            Content::I8(x) => Content::I8(*x),
            Content::I16(x) => Content::I16(*x),
            Content::I32(x) => Content::I32(*x),
            Content::I64(x) => Content::I64(*x),
            Content::U8(x) => Content::U8(*x),
            Content::U16(x) => Content::U16(*x),
            Content::U32(x) => Content::U32(*x),
            Content::U64(x) => Content::U64(*x),
            Content::F32(x) => Content::F32(*x),
            Content::F64(x) => Content::F64(*x),
            Content::String(s) => Content::String(s.clone()),
            Content::Internal(name) => Content::Internal(*name),
        }
    }
}

/// A handle that shares ownership of an immutable `Content`.
pub struct Value {
    _value: Arc<Content>,
}

impl View for Value {
    type V = ValueView;

    closed spec fn view(&self) -> ValueView {
        (*self._value)@
    }
}

impl Value {
    /// Wraps a content in a fresh handle.
    pub fn new(content: Content) -> (value: Value)
        ensures
            value@ == content@,
    {
        Value { _value: Arc::new(content) }
    }

    /// The handle on a content that is shared already.
    pub fn from_shared(content: Arc<Content>) -> (value: Value)
        ensures
            value@ == (*content)@,
    {
        Value { _value: content }
    }

    /// Gives up the handle for the shared content.
    pub fn into_shared(self) -> (content: Arc<Content>)
        ensures
            (*content)@ == self@,
    {
        self._value
    }

    /// The content that the handle shares.
    pub fn content(&self) -> (content: &Content)
        ensures
            content@ == self@,
    {
        &*self._value
    }

    /// A second handle on the same content; nothing is copied.
    pub fn share(&self) -> (other: Value)
        ensures
            other@ == self@,
    {
        Value { _value: self._value.clone() }
    }
}

/// The null value.
#[allow(non_snake_case)]
pub fn Value_FromNull() -> (value: Value)
    ensures
        value@ == ValueView::Null,
{
    Value::new(Content::Null)
}

/// A boolean value: true for 1, false for any other integer.
#[allow(non_snake_case)]
pub fn Value_BoolFromInt(number: i32) -> (value: Value)
    ensures
        value@ == ValueView::Bool(number == 1),
{
    Value::new(Content::Bool(number == 1))
}

/// A value of a signed 8-bit integer.
#[allow(non_snake_case)]
pub fn Value_FromChar(number: i8) -> (value: Value)
    ensures
        value@ == ValueView::I8(number),
{
    Value::new(Content::I8(number))
}

/// A value of a signed 16-bit integer.
#[allow(non_snake_case)]
pub fn Value_FromShort(number: i16) -> (value: Value)
    ensures
        value@ == ValueView::I16(number),
{
    Value::new(Content::I16(number))
}

/// A value of a signed 32-bit integer.
#[allow(non_snake_case)]
pub fn Value_FromInt(number: i32) -> (value: Value)
    ensures
        value@ == ValueView::I32(number),
{
    Value::new(Content::I32(number))
}

/// A value of a signed 64-bit integer.
#[allow(non_snake_case)]
pub fn Value_FromLong(number: i64) -> (value: Value)
    ensures
        value@ == ValueView::I64(number),
{
    Value::new(Content::I64(number))
}

/// A value of a signed 64-bit integer.
#[allow(non_snake_case)]
pub fn Value_FromLongLong(number: i64) -> (value: Value)
    ensures
        value@ == ValueView::I64(number),
{
    Value::new(Content::I64(number))
}

/// A value of an unsigned 8-bit integer.
#[allow(non_snake_case)]
pub fn Value_FromUChar(number: u8) -> (value: Value)
    ensures
        value@ == ValueView::U8(number),
{
    Value::new(Content::U8(number))
}

/// A value of an unsigned 16-bit integer.
#[allow(non_snake_case)]
pub fn Value_FromUShort(number: u16) -> (value: Value)
    ensures
        value@ == ValueView::U16(number),
{
    Value::new(Content::U16(number))
}

/// A value of an unsigned 32-bit integer.
#[allow(non_snake_case)]
pub fn Value_FromUInt(number: u32) -> (value: Value)
    ensures
        value@ == ValueView::U32(number),
{
    Value::new(Content::U32(number))
}

/// A value of an unsigned 64-bit integer.
#[allow(non_snake_case)]
pub fn Value_FromULong(number: u64) -> (value: Value)
    ensures
        value@ == ValueView::U64(number),
{
    Value::new(Content::U64(number))
}

/// A value of an unsigned 64-bit integer.
#[allow(non_snake_case)]
pub fn Value_FromULongLong(number: u64) -> (value: Value)
    ensures
        value@ == ValueView::U64(number),
{
    Value::new(Content::U64(number))
}

/// Takes the bit pattern of a 32-bit float.
#[allow(non_snake_case)]
pub fn Value_FromFloat(bits: u32) -> (value: Value)
    ensures
        value@ == ValueView::F32(bits),
{
    Value::new(Content::F32(bits))
}

/// Takes the bit pattern of a 64-bit float.
#[allow(non_snake_case)]
pub fn Value_FromDouble(bits: u64) -> (value: Value)
    ensures
        value@ == ValueView::F64(bits),
{
    Value::new(Content::F64(bits))
}

/// 1 for the null value, 0 for any other.
#[allow(non_snake_case)]
pub fn Value_IsNull(value: Value) -> (flag: i32)
    ensures
        flag == if value@ is Null { 1i32 } else { 0i32 },
{
    match value.content() {
        Content::Null => 1,
        _ => 0,
    }
}

/// 1 for the true value, 0 for the false one.
#[allow(non_snake_case)]
pub fn Value_IntoBool(value: Value) -> (flag: i32)
    requires
        value@ is Bool,
    ensures
        flag == if value@.as_bool() == Some(true) { 1i32 } else { 0i32 },
{
    match value.content().as_bool() {
        Some(true) => 1,
        _ => 0,
    }
}

/// The number in a value of a signed 8-bit integer.
#[allow(non_snake_case)]
pub fn Value_IntoChar(value: Value) -> (number: i8)
    requires
        value@ is I8,
    ensures
        Some(number) == value@.as_i8(),
{
    value.content().as_i8().unwrap()
}

/// The number in a value of a signed 16-bit integer.
#[allow(non_snake_case)]
pub fn Value_IntoShort(value: Value) -> (number: i16)
    requires
        value@ is I16,
    ensures
        Some(number) == value@.as_i16(),
{
    value.content().as_i16().unwrap()
}

/// The number in a value of a signed 32-bit integer.
#[allow(non_snake_case)]
pub fn Value_IntoInt(value: Value) -> (number: i32)
    requires
        value@ is I32,
    ensures
        Some(number) == value@.as_i32(),
{
    value.content().as_i32().unwrap()
}

/// The number in a value of a signed 64-bit integer.
#[allow(non_snake_case)]
pub fn Value_IntoLong(value: Value) -> (number: i64)
    requires
        value@ is I64,
    ensures
        Some(number) == value@.as_i64(),
{
    value.content().as_i64().unwrap()
}

/// The number in a value of a signed 64-bit integer.
#[allow(non_snake_case)]
pub fn Value_IntoLongLong(value: Value) -> (number: i64)
    requires
        value@ is I64,
    ensures
        Some(number) == value@.as_i64(),
{
    value.content().as_i64().unwrap()
}

/// The number in a value of an unsigned 8-bit integer.
#[allow(non_snake_case)]
pub fn Value_IntoUChar(value: Value) -> (number: u8)
    requires
        value@ is U8,
    ensures
        Some(number) == value@.as_u8(),
{
    value.content().as_u8().unwrap()
}

/// The number in a value of an unsigned 16-bit integer.
#[allow(non_snake_case)]
pub fn Value_IntoUShort(value: Value) -> (number: u16)
    requires
        value@ is U16,
    ensures
        Some(number) == value@.as_u16(),
{
    value.content().as_u16().unwrap()
}

/// The number in a value of an unsigned 32-bit integer.
#[allow(non_snake_case)]
pub fn Value_IntoUInt(value: Value) -> (number: u32)
    requires
        value@ is U32,
    ensures
        Some(number) == value@.as_u32(),
{
    value.content().as_u32().unwrap()
}

/// The number in a value of an unsigned 64-bit integer.
#[allow(non_snake_case)]
pub fn Value_IntoULong(value: Value) -> (number: u64)
    requires
        value@ is U64,
    ensures
        Some(number) == value@.as_u64(),
{
    value.content().as_u64().unwrap()
}

/// The number in a value of an unsigned 64-bit integer.
#[allow(non_snake_case)]
pub fn Value_IntoULongLong(value: Value) -> (number: u64)
    requires
        value@ is U64,
    ensures
        Some(number) == value@.as_u64(),
{
    value.content().as_u64().unwrap()
}

/// Gives the bit pattern of a 32-bit float.
#[allow(non_snake_case)]
pub fn Value_IntoFloat(value: Value) -> (bits: u32)
    requires
        value@ is F32,
    ensures
        Some(bits) == value@.as_f32(),
{
    value.content().as_f32().unwrap()
}

/// Gives the bit pattern of a 64-bit float.
#[allow(non_snake_case)]
pub fn Value_IntoDouble(value: Value) -> (bits: u64)
    requires
        value@ is F64,
    ensures
        Some(bits) == value@.as_f64(),
{
    value.content().as_f64().unwrap()
}

/// What a value was made of is what its extractor gives back.
pub proof fn law_round_trip(
    b: bool,
    c: i8,
    s: i16,
    i: i32,
    l: i64,
    uc: u8,
    us: u16,
    ui: u32,
    ul: u64,
    f: u32,
    d: u64,
    text: Seq<char>,
)
    ensures
        ValueView::Bool(b).as_bool() == Some(b),
        ValueView::I8(c).as_i8() == Some(c),
        ValueView::I16(s).as_i16() == Some(s),
        ValueView::I32(i).as_i32() == Some(i),
        ValueView::I64(l).as_i64() == Some(l),
        ValueView::U8(uc).as_u8() == Some(uc),
        ValueView::U16(us).as_u16() == Some(us),
        ValueView::U32(ui).as_u32() == Some(ui),
        ValueView::U64(ul).as_u64() == Some(ul),
        ValueView::F32(f).as_f32() == Some(f),
        ValueView::F64(d).as_f64() == Some(d),
        ValueView::String(text).as_str() == Some(text),
{
}

/// An extractor has a payload to give exactly on the variant it is named
/// after.
pub proof fn law_extractor_variant(v: ValueView)
    ensures
        v.as_bool() is Some <==> v is Bool,
        v.as_i8() is Some <==> v is I8,
        v.as_i16() is Some <==> v is I16,
        v.as_i32() is Some <==> v is I32,
        v.as_i64() is Some <==> v is I64,
        v.as_u8() is Some <==> v is U8,
        v.as_u16() is Some <==> v is U16,
        v.as_u32() is Some <==> v is U32,
        v.as_u64() is Some <==> v is U64,
        v.as_f32() is Some <==> v is F32,
        v.as_f64() is Some <==> v is F64,
        v.as_str() is Some <==> v is String,
{
}

/// Of all the values that the constructors make, only the null value is null.
pub proof fn law_only_null_is_null(v: ValueView)
    ensures
        v is Null <==> v == ValueView::Null,
        v is Null ==> v.as_bool() is None && v.as_i8() is None && v.as_i16() is None
            && v.as_i32() is None && v.as_i64() is None && v.as_u8() is None && v.as_u16() is None
            && v.as_u32() is None && v.as_u64() is None && v.as_f32() is None && v.as_f64() is None
            && v.as_str() is None,
        !(v is Null) <==> (v is Bool || v is I8 || v is I16 || v is I32 || v is I64 || v is U8
            || v is U16 || v is U32 || v is U64 || v is F32 || v is F64 || v is String
            || v is Internal),
{
}

} // verus!
