//! The closed set of values that may cross the invocation boundary.

use vstd::prelude::*;

verus! {

/// A parameter, attachment or attribute value. Structured data is flattened
/// to one of these before it enters an invocation. A floating-point number
/// is held as the bit pattern of its IEEE 754 form.
#[derive(Debug, PartialEq, Eq)]
pub enum TypedValue {
    String(String),
    Bytes(Vec<u8>),
    Bool(bool),
    I8(i8),
    I16(i16),
    I32(i32),
    I64(i64),
    U8(u8),
    U16(u16),
    U32(u32),
    U64(u64),
    F32(u32),
    F64(u64),
}

/// What a `TypedValue` holds, as a mathematical value.
pub enum TypedValueView {
    String(Seq<char>),
    Bytes(Seq<u8>),
    Bool(bool),
    I8(i8),
    I16(i16),
    I32(i32),
    I64(i64),
    U8(u8),
    U16(u16),
    U32(u32),
    U64(u64),
    F32(u32),
    F64(u64),
}

impl View for TypedValue {
    type V = TypedValueView;

    open spec fn view(&self) -> TypedValueView {
        match self {
            TypedValue::String(s) => TypedValueView::String(s@),
            TypedValue::Bytes(b) => TypedValueView::Bytes(b@),
            TypedValue::Bool(v) => TypedValueView::Bool(*v),
            TypedValue::I8(v) => TypedValueView::I8(*v),
            TypedValue::I16(v) => TypedValueView::I16(*v),
            TypedValue::I32(v) => TypedValueView::I32(*v),
            TypedValue::I64(v) => TypedValueView::I64(*v),
            TypedValue::U8(v) => TypedValueView::U8(*v),
            TypedValue::U16(v) => TypedValueView::U16(*v),
            TypedValue::U32(v) => TypedValueView::U32(*v),
            TypedValue::U64(v) => TypedValueView::U64(*v),
            TypedValue::F32(v) => TypedValueView::F32(*v),
            TypedValue::F64(v) => TypedValueView::F64(*v),
        }
    }
}

impl Clone for TypedValue {
    /// A copy that holds the same value.
    fn clone(&self) -> (copy: Self)
        ensures
            copy@ == self@,
    {
        match self {
            TypedValue::String(s) => TypedValue::String(s.clone()),
            TypedValue::Bytes(b) => TypedValue::Bytes(b.clone()),
            TypedValue::Bool(v) => TypedValue::Bool(*v),
            TypedValue::I8(v) => TypedValue::I8(*v),
            TypedValue::I16(v) => TypedValue::I16(*v),
            TypedValue::I32(v) => TypedValue::I32(*v),
            TypedValue::I64(v) => TypedValue::I64(*v),
            TypedValue::U8(v) => TypedValue::U8(*v),
            TypedValue::U16(v) => TypedValue::U16(*v),
            TypedValue::U32(v) => TypedValue::U32(*v),
            TypedValue::U64(v) => TypedValue::U64(*v),
            TypedValue::F32(v) => TypedValue::F32(*v),
            TypedValue::F64(v) => TypedValue::F64(*v),
        }
    }
}

/// The values of a list, in order.
pub open spec fn values_of(list: Seq<TypedValue>) -> Seq<TypedValueView> {
    Seq::new(list.len(), |i: int| list[i]@)
}

/// The texts of a list, in order.
pub open spec fn texts_of(list: Seq<String>) -> Seq<Seq<char>> {
    Seq::new(list.len(), |i: int| list[i]@)
}

/// A copy of a list of values.
pub fn copy_values(list: &Vec<TypedValue>) -> (copy: Vec<TypedValue>)
    ensures
        values_of(copy@) == values_of(list@),
{
    let mut copy: Vec<TypedValue> = Vec::new();
    let mut i: usize = 0;
    while i < list.len()
        invariant
            i <= list.len(),
            copy@.len() == i,
            forall|j: int| 0 <= j < i ==> copy@[j]@ == list@[j]@,
        decreases list.len() - i,
    {
        copy.push(list[i].clone());
        i += 1;
    }
    copy
}

/// A copy of a list of texts.
pub fn copy_texts(list: &Vec<String>) -> (copy: Vec<String>)
    ensures
        texts_of(copy@) == texts_of(list@),
{
    let mut copy: Vec<String> = Vec::new();
    let mut i: usize = 0;
    while i < list.len()
        invariant
            i <= list.len(),
            copy@.len() == i,
            forall|j: int| 0 <= j < i ==> copy@[j]@ == list@[j]@,
        decreases list.len() - i,
    {
        copy.push(list[i].clone());
        i += 1;
    }
    copy
}

} // verus!
