//! Conversions between dynamic values and native scalar values.
//!
//! Every native type that may stand as a method parameter or as a plain
//! (non-object) return type has a partial conversion from a dynamic value,
//! which succeeds exactly on the values that carry the type's tag, and a total
//! conversion back.

use vstd::prelude::*;
use crate::error::TypeMismatch;
use crate::value::{Tag, Value, ValueView};

verus! {

/// The native types that can cross the boundary.
#[derive(Clone, Copy, Debug, PartialEq, Eq, Structural)]
pub enum NativeType {
    /// The unit type; its only value corresponds to the interpreter's unit.
    Unit,
    Bool,
    I64,
    U64,
    U8,
    Str,
    /// The dynamic value itself, handed over as it is.
    Any,
}

/// A value of one of the native types.
#[derive(Debug, PartialEq)]
pub enum NativeValue {
    Unit,
    Bool(bool),
    I64(i64),
    U64(u64),
    U8(u8),
    Str(String),
    Any(Value),
}

/// The mathematical content of a [`NativeValue`].
pub ghost enum NativeView {
    Unit,
    Bool(bool),
    I64(i64),
    U64(u64),
    U8(u8),
    Str(Seq<char>),
    Any(ValueView),
}

impl NativeType {
    /// Whether a dynamic value with tag `tag` converts to this native type.
    pub open spec fn matches_tag(self, tag: Tag) -> bool {
        match self {
            NativeType::Unit => tag == Tag::Nothing,
            NativeType::Bool => tag == Tag::Bool,
            NativeType::I64 => tag == Tag::I64,
            NativeType::U64 => tag == Tag::U64,
            NativeType::U8 => tag == Tag::U8,
            NativeType::Str => tag == Tag::Str,
            NativeType::Any => true,
        }
    }

    /// The native type that a declaration names, if it names one: the
    /// scalar types by their usual names, and `Value` for a parameter that
    /// takes the dynamic value as it is.
    pub open spec fn named(name: Seq<char>) -> Option<NativeType> {
        if name == "()"@ {
            Some(NativeType::Unit)
        } else if name == "bool"@ {
            Some(NativeType::Bool)
        } else if name == "i64"@ {
            Some(NativeType::I64)
        } else if name == "u64"@ {
            Some(NativeType::U64)
        } else if name == "u8"@ {
            Some(NativeType::U8)
        } else if name == "String"@ {
            Some(NativeType::Str)
        } else if name == "Value"@ {
            Some(NativeType::Any)
        } else {
            None
        }
    }

    /// The native type that a declaration names, if it names one.
    pub fn from_name(name: &str) -> (ty: Option<NativeType>)
        ensures
            ty == NativeType::named(name@),
    {
        let name = name.to_owned();
        if name == "()".to_owned() {
            Some(NativeType::Unit)
        } else if name == "bool".to_owned() {
            Some(NativeType::Bool)
        } else if name == "i64".to_owned() {
            Some(NativeType::I64)
        } else if name == "u64".to_owned() {
            Some(NativeType::U64)
        } else if name == "u8".to_owned() {
            Some(NativeType::U8)
        } else if name == "String".to_owned() {
            Some(NativeType::Str)
        } else if name == "Value".to_owned() {
            Some(NativeType::Any)
        } else {
            None
        }
    }
}

impl NativeView {
    /// The native type of the value.
    pub open spec fn type_of(self) -> NativeType {
        match self {
            NativeView::Unit => NativeType::Unit,
            NativeView::Bool(_) => NativeType::Bool,
            NativeView::I64(_) => NativeType::I64,
            NativeView::U64(_) => NativeType::U64,
            NativeView::U8(_) => NativeType::U8,
            NativeView::Str(_) => NativeType::Str,
            NativeView::Any(_) => NativeType::Any,
        }
    }
}

impl View for NativeValue {
    type V = NativeView;

    open spec fn view(&self) -> NativeView {
        match self {
            NativeValue::Unit => NativeView::Unit,
            NativeValue::Bool(b) => NativeView::Bool(*b),
            NativeValue::I64(i) => NativeView::I64(*i),
            NativeValue::U64(u) => NativeView::U64(*u),
            NativeValue::U8(u) => NativeView::U8(*u),
            NativeValue::Str(s) => NativeView::Str(s@),
            NativeValue::Any(v) => NativeView::Any(v@),
        }
    }
}

/// The contents of a list of native values.
pub open spec fn native_views(values: Seq<NativeValue>) -> Seq<NativeView> {
    values.map_values(|n: NativeValue| n@)
}

impl NativeValue {
    /// The native type of this value.
    pub fn type_of(&self) -> (ty: NativeType)
        ensures
            ty == self@.type_of(),
    {
        match self {
            NativeValue::Unit => NativeType::Unit,
            NativeValue::Bool(_) => NativeType::Bool,
            NativeValue::I64(_) => NativeType::I64,
            NativeValue::U64(_) => NativeType::U64,
            NativeValue::U8(_) => NativeType::U8,
            NativeValue::Str(_) => NativeType::Str,
            NativeValue::Any(_) => NativeType::Any,
        }
    }
}

/// The dynamic value that stands for a native value.
pub open spec fn to_dynamic_spec(n: NativeView) -> ValueView {
    match n {
        NativeView::Unit => ValueView::Nothing,
        NativeView::Bool(b) => ValueView::Bool(b),
        NativeView::I64(i) => ValueView::I64(i),
        NativeView::U64(u) => ValueView::U64(u),
        NativeView::U8(u) => ValueView::U8(u),
        NativeView::Str(s) => ValueView::Str(s),
        NativeView::Any(v) => v,
    }
}

/// The native value of type `ty` that a dynamic value converts to, or the
/// mismatch between the type and the value's tag.
pub open spec fn from_dynamic_spec(v: ValueView, ty: NativeType) -> Result<
    NativeView,
    TypeMismatch,
> {
    match (ty, v) {
        (NativeType::Unit, ValueView::Nothing) => Ok(NativeView::Unit),
        (NativeType::Bool, ValueView::Bool(b)) => Ok(NativeView::Bool(b)),
        (NativeType::I64, ValueView::I64(i)) => Ok(NativeView::I64(i)),
        (NativeType::U64, ValueView::U64(u)) => Ok(NativeView::U64(u)),
        (NativeType::U8, ValueView::U8(u)) => Ok(NativeView::U8(u)),
        (NativeType::Str, ValueView::Str(s)) => Ok(NativeView::Str(s)),
        (NativeType::Any, _) => Ok(NativeView::Any(v)),
        _ => Err(TypeMismatch { expected: ty, found: v.tag() }),
    }
}

/// The view of the outcome of a conversion.
pub open spec fn conversion_view(r: Result<NativeValue, TypeMismatch>) -> Result<
    NativeView,
    TypeMismatch,
> {
    match r {
        Ok(n) => Ok(n@),
        Err(e) => Err(e),
    }
}

/// Converts a native value to the dynamic value that stands for it. This
/// never fails: every native value is representable.
pub fn to_dynamic(n: NativeValue) -> (v: Value)
    ensures
        v@ == to_dynamic_spec(n@),
{
    match n {
        NativeValue::Unit => Value::Nothing,
        NativeValue::Bool(b) => Value::Bool(b),
        NativeValue::I64(i) => Value::I64(i),
        NativeValue::U64(u) => Value::U64(u),
        NativeValue::U8(u) => Value::U8(u),
        NativeValue::Str(s) => Value::Str(s),
        NativeValue::Any(v) => v,
    }
}

/// Converts a dynamic value to the native type `ty`.
///
/// Succeeds exactly when the value's tag matches `ty`; the native value then
/// converts back to the value it came from. Otherwise the error names the
/// type asked for and the tag found.
pub fn from_dynamic(v: Value, ty: NativeType) -> (r: Result<NativeValue, TypeMismatch>)
    ensures
        conversion_view(r) == from_dynamic_spec(v@, ty),
        r is Ok <==> ty.matches_tag(v@.tag()),
        r matches Ok(n) ==> n@.type_of() == ty && to_dynamic_spec(n@) == v@,
        r matches Err(e) ==> e == (TypeMismatch { expected: ty, found: v@.tag() }),
{
    let found = v.tag();
    match (ty, v) {
        (NativeType::Unit, Value::Nothing) => Ok(NativeValue::Unit),
        (NativeType::Bool, Value::Bool(b)) => Ok(NativeValue::Bool(b)),
        (NativeType::I64, Value::I64(i)) => Ok(NativeValue::I64(i)),
        (NativeType::U64, Value::U64(u)) => Ok(NativeValue::U64(u)),
        (NativeType::U8, Value::U8(u)) => Ok(NativeValue::U8(u)),
        (NativeType::Str, Value::Str(s)) => Ok(NativeValue::Str(s)),
        (NativeType::Any, v) => Ok(NativeValue::Any(v)),
        _ => Err(TypeMismatch { expected: ty, found }),
    }
}

/// Round trip, from the dynamic side: a value whose tag matches `ty` converts
/// to a native value of type `ty` that converts back to the same value, and a
/// value whose tag does not match fails to convert, with a type mismatch.
pub proof fn lemma_dynamic_round_trip(v: ValueView, ty: NativeType)
    ensures
        ty.matches_tag(v.tag()) ==> (from_dynamic_spec(v, ty) matches Ok(n) && n.type_of() == ty
            && to_dynamic_spec(n) == v),
        !ty.matches_tag(v.tag()) ==> from_dynamic_spec(v, ty) == Err::<NativeView, TypeMismatch>(
            TypeMismatch { expected: ty, found: v.tag() },
        ),
{
}

/// Round trip, from the native side: the dynamic value that stands for a
/// native value carries a matching tag and converts back to that native value.
pub proof fn lemma_native_round_trip(n: NativeView)
    ensures
        n.type_of().matches_tag(to_dynamic_spec(n).tag()),
        from_dynamic_spec(to_dynamic_spec(n), n.type_of()) == Ok::<NativeView, TypeMismatch>(n),
{
}

/// Within one native type the conversion to a dynamic value loses nothing:
/// two native values of the same type with the same dynamic value are equal.
pub proof fn lemma_to_dynamic_injective(a: NativeView, b: NativeView)
    requires
        a.type_of() == b.type_of(),
        to_dynamic_spec(a) == to_dynamic_spec(b),
    ensures
        a == b,
{
}

} // verus!
