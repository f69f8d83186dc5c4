//! The native types of the host language that cross the boundary as they
//! are: each knows which [`NativeType`] it stands for and converts to and
//! from the dynamic value.

use vstd::pervasive::unreached;
use vstd::prelude::*;
use crate::convert::{from_dynamic, to_dynamic, to_dynamic_spec};
use crate::convert::{NativeType, NativeValue, NativeView};
use crate::error::TypeMismatch;
use crate::value::Value;

verus! {

/// A type of the host language that can stand as a method parameter or as
/// the plain result of a method.
pub trait Scalar: Sized {
    /// The native type that the implementing type stands for.
    spec fn native_type() -> NativeType;

    /// The content of a value, as a native value.
    spec fn as_native(&self) -> NativeView;

    /// The native type that the implementing type stands for.
    fn kind() -> (ty: NativeType)
        ensures
            ty == Self::native_type(),
    ;

    /// Wraps the value as a native value of its type.
    fn into_native(self) -> (n: NativeValue)
        ensures
            n@ == self.as_native(),
            n@.type_of() == Self::native_type(),
    ;

    /// Unwraps a native value, which succeeds exactly when it is of the
    /// implementing type.
    fn from_native(n: NativeValue) -> (r: Option<Self>)
        ensures
            r is Some <==> n@.type_of() == Self::native_type(),
            r matches Some(x) ==> x.as_native() == n@,
    ;
}

impl Scalar for () {
    open spec fn native_type() -> NativeType {
        NativeType::Unit
    }

    open spec fn as_native(&self) -> NativeView {
        NativeView::Unit
    }

    fn kind() -> NativeType {
        NativeType::Unit
    }

    fn into_native(self) -> NativeValue {
        NativeValue::Unit
    }

    fn from_native(n: NativeValue) -> Option<Self> {
        match n {
            NativeValue::Unit => Some(()),
            _ => None,
        }
    }
}

impl Scalar for bool {
    open spec fn native_type() -> NativeType {
        NativeType::Bool
    }

    open spec fn as_native(&self) -> NativeView {
        NativeView::Bool(*self)
    }

    fn kind() -> NativeType {
        NativeType::Bool
    }

    fn into_native(self) -> NativeValue {
        NativeValue::Bool(self)
    }

    fn from_native(n: NativeValue) -> Option<Self> {
        match n {
            NativeValue::Bool(b) => Some(b),
            _ => None,
        }
    }
}

impl Scalar for i64 {
    open spec fn native_type() -> NativeType {
        NativeType::I64
    }

    open spec fn as_native(&self) -> NativeView {
        NativeView::I64(*self)
    }

    fn kind() -> NativeType {
        NativeType::I64
    }

    fn into_native(self) -> NativeValue {
        NativeValue::I64(self)
    }

    fn from_native(n: NativeValue) -> Option<Self> {
        match n {
            NativeValue::I64(i) => Some(i),
            _ => None,
        }
    }
}

impl Scalar for u64 {
    open spec fn native_type() -> NativeType {
        NativeType::U64
    }

    open spec fn as_native(&self) -> NativeView {
        NativeView::U64(*self)
    }

    fn kind() -> NativeType {
        NativeType::U64
    }

    fn into_native(self) -> NativeValue {
        NativeValue::U64(self)
    }

    fn from_native(n: NativeValue) -> Option<Self> {
        match n {
            NativeValue::U64(u) => Some(u),
            _ => None,
        }
    }
}

impl Scalar for u8 {
    open spec fn native_type() -> NativeType {
        NativeType::U8
    }

    open spec fn as_native(&self) -> NativeView {
        NativeView::U8(*self)
    }

    fn kind() -> NativeType {
        NativeType::U8
    }

    fn into_native(self) -> NativeValue {
        NativeValue::U8(self)
    }

    fn from_native(n: NativeValue) -> Option<Self> {
        match n {
            NativeValue::U8(u) => Some(u),
            _ => None,
        }
    }
}

impl Scalar for String {
    open spec fn native_type() -> NativeType {
        NativeType::Str
    }

    open spec fn as_native(&self) -> NativeView {
        NativeView::Str(self@)
    }

    fn kind() -> NativeType {
        NativeType::Str
    }

    fn into_native(self) -> NativeValue {
        NativeValue::Str(self)
    }

    fn from_native(n: NativeValue) -> Option<Self> {
        match n {
            NativeValue::Str(s) => Some(s),
            _ => None,
        }
    }
}

impl Scalar for Value {
    open spec fn native_type() -> NativeType {
        NativeType::Any
    }

    open spec fn as_native(&self) -> NativeView {
        NativeView::Any(self@)
    }

    fn kind() -> NativeType {
        NativeType::Any
    }

    fn into_native(self) -> NativeValue {
        NativeValue::Any(self)
    }

    fn from_native(n: NativeValue) -> Option<Self> {
        match n {
            NativeValue::Any(v) => Some(v),
            _ => None,
        }
    }
}

/// Converts a dynamic value to the native type `T`.
///
/// Succeeds exactly when the value's tag matches `T`; the result then
/// converts back to the value it came from. Otherwise the error names `T`
/// and the tag found.
pub fn from_value<T: Scalar>(v: Value) -> (r: Result<T, TypeMismatch>)
    ensures
        r is Ok <==> T::native_type().matches_tag(v@.tag()),
        r matches Ok(x) ==> x.as_native().type_of() == T::native_type() && to_dynamic_spec(
            x.as_native(),
        ) == v@,
        r matches Err(e) ==> e == (TypeMismatch { expected: T::native_type(), found: v@.tag() }),
{
    match from_dynamic(v, T::kind()) {
        Ok(native) => match T::from_native(native) {
            Some(x) => Ok(x),
            None => unreached(),
        },
        Err(e) => Err(e),
    }
}

/// Converts a value of the native type `T` to the dynamic value that stands
/// for it. This never fails.
pub fn into_value<T: Scalar>(x: T) -> (v: Value)
    ensures
        v@ == to_dynamic_spec(x.as_native()),
        T::native_type().matches_tag(v@.tag()),
{
    to_dynamic(x.into_native())
}

} // verus!
