//! Literals, and the dynamic values that they stand for.

use vstd::prelude::*;
use crate::value::{Value, ValueView};

verus! {

/// A literal, as a declaration writes it.
#[derive(Debug)]
pub enum Literal {
    Str(String),
    ByteStr(Vec<u8>),
    Byte(u8),
    Char(char),
    /// An integer literal: its value and its type suffix, which is empty
    /// where the literal has none.
    Int { value: u64, suffix: String },
    /// A floating-point literal: its bit pattern in the precision that the
    /// suffix names, double where the literal has none, and the suffix.
    Float { bits: u64, suffix: String },
    Bool(bool),
    /// Any other literal.
    Other,
}

/// The mathematical content of a [`Literal`].
pub ghost enum LiteralView {
    Str(Seq<char>),
    ByteStr(Seq<u8>),
    Byte(u8),
    Char(char),
    Int { value: u64, suffix: Seq<char> },
    Float { bits: u64, suffix: Seq<char> },
    Bool(bool),
    Other,
}

impl View for Literal {
    type V = LiteralView;

    open spec fn view(&self) -> LiteralView {
        match self {
            Literal::Str(s) => LiteralView::Str(s@),
            Literal::ByteStr(b) => LiteralView::ByteStr(b@),
            Literal::Byte(b) => LiteralView::Byte(*b),
            Literal::Char(c) => LiteralView::Char(*c),
            Literal::Int { value, suffix } => LiteralView::Int { value: *value, suffix: suffix@ },
            Literal::Float { bits, suffix } => LiteralView::Float { bits: *bits, suffix: suffix@ },
            Literal::Bool(b) => LiteralView::Bool(*b),
            Literal::Other => LiteralView::Other,
        }
    }
}

impl LiteralView {
    /// The dynamic value of the literal, where it has one.
    ///
    /// A string, a byte and a boolean stand for themselves. An integer is
    /// signed where it has no suffix or a signed one, and must then fit the
    /// type that the suffix names, or the 32 bits of an integer without
    /// suffix; it is unsigned under the suffixes `u64`, `usize` and `u8`. A
    /// float is double where it has no suffix. No other literal has a value.
    pub open spec fn value(self) -> Option<ValueView> {
        match self {
            LiteralView::Str(s) => Some(ValueView::Str(s)),
            LiteralView::Byte(b) => Some(ValueView::U8(b)),
            LiteralView::Bool(b) => Some(ValueView::Bool(b)),
            LiteralView::Int { value, suffix } => if suffix == ""@ || suffix == "i32"@ {
                if value <= i32::MAX {
                    Some(ValueView::I64(value as i64))
                } else {
                    None
                }
            } else if suffix == "i64"@ {
                if value <= i64::MAX {
                    Some(ValueView::I64(value as i64))
                } else {
                    None
                }
            } else if suffix == "u64"@ || suffix == "usize"@ {
                Some(ValueView::U64(value))
            } else if suffix == "u8"@ {
                if value <= u8::MAX {
                    Some(ValueView::U8(value as u8))
                } else {
                    None
                }
            } else {
                None
            },
            LiteralView::Float { bits, suffix } => if suffix == ""@ || suffix == "f64"@ {
                Some(ValueView::F64(bits))
            } else if suffix == "f32"@ {
                if bits <= u32::MAX {
                    Some(ValueView::F32(bits as u32))
                } else {
                    None
                }
            } else {
                None
            },
            _ => None,
        }
    }
}

/// The dynamic value of a literal, where it has one.
pub fn literal_value(literal: Literal) -> (r: Option<Value>)
    ensures
        match r {
            Some(value) => literal@.value() == Some(value@),
            None => literal@.value() is None,
        },
{
    match literal {
        Literal::Str(s) => Some(Value::Str(s)),
        Literal::Byte(b) => Some(Value::U8(b)),
        Literal::Bool(b) => Some(Value::Bool(b)),
        Literal::Int { value, suffix } => {
            if suffix == "".to_owned() || suffix == "i32".to_owned() {
                if value <= i32::MAX as u64 {
                    Some(Value::I64(value as i64))
                } else {
                    None
                }
            } else if suffix == "i64".to_owned() {
                if value <= i64::MAX as u64 {
                    Some(Value::I64(value as i64))
                } else {
                    None
                }
            } else if suffix == "u64".to_owned() || suffix == "usize".to_owned() {
                Some(Value::U64(value))
            } else if suffix == "u8".to_owned() {
                if value <= u8::MAX as u64 {
                    Some(Value::U8(value as u8))
                } else {
                    None
                }
            } else {
                None
            }
        },
        Literal::Float { bits, suffix } => {
            if suffix == "".to_owned() || suffix == "f64".to_owned() {
                Some(Value::F64(bits))
            } else if suffix == "f32".to_owned() {
                if bits <= u32::MAX as u64 {
                    Some(Value::F32(bits as u32))
                } else {
                    None
                }
            } else {
                None
            }
        },
        _ => None,
    }
}

} // verus!
