//! The dynamic value that crosses the boundary between interpreted code and
//! native code.

use vstd::prelude::*;

verus! {

broadcast use vstd::std_specs::vec::group_vec_axioms;

/// A dynamically typed value, as the interpreter hands it to a native method
/// and takes it back.
///
/// Floating-point payloads are carried as their IEEE 754 bit patterns, so that
/// a value can cross the boundary unchanged without the bridge ever doing
/// arithmetic on it. A dictionary is carried as its list of entries.
#[derive(Debug, PartialEq)]
pub enum Value {
    /// The interpreter's unit value.
    Nothing,
    Bool(bool),
    Str(String),
    /// Bit pattern of a single-precision float.
    F32(u32),
    I64(i64),
    U64(u64),
    /// Bit pattern of a double-precision float.
    F64(u64),
    U8(u8),
    Dict(Vec<(String, Value)>),
    List(Vec<Value>),
    Bytes(Vec<u8>),
}

/// The mathematical content of a [`Value`].
pub ghost enum ValueView {
    Nothing,
    Bool(bool),
    Str(Seq<char>),
    F32(u32),
    I64(i64),
    U64(u64),
    F64(u64),
    U8(u8),
    Dict(Seq<(Seq<char>, ValueView)>),
    List(Seq<ValueView>),
    Bytes(Seq<u8>),
}

/// The tag of a dynamic value: which variant it is, without its payload.
#[derive(Clone, Copy, Debug, PartialEq, Eq, Structural)]
pub enum Tag {
    Nothing,
    Bool,
    Str,
    F32,
    I64,
    U64,
    F64,
    U8,
    Dict,
    List,
    Bytes,
}

impl ValueView {
    /// The tag of the value.
    pub open spec fn tag(self) -> Tag {
        match self {
            ValueView::Nothing => Tag::Nothing,
            ValueView::Bool(_) => Tag::Bool,
            ValueView::Str(_) => Tag::Str,
            ValueView::F32(_) => Tag::F32,
            ValueView::I64(_) => Tag::I64,
            ValueView::U64(_) => Tag::U64,
            ValueView::F64(_) => Tag::F64,
            ValueView::U8(_) => Tag::U8,
            ValueView::Dict(_) => Tag::Dict,
            ValueView::List(_) => Tag::List,
            ValueView::Bytes(_) => Tag::Bytes,
        }
    }
}

impl View for Value {
    type V = ValueView;

    open spec fn view(&self) -> ValueView
        decreases self,
    {
        match self {
            Value::Nothing => ValueView::Nothing,
            Value::Bool(b) => ValueView::Bool(*b),
            Value::Str(s) => ValueView::Str(s@),
            Value::F32(bits) => ValueView::F32(*bits),
            Value::I64(i) => ValueView::I64(*i),
            Value::U64(u) => ValueView::U64(*u),
            Value::F64(bits) => ValueView::F64(*bits),
            Value::U8(u) => ValueView::U8(*u),
            Value::Dict(entries) => ValueView::Dict(
                Seq::new(
                    entries.len() as nat,
                    |i: int|
                        if 0 <= i < entries.len() {
                            (entries[i].0@, entries[i].1.view())
                        } else {
                            (Seq::empty(), ValueView::Nothing)
                        },
                ),
            ),
            Value::List(items) => ValueView::List(
                Seq::new(
                    items.len() as nat,
                    |i: int|
                        if 0 <= i < items.len() {
                            items[i].view()
                        } else {
                            ValueView::Nothing
                        },
                ),
            ),
            Value::Bytes(bytes) => ValueView::Bytes(bytes@),
        }
    }
}

/// The contents of a list of dynamic values.
pub open spec fn value_views(values: Seq<Value>) -> Seq<ValueView> {
    values.map_values(|v: Value| v@)
}

impl Value {
    /// The tag of this value.
    pub fn tag(&self) -> (t: Tag)
        ensures
            t == self@.tag(),
    {
        match self {
            Value::Nothing => Tag::Nothing,
            Value::Bool(_) => Tag::Bool,
            Value::Str(_) => Tag::Str,
            Value::F32(_) => Tag::F32,
            Value::I64(_) => Tag::I64,
            Value::U64(_) => Tag::U64,
            Value::F64(_) => Tag::F64,
            Value::U8(_) => Tag::U8,
            Value::Dict(_) => Tag::Dict,
            Value::List(_) => Tag::List,
            Value::Bytes(_) => Tag::Bytes,
        }
    }
}

impl Clone for Value {
    /// A deep copy: the copy has the same content as the value it is made
    /// from.
    fn clone(&self) -> (copy: Self)
        ensures
            copy@ == self@,
        decreases self,
    {
        match self {
            Value::Nothing => Value::Nothing,
            Value::Bool(b) => Value::Bool(*b),
            Value::Str(s) => Value::Str(s.clone()),
            Value::F32(bits) => Value::F32(*bits),
            Value::I64(i) => Value::I64(*i),
            Value::U64(u) => Value::U64(*u),
            Value::F64(bits) => Value::F64(*bits),
            Value::U8(u) => Value::U8(*u),
            Value::Dict(entries) => {
                let mut out: Vec<(String, Value)> = Vec::new();
                let mut i: usize = 0;
                while i < entries.len()
                    invariant
                        *self == Value::Dict(*entries),
                        i <= entries.len(),
                        out.len() == i,
                        forall|k: int|
                            0 <= k < i ==> out[k].0@ == entries[k].0@ && out[k].1@ == entries[k].1@,
                    decreases entries.len() - i,
                {
                    proof {
                        assert(decreases_to!(*self => self->Dict_0));
                        assert(decreases_to!(*entries => entries[i as int]));
                        assert(decreases_to!(entries[i as int] => entries[i as int].1));
                    }
                    let key = entries[i].0.clone();
                    let item = entries[i].1.clone();
                    out.push((key, item));
                    i += 1;
                }
                let copy = Value::Dict(out);
                assert(copy@->Dict_0 =~= self@->Dict_0);
                copy
            },
            Value::List(items) => {
                let mut out: Vec<Value> = Vec::new();
                let mut i: usize = 0;
                while i < items.len()
                    invariant
                        *self == Value::List(*items),
                        i <= items.len(),
                        out.len() == i,
                        forall|k: int| 0 <= k < i ==> out[k]@ == items[k]@,
                    decreases items.len() - i,
                {
                    proof {
                        assert(decreases_to!(*items => items[i as int]));
                        assert(decreases_to!(*self => self->List_0));
                    }
                    let item = items[i].clone();
                    out.push(item);
                    i += 1;
                }
                let copy = Value::List(out);
                assert(copy@->List_0 =~= self@->List_0);
                copy
            },
            Value::Bytes(bytes) => {
                let out = bytes.clone();
                assert(out@ =~= bytes@);
                Value::Bytes(out)
            },
        }
    }
}

} // verus!
