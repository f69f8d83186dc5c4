//! The attributes and the inputs of a declared method.

use vstd::prelude::*;
use crate::convert::NativeType;
use crate::declaration::Fault;

verus! {

/// An attribute on a method, by the segments of its path.
#[derive(Debug)]
pub struct Attribute {
    pub path: Vec<String>,
}

/// The contents of a list of strings.
pub open spec fn string_views(strings: Seq<String>) -> Seq<Seq<char>> {
    strings.map_values(|s: String| s@)
}

impl View for Attribute {
    type V = Seq<Seq<char>>;

    open spec fn view(&self) -> Seq<Seq<char>> {
        string_views(self.path@)
    }
}

/// The contents of a list of attributes.
pub open spec fn attribute_views(attrs: Seq<Attribute>) -> Seq<Seq<Seq<char>>> {
    attrs.map_values(|a: Attribute| a@)
}

/// Whether an attribute is the marker of a method that returns a new native
/// object: a path of the one segment `returns_object`.
pub open spec fn is_marker(path: Seq<Seq<char>>) -> bool {
    path.len() == 1 && path[0] == "returns_object"@
}

/// Whether one of the attributes is the marker.
pub open spec fn has_marker(attrs: Seq<Seq<Seq<char>>>) -> bool {
    exists|i: int| 0 <= i < attrs.len() && is_marker(#[trigger] attrs[i])
}

impl Attribute {
    /// Whether this attribute is the marker of a method that returns a new
    /// native object.
    pub fn is_marker(&self) -> (b: bool)
        ensures
            b == is_marker(self@),
    {
        self.path.len() == 1 && self.path[0] == "returns_object".to_owned()
    }
}

/// Goes through the attributes of a method: says whether the marker is among
/// them, and which attributes stay on the method, namely all but the marker.
pub fn scan_attributes(attrs: &Vec<Attribute>) -> (r: (bool, Vec<bool>))
    ensures
        r.0 == has_marker(attribute_views(attrs@)),
        r.1.len() == attrs.len(),
        forall|i: int| 0 <= i < attrs.len() ==> #[trigger] r.1[i] == !is_marker(attrs[i]@),
{
    let mut marked: bool = false;
    let mut keep: Vec<bool> = Vec::new();
    let mut i: usize = 0;
    while i < attrs.len()
        invariant
            i <= attrs.len(),
            keep.len() == i,
            forall|k: int| 0 <= k < i ==> #[trigger] keep[k] == !is_marker(attrs[k]@),
            marked == exists|k: int| 0 <= k < i && is_marker(#[trigger] attribute_views(attrs@)[k]),
        decreases attrs.len() - i,
    {
        let marker = attrs[i].is_marker();
        proof {
            assert(attribute_views(attrs@)[i as int] == attrs[i as int]@);
        }
        if marker {
            marked = true;
        }
        keep.push(!marker);
        i += 1;
    }
    (marked, keep)
}

/// One input of a method.
#[derive(Debug)]
pub enum Input {
    /// The receiver, `self` in any form. It is not a parameter.
    Receiver,
    /// A typed parameter: `binding` is its name where its pattern is a plain
    /// identifier, `ty_name` the name of its type.
    Typed { binding: Option<String>, ty_name: String },
}

/// The mathematical content of an [`Input`].
pub ghost enum InputView {
    Receiver,
    Typed { binding: Option<Seq<char>>, ty_name: Seq<char> },
}

impl View for Input {
    type V = InputView;

    open spec fn view(&self) -> InputView {
        match self {
            Input::Receiver => InputView::Receiver,
            Input::Typed { binding, ty_name } => InputView::Typed {
                binding: match binding {
                    Some(name) => Some(name@),
                    None => None,
                },
                ty_name: ty_name@,
            },
        }
    }
}

/// The contents of a list of inputs.
pub open spec fn input_views(inputs: Seq<Input>) -> Seq<InputView> {
    inputs.map_values(|i: Input| i@)
}

impl InputView {
    /// Whether the input is a parameter, not the receiver.
    pub open spec fn is_parameter(self) -> bool {
        self is Typed
    }

    /// Whether the bridge can handle the input: the receiver always, a
    /// parameter when it is bound by a plain identifier and its type can
    /// cross the boundary.
    pub open spec fn supported(self) -> bool {
        match self {
            InputView::Receiver => true,
            InputView::Typed { binding, ty_name } => binding is Some && NativeType::named(
                ty_name,
            ) is Some,
        }
    }

    /// What is wrong with an unsupported input at position `position`: the
    /// pattern is looked at before the type.
    pub open spec fn fault(self, position: usize) -> Fault {
        if self->binding is None {
            Fault::UnsupportedPattern { input: position }
        } else {
            Fault::UnsupportedType { input: position }
        }
    }
}

/// The parameters among the inputs, in order.
pub open spec fn parameters(inputs: Seq<InputView>) -> Seq<InputView> {
    inputs.filter(|i: InputView| i.is_parameter())
}

/// The native types of the parameters, in order.
pub open spec fn parameter_types(inputs: Seq<InputView>) -> Seq<NativeType> {
    parameters(inputs).map_values(|i: InputView| NativeType::named(i->ty_name)->Some_0)
}

/// The names of the parameters, in order.
pub open spec fn parameter_names(inputs: Seq<InputView>) -> Seq<Seq<char>> {
    parameters(inputs).map_values(|i: InputView| i->binding->Some_0)
}

/// Whether `p` is the position of the first unsupported input.
pub open spec fn is_first_unsupported(inputs: Seq<InputView>, p: int) -> bool {
    &&& 0 <= p < inputs.len()
    &&& !inputs[p].supported()
    &&& forall|k: int| 0 <= k < p ==> (#[trigger] inputs[k]).supported()
}

/// What is wrong with the inputs of a method, if anything: the fault of the
/// first unsupported input.
pub open spec fn inputs_fault(inputs: Seq<InputView>) -> Option<Fault> {
    if forall|i: int| 0 <= i < inputs.len() ==> (#[trigger] inputs[i]).supported() {
        None
    } else {
        let p = choose|p: int| is_first_unsupported(inputs, p);
        Some(inputs[p].fault(p as usize))
    }
}

/// Extending a prefix by one element extends what a filter keeps of it by
/// that element, or by nothing.
pub(crate) proof fn lemma_filter_step<A>(s: Seq<A>, pred: spec_fn(A) -> bool, i: int)
    requires
        0 <= i < s.len(),
    ensures
        s.take(i + 1).filter(pred) == if pred(s[i]) {
            s.take(i).filter(pred).push(s[i])
        } else {
            s.take(i).filter(pred)
        },
{
    reveal(Seq::filter);
    assert(s.take(i + 1).drop_last() =~= s.take(i));
}

/// Reads the inputs of a method: the types and the names of its parameters,
/// in order, the receiver left out. Fails on the first input that the bridge
/// cannot handle.
pub fn read_inputs(inputs: Vec<Input>) -> (r: Result<(Vec<NativeType>, Vec<String>), Fault>)
    ensures
        match r {
            Ok((types, names)) => {
                &&& inputs_fault(input_views(inputs@)) is None
                &&& types@ == parameter_types(input_views(inputs@))
                &&& string_views(names@) == parameter_names(input_views(inputs@))
            },
            Err(fault) => inputs_fault(input_views(inputs@)) == Some(fault),
        },
{
    let ghost views = input_views(inputs@);
    let mut types: Vec<NativeType> = Vec::new();
    let mut names: Vec<String> = Vec::new();
    let mut position: usize = 0;
    let total: usize = inputs.len();
    proof {
        reveal(Seq::filter);
        assert(views.take(0) =~= Seq::empty());
        assert(parameter_types(views.take(0)) =~= Seq::empty());
        assert(parameter_names(views.take(0)) =~= Seq::empty());
    }
    for input in it: inputs
        invariant
            it.seq() == inputs@,
            views == input_views(inputs@),
            total == inputs@.len(),
            position == it.index(),
            forall|k: int| 0 <= k < position ==> (#[trigger] views[k]).supported(),
            types@ == parameter_types(views.take(position as int)),
            string_views(names@) == parameter_names(views.take(position as int)),
    {
        proof {
            assert(position < total);
            assert(views[position as int] == input@);
            lemma_filter_step(views, |i: InputView| i.is_parameter(), position as int);
        }
        match input {
            Input::Receiver => {},
            Input::Typed { binding, ty_name } => {
                let name = match binding {
                    Some(name) => name,
                    None => {
                        proof {
                            assert(is_first_unsupported(views, position as int));
                        }
                        return Err(Fault::UnsupportedPattern { input: position });
                    },
                };
                let ty = match NativeType::from_name(ty_name.as_str()) {
                    Some(ty) => ty,
                    None => {
                        proof {
                            assert(is_first_unsupported(views, position as int));
                        }
                        return Err(Fault::UnsupportedType { input: position });
                    },
                };
                proof {
                    let before = parameters(views.take(position as int));
                    let now = parameters(views.take(position + 1));
                    assert(now == before.push(views[position as int]));
                    assert(parameter_types(views.take(position + 1)) =~= types@.push(ty));
                    assert(parameter_names(views.take(position + 1)) =~= string_views(names@).push(
                        name@,
                    ));
                    assert(string_views(names@.push(name)) =~= string_views(names@).push(name@));
                }
                types.push(ty);
                names.push(name);
            },
        }
        position += 1;
    }
    proof {
        assert(views.take(position as int) =~= views);
    }
    Ok((types, names))
}

} // verus!
