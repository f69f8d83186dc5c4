//! Binding the arguments of a call to the parameters of a method.

use vstd::prelude::*;
use crate::convert::{from_dynamic, from_dynamic_spec, native_views};
use crate::convert::{NativeType, NativeValue, NativeView};
use crate::error::{BridgeError, ErrorView, TypeMismatch};
use crate::value::{value_views, Value, ValueView};

verus! {

/// Whether every argument carries the tag of its parameter's type.
pub open spec fn all_match(params: Seq<NativeType>, args: Seq<ValueView>) -> bool {
    forall|i: int| 0 <= i < params.len() ==> (#[trigger] params[i]).matches_tag(args[i].tag())
}

/// Whether `p` is the first position whose argument does not carry the tag of
/// its parameter's type.
pub open spec fn is_first_mismatch(params: Seq<NativeType>, args: Seq<ValueView>, p: int) -> bool {
    &&& 0 <= p < params.len()
    &&& !params[p].matches_tag(args[p].tag())
    &&& forall|k: int| 0 <= k < p ==> (#[trigger] params[k]).matches_tag(args[k].tag())
}

/// The first position whose argument does not carry the tag of its
/// parameter's type, where there is one.
pub open spec fn first_mismatch(params: Seq<NativeType>, args: Seq<ValueView>) -> int {
    choose|p: int| is_first_mismatch(params, args, p)
}

/// The error, if any, with which binding `args` to `params` fails: the
/// number of arguments is checked first, then the arguments in order.
pub open spec fn bind_error(params: Seq<NativeType>, args: Seq<ValueView>) -> Option<ErrorView> {
    if args.len() != params.len() {
        Some(ErrorView::ArityMismatch { arity: params.len() as usize, given: args.len() as usize })
    } else if !all_match(params, args) {
        let p = first_mismatch(params, args);
        Some(
            ErrorView::TypeMismatch { position: p as usize, expected: params[p], found: args[p].tag() },
        )
    } else {
        None
    }
}

/// The native values that `args` bind to, where binding succeeds.
pub open spec fn bound_arguments(params: Seq<NativeType>, args: Seq<ValueView>) -> Seq<NativeView> {
    Seq::new(params.len(), |i: int| from_dynamic_spec(args[i], params[i])->Ok_0)
}

/// Whether `args` are native values of the types `params`, one for each
/// parameter, in order.
pub open spec fn well_typed(params: Seq<NativeType>, args: Seq<NativeView>) -> bool {
    &&& args.len() == params.len()
    &&& forall|i: int| 0 <= i < args.len() ==> (#[trigger] args[i]).type_of() == params[i]
}

/// Binds the arguments of a call to the parameters of a method.
///
/// The number of arguments must equal the number of parameters; no argument
/// is dropped and none is made up. Then each argument, in order, is converted
/// to its parameter's type, and the first that does not convert is reported
/// with its position.
pub fn bind_arguments(params: &Vec<NativeType>, args: Vec<Value>) -> (r: Result<
    Vec<NativeValue>,
    BridgeError,
>)
    ensures
        match r {
            Ok(bound) => bind_error(params@, value_views(args@)) is None && native_views(bound@)
                == bound_arguments(params@, value_views(args@)),
            Err(e) => bind_error(params@, value_views(args@)) == Some(e@),
        },
        args.len() != params.len() ==> r == Err::<Vec<NativeValue>, BridgeError>(
            BridgeError::ArityMismatch { arity: params.len(), given: args.len() },
        ),
        r matches Ok(bound) ==> well_typed(params@, native_views(bound@)),
{
    let ghost views = value_views(args@);
    if args.len() != params.len() {
        return Err(BridgeError::ArityMismatch { arity: params.len(), given: args.len() });
    }
    let mut bound: Vec<NativeValue> = Vec::new();
    for arg in it: args
        invariant
            it.seq() == args@,
            views == value_views(args@),
            args.len() == params.len(),
            bound.len() == it.index(),
            forall|k: int|
                0 <= k < it.index() ==> from_dynamic_spec(views[k], params[k]) == Ok::<
                    NativeView,
                    TypeMismatch,
                >((#[trigger] bound[k])@),
    {
        let ghost p = it.index() as int;
        let position: usize = bound.len();
        match from_dynamic(arg, params[position]) {
            Ok(native) => {
                bound.push(native);
            },
            Err(mismatch) => {
                proof {
                    assert(views[p] == arg@);
                    assert forall|k: int| 0 <= k < p implies (#[trigger] params[k]).matches_tag(
                        views[k].tag(),
                    ) by {
                        assert(from_dynamic_spec(views[k], params[k]) == Ok::<
                            NativeView,
                            TypeMismatch,
                        >(bound[k]@));
                    }
                    assert(is_first_mismatch(params@, views, p));
                    assert(first_mismatch(params@, views) == p);
                }
                return Err(
                    BridgeError::TypeMismatch {
                        position,
                        expected: mismatch.expected,
                        found: mismatch.found,
                    },
                );
            },
        }
    }
    proof {
        assert forall|i: int| 0 <= i < params.len() implies (#[trigger] params[i]).matches_tag(
            views[i].tag(),
        ) by {
            assert(from_dynamic_spec(views[i], params[i]) == Ok::<NativeView, TypeMismatch>(
                bound[i]@,
            ));
        }
        assert(native_views(bound@) =~= bound_arguments(params@, views));
    }
    Ok(bound)
}

} // verus!
