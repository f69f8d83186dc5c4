//! Laws that relate lookups, calls and the objects that calls hand back.

use std::rc::Rc;
use vstd::prelude::*;
use crate::binding::{all_match, bind_error, bound_arguments, well_typed};
use crate::bridge::{object_result, resolve_spec, value_result};
use crate::bridge::{Handle, HandleView, NativeObject};
use crate::convert::{from_dynamic_spec, NativeType, NativeValue};
use crate::error::{BridgeError, ErrorView};
use crate::table::ReturnKind;
use crate::value::ValueView;

verus! {

/// A name that the receiver's type does not declare never resolves: the
/// lookup fails, and the error names the type and the member asked for.
pub proof fn lemma_unknown_member_fails<N>(receiver: Rc<NativeObject<N>>, name: Seq<char>)
    requires
        !receiver.table@.has_member(name),
    ensures
        resolve_spec(receiver, name) == Err::<HandleView<N>, ErrorView>(
            ErrorView::NoSuchMember { owner: receiver.table@.owner, member: name },
        ),
{
}

/// A name that the receiver's type declares always resolves: a method's name
/// to a thunk for that method bound to the receiver, a constant's name to the
/// constant's value.
pub proof fn lemma_member_resolves<N>(receiver: Rc<NativeObject<N>>, name: Seq<char>)
    requires
        receiver.table@.wf(),
        receiver.table@.has_member(name),
    ensures
        receiver.table@.has_method(name) ==> resolve_spec(receiver, name) == Ok::<
            HandleView<N>,
            ErrorView,
        >(
            HandleView::Callable {
                receiver,
                slot: receiver.table@.method_slot(name) as usize,
            },
        ),
        receiver.table@.has_constant(name) ==> resolve_spec(receiver, name) == Ok::<
            HandleView<N>,
            ErrorView,
        >(
            HandleView::Value(
                receiver.table@.constants[receiver.table@.constant_index(name)].value,
            ),
        ),
{
    let table = receiver.table@;
    if table.has_method(name) {
        table.lemma_method_found(name, table.method_slot(name));
    } else {
        table.lemma_constant_found(name, table.constant_index(name));
    }
}

/// A call with a number of arguments other than the method's arity fails
/// with an arity mismatch, whatever the arity is and whatever the arguments
/// are.
pub proof fn lemma_wrong_arity_fails(params: Seq<NativeType>, args: Seq<ValueView>)
    requires
        args.len() != params.len(),
    ensures
        bind_error(params, args) == Some(
            ErrorView::ArityMismatch { arity: params.len() as usize, given: args.len() as usize },
        ),
{
}

/// Binding succeeds exactly when the number of arguments is the arity and
/// every argument carries the tag of its parameter's type; the bound values
/// are then of the parameters' types and convert back to the arguments.
pub proof fn lemma_binding_succeeds(params: Seq<NativeType>, args: Seq<ValueView>)
    ensures
        bind_error(params, args) is None <==> args.len() == params.len() && all_match(
            params,
            args,
        ),
        bind_error(params, args) is None ==> well_typed(params, bound_arguments(params, args)),
{
    if args.len() == params.len() && !all_match(params, args) {
        assert(bind_error(params, args) is Some);
    }
    if bind_error(params, args) is None {
        let bound = bound_arguments(params, args);
        assert forall|i: int| 0 <= i < bound.len() implies (#[trigger] bound[i]).type_of()
            == params[i] by {
            assert(params[i].matches_tag(args[i].tag()));
            assert(from_dynamic_spec(args[i], params[i]) is Ok);
        }
    }
}

/// A method that declares no return type yields the unit value whenever the
/// native code returns at all, whatever it hands back.
pub proof fn lemma_unit_method_yields_nothing<N>(
    handed_back: NativeValue,
    r: Result<Handle<N>, BridgeError>,
)
    requires
        value_result(ReturnKind::Unit, Ok(handed_back), r),
    ensures
        r matches Ok(Handle::Value(value)) && value@ == ValueView::Nothing,
{
}

/// An object that a call handed back resolves its members like any other
/// object: the lookup succeeds exactly for the names that the object's own
/// type declares, and a method resolves to a thunk bound to the new object
/// itself. Nothing depends on where the object came from: `registered` is
/// any reference to the same object, obtained in any other way, and every
/// lookup through it yields the same.
pub proof fn lemma_returned_object_resolves<N>(
    returned: NativeObject<N>,
    r: Result<Handle<N>, BridgeError>,
    registered: Rc<NativeObject<N>>,
    name: Seq<char>,
)
    requires
        returned.table@.wf(),
        object_result(Ok(returned), r),
        *registered == returned,
    ensures
        r matches Ok(Handle::Object(shared)) && {
            &&& resolve_spec(shared, name) == resolve_spec(registered, name)
            &&& resolve_spec(shared, name) is Ok <==> returned.table@.has_member(name)
            &&& returned.table@.has_method(name) ==> resolve_spec(shared, name) == Ok::<
                HandleView<N>,
                ErrorView,
            >(
                HandleView::Callable {
                    receiver: shared,
                    slot: returned.table@.method_slot(name) as usize,
                },
            )
        },
{
    let shared = r->Ok_0->Object_0;
    if returned.table@.has_member(name) {
        lemma_member_resolves(shared, name);
    }
}

/// A constant resolves to the same value through every instance of its
/// type, and so on every lookup: the value depends on the dispatch table and
/// the name alone, and no call can change either.
pub proof fn lemma_constant_is_fixed<N>(
    first: Rc<NativeObject<N>>,
    second: Rc<NativeObject<N>>,
    name: Seq<char>,
)
    requires
        first.table@.wf(),
        first.table@ == second.table@,
        first.table@.has_constant(name),
    ensures
        resolve_spec(first, name) == resolve_spec(second, name),
        resolve_spec(first, name) == Ok::<HandleView<N>, ErrorView>(
            HandleView::Value(first.table@.constants[first.table@.constant_index(name)].value),
        ),
{
    let table = first.table@;
    table.lemma_constant_found(name, table.constant_index(name));
}

} // verus!
