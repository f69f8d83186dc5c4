//! Native objects, handles, callable thunks and member resolution.

use std::rc::Rc;
use vstd::prelude::*;
use crate::binding::{bind_arguments, bind_error, bound_arguments, well_typed};
use crate::convert::{native_views, to_dynamic, to_dynamic_spec, NativeValue};
use crate::error::{BridgeError, ErrorView, NativeFailure};
use crate::table::{DispatchTable, Member, MethodDescriptor, MethodView, ReturnKind};
use crate::value::{value_views, Value, ValueView};

verus! {

/// The native side of an object: what runs when one of its methods is
/// called.
///
/// The bridge calls in only after it has checked the number of arguments and
/// converted each of them: an implementation receives one native value for
/// each parameter of `method`, of the parameter's type. `slot` is the
/// position of `method` in the dispatch table of the receiver's type.
pub trait NativeMethods: Sized {
    /// Runs a method that returns nothing or a plain native value. For a
    /// method that declares no return type the value handed back is ignored.
    fn call_value(
        &self,
        slot: usize,
        method: &MethodDescriptor,
        args: Vec<NativeValue>,
    ) -> Result<NativeValue, NativeFailure>
        requires
            method@.returns != ReturnKind::Object,
            well_typed(method@.params, native_views(args@)),
    ;

    /// Runs a method that returns a new native object.
    fn call_object(
        &self,
        slot: usize,
        method: &MethodDescriptor,
        args: Vec<NativeValue>,
    ) -> Result<NativeObject<Self>, NativeFailure>
        requires
            method@.returns == ReturnKind::Object,
            well_typed(method@.params, native_views(args@)),
    ;
}

/// A native object as the interpreter sees it: an instance of a native type
/// together with the dispatch table of that type.
#[derive(Debug)]
pub struct NativeObject<N> {
    pub table: Rc<DispatchTable>,
    pub instance: N,
}

/// The result of a member lookup or of a call.
#[derive(Debug)]
pub enum Handle<N> {
    /// A dynamic value.
    Value(Value),
    /// A native object, shared with whoever else refers to it.
    Object(Rc<NativeObject<N>>),
    /// A method bound to its receiver, ready to be called.
    Callable(Thunk<N>),
}

/// One native method bound to one receiver.
///
/// A thunk shares ownership of its receiver, so the receiver lives at least
/// as long as the thunk does.
#[derive(Debug)]
pub struct Thunk<N> {
    receiver: Rc<NativeObject<N>>,
    slot: usize,
}

/// The mathematical content of a [`Handle`].
pub ghost enum HandleView<N> {
    Value(ValueView),
    Object(Rc<NativeObject<N>>),
    Callable { receiver: Rc<NativeObject<N>>, slot: usize },
}

impl<N> View for Handle<N> {
    type V = HandleView<N>;

    open spec fn view(&self) -> HandleView<N> {
        match self {
            Handle::Value(value) => HandleView::Value(value@),
            Handle::Object(object) => HandleView::Object(*object),
            Handle::Callable(thunk) => HandleView::Callable {
                receiver: thunk.receiver(),
                slot: thunk.slot(),
            },
        }
    }
}

/// The content of the outcome of a lookup or of a call.
pub open spec fn outcome_view<N>(r: Result<Handle<N>, BridgeError>) -> Result<
    HandleView<N>,
    ErrorView,
> {
    match r {
        Ok(handle) => Ok(handle@),
        Err(e) => Err(e@),
    }
}

/// What resolving the member `name` of `receiver` yields: a thunk bound to
/// `receiver` for a method, the constant's value for a constant, and an
/// error that names the type and the member for any other name.
pub open spec fn resolve_spec<N>(receiver: Rc<NativeObject<N>>, name: Seq<char>) -> Result<
    HandleView<N>,
    ErrorView,
> {
    match receiver.table@.lookup(name) {
        Member::Method(slot) => Ok(HandleView::Callable { receiver, slot }),
        Member::Constant(index) => Ok(
            HandleView::Value(receiver.table@.constants[index as int].value),
        ),
        Member::Missing => Err(
            ErrorView::NoSuchMember { owner: receiver.table@.owner, member: name },
        ),
    }
}

/// Whether `r` is what a call yields for a method of kind `kind` that
/// returns nothing or a plain value, given what the native method handed
/// back: the unit value for a method that declares no return type, else the
/// dynamic value that stands for the native value; a failure of the native
/// method is passed on unchanged.
pub open spec fn value_result<N>(
    kind: ReturnKind,
    outcome: Result<NativeValue, NativeFailure>,
    r: Result<Handle<N>, BridgeError>,
) -> bool {
    match outcome {
        Err(failure) => r == Err::<Handle<N>, BridgeError>(BridgeError::Native(failure)),
        Ok(native) => r matches Ok(Handle::Value(value)) && value@ == (if kind
            == ReturnKind::Unit {
            ValueView::Nothing
        } else {
            to_dynamic_spec(native@)
        }),
    }
}

/// Whether `r` is what a call yields for a method that returns a new native
/// object, given what the native method handed back: that object, under
/// shared ownership; a failure of the native method is passed on unchanged.
pub open spec fn object_result<N>(
    outcome: Result<NativeObject<N>, NativeFailure>,
    r: Result<Handle<N>, BridgeError>,
) -> bool {
    match outcome {
        Err(failure) => r == Err::<Handle<N>, BridgeError>(BridgeError::Native(failure)),
        Ok(object) => r matches Ok(Handle::Object(shared)) && *shared == object,
    }
}

impl<N> NativeObject<N> {
    /// A native object from an instance and the dispatch table of its type.
    pub fn new(table: Rc<DispatchTable>, instance: N) -> (object: Self)
        ensures
            object.table == table,
            object.instance == instance,
    {
        NativeObject { table, instance }
    }
}

impl<N> Thunk<N> {
    #[verifier::type_invariant]
    spec fn inv(&self) -> bool {
        self.slot < self.receiver.table@.methods.len()
    }

    /// The object that the method is bound to.
    pub closed spec fn receiver(&self) -> Rc<NativeObject<N>> {
        self.receiver
    }

    /// The slot of the method in the dispatch table of the receiver's type.
    pub closed spec fn slot(&self) -> usize {
        self.slot
    }

    /// The method that the thunk calls.
    pub open spec fn method(&self) -> MethodView {
        self.receiver().table@.methods[self.slot() as int]
    }

    /// The descriptor of the method that the thunk calls, as the dispatch
    /// table holds it.
    pub open spec fn descriptor_spec(&self) -> MethodDescriptor {
        self.receiver().table.descriptor(self.slot() as int)
    }

    /// The descriptor of the method that the thunk calls.
    pub fn descriptor(&self) -> (method: &MethodDescriptor)
        ensures
            self.slot() < self.receiver().table@.methods.len(),
            *method == self.descriptor_spec(),
            method@ == self.method(),
    {
        proof {
            use_type_invariant(self);
        }
        self.receiver.table.method_at(self.slot)
    }

    /// The object that the method is bound to.
    pub fn bound_receiver(&self) -> (receiver: &Rc<NativeObject<N>>)
        ensures
            *receiver == self.receiver(),
    {
        &self.receiver
    }
}

/// Turns what a native method handed back into the handle that the call
/// yields, for a method that returns nothing or a plain value.
///
/// A method that declares no return type yields the unit value, whatever
/// the native code handed back. Otherwise the native value is converted to a
/// dynamic value. A failure of the native method is passed on unchanged.
pub fn finish_value<N>(kind: ReturnKind, outcome: Result<NativeValue, NativeFailure>) -> (r: Result<
    Handle<N>,
    BridgeError,
>)
    ensures
        value_result(kind, outcome, r),
        kind == ReturnKind::Unit && outcome is Ok ==> r matches Ok(Handle::Value(Value::Nothing)),
{
    match outcome {
        Err(failure) => Err(BridgeError::Native(failure)),
        Ok(native) => match kind {
            ReturnKind::Unit => Ok(Handle::Value(Value::Nothing)),
            _ => Ok(Handle::Value(to_dynamic(native))),
        },
    }
}

/// Turns what a native method handed back into the handle that the call
/// yields, for a method that returns a new native object.
///
/// The object is put under shared ownership as it is. From here on it is a
/// native object like any other: nothing records where it came from. A
/// failure of the native method is passed on unchanged.
pub fn finish_object<N>(outcome: Result<NativeObject<N>, NativeFailure>) -> (r: Result<
    Handle<N>,
    BridgeError,
>)
    ensures
        object_result(outcome, r),
{
    match outcome {
        Err(failure) => Err(BridgeError::Native(failure)),
        Ok(object) => Ok(Handle::Object(Rc::new(object))),
    }
}

impl<N: NativeMethods> Thunk<N> {
    /// Whether `r` can be the result of a call that got past the binding of
    /// its arguments: the native method, run on the receiver with exactly
    /// the bound arguments, handed something back, and `r` is what
    /// [`finish_value`] or [`finish_object`] makes of it.
    pub open spec fn completes(&self, args: Seq<ValueView>, r: Result<Handle<N>, BridgeError>) -> bool {
        exists|bound: Vec<NativeValue>|
            {
                &&& native_views(bound@) == bound_arguments(self.method().params, args)
                &&& if self.method().returns == ReturnKind::Object {
                    exists|outcome: Result<NativeObject<N>, NativeFailure>|
                        {
                            &&& call_ensures(
                                N::call_object,
                                (&self.receiver().instance, self.slot(), &self.descriptor_spec(), bound),
                                outcome,
                            )
                            &&& object_result(outcome, r)
                        }
                } else {
                    exists|outcome: Result<NativeValue, NativeFailure>|
                        {
                            &&& call_ensures(
                                N::call_value,
                                (&self.receiver().instance, self.slot(), &self.descriptor_spec(), bound),
                                outcome,
                            )
                            &&& value_result(self.method().returns, outcome, r)
                        }
                }
            }
    }

    /// Calls the method on its receiver with the given arguments.
    ///
    /// The arguments are bound first, as [`bind_arguments`] says: a wrong
    /// number of arguments or an argument of the wrong type fails the call
    /// before any native code runs. Then the native method runs on the bound
    /// arguments, and what it hands back becomes the result as
    /// [`finish_value`] and [`finish_object`] say. Whatever the native
    /// method does, a method that declares no return type yields the unit
    /// value, one that returns a plain value yields a value, and one that
    /// returns an object yields an object, unless the native method itself
    /// fails.
    pub fn invoke(&self, args: Vec<Value>) -> (r: Result<Handle<N>, BridgeError>)
        ensures
            args.len() != self.method().arity() ==> r == Err::<Handle<N>, BridgeError>(
                BridgeError::ArityMismatch { arity: self.method().arity() as usize, given: args.len() },
            ),
            match bind_error(self.method().params, value_views(args@)) {
                Some(e) => r matches Err(err) && err@ == e,
                None => self.completes(value_views(args@), r),
            },
            bind_error(self.method().params, value_views(args@)) is None ==> match self.method().returns {
                ReturnKind::Unit => r matches Err(BridgeError::Native(_)) || r matches Ok(
                    Handle::Value(Value::Nothing),
                ),
                ReturnKind::Value => r matches Err(BridgeError::Native(_)) || r matches Ok(
                    Handle::Value(_),
                ),
                ReturnKind::Object => r matches Err(BridgeError::Native(_)) || r matches Ok(
                    Handle::Object(_),
                ),
            },
    {
        let method = self.descriptor();
        let bound = match bind_arguments(&method.params, args) {
            Ok(bound) => bound,
            Err(e) => {
                return Err(e);
            },
        };
        match method.returns {
            ReturnKind::Object => {
                let outcome = self.receiver.instance.call_object(self.slot, method, bound);
                finish_object(outcome)
            },
            kind => {
                let outcome = self.receiver.instance.call_value(self.slot, method, bound);
                finish_value(kind, outcome)
            },
        }
    }
}

/// Resolves a member of a native object by name.
///
/// A method's name yields a thunk for that method, bound to `receiver`; a
/// constant's name yields the constant's value, which is the same for every
/// instance of the type; any other name fails, and the error names the type
/// and the member that was asked for.
pub fn resolve<N>(receiver: &Rc<NativeObject<N>>, member_name: &str) -> (r: Result<
    Handle<N>,
    BridgeError,
>)
    ensures
        receiver.table@.wf(),
        outcome_view(r) == resolve_spec(*receiver, member_name@),
        r is Ok <==> receiver.table@.has_member(member_name@),
        r matches Ok(Handle::Callable(thunk)) ==> thunk.method().name == member_name@,
{
    match receiver.table.lookup(member_name) {
        Member::Method(slot) => Ok(Handle::Callable(Thunk { receiver: receiver.clone(), slot })),
        Member::Constant(index) => Ok(
            Handle::Value(receiver.table.constant_at(index).value.clone()),
        ),
        Member::Missing => Err(
            BridgeError::NoSuchMember {
                owner: receiver.table.owner().clone(),
                member: member_name.to_owned(),
            },
        ),
    }
}

} // verus!
