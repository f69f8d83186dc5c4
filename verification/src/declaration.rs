//! From the declaration of a native type's members to its dispatch table.
//!
//! A declaration is an `impl` block, described in plain values: the name of
//! the type and, for each item, what the bridge needs to know of it. From it
//! [`cow_module`] derives the entries of the dispatch table and, for each
//! method, what else is generated for it.

use vstd::prelude::*;
use vstd::string::StringExecFns;
use crate::convert::NativeType;
use crate::literal::{literal_value, Literal, LiteralView};
use crate::signature::{attribute_views, has_marker, input_views, inputs_fault, is_marker};
use crate::signature::{lemma_filter_step, parameter_names, parameter_types, read_inputs};
use crate::signature::{scan_attributes, string_views, Attribute, Input, InputView};
use crate::table::{constant_views, method_views, ReturnKind};
use crate::table::{ConstantDescriptor, ConstantView, MethodDescriptor, MethodView};

verus! {

/// What keeps an item of a declaration from being bridged.
#[derive(Clone, Copy, Debug, PartialEq, Eq, Structural)]
pub enum Fault {
    /// The item is neither a method nor a constant.
    UnsupportedItem,
    /// The pattern of the method's input at this position is not a plain
    /// identifier.
    UnsupportedPattern { input: usize },
    /// The type of the method's input at this position is not one that can
    /// cross the boundary.
    UnsupportedType { input: usize },
    /// The type that the method returns as a plain value is not one that
    /// can cross the boundary.
    UnsupportedReturnType,
    /// The constant is not initialised by a literal.
    UnsupportedExpression,
    /// The constant is initialised by a literal that has no dynamic value.
    UnsupportedLiteral,
}

/// A method of the declaration.
#[derive(Debug)]
pub struct MethodItem {
    pub name: String,
    pub attrs: Vec<Attribute>,
    pub inputs: Vec<Input>,
    /// The name of the return type, where the method declares one.
    pub output: Option<String>,
}

/// A constant of the declaration.
#[derive(Debug)]
pub struct ConstItem {
    pub name: String,
    /// The literal that initialises the constant, where its initialiser is
    /// one.
    pub literal: Option<Literal>,
}

/// An item of the declaration.
#[derive(Debug)]
pub enum ImplItem {
    Method(MethodItem),
    Const(ConstItem),
    /// Any other kind of item.
    Other,
}

/// The declaration of the members of one native type.
#[derive(Debug)]
pub struct ImplBlock {
    /// The name of the type where the block's self type is a plain
    /// identifier.
    pub self_ty: Option<String>,
    pub items: Vec<ImplItem>,
}

/// What is generated for one method besides its entry in the dispatch table.
#[derive(Debug)]
pub struct MethodPlan {
    /// The name under which the method's own body is kept.
    pub internal_name: String,
    /// The names of the method's parameters, in order.
    pub bindings: Vec<String>,
    /// The native type of the result, where the method returns a plain
    /// value.
    pub result: Option<NativeType>,
    /// For each attribute of the method, whether it stays on the method.
    pub keep_attrs: Vec<bool>,
}

/// What is derived from a declaration: the name of the type, the entries of
/// its methods and of its constants, and one plan for each method, in the
/// order of the methods' entries.
///
/// The entries are not yet a dispatch table: a declaration may hold several
/// variants of one member, of which the build keeps one. Once that choice is
/// made, [`DispatchTable::new`](crate::table::DispatchTable::new) makes the
/// table and refuses what is left of members that share a name.
#[derive(Debug)]
pub struct ModulePlan {
    pub owner: String,
    pub methods: Vec<MethodDescriptor>,
    pub plans: Vec<MethodPlan>,
    pub constants: Vec<ConstantDescriptor>,
}

/// Why a declaration cannot be bridged.
#[derive(Clone, Copy, Debug, PartialEq, Eq, Structural)]
pub enum DeclError {
    /// The block's self type is not a plain identifier.
    SelfType,
    /// The item at `index` cannot be bridged.
    Item { index: usize, fault: Fault },
}

/// The mathematical content of a [`MethodItem`].
pub ghost struct MethodItemView {
    pub name: Seq<char>,
    pub attrs: Seq<Seq<Seq<char>>>,
    pub inputs: Seq<InputView>,
    pub output: Option<Seq<char>>,
}

/// The mathematical content of a [`ConstItem`].
pub ghost struct ConstItemView {
    pub name: Seq<char>,
    pub literal: Option<LiteralView>,
}

/// The mathematical content of an [`ImplItem`].
pub ghost enum ImplItemView {
    Method(MethodItemView),
    Const(ConstItemView),
    Other,
}

/// The mathematical content of an [`ImplBlock`].
pub ghost struct ImplBlockView {
    pub self_ty: Option<Seq<char>>,
    pub items: Seq<ImplItemView>,
}

/// The mathematical content of a [`MethodPlan`].
pub ghost struct MethodPlanView {
    pub internal_name: Seq<char>,
    pub bindings: Seq<Seq<char>>,
    pub result: Option<NativeType>,
    pub keep_attrs: Seq<bool>,
}

/// The mathematical content of a [`ModulePlan`].
pub ghost struct ModulePlanView {
    pub owner: Seq<char>,
    pub methods: Seq<MethodView>,
    pub plans: Seq<MethodPlanView>,
    pub constants: Seq<ConstantView>,
}

impl View for MethodItem {
    type V = MethodItemView;

    open spec fn view(&self) -> MethodItemView {
        MethodItemView {
            name: self.name@,
            attrs: attribute_views(self.attrs@),
            inputs: input_views(self.inputs@),
            output: match self.output {
                Some(name) => Some(name@),
                None => None,
            },
        }
    }
}

impl View for ConstItem {
    type V = ConstItemView;

    open spec fn view(&self) -> ConstItemView {
        ConstItemView {
            name: self.name@,
            literal: match self.literal {
                Some(literal) => Some(literal@),
                None => None,
            },
        }
    }
}

impl View for ImplItem {
    type V = ImplItemView;

    open spec fn view(&self) -> ImplItemView {
        match self {
            ImplItem::Method(method) => ImplItemView::Method(method@),
            ImplItem::Const(constant) => ImplItemView::Const(constant@),
            ImplItem::Other => ImplItemView::Other,
        }
    }
}

/// The contents of a list of items.
pub open spec fn item_views(items: Seq<ImplItem>) -> Seq<ImplItemView> {
    items.map_values(|i: ImplItem| i@)
}

impl View for ImplBlock {
    type V = ImplBlockView;

    open spec fn view(&self) -> ImplBlockView {
        ImplBlockView {
            self_ty: match self.self_ty {
                Some(name) => Some(name@),
                None => None,
            },
            items: item_views(self.items@),
        }
    }
}

impl View for MethodPlan {
    type V = MethodPlanView;

    open spec fn view(&self) -> MethodPlanView {
        MethodPlanView {
            internal_name: self.internal_name@,
            bindings: string_views(self.bindings@),
            result: self.result,
            keep_attrs: self.keep_attrs@,
        }
    }
}

/// The contents of a list of plans.
pub open spec fn plan_views(plans: Seq<MethodPlan>) -> Seq<MethodPlanView> {
    plans.map_values(|p: MethodPlan| p@)
}

impl View for ModulePlan {
    type V = ModulePlanView;

    open spec fn view(&self) -> ModulePlanView {
        ModulePlanView {
            owner: self.owner@,
            methods: method_views(self.methods@),
            plans: plan_views(self.plans@),
            constants: constant_views(self.constants@),
        }
    }
}

impl MethodItemView {
    /// The kind of the method's result: nothing where it declares no return
    /// type, whether marked or not; else an object where it is marked, and a
    /// plain value where it is not.
    pub open spec fn return_kind(self) -> ReturnKind {
        if self.output is None {
            ReturnKind::Unit
        } else if has_marker(self.attrs) {
            ReturnKind::Object
        } else {
            ReturnKind::Value
        }
    }

    /// The native type of the method's result, where it returns a plain
    /// value of a type that can cross the boundary.
    pub open spec fn result_type(self) -> Option<NativeType> {
        if self.return_kind() == ReturnKind::Value {
            NativeType::named(self.output->Some_0)
        } else {
            None
        }
    }

    /// What keeps the method from being bridged, if anything. The return
    /// type is looked at first, then the inputs in order.
    pub open spec fn fault(self) -> Option<Fault> {
        if self.return_kind() == ReturnKind::Value && self.result_type() is None {
            Some(Fault::UnsupportedReturnType)
        } else {
            inputs_fault(self.inputs)
        }
    }

    /// The method's entry in the dispatch table.
    pub open spec fn descriptor(self) -> MethodView {
        MethodView {
            name: self.name,
            params: parameter_types(self.inputs),
            returns: self.return_kind(),
        }
    }

    /// What is generated for the method.
    pub open spec fn plan(self) -> MethodPlanView {
        MethodPlanView {
            internal_name: "_internal_"@ + self.name,
            bindings: parameter_names(self.inputs),
            result: self.result_type(),
            keep_attrs: self.attrs.map_values(|a: Seq<Seq<char>>| !is_marker(a)),
        }
    }
}

impl ConstItemView {
    /// What keeps the constant from being bridged, if anything: an
    /// initialiser that is not a literal, or a literal without a value.
    pub open spec fn fault(self) -> Option<Fault> {
        match self.literal {
            None => Some(Fault::UnsupportedExpression),
            Some(literal) => if literal.value() is None {
                Some(Fault::UnsupportedLiteral)
            } else {
                None
            },
        }
    }

    /// The constant's entry in the dispatch table.
    pub open spec fn descriptor(self) -> ConstantView {
        ConstantView { name: self.name, value: self.literal->Some_0.value()->Some_0 }
    }
}

impl ImplItemView {
    /// What keeps the item from being bridged, if anything.
    pub open spec fn fault(self) -> Option<Fault> {
        match self {
            ImplItemView::Method(method) => method.fault(),
            ImplItemView::Const(constant) => constant.fault(),
            ImplItemView::Other => Some(Fault::UnsupportedItem),
        }
    }
}

impl ImplBlockView {
    /// The entries of the declared methods, in order.
    pub open spec fn methods(self) -> Seq<MethodView> {
        self.items.filter(|i: ImplItemView| i is Method).map_values(
            |i: ImplItemView| i->Method_0.descriptor(),
        )
    }

    /// The plans of the declared methods, in order.
    pub open spec fn plans(self) -> Seq<MethodPlanView> {
        self.items.filter(|i: ImplItemView| i is Method).map_values(
            |i: ImplItemView| i->Method_0.plan(),
        )
    }

    /// The entries of the declared constants, in order.
    pub open spec fn constants(self) -> Seq<ConstantView> {
        self.items.filter(|i: ImplItemView| i is Const).map_values(
            |i: ImplItemView| i->Const_0.descriptor(),
        )
    }

    /// What is derived from the declaration.
    pub open spec fn plan(self) -> ModulePlanView {
        ModulePlanView {
            owner: self.self_ty->Some_0,
            methods: self.methods(),
            plans: self.plans(),
            constants: self.constants(),
        }
    }

    /// Whether every item can be bridged.
    pub open spec fn items_supported(self) -> bool {
        forall|k: int| 0 <= k < self.items.len() ==> (#[trigger] self.items[k]).fault() is None
    }

    /// Whether `k` is the index of the first item that cannot be bridged.
    pub open spec fn is_first_faulty(self, k: int) -> bool {
        &&& 0 <= k < self.items.len()
        &&& self.items[k].fault() is Some
        &&& forall|j: int| 0 <= j < k ==> (#[trigger] self.items[j]).fault() is None
    }

    /// Why the declaration cannot be bridged, if it cannot. The self type is
    /// looked at first, then the items in order.
    pub open spec fn error(self) -> Option<DeclError> {
        if self.self_ty is None {
            Some(DeclError::SelfType)
        } else if !self.items_supported() {
            let k = choose|k: int| self.is_first_faulty(k);
            Some(DeclError::Item { index: k as usize, fault: self.items[k].fault()->Some_0 })
        } else {
            None
        }
    }
}

/// Derives what is generated for one method: its entry in the dispatch table
/// and its plan. Fails where the method returns a plain value of a type that
/// cannot cross the boundary, and else on the first input that the bridge
/// cannot handle.
pub fn plan_method(method: MethodItem) -> (r: Result<(MethodDescriptor, MethodPlan), Fault>)
    ensures
        match r {
            Ok((descriptor, plan)) => {
                &&& method@.fault() is None
                &&& descriptor@ == method@.descriptor()
                &&& plan@ == method@.plan()
            },
            Err(fault) => method@.fault() == Some(fault),
        },
{
    let MethodItem { name, attrs, inputs, output } = method;
    let (marked, keep_attrs) = scan_attributes(&attrs);
    let (kind, result) = match output {
        None => (ReturnKind::Unit, None),
        Some(ty_name) => if marked {
            (ReturnKind::Object, None)
        } else {
            match NativeType::from_name(ty_name.as_str()) {
                Some(ty) => (ReturnKind::Value, Some(ty)),
                None => {
                    return Err(Fault::UnsupportedReturnType);
                },
            }
        },
    };
    let (types, bindings) = match read_inputs(inputs) {
        Ok(read) => read,
        Err(fault) => {
            return Err(fault);
        },
    };
    let internal_name = "_internal_".to_owned().concat(name.as_str());
    proof {
        assert(keep_attrs@ =~= attribute_views(attrs@).map_values(
            |a: Seq<Seq<char>>| !is_marker(a),
        ));
    }
    Ok(
        (
            MethodDescriptor::new(name, types, kind),
            MethodPlan { internal_name, bindings, result, keep_attrs },
        ),
    )
}

impl ImplBlockView {
    /// The declaration cut down to its first `n` items.
    pub open spec fn prefix(self, n: int) -> ImplBlockView {
        ImplBlockView { self_ty: self.self_ty, items: self.items.take(n) }
    }

    /// One more item adds its entry and its plan to those of the items
    /// before it, or adds nothing where it is not of that kind.
    proof fn lemma_prefix_step(self, n: int)
        requires
            0 <= n < self.items.len(),
        ensures
            self.prefix(n + 1).methods() == (if self.items[n] is Method {
                self.prefix(n).methods().push(self.items[n]->Method_0.descriptor())
            } else {
                self.prefix(n).methods()
            }),
            self.prefix(n + 1).plans() == (if self.items[n] is Method {
                self.prefix(n).plans().push(self.items[n]->Method_0.plan())
            } else {
                self.prefix(n).plans()
            }),
            self.prefix(n + 1).constants() == (if self.items[n] is Const {
                self.prefix(n).constants().push(self.items[n]->Const_0.descriptor())
            } else {
                self.prefix(n).constants()
            }),
    {
        lemma_filter_step(self.items, |i: ImplItemView| i is Method, n);
        lemma_filter_step(self.items, |i: ImplItemView| i is Const, n);
        assert(self.prefix(n + 1).methods() =~= (if self.items[n] is Method {
            self.prefix(n).methods().push(self.items[n]->Method_0.descriptor())
        } else {
            self.prefix(n).methods()
        }));
        assert(self.prefix(n + 1).plans() =~= (if self.items[n] is Method {
            self.prefix(n).plans().push(self.items[n]->Method_0.plan())
        } else {
            self.prefix(n).plans()
        }));
        assert(self.prefix(n + 1).constants() =~= (if self.items[n] is Const {
            self.prefix(n).constants().push(self.items[n]->Const_0.descriptor())
        } else {
            self.prefix(n).constants()
        }));
    }
}

/// Derives, from the declaration of a native type's members, the entries of
/// its dispatch table and the plan of each of its methods.
///
/// Each method of the declaration yields a method entry, in the order
/// declared: its arity is the number of its parameters, the receiver left
/// out, and its result is an object only where the method is marked and
/// declares a return type. Each constant yields a constant entry. The
/// declaration is refused where its self type is not a plain identifier and
/// where an item cannot be bridged; the first such item is reported.
pub fn cow_module(block: ImplBlock) -> (r: Result<ModulePlan, DeclError>)
    ensures
        match r {
            Ok(plan) => block@.error() is None && plan@ == block@.plan(),
            Err(e) => block@.error() == Some(e),
        },
{
    let ghost view = block@;
    let ImplBlock { self_ty, items } = block;
    let owner = match self_ty {
        Some(owner) => owner,
        None => {
            return Err(DeclError::SelfType);
        },
    };
    let mut methods: Vec<MethodDescriptor> = Vec::new();
    let mut plans: Vec<MethodPlan> = Vec::new();
    let mut constants: Vec<ConstantDescriptor> = Vec::new();
    let mut index: usize = 0;
    let total: usize = items.len();
    proof {
        reveal(Seq::filter);
        assert(view.prefix(0).items =~= Seq::empty());
        assert(view.prefix(0).methods() =~= Seq::empty());
        assert(view.prefix(0).plans() =~= Seq::empty());
        assert(view.prefix(0).constants() =~= Seq::empty());
        assert(method_views(methods@) =~= Seq::empty());
        assert(plan_views(plans@) =~= Seq::empty());
        assert(constant_views(constants@) =~= Seq::empty());
    }
    for item in it: items
        invariant
            it.seq() == items@,
            view == block@,
            view.items == item_views(items@),
            view.self_ty == Some(owner@),
            total == items@.len(),
            index == it.index(),
            forall|j: int| 0 <= j < index ==> (#[trigger] view.items[j]).fault() is None,
            method_views(methods@) == view.prefix(index as int).methods(),
            plan_views(plans@) == view.prefix(index as int).plans(),
            constant_views(constants@) == view.prefix(index as int).constants(),
    {
        proof {
            assert(index < total);
            assert(view.items[index as int] == item@);
            view.lemma_prefix_step(index as int);
        }
        match item {
            ImplItem::Method(method) => match plan_method(method) {
                Ok((descriptor, plan)) => {
                    proof {
                        assert(method_views(methods@.push(descriptor)) =~= method_views(
                            methods@,
                        ).push(descriptor@));
                        assert(plan_views(plans@.push(plan)) =~= plan_views(plans@).push(plan@));
                    }
                    methods.push(descriptor);
                    plans.push(plan);
                },
                Err(fault) => {
                    proof {
                        assert(view.is_first_faulty(index as int));
                    }
                    return Err(DeclError::Item { index, fault });
                },
            },
            ImplItem::Const(constant) => {
                let ConstItem { name, literal } = constant;
                let literal = match literal {
                    Some(literal) => literal,
                    None => {
                        proof {
                            assert(view.is_first_faulty(index as int));
                        }
                        return Err(
                            DeclError::Item { index, fault: Fault::UnsupportedExpression },
                        );
                    },
                };
                match literal_value(literal) {
                    Some(value) => {
                        let descriptor = ConstantDescriptor::new(name, value);
                        proof {
                            assert(constant_views(constants@.push(descriptor)) =~= constant_views(
                                constants@,
                            ).push(descriptor@));
                        }
                        constants.push(descriptor);
                    },
                    None => {
                        proof {
                            assert(view.is_first_faulty(index as int));
                        }
                        return Err(DeclError::Item { index, fault: Fault::UnsupportedLiteral });
                    },
                }
            },
            ImplItem::Other => {
                proof {
                    assert(view.is_first_faulty(index as int));
                }
                return Err(DeclError::Item { index, fault: Fault::UnsupportedItem });
            },
        }
        index += 1;
    }
    proof {
        assert(view.prefix(index as int).items =~= view.items);
        assert(view.items_supported());
    }
    Ok(ModulePlan { owner, methods, plans, constants })
}

} // verus!
