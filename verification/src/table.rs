//! Member descriptors and the per-type dispatch table.

use vstd::prelude::*;
use crate::convert::NativeType;
use crate::value::{Value, ValueView};

verus! {

/// What a native method hands back.
#[derive(Clone, Copy, Debug, PartialEq, Eq, Structural)]
pub enum ReturnKind {
    /// The method declares no return type.
    Unit,
    /// The method returns a native value that converts to a dynamic value.
    Value,
    /// The method returns a new native object.
    Object,
}

/// One native method: its name, the native types of its parameters (the
/// receiver is not counted) and the kind of its result.
#[derive(Debug)]
pub struct MethodDescriptor {
    pub name: String,
    pub params: Vec<NativeType>,
    pub returns: ReturnKind,
}

/// One constant: its name and its value, fixed for the lifetime of the type.
#[derive(Debug)]
pub struct ConstantDescriptor {
    pub name: String,
    pub value: Value,
}

/// The mathematical content of a [`MethodDescriptor`].
pub ghost struct MethodView {
    pub name: Seq<char>,
    pub params: Seq<NativeType>,
    pub returns: ReturnKind,
}

/// The mathematical content of a [`ConstantDescriptor`].
pub ghost struct ConstantView {
    pub name: Seq<char>,
    pub value: ValueView,
}

impl MethodView {
    /// The number of arguments that a call must supply.
    pub open spec fn arity(self) -> nat {
        self.params.len()
    }
}

impl View for MethodDescriptor {
    type V = MethodView;

    open spec fn view(&self) -> MethodView {
        MethodView { name: self.name@, params: self.params@, returns: self.returns }
    }
}

impl View for ConstantDescriptor {
    type V = ConstantView;

    open spec fn view(&self) -> ConstantView {
        ConstantView { name: self.name@, value: self.value@ }
    }
}

impl MethodDescriptor {
    /// The descriptor of the method `name` with parameters of the types
    /// `params` and a result of the kind `returns`.
    pub fn new(name: String, params: Vec<NativeType>, returns: ReturnKind) -> (m: Self)
        ensures
            m@ == (MethodView { name: name@, params: params@, returns }),
    {
        MethodDescriptor { name, params, returns }
    }

    /// The number of arguments that a call must supply.
    pub fn arity(&self) -> (k: usize)
        ensures
            k == self@.arity(),
    {
        self.params.len()
    }
}

impl ConstantDescriptor {
    /// The descriptor of the constant `name` with the value `value`.
    pub fn new(name: String, value: Value) -> (c: Self)
        ensures
            c@ == (ConstantView { name: name@, value: value@ }),
    {
        ConstantDescriptor { name, value }
    }
}

/// The outcome of looking a member name up in a dispatch table.
#[derive(Clone, Copy, Debug, PartialEq, Eq, Structural)]
pub enum Member {
    /// The name is that of the method in this slot.
    Method(usize),
    /// The name is that of the constant at this index.
    Constant(usize),
    /// The type has no member of that name.
    Missing,
}

/// The mathematical content of a [`DispatchTable`].
pub ghost struct TableView {
    pub owner: Seq<char>,
    pub methods: Seq<MethodView>,
    pub constants: Seq<ConstantView>,
}

/// The names of the members of a type: its methods' names, then its
/// constants'.
pub open spec fn names_of(methods: Seq<MethodView>, constants: Seq<ConstantView>) -> Seq<Seq<char>> {
    methods.map_values(|m: MethodView| m.name) + constants.map_values(|c: ConstantView| c.name)
}

impl TableView {
    /// The names of all members: the methods' names, then the constants'.
    pub open spec fn member_names(self) -> Seq<Seq<char>> {
        names_of(self.methods, self.constants)
    }

    /// No two members share a name, be they methods or constants, and the
    /// members can be counted in a machine word.
    pub open spec fn wf(self) -> bool {
        &&& self.member_names().no_duplicates()
        &&& self.methods.len() <= usize::MAX
        &&& self.constants.len() <= usize::MAX
    }

    /// Whether the type has a method of that name.
    pub open spec fn has_method(self, name: Seq<char>) -> bool {
        exists|i: int| 0 <= i < self.methods.len() && #[trigger] self.methods[i].name == name
    }

    /// Whether the type has a constant of that name.
    pub open spec fn has_constant(self, name: Seq<char>) -> bool {
        exists|j: int| 0 <= j < self.constants.len() && #[trigger] self.constants[j].name == name
    }

    /// Whether the type has a member of that name.
    pub open spec fn has_member(self, name: Seq<char>) -> bool {
        self.has_method(name) || self.has_constant(name)
    }

    /// The slot of the method named `name`, where there is one.
    pub open spec fn method_slot(self, name: Seq<char>) -> int {
        choose|i: int| 0 <= i < self.methods.len() && #[trigger] self.methods[i].name == name
    }

    /// The index of the constant named `name`, where there is one.
    pub open spec fn constant_index(self, name: Seq<char>) -> int {
        choose|j: int| 0 <= j < self.constants.len() && #[trigger] self.constants[j].name == name
    }

    /// The table as a total function from names to members. Methods are
    /// looked at before constants.
    pub open spec fn lookup(self, name: Seq<char>) -> Member {
        if self.has_method(name) {
            Member::Method(self.method_slot(name) as usize)
        } else if self.has_constant(name) {
            Member::Constant(self.constant_index(name) as usize)
        } else {
            Member::Missing
        }
    }

    /// Whether `b` is the first position of `names` that repeats an earlier
    /// name.
    pub open spec fn first_repeat(names: Seq<Seq<char>>, b: int) -> bool {
        &&& 0 <= b < names.len()
        &&& forall|x: int, y: int| 0 <= x < y < b ==> names[x] != names[y]
        &&& exists|a: int| 0 <= a < b && names[a] == names[b]
    }

    /// In a well-formed table a method's name determines its slot, and no
    /// other member answers to it.
    pub proof fn lemma_method_found(self, name: Seq<char>, i: int)
        requires
            self.wf(),
            0 <= i < self.methods.len(),
            self.methods[i].name == name,
        ensures
            self.has_method(name),
            !self.has_constant(name),
            self.method_slot(name) == i,
            self.lookup(name) == Member::Method(i as usize),
    {
        let names = self.member_names();
        let k = self.method_slot(name);
        assert(names[i] == name);
        assert(names[k] == name);
        assert forall|j: int| 0 <= j < self.constants.len() implies #[trigger] self.constants[j].name
            != name by {
            assert(names[self.methods.len() + j] == self.constants[j].name);
        }
    }

    /// In a well-formed table a constant's name determines its index, and no
    /// method answers to it.
    pub proof fn lemma_constant_found(self, name: Seq<char>, j: int)
        requires
            self.wf(),
            0 <= j < self.constants.len(),
            self.constants[j].name == name,
        ensures
            !self.has_method(name),
            self.has_constant(name),
            self.constant_index(name) == j,
            self.lookup(name) == Member::Constant(j as usize),
    {
        let names = self.member_names();
        let k = self.constant_index(name);
        assert(names[self.methods.len() + j] == name);
        assert(names[self.methods.len() + k] == name);
        assert forall|i: int| 0 <= i < self.methods.len() implies #[trigger] self.methods[i].name
            != name by {
            assert(names[i] == self.methods[i].name);
        }
    }
}

/// A name was declared twice within one type.
#[derive(Debug)]
pub struct DuplicateMember {
    pub name: String,
}

/// The dispatch table of one native type: its methods and its constants, by
/// name. No two members share a name.
#[derive(Debug)]
pub struct DispatchTable {
    owner: String,
    methods: Vec<MethodDescriptor>,
    constants: Vec<ConstantDescriptor>,
}

/// The views of a list of method descriptors.
pub open spec fn method_views(methods: Seq<MethodDescriptor>) -> Seq<MethodView> {
    methods.map_values(|m: MethodDescriptor| m@)
}

/// The views of a list of constant descriptors.
pub open spec fn constant_views(constants: Seq<ConstantDescriptor>) -> Seq<ConstantView> {
    constants.map_values(|c: ConstantDescriptor| c@)
}

impl View for DispatchTable {
    type V = TableView;

    closed spec fn view(&self) -> TableView {
        TableView {
            owner: self.owner@,
            methods: method_views(self.methods@),
            constants: constant_views(self.constants@),
        }
    }
}

/// The first of the slots below `upto` whose method is named `key`.
fn method_named(methods: &Vec<MethodDescriptor>, upto: usize, key: &String) -> (found: Option<
    usize,
>)
    requires
        upto <= methods.len(),
    ensures
        match found {
            Some(i) => i < upto && methods[i as int].name@ == key@,
            None => forall|k: int| 0 <= k < upto ==> (#[trigger] methods[k]).name@ != key@,
        },
{
    let mut i: usize = 0;
    while i < upto
        invariant
            i <= upto <= methods.len(),
            forall|k: int| 0 <= k < i ==> (#[trigger] methods[k]).name@ != key@,
        decreases upto - i,
    {
        if methods[i].name == *key {
            return Some(i);
        }
        i += 1;
    }
    None
}

/// The first of the indices below `upto` whose constant is named `key`.
fn constant_named(constants: &Vec<ConstantDescriptor>, upto: usize, key: &String) -> (found:
    Option<usize>)
    requires
        upto <= constants.len(),
    ensures
        match found {
            Some(j) => j < upto && constants[j as int].name@ == key@,
            None => forall|k: int| 0 <= k < upto ==> (#[trigger] constants[k]).name@ != key@,
        },
{
    let mut j: usize = 0;
    while j < upto
        invariant
            j <= upto <= constants.len(),
            forall|k: int| 0 <= k < j ==> (#[trigger] constants[k]).name@ != key@,
        decreases upto - j,
    {
        if constants[j].name == *key {
            return Some(j);
        }
        j += 1;
    }
    None
}

impl DispatchTable {
    #[verifier::type_invariant]
    spec fn inv(&self) -> bool {
        self@.wf()
    }

    /// Builds the table of the native type named `owner` from its methods,
    /// which take their slots in the order given, and its constants.
    ///
    /// Fails exactly when two members share a name, and then reports the
    /// first name that repeats an earlier one, methods counted before
    /// constants.
    pub fn new(
        owner: String,
        methods: Vec<MethodDescriptor>,
        constants: Vec<ConstantDescriptor>,
    ) -> (r: Result<Self, DuplicateMember>)
        ensures
            r is Ok <==> names_of(method_views(methods@), constant_views(constants@)).no_duplicates(),
            match r {
                Ok(table) => {
                    &&& table@.owner == owner@
                    &&& table@.methods == method_views(methods@)
                    &&& table@.constants == constant_views(constants@)
                    &&& table@.wf()
                },
                Err(e) => {
                    let names = names_of(method_views(methods@), constant_views(constants@));
                    exists|b: int| TableView::first_repeat(names, b) && names[b] == e.name@
                },
            },
    {
        let ghost names = names_of(method_views(methods@), constant_views(constants@));
        let mut i: usize = 0;
        while i < methods.len()
            invariant
                i <= methods.len(),
                names == names_of(method_views(methods@), constant_views(constants@)),
                forall|x: int, y: int| 0 <= x < y < i ==> names[x] != names[y],
            decreases methods.len() - i,
        {
            match method_named(&methods, i, &methods[i].name) {
                Some(a) => {
                    proof {
                        assert(names[a as int] == names[i as int]);
                        assert(TableView::first_repeat(names, i as int));
                    }
                    return Err(DuplicateMember { name: methods[i].name.clone() });
                },
                None => {
                    assert forall|x: int| 0 <= x < i implies names[x] != names[i as int] by {
                        assert(methods[x].name@ == names[x]);
                    }
                },
            }
            i += 1;
        }
        let mut j: usize = 0;
        while j < constants.len()
            invariant
                j <= constants.len(),
                names == names_of(method_views(methods@), constant_views(constants@)),
                forall|x: int, y: int| 0 <= x < y < methods.len() + j ==> names[x] != names[y],
            decreases constants.len() - j,
        {
            let ghost b = methods.len() + j;
            let earlier: bool = match method_named(&methods, methods.len(), &constants[j].name) {
                Some(a) => {
                    proof {
                        assert(names[a as int] == names[b]);
                    }
                    true
                },
                None => match constant_named(&constants, j, &constants[j].name) {
                    Some(a) => {
                        proof {
                            assert(names[methods.len() + a] == names[b]);
                        }
                        true
                    },
                    None => false,
                },
            };
            if earlier {
                proof {
                    assert(TableView::first_repeat(names, b));
                }
                return Err(DuplicateMember { name: constants[j].name.clone() });
            }
            assert forall|x: int| 0 <= x < b implies names[x] != names[b] by {
                if x < methods.len() {
                    assert(methods[x].name@ == names[x]);
                } else {
                    assert(constants[x - methods.len()].name@ == names[x]);
                }
            }
            j += 1;
        }
        Ok(DispatchTable { owner, methods, constants })
    }

    /// The name of the native type.
    pub fn owner(&self) -> (name: &String)
        ensures
            name@ == self@.owner,
    {
        &self.owner
    }

    /// The number of methods.
    pub fn method_count(&self) -> (n: usize)
        ensures
            n == self@.methods.len(),
    {
        self.methods.len()
    }

    /// The number of constants.
    pub fn constant_count(&self) -> (n: usize)
        ensures
            n == self@.constants.len(),
    {
        self.constants.len()
    }

    /// The method in slot `slot`, if the table has that many.
    pub fn method(&self, slot: usize) -> (m: Option<&MethodDescriptor>)
        ensures
            slot < self@.methods.len() ==> (m matches Some(d) && d@ == self@.methods[slot as int]),
            slot >= self@.methods.len() ==> m is None,
    {
        if slot < self.methods.len() {
            Some(&self.methods[slot])
        } else {
            None
        }
    }

    /// The descriptor in slot `slot`, as the table holds it.
    pub closed spec fn descriptor(&self, slot: int) -> MethodDescriptor {
        self.methods@[slot]
    }

    /// The descriptor in a slot has the content that the table's view gives
    /// for the slot.
    pub proof fn lemma_descriptor_view(&self, slot: int)
        requires
            0 <= slot < self@.methods.len(),
        ensures
            self.descriptor(slot)@ == self@.methods[slot],
    {
    }

    /// The method in slot `slot`.
    pub(crate) fn method_at(&self, slot: usize) -> (m: &MethodDescriptor)
        requires
            slot < self@.methods.len(),
        ensures
            *m == self.descriptor(slot as int),
            m@ == self@.methods[slot as int],
    {
        &self.methods[slot]
    }

    /// The constant at index `index`.
    pub(crate) fn constant_at(&self, index: usize) -> (c: &ConstantDescriptor)
        requires
            index < self@.constants.len(),
        ensures
            c@ == self@.constants[index as int],
    {
        &self.constants[index]
    }

    /// The constant at index `index`, if the table has that many.
    pub fn constant(&self, index: usize) -> (c: Option<&ConstantDescriptor>)
        ensures
            index < self@.constants.len() ==> (c matches Some(d) && d@
                == self@.constants[index as int]),
            index >= self@.constants.len() ==> c is None,
    {
        if index < self.constants.len() {
            Some(&self.constants[index])
        } else {
            None
        }
    }

    /// Looks a member name up: first among the methods, then among the
    /// constants.
    pub fn lookup(&self, name: &str) -> (member: Member)
        ensures
            self@.wf(),
            member == self@.lookup(name@),
            match member {
                Member::Method(i) => i < self@.methods.len() && self@.methods[i as int].name
                    == name@,
                Member::Constant(j) => j < self@.constants.len() && self@.constants[j as int].name
                    == name@ && !self@.has_method(name@),
                Member::Missing => !self@.has_member(name@),
            },
    {
        let key = name.to_owned();
        proof {
            use_type_invariant(self);
        }
        match method_named(&self.methods, self.methods.len(), &key) {
            Some(i) => {
                proof {
                    self@.lemma_method_found(name@, i as int);
                }
                Member::Method(i)
            },
            None => match constant_named(&self.constants, self.constants.len(), &key) {
                Some(j) => {
                    proof {
                        self@.lemma_constant_found(name@, j as int);
                    }
                    Member::Constant(j)
                },
                None => Member::Missing,
            },
        }
    }
}

} // verus!
