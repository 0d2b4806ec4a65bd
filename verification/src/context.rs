//! The root arena and the nodes that live in it.

use vstd::prelude::*;
use crate::value::{Linkage, ValueKind};

verus! {

/// The kind tag of a type node.
#[derive(Clone, Copy, Debug, PartialEq, Eq, Structural)]
pub enum TypeKind {
    Void,
    Half,
    Float,
    Double,
    X86Fp80,
    Fp128,
    PpcFp128,
    Label,
    Integer,
    Function,
    Struct,
    Array,
    Pointer,
    Vector,
    Metadata,
    X86Mmx,
}

impl TypeKind {
    /// The number that stands for this kind on the native side.
    pub open spec fn code_spec(self) -> u32 {
        match self {
            TypeKind::Void => 0,
            TypeKind::Half => 1,
            TypeKind::Float => 2,
            TypeKind::Double => 3,
            TypeKind::X86Fp80 => 4,
            TypeKind::Fp128 => 5,
            TypeKind::PpcFp128 => 6,
            TypeKind::Label => 7,
            TypeKind::Integer => 8,
            TypeKind::Function => 9,
            TypeKind::Struct => 10,
            TypeKind::Array => 11,
            TypeKind::Pointer => 12,
            TypeKind::Vector => 13,
            TypeKind::Metadata => 14,
            TypeKind::X86Mmx => 15,
        }
    }

    /// The number that stands for this kind on the native side.
    pub fn code(self) -> (c: u32)
        ensures
            c == self.code_spec(),
            c < 16,
    {
        match self {
            TypeKind::Void => 0,
            TypeKind::Half => 1,
            TypeKind::Float => 2,
            TypeKind::Double => 3,
            TypeKind::X86Fp80 => 4,
            TypeKind::Fp128 => 5,
            TypeKind::PpcFp128 => 6,
            TypeKind::Label => 7,
            TypeKind::Integer => 8,
            TypeKind::Function => 9,
            TypeKind::Struct => 10,
            TypeKind::Array => 11,
            TypeKind::Pointer => 12,
            TypeKind::Vector => 13,
            TypeKind::Metadata => 14,
            TypeKind::X86Mmx => 15,
        }
    }

    /// The kind that a native number stands for, if it stands for one.
    pub fn from_code(code: u32) -> (k: Option<TypeKind>)
        ensures
            code < 16 ==> k.is_some() && k.unwrap().code_spec() == code,
            code >= 16 ==> k.is_none(),
    {
        match code {
            0 => Some(TypeKind::Void),
            1 => Some(TypeKind::Half),
            2 => Some(TypeKind::Float),
            3 => Some(TypeKind::Double),
            4 => Some(TypeKind::X86Fp80),
            5 => Some(TypeKind::Fp128),
            6 => Some(TypeKind::PpcFp128),
            7 => Some(TypeKind::Label),
            8 => Some(TypeKind::Integer),
            9 => Some(TypeKind::Function),
            10 => Some(TypeKind::Struct),
            11 => Some(TypeKind::Array),
            12 => Some(TypeKind::Pointer),
            13 => Some(TypeKind::Vector),
            14 => Some(TypeKind::Metadata),
            15 => Some(TypeKind::X86Mmx),
            _ => None,
        }
    }

    /// Whether a type of this kind has an element type: a pointer's pointee,
    /// the element of an array or vector, the result of a function.
    pub open spec fn has_element(self) -> bool {
        self == TypeKind::Pointer || self == TypeKind::Array || self == TypeKind::Vector || self
            == TypeKind::Function
    }
}

/// A type node of the arena.
pub struct TypeNode {
    /// The kind tag.
    pub kind: TypeKind,
    /// The handle of the element type, or the null handle.
    pub element: usize,
    /// The handles of a struct's fields or of a function's parameters.
    pub members: Vec<usize>,
    /// The width of an integer, the length of an array or vector.
    pub count: usize,
    /// Whether a struct is packed.
    pub packed: bool,
    /// The name of a named struct.
    pub name: Option<Vec<u8>>,
}

/// What a type node holds, as mathematical values.
pub struct TypeShape {
    pub kind: TypeKind,
    pub element: usize,
    pub members: Seq<usize>,
    pub count: usize,
    pub packed: bool,
    pub name: Option<Seq<u8>>,
}

impl View for TypeNode {
    type V = TypeShape;

    open spec fn view(&self) -> TypeShape {
        TypeShape {
            kind: self.kind,
            element: self.element,
            members: self.members@,
            count: self.count,
            packed: self.packed,
            name: match self.name {
                Some(n) => Some(n@),
                None => None,
            },
        }
    }
}

/// A value node of the arena.
pub struct ValueNode {
    /// The kind tag.
    pub kind: ValueKind,
    /// The handle of the value's type.
    pub ty: usize,
    /// The value's name, if it has one.
    pub name: Option<Vec<u8>>,
    /// The attribute bits set on a function or an argument.
    pub attrs: u32,
    /// The linkage of a global.
    pub linkage: Linkage,
    /// Whether a global variable is a constant.
    pub constant: bool,
    /// The handle of a global variable's initial value, or the null handle.
    pub initializer: usize,
    /// The handles of a function's arguments.
    pub params: Vec<usize>,
    /// The handles of a function's blocks, in order.
    pub blocks: Vec<usize>,
    /// The handles of the members of a constant struct, in order.
    pub members: Vec<usize>,
    /// The bits of a constant number.
    pub bits: u64,
}

/// The root arena: it owns every type and value node, and a handle is the
/// place of a node in it. Nodes are only ever added, so a handle stays good
/// for as long as the arena lives.
pub struct Context {
    pub types: Vec<TypeNode>,
    pub values: Vec<ValueNode>,
}

/// Implemented by everything that lives in a context.
///
/// A handle does not record the arena that made it, so what is tested here is
/// validity and not ownership: two arenas can both hold a node of the right
/// kind at the same handle, and the test then holds of both.
pub trait GetContext {
    /// Whether this is valid in `ctx`: whether every handle in it names a
    /// node of `ctx`, of the kind that the handle's type stands for.
    spec fn valid_in(&self, ctx: &Context) -> bool;

    /// Returns the context given where this is valid in it, and `None` where
    /// it is not.
    fn get_context<'a>(&self, ctx: &'a Context) -> (found: Option<&'a Context>)
        ensures
            found.is_some() == self.valid_in(ctx),
            found.is_some() ==> found.unwrap() == ctx,
    ;
}

/// Whether two handle lists hold the same handles in the same order.
pub fn same_handles(a: &Vec<usize>, b: &Vec<usize>) -> (r: bool)
    ensures
        r == (a@ == b@),
{
    if a.len() != b.len() {
        return false;
    }
    let mut i: usize = 0;
    while i < a.len()
        invariant
            i <= a.len(),
            a.len() == b.len(),
            forall|j: int| 0 <= j < i ==> a@[j] == b@[j],
        decreases a.len() - i,
    {
        if a[i] != b[i] {
            return false;
        }
        i += 1;
    }
    assert(a@ =~= b@);
    true
}

/// Copies a list of handles.
pub fn copy_handles(a: &Vec<usize>) -> (b: Vec<usize>)
    ensures
        b@ == a@,
{
    let mut b: Vec<usize> = Vec::new();
    let mut i: usize = 0;
    while i < a.len()
        invariant
            i <= a.len(),
            b@ == a@.subrange(0, i as int),
        decreases a.len() - i,
    {
        b.push(a[i]);
        i += 1;
        assert(b@ =~= a@.subrange(0, i as int));
    }
    assert(a@.subrange(0, i as int) =~= a@);
    b
}

/// Whether two byte strings are the same.
pub fn same_bytes(a: &[u8], b: &[u8]) -> (r: bool)
    ensures
        r == (a@ == b@),
{
    if a.len() != b.len() {
        return false;
    }
    let mut i: usize = 0;
    while i < a.len()
        invariant
            i <= a.len(),
            a.len() == b.len(),
            forall|j: int| 0 <= j < i ==> a@[j] == b@[j],
        decreases a.len() - i,
    {
        if a[i] != b[i] {
            return false;
        }
        i += 1;
    }
    assert(a@ =~= b@);
    true
}

/// Whether an unnamed node `have` has the shape `want`.
fn same_shape(have: &TypeNode, want: &TypeNode) -> (r: bool)
    requires
        want.name.is_none(),
    ensures
        r == (have@ == want@),
{
    have.name.is_none() && have.kind == want.kind && have.element == want.element && have.count
        == want.count && have.packed == want.packed && same_handles(&have.members, &want.members)
}

/// What a call that asks for the unique type of a shape does to the arena
/// and returns. `raw` is the first handle with that shape. Where the shape
/// was there before, the arena is unchanged; else the node was added at the
/// end, and every older node is as it was.
pub open spec fn interned(before: &Context, after: &Context, shape: TypeShape, raw: usize) -> bool {
    &&& after.wf()
    &&& after.values == before.values
    &&& after.first_with_shape(shape, raw)
    &&& before.types_kept_by(after)
    &&& if before.type_known(raw) {
        *after == *before
    } else {
        raw == before.types.len() && after.types.len() == raw + 1
    }
}

/// Whether `node` is a value of the kind and type given that holds nothing
/// else: no attribute, no initial value, no argument, no block, no member,
/// no bits, and the default linkage. Its name is left open.
pub open spec fn bare(node: ValueNode, kind: ValueKind, ty: usize) -> bool {
    &&& node.kind == kind
    &&& node.ty == ty
    &&& node.attrs == 0
    &&& node.linkage == Linkage::External
    &&& !node.constant
    &&& node.initializer == 0
    &&& node.params@ == Seq::<usize>::empty()
    &&& node.blocks@ == Seq::<usize>::empty()
    &&& node.members@ == Seq::<usize>::empty()
    &&& node.bits == 0
}

/// The arena between two steps of a call that first adds to the types and
/// then to the values: the types of `after` with the values of `before`.
pub open spec fn with_types_of(before: &Context, after: &Context) -> Context {
    Context { types: after.types, values: before.values }
}

/// What a call that asks for the unique constant of a type, a pattern of
/// bits and a list of members does to the arena and returns. `raw` is the
/// first handle of such a constant. Where there was one before, the arena is
/// unchanged; else the node was added at the end, and every older node is as
/// it was.
pub open spec fn constant_interned(
    before: &Context,
    after: &Context,
    ty: usize,
    bits: u64,
    members: Seq<usize>,
    raw: usize,
) -> bool {
    &&& after.wf()
    &&& after.types == before.types
    &&& after.first_constant(ty, bits, members, raw)
    &&& before.values_kept_by(after)
    &&& if before.value_known(raw) {
        *after == *before
    } else {
        let node = after.values[raw as int];
        &&& raw == before.values.len()
        &&& after.values.len() == raw + 1
        &&& node.name.is_none()
        &&& node.attrs == 0
        &&& node.linkage == Linkage::External
        &&& !node.constant
        &&& node.initializer == 0
        &&& node.params@ == Seq::<usize>::empty()
        &&& node.blocks@ == Seq::<usize>::empty()
    }
}

impl Context {
    /// Whether the value at `at` is the constant of type `ty` with the bits
    /// `bits` and the members `members`.
    pub open spec fn is_constant(&self, at: int, ty: usize, bits: u64, members: Seq<usize>) -> bool {
        let node = self.values[at];
        node.kind == ValueKind::Constant && node.ty == ty && node.bits == bits && node.members@
            == members
    }

    /// Whether `raw` is the first handle of a constant of type `ty` with the
    /// bits `bits` and the members `members`.
    pub open spec fn first_constant(
        &self,
        ty: usize,
        bits: u64,
        members: Seq<usize>,
        raw: usize,
    ) -> bool {
        &&& self.value_known(raw)
        &&& self.is_constant(raw as int, ty, bits, members)
        &&& forall|j: int| 0 < j < raw ==> !self.is_constant(j, ty, bits, members)
    }

    /// Whether `later` holds every value node of `self`, unchanged and at
    /// the same handle.
    pub open spec fn values_kept_by(&self, later: &Context) -> bool {
        &&& self.values.len() <= later.values.len()
        &&& forall|i: int|
            0 <= i < self.values.len() ==> later.values[i] == #[trigger] self.values[i]
    }

    /// Returns the handle of the constant of type `ty` with the bits `bits`
    /// and the members `members`. Constants are unique: where this one is in
    /// the arena already, its handle is returned and the arena stays as it
    /// is; else it is added.
    pub fn intern_constant(&mut self, ty: usize, bits: u64, members: Vec<usize>) -> (raw: usize)
        requires
            old(self).wf(),
            old(self).type_known(ty),
            forall|j: int| 0 <= j < members.len() ==> old(self).value_known(#[trigger] members[j]),
        ensures
            constant_interned(old(self), final(self), ty, bits, members@, raw),
    {
        let mut i: usize = 1;
        while i < self.values.len()
            invariant
                1 <= i <= self.values.len(),
                *self == *old(self),
                self.wf(),
                self.type_known(ty),
                forall|j: int| 0 < j < i ==> !self.is_constant(j, ty, bits, members@),
            decreases self.values.len() - i,
        {
            let node = &self.values[i];
            if node.kind == ValueKind::Constant && node.ty == ty && node.bits == bits
                && same_handles(&node.members, &members) {
                return i;
            }
            i += 1;
        }
        let node = ValueNode {
            kind: ValueKind::Constant,
            ty,
            name: None,
            attrs: 0,
            linkage: Linkage::External,
            constant: false,
            initializer: 0,
            params: Vec::new(),
            blocks: Vec::new(),
            members,
            bits,
        };
        let raw = self.push_value(node);
        proof {
            assert forall|j: int| 0 < j < raw implies !self.is_constant(j, ty, bits, members@) by {
                assert(!old(self).is_constant(j, ty, bits, members@));
                assert(self.values[j] == old(self).values[j]);
            }
        }
        raw
    }

    /// Whether `raw` names a type node.
    pub open spec fn type_known(&self, raw: usize) -> bool {
        0 < raw < self.types.len()
    }

    /// Whether `raw` names a value node.
    pub open spec fn value_known(&self, raw: usize) -> bool {
        0 < raw < self.values.len()
    }

    /// Whether a type node may stand at place `at`: what it refers to was made
    /// before it, and it has an element type where its kind asks for one.
    pub open spec fn type_node_ok(shape: TypeShape, at: int) -> bool {
        &&& shape.element < at
        &&& shape.kind.has_element() ==> shape.element != 0
        &&& forall|j: int| 0 <= j < shape.members.len() ==> 0 < #[trigger] shape.members[j] < at
    }

    /// Whether a value node may stand in the arena: its type is known, and so
    /// is everything it refers to; a function's type is a pointer to a
    /// function type.
    pub open spec fn value_node_ok(&self, node: &ValueNode) -> bool {
        &&& self.type_known(node.ty)
        &&& node.initializer < self.values.len()
        &&& forall|j: int|
            0 <= j < node.params.len() ==> self.value_known(#[trigger] node.params[j])
                && self.values[node.params[j] as int].kind == ValueKind::Argument
        &&& forall|j: int|
            0 <= j < node.blocks.len() ==> self.value_known(#[trigger] node.blocks[j])
                && self.values[node.blocks[j] as int].kind == ValueKind::BasicBlock
        &&& forall|j: int|
            0 <= j < node.members.len() ==> self.value_known(#[trigger] node.members[j])
        &&& node.kind == ValueKind::Function ==> self.types[node.ty as int].kind
            == TypeKind::Pointer && self.types[self.types[node.ty as int].element as int].kind
            == TypeKind::Function
    }

    /// The arena's invariant. Place 0 of each table stands for the null
    /// handle and holds no object.
    pub open spec fn wf(&self) -> bool {
        &&& self.types.len() >= 1
        &&& self.values.len() >= 1
        &&& forall|i: int|
            0 < i < self.types.len() ==> Self::type_node_ok(#[trigger] self.types[i]@, i)
        &&& forall|i: int|
            0 < i < self.values.len() ==> self.value_node_ok(#[trigger] &self.values[i])
    }

    /// Whether `later` holds every type node of `self`, unchanged and at the
    /// same handle.
    pub open spec fn types_kept_by(&self, later: &Context) -> bool {
        &&& self.types.len() <= later.types.len()
        &&& forall|i: int| 0 <= i < self.types.len() ==> later.types[i] == #[trigger] self.types[i]
    }

    /// Whether every type node may stand where it stands.
    pub open spec fn types_wf(&self) -> bool {
        forall|i: int|
            0 < i < self.types.len() ==> Self::type_node_ok(#[trigger] self.types[i]@, i)
    }

    /// Checks that the type node at `at` may stand there.
    fn type_ok(&self, at: usize) -> (b: bool)
        requires
            0 < at < self.types.len(),
        ensures
            b == Self::type_node_ok(self.types[at as int]@, at as int),
    {
        let node = &self.types[at];
        if node.element >= at {
            return false;
        }
        let kind = node.kind;
        let needs = kind == TypeKind::Pointer || kind == TypeKind::Array || kind
            == TypeKind::Vector || kind == TypeKind::Function;
        if needs && node.element == 0 {
            return false;
        }
        let mut j: usize = 0;
        while j < node.members.len()
            invariant
                j <= node.members.len(),
                0 < at < self.types.len(),
                *node == self.types[at as int],
                node.element < at,
                node.kind.has_element() ==> node.element != 0,
                forall|x: int| 0 <= x < j ==> 0 < #[trigger] node.members@[x] < at,
            decreases node.members.len() - j,
        {
            let m = node.members[j];
            if m == 0 || m >= at {
                proof {
                    let shape = self.types[at as int]@;
                    assert(!(0 < shape.members[j as int] < at));
                }
                return false;
            }
            j += 1;
        }
        proof {
            let shape = self.types[at as int]@;
            assert forall|x: int| 0 <= x < shape.members.len() implies 0
                < #[trigger] shape.members[x] < at by {
                assert(0 < node.members@[x] < at);
            }
        }
        true
    }

    /// Checks that every handle of the list names a value of the kind given.
    pub fn all_of_kind(&self, handles: &Vec<usize>, kind: ValueKind) -> (b: bool)
        ensures
            b == forall|j: int|
                0 <= j < handles.len() ==> self.value_known(#[trigger] handles[j])
                    && self.values[handles[j] as int].kind == kind,
    {
        let mut j: usize = 0;
        while j < handles.len()
            invariant
                j <= handles.len(),
                forall|x: int|
                    0 <= x < j ==> self.value_known(#[trigger] handles[x])
                        && self.values[handles[x] as int].kind == kind,
            decreases handles.len() - j,
        {
            let h = handles[j];
            if h == 0 || h >= self.values.len() || self.values[h].kind != kind {
                assert(!(self.value_known(handles[j as int]) && self.values[handles[j as int] as int].kind
                    == kind));
                return false;
            }
            j += 1;
        }
        true
    }

    /// Checks that every handle of the list names a value.
    pub fn all_known(&self, handles: &Vec<usize>) -> (b: bool)
        ensures
            b == forall|j: int| 0 <= j < handles.len() ==> self.value_known(#[trigger] handles[j]),
    {
        let mut j: usize = 0;
        while j < handles.len()
            invariant
                j <= handles.len(),
                forall|x: int| 0 <= x < j ==> self.value_known(#[trigger] handles[x]),
            decreases handles.len() - j,
        {
            let h = handles[j];
            if h == 0 || h >= self.values.len() {
                assert(!self.value_known(handles[j as int]));
                return false;
            }
            j += 1;
        }
        true
    }

    /// Checks that the value node at `at` may stand in the arena.
    fn value_ok(&self, at: usize) -> (b: bool)
        requires
            self.types_wf(),
            0 < at < self.values.len(),
        ensures
            b == self.value_node_ok(&self.values[at as int]),
    {
        let node = &self.values[at];
        if node.ty == 0 || node.ty >= self.types.len() {
            return false;
        }
        if node.initializer >= self.values.len() {
            return false;
        }
        if !self.all_of_kind(&node.params, ValueKind::Argument) {
            return false;
        }
        if !self.all_of_kind(&node.blocks, ValueKind::BasicBlock) {
            return false;
        }
        if !self.all_known(&node.members) {
            return false;
        }
        if node.kind == ValueKind::Function {
            proof {
                assert(Self::type_node_ok(self.types[node.ty as int]@, node.ty as int));
            }
            let ty = &self.types[node.ty];
            if ty.kind != TypeKind::Pointer {
                return false;
            }
            if self.types[ty.element].kind != TypeKind::Function {
                return false;
            }
        }
        true
    }

    /// Checks the arena's invariant.
    pub fn check(&self) -> (b: bool)
        ensures
            b == self.wf(),
    {
        if self.types.len() < 1 || self.values.len() < 1 {
            return false;
        }
        let mut i: usize = 1;
        while i < self.types.len()
            invariant
                1 <= i <= self.types.len(),
                forall|x: int| 0 < x < i ==> Self::type_node_ok(#[trigger] self.types[x]@, x),
            decreases self.types.len() - i,
        {
            if !self.type_ok(i) {
                return false;
            }
            i += 1;
        }
        let mut k: usize = 1;
        while k < self.values.len()
            invariant
                1 <= k <= self.values.len(),
                self.types_wf(),
                self.types.len() >= 1,
                forall|x: int| 0 < x < k ==> self.value_node_ok(#[trigger] &self.values[x]),
            decreases self.values.len() - k,
        {
            if !self.value_ok(k) {
                return false;
            }
            k += 1;
        }
        true
    }

    /// Creates an empty arena.
    pub fn new() -> (ctx: Context)
        ensures
            ctx.wf(),
            ctx.types.len() == 1,
            ctx.values.len() == 1,
    {
        let mut types: Vec<TypeNode> = Vec::new();
        types.push(
            TypeNode {
                kind: TypeKind::Void,
                element: 0,
                members: Vec::new(),
                count: 0,
                packed: false,
                name: None,
            },
        );
        let mut values: Vec<ValueNode> = Vec::new();
        values.push(
            ValueNode {
                kind: ValueKind::Constant,
                ty: 0,
                name: None,
                attrs: 0,
                linkage: Linkage::External,
                constant: false,
                initializer: 0,
                params: Vec::new(),
                blocks: Vec::new(),
                members: Vec::new(),
                bits: 0,
            },
        );
        Context { types, values }
    }

    /// The first handle whose node has the shape `want`, if there is one.
    pub open spec fn first_with_shape(&self, want: TypeShape, r: usize) -> bool {
        &&& self.type_known(r)
        &&& self.types[r as int]@ == want
        &&& forall|j: int| 0 < j < r ==> #[trigger] self.types[j]@ != want
    }

    /// Adds a type node at the end of the arena and returns its handle.
    pub fn push_type(&mut self, node: TypeNode) -> (raw: usize)
        requires
            old(self).wf(),
            Self::type_node_ok(node@, old(self).types.len() as int),
        ensures
            final(self).wf(),
            raw == old(self).types.len(),
            final(self).types@ == old(self).types@.push(node),
            final(self).values == old(self).values,
    {
        let raw = self.types.len();
        self.types.push(node);
        proof {
            assert forall|i: int| 0 < i < self.values.len() implies self.value_node_ok(
                #[trigger] &self.values[i],
            ) by {
                let node = &self.values[i];
                assert(old(self).value_node_ok(&old(self).values[i]));
                assert(self.types[node.ty as int] == old(self).types[node.ty as int]);
                let e = old(self).types[node.ty as int].element;
                if node.kind == ValueKind::Function {
                    assert(Self::type_node_ok(old(self).types[node.ty as int]@, node.ty as int));
                    assert(self.types[e as int] == old(self).types[e as int]);
                }
            }
        }
        raw
    }

    /// Adds a value node at the end of the arena and returns its handle.
    pub fn push_value(&mut self, node: ValueNode) -> (raw: usize)
        requires
            old(self).wf(),
            old(self).value_node_ok(&node),
        ensures
            final(self).wf(),
            raw == old(self).values.len(),
            final(self).values@ == old(self).values@.push(node),
            final(self).types == old(self).types,
    {
        let raw = self.values.len();
        self.values.push(node);
        proof {
            assert forall|i: int| 0 < i < self.values.len() implies self.value_node_ok(
                #[trigger] &self.values[i],
            ) by {
                if i < raw {
                    assert(old(self).value_node_ok(&old(self).values[i]));
                    assert(self.values[i] == old(self).values[i]);
                } else {
                    assert(self.values[i] == node);
                }
            }
        }
        raw
    }

    /// Returns the handle of the unnamed type with the shape of `node`. Types
    /// are unique by shape: where one with this shape is in the arena already,
    /// its handle is returned and the arena stays as it is; else the node is
    /// added.
    pub fn intern(&mut self, node: TypeNode) -> (raw: usize)
        requires
            old(self).wf(),
            node.name.is_none(),
            Self::type_node_ok(node@, old(self).types.len() as int),
        ensures
            interned(old(self), final(self), node@, raw),
    {
        let mut i: usize = 1;
        while i < self.types.len()
            invariant
                1 <= i <= self.types.len(),
                *self == *old(self),
                self.wf(),
                node.name.is_none(),
                Self::type_node_ok(node@, self.types.len() as int),
                forall|j: int| 0 < j < i ==> #[trigger] self.types[j]@ != node@,
            decreases self.types.len() - i,
        {
            if same_shape(&self.types[i], &node) {
                return i;
            }
            i += 1;
        }
        self.push_type(node)
    }
}

} // verus!
