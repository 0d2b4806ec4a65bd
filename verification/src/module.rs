//! Modules: single compilation units, each a list of functions and globals.

use vstd::prelude::*;
use vstd::string::StringSliceAdditionalSpecFns;
use crate::context::{
    bare, copy_handles, interned, same_bytes, with_types_of, Context, GetContext, TypeKind, TypeNode,
    ValueNode,
};
use crate::owner::{checked, CBox, CSemiBox, Resource};
use crate::types::{element_shape, Type};
use crate::util::{nul_free, to_bytes};
use crate::value::{
    lemma_update_keeps_wf, Alias, Function, GlobalValue, GlobalVariable, Linkage, Value,
    ValueKind,
};

verus! {

/// The address spaces that a global can be put in.
#[derive(Clone, Copy, Debug, PartialEq, Eq, Structural)]
pub enum AddressSpace {
    Generic,
    Global,
    Shared,
    Const,
    Local,
}

impl AddressSpace {
    /// The number that stands for this address space on the native side.
    pub open spec fn code_spec(self) -> u32 {
        match self {
            AddressSpace::Generic => 0,
            AddressSpace::Global => 1,
            AddressSpace::Shared => 3,
            AddressSpace::Const => 4,
            AddressSpace::Local => 5,
        }
    }

    /// The number that stands for this address space on the native side.
    pub fn code(self) -> (c: u32)
        ensures
            c == self.code_spec(),
    {
        match self {
            AddressSpace::Generic => 0,
            AddressSpace::Global => 1,
            AddressSpace::Shared => 3,
            AddressSpace::Const => 4,
            AddressSpace::Local => 5,
        }
    }
}

/// The module's bitcode could not be written; this is the status that the
/// native library returned.
#[derive(Clone, Copy, Debug, PartialEq, Eq, Structural)]
pub struct WriteError {
    pub status: i32,
}

/// Whether the value `raw` of `ctx` has the name `name`.
pub open spec fn named(ctx: &Context, raw: usize, name: Seq<u8>) -> bool {
    ctx.values[raw as int].name.is_some() && ctx.values[raw as int].name.unwrap()@ == name
}

/// What a search by name gives: the first listed value with that name, or
/// `None` where no listed value has it.
pub open spec fn first_named(
    ctx: &Context,
    handles: Seq<usize>,
    name: Seq<u8>,
    found: Option<usize>,
) -> bool {
    match found {
        Some(raw) => exists|i: int|
            0 <= i < handles.len() && handles[i] == raw && named(ctx, raw, name) && forall|j: int|
                0 <= j < i ==> !named(ctx, #[trigger] handles[j], name),
        None => forall|j: int| 0 <= j < handles.len() ==> !named(ctx, #[trigger] handles[j], name),
    }
}

/// Finds the first of the listed values that has the name given.
pub fn find_named(ctx: &Context, handles: &Vec<usize>, name: &[u8]) -> (found: Option<usize>)
    requires
        forall|j: int| 0 <= j < handles.len() ==> ctx.value_known(#[trigger] handles[j]),
    ensures
        first_named(ctx, handles@, name@, found),
        found.is_some() ==> ctx.value_known(found.unwrap()) && handles@.contains(found.unwrap()),
{
    let mut i: usize = 0;
    while i < handles.len()
        invariant
            i <= handles.len(),
            forall|j: int| 0 <= j < handles.len() ==> ctx.value_known(#[trigger] handles[j]),
            forall|j: int| 0 <= j < i ==> !named(ctx, #[trigger] handles[j], name@),
        decreases handles.len() - i,
    {
        let raw = handles[i];
        let hit = match &ctx.values[raw].name {
            Some(n) => same_bytes(n.as_slice(), name),
            None => false,
        };
        if hit {
            assert(handles@[i as int] == raw);
            return Some(raw);
        }
        i += 1;
    }
    None
}

/// Represents a single compilation unit of code.
///
/// Its functions and globals live in the context that it was made in.
pub struct Module {
    /// The module's name.
    pub name: Vec<u8>,
    /// The handles of the module's functions, in the order they were added.
    pub functions: Vec<usize>,
    /// The handles of the module's global variables and aliases.
    pub globals: Vec<usize>,
    /// The target that the module is for.
    pub target: Vec<u8>,
}

/// An iterator through the functions contained in a module, in the order in
/// which they were added.
#[derive(Debug)]
pub struct Functions {
    /// The module's functions, in order, as they were when the iterator was made.
    pub functions: Vec<Function>,
    /// The place of the next function; the number of functions once exhausted.
    pub pos: usize,
}

impl Functions {
    /// The functions that are still to come, in module order.
    pub open spec fn remaining(&self) -> Seq<Function> {
        if self.pos <= self.functions.len() {
            self.functions@.subrange(self.pos as int, self.functions.len() as int)
        } else {
            Seq::empty()
        }
    }

    /// Hands out the next function, or returns `None` where there is none
    /// left, and from then on for ever.
    pub fn next(&mut self) -> (f: Option<Function>)
        ensures
            final(self).functions == old(self).functions,
            old(self).pos < old(self).functions.len() ==> f == Some(
                old(self).functions[old(self).pos as int],
            ) && final(self).pos == old(self).pos + 1 && final(self).remaining() == old(
                self,
            ).remaining().drop_first(),
            old(self).pos >= old(self).functions.len() ==> f.is_none() && final(self).pos == old(
                self,
            ).pos,
    {
        if self.pos < self.functions.len() {
            let f = self.functions[self.pos];
            self.pos = self.pos + 1;
            assert(self.remaining() =~= old(self).remaining().drop_first());
            Some(f)
        } else {
            None
        }
    }
}

/// The functions that a list of raw handles stands for.
pub open spec fn functions_of(raws: Seq<usize>) -> Seq<Function> {
    Seq::new(raws.len(), |i: int| Function { raw: raws[i] })
}

impl Module {
    /// Whether every function and global of the module is one of `ctx`.
    pub open spec fn valid(&self, ctx: &Context) -> bool {
        &&& forall|j: int|
            0 <= j < self.functions.len() ==> ctx.value_known(#[trigger] self.functions[j])
                && ctx.values[self.functions[j] as int].kind == ValueKind::Function
        &&& forall|j: int|
            0 <= j < self.globals.len() ==> ctx.value_known(#[trigger] self.globals[j]) && (
            ctx.values[self.globals[j] as int].kind == ValueKind::GlobalVariable
                || ctx.values[self.globals[j] as int].kind == ValueKind::GlobalAlias)
    }

    /// Creates a new, empty module with the name given.
    pub fn new(name: &str, ctx: &Context) -> (module: Module)
        requires
            nul_free(name.spec_bytes()),
        ensures
            module.valid(ctx),
            module.name@ == name.spec_bytes(),
            module.functions@ == Seq::<usize>::empty(),
            module.globals@ == Seq::<usize>::empty(),
            module.target@ == Seq::<u8>::empty(),
    {
        Module {
            name: to_bytes(name),
            functions: Vec::new(),
            globals: Vec::new(),
            target: Vec::new(),
        }
    }

    /// What adding a global does: the arena gets the pointer type to `ty` in
    /// the address space `space` if it lacks it, and one new value node of the
    /// kind given, which is added to the module's globals.
    pub open spec fn global_added(
        before: (&Module, &Context),
        after: (&Module, &Context),
        name: Seq<u8>,
        ty: usize,
        space: u32,
        kind: ValueKind,
        raw: usize,
    ) -> bool {
        let (m0, c0) = before;
        let (m1, c1) = after;
        let node = c1.values[raw as int];
        &&& c1.wf()
        &&& m1.valid(c1)
        &&& c0.types_kept_by(c1)
        &&& raw == c0.values.len()
        &&& c1.values.len() == raw + 1
        &&& forall|j: int| 0 <= j < c0.values.len() ==> c1.values[j] == #[trigger] c0.values[j]
        &&& m1.globals@ == m0.globals@.push(raw)
        &&& m1.functions == m0.functions
        &&& m1.name == m0.name
        &&& m1.target == m0.target
        &&& node.kind == kind
        &&& node.name.is_some()
        &&& node.name.unwrap()@ == name
        &&& interned(
            c0,
            &with_types_of(c0, c1),
            element_shape(TypeKind::Pointer, ty, space as usize),
            node.ty,
        )
        &&& node.attrs == 0
        &&& node.bits == 0
        &&& node.linkage == Linkage::External
        &&& !node.constant
        &&& node.params@ == Seq::<usize>::empty()
        &&& node.blocks@ == Seq::<usize>::empty()
    }

    /// Adds one global node for [`Module::add_global_in_address_space`] and
    /// [`Module::add_global_alias`].
    fn push_global(
        &mut self,
        ctx: &mut Context,
        name: &str,
        ty: usize,
        space: u32,
        kind: ValueKind,
        initializer: usize,
    ) -> (raw: usize)
        requires
            old(ctx).wf(),
            old(self).valid(old(ctx)),
            old(ctx).type_known(ty),
            initializer < old(ctx).values.len(),
            nul_free(name.spec_bytes()),
            kind == ValueKind::GlobalVariable || kind == ValueKind::GlobalAlias,
        ensures
            Self::global_added(
                (old(self), old(ctx)),
                (final(self), final(ctx)),
                name.spec_bytes(),
                ty,
                space,
                kind,
                raw,
            ),
            final(ctx).values[raw as int].initializer == initializer,
    {
        let pointer = TypeNode {
            kind: TypeKind::Pointer,
            element: ty,
            members: Vec::new(),
            count: space as usize,
            packed: false,
            name: None,
        };
        assert(pointer@ == element_shape(TypeKind::Pointer, ty, space as usize));
        let ptr = ctx.intern(pointer);
        let ghost mid = *ctx;
        let node = ValueNode {
            kind,
            ty: ptr,
            name: Some(to_bytes(name)),
            attrs: 0,
            linkage: Linkage::External,
            constant: false,
            initializer,
            params: Vec::new(),
            blocks: Vec::new(),
            members: Vec::new(),
            bits: 0,
        };
        let raw = ctx.push_value(node);
        self.globals.push(raw);
        proof {
            assert forall|j: int| 0 <= j < self.globals.len() implies ctx.value_known(
                #[trigger] self.globals[j],
            ) && (ctx.values[self.globals[j] as int].kind == ValueKind::GlobalVariable
                || ctx.values[self.globals[j] as int].kind == ValueKind::GlobalAlias) by {
                if j < old(self).globals.len() {
                    assert(self.globals[j] == old(self).globals[j]);
                    assert(old(ctx).value_known(old(self).globals[j]));
                }
            }
            assert forall|j: int| 0 <= j < self.functions.len() implies ctx.value_known(
                #[trigger] self.functions[j],
            ) && ctx.values[self.functions[j] as int].kind == ValueKind::Function by {
                assert(old(ctx).value_known(old(self).functions[j]));
            }
        }
        raw
    }

    /// Adds a global to the module with the given type and name.
    pub fn add_global(&mut self, ctx: &mut Context, name: &str, ty: &Type) -> (global:
        GlobalVariable)
        requires
            old(ctx).wf(),
            old(self).valid(old(ctx)),
            ty.valid(old(ctx)),
            nul_free(name.spec_bytes()),
        ensures
            Self::global_added(
                (old(self), old(ctx)),
                (final(self), final(ctx)),
                name.spec_bytes(),
                ty.raw,
                0,
                ValueKind::GlobalVariable,
                global.raw,
            ),
            final(ctx).values[global.raw as int].initializer == 0,
            global.valid(final(ctx)),
    {
        GlobalVariable { raw: self.push_global(ctx, name, ty.raw, 0, ValueKind::GlobalVariable, 0) }
    }

    /// Adds a global to the module with the given type and name, in the
    /// address space given.
    pub fn add_global_in_address_space(
        &mut self,
        ctx: &mut Context,
        name: &str,
        ty: &Type,
        address: AddressSpace,
    ) -> (global: GlobalVariable)
        requires
            old(ctx).wf(),
            old(self).valid(old(ctx)),
            ty.valid(old(ctx)),
            nul_free(name.spec_bytes()),
        ensures
            Self::global_added(
                (old(self), old(ctx)),
                (final(self), final(ctx)),
                name.spec_bytes(),
                ty.raw,
                address.code_spec(),
                ValueKind::GlobalVariable,
                global.raw,
            ),
            final(ctx).values[global.raw as int].initializer == 0,
            global.valid(final(ctx)),
    {
        GlobalVariable {
            raw: self.push_global(
                ctx,
                name,
                ty.raw,
                address.code(),
                ValueKind::GlobalVariable,
                0,
            ),
        }
    }

    /// Adds a global variable to the module with the given name and initial
    /// value; its type is that of the value.
    pub fn add_global_variable(&mut self, ctx: &mut Context, name: &str, val: &Value) -> (global:
        GlobalVariable)
        requires
            old(ctx).wf(),
            old(self).valid(old(ctx)),
            val.valid(old(ctx)),
            nul_free(name.spec_bytes()),
        ensures
            Self::global_added(
                (old(self), old(ctx)),
                (final(self), final(ctx)),
                name.spec_bytes(),
                old(ctx).values[val.raw as int].ty,
                0,
                ValueKind::GlobalVariable,
                global.raw,
            ),
            final(ctx).values[global.raw as int].initializer == val.raw,
            global.valid(final(ctx)),
    {
        let ty = val.get_type(ctx);
        let raw = self.push_global(ctx, name, ty.raw, 0, ValueKind::GlobalVariable, val.raw);
        GlobalVariable { raw }
    }

    /// Adds an alias of the global given to the module, under the name given.
    /// The alias has the type of the global it stands for, and that global as
    /// its initial value.
    pub fn add_global_alias(&mut self, ctx: &mut Context, name: &str, val: &GlobalValue) -> (alias:
        Alias)
        requires
            old(ctx).wf(),
            old(self).valid(old(ctx)),
            val.valid(old(ctx)),
            nul_free(name.spec_bytes()),
        ensures
            Self::global_added(
                (old(self), old(ctx)),
                (final(self), final(ctx)),
                name.spec_bytes(),
                old(ctx).values[val.raw as int].ty,
                0,
                ValueKind::GlobalAlias,
                alias.raw,
            ),
            final(ctx).values[alias.raw as int].initializer == val.raw,
            alias.valid(final(ctx)),
    {
        proof {
            assert(ctx.value_node_ok(&ctx.values[val.raw as int]));
        }
        let ty = ctx.values[val.raw].ty;
        let raw = self.push_global(ctx, name, ty, 0, ValueKind::GlobalAlias, val.raw);
        Alias { raw }
    }

    /// Gets the global with the name given, or `None` if no global with that
    /// name exists.
    pub fn get_global(&self, ctx: &Context, name: &str) -> (global: Option<GlobalValue>)
        requires
            self.valid(ctx),
        ensures
            first_named(
                ctx,
                self.globals@,
                name.spec_bytes(),
                match global {
                    Some(g) => Some(g.raw),
                    None => None,
                },
            ),
            global.is_some() ==> global.unwrap().valid(ctx),
    {
        match find_named(ctx, &self.globals, name.as_bytes()) {
            Some(raw) => {
                proof {
                    let i = choose|i: int| 0 <= i < self.globals.len() && self.globals[i] == raw;
                    assert(ctx.value_known(self.globals[i]));
                }
                Some(GlobalValue { raw })
            },
            None => None,
        }
    }

    /// What adding a function does: the arena gets the pointer type to the
    /// signature if it lacks it, one argument node for each parameter of the
    /// signature, and then the function's node, which is added to the
    /// module's functions.
    pub open spec fn function_added(
        before: (&Module, &Context),
        after: (&Module, &Context),
        name: Seq<u8>,
        sig: usize,
        raw: usize,
    ) -> bool {
        let (m0, c0) = before;
        let (m1, c1) = after;
        let node = c1.values[raw as int];
        let want = c0.types[sig as int].members@;
        &&& c1.wf()
        &&& m1.valid(c1)
        &&& c0.types_kept_by(c1)
        &&& raw == c0.values.len() + want.len()
        &&& c1.values.len() == raw + 1
        &&& forall|j: int| 0 <= j < c0.values.len() ==> c1.values[j] == #[trigger] c0.values[j]
        &&& m1.functions@ == m0.functions@.push(raw)
        &&& m1.globals == m0.globals
        &&& m1.name == m0.name
        &&& m1.target == m0.target
        &&& node.kind == ValueKind::Function
        &&& node.name.is_some()
        &&& node.name.unwrap()@ == name
        &&& interned(c0, &with_types_of(c0, c1), element_shape(TypeKind::Pointer, sig, 0), node.ty)
        &&& node.attrs == 0
        &&& node.bits == 0
        &&& !node.constant
        &&& node.linkage == Linkage::External
        &&& node.initializer == 0
        &&& node.blocks@ == Seq::<usize>::empty()
        &&& node.params.len() == want.len()
        &&& forall|k: int|
            0 <= k < want.len() ==> (#[trigger] node.params[k]) == c0.values.len() + k && bare(
                c1.values[node.params[k] as int],
                ValueKind::Argument,
                want[k],
            ) && c1.values[node.params[k] as int].name.is_none()
    }

    /// Adds a function to the module with the name and the signature given.
    pub fn add_function(&mut self, ctx: &mut Context, name: &str, sig: &Type) -> (f: Function)
        requires
            old(ctx).wf(),
            old(self).valid(old(ctx)),
            sig.valid(old(ctx)),
            sig.kind_spec(old(ctx)) == TypeKind::Function,
            nul_free(name.spec_bytes()),
        ensures
            Self::function_added(
                (old(self), old(ctx)),
                (final(self), final(ctx)),
                name.spec_bytes(),
                sig.raw,
                f.raw,
            ),
            f.valid(final(ctx)),
    {
        let pointer = TypeNode {
            kind: TypeKind::Pointer,
            element: sig.raw,
            members: Vec::new(),
            count: 0,
            packed: false,
            name: None,
        };
        assert(pointer@ == element_shape(TypeKind::Pointer, sig.raw, 0));
        let ptr = ctx.intern(pointer);
        let want = copy_handles(&ctx.types[sig.raw].members);
        proof {
            assert(ctx.types[sig.raw as int] == old(ctx).types[sig.raw as int]);
            let shape = ctx.types[sig.raw as int]@;
            assert(Context::type_node_ok(shape, sig.raw as int));
            assert forall|k: int| 0 <= k < want.len() implies ctx.type_known(
                #[trigger] want[k],
            ) by {
                assert(0 < shape.members[k] < sig.raw);
            }
        }
        let ghost base = *ctx;
        let mut params: Vec<usize> = Vec::new();
        let mut i: usize = 0;
        while i < want.len()
            invariant
                i <= want.len(),
                ctx.wf(),
                ctx.types == base.types,
                ctx.values.len() == base.values.len() + i,
                forall|j: int|
                    0 <= j < base.values.len() ==> ctx.values[j] == #[trigger] base.values[j],
                forall|k: int| 0 <= k < want.len() ==> base.type_known(#[trigger] want[k]),
                params.len() == i,
                forall|k: int|
                    0 <= k < i ==> (#[trigger] params[k]) == base.values.len() + k && bare(
                        ctx.values[params[k] as int],
                        ValueKind::Argument,
                        want[k],
                    ) && ctx.values[params[k] as int].name.is_none(),
            decreases want.len() - i,
        {
            let node = ValueNode {
                kind: ValueKind::Argument,
                ty: want[i],
                name: None,
                attrs: 0,
                linkage: Linkage::External,
                constant: false,
                initializer: 0,
                params: Vec::new(),
                blocks: Vec::new(),
                members: Vec::new(),
                bits: 0,
            };
            let ghost before = *ctx;
            let raw = ctx.push_value(node);
            params.push(raw);
            i += 1;
            proof {
                assert forall|k: int| 0 <= k < i implies (#[trigger] params[k])
                    == base.values.len() + k && bare(
                    ctx.values[params[k] as int],
                    ValueKind::Argument,
                    want[k],
                ) && ctx.values[params[k] as int].name.is_none() by {
                    if k < i - 1 {
                        assert(ctx.values[params[k] as int] == before.values[params[k] as int]);
                    }
                }
            }
        }
        let node = ValueNode {
            kind: ValueKind::Function,
            ty: ptr,
            name: Some(to_bytes(name)),
            attrs: 0,
            linkage: Linkage::External,
            constant: false,
            initializer: 0,
            params,
            blocks: Vec::new(),
            members: Vec::new(),
            bits: 0,
        };
        let ghost filled = *ctx;
        let raw = ctx.push_value(node);
        self.functions.push(raw);
        proof {
            assert forall|j: int| 0 <= j < self.functions.len() implies ctx.value_known(
                #[trigger] self.functions[j],
            ) && ctx.values[self.functions[j] as int].kind == ValueKind::Function by {
                if j < old(self).functions.len() {
                    assert(self.functions[j] == old(self).functions[j]);
                    assert(old(ctx).value_known(old(self).functions[j]));
                    assert(ctx.values[self.functions[j] as int] == filled.values[self.functions[j] as int]);
                }
            }
            assert forall|j: int| 0 <= j < self.globals.len() implies ctx.value_known(
                #[trigger] self.globals[j],
            ) && (ctx.values[self.globals[j] as int].kind == ValueKind::GlobalVariable
                || ctx.values[self.globals[j] as int].kind == ValueKind::GlobalAlias) by {
                assert(old(ctx).value_known(old(self).globals[j]));
                assert(ctx.values[self.globals[j] as int] == filled.values[self.globals[j] as int]);
            }
            assert forall|j: int| 0 <= j < old(ctx).values.len() implies ctx.values[j]
                == #[trigger] old(ctx).values[j] by {
                assert(ctx.values[j] == filled.values[j]);
                assert(base.values[j] == old(ctx).values[j]);
            }
            let n = ctx.values[raw as int];
            assert forall|k: int| 0 <= k < want.len() implies (#[trigger] n.params[k])
                == old(ctx).values.len() + k && bare(
                ctx.values[n.params[k] as int],
                ValueKind::Argument,
                want[k],
            ) && ctx.values[n.params[k] as int].name.is_none() by {
                assert(ctx.values[n.params[k] as int] == filled.values[n.params[k] as int]);
            }
        }
        Function { raw }
    }

    /// Returns the function with the name given, or `None` if no function
    /// with that name exists.
    pub fn get_function(&self, ctx: &Context, name: &str) -> (f: Option<Function>)
        requires
            self.valid(ctx),
        ensures
            first_named(
                ctx,
                self.functions@,
                name.spec_bytes(),
                match f {
                    Some(g) => Some(g.raw),
                    None => None,
                },
            ),
            f.is_some() ==> f.unwrap().valid(ctx),
    {
        match find_named(ctx, &self.functions, name.as_bytes()) {
            Some(raw) => {
                proof {
                    let i = choose|i: int|
                        0 <= i < self.functions.len() && self.functions[i] == raw;
                    assert(ctx.value_known(self.functions[i]));
                }
                Some(Function { raw })
            },
            None => None,
        }
    }

    /// Returns the type with the name given, or `None` if no type with that
    /// name exists: the first named struct of the context with that name.
    pub fn get_type(&self, ctx: &Context, name: &str) -> (ty: Option<Type>)
        ensures
            match ty {
                Some(t) => t.valid(ctx) && ctx.types[t.raw as int]@.name == Some(name.spec_bytes())
                    && forall|j: int|
                    0 < j < t.raw ==> (#[trigger] ctx.types[j])@.name != Some(name.spec_bytes()),
                None => forall|j: int|
                    0 < j < ctx.types.len() ==> (#[trigger] ctx.types[j])@.name != Some(
                        name.spec_bytes(),
                    ),
            },
    {
        let bytes = name.as_bytes();
        let mut i: usize = 1;
        while i < ctx.types.len()
            invariant
                1 <= i,
                bytes@ == name.spec_bytes(),
                forall|j: int| 0 < j < i && j < ctx.types.len() ==> (#[trigger] ctx.types[j])@.name != Some(bytes@),
            decreases ctx.types.len() - i,
        {
            let hit = match &ctx.types[i].name {
                Some(n) => same_bytes(n.as_slice(), bytes),
                None => false,
            };
            if hit {
                return Some(Type { raw: i });
            }
            i += 1;
        }
        None
    }

    /// Reads what the loading and the parsing of a bitcode file returned.
    /// `buffer` is what the loading gave. Where that failed, its message is
    /// the error and nothing else is looked at; else the parsing failed
    /// exactly if its status is 1.
    pub fn parse_bitcode(buffer: Result<CBox, CBox>, status: i32, out: usize, err: usize) -> (r:
        Result<CSemiBox, CBox>)
        requires
            buffer.is_ok() && status == 1 ==> err != 0,
            buffer.is_ok() && status != 1 ==> out != 0,
        ensures
            match buffer {
                Err(text) => r == Err::<CSemiBox, CBox>(text),
                Ok(_) => if status == 1 {
                    r == Err::<CSemiBox, CBox>(CBox { resource: Resource::Message, raw: err })
                } else {
                    r == Ok::<CSemiBox, CBox>(
                        CSemiBox { own: CBox { resource: Resource::Module, raw: out }, inner: None },
                    )
                },
            },
    {
        match buffer {
            Err(text) => Err(text),
            Ok(_) => if status == 1 {
                Err(CBox::new(Resource::Message, err))
            } else {
                Ok(CSemiBox::new(Resource::Module, out))
            },
        }
    }

    /// Reads what the writing of the module's bitcode to a file returned: it
    /// failed exactly if the status is not 0.
    pub fn write_bitcode(status: i32) -> (r: Result<(), WriteError>)
        ensures
            status == 0 ==> r == Ok::<(), WriteError>(()),
            status != 0 ==> r == Err::<(), WriteError>(WriteError { status }),
    {
        if status != 0 {
            Err(WriteError { status })
        } else {
            Ok(())
        }
    }

    /// Reads what the verifying of the module returned: it failed exactly if
    /// the status is 1, and `error` is then the message.
    pub fn verify(status: i32, error: usize) -> (r: Result<(), CBox>)
        requires
            status == 1 ==> error != 0,
        ensures
            status == 1 ==> r == Err::<(), CBox>(CBox { resource: Resource::Message, raw: error }),
            status != 1 ==> r == Ok::<(), CBox>(()),
    {
        checked(status, error)
    }

    /// Reads what the linking of a module into this one returned: it failed
    /// exactly if the status is 1, and `message` is then the message.
    pub fn link(status: i32, message: usize) -> (r: Result<(), CBox>)
        requires
            status == 1 ==> message != 0,
        ensures
            status == 1 ==> r == Err::<(), CBox>(
                CBox { resource: Resource::Message, raw: message },
            ),
            status != 1 ==> r == Ok::<(), CBox>(()),
    {
        checked(status, message)
    }

    /// Reads what the linking of a module into this one returned, where the
    /// linking destroys its source. The source's owner is given up without a
    /// disposer call, whatever the status: the native library has taken the
    /// module over.
    pub fn link_destroy(src: CSemiBox, status: i32, message: usize) -> (r: Result<(), CBox>)
        requires
            status == 1 ==> message != 0,
        ensures
            status == 1 ==> r == Err::<(), CBox>(
                CBox { resource: Resource::Message, raw: message },
            ),
            status != 1 ==> r == Ok::<(), CBox>(()),
    {
        let CSemiBox { own, inner: _ } = src;
        let _ = own.unwrap();
        checked(status, message)
    }

    /// Returns the target of this module.
    pub fn get_target(&self) -> (target: &[u8])
        ensures
            target@ == self.target@,
    {
        self.target.as_slice()
    }

    /// Sets the target of this module to the target string given.
    pub fn set_target(&mut self, target: &str)
        requires
            nul_free(target.spec_bytes()),
        ensures
            final(self).target@ == target.spec_bytes(),
            final(self).name == old(self).name,
            final(self).functions == old(self).functions,
            final(self).globals == old(self).globals,
    {
        self.target = to_bytes(target);
    }

    /// Iterates through the functions in the module.
    pub fn into_iter(&self) -> (iter: Functions)
        ensures
            iter.functions@ == functions_of(self.functions@),
            iter.pos == 0,
            iter.remaining() == functions_of(self.functions@),
    {
        let mut functions: Vec<Function> = Vec::new();
        let mut i: usize = 0;
        while i < self.functions.len()
            invariant
                i <= self.functions.len(),
                functions@ == functions_of(self.functions@.subrange(0, i as int)),
            decreases self.functions.len() - i,
        {
            functions.push(Function { raw: self.functions[i] });
            i += 1;
            assert(functions@ =~= functions_of(self.functions@.subrange(0, i as int)));
        }
        assert(self.functions@.subrange(0, i as int) =~= self.functions@);
        assert(functions@.subrange(0, functions.len() as int) =~= functions@);
        Functions { functions, pos: 0 }
    }
}

impl GetContext for Module {
    open spec fn valid_in(&self, ctx: &Context) -> bool {
        self.valid(ctx)
    }

    fn get_context<'a>(&self, ctx: &'a Context) -> (found: Option<&'a Context>) {
        if !ctx.all_of_kind(&self.functions, ValueKind::Function) {
            return None;
        }
        let mut j: usize = 0;
        while j < self.globals.len()
            invariant
                j <= self.globals.len(),
                forall|x: int|
                    0 <= x < j ==> ctx.value_known(#[trigger] self.globals[x]) && (
                    ctx.values[self.globals[x] as int].kind == ValueKind::GlobalVariable
                        || ctx.values[self.globals[x] as int].kind == ValueKind::GlobalAlias),
            decreases self.globals.len() - j,
        {
            let g = self.globals[j];
            if g == 0 || g >= ctx.values.len() || !(ctx.values[g].kind
                == ValueKind::GlobalVariable || ctx.values[g].kind == ValueKind::GlobalAlias) {
                assert(!(ctx.value_known(self.globals[j as int]) && (
                ctx.values[self.globals[j as int] as int].kind == ValueKind::GlobalVariable
                    || ctx.values[self.globals[j as int] as int].kind == ValueKind::GlobalAlias)));
                return None;
            }
            j += 1;
        }
        Some(ctx)
    }
}

} // verus!
