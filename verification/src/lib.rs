//! A model of an arena-owned compiler object graph.
//!
//! A [`Context`] is the root arena. Types, values, functions and blocks live in
//! it and are named by opaque integer handles; the handle `0` is the null
//! handle. Each kind of native object has a reference type that wraps such a
//! handle. Turning a general reference into a more specific one is a checked
//! test on the node's kind tag; the way back is free. Owned resources are
//! guarded by owners whose disposal is recorded in a ledger.

pub mod block;
pub mod buffer;
pub mod builder;
pub mod compile;
pub mod context;
pub mod engine;
pub mod module;
pub mod object;
pub mod owner;
pub mod target;
pub mod types;
pub mod util;
pub mod value;

pub use block::{BasicBlock, BlockIter, PhiNode};
pub use builder::{Arithmetic, Builder, Comparison, IntPredicate, RealPredicate};
pub use buffer::MemoryBuffer;
pub use compile::Compile;
pub use context::{Context, GetContext, TypeKind, TypeNode, TypeShape, ValueNode};
pub use engine::{
    CodeModel, CompilerOptions, EngineError, GenericValue, Interpreter, JitAction, JitEngine,
    JitEvent, JitOptions, JitState,
};
pub use module::{AddressSpace, Functions, Module, WriteError};
pub use object::{ObjectError, ObjectFile, Symbol, Symbols};
pub use owner::{CBox, CSemiBox, Disposal, Ledger, Resource};
pub use target::{Target, TargetData};
pub use types::{ArrayType, FunctionType, IntegerType, PointerType, StructType, Type, VectorType};
pub use util::{NativeRef, Sub};
pub use value::{
    Alias, Arg, Attribute, Function, GlobalValue, GlobalVariable, Linkage, Predicate, Value,
    ValueKind,
};
