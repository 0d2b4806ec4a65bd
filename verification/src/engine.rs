//! Execution engines: the steps of making one, and the check of a function's
//! signature before it is run.

use vstd::prelude::*;
use crate::compile::Compile;
use crate::context::{same_handles, Context, TypeKind};
use crate::owner::{if_zero, CBox, CSemiBox, Resource};
use crate::types::Type;
use crate::util::NativeRef;
use crate::value::Function;

verus! {

/// The options to pass to the just-in-time compiler.
#[derive(Clone, Copy, Debug, PartialEq, Eq, Structural)]
pub struct JitOptions {
    /// The degree to which optimizations should be done, between 0 and 3.
    ///
    /// 0 represents no optimizations, 3 represents maximum optimization.
    pub opt_level: usize,
}

/// The code models of the native library.
#[derive(Clone, Copy, Debug, PartialEq, Eq, Structural)]
pub enum CodeModel {
    Default,
    JitDefault,
    Small,
    Kernel,
    Medium,
    Large,
}

/// The options that the native compiler is created with.
#[derive(Clone, Copy, Debug, PartialEq, Eq, Structural)]
pub struct CompilerOptions {
    pub opt_level: u32,
    pub code_model: CodeModel,
    pub no_frame_pointer_elim: bool,
    pub enable_fast_isel: bool,
}

/// Why an engine could not be made.
#[derive(Debug)]
pub enum EngineError {
    /// The native target could not be initialized.
    NativeTarget,
    /// The native assembly printer could not be initialized.
    NativeAsmPrinter,
    /// The native library refused; it owns the text of the reason, and this
    /// is the owner of that text.
    Native(CBox),
}

impl EngineError {
    /// The text of the error, where the library itself words it.
    pub fn describe(&self) -> (text: Option<&'static str>)
        ensures
            self is NativeTarget ==> text == Some("failed to initialize native target"),
            self is NativeAsmPrinter ==> text == Some("failed to initialize native asm printer"),
            self is Native ==> text.is_none(),
    {
        match self {
            EngineError::NativeTarget => Some("failed to initialize native target"),
            EngineError::NativeAsmPrinter => Some("failed to initialize native asm printer"),
            EngineError::Native(_) => None,
        }
    }
}

/// How far the making of a just-in-time engine has come.
#[derive(Clone, Copy, Debug, PartialEq, Eq, Structural)]
pub enum JitState {
    /// Nothing was asked of the native library yet.
    Start,
    /// The native target is being initialized.
    InitializingTarget,
    /// The native assembly printer is being initialized.
    InitializingPrinter,
    /// The compiler is being created.
    Creating,
    /// The result was returned.
    Finished,
}

/// What the native library answered to the last action.
#[derive(Clone, Copy, Debug, PartialEq, Eq, Structural)]
pub enum JitEvent {
    /// Nothing yet: the making starts.
    Begin,
    /// The status that an initialization returned.
    Initialized(i32),
    /// What the creation of the compiler returned: its status, and the two
    /// handles it wrote.
    Created { status: i32, engine: usize, message: usize },
}

/// What to do next.
#[derive(Debug)]
pub enum JitAction {
    /// Link the just-in-time compiler in and initialize the native target.
    InitializeNativeTarget,
    /// Initialize the native assembly printer.
    InitializeNativeAsmPrinter,
    /// Create the compiler for the module with these options.
    CreateCompiler(CompilerOptions),
    /// Return this result.
    Return(Result<CSemiBox, EngineError>),
}

/// The options that the compiler is created with for the options given: the
/// optimization level cut to 32 bits, the default code model, frame pointers
/// eliminated, and fast instruction selection.
pub open spec fn compiler_options(options: JitOptions) -> CompilerOptions {
    CompilerOptions {
        opt_level: options.opt_level as u32,
        code_model: CodeModel::Default,
        no_frame_pointer_elim: false,
        enable_fast_isel: true,
    }
}

/// Whether `event` is an answer that can come in `state`. Where a creation
/// succeeded the engine handle is set, and where it failed the message
/// handle is.
pub open spec fn expected(state: JitState, event: JitEvent) -> bool {
    match (state, event) {
        (JitState::Start, JitEvent::Begin) => true,
        (JitState::InitializingTarget, JitEvent::Initialized(_)) => true,
        (JitState::InitializingPrinter, JitEvent::Initialized(_)) => true,
        (JitState::Creating, JitEvent::Created { status, engine, message }) => if status == 0 {
            engine != 0
        } else {
            message != 0
        },
        _ => false,
    }
}

/// The state after `event` came in `state`.
pub open spec fn next_state(state: JitState, event: JitEvent) -> JitState {
    match (state, event) {
        (JitState::Start, _) => JitState::InitializingTarget,
        (JitState::InitializingTarget, JitEvent::Initialized(status)) => if status == 1 {
            JitState::Finished
        } else {
            JitState::InitializingPrinter
        },
        (JitState::InitializingPrinter, JitEvent::Initialized(status)) => if status == 1 {
            JitState::Finished
        } else {
            JitState::Creating
        },
        _ => JitState::Finished,
    }
}

/// The action to take after `event` came in `state`.
pub open spec fn next_action(state: JitState, event: JitEvent, options: JitOptions) -> JitAction {
    match (state, event) {
        (JitState::Start, _) => JitAction::InitializeNativeTarget,
        (JitState::InitializingTarget, JitEvent::Initialized(status)) => if status == 1 {
            JitAction::Return(Err(EngineError::NativeTarget))
        } else {
            JitAction::InitializeNativeAsmPrinter
        },
        (JitState::InitializingPrinter, JitEvent::Initialized(status)) => if status == 1 {
            JitAction::Return(Err(EngineError::NativeAsmPrinter))
        } else {
            JitAction::CreateCompiler(compiler_options(options))
        },
        (_, JitEvent::Created { status, engine, message }) => if status == 0 {
            JitAction::Return(
                Ok(
                    CSemiBox {
                        own: CBox { resource: Resource::ExecutionEngine, raw: engine },
                        inner: None,
                    },
                ),
            )
        } else {
            JitAction::Return(
                Err(EngineError::Native(CBox { resource: Resource::Message, raw: message })),
            )
        },
        _ => JitAction::Return(Err(EngineError::NativeTarget)),
    }
}

/// Checks that `event` is an answer that can come in `state`.
pub fn fits(state: JitState, event: JitEvent) -> (b: bool)
    ensures
        b == expected(state, event),
{
    match (state, event) {
        (JitState::Start, JitEvent::Begin) => true,
        (JitState::InitializingTarget, JitEvent::Initialized(_)) => true,
        (JitState::InitializingPrinter, JitEvent::Initialized(_)) => true,
        (JitState::Creating, JitEvent::Created { status, engine, message }) => if status == 0 {
            engine != 0
        } else {
            message != 0
        },
        _ => false,
    }
}

/// The just-in-time backend, which compiles functions and values into machine code.
#[derive(Clone, Copy, Debug, PartialEq, Eq, Structural)]
pub struct JitEngine {
    /// The raw handle.
    pub raw: usize,
}

impl NativeRef for JitEngine {
    open spec fn raw_spec(&self) -> usize {
        self.raw
    }

    open spec fn project(raw: usize) -> Self {
        JitEngine { raw }
    }

    fn from_raw(raw: usize) -> (r: Self) {
        JitEngine { raw }
    }

    fn as_raw(&self) -> (raw: usize) {
        self.raw
    }

    proof fn raw_round_trip(raw: usize) {
    }

    proof fn ref_round_trip(r: Self) {
    }
}

/// Whether a signature with the result `sig_ret` and the parameters
/// `sig_params` is the one that a native function from `arg` to `ret` has.
/// `fields` holds the fields of `arg` where `arg` is a struct: they are then
/// the parameters; else `arg` is the one parameter.
pub open spec fn accepts(
    sig_ret: usize,
    sig_params: Seq<usize>,
    ret: usize,
    arg: usize,
    fields: Option<Seq<usize>>,
) -> bool {
    sig_ret == ret && sig_params == (match fields {
        Some(f) => f,
        None => seq![arg],
    })
}

/// Checks a signature against a result and an argument type, all given by
/// their raw handles: the test on plain values, for a caller that holds no
/// arena.
pub fn signature_accepts(
    sig_ret: usize,
    sig_params: &Vec<usize>,
    ret: usize,
    arg: usize,
    fields: Option<&Vec<usize>>,
) -> (b: bool)
    ensures
        b == accepts(
            sig_ret,
            sig_params@,
            ret,
            arg,
            match fields {
                Some(f) => Some(f@),
                None => None,
            },
        ),
{
    if sig_ret != ret {
        return false;
    }
    match fields {
        Some(f) => same_handles(sig_params, f),
        None => {
            let b = sig_params.len() == 1 && sig_params[0] == arg;
            proof {
                if b {
                    assert(sig_params@ =~= seq![arg]);
                } else if sig_params.len() == 1 {
                    assert(sig_params@[0] != seq![arg][0]);
                } else {
                    assert(sig_params@.len() != seq![arg].len());
                }
            }
            b
        },
    }
}

/// Whether the signature of `function` is the one that a native function
/// from `arg` to `ret` has. Where `arg` is a struct, its fields are the
/// parameters; else `arg` is the one parameter.
pub open spec fn signature_is(ctx: &Context, function: &Function, ret: &Type, arg: &Type) -> bool {
    let sig = ctx.types[ctx.types[ctx.values[function.raw as int].ty as int].element as int];
    let arg_node = ctx.types[arg.raw as int];
    accepts(
        sig.element,
        sig.members@,
        ret.raw,
        arg.raw,
        if arg_node.kind == TypeKind::Struct {
            Some(arg_node.members@)
        } else {
            None
        },
    )
}

/// Checks that the signature of `function` is the one that a native function
/// from `arg` to `ret` has.
pub fn signature_matches(ctx: &Context, function: &Function, ret: &Type, arg: &Type) -> (b: bool)
    requires
        ctx.wf(),
        function.valid(ctx),
        ret.valid(ctx),
        arg.valid(ctx),
    ensures
        b == signature_is(ctx, function, ret, arg),
{
    let sig = function.get_signature(ctx);
    let fields = if ctx.types[arg.raw].kind == TypeKind::Struct {
        Some(&ctx.types[arg.raw].members)
    } else {
        None
    };
    signature_accepts(
        ctx.types[sig.raw].element,
        &ctx.types[sig.raw].members,
        ret.raw,
        arg.raw,
        fields,
    )
}

impl JitEngine {
    /// Takes one step in the making of an engine: given how far the making
    /// has come and what the native library answered last, says what to do
    /// next.
    pub fn step(state: JitState, event: JitEvent, options: JitOptions) -> (r: (JitState, JitAction))
        requires
            expected(state, event),
        ensures
            r.0 == next_state(state, event),
            r.1 == next_action(state, event, options),
    {
        match (state, event) {
            (JitState::Start, _) => (JitState::InitializingTarget, JitAction::InitializeNativeTarget),
            (JitState::InitializingTarget, JitEvent::Initialized(status)) => if status == 1 {
                (JitState::Finished, JitAction::Return(Err(EngineError::NativeTarget)))
            } else {
                (JitState::InitializingPrinter, JitAction::InitializeNativeAsmPrinter)
            },
            (JitState::InitializingPrinter, JitEvent::Initialized(status)) => if status == 1 {
                (JitState::Finished, JitAction::Return(Err(EngineError::NativeAsmPrinter)))
            } else {
                (JitState::Creating, JitAction::CreateCompiler(Self::options_for(options)))
            },
            (_, JitEvent::Created { status, engine, message }) => {
                match if_zero(status, Resource::ExecutionEngine, engine, message) {
                    Ok(owner) => (JitState::Finished, JitAction::Return(Ok(owner))),
                    Err(text) => (
                        JitState::Finished,
                        JitAction::Return(Err(EngineError::Native(text))),
                    ),
                }
            },
            _ => (JitState::Finished, JitAction::Return(Err(EngineError::NativeTarget))),
        }
    }

    /// The options that the compiler is created with for the options given.
    pub fn options_for(options: JitOptions) -> (o: CompilerOptions)
        ensures
            o == compiler_options(options),
    {
        let opt_level = #[verifier::truncate]
        (options.opt_level as u32);
        CompilerOptions {
            opt_level,
            code_model: CodeModel::Default,
            no_frame_pointer_elim: false,
            enable_fast_isel: true,
        }
    }

    /// Checks that `function` can be run as a native function that takes an
    /// `A` and returns an `R`. The type of `R` is asked for first, then that
    /// of `A`; the two are returned with the answer.
    pub fn check_function<A: Compile, R: Compile>(&self, ctx: &mut Context, function: &Function) -> (r:
        (bool, Type, Type))
        requires
            old(ctx).wf(),
            function.valid(old(ctx)),
        ensures
            final(ctx).wf(),
            final(ctx).values == old(ctx).values,
            old(ctx).types_kept_by(final(ctx)),
            R::stands_for(final(ctx), r.1.raw),
            A::stands_for(final(ctx), r.2.raw),
            r.0 == signature_is(final(ctx), function, &r.1, &r.2),
    {
        let ret = Type::get::<R>(ctx);
        let ghost mid = *ctx;
        let arg = Type::get::<A>(ctx);
        proof {
            R::stands_for_kept(&mid, ctx, ret.raw);
        }
        let ok = signature_matches(ctx, function, &ret, &arg);
        (ok, ret, arg)
    }
}

/// The interpreter backend.
#[derive(Clone, Copy, Debug, PartialEq, Eq, Structural)]
pub struct Interpreter {
    /// The raw handle.
    pub raw: usize,
}

impl NativeRef for Interpreter {
    open spec fn raw_spec(&self) -> usize {
        self.raw
    }

    open spec fn project(raw: usize) -> Self {
        Interpreter { raw }
    }

    fn from_raw(raw: usize) -> (r: Self) {
        Interpreter { raw }
    }

    fn as_raw(&self) -> (raw: usize) {
        self.raw
    }

    proof fn raw_round_trip(raw: usize) {
    }

    proof fn ref_round_trip(r: Self) {
    }
}

impl Interpreter {
    /// Reads what the creation of an interpreter returned: the owner of the
    /// engine where the status is 0, else the owner of the message.
    pub fn created(status: i32, engine: usize, message: usize) -> (r: Result<CSemiBox, CBox>)
        requires
            status == 0 ==> engine != 0,
            status != 0 ==> message != 0,
        ensures
            status == 0 ==> r == Ok::<CSemiBox, CBox>(
                CSemiBox {
                    own: CBox { resource: Resource::ExecutionEngine, raw: engine },
                    inner: None,
                },
            ),
            status != 0 ==> r == Err::<CSemiBox, CBox>(
                CBox { resource: Resource::Message, raw: message },
            ),
    {
        if_zero(status, Resource::ExecutionEngine, engine, message)
    }
}

/// A wrapped value that can be passed to an interpreted function or returned from one.
#[derive(Clone, Copy, Debug, PartialEq, Eq, Structural)]
pub struct GenericValue {
    /// The raw handle.
    pub raw: usize,
}

impl NativeRef for GenericValue {
    open spec fn raw_spec(&self) -> usize {
        self.raw
    }

    open spec fn project(raw: usize) -> Self {
        GenericValue { raw }
    }

    fn from_raw(raw: usize) -> (r: Self) {
        GenericValue { raw }
    }

    fn as_raw(&self) -> (raw: usize) {
        self.raw
    }

    proof fn raw_round_trip(raw: usize) {
    }

    proof fn ref_round_trip(r: Self) {
    }
}

} // verus!
