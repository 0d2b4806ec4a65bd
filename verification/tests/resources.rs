use llvm::builder::select_comparison;
use llvm::compile::function_type;
use llvm::Predicate::{
    Equal, GreaterThan, GreaterThanOrEqual, LessThan, LessThanOrEqual, NotEqual,
};
use llvm::engine::{fits, signature_accepts, signature_matches};
use llvm::types::{narrows_to, narrows_to_function};
use llvm::owner::{checked, if_zero, unless_one};
use llvm::{
    Arithmetic, Builder, CBox, CSemiBox, CodeModel, Comparison, Compile, Context, Disposal,
    EngineError, FunctionType, IntPredicate, IntegerType, Interpreter, JitAction, JitEngine,
    JitEvent, JitOptions, JitState, Ledger, MemoryBuffer, Module, NativeRef, ObjectError,
    ObjectFile, RealPredicate, Resource, StructType, Sub, Symbol, Symbols, TargetData, Type,
    TypeKind,
    WriteError,
};

const RESOURCES: [Resource; 10] = [
    Resource::Context,
    Resource::Module,
    Resource::Builder,
    Resource::TargetData,
    Resource::ExecutionEngine,
    Resource::GenericValue,
    Resource::MemoryBuffer,
    Resource::ObjectFile,
    Resource::SymbolIterator,
    Resource::Message,
];

#[test]
fn every_owner_disposes_exactly_once() {
    for (i, resource) in RESOURCES.iter().enumerate() {
        let mut ledger = Ledger::new();
        let raw = 100 + i;
        assert_eq!(ledger.count(*resource, raw), 0);
        let owner = CBox::new(*resource, raw);
        assert_eq!(owner.as_ptr(), raw);
        owner.dispose(&mut ledger);
        assert_eq!(ledger.count(*resource, raw), 1);
        assert_eq!(ledger.calls, vec![Disposal { resource: *resource, raw }]);
        for other in RESOURCES.iter().filter(|r| *r != resource) {
            assert_eq!(ledger.count(*other, raw), 0);
        }
        assert_eq!(ledger.count(*resource, raw + 1), 0);

        let semi = CSemiBox::new(*resource, raw);
        assert_eq!(semi.as_ptr(), raw);
        semi.dispose(&mut ledger);
        assert_eq!(ledger.count(*resource, raw), 2);
    }
}

#[test]
fn unwrapped_owner_disposes_nothing() {
    let ledger = Ledger::new();
    let owner = CBox::new(Resource::Module, 5);
    assert_eq!(owner.unwrap(), 5);
    assert!(ledger.calls.is_empty());
}

#[test]
fn chained_owner_disposes_inner_first() {
    let mut ledger = Ledger::new();
    let context = CBox::new(Resource::Context, 1);
    let module = CSemiBox::chained(Resource::Module, 2, context);
    module.dispose(&mut ledger);
    assert_eq!(
        ledger.calls,
        vec![
            Disposal { resource: Resource::Context, raw: 1 },
            Disposal { resource: Resource::Module, raw: 2 },
        ]
    );
}

#[test]
fn factory_results() {
    let ok = unless_one(0, Resource::MemoryBuffer, 11, 0).unwrap();
    assert_eq!((ok.resource, ok.raw), (Resource::MemoryBuffer, 11));
    let err = unless_one(1, Resource::MemoryBuffer, 0, 12).unwrap_err();
    assert_eq!((err.resource, err.raw), (Resource::Message, 12));
    let odd = unless_one(2, Resource::MemoryBuffer, 11, 12).unwrap();
    assert_eq!(odd.raw, 11);

    let ok = if_zero(0, Resource::ExecutionEngine, 21, 0).unwrap();
    assert_eq!((ok.own.resource, ok.own.raw), (Resource::ExecutionEngine, 21));
    assert!(ok.inner.is_none());
    let err = if_zero(1, Resource::ExecutionEngine, 0, 22).unwrap_err();
    assert_eq!((err.resource, err.raw), (Resource::Message, 22));
    let err = if_zero(-1, Resource::ExecutionEngine, 21, 22).unwrap_err();
    assert_eq!(err.raw, 22);

    assert!(checked(0, 0).is_ok());
    assert!(checked(3, 9).is_ok());
    assert_eq!(checked(1, 9).unwrap_err().raw, 9);

    assert_eq!(MemoryBuffer::new_from_file(0, 31, 0).unwrap().raw, 31);
    let e = MemoryBuffer::new_from_file(1, 0, 32).unwrap_err();
    assert_eq!((e.resource, e.raw), (Resource::Message, 32));
    assert_eq!(MemoryBuffer::new_from_str(33).unwrap().resource, Resource::MemoryBuffer);
    assert_eq!(MemoryBuffer::name_for(Some("buf")), b"buf\0".to_vec());
    assert_eq!(MemoryBuffer::name_for(None), vec![0]);
    assert_eq!(MemoryBuffer::from_raw(4).as_raw(), 4);

    assert!(Module::verify(0, 0).is_ok());
    assert_eq!(Module::verify(1, 41).unwrap_err().raw, 41);
    assert!(Module::link(0, 0).is_ok());
    assert_eq!(Module::link(1, 42).unwrap_err().raw, 42);
    assert!(Module::link_destroy(CSemiBox::new(Resource::Module, 7), 0, 0).is_ok());
    assert_eq!(Module::link_destroy(CSemiBox::new(Resource::Module, 7), 1, 43).unwrap_err().raw, 43);
    assert!(Module::write_bitcode(0).is_ok());
    assert_eq!(Module::write_bitcode(1), Err(WriteError { status: 1 }));
    assert_eq!(Module::write_bitcode(-5), Err(WriteError { status: -5 }));

    let buffer = MemoryBuffer::new_from_file(0, 31, 0);
    let module = Module::parse_bitcode(buffer, 0, 51, 0).unwrap();
    assert_eq!((module.own.resource, module.own.raw), (Resource::Module, 51));
    let buffer = MemoryBuffer::new_from_file(0, 31, 0);
    let e = Module::parse_bitcode(buffer, 1, 0, 52).unwrap_err();
    assert_eq!((e.resource, e.raw), (Resource::Message, 52));
    let buffer = MemoryBuffer::new_from_file(1, 0, 32);
    let e = Module::parse_bitcode(buffer, 0, 51, 0).unwrap_err();
    assert_eq!(e.raw, 32);

    assert!(TargetData::is_big_endian(0));
    assert!(!TargetData::is_big_endian(1));
}

fn table() -> Vec<Symbol> {
    vec![
        Symbol { name: b"main".to_vec(), address: 0x1000, size: 24 },
        Symbol { name: b"helper".to_vec(), address: 0x1018, size: 8 },
        Symbol { name: b"data".to_vec(), address: 0x2000, size: 64 },
    ]
}

fn walk(symbols: &mut Symbols) -> Vec<Symbol> {
    let mut reads: Vec<Option<Symbol>> = table().into_iter().map(Some).collect();
    reads.push(None);
    let mut seen = Vec::new();
    for read in reads {
        if let Some(symbol) = symbols.next(read) {
            seen.push(symbol);
        }
    }
    seen
}

#[test]
fn object_files_and_symbols() {
    let mut ledger = Ledger::new();
    let loaded = MemoryBuffer::new_from_file(0, 31, 0);
    let file = ObjectFile::read(loaded, 61, &mut ledger).unwrap();
    assert_eq!(file.as_ptr(), 61);
    assert_eq!((file.obj.resource, file.obj.raw), (Resource::ObjectFile, 61));
    assert_eq!((file.buffer.resource, file.buffer.raw), (Resource::MemoryBuffer, 31));
    assert!(ledger.calls.is_empty());

    // A null handle is never wrapped, and the buffer is released.
    let loaded = MemoryBuffer::new_from_file(0, 32, 0);
    match ObjectFile::read(loaded, 0, &mut ledger) {
        Err(e) => {
            assert!(matches!(e, ObjectError::Unknown));
            assert_eq!(e.describe(), Some("unknown error"));
        }
        Ok(_) => panic!("a null object handle was accepted"),
    }
    assert_eq!(ledger.calls, vec![Disposal { resource: Resource::MemoryBuffer, raw: 32 }]);
    let failed = MemoryBuffer::new_from_file(1, 0, 33);
    match ObjectFile::read(failed, 61, &mut ledger) {
        Err(ObjectError::Load(text)) => {
            assert_eq!(text.raw, 33);
            assert_eq!(text.resource, Resource::Message);
        }
        _ => panic!("the load error was dropped"),
    }
    assert_eq!(ledger.calls.len(), 1);

    let mut ledger = Ledger::new();
    let mut first = file.symbols(71);
    let mut second = file.symbols(72);
    let seen_first = walk(&mut first);
    // Advancing one iterator does not move the other.
    assert!(first.done);
    assert!(!second.done);
    let seen_second = walk(&mut second);
    assert_eq!(seen_first, table());
    assert_eq!(seen_first, seen_second);
    // One shot: once the end was seen, nothing more comes.
    assert_eq!(first.next(Some(Symbol { name: b"late".to_vec(), address: 1, size: 1 })), None);
    first.dispose(&mut ledger);
    second.dispose(&mut ledger);
    assert_eq!(ledger.count(Resource::SymbolIterator, 71), 1);
    assert_eq!(ledger.count(Resource::SymbolIterator, 72), 1);
    // An iterator that was never advanced is disposed of as well.
    let untouched = file.symbols(73);
    untouched.dispose(&mut ledger);
    assert_eq!(ledger.count(Resource::SymbolIterator, 73), 1);
    assert_eq!(ledger.calls.len(), 3);

    // The file releases its object once, and then the buffer behind it.
    assert_eq!(ledger.count(Resource::ObjectFile, 61), 0);
    file.dispose(&mut ledger);
    assert_eq!(ledger.count(Resource::ObjectFile, 61), 1);
    assert_eq!(ledger.count(Resource::MemoryBuffer, 31), 1);
    assert_eq!(
        ledger.calls[3..],
        [
            Disposal { resource: Resource::ObjectFile, raw: 61 },
            Disposal { resource: Resource::MemoryBuffer, raw: 31 },
        ]
    );
}

#[test]
fn narrowing_on_plain_kind_tags() {
    assert!(narrows_to(TypeKind::Struct, TypeKind::Struct));
    assert!(!narrows_to(TypeKind::Integer, TypeKind::Struct));
    assert!(!narrows_to(TypeKind::Integer, TypeKind::Function));
    assert!(narrows_to_function(&[TypeKind::Function]));
    assert!(narrows_to_function(&[TypeKind::Pointer, TypeKind::Function]));
    assert!(narrows_to_function(&[TypeKind::Pointer, TypeKind::Pointer, TypeKind::Function]));
    assert!(!narrows_to_function(&[TypeKind::Pointer, TypeKind::Integer]));
    assert!(!narrows_to_function(&[TypeKind::Integer]));
    assert!(!narrows_to_function(&[TypeKind::Pointer]));
    assert!(!narrows_to_function(&[]));
    // What stands behind the first tag that is no pointer is not looked at.
    assert!(!narrows_to_function(&[TypeKind::Struct, TypeKind::Function]));

    assert!(signature_accepts(1, &vec![2], 1, 2, None));
    assert!(!signature_accepts(1, &vec![2], 3, 2, None));
    assert!(!signature_accepts(1, &vec![2, 2], 1, 2, None));
    assert!(!signature_accepts(1, &vec![], 1, 2, None));
    assert!(signature_accepts(1, &vec![2, 3], 1, 9, Some(&vec![2, 3])));
    assert!(!signature_accepts(1, &vec![9], 1, 9, Some(&vec![2, 3])));
    assert!(signature_accepts(1, &vec![], 1, 9, Some(&vec![])));
}

fn run_jit(target: i32, printer: i32, created: (i32, usize, usize)) -> (Vec<String>, Result<CSemiBox, EngineError>) {
    let options = JitOptions { opt_level: 2 };
    let mut trace = Vec::new();
    let mut state = JitState::Start;
    let mut event = JitEvent::Begin;
    loop {
        assert!(fits(state, event));
        let (next, action) = JitEngine::step(state, event, options);
        state = next;
        match action {
            JitAction::InitializeNativeTarget => {
                trace.push("target".to_string());
                event = JitEvent::Initialized(target);
            }
            JitAction::InitializeNativeAsmPrinter => {
                trace.push("printer".to_string());
                event = JitEvent::Initialized(printer);
            }
            JitAction::CreateCompiler(o) => {
                assert_eq!(o.opt_level, 2);
                assert_eq!(o.code_model, CodeModel::Default);
                assert!(!o.no_frame_pointer_elim);
                assert!(o.enable_fast_isel);
                trace.push("create".to_string());
                event = JitEvent::Created { status: created.0, engine: created.1, message: created.2 };
            }
            JitAction::Return(result) => {
                assert_eq!(state, JitState::Finished);
                return (trace, result);
            }
        }
    }
}

#[test]
fn engine_construction_reports_a_diagnostic() {
    let (trace, result) = run_jit(1, 0, (0, 5, 0));
    assert_eq!(trace, vec!["target"]);
    let error = result.unwrap_err();
    assert!(matches!(error, EngineError::NativeTarget));
    assert_eq!(error.describe(), Some("failed to initialize native target"));

    let (trace, result) = run_jit(0, 1, (0, 5, 0));
    assert_eq!(trace, vec!["target", "printer"]);
    let error = result.unwrap_err();
    assert!(matches!(error, EngineError::NativeAsmPrinter));
    assert_eq!(error.describe(), Some("failed to initialize native asm printer"));

    let (trace, result) = run_jit(0, 0, (1, 0, 9));
    assert_eq!(trace, vec!["target", "printer", "create"]);
    match result.unwrap_err() {
        EngineError::Native(text) => {
            assert_eq!((text.resource, text.raw), (Resource::Message, 9));
        }
        other => panic!("unexpected error {:?}", other),
    }

    let (trace, result) = run_jit(0, 0, (0, 5, 0));
    assert_eq!(trace, vec!["target", "printer", "create"]);
    let engine = result.unwrap();
    assert_eq!((engine.own.resource, engine.own.raw), (Resource::ExecutionEngine, 5));

    assert!(!fits(JitState::Start, JitEvent::Initialized(0)));
    assert!(!fits(JitState::Finished, JitEvent::Begin));
    assert!(!fits(JitState::Creating, JitEvent::Created { status: 0, engine: 0, message: 1 }));
    assert!(!fits(JitState::Creating, JitEvent::Created { status: 1, engine: 1, message: 0 }));

    assert_eq!(Interpreter::created(0, 5, 0).unwrap().own.raw, 5);
    let e = Interpreter::created(1, 0, 6).unwrap_err();
    assert_eq!((e.resource, e.raw), (Resource::Message, 6));
    assert_eq!(JitEngine::options_for(JitOptions { opt_level: 3 }).opt_level, 3);
}

#[test]
fn signature_check() {
    let mut ctx = Context::new();
    let mut module = Module::new("m", &ctx);
    let i64t = IntegerType::new(&mut ctx, 64).to_super();
    let i32t = IntegerType::new(&mut ctx, 32).to_super();
    let unary = FunctionType::new(&mut ctx, &i64t, &[i64t]).to_super();
    let binary = FunctionType::new(&mut ctx, &i64t, &[i64t, i32t]).to_super();
    let f = module.add_function(&mut ctx, "f", &unary);
    let g = module.add_function(&mut ctx, "g", &binary);
    let pair = StructType::new(&mut ctx, &[i64t, i32t], false).to_super();
    assert!(signature_matches(&ctx, &f, &i64t, &i64t));
    assert!(!signature_matches(&ctx, &f, &i32t, &i64t));
    assert!(!signature_matches(&ctx, &f, &i64t, &i32t));
    assert!(!signature_matches(&ctx, &f, &i64t, &pair));
    assert!(signature_matches(&ctx, &g, &i64t, &pair));
    assert!(!signature_matches(&ctx, &g, &i64t, &i64t));

    let engine = JitEngine::from_raw(1);
    let (ok, ret, arg) = engine.check_function::<u64, u64>(&mut ctx, &f);
    assert!(ok);
    assert_eq!((ret, arg), (i64t, i64t));
    let (ok, _, _) = engine.check_function::<u32, u64>(&mut ctx, &f);
    assert!(!ok);
    let (ok, _, arg) = engine.check_function::<(u64, u32), u64>(&mut ctx, &g);
    assert!(ok);
    assert_eq!(arg, pair);
    let (ok, _, _) = engine.check_function::<(u32, u64), u64>(&mut ctx, &g);
    assert!(!ok);
    let (ok, _, _) = engine.check_function::<(u64, u32), u64>(&mut ctx, &f);
    assert!(!ok);
    // A function that is declared with the signature made for an argument
    // and a result is accepted for them.
    let (sig, ret, arg) = function_type::<bool, (u8, u16, u32)>(&mut ctx);
    assert_eq!(sig.get_return(&ctx), ret);
    assert_eq!(sig.num_params(&ctx), 3);
    assert_eq!(
        sig.get_params(&ctx),
        StructType::from_super(&ctx, &arg).unwrap().get_elements(&ctx)
    );
    let h = module.add_function(&mut ctx, "h", &sig.to_super());
    let (ok, _, _) = engine.check_function::<(u8, u16, u32), bool>(&mut ctx, &h);
    assert!(ok);
    let (ok, _, _) = engine.check_function::<(u8, u16), bool>(&mut ctx, &h);
    assert!(!ok);
    let (unary_sig, _, _) = function_type::<u64, u64>(&mut ctx);
    assert_eq!(unary_sig.to_super(), unary);
    let (ok, ret, arg) = engine.check_function::<i64, bool>(&mut ctx, &f);
    assert!(!ok);
    assert_eq!(ret, Type::get::<bool>(&mut ctx));
    assert_eq!(arg, i64t);
}

#[test]
fn comparison_choice() {
    let ints = [
        (Equal, IntPredicate::EQ, 32),
        (NotEqual, IntPredicate::NE, 33),
        (GreaterThan, IntPredicate::SGT, 38),
        (GreaterThanOrEqual, IntPredicate::SGE, 39),
        (LessThan, IntPredicate::SLT, 40),
        (LessThanOrEqual, IntPredicate::SLE, 41),
    ];
    for (pred, int, code) in ints {
        assert_eq!(select_comparison(TypeKind::Integer, pred), Some(Comparison::Int(int)));
        assert_eq!(int.code(), code);
    }
    let reals = [
        (Equal, RealPredicate::OEQ, 1),
        (NotEqual, RealPredicate::ONE, 6),
        (GreaterThan, RealPredicate::OGT, 2),
        (GreaterThanOrEqual, RealPredicate::OGE, 3),
        (LessThan, RealPredicate::OLT, 4),
        (LessThanOrEqual, RealPredicate::OLE, 5),
    ];
    for (pred, real, code) in reals {
        for kind in [TypeKind::Half, TypeKind::Float, TypeKind::Double] {
            assert_eq!(select_comparison(kind, pred), Some(Comparison::Real(real)));
        }
        assert_eq!(real.code(), code);
    }
    for kind in [TypeKind::Void, TypeKind::Pointer, TypeKind::Struct, TypeKind::Fp128, TypeKind::Vector] {
        assert_eq!(select_comparison(kind, Equal), None);
    }

    let mut ctx = Context::new();
    let a = 1u64.compile(&mut ctx);
    let b = 2u64.compile(&mut ctx);
    let c = 3u32.compile(&mut ctx);
    let unit = ().compile(&mut ctx);
    let builder = Builder::from_raw(1);
    assert_eq!(builder.build_cmp(&ctx, &a, &b, LessThan), Comparison::Int(IntPredicate::SLT));
    assert_eq!(builder.try_comparison(&ctx, &a, &b, Equal), Some(Comparison::Int(IntPredicate::EQ)));
    assert_eq!(builder.try_comparison(&ctx, &a, &c, Equal), None);
    assert_eq!(builder.try_comparison(&ctx, &unit, &unit, Equal), None);
    assert_eq!(builder.arithmetic_for(&ctx, &a), Arithmetic::Int);
    assert_eq!(builder.arithmetic_for(&ctx, &unit), Arithmetic::Real);
}
