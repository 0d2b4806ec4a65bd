use llvm::util::{is_nul_free, ptr_to_null, to_null_str, to_str, with_cstr};
use llvm::{
    Alias, Arg, ArrayType, BasicBlock, Compile, Context, Function, FunctionType, GlobalValue,
    GlobalVariable, IntegerType, Module, NativeRef, PhiNode, PointerType, StructType, Sub, Type,
    TypeKind, Value, ValueKind, VectorType,
};

fn scalar_function(ctx: &mut Context, module: &mut Module, name: &str) -> Function {
    let i32t = IntegerType::new(ctx, 32).to_super();
    let sig = FunctionType::new(ctx, &i32t, &[i32t]);
    module.add_function(ctx, name, &sig.to_super())
}

#[test]
fn lookup_narrows_to_function_and_not_to_struct() {
    let mut ctx = Context::new();
    let mut module = Module::new("m", &ctx);
    let f = scalar_function(&mut ctx, &mut module, "f");
    let found = module.get_function(&ctx, "f").unwrap();
    assert_eq!(found, f);
    let value = <Function as Sub<GlobalValue>>::to_super(&found).to_super();
    let narrowed = <Function as Sub<Value>>::from_super(&ctx, &value);
    assert_eq!(narrowed, Some(f));
    let ty = value.get_type(&ctx);
    assert_eq!(StructType::from_super(&ctx, &ty), None);
    assert!(FunctionType::from_super(&ctx, &ty).is_some());
    assert!(module.get_function(&ctx, "g").is_none());
}

#[test]
fn narrowing_matches_kind_tag() {
    let mut ctx = Context::new();
    let i32t = IntegerType::new(&mut ctx, 32).to_super();
    assert_eq!(IntegerType::from_super(&ctx, &i32t).map(|t| t.to_super()), Some(i32t));
    assert_eq!(FunctionType::from_super(&ctx, &i32t), None);
    assert_eq!(StructType::from_super(&ctx, &i32t), None);
    assert_eq!(PointerType::from_super(&ctx, &i32t), None);
    assert_eq!(VectorType::from_super(&ctx, &i32t), None);
    assert_eq!(ArrayType::from_super(&ctx, &i32t), None);
    assert!(IntegerType::is(&ctx, &i32t));
    assert!(i32t.is_integer(&ctx));
    assert!(!i32t.is_float(&ctx));
    assert!(!i32t.is_void(&ctx));
    assert!(!i32t.is_pointer(&ctx));
    assert!(!i32t.is_struct(&ctx));
    assert!(!i32t.is_function(&ctx));

    let st = StructType::new(&mut ctx, &[i32t, i32t], false);
    assert_eq!(StructType::from_super(&ctx, &st.to_super()), Some(st));
    assert_eq!(IntegerType::from_super(&ctx, &st.to_super()), None);
    assert_eq!(st.get_elements(&ctx), vec![i32t, i32t]);

    let vt = VectorType::new(&mut ctx, &i32t, 4);
    assert_eq!(VectorType::from_super(&ctx, &vt.to_super()), Some(vt));
    assert_eq!(vt.get_size(&ctx), 4);
    assert_eq!(vt.get_element(&ctx), i32t);
    let at = ArrayType::new(&mut ctx, &i32t, 7);
    assert_eq!(ArrayType::from_super(&ctx, &at.to_super()), Some(at));
    assert_eq!(at.get_length(&ctx), 7);
    assert_eq!(at.get_element(&ctx), i32t);
    assert_eq!(VectorType::from_super(&ctx, &at.to_super()), None);
}

#[test]
fn function_narrowing_unwraps_pointer_chains() {
    let mut ctx = Context::new();
    let i8t = IntegerType::new(&mut ctx, 8).to_super();
    let sig = FunctionType::new(&mut ctx, &i8t, &[]).to_super();
    let ptr = PointerType::new(&mut ctx, &sig);
    let ptr_ptr = PointerType::new(&mut ctx, &ptr);
    assert!(FunctionType::is(&ctx, &sig));
    assert!(FunctionType::is(&ctx, &ptr));
    assert!(FunctionType::is(&ctx, &ptr_ptr));
    let narrowed = FunctionType::from_super(&ctx, &ptr_ptr).unwrap();
    assert_eq!(narrowed.to_super(), ptr_ptr);
    assert_eq!(narrowed.get_return(&ctx), i8t);
    assert_eq!(narrowed.num_params(&ctx), 0);
    assert_eq!(narrowed.get_params(&ctx), Vec::<Type>::new());

    let pi = PointerType::new(&mut ctx, &i8t);
    assert!(!FunctionType::is(&ctx, &pi));
    assert_eq!(FunctionType::from_super(&ctx, &pi), None);
    // Only the function test looks through pointers.
    assert_eq!(IntegerType::from_super(&ctx, &pi), None);
    assert!(ptr.is_pointer(&ctx));
    assert!(!ptr.is_function(&ctx));
    let pointer = PointerType::from_super(&ctx, &ptr_ptr).unwrap();
    assert_eq!(pointer.get_element(&ctx), ptr);
    assert_eq!(ptr_ptr.get_element(&ctx), Some(ptr));
    assert_eq!(i8t.get_element(&ctx), None);
}

#[test]
fn widen_after_narrow_is_identity() {
    let mut ctx = Context::new();
    let mut module = Module::new("m", &ctx);
    let f = scalar_function(&mut ctx, &mut module, "f");
    let value = Value::from_raw(f.as_raw());
    let global = GlobalValue::from_super(&ctx, &value).unwrap();
    assert_eq!(global.to_super(), value);
    let function = <Function as Sub<GlobalValue>>::from_super(&ctx, &global).unwrap();
    assert_eq!(<Function as Sub<GlobalValue>>::to_super(&function), global);
    assert_eq!(GlobalVariable::from_super(&ctx, &global), None);
    assert_eq!(Alias::from_super(&ctx, &global), None);
    assert_eq!(Arg::from_super(&ctx, &value), None);
    assert_eq!(BasicBlock::from_super(&ctx, &value), None);
    assert_eq!(PhiNode::from_super(&ctx, &value), None);

    let arg = f.index(&ctx, 0);
    assert_eq!(Arg::from_super(&ctx, &arg.to_super()), Some(arg));
    assert_eq!(GlobalValue::from_super(&ctx, &arg.to_super()), None);
    assert_eq!(<Function as Sub<Value>>::from_super(&ctx, &arg.to_super()), None);
}

#[test]
fn narrowing_twice_gives_the_same_reference() {
    let mut ctx = Context::new();
    let i16t = IntegerType::new(&mut ctx, 16).to_super();
    let once = IntegerType::from_super(&ctx, &i16t).unwrap();
    let twice = IntegerType::from_super(&ctx, &once.to_super()).unwrap();
    assert_eq!(once, twice);
    assert_eq!(twice.to_super(), i16t);
    assert_eq!(once.get_width(&ctx), 16);
}

#[test]
fn raw_handle_round_trip() {
    for raw in [1usize, 2, 77, usize::MAX] {
        assert_eq!(Type::from_raw(raw).as_raw(), raw);
        assert_eq!(Value::from_raw(raw).as_raw(), raw);
        assert_eq!(Function::from_raw(raw).as_raw(), raw);
        assert_eq!(BasicBlock::from_raw(raw).as_raw(), raw);
        assert_eq!(StructType::from_raw(raw).as_raw(), raw);
    }
    let t = Type::from_raw(5);
    assert_eq!(Type::from_raw(t.as_raw()), t);
    assert_ne!(Type::from_raw(5), Type::from_raw(6));
}

#[test]
fn null_handle_is_none() {
    assert_eq!(ptr_to_null::<Type>(0), None);
    assert_eq!(ptr_to_null::<Value>(0), None);
    assert_eq!(ptr_to_null::<Type>(3), Some(Type::from_raw(3)));
    assert_eq!(ptr_to_null::<Function>(9), Some(Function::from_raw(9)));
}

#[test]
fn c_strings() {
    assert_eq!(with_cstr("abc"), vec![b'a', b'b', b'c', 0]);
    assert_eq!(with_cstr(""), vec![0]);
    assert!(is_nul_free("abc"));
    assert!(!is_nul_free("a\0c"));
    assert_eq!(to_str(b"main\0rest"), b"main".to_vec());
    assert_eq!(to_str(b"main"), b"main".to_vec());
    assert_eq!(to_str(b"\0"), Vec::<u8>::new());
    assert_eq!(to_str(b""), Vec::<u8>::new());
    assert_eq!(to_null_str(None), None);
    assert_eq!(to_null_str(Some(b"x\0y")), Some(vec![b'x']));
}

#[test]
fn types_are_unique_by_shape() {
    let mut ctx = Context::new();
    let a = IntegerType::new(&mut ctx, 32);
    let n = ctx.types.len();
    let b = IntegerType::new(&mut ctx, 32);
    assert_eq!(a, b);
    assert_eq!(ctx.types.len(), n);
    let c = IntegerType::new(&mut ctx, 64);
    assert_ne!(a, c);
    assert_eq!(ctx.types.len(), n + 1);
    assert_eq!(Type::get::<u32>(&mut ctx), a.to_super());
    assert_eq!(Type::get::<i32>(&mut ctx), a.to_super());
    assert_eq!(Type::get::<char>(&mut ctx), a.to_super());
    assert_eq!(Type::get::<i64>(&mut ctx), c.to_super());
    let unit = Type::get::<()>(&mut ctx);
    assert_eq!(unit.kind(&ctx), TypeKind::Void);
    let flag = Type::get::<bool>(&mut ctx);
    assert_eq!(IntegerType::from_super(&ctx, &flag).unwrap().get_width(&ctx), 1);
    assert_eq!(Type::get::<u8>(&mut ctx), Type::get::<i8>(&mut ctx));
    assert_eq!(Type::get::<u16>(&mut ctx), Type::get::<i16>(&mut ctx));

    let s1 = StructType::new(&mut ctx, &[flag, unit], true);
    let s2 = StructType::new(&mut ctx, &[flag, unit], true);
    let s3 = StructType::new(&mut ctx, &[flag, unit], false);
    assert_eq!(s1, s2);
    assert_ne!(s1, s3);
    let n1 = StructType::new_named(&mut ctx, "pair", &[flag, unit], true);
    let n2 = StructType::new_named(&mut ctx, "pair", &[flag, unit], true);
    assert_ne!(n1, n2);
    assert_ne!(n1, s1);
    let module = Module::new("m", &ctx);
    assert_eq!(module.get_type(&ctx, "pair"), Some(n1.to_super()));
    assert_eq!(module.get_type(&ctx, "other"), None);
}

#[test]
fn constants_are_unique() {
    let mut ctx = Context::new();
    let zero = 0u64.compile(&mut ctx);
    let one = 1u64.compile(&mut ctx);
    let again = 0u64.compile(&mut ctx);
    assert_eq!(zero, again);
    assert_ne!(zero, one);
    assert_eq!(zero.kind(&ctx), ValueKind::Constant);
    assert_eq!(ctx.values[one.raw].bits, 1);
    let minus = (-1i8).compile(&mut ctx);
    assert_eq!(ctx.values[minus.raw].bits, u64::MAX);
    assert_eq!(minus.get_type(&ctx), Type::get::<u8>(&mut ctx));
    let yes = true.compile(&mut ctx);
    assert_eq!(ctx.values[yes.raw].bits, 1);
    let a = 'a'.compile(&mut ctx);
    assert_eq!(ctx.values[a.raw].bits, 97);
    assert_eq!(a.get_type(&ctx), Type::get::<u32>(&mut ctx));
    let unit = ().compile(&mut ctx);
    assert_eq!(ctx.values[unit.raw].bits, 0);
    assert!(unit.get_type(&ctx).is_void(&ctx));
    // Same bits, other type: another constant.
    let wide = 1u32.compile(&mut ctx);
    assert_ne!(wide, one);
}

#[test]
fn kind_codes() {
    assert_eq!(TypeKind::Void.code(), 0);
    assert_eq!(TypeKind::Half.code(), 1);
    assert_eq!(TypeKind::Float.code(), 2);
    assert_eq!(TypeKind::Double.code(), 3);
    assert_eq!(TypeKind::Integer.code(), 8);
    assert_eq!(TypeKind::Function.code(), 9);
    assert_eq!(TypeKind::Struct.code(), 10);
    assert_eq!(TypeKind::Array.code(), 11);
    assert_eq!(TypeKind::Pointer.code(), 12);
    assert_eq!(TypeKind::Vector.code(), 13);
    assert_eq!(TypeKind::X86Mmx.code(), 15);
    for code in 0..16u32 {
        assert_eq!(TypeKind::from_code(code).unwrap().code(), code);
    }
    assert_eq!(TypeKind::from_code(16), None);
}

#[test]
fn tuples_are_structs_of_their_fields() {
    let mut ctx = Context::new();
    let i64t = Type::get::<u64>(&mut ctx);
    let i32t = Type::get::<i32>(&mut ctx);
    let pair = Type::get::<(u64, i32)>(&mut ctx);
    let st = StructType::from_super(&ctx, &pair).unwrap();
    assert_eq!(st.get_elements(&ctx), vec![i64t, i32t]);
    assert!(!ctx.types[pair.raw].packed);
    assert_eq!(StructType::new(&mut ctx, &[i64t, i32t], false).to_super(), pair);
    assert_ne!(StructType::new(&mut ctx, &[i64t, i32t], true).to_super(), pair);
    assert_eq!(Type::get::<(i64, u32)>(&mut ctx), pair);
    assert_ne!(Type::get::<(i32, u64)>(&mut ctx), pair);
    let n = ctx.types.len();
    assert_eq!(Type::get::<(u64, i32)>(&mut ctx), pair);
    assert_eq!(ctx.types.len(), n);

    let nested = Type::get::<((u8, bool), (), char)>(&mut ctx);
    let fields = StructType::from_super(&ctx, &nested).unwrap().get_elements(&ctx);
    assert_eq!(fields.len(), 3);
    assert_eq!(fields[0], Type::get::<(u8, bool)>(&mut ctx));
    assert!(fields[1].is_void(&ctx));
    assert_eq!(fields[2], Type::get::<u32>(&mut ctx));
    let seven = Type::get::<(u8, u16, u32, u64, i8, i16, bool)>(&mut ctx);
    assert_eq!(StructType::from_super(&ctx, &seven).unwrap().get_elements(&ctx).len(), 7);
    assert!(ctx.check());
}

#[test]
fn tuple_constants() {
    let mut ctx = Context::new();
    let one = 1u64.compile(&mut ctx);
    let two = 2i32.compile(&mut ctx);
    let pair = (1u64, 2i32).compile(&mut ctx);
    assert_eq!(pair.kind(&ctx), ValueKind::Constant);
    assert_eq!(ctx.values[pair.raw].members, vec![one.raw, two.raw]);
    assert_eq!(ctx.values[pair.raw].bits, 0);
    assert_eq!(pair.get_type(&ctx), Type::get::<(u64, i32)>(&mut ctx));
    let n = ctx.values.len();
    assert_eq!((1u64, 2i32).compile(&mut ctx), pair);
    assert_eq!(ctx.values.len(), n);
    assert_ne!((1u64, 3i32).compile(&mut ctx), pair);
    assert_ne!((2i32, 1u64).compile(&mut ctx), pair);
    let triple = (true, (1u64, 2i32), 'x').compile(&mut ctx);
    assert_eq!(ctx.values[triple.raw].members[1], pair.raw);
    assert_eq!(ctx.values[triple.raw].members.len(), 3);
    assert!(ctx.check());
}
