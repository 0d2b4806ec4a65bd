use llvm::Attribute::{ByVal, NoAlias, NoCapture, NoUnwind, StackAlignment};
use llvm::{
    AddressSpace, Attribute, BlockIter, Context, Function, FunctionType, GetContext, GlobalValue,
    GlobalVariable, IntegerType, Linkage, Module, Sub, Compile, Value, ValueKind,
};

fn function_with(ctx: &mut Context, module: &mut Module, name: &str, params: usize) -> Function {
    let i64t = IntegerType::new(ctx, 64).to_super();
    let args = vec![i64t; params];
    let sig = FunctionType::new(ctx, &i64t, &args);
    module.add_function(ctx, name, &sig.to_super())
}

#[test]
fn argument_attributes_accumulate() {
    let mut ctx = Context::new();
    let mut module = Module::new("simple", &ctx);
    let func = function_with(&mut ctx, &mut module, "main", 2);
    assert_eq!(func.count_params(&ctx), 2);
    let arg = func.index(&ctx, 0);
    let other = func.index(&ctx, 1);
    assert!(!arg.has_attribute(&ctx, NoAlias));
    assert!(!arg.has_attribute(&ctx, ByVal));
    arg.add_attribute(&mut ctx, NoAlias);
    arg.add_attribute(&mut ctx, ByVal);
    assert!(arg.has_attribute(&ctx, NoAlias));
    assert!(arg.has_attribute(&ctx, ByVal));
    assert!(arg.has_attributes(&ctx, &[NoAlias, ByVal]));
    assert!(!arg.has_attributes(&ctx, &[NoAlias, ByVal, NoCapture]));
    assert_eq!(ctx.values[arg.raw].attrs, 0b1100_0000);
    arg.remove_attribute(&mut ctx, NoAlias);
    assert!(!arg.has_attribute(&ctx, NoAlias));
    assert!(arg.has_attribute(&ctx, ByVal));
    assert_eq!(ctx.values[arg.raw].attrs, 0b1000_0000);
    // The other argument and the function are untouched.
    assert_eq!(ctx.values[other.raw].attrs, 0);
    assert!(!func.has_attribute(&ctx, ByVal));
    arg.add_attributes(&mut ctx, &[]);
    assert_eq!(ctx.values[arg.raw].attrs, 0b1000_0000);
    assert!(arg.has_attributes(&ctx, &[]));
}

#[test]
fn attribute_bits() {
    assert_eq!(Attribute::ZExt.bits(), 0b1);
    assert_eq!(Attribute::SExt.bits(), 0b10);
    assert_eq!(Attribute::NoReturn.bits(), 0b100);
    assert_eq!(NoUnwind.bits(), 0b100000);
    assert_eq!(Attribute::ReadNone.bits(), 0b1000000000);
    assert_eq!(Attribute::InlineHint.bits(), 0b1000000000000000000000);
    assert_eq!(StackAlignment.bits(), 0b11100000000000000000000000000);
    assert_eq!(Attribute::ReturnsTwice.bits(), 0b100000000000000000000000000000);
    assert_eq!(Attribute::UWTable.bits(), 0b1000000000000000000000000000000);
    assert_eq!(Attribute::NonLazyBind.bits(), 0b10000000000000000000000000000000);
    assert_eq!(Attribute::sum(&[NoUnwind, Attribute::ReadNone]), 0b1000100000);
    assert_eq!(Attribute::sum(&[]), 0);
    assert_eq!(Attribute::from_bits(0b100000), Some(NoUnwind));
    assert_eq!(Attribute::from_bits(0b11100000000000000000000000000), Some(StackAlignment));
    assert_eq!(Attribute::from_bits(0), None);
    assert_eq!(Attribute::from_bits(0b11), None);
    assert_eq!(Attribute::from_bits(1 << 26), None);
    // A part of a wider pattern is not the attribute.
    assert!(!StackAlignment.is_in(1 << 26));
    assert!(StackAlignment.is_in(7 << 26));
    assert!(Attribute::all_in(&[NoAlias, ByVal], 0b1100_0000));
    assert!(!Attribute::all_in(&[NoAlias, ByVal], 0b0100_0000));
}

#[test]
fn linkage_codes() {
    let all = [
        (Linkage::External, 0),
        (Linkage::AvailableExternally, 1),
        (Linkage::LinkOnceAny, 2),
        (Linkage::LinkOnceODR, 3),
        (Linkage::WeakAny, 5),
        (Linkage::WeakODR, 6),
        (Linkage::Appending, 7),
        (Linkage::Internal, 8),
        (Linkage::Private, 9),
        (Linkage::ExternalWeak, 12),
        (Linkage::Common, 14),
    ];
    for (linkage, code) in all {
        assert_eq!(linkage.code(), code);
        assert_eq!(Linkage::from_code(code), Some(linkage));
    }
    for code in [4u32, 10, 11, 13, 15, 100] {
        assert_eq!(Linkage::from_code(code), None);
    }
    assert_eq!(AddressSpace::Generic.code(), 0);
    assert_eq!(AddressSpace::Global.code(), 1);
    assert_eq!(AddressSpace::Shared.code(), 3);
    assert_eq!(AddressSpace::Const.code(), 4);
    assert_eq!(AddressSpace::Local.code(), 5);
}

#[test]
fn globals() {
    let mut ctx = Context::new();
    let mut module = Module::new("m", &ctx);
    let i64t = IntegerType::new(&mut ctx, 64).to_super();
    let g = module.add_global(&mut ctx, "counter", &i64t);
    assert_eq!(g.get_initializer(&ctx), None);
    assert!(!g.get_constant(&ctx));
    assert!(g.to_super().is_declaration(&ctx));
    let seven = 7u64.compile(&mut ctx);
    g.set_initializer(&mut ctx, &seven);
    assert_eq!(g.get_initializer(&ctx), Some(seven));
    assert!(!g.to_super().is_declaration(&ctx));
    g.set_constant(&mut ctx, true);
    assert!(g.get_constant(&ctx));
    g.set_constant(&mut ctx, false);
    assert!(!g.get_constant(&ctx));
    assert_eq!(g.to_super().get_linkage(&ctx), Linkage::External);
    g.to_super().set_linkage(&mut ctx, Linkage::Private);
    assert_eq!(g.to_super().get_linkage(&ctx), Linkage::Private);

    let found = module.get_global(&ctx, "counter").unwrap();
    assert_eq!(found, g.to_super());
    assert_eq!(GlobalVariable::from_super(&ctx, &found), Some(g));
    assert_eq!(module.get_global(&ctx, "missing"), None);
    // The global has the pointer type to its value type.
    let ty = found.to_super().get_type(&ctx);
    assert!(ty.is_pointer(&ctx));
    assert_eq!(ty.get_element(&ctx), Some(i64t));

    let v = module.add_global_variable(&mut ctx, "seven", &seven);
    assert_eq!(v.get_initializer(&ctx), Some(seven));
    assert_eq!(v.to_super().to_super().get_type(&ctx), ty);
    let shared = module.add_global_in_address_space(&mut ctx, "s", &i64t, AddressSpace::Shared);
    let shared_ty = shared.to_super().to_super().get_type(&ctx);
    assert_ne!(shared_ty, ty);
    assert_eq!(ctx.types[shared_ty.raw].count, 3);

    let alias = module.add_global_alias(&mut ctx, "also", &g.to_super());
    assert_eq!(alias.to_super().to_super().kind(&ctx), ValueKind::GlobalAlias);
    assert_eq!(module.get_global(&ctx, "also"), Some(alias.to_super()));
    assert!(!alias.to_super().is_declaration(&ctx));
    assert_eq!(module.globals.len(), 4);
    assert!(module.functions.is_empty());
}

#[test]
fn names() {
    let mut ctx = Context::new();
    let mut module = Module::new("m", &ctx);
    let f = function_with(&mut ctx, &mut module, "f", 1);
    let value = Value { raw: f.raw };
    assert_eq!(value.get_name(&ctx), Some(b"f".to_vec()));
    let arg = f.index(&ctx, 0).to_super();
    assert_eq!(arg.get_name(&ctx), None);
    arg.set_name(&mut ctx, "x");
    assert_eq!(arg.get_name(&ctx), Some(b"x".to_vec()));
    value.set_name(&mut ctx, "g");
    assert!(module.get_function(&ctx, "f").is_none());
    assert_eq!(module.get_function(&ctx, "g"), Some(f));
    assert_eq!(module.get_target(), b"");
    module.set_target("x86_64-unknown-linux-gnu");
    assert_eq!(module.get_target(), b"x86_64-unknown-linux-gnu");
    assert_eq!(module.name, b"m".to_vec());
}

#[test]
fn first_function_of_a_name_is_found() {
    let mut ctx = Context::new();
    let mut module = Module::new("m", &ctx);
    let a = function_with(&mut ctx, &mut module, "f", 0);
    let b = function_with(&mut ctx, &mut module, "f", 1);
    assert_ne!(a, b);
    assert_eq!(module.get_function(&ctx, "f"), Some(a));
    let sig = a.get_signature(&ctx);
    assert_eq!(sig.num_params(&ctx), 0);
    assert_eq!(b.get_signature(&ctx).num_params(&ctx), 1);
    assert!(<Function as Sub<GlobalValue>>::to_super(&a).is_declaration(&ctx));
}

#[test]
fn block_iteration_hands_out_every_block_once() {
    let mut ctx = Context::new();
    let mut module = Module::new("m", &ctx);
    let f = function_with(&mut ctx, &mut module, "f", 0);
    assert_eq!(f.get_entry(&ctx), None);
    let mut none = f.blocks(&ctx);
    assert_eq!(none.next(), None);
    assert_eq!(none.next_back(), None);

    let a = f.append(&mut ctx, "entry");
    let mut single = f.blocks(&ctx);
    assert_eq!(single.next(), Some(a));
    assert_eq!(single.next(), None);
    let mut single = f.blocks(&ctx);
    assert_eq!(single.next_back(), Some(a));
    assert_eq!(single.next_back(), None);
    assert_eq!(single.next(), None);

    let b = f.append(&mut ctx, "body");
    let c = f.append(&mut ctx, "exit");
    assert_eq!(f.get_entry(&ctx), Some(a));
    assert!(!<Function as Sub<GlobalValue>>::to_super(&f).is_declaration(&ctx));
    assert_eq!(a.to_super().get_name(&ctx), Some(b"entry".to_vec()));

    let mut front = f.blocks(&ctx);
    assert_eq!(front.blocks, vec![a, b, c]);
    assert_eq!((front.min, front.max), (0, 3));
    assert_eq!(front.next(), Some(a));
    assert_eq!(front.next(), Some(b));
    assert_eq!(front.next(), Some(c));
    assert_eq!(front.next(), None);
    assert_eq!(front.next(), None);
    assert_eq!(front.next_back(), None);

    let mut back = BlockIter::new(&ctx, &f);
    assert_eq!(back.next_back(), Some(c));
    assert_eq!(back.next_back(), Some(b));
    assert_eq!(back.next_back(), Some(a));
    assert_eq!(back.next_back(), None);
    assert_eq!(back.next(), None);

    let mut both = f.blocks(&ctx);
    assert_eq!(both.next(), Some(a));
    assert_eq!(both.next_back(), Some(c));
    assert_eq!(both.next(), Some(b));
    assert_eq!(both.next(), None);
    assert_eq!(both.next_back(), None);

    // The walk leaves the function as it was.
    assert_eq!(ctx.values[f.raw].blocks, vec![a.raw, b.raw, c.raw]);
}

#[test]
fn function_iteration_hands_out_every_function_once() {
    let mut ctx = Context::new();
    let mut module = Module::new("m", &ctx);
    let mut empty = module.into_iter();
    assert_eq!(empty.next(), None);
    let a = function_with(&mut ctx, &mut module, "a", 0);
    let mut one = module.into_iter();
    assert_eq!(one.next(), Some(a));
    assert_eq!(one.next(), None);
    let b = function_with(&mut ctx, &mut module, "b", 0);
    let c = function_with(&mut ctx, &mut module, "c", 0);
    let mut it = module.into_iter();
    assert_eq!(it.next(), Some(a));
    assert_eq!(it.next(), Some(b));
    assert_eq!(it.next(), Some(c));
    assert_eq!(it.next(), None);
    assert_eq!(it.next(), None);
    assert_eq!(it.pos, 3);
    assert_eq!(module.functions, vec![a.raw, b.raw, c.raw]);
}

#[test]
fn owner_context_is_recognised() {
    let mut ctx = Context::new();
    let other = Context::new();
    assert!(ctx.check());
    let mut module = Module::new("m", &ctx);
    let f = function_with(&mut ctx, &mut module, "f", 1);
    assert!(ctx.check());
    assert!(f.get_context(&ctx).is_some());
    assert!(f.get_context(&other).is_none());
    assert!(module.get_context(&ctx).is_some());
    assert!(module.get_context(&other).is_none());
    let value = Value { raw: f.raw };
    assert!(value.get_context(&ctx).is_some());
    let arg = f.index(&ctx, 0);
    assert!(arg.get_context(&ctx).is_some());
    assert!(Function { raw: arg.raw }.get_context(&ctx).is_none());
    let sig = f.get_signature(&ctx);
    assert!(sig.get_context(&ctx).is_some());
    assert!(sig.get_context(&other).is_none());
    let ty = value.get_type(&ctx);
    assert!(ty.get_context(&ctx).is_some());
    assert!(IntegerType { raw: ty.raw }.get_context(&ctx).is_none());
    assert!(Value { raw: 0 }.get_context(&ctx).is_none());
    // A broken arena is told from a sound one.
    ctx.types[1].element = 1;
    assert!(!ctx.check());
}
