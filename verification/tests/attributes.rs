use llvm::Attribute::{NoUnwind, ReadNone};
use llvm::{Context, FunctionType, Module, Sub, Type};

#[test]
fn test_function_attributes() {
    let mut ctx = Context::new();
    let mut module = Module::new("simple", &ctx);
    let unit = Type::get::<()>(&mut ctx);
    let sig = FunctionType::new(&mut ctx, &unit, &[]);
    let func = module.add_function(&mut ctx, "main", &sig.to_super());
    assert!(!func.has_attributes(&ctx, &[NoUnwind, ReadNone]));
    func.add_attributes(&mut ctx, &[NoUnwind, ReadNone]);
    assert!(func.has_attributes(&ctx, &[NoUnwind, ReadNone]));
    func.remove_attribute(&mut ctx, NoUnwind);
    assert!(!func.has_attribute(&ctx, NoUnwind));
    assert!(func.has_attribute(&ctx, ReadNone));
}

#[test]
fn test_arg_attributes() {
    let mut ctx = Context::new();
    let mut module = Module::new("simple", &ctx);
    let unit = Type::get::<()>(&mut ctx);
    let sig = FunctionType::new(&mut ctx, &unit, &[]);
    let func = module.add_function(&mut ctx, "main", &sig.to_super());
    assert!(!func.has_attribute(&ctx, NoUnwind));
    assert!(!func.has_attribute(&ctx, ReadNone));
    func.add_attributes(&mut ctx, &[NoUnwind, ReadNone]);
    assert!(func.has_attribute(&ctx, NoUnwind));
    assert!(func.has_attribute(&ctx, ReadNone));
    func.remove_attribute(&mut ctx, NoUnwind);
    assert!(!func.has_attribute(&ctx, NoUnwind));
    assert!(func.has_attribute(&ctx, ReadNone));
}
