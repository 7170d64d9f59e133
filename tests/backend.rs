use inkwell::context::Context;
use inkwell::targets::TargetTriple;
use mun_codegen::backend::{emit_object, optimize_module};
use mun_codegen::linker::LinkerFlavor;
use mun_codegen::module_builder::{ModuleBuilder, OptimizationLevel, TargetDescription};

fn x86_builder(level: OptimizationLevel) -> ModuleBuilder {
    let target = TargetDescription {
        triple: "x86_64-unknown-linux-gnu".to_string(),
        cpu: "x86-64".to_string(),
        features: String::new(),
        data_layout: String::new(),
        linker_flavor: LinkerFlavor::Ld,
    };
    match ModuleBuilder::new("main.mun", target, level) {
        Ok(b) => b,
        Err(e) => panic!("construction failed: {:?}", e),
    }
}

#[test]
fn optimizer_removes_unreferenced_private_function() {
    let builder = x86_builder(OptimizationLevel::Aggressive);
    let context = Context::create();
    let module = context.create_module("main.mun");
    module.set_triple(&TargetTriple::create("x86_64-unknown-linux-gnu"));
    let i64_type = context.i64_type();
    let fn_type = i64_type.fn_type(&[], false);
    let dead = module.add_function("dead", fn_type, Some(inkwell::module::Linkage::Private));
    let kept = module.add_function("kept", fn_type, None);
    let ir_builder = context.create_builder();
    for f in [dead, kept] {
        ir_builder.position_at_end(context.append_basic_block(f, "entry"));
        ir_builder.build_return(Some(&i64_type.const_int(7, false))).unwrap();
    }
    optimize_module(&module, builder.opt_level);
    assert!(module.get_function("dead").is_none());
    assert!(module.get_function("kept").is_some());
}

#[test]
fn object_file_is_elf() {
    let builder = x86_builder(OptimizationLevel::Off);
    let context = Context::create();
    let module = context.create_module("main.mun");
    module.set_triple(&TargetTriple::create("x86_64-unknown-linux-gnu"));
    let fn_type = context.void_type().fn_type(&[], false);
    let f = module.add_function("get_info", fn_type, None);
    let ir_builder = context.create_builder();
    ir_builder.position_at_end(context.append_basic_block(f, "entry"));
    ir_builder.build_return(None).unwrap();
    let bytes = emit_object(&builder.target_machine, &module).expect("emission succeeds");
    assert_eq!(&bytes[..4], &[0x7f, b'E', b'L', b'F']);
}
