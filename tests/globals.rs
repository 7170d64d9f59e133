use mun_codegen::globals::{
    gen_global, gen_string_array, gen_struct_ptr_array, gen_u16_array, intern_string, Constant,
    Linkage, ModuleData, Pointer,
};

#[test]
fn empty_arrays_are_null() {
    let mut m = ModuleData::new();
    assert_eq!(gen_string_array(&mut m, &vec![], "s"), Pointer::Null);
    assert_eq!(gen_struct_ptr_array(&mut m, &vec![], "p"), Pointer::Null);
    assert_eq!(gen_u16_array(&mut m, &vec![]), Pointer::Null);
    assert!(m.globals.is_empty());
}

#[test]
fn global_is_private_constant() {
    let mut m = ModuleData::new();
    let p = gen_global(&mut m, Constant::U16s(vec![7]), "g");
    assert_eq!(p, Pointer::Global(0));
    let g = &m.globals[0];
    assert_eq!(g.name, "g");
    assert_eq!(g.linkage, Linkage::Private);
    assert!(g.constant);
    assert!(g.unnamed_addr);
}

#[test]
fn interned_strings_are_not_shared() {
    let mut m = ModuleData::new();
    let a = intern_string(&mut m, "hello", "x");
    let b = intern_string(&mut m, "hello", "x");
    assert_ne!(a, b);
    assert_eq!(m.globals.len(), 2);
    assert!(matches!(&m.globals[1].value, Constant::Str(s) if s == "hello"));
}

#[test]
fn string_array_points_to_each_string() {
    let mut m = ModuleData::new();
    let p = gen_string_array(&mut m, &vec!["a".to_string(), "bc".to_string()], "field");
    assert_eq!(p, Pointer::Global(2));
    assert_eq!(m.globals.len(), 3);
    match &m.globals[2].value {
        Constant::Pointers(ps) => assert_eq!(ps, &vec![Pointer::Global(0), Pointer::Global(1)]),
        other => panic!("unexpected {:?}", other),
    }
    assert!(matches!(&m.globals[1].value, Constant::Str(s) if s == "bc"));
    assert_eq!(m.globals[0].name, "field");
}

#[test]
fn pointer_array_holds_pointers_in_order() {
    let mut m = ModuleData::new();
    let ptrs = vec![Pointer::Global(3), Pointer::Null, Pointer::Global(1)];
    let p = gen_struct_ptr_array(&mut m, &ptrs, "arr");
    assert_eq!(p, Pointer::Global(0));
    assert!(matches!(&m.globals[0].value, Constant::Pointers(v) if *v == ptrs));
    assert_eq!(m.globals[0].name, "arr");
}

#[test]
fn u16_array_keeps_low_bits() {
    let mut m = ModuleData::new();
    let p = gen_u16_array(&mut m, &vec![1, 65535, 65536, 70000]);
    assert_eq!(p, Pointer::Global(0));
    assert!(matches!(&m.globals[0].value, Constant::U16s(v) if *v == vec![1u16, 65535, 0, 4464]));
}
