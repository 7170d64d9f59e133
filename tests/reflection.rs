use mun_codegen::globals::{Constant, ModuleData, Pointer};
use mun_codegen::reflection::{gen_reflection_ir, FileIr, FunctionDecl, TypeDecl};

fn sample_ir() -> FileIr {
    FileIr {
        functions: vec![
            FunctionDecl { name: "add".to_string(), arg_types: vec![0, 0], return_type: Some(0) },
            FunctionDecl { name: "tick".to_string(), arg_types: vec![], return_type: None },
            FunctionDecl { name: "len".to_string(), arg_types: vec![1], return_type: Some(0) },
        ],
        dispatch_table: vec!["add".to_string(), "tick".to_string(), "len".to_string()],
        types: vec![
            TypeDecl { name: "core::i64".to_string(), field_names: vec![], field_offsets: vec![] },
            TypeDecl {
                name: "Pair".to_string(),
                field_names: vec!["a".to_string(), "b".to_string()],
                field_offsets: vec![0, 8],
            },
        ],
    }
}

fn global(m: &ModuleData, p: Pointer) -> &Constant {
    match p {
        Pointer::Global(k) => &m.globals[k].value,
        Pointer::Null => panic!("null pointer"),
    }
}

fn string(m: &ModuleData, p: Pointer) -> String {
    match global(m, p) {
        Constant::Str(s) => s.clone(),
        other => panic!("not a string: {:?}", other),
    }
}

fn pointers(m: &ModuleData, p: Pointer) -> Vec<Pointer> {
    match global(m, p) {
        Constant::Pointers(v) => v.clone(),
        other => panic!("not an array: {:?}", other),
    }
}

fn name_of_type(m: &ModuleData, p: Pointer) -> String {
    match global(m, p) {
        Constant::TypeInfo { name, .. } => string(m, *name),
        other => panic!("not a type: {:?}", other),
    }
}

/// Reads the record back: per function its name, argument type names,
/// result type name and slot; then the type names.
fn read_back(m: &ModuleData, p: Pointer) -> (Vec<(String, Vec<String>, Option<String>, usize)>, Vec<String>) {
    match global(m, p) {
        Constant::ModuleInfo { functions, num_functions, types, num_types } => {
            let fps = if *num_functions == 0 { vec![] } else { pointers(m, *functions) };
            let tps = if *num_types == 0 { vec![] } else { pointers(m, *types) };
            assert_eq!(fps.len(), *num_functions);
            assert_eq!(tps.len(), *num_types);
            let fns = fps
                .iter()
                .map(|f| match global(m, *f) {
                    Constant::FunctionInfo { name, arg_types, num_args, return_type, slot } => {
                        let args = if *num_args == 0 {
                            assert_eq!(*arg_types, Pointer::Null);
                            vec![]
                        } else {
                            pointers(m, *arg_types).iter().map(|a| name_of_type(m, *a)).collect()
                        };
                        let ret = match return_type {
                            Pointer::Null => None,
                            r => Some(name_of_type(m, *r)),
                        };
                        (string(m, *name), args, ret, *slot)
                    }
                    other => panic!("not a function: {:?}", other),
                })
                .collect();
            (fns, tps.iter().map(|t| name_of_type(m, *t)).collect())
        }
        other => panic!("not a record: {:?}", other),
    }
}

#[test]
fn every_function_is_described_in_order() {
    let mut m = ModuleData::new();
    let p = gen_reflection_ir(&mut m, &sample_ir());
    let (fns, types) = read_back(&m, p);
    let i64 = "core::i64".to_string();
    assert_eq!(
        fns,
        vec![
            ("add".to_string(), vec![i64.clone(), i64.clone()], Some(i64.clone()), 0),
            ("tick".to_string(), vec![], None, 1),
            ("len".to_string(), vec!["Pair".to_string()], Some(i64.clone()), 2),
        ]
    );
    assert_eq!(types, vec![i64, "Pair".to_string()]);
}

#[test]
fn type_descriptor_holds_fields() {
    let mut m = ModuleData::new();
    let p = gen_reflection_ir(&mut m, &sample_ir());
    let tps = match global(&m, p) {
        Constant::ModuleInfo { types, .. } => pointers(&m, *types),
        _ => panic!(),
    };
    match global(&m, tps[1]) {
        Constant::TypeInfo { field_names, field_offsets, num_fields, .. } => {
            assert_eq!(*num_fields, 2);
            let names: Vec<String> = pointers(&m, *field_names).iter().map(|n| string(&m, *n)).collect();
            assert_eq!(names, vec!["a".to_string(), "b".to_string()]);
            assert!(matches!(global(&m, *field_offsets), Constant::U16s(v) if *v == vec![0u16, 8]));
        }
        _ => panic!(),
    }
    match global(&m, tps[0]) {
        Constant::TypeInfo { field_names, field_offsets, num_fields, .. } => {
            assert_eq!(*num_fields, 0);
            assert_eq!(*field_names, Pointer::Null);
            assert_eq!(*field_offsets, Pointer::Null);
        }
        _ => panic!(),
    }
}

#[test]
fn empty_table_gives_null_and_zero() {
    let mut m = ModuleData::new();
    let ir = FileIr { functions: vec![], dispatch_table: vec![], types: vec![] };
    let p = gen_reflection_ir(&mut m, &ir);
    match global(&m, p) {
        Constant::ModuleInfo { functions, num_functions, types, num_types } => {
            assert_eq!(*functions, Pointer::Null);
            assert_eq!(*num_functions, 0);
            assert_eq!(*types, Pointer::Null);
            assert_eq!(*num_types, 0);
        }
        _ => panic!(),
    }
}

#[test]
fn emitting_twice_reads_back_the_same() {
    let mut m1 = ModuleData::new();
    let pa = gen_reflection_ir(&mut m1, &sample_ir());
    let mut m2 = ModuleData::new();
    gen_u16_array_filler(&mut m2);
    let pb = gen_reflection_ir(&mut m2, &sample_ir());
    assert_eq!(read_back(&m1, pa), read_back(&m2, pb));
    let mut m3 = ModuleData::new();
    let pc = gen_reflection_ir(&mut m3, &sample_ir());
    assert_eq!(format!("{:?}", m1), format!("{:?}", m3));
    assert_eq!(pa, pc);
}

fn gen_u16_array_filler(m: &mut ModuleData) {
    mun_codegen::globals::gen_u16_array(m, &vec![1, 2, 3]);
}
