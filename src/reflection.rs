//! The reflection table: a self-describing record of a file's exported
//! functions and types, emitted as globals so that a host runtime can read it
//! through one entry point.

use vstd::prelude::*;
use crate::globals::{
    gen_global, gen_string_array, gen_struct_ptr_array, gen_u16_array, intern_string,
    points_to_pointers, points_to_str, points_to_str_array, points_to_u16s, extends,
    group_extends, Constant, ModuleData, Pointer,
};

verus! {

/// A type of the file's type table.
#[derive(Debug)]
pub struct TypeDecl {
    pub name: String,
    pub field_names: Vec<String>,
    pub field_offsets: Vec<u64>,
}

/// An exported function: its name, the type-table index of each argument and
/// of its result, if it has one.
#[derive(Debug)]
pub struct FunctionDecl {
    pub name: String,
    pub arg_types: Vec<usize>,
    pub return_type: Option<usize>,
}

/// The lowered representation of one file, as far as reflection reads it.
/// Entry `i` of the dispatch table is the indirection slot of function `i`.
#[derive(Debug)]
pub struct FileIr {
    pub functions: Vec<FunctionDecl>,
    pub dispatch_table: Vec<String>,
    pub types: Vec<TypeDecl>,
}

/// The type-table indices of a file are in range and its dispatch table has
/// one slot per function.
pub open spec fn ir_consistent(ir: FileIr) -> bool {
    &&& ir.dispatch_table@.len() == ir.functions@.len()
    &&& forall|i: int|
        0 <= i < ir.functions@.len() ==> fn_types_in_range(#[trigger] ir.functions@[i], ir.types@.len())
}

pub open spec fn fn_types_in_range(f: FunctionDecl, n: nat) -> bool {
    &&& forall|j: int| 0 <= j < f.arg_types@.len() ==> #[trigger] f.arg_types@[j] < n
    &&& f.return_type matches Some(k) ==> k < n
}

/// The pointers held by the array global that `p` points to; empty when `p`
/// points to no such global.
pub open spec fn pointers_at(m: ModuleData, p: Pointer) -> Seq<Pointer> {
    match p {
        Pointer::Global(k) => if k < m.globals@.len() {
            match m.globals@[k as int].value {
                Constant::Pointers(v) => v@,
                _ => Seq::empty(),
            }
        } else {
            Seq::empty()
        },
        Pointer::Null => Seq::empty(),
    }
}

/// `p` is null for an empty list, and points to an array of `items.len()`
/// pointers otherwise.
pub open spec fn array_of(m: ModuleData, p: Pointer, n: nat) -> bool {
    if n == 0 {
        p == Pointer::Null
    } else {
        points_to_pointers(m, p, pointers_at(m, p)) && pointers_at(m, p).len() == n
    }
}

/// The pointer that stands for an optional type-table index.
pub open spec fn type_ref(type_ptrs: Seq<Pointer>, t: Option<usize>) -> Pointer {
    match t {
        Some(k) => type_ptrs[k as int],
        None => Pointer::Null,
    }
}

/// `p` points to a descriptor of type `t`.
pub open spec fn describes_type(m: ModuleData, p: Pointer, t: TypeDecl) -> bool {
    match p {
        Pointer::Global(k) => k < m.globals@.len() && match m.globals@[k as int].value {
            Constant::TypeInfo { name, field_names, field_offsets, num_fields } => {
                &&& points_to_str(m, name, t.name@)
                &&& points_to_str_array(m, field_names, t.field_names@.map_values(|s: String| s@))
                &&& (t.field_offsets@.len() == 0 ==> field_offsets == Pointer::Null)
                &&& (t.field_offsets@.len() > 0 ==> points_to_u16s(m, field_offsets, t.field_offsets@))
                &&& num_fields == t.field_names@.len()
            },
            _ => false,
        },
        Pointer::Null => false,
    }
}

/// `p` points to a descriptor of function `f`, called through dispatch slot
/// `slot`, whose types are those at `type_ptrs`.
pub open spec fn describes_function(
    m: ModuleData,
    p: Pointer,
    f: FunctionDecl,
    slot: int,
    type_ptrs: Seq<Pointer>,
) -> bool {
    match p {
        Pointer::Global(k) => k < m.globals@.len() && match m.globals@[k as int].value {
            Constant::FunctionInfo { name, arg_types, num_args, return_type, slot: s } => {
                &&& points_to_str(m, name, f.name@)
                &&& num_args == f.arg_types@.len()
                &&& (f.arg_types@.len() == 0 ==> arg_types == Pointer::Null)
                &&& (f.arg_types@.len() > 0 ==> points_to_pointers(
                    m,
                    arg_types,
                    f.arg_types@.map_values(|a: usize| type_ptrs[a as int]),
                ))
                &&& return_type == type_ref(type_ptrs, f.return_type)
                &&& s == slot
            },
            _ => false,
        },
        Pointer::Null => false,
    }
}

/// `p` points to the record that the reflection entry point returns for `ir`:
/// one descriptor per function and per type, in the order of `ir`, and the
/// count of each.
pub open spec fn describes_module(m: ModuleData, p: Pointer, ir: FileIr) -> bool {
    match p {
        Pointer::Global(k) => k < m.globals@.len() && match m.globals@[k as int].value {
            Constant::ModuleInfo { functions, num_functions, types, num_types } => {
                let fps = pointers_at(m, functions);
                let tps = pointers_at(m, types);
                &&& num_functions == ir.functions@.len()
                &&& num_types == ir.types@.len()
                &&& array_of(m, functions, ir.functions@.len())
                &&& array_of(m, types, ir.types@.len())
                &&& forall|i: int|
                    0 <= i < ir.functions@.len() ==> describes_function(
                        m,
                        #[trigger] fps[i],
                        ir.functions@[i],
                        i,
                        tps,
                    )
                &&& forall|j: int| 0 <= j < ir.types@.len() ==> describes_type(m, #[trigger] tps[j], ir.types@[j])
            },
            _ => false,
        },
        Pointer::Null => false,
    }
}

broadcast proof fn lemma_extends_type(m1: ModuleData, m2: ModuleData, p: Pointer, t: TypeDecl)
    requires
        extends(m1, m2),
        #[trigger] describes_type(m1, p, t),
    ensures
        #[trigger] describes_type(m2, p, t),
{
    broadcast use group_extends;

    if let Pointer::Global(k) = p {
        assert(m2.globals@[k as int] == m1.globals@[k as int]);
    }
}

broadcast proof fn lemma_extends_function(
    m1: ModuleData,
    m2: ModuleData,
    p: Pointer,
    f: FunctionDecl,
    slot: int,
    type_ptrs: Seq<Pointer>,
)
    requires
        extends(m1, m2),
        #[trigger] describes_function(m1, p, f, slot, type_ptrs),
    ensures
        #[trigger] describes_function(m2, p, f, slot, type_ptrs),
{
    broadcast use group_extends;

    if let Pointer::Global(k) = p {
        assert(m2.globals@[k as int] == m1.globals@[k as int]);
    }
}

/// Adds the descriptor of type `t`.
fn gen_type_info(module: &mut ModuleData, t: &TypeDecl) -> (r: Pointer)
    ensures
        extends(*old(module), *final(module)),
        describes_type(*final(module), r, *t),
{
    broadcast use group_extends;

    let name = intern_string(module, t.name.as_str(), "type_name");
    let field_names = gen_string_array(module, &t.field_names, "field_name");
    let field_offsets = gen_u16_array(module, &t.field_offsets);
    let r = gen_global(
        module,
        Constant::TypeInfo { name, field_names, field_offsets, num_fields: t.field_names.len() },
        "type_info",
    );
    assert(points_to_str(*module, name, t.name@));
    assert(points_to_str_array(*module, field_names, t.field_names@.map_values(|s: String| s@)));
    if t.field_offsets.len() > 0 {
        assert(points_to_u16s(*module, field_offsets, t.field_offsets@));
    }
    r
}

/// Adds the descriptor of function `f`, called through dispatch slot `slot`.
fn gen_function_info(
    module: &mut ModuleData,
    f: &FunctionDecl,
    slot: usize,
    type_ptrs: &Vec<Pointer>,
) -> (r: Pointer)
    requires
        fn_types_in_range(*f, type_ptrs@.len()),
    ensures
        extends(*old(module), *final(module)),
        describes_function(*final(module), r, *f, slot as int, type_ptrs@),
{
    broadcast use group_extends;

    let name = intern_string(module, f.name.as_str(), "fn_name");
    let mut args: Vec<Pointer> = Vec::new();
    let mut i: usize = 0;
    while i < f.arg_types.len()
        invariant
            fn_types_in_range(*f, type_ptrs@.len()),
            i <= f.arg_types@.len(),
            args@.len() == i,
            forall|j: int| 0 <= j < i ==> #[trigger] args@[j] == type_ptrs@[f.arg_types@[j] as int],
        decreases f.arg_types@.len() - i,
    {
        args.push(type_ptrs[f.arg_types[i]]);
        i = i + 1;
    }
    assert(args@ =~= f.arg_types@.map_values(|a: usize| type_ptrs@[a as int]));
    let arg_types = gen_struct_ptr_array(module, &args, "arg_types");
    let return_type = match f.return_type {
        Some(k) => type_ptrs[k],
        None => Pointer::Null,
    };
    let r = gen_global(
        module,
        Constant::FunctionInfo { name, arg_types, num_args: f.arg_types.len(), return_type, slot },
        "fn_info",
    );
    assert(points_to_str(*module, name, f.name@));
    if f.arg_types.len() > 0 {
        assert(points_to_pointers(*module, arg_types, args@));
    }
    r
}

/// Emits the reflection table of `ir` into `module` and returns a pointer to
/// the record that the entry point hands to a host runtime.
///
/// The record holds one function descriptor per exported function and one
/// type descriptor per type, in table order, with their counts; each function
/// descriptor carries the function's name, its argument and result types and
/// its dispatch slot. An empty table gives a null array and a count of zero.
/// Globals already in `module` are left as they were.
pub fn gen_reflection_ir(module: &mut ModuleData, ir: &FileIr) -> (r: Pointer)
    requires
        ir_consistent(*ir),
    ensures
        extends(*old(module), *final(module)),
        describes_module(*final(module), r, *ir),
{
    broadcast use group_extends;
    broadcast use lemma_extends_type, lemma_extends_function;

    let ghost m0 = *module;
    let mut type_ptrs: Vec<Pointer> = Vec::new();
    let mut i: usize = 0;
    while i < ir.types.len()
        invariant
            i <= ir.types@.len(),
            type_ptrs@.len() == i,
            extends(m0, *module),
            forall|j: int| 0 <= j < i ==> describes_type(*module, #[trigger] type_ptrs@[j], ir.types@[j]),
        decreases ir.types@.len() - i,
    {
        let ghost before = *module;
        let p = gen_type_info(module, &ir.types[i]);
        assert forall|j: int| 0 <= j < i implies describes_type(*module, #[trigger] type_ptrs@[j], ir.types@[j]) by {
            lemma_extends_type(before, *module, type_ptrs@[j], ir.types@[j]);
        }
        type_ptrs.push(p);
        i = i + 1;
    }
    let ghost tps = type_ptrs@;
    let types = gen_struct_ptr_array(module, &type_ptrs, "types");
    let mut fn_ptrs: Vec<Pointer> = Vec::new();
    let mut i: usize = 0;
    while i < ir.functions.len()
        invariant
            ir_consistent(*ir),
            tps == type_ptrs@,
            tps.len() == ir.types@.len(),
            i <= ir.functions@.len(),
            fn_ptrs@.len() == i,
            extends(m0, *module),
            ir.types@.len() > 0 ==> points_to_pointers(*module, types, tps),
            ir.types@.len() == 0 ==> types == Pointer::Null,
            forall|j: int| 0 <= j < ir.types@.len() ==> describes_type(*module, #[trigger] tps[j], ir.types@[j]),
            forall|j: int|
                0 <= j < i ==> describes_function(
                    *module,
                    #[trigger] fn_ptrs@[j],
                    ir.functions@[j],
                    j,
                    tps,
                ),
        decreases ir.functions@.len() - i,
    {
        let ghost before = *module;
        let p = gen_function_info(module, &ir.functions[i], i, &type_ptrs);
        assert forall|j: int| 0 <= j < i implies describes_function(
            *module,
            #[trigger] fn_ptrs@[j],
            ir.functions@[j],
            j,
            tps,
        ) by {
            lemma_extends_function(before, *module, fn_ptrs@[j], ir.functions@[j], j, tps);
        }
        assert forall|j: int| 0 <= j < ir.types@.len() implies describes_type(*module, #[trigger] tps[j], ir.types@[j]) by {
            lemma_extends_type(before, *module, tps[j], ir.types@[j]);
        }
        fn_ptrs.push(p);
        i = i + 1;
    }
    let ghost fps = fn_ptrs@;
    let ghost mb = *module;
    let functions = gen_struct_ptr_array(module, &fn_ptrs, "functions");
    let r = gen_global(
        module,
        Constant::ModuleInfo {
            functions,
            num_functions: ir.functions.len(),
            types,
            num_types: ir.types.len(),
        },
        "module_info",
    );
    proof {
        assert(extends(mb, *module));
        assert forall|j: int| 0 <= j < ir.types@.len() implies describes_type(*module, #[trigger] tps[j], ir.types@[j]) by {
            lemma_extends_type(mb, *module, tps[j], ir.types@[j]);
        }
        assert forall|j: int|
            0 <= j < ir.functions@.len() implies describes_function(
            *module,
            #[trigger] fps[j],
            ir.functions@[j],
            j,
            tps,
        ) by {
            lemma_extends_function(mb, *module, fps[j], ir.functions@[j], j, tps);
        }
        if ir.functions@.len() > 0 {
            assert(points_to_pointers(*module, functions, fps));
            assert(pointers_at(*module, functions) == fps);
        }
        if ir.types@.len() > 0 {
            assert(points_to_pointers(*module, types, tps));
            assert(pointers_at(*module, types) == tps);
        } else {
            assert(pointers_at(*module, types) =~= tps);
        }
    }
    r
}

/// The string a pointer leads to; empty when it leads to none.
pub open spec fn str_at(m: ModuleData, p: Pointer) -> Seq<char> {
    match p {
        Pointer::Global(k) => if k < m.globals@.len() {
            match m.globals@[k as int].value {
                Constant::Str(t) => t@,
                _ => Seq::empty(),
            }
        } else {
            Seq::empty()
        },
        Pointer::Null => Seq::empty(),
    }
}

/// The name of the type a descriptor pointer leads to.
pub open spec fn type_name_at(m: ModuleData, p: Pointer) -> Seq<char> {
    match p {
        Pointer::Global(k) => if k < m.globals@.len() {
            match m.globals@[k as int].value {
                Constant::TypeInfo { name, .. } => str_at(m, name),
                _ => Seq::empty(),
            }
        } else {
            Seq::empty()
        },
        Pointer::Null => Seq::empty(),
    }
}

/// A function as a runtime reads it back: name, argument type names, result
/// type name (if any) and dispatch slot.
pub struct FunctionView {
    pub name: Seq<char>,
    pub args: Seq<Seq<char>>,
    pub ret: Option<Seq<char>>,
    pub slot: nat,
}

/// The function descriptor a pointer leads to, as a runtime reads it.
pub open spec fn function_view_at(m: ModuleData, p: Pointer) -> FunctionView {
    match p {
        Pointer::Global(k) => if k < m.globals@.len() {
            match m.globals@[k as int].value {
                Constant::FunctionInfo { name, arg_types, num_args, return_type, slot } => {
                    let args = pointers_at(m, arg_types);
                    FunctionView {
                        name: str_at(m, name),
                        args: Seq::new(num_args as nat, |i: int| type_name_at(m, args[i])),
                        ret: if return_type is Null {
                            None
                        } else {
                            Some(type_name_at(m, return_type))
                        },
                        slot: slot as nat,
                    }
                },
                _ => FunctionView { name: Seq::empty(), args: Seq::empty(), ret: None, slot: 0 },
            }
        } else {
            FunctionView { name: Seq::empty(), args: Seq::empty(), ret: None, slot: 0 }
        },
        Pointer::Null => FunctionView { name: Seq::empty(), args: Seq::empty(), ret: None, slot: 0 },
    }
}

/// What a runtime reads through the record at `p`: each function, then each
/// type name, in table order.
pub open spec fn module_view_at(m: ModuleData, p: Pointer) -> (Seq<FunctionView>, Seq<Seq<char>>) {
    match p {
        Pointer::Global(k) => if k < m.globals@.len() {
            match m.globals@[k as int].value {
                Constant::ModuleInfo { functions, num_functions, types, num_types } => {
                    let fps = pointers_at(m, functions);
                    let tps = pointers_at(m, types);
                    (
                        Seq::new(num_functions as nat, |i: int| function_view_at(m, fps[i])),
                        Seq::new(num_types as nat, |j: int| type_name_at(m, tps[j])),
                    )
                },
                _ => (Seq::empty(), Seq::empty()),
            }
        } else {
            (Seq::empty(), Seq::empty())
        },
        Pointer::Null => (Seq::empty(), Seq::empty()),
    }
}

/// Function `i` of `ir` as a runtime should read it back.
pub open spec fn function_view_of(ir: FileIr, i: int) -> FunctionView {
    let f = ir.functions@[i];
    FunctionView {
        name: f.name@,
        args: Seq::new(f.arg_types@.len(), |j: int| ir.types@[f.arg_types@[j] as int].name@),
        ret: match f.return_type {
            Some(t) => Some(ir.types@[t as int].name@),
            None => None,
        },
        slot: i as nat,
    }
}

/// What a runtime should read back for `ir`.
pub open spec fn module_view_of(ir: FileIr) -> (Seq<FunctionView>, Seq<Seq<char>>) {
    (
        Seq::new(ir.functions@.len(), |i: int| function_view_of(ir, i)),
        Seq::new(ir.types@.len(), |j: int| ir.types@[j].name@),
    )
}

/// A reflection table that a runtime reads back gives, for every exported
/// function in table order, its name, the names of its argument types, the
/// name of its result type and its dispatch slot, and the name of every type:
/// nothing is lost, reordered or added.
pub proof fn lemma_reflection_read_back(m: ModuleData, p: Pointer, ir: FileIr)
    requires
        ir_consistent(ir),
        describes_module(m, p, ir),
    ensures
        module_view_at(m, p) == module_view_of(ir),
{
    if let Pointer::Global(k) = p {
        if let Constant::ModuleInfo { functions, num_functions, types, num_types } = m.globals@[k as int].value {
            let fps = pointers_at(m, functions);
            let tps = pointers_at(m, types);
            let got = module_view_at(m, p);
            let want = module_view_of(ir);
            assert forall|j: int| 0 <= j < ir.types@.len() implies type_name_at(m, #[trigger] tps[j])
                == ir.types@[j].name@ by {
                assert(describes_type(m, tps[j], ir.types@[j]));
            }
            assert(got.1 =~= want.1);
            assert forall|i: int| 0 <= i < ir.functions@.len() implies function_view_at(m, #[trigger] fps[i])
                == function_view_of(ir, i) by {
                let f = ir.functions@[i];
                assert(describes_function(m, fps[i], f, i, tps));
                assert(fn_types_in_range(f, ir.types@.len()));
                let fv = function_view_at(m, fps[i]);
                let wv = function_view_of(ir, i);
                if let Pointer::Global(q) = fps[i] {
                    if let Constant::FunctionInfo { name, arg_types, num_args, return_type, slot } = m.globals@[q as int].value {
                        let args = pointers_at(m, arg_types);
                        if f.arg_types@.len() > 0 {
                            assert(args == f.arg_types@.map_values(|a: usize| tps[a as int]));
                        }
                        assert forall|j: int| 0 <= j < f.arg_types@.len() implies type_name_at(m, #[trigger] args[j])
                            == ir.types@[f.arg_types@[j] as int].name@ by {
                            assert(f.arg_types@[j] < ir.types@.len());
                            assert(describes_type(m, tps[f.arg_types@[j] as int], ir.types@[f.arg_types@[j] as int]));
                        }
                        assert(fv.args =~= wv.args);
                        if let Some(t) = f.return_type {
                            assert(describes_type(m, tps[t as int], ir.types@[t as int]));
                        }
                    }
                }
            }
            assert(got.0 =~= want.0);
        }
    }
}

/// Two reflection tables emitted for the same file read back the same, item
/// for item, whatever else their modules hold.
pub proof fn lemma_reflection_deterministic(
    m1: ModuleData,
    pa: Pointer,
    m2: ModuleData,
    pb: Pointer,
    ir: FileIr,
)
    requires
        ir_consistent(ir),
        describes_module(m1, pa, ir),
        describes_module(m2, pb, ir),
    ensures
        module_view_at(m1, pa) == module_view_at(m2, pb),
{
    lemma_reflection_read_back(m1, pa, ir);
    lemma_reflection_read_back(m2, pb, ir);
}

/// For a file that exports no function, the record holds a null function
/// array and a function count of zero.
pub proof fn lemma_empty_function_table(m: ModuleData, p: Pointer, ir: FileIr)
    requires
        describes_module(m, p, ir),
        ir.functions@.len() == 0,
    ensures
        match p {
            Pointer::Global(k) => match m.globals@[k as int].value {
                Constant::ModuleInfo { functions, num_functions, .. } => functions == Pointer::Null
                    && num_functions == 0,
                _ => false,
            },
            Pointer::Null => false,
        },
{
}

} // verus!
