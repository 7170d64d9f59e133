//! Read-only global data of a code module, held as plain values.
//!
//! A [`ModuleData`] lists the globals that code generation adds to a module,
//! in the order they were added. A [`Pointer`] refers to one of them by its
//! position, or is null. Lowering the list into the native backend's module
//! takes each entry over one for one.

use vstd::prelude::*;

verus! {

/// A constant pointer: null, or the address of a global of the same module.
#[derive(Clone, Copy, Debug, PartialEq, Eq, Structural)]
pub enum Pointer {
    Null,
    Global(usize),
}

/// The initializer of a global.
#[derive(Debug)]
pub enum Constant {
    /// Characters of a string, stored with a terminating nul.
    Str(String),
    /// An array of pointers.
    Pointers(Vec<Pointer>),
    /// An array of 16-bit unsigned integers.
    U16s(Vec<u16>),
    /// Description of a type: its name, field names and field offsets.
    TypeInfo { name: Pointer, field_names: Pointer, field_offsets: Pointer, num_fields: usize },
    /// Description of a function: name, argument types, return type and the
    /// dispatch-table slot through which it is called.
    FunctionInfo {
        name: Pointer,
        arg_types: Pointer,
        num_args: usize,
        return_type: Pointer,
        slot: usize,
    },
    /// What the reflection entry point returns: both descriptor arrays with
    /// their lengths.
    ModuleInfo { functions: Pointer, num_functions: usize, types: Pointer, num_types: usize },
}

/// How the symbol of a global is visible to the linker.
#[derive(Clone, Copy, Debug, PartialEq, Eq, Structural)]
pub enum Linkage {
    Private,
    External,
}

/// One global of a module.
#[derive(Debug)]
pub struct GlobalDef {
    pub name: String,
    pub linkage: Linkage,
    pub constant: bool,
    /// The address of the global is not significant, so equal globals may merge.
    pub unnamed_addr: bool,
    pub value: Constant,
}

/// The globals added to a module, in order of creation.
#[derive(Debug)]
pub struct ModuleData {
    pub globals: Vec<GlobalDef>,
}

/// `m2` holds every global of `m1`, unchanged and at the same position.
pub open spec fn extends(m1: ModuleData, m2: ModuleData) -> bool {
    &&& m1.globals@.len() <= m2.globals@.len()
    &&& forall|i: int| 0 <= i < m1.globals@.len() ==> m2.globals@[i] == #[trigger] m1.globals@[i]
}

/// The global `g` was made by [`gen_global`] with `name` and initializer `value`.
pub open spec fn is_private_constant(g: GlobalDef, name: Seq<char>) -> bool {
    &&& g.name@ == name
    &&& g.linkage == Linkage::Private
    &&& g.constant
    &&& g.unnamed_addr
}

/// `p` points to a global of `m` holding the string `s`.
pub open spec fn points_to_str(m: ModuleData, p: Pointer, s: Seq<char>) -> bool {
    match p {
        Pointer::Global(k) => k < m.globals@.len() && match m.globals@[k as int].value {
            Constant::Str(t) => t@ == s,
            _ => false,
        },
        Pointer::Null => false,
    }
}

/// `p` points to a global of `m` holding the pointer array `ps`.
pub open spec fn points_to_pointers(m: ModuleData, p: Pointer, ps: Seq<Pointer>) -> bool {
    match p {
        Pointer::Global(k) => k < m.globals@.len() && match m.globals@[k as int].value {
            Constant::Pointers(v) => v@ == ps,
            _ => false,
        },
        Pointer::Null => false,
    }
}

/// The low 16 bits of an integer.
pub open spec fn low_u16(v: u64) -> u16 {
    (v % 0x10000) as u16
}

/// `p` points to a global of `m` holding the low 16 bits of each of `vs`.
pub open spec fn points_to_u16s(m: ModuleData, p: Pointer, vs: Seq<u64>) -> bool {
    match p {
        Pointer::Global(k) => k < m.globals@.len() && match m.globals@[k as int].value {
            Constant::U16s(v) => v@.len() == vs.len() && forall|i: int|
                0 <= i < vs.len() ==> #[trigger] v@[i] == low_u16(vs[i]),
            _ => false,
        },
        Pointer::Null => false,
    }
}

/// `p` is null exactly when `n` is zero.
pub open spec fn null_iff_empty(p: Pointer, n: nat) -> bool {
    (p == Pointer::Null) <==> n == 0
}

/// `p` points to an array of pointers, one per string of `ss`, each to a
/// global holding that string; or is null when `ss` is empty.
pub open spec fn points_to_str_array(m: ModuleData, p: Pointer, ss: Seq<Seq<char>>) -> bool {
    if ss.len() == 0 {
        p == Pointer::Null
    } else {
        exists|ps: Seq<Pointer>|
            #![trigger points_to_pointers(m, p, ps)]
            points_to_pointers(m, p, ps) && ps.len() == ss.len() && forall|i: int|
                0 <= i < ss.len() ==> points_to_str(m, #[trigger] ps[i], ss[i])
    }
}

pub broadcast proof fn lemma_extends_str(m1: ModuleData, m2: ModuleData, p: Pointer, s: Seq<char>)
    requires
        extends(m1, m2),
        #[trigger] points_to_str(m1, p, s),
    ensures
        #[trigger] points_to_str(m2, p, s),
{
    if let Pointer::Global(k) = p {
        assert(m2.globals@[k as int] == m1.globals@[k as int]);
    }
}

pub broadcast proof fn lemma_extends_pointers(
    m1: ModuleData,
    m2: ModuleData,
    p: Pointer,
    ps: Seq<Pointer>,
)
    requires
        extends(m1, m2),
        #[trigger] points_to_pointers(m1, p, ps),
    ensures
        #[trigger] points_to_pointers(m2, p, ps),
{
    if let Pointer::Global(k) = p {
        assert(m2.globals@[k as int] == m1.globals@[k as int]);
    }
}

pub broadcast proof fn lemma_extends_u16s(m1: ModuleData, m2: ModuleData, p: Pointer, vs: Seq<u64>)
    requires
        extends(m1, m2),
        #[trigger] points_to_u16s(m1, p, vs),
    ensures
        #[trigger] points_to_u16s(m2, p, vs),
{
    if let Pointer::Global(k) = p {
        assert(m2.globals@[k as int] == m1.globals@[k as int]);
    }
}

pub broadcast proof fn lemma_extends_trans(m1: ModuleData, m2: ModuleData, m3: ModuleData)
    requires
        #[trigger] extends(m1, m2),
        #[trigger] extends(m2, m3),
    ensures
        extends(m1, m3),
{
    assert forall|i: int| 0 <= i < m1.globals@.len() implies m3.globals@[i] == #[trigger] m1.globals@[i] by {
        assert(m2.globals@[i] == m1.globals@[i]);
    }
}

pub broadcast proof fn lemma_extends_str_array(
    m1: ModuleData,
    m2: ModuleData,
    p: Pointer,
    ss: Seq<Seq<char>>,
)
    requires
        extends(m1, m2),
        #[trigger] points_to_str_array(m1, p, ss),
    ensures
        #[trigger] points_to_str_array(m2, p, ss),
{
    if ss.len() > 0 {
        let ps = choose|ps: Seq<Pointer>|
            #![trigger points_to_pointers(m1, p, ps)]
            points_to_pointers(m1, p, ps) && ps.len() == ss.len() && forall|i: int|
                0 <= i < ss.len() ==> points_to_str(m1, #[trigger] ps[i], ss[i]);
        lemma_extends_pointers(m1, m2, p, ps);
        assert forall|i: int| 0 <= i < ss.len() implies points_to_str(m2, #[trigger] ps[i], ss[i]) by {
            lemma_extends_str(m1, m2, ps[i], ss[i]);
        }
    }
}

pub broadcast group group_extends {
    lemma_extends_str,
    lemma_extends_pointers,
    lemma_extends_u16s,
    lemma_extends_trans,
    lemma_extends_str_array,
}

impl ModuleData {
    /// A module without globals.
    pub fn new() -> (r: ModuleData)
        ensures
            r.globals@.len() == 0,
    {
        ModuleData { globals: Vec::new() }
    }
}

/// Adds a global named `name` initialized to `value`, with private linkage,
/// constant and with an insignificant address, and returns a pointer to it.
pub fn gen_global(module: &mut ModuleData, value: Constant, name: &str) -> (r: Pointer)
    ensures
        extends(*old(module), *final(module)),
        final(module).globals@.len() == old(module).globals@.len() + 1,
        r matches Pointer::Global(k) && k == old(module).globals@.len(),
        is_private_constant(final(module).globals@[old(module).globals@.len() as int], name@),
        final(module).globals@[old(module).globals@.len() as int].value == value,
{
    let idx = module.globals.len();
    module.globals.push(
        GlobalDef {
            name: String::from_str(name),
            linkage: Linkage::Private,
            constant: true,
            unnamed_addr: true,
            value,
        },
    );
    Pointer::Global(idx)
}

/// Adds a global holding `string` with a terminating nul, and returns a
/// pointer to it. Equal strings are not shared: each call adds a global.
pub fn intern_string(module: &mut ModuleData, string: &str, name: &str) -> (r: Pointer)
    ensures
        extends(*old(module), *final(module)),
        final(module).globals@.len() == old(module).globals@.len() + 1,
        r matches Pointer::Global(k) && k == old(module).globals@.len(),
        is_private_constant(final(module).globals@[old(module).globals@.len() as int], name@),
        points_to_str(*final(module), r, string@),
{
    gen_global(module, Constant::Str(String::from_str(string)), name)
}

/// Adds one global per string, each named `name`, and an array of pointers to
/// them; returns a pointer to the array. An empty list gives a null pointer
/// and adds nothing.
pub fn gen_string_array(module: &mut ModuleData, strings: &Vec<String>, name: &str) -> (r: Pointer)
    ensures
        extends(*old(module), *final(module)),
        null_iff_empty(r, strings@.len()),
        strings@.len() == 0 ==> *final(module) == *old(module),
        points_to_str_array(*final(module), r, strings@.map_values(|s: String| s@)),
{
    broadcast use group_extends;

    if strings.len() == 0 {
        return Pointer::Null;
    }
    let ghost start = *module;
    let ghost ss = strings@.map_values(|s: String| s@);
    let mut ptrs: Vec<Pointer> = Vec::new();
    let mut i: usize = 0;
    while i < strings.len()
        invariant
            i <= strings@.len(),
            ptrs@.len() == i,
            extends(start, *module),
            ss == strings@.map_values(|s: String| s@),
            forall|j: int| 0 <= j < i ==> points_to_str(*module, #[trigger] ptrs@[j], ss[j]),
        decreases strings@.len() - i,
    {
        let ghost before = *module;
        let p = intern_string(module, strings[i].as_str(), name);
        assert forall|j: int| 0 <= j < i implies points_to_str(*module, #[trigger] ptrs@[j], ss[j]) by {
            lemma_extends_str(before, *module, ptrs@[j], ss[j]);
        }
        ptrs.push(p);
        i = i + 1;
    }
    let ghost before = *module;
    let ghost ps = ptrs@;
    let r = gen_global(module, Constant::Pointers(ptrs), "");
    assert(points_to_pointers(*module, r, ps));
    assert forall|j: int| 0 <= j < ss.len() implies points_to_str(*module, #[trigger] ps[j], ss[j]) by {
        lemma_extends_str(before, *module, ps[j], ss[j]);
    }
    r
}

/// Adds a global array holding `ptrs`, named `name`, and returns a pointer to
/// it. An empty list gives a null pointer and adds nothing.
pub fn gen_struct_ptr_array(module: &mut ModuleData, ptrs: &Vec<Pointer>, name: &str) -> (r: Pointer)
    ensures
        extends(*old(module), *final(module)),
        null_iff_empty(r, ptrs@.len()),
        ptrs@.len() == 0 ==> *final(module) == *old(module),
        ptrs@.len() > 0 ==> points_to_pointers(*final(module), r, ptrs@),
        ptrs@.len() > 0 ==> final(module).globals@.len() == old(module).globals@.len() + 1,
{
    if ptrs.len() == 0 {
        Pointer::Null
    } else {
        gen_global(module, Constant::Pointers(ptrs.clone()), name)
    }
}

/// Adds a global array holding the low 16 bits of each integer, and returns a
/// pointer to it. An empty list gives a null pointer and adds nothing.
pub fn gen_u16_array(module: &mut ModuleData, integers: &Vec<u64>) -> (r: Pointer)
    ensures
        extends(*old(module), *final(module)),
        null_iff_empty(r, integers@.len()),
        integers@.len() == 0 ==> *final(module) == *old(module),
        integers@.len() > 0 ==> points_to_u16s(*final(module), r, integers@),
{
    if integers.len() == 0 {
        return Pointer::Null;
    }
    let mut vals: Vec<u16> = Vec::new();
    let mut i: usize = 0;
    while i < integers.len()
        invariant
            i <= integers@.len(),
            vals@.len() == i,
            forall|j: int| 0 <= j < i ==> #[trigger] vals@[j] == low_u16(integers@[j]),
        decreases integers@.len() - i,
    {
        vals.push((integers[i] % 0x10000) as u16);
        i = i + 1;
    }
    gen_global(module, Constant::U16s(vals), "")
}

} // verus!
