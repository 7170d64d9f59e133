//! Optimization and object emission on the native backend's module.
//!
//! The backend's module is opaque here: these functions fix which steps run
//! and how their failures are reported, not what the steps do to the code.

use vstd::prelude::*;
use inkwell::module::Module;
use inkwell::passes::{PassManager, PassManagerBuilder};
use inkwell::targets::{FileType, TargetMachine};
use crate::module_builder::{CodeGenerationError, OptimizationLevel};

verus! {

#[verifier::external_type_specification]
#[verifier::external_body]
pub struct ExModule<'ctx>(Module<'ctx>);

#[verifier::external_type_specification]
#[verifier::external_body]
pub struct ExPassManagerBuilder(PassManagerBuilder);

#[verifier::external_type_specification]
#[verifier::external_body]
#[verifier::reject_recursive_types(T)]
pub struct ExPassManager<T>(PassManager<T>);

/// Relies on inkwell's `PassManagerBuilder::create`: a builder of LLVM's
/// standard pass pipelines.
#[verifier::external_body]
fn pass_manager_builder() -> (r: PassManagerBuilder) {
    PassManagerBuilder::create()
}

/// Relies on inkwell's `PassManagerBuilder::set_optimization_level`: the
/// pipelines the builder fills are those of `level`.
#[verifier::external_body]
fn set_pipeline_level(builder: &PassManagerBuilder, level: OptimizationLevel) {
    builder.set_optimization_level(
        match level {
            OptimizationLevel::Off => inkwell::OptimizationLevel::None,
            OptimizationLevel::Less => inkwell::OptimizationLevel::Less,
            OptimizationLevel::Normal => inkwell::OptimizationLevel::Default,
            OptimizationLevel::Aggressive => inkwell::OptimizationLevel::Aggressive,
        },
    )
}

/// Relies on inkwell's `PassManager::create`: an empty pass manager for whole
/// modules.
#[verifier::external_body]
fn module_pass_manager<'ctx>() -> (r: PassManager<Module<'ctx>>) {
    PassManager::create(())
}

/// Relies on inkwell's `PassManagerBuilder::populate_module_pass_manager`:
/// adds the builder's module pipeline to `manager`.
#[verifier::external_body]
fn populate_module_passes<'ctx>(builder: &PassManagerBuilder, manager: &PassManager<Module<'ctx>>) {
    builder.populate_module_pass_manager(manager)
}

/// Relies on inkwell's `PassManager::run_on`: runs the passes over `module`
/// once, in place; tells whether any pass changed it.
#[verifier::external_body]
fn run_module_passes<'ctx>(manager: &PassManager<Module<'ctx>>, module: &Module<'ctx>) -> (r: bool) {
    manager.run_on(module)
}

/// Relies on inkwell's `TargetMachine::write_to_memory_buffer`: the module as
/// an object file for the machine's target, or LLVM's message when emission
/// fails.
#[verifier::external_body]
fn write_object_file<'ctx>(machine: &TargetMachine, module: &Module<'ctx>) -> (r: Result<
    Vec<u8>,
    String,
>) {
    machine.write_to_memory_buffer(module, FileType::Object).map(|b| b.as_slice().to_vec()).map_err(
        |e| e.to_string(),
    )
}

/// Optimizes `module` in place with the standard pipeline of `level`, run
/// once over the whole module.
pub fn optimize_module<'ctx>(module: &Module<'ctx>, level: OptimizationLevel) {
    let builder = pass_manager_builder();
    set_pipeline_level(&builder, level);
    let manager = module_pass_manager();
    populate_module_passes(&builder, &manager);
    run_module_passes(&manager, module);
}

/// Emits `module` as an object file for the target of `machine`. A failure of
/// the backend gives `CodeGenerationError` with the backend's message.
pub fn emit_object<'ctx>(machine: &TargetMachine, module: &Module<'ctx>) -> (r: Result<
    Vec<u8>,
    CodeGenerationError,
>)
    ensures
        r matches Err(e) ==> e is CodeGenerationError,
{
    match write_object_file(machine, module) {
        Ok(bytes) => Ok(bytes),
        Err(msg) => Err(CodeGenerationError::CodeGenerationError(msg)),
    }
}

} // verus!
