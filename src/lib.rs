//! Native code-generation backend: turns a file's lowered representation into
//! a shared library with an embedded reflection table.

pub mod backend;
pub mod globals;
pub mod linker;
pub mod module_builder;
pub mod output_path;
pub mod reflection;

pub use module_builder::ModuleBuilder;
