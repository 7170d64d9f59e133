//! The per-file compilation unit: resolves the target, then drives the build
//! of the shared library step by step.
//!
//! Each step whose work lies outside this library (emitting machine code,
//! writing a file, running the system linker) is announced as an [`Action`];
//! the caller performs it and reports the [`Event`] that came of it.

use vstd::prelude::*;
use inkwell::targets::{CodeModel, InitializationConfig, RelocMode, Target, TargetMachine, TargetTriple};
use crate::linker::{shared_object_args, LinkCommand, Linker, LinkerError, LinkerFlavor};
use crate::output_path::{artifact_path, assembly_output_path, dir_view, has_file_name};

verus! {

#[verifier::external_type_specification]
#[verifier::external_body]
pub struct ExTarget(Target);

#[verifier::external_type_specification]
#[verifier::external_body]
pub struct ExTargetMachine(TargetMachine);

/// How hard the optimizer works, from none to the most aggressive.
#[derive(Clone, Copy, Debug, PartialEq, Eq, Structural)]
pub enum OptimizationLevel {
    Off,
    Less,
    Normal,
    Aggressive,
}

/// What the compilation database says of the target.
#[derive(Debug)]
pub struct TargetDescription {
    pub triple: String,
    pub cpu: String,
    pub features: String,
    pub data_layout: String,
    pub linker_flavor: LinkerFlavor,
}

/// Why a file could not be built.
#[derive(Debug)]
pub enum CodeGenerationError {
    /// The linking step failed.
    LinkerError(LinkerError),
    /// The backend does not know the target triple; carries its message.
    UnknownTargetTriple(String),
    /// The target is known but no code generator could be made for it.
    CouldNotCreateTargetMachine,
    /// The temporary object file could not be created or written.
    CouldNotCreateObjectFile(String),
    /// The backend failed to emit machine code; carries its message.
    CodeGenerationError(String),
}

impl From<LinkerError> for CodeGenerationError {
    fn from(e: LinkerError) -> (r: Self)
        ensures
            r == CodeGenerationError::LinkerError(e),
    {
        CodeGenerationError::LinkerError(e)
    }
}

impl vstd::std_specs::convert::FromSpecImpl<LinkerError> for CodeGenerationError {
    open spec fn obeys_from_spec() -> bool {
        true
    }

    open spec fn from_spec(e: LinkerError) -> Self {
        CodeGenerationError::LinkerError(e)
    }
}

/// Relies on inkwell's `Target::initialize_x86`: registers the x86 backend
/// with every component enabled. It takes a process-wide lock, and a second
/// call registers nothing new.
#[verifier::external_body]
fn initialize_x86_backend() {
    Target::initialize_x86(&InitializationConfig::default());
}

/// Relies on inkwell's `Target::from_triple`: looks the triple up among the
/// registered backends and gives LLVM's message when none matches.
#[verifier::external_body]
fn target_from_triple(triple: &str) -> (r: Result<Target, String>) {
    Target::from_triple(&TargetTriple::create(triple)).map_err(|e| e.to_string())
}

/// Relies on inkwell's `Target::create_target_machine`: a position
/// independent code generator with the default code model, or `None` when
/// LLVM cannot make one.
#[verifier::external_body]
fn create_target_machine(
    target: &Target,
    triple: &str,
    cpu: &str,
    features: &str,
    level: OptimizationLevel,
) -> (r: Option<TargetMachine>) {
    let level = match level {
        OptimizationLevel::Off => inkwell::OptimizationLevel::None,
        OptimizationLevel::Less => inkwell::OptimizationLevel::Less,
        OptimizationLevel::Normal => inkwell::OptimizationLevel::Default,
        OptimizationLevel::Aggressive => inkwell::OptimizationLevel::Aggressive,
    };
    target.create_target_machine(
        &TargetTriple::create(triple),
        cpu,
        features,
        level,
        RelocMode::PIC,
        CodeModel::Default,
    )
}

/// The compilation unit of one source file.
pub struct ModuleBuilder {
    pub file_path: String,
    pub target: TargetDescription,
    pub opt_level: OptimizationLevel,
    pub llvm_target: Target,
    pub target_machine: TargetMachine,
}

/// The result of construction for what the backend answered: the triple's
/// lookup, then the code generator made for the target found.
pub open spec fn construct_result(
    resolved: Result<Target, String>,
    machine: Option<TargetMachine>,
    r: Result<ModuleBuilder, CodeGenerationError>,
) -> bool {
    match resolved {
        Err(msg) => r matches Err(CodeGenerationError::UnknownTargetTriple(m)) && m@ == msg@,
        Ok(t) => match machine {
            None => r matches Err(CodeGenerationError::CouldNotCreateTargetMachine),
            Some(tm) => r matches Ok(b) && b.llvm_target == t && b.target_machine == tm,
        },
    }
}

impl ModuleBuilder {
    /// Assembles the unit from the backend's answers: `resolved` is the lookup
    /// of the target triple, `machine` the code generator made for the target
    /// found (ignored when the lookup failed).
    ///
    /// An unknown triple gives `UnknownTargetTriple` with the backend's
    /// message; a missing code generator gives `CouldNotCreateTargetMachine`.
    pub fn from_resolution(
        file_path: &str,
        target: TargetDescription,
        opt_level: OptimizationLevel,
        resolved: Result<Target, String>,
        machine: Option<TargetMachine>,
    ) -> (r: Result<ModuleBuilder, CodeGenerationError>)
        ensures
            construct_result(resolved, machine, r),
            r matches Ok(b) ==> b.file_path@ == file_path@ && b.target == target && b.opt_level
                == opt_level,
    {
        match resolved {
            Err(msg) => Err(CodeGenerationError::UnknownTargetTriple(msg)),
            Ok(llvm_target) => match machine {
                None => Err(CodeGenerationError::CouldNotCreateTargetMachine),
                Some(target_machine) => Ok(
                    ModuleBuilder {
                        file_path: String::from_str(file_path),
                        target,
                        opt_level,
                        llvm_target,
                        target_machine,
                    },
                ),
            },
        }
    }

    /// Constructs the unit for the file at `file_path`: sets up the x86
    /// backend, resolves the target triple and makes a code generator for it
    /// at `opt_level`.
    ///
    /// Fails with `UnknownTargetTriple` when the backend does not know the
    /// triple, and with `CouldNotCreateTargetMachine` when it cannot make a
    /// code generator. Nothing is built or written either way.
    pub fn new(file_path: &str, target: TargetDescription, opt_level: OptimizationLevel) -> (r:
        Result<ModuleBuilder, CodeGenerationError>)
        ensures
            r matches Ok(b) ==> b.file_path@ == file_path@ && b.target == target && b.opt_level
                == opt_level,
            r matches Err(e) ==> e matches CodeGenerationError::UnknownTargetTriple(_)
                || e matches CodeGenerationError::CouldNotCreateTargetMachine,
    {
        initialize_x86_backend();
        let resolved = target_from_triple(target.triple.as_str());
        let machine = match &resolved {
            Ok(t) => create_target_machine(
                t,
                target.triple.as_str(),
                target.cpu.as_str(),
                target.features.as_str(),
                opt_level,
            ),
            Err(_) => None,
        };
        Self::from_resolution(file_path, target, opt_level, resolved, machine)
    }

    /// Starts building the shared library of this file, into `out_dir` when
    /// one is given. Gives `None` when the file's path names no file.
    ///
    /// A unit is built once: the build adds to the file's module in place.
    pub fn finalize(&self, out_dir: Option<&str>) -> (r: Option<FinalizeSession>)
        ensures
            r.is_some() <==> has_file_name(self.file_path@),
            r matches Some(s) ==> s.stage == Stage::Start && s.opt_level == self.opt_level
                && s.flavor == self.target.linker_flavor && s.output_path@ == artifact_path(
                self.file_path@,
                dir_view(out_dir),
            ),
    {
        match assembly_output_path(self.file_path.as_str(), out_dir) {
            None => None,
            Some(output_path) => Some(
                FinalizeSession {
                    stage: Stage::Start,
                    opt_level: self.opt_level,
                    flavor: self.target.linker_flavor,
                    output_path,
                },
            ),
        }
    }
}

/// Where a build stands.
#[derive(Clone, Copy, Debug, PartialEq, Eq, Structural)]
pub enum Stage {
    Start,
    Reflect,
    Optimize,
    Emit,
    Write,
    Link,
    Finished,
}

/// What the caller is to do next.
#[derive(Debug)]
pub enum Action {
    /// Add the reflection table to the module.
    GenerateReflection,
    /// Run the optimizer over the module at this level.
    Optimize(OptimizationLevel),
    /// Emit the module as an object file in memory.
    EmitObject,
    /// Write the object to a fresh temporary file.
    WriteObjectFile,
    /// Run the linker with this command; the temporary file may go after.
    Link(LinkCommand),
    /// The build is over, with the artifact's path or the reason it failed.
    Finish(Result<String, CodeGenerationError>),
    /// Nothing is left to do.
    Stop,
}

/// What came of the last action.
#[derive(Debug)]
pub enum Event {
    /// It was done.
    Done,
    /// The object file was written at this path.
    ObjectWritten(String),
    /// It failed, with this message.
    Failed(String),
}

/// One build of a shared library, from reflection to linking.
#[derive(Debug)]
pub struct FinalizeSession {
    pub stage: Stage,
    pub opt_level: OptimizationLevel,
    pub flavor: LinkerFlavor,
    pub output_path: String,
}

/// The stage that follows `s` once `e` is reported.
pub open spec fn next_stage(s: Stage, e: Event) -> Stage {
    match s {
        Stage::Start => Stage::Reflect,
        Stage::Reflect => Stage::Optimize,
        Stage::Optimize => Stage::Emit,
        Stage::Emit => if e is Failed {
            Stage::Finished
        } else {
            Stage::Write
        },
        Stage::Write => match e {
            Event::ObjectWritten(_) => Stage::Link,
            Event::Failed(_) => Stage::Finished,
            Event::Done => Stage::Write,
        },
        Stage::Link => Stage::Finished,
        Stage::Finished => Stage::Finished,
    }
}

/// The arguments that link the object at `obj` into a shared library at `out`.
pub open spec fn link_args(flavor: LinkerFlavor, obj: Seq<char>, out: Seq<char>) -> Seq<Seq<char>> {
    seq![obj] + shared_object_args(flavor, out)
}

/// The action announced on entering a stage, from stage `s` with event `e`.
pub open spec fn action_for(session: FinalizeSession, e: Event, a: Action) -> bool {
    let s = session.stage;
    match s {
        Stage::Start => a is GenerateReflection,
        Stage::Reflect => a matches Action::Optimize(l) && l == session.opt_level,
        Stage::Optimize => a is EmitObject,
        Stage::Emit => match e {
            Event::Failed(m) => a matches Action::Finish(Err(CodeGenerationError::CodeGenerationError(
                x,
            ))) && x@ == m@,
            _ => a is WriteObjectFile,
        },
        Stage::Write => match e {
            Event::ObjectWritten(p) => a matches Action::Link(c) && c.flavor == session.flavor
                && c.args@.map_values(|x: String| x@) == link_args(
                session.flavor,
                p@,
                session.output_path@,
            ),
            Event::Failed(m) => a matches Action::Finish(Err(CodeGenerationError::CouldNotCreateObjectFile(
                x,
            ))) && x@ == m@,
            Event::Done => a is WriteObjectFile,
        },
        Stage::Link => match e {
            Event::Failed(m) => a matches Action::Finish(Err(CodeGenerationError::LinkerError(x)))
                && x.message@ == m@,
            _ => a matches Action::Finish(Ok(p)) && p@ == session.output_path@,
        },
        Stage::Finished => a is Stop,
    }
}

impl FinalizeSession {
    /// Reports what came of the last action and gives the next one. The first
    /// call, which follows no action, reports `Done`.
    ///
    /// The steps run in a fixed order: reflection, optimization, object
    /// emission, the temporary object file, linking. The first failure ends
    /// the build with its error: a failed emission gives
    /// `CodeGenerationError`, a failed write `CouldNotCreateObjectFile`, a
    /// failed link `LinkerError`, each with the message reported. After a
    /// successful link the build ends with the artifact's path.
    pub fn step(&mut self, event: Event) -> (r: Action)
        ensures
            final(self).stage == next_stage(old(self).stage, event),
            final(self).opt_level == old(self).opt_level,
            final(self).flavor == old(self).flavor,
            final(self).output_path@ == old(self).output_path@,
            action_for(*old(self), event, r),
    {
        match self.stage {
            Stage::Start => {
                self.stage = Stage::Reflect;
                Action::GenerateReflection
            },
            Stage::Reflect => {
                self.stage = Stage::Optimize;
                Action::Optimize(self.opt_level)
            },
            Stage::Optimize => {
                self.stage = Stage::Emit;
                Action::EmitObject
            },
            Stage::Emit => match event {
                Event::Failed(m) => {
                    self.stage = Stage::Finished;
                    Action::Finish(Err(CodeGenerationError::CodeGenerationError(m)))
                },
                _ => {
                    self.stage = Stage::Write;
                    Action::WriteObjectFile
                },
            },
            Stage::Write => match event {
                Event::ObjectWritten(obj) => {
                    let mut linker = Linker::create_with_target(self.flavor);
                    linker.add_object(obj.as_str());
                    linker.build_shared_object(self.output_path.as_str());
                    let cmd = linker.finalize();
                    self.stage = Stage::Link;
                    Action::Link(cmd)
                },
                Event::Failed(m) => {
                    self.stage = Stage::Finished;
                    Action::Finish(Err(CodeGenerationError::CouldNotCreateObjectFile(m)))
                },
                Event::Done => Action::WriteObjectFile,
            },
            Stage::Link => {
                self.stage = Stage::Finished;
                match event {
                    Event::Failed(m) => Action::Finish(
                        Err(CodeGenerationError::LinkerError(LinkerError { message: m })),
                    ),
                    _ => Action::Finish(Ok(String::from_str(self.output_path.as_str()))),
                }
            },
            Stage::Finished => Action::Stop,
        }
    }
}

} // verus!
