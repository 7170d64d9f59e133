use inkwell::targets::{InitializationConfig, Target, TargetTriple};
use mun_codegen::linker::{Linker, LinkerFlavor};
use mun_codegen::module_builder::{
    Action, CodeGenerationError, Event, FinalizeSession, ModuleBuilder, OptimizationLevel, Stage,
    TargetDescription,
};

fn target(triple: &str, flavor: LinkerFlavor) -> TargetDescription {
    TargetDescription {
        triple: triple.to_string(),
        cpu: "x86-64".to_string(),
        features: String::new(),
        data_layout: String::new(),
        linker_flavor: flavor,
    }
}

fn session(flavor: LinkerFlavor) -> FinalizeSession {
    FinalizeSession {
        stage: Stage::Start,
        opt_level: OptimizationLevel::Aggressive,
        flavor,
        output_path: "/out/bar.munlib".to_string(),
    }
}

#[test]
fn unknown_triple_fails_construction() {
    let r = ModuleBuilder::new("foo/bar.src", target("not-a-real-triple", LinkerFlavor::Ld), OptimizationLevel::Normal);
    assert!(matches!(r, Err(CodeGenerationError::UnknownTargetTriple(ref m)) if !m.is_empty()));
}

#[test]
fn known_triple_builds_a_unit() {
    let r = ModuleBuilder::new(
        "foo/bar.src",
        target("x86_64-unknown-linux-gnu", LinkerFlavor::Ld),
        OptimizationLevel::Less,
    );
    let b = match r {
        Ok(b) => b,
        Err(e) => panic!("construction failed: {:?}", e),
    };
    assert_eq!(b.file_path, "foo/bar.src");
    assert_eq!(b.opt_level, OptimizationLevel::Less);
    let s = b.finalize(Some("/out")).expect("file has a name");
    assert_eq!(s.output_path, "/out/bar.munlib");
    assert_eq!(s.stage, Stage::Start);
}

#[test]
fn unit_for_nameless_path_cannot_finalize() {
    let b = ModuleBuilder::new("foo/..", target("x86_64-unknown-linux-gnu", LinkerFlavor::Ld), OptimizationLevel::Off)
        .expect("known triple");
    assert!(b.finalize(None).is_none());
}

#[test]
fn steps_run_in_order_and_end_with_path() {
    let mut s = session(LinkerFlavor::Ld);
    assert!(matches!(s.step(Event::Done), Action::GenerateReflection));
    assert!(matches!(s.step(Event::Done), Action::Optimize(OptimizationLevel::Aggressive)));
    assert!(matches!(s.step(Event::Done), Action::EmitObject));
    assert!(matches!(s.step(Event::Done), Action::WriteObjectFile));
    match s.step(Event::ObjectWritten("/tmp/obj.o".to_string())) {
        Action::Link(cmd) => {
            assert_eq!(cmd.flavor, LinkerFlavor::Ld);
            assert_eq!(cmd.args, vec!["/tmp/obj.o", "--shared", "-o", "/out/bar.munlib"]);
        }
        other => panic!("unexpected {:?}", other),
    }
    assert!(matches!(s.step(Event::Done), Action::Finish(Ok(ref p)) if p == "/out/bar.munlib"));
    assert_eq!(s.stage, Stage::Finished);
    assert!(matches!(s.step(Event::Done), Action::Stop));
}

#[test]
fn emission_failure_ends_build() {
    let mut s = session(LinkerFlavor::Ld);
    s.step(Event::Done);
    s.step(Event::Done);
    s.step(Event::Done);
    let a = s.step(Event::Failed("bad module".to_string()));
    assert!(matches!(a, Action::Finish(Err(CodeGenerationError::CodeGenerationError(ref m))) if m == "bad module"));
    assert_eq!(s.stage, Stage::Finished);
}

#[test]
fn object_file_failure_ends_build() {
    let mut s = session(LinkerFlavor::Ld);
    for _ in 0..4 {
        s.step(Event::Done);
    }
    assert_eq!(s.stage, Stage::Write);
    assert!(matches!(s.step(Event::Done), Action::WriteObjectFile));
    let a = s.step(Event::Failed("disk full".to_string()));
    assert!(matches!(a, Action::Finish(Err(CodeGenerationError::CouldNotCreateObjectFile(ref m))) if m == "disk full"));
}

#[test]
fn link_failure_ends_build() {
    let mut s = session(LinkerFlavor::Msvc);
    for _ in 0..4 {
        s.step(Event::Done);
    }
    match s.step(Event::ObjectWritten("obj.o".to_string())) {
        Action::Link(cmd) => assert_eq!(cmd.args, vec!["obj.o", "/DLL", "/NOENTRY", "/OUT:/out/bar.munlib"]),
        other => panic!("unexpected {:?}", other),
    }
    let a = s.step(Event::Failed("undefined symbol".to_string()));
    assert!(matches!(a, Action::Finish(Err(CodeGenerationError::LinkerError(ref e))) if e.message == "undefined symbol"));
}

#[test]
fn linker_arguments_per_flavor() {
    let mut l = Linker::create_with_target(LinkerFlavor::Ld64);
    l.add_object("a.o");
    l.add_object("b.o");
    l.build_shared_object("lib.munlib");
    let cmd = l.finalize();
    assert_eq!(cmd.flavor, LinkerFlavor::Ld64);
    assert_eq!(cmd.args, vec!["a.o", "b.o", "-dylib", "-o", "lib.munlib"]);
}

#[test]
fn linker_error_converts() {
    let e = CodeGenerationError::from(mun_codegen::linker::LinkerError { message: "x".to_string() });
    assert!(matches!(e, CodeGenerationError::LinkerError(ref l) if l.message == "x"));
}

#[test]
fn failed_lookup_keeps_backend_message() {
    let r = ModuleBuilder::from_resolution(
        "foo/bar.src",
        target("nowhere", LinkerFlavor::Ld),
        OptimizationLevel::Off,
        Err("no such target".to_string()),
        None,
    );
    assert!(matches!(r, Err(CodeGenerationError::UnknownTargetTriple(ref m)) if m == "no such target"));
}

#[test]
fn missing_code_generator_fails_construction() {
    Target::initialize_x86(&InitializationConfig::default());
    let t = Target::from_triple(&TargetTriple::create("x86_64-unknown-linux-gnu")).expect("x86 is registered");
    let r = ModuleBuilder::from_resolution(
        "foo/bar.src",
        target("x86_64-unknown-linux-gnu", LinkerFlavor::Ld),
        OptimizationLevel::Off,
        Ok(t),
        None,
    );
    assert!(matches!(r, Err(CodeGenerationError::CouldNotCreateTargetMachine)));
}
