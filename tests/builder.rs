use componentize_go::builder::{
    build_step, module_build_args, test_build_args, BuildAction, BuildError, BuildEvent, BuildJob, BuildStage,
    BuildTarget,
};
use componentize_go::version::VersionError;

fn module_job(out_exists: bool) -> BuildJob {
    BuildJob {
        target: BuildTarget::Module,
        only_wasip1: false,
        module_dir: Some("/src/app".to_string()),
        module_dir_is_dir: true,
        package: String::new(),
        out_path: "/out/main.wasm".to_string(),
        out_exists,
        out_dir: None,
    }
}

fn version_ok() -> BuildEvent {
    BuildEvent::VersionReported {
        succeeded: true,
        report: "go version go1.25.5 linux/amd64".to_string(),
        error_output: String::new(),
    }
}

#[test]
fn build_removes_stale_output_before_compiling() {
    let job = module_job(true);
    let (stage, action) = build_step(&job, BuildStage::Start, BuildEvent::Begin);
    assert_eq!(stage, BuildStage::AwaitVersion);
    assert!(matches!(action, BuildAction::ProbeVersion));
    let (stage, action) = build_step(&job, stage, version_ok());
    assert_eq!(stage, BuildStage::AwaitRemoval);
    assert!(matches!(action, BuildAction::RemoveOutput(ref p) if p == "/out/main.wasm"));
    let (stage, action) = build_step(&job, stage, BuildEvent::OutputRemoved);
    assert_eq!(stage, BuildStage::AwaitCompiler);
    match action {
        BuildAction::RunCompiler(args) => assert_eq!(
            args,
            vec!["build", "-C", "/src/app", "-buildmode=c-shared", "-ldflags=-checklinkname=0", "-o", "/out/main.wasm"]
        ),
        _ => panic!("expected the compiler to run"),
    }
    let (stage, action) = build_step(
        &job,
        stage,
        BuildEvent::CompilerExited { succeeded: true, error_output: String::new() },
    );
    assert_eq!(stage, BuildStage::Done);
    assert!(matches!(action, BuildAction::Finish(Ok(ref p)) if p == "/out/main.wasm"));
}

#[test]
fn build_without_stale_output_compiles_at_once() {
    let job = module_job(false);
    let (stage, action) = build_step(&job, BuildStage::AwaitVersion, version_ok());
    assert_eq!(stage, BuildStage::AwaitCompiler);
    assert!(matches!(action, BuildAction::RunCompiler(_)));
}

#[test]
fn build_rejects_old_compiler() {
    let job = module_job(true);
    let event = BuildEvent::VersionReported {
        succeeded: true,
        report: "go version go1.24.9 linux/amd64".to_string(),
        error_output: String::new(),
    };
    let (stage, action) = build_step(&job, BuildStage::AwaitVersion, event);
    assert_eq!(stage, BuildStage::Done);
    assert!(matches!(action, BuildAction::Finish(Err(BuildError::Version(VersionError::Unsupported(_))))));
}

#[test]
fn build_rejects_missing_module_directory() {
    let mut job = module_job(false);
    job.module_dir_is_dir = false;
    let (_, action) = build_step(&job, BuildStage::AwaitVersion, version_ok());
    assert!(matches!(action, BuildAction::Finish(Err(BuildError::ModuleNotDirectory(ref p))) if p == "/src/app"));
}

#[test]
fn build_of_plain_module_is_unsupported() {
    let mut job = module_job(false);
    job.only_wasip1 = true;
    let (_, action) = build_step(&job, BuildStage::AwaitVersion, version_ok());
    assert!(matches!(action, BuildAction::Finish(Err(BuildError::Unsupported))));
}

#[test]
fn build_reports_compiler_failure() {
    let job = module_job(false);
    let (_, action) = build_step(
        &job,
        BuildStage::AwaitCompiler,
        BuildEvent::CompilerExited { succeeded: false, error_output: "undefined: x".to_string() },
    );
    assert!(matches!(action, BuildAction::Finish(Err(BuildError::CompilerFailed(ref e))) if e == "undefined: x"));
}

#[test]
fn build_refuses_unexpected_event() {
    let job = module_job(false);
    let (stage, action) = build_step(&job, BuildStage::Start, BuildEvent::OutputRemoved);
    assert_eq!(stage, BuildStage::Done);
    assert!(matches!(action, BuildAction::Finish(Err(BuildError::UnexpectedEvent))));
}

#[test]
fn test_build_creates_directory_then_compiles() {
    let job = BuildJob {
        target: BuildTarget::TestModule,
        only_wasip1: true,
        module_dir: None,
        module_dir_is_dir: false,
        package: "./foo/bar".to_string(),
        out_path: "/out/test_foo_bar.wasm".to_string(),
        out_exists: false,
        out_dir: Some("/out".to_string()),
    };
    let (stage, action) = build_step(&job, BuildStage::AwaitVersion, version_ok());
    assert_eq!(stage, BuildStage::AwaitDir);
    assert!(matches!(action, BuildAction::CreateDir(ref d) if d == "/out"));
    let (stage, action) = build_step(&job, stage, BuildEvent::DirCreated);
    assert_eq!(stage, BuildStage::AwaitCompiler);
    match action {
        BuildAction::RunCompiler(args) => assert_eq!(
            args,
            vec!["test", "-c", "-ldflags=-checklinkname=0", "-o", "/out/test_foo_bar.wasm", "./foo/bar"]
        ),
        _ => panic!("expected the compiler to run"),
    }
}

#[test]
fn test_build_for_components_is_unsupported() {
    let job = BuildJob {
        target: BuildTarget::TestModule,
        only_wasip1: false,
        module_dir: None,
        module_dir_is_dir: false,
        package: "./p".to_string(),
        out_path: "/out/test_p.wasm".to_string(),
        out_exists: false,
        out_dir: None,
    };
    let (_, action) = build_step(&job, BuildStage::AwaitVersion, version_ok());
    assert!(matches!(action, BuildAction::Finish(Err(BuildError::Unsupported))));
}

#[test]
fn compiler_arguments() {
    assert_eq!(
        module_build_args(".", "/o.wasm"),
        vec!["build", "-C", ".", "-buildmode=c-shared", "-ldflags=-checklinkname=0", "-o", "/o.wasm"]
    );
    assert_eq!(test_build_args("/t.wasm", "./p"), vec!["test", "-c", "-ldflags=-checklinkname=0", "-o", "/t.wasm", "./p"]);
}
