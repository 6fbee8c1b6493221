//! The decisions of a Go build: version check, clearing a stale output,
//! creating the output directory, the compiler's arguments and the
//! verdict on its exit. The caller performs each action and reports back.
use vstd::prelude::*;
use crate::text::views;
use crate::version::{GoVersion, VersionError, check_go_version, regex_groups, version_of_groups, is_supported, GO_VERSION_PATTERN};

verus! {

/// `GOOS` for the build.
pub const TARGET_OS: &'static str = "wasip1";
/// `GOARCH` for the build.
pub const TARGET_ARCH: &'static str = "wasm";

/// What is built.
#[derive(Clone, Copy, PartialEq, Eq, Debug, Structural)]
pub enum BuildTarget {
    /// A library-shaped module from a Go module (`go build`).
    Module,
    /// An executable test module from a package (`go test -c`).
    TestModule,
}

/// Everything the decisions need to know of a build request.
pub struct BuildJob {
    pub target: BuildTarget,
    /// Build a plain preview1 module instead of one to be adapted.
    pub only_wasip1: bool,
    /// The directory of the Go module (`.` when `None`); used for modules.
    pub module_dir: Option<String>,
    /// Whether `module_dir` names an existing directory.
    pub module_dir_is_dir: bool,
    /// The package path; used for test modules.
    pub package: String,
    /// The absolute output path.
    pub out_path: String,
    /// Whether a file exists at `out_path` before the build.
    pub out_exists: bool,
    /// The output directory to create; used for test modules.
    pub out_dir: Option<String>,
}

/// Where a build stands.
#[derive(Clone, Copy, PartialEq, Eq, Debug, Structural)]
pub enum BuildStage {
    Start,
    AwaitVersion,
    AwaitRemoval,
    AwaitDir,
    AwaitCompiler,
    Done,
}

/// What the caller reports back.
pub enum BuildEvent {
    Begin,
    VersionReported { succeeded: bool, report: String, error_output: String },
    OutputRemoved,
    DirCreated,
    CompilerExited { succeeded: bool, error_output: String },
}

/// Why a build failed.
pub enum BuildError {
    Version(VersionError),
    ModuleNotDirectory(String),
    /// The requested mode is not supported yet.
    Unsupported,
    /// The compiler failed; its error output.
    CompilerFailed(String),
    /// An event that the current stage does not expect.
    UnexpectedEvent,
}

/// What the caller is to do next.
pub enum BuildAction {
    /// Run the compiler's `version` subcommand.
    ProbeVersion,
    /// Delete the file at the path.
    RemoveOutput(String),
    /// Create the directory and its parents.
    CreateDir(String),
    /// Run the compiler with these arguments, `GOOS` and `GOARCH` set to the
    /// target's.
    RunCompiler(Vec<String>),
    /// The build is over: the output path, or the error.
    Finish(Result<String, BuildError>),
}

pub open spec fn module_args(dir: Seq<char>, out: Seq<char>) -> Seq<Seq<char>> {
    seq!["build"@, "-C"@, dir, "-buildmode=c-shared"@, "-ldflags=-checklinkname=0"@, "-o"@, out]
}

pub open spec fn test_args(out: Seq<char>, package: Seq<char>) -> Seq<Seq<char>> {
    seq!["test"@, "-c"@, "-ldflags=-checklinkname=0"@, "-o"@, out, package]
}

pub open spec fn module_dir_view(job: BuildJob) -> Seq<char> {
    match job.module_dir {
        Some(d) => d@,
        None => "."@,
    }
}

/// The step that runs the compiler, or the failure that stands in its way.
pub open spec fn is_compile_step(job: BuildJob, r: (BuildStage, BuildAction)) -> bool {
    match job.target {
        BuildTarget::Module => if job.module_dir is Some && !job.module_dir_is_dir {
            r.0 == BuildStage::Done && (r.1 matches BuildAction::Finish(Err(BuildError::ModuleNotDirectory(p)))
                && p@ == job.module_dir->0@)
        } else if job.only_wasip1 {
            r.0 == BuildStage::Done && (r.1 matches BuildAction::Finish(Err(BuildError::Unsupported)))
        } else {
            r.0 == BuildStage::AwaitCompiler && (r.1 matches BuildAction::RunCompiler(a)
                && views(a@) == module_args(module_dir_view(job), job.out_path@))
        },
        BuildTarget::TestModule => if !job.only_wasip1 {
            r.0 == BuildStage::Done && (r.1 matches BuildAction::Finish(Err(BuildError::Unsupported)))
        } else {
            r.0 == BuildStage::AwaitCompiler && (r.1 matches BuildAction::RunCompiler(a)
                && views(a@) == test_args(job.out_path@, job.package@))
        },
    }
}

/// The step once no stale output is left.
pub open spec fn is_step_after_removal(job: BuildJob, r: (BuildStage, BuildAction)) -> bool {
    if job.target == BuildTarget::TestModule && job.out_dir is Some {
        r.0 == BuildStage::AwaitDir && (r.1 matches BuildAction::CreateDir(d) && d@ == job.out_dir->0@)
    } else {
        is_compile_step(job, r)
    }
}

/// The step once the version is accepted: a stale output is removed first.
pub open spec fn is_step_after_version(job: BuildJob, r: (BuildStage, BuildAction)) -> bool {
    if job.out_exists {
        r.0 == BuildStage::AwaitRemoval && (r.1 matches BuildAction::RemoveOutput(p) && p@ == job.out_path@)
    } else {
        is_step_after_removal(job, r)
    }
}

/// Whether a version report is accepted.
pub open spec fn version_accepted(succeeded: bool, report: Seq<char>) -> bool {
    succeeded && match regex_groups(GO_VERSION_PATTERN@, report) {
        Some(g) => match version_of_groups(g) {
            Some(v) => is_supported(v),
            None => false,
        },
        None => false,
    }
}

/// The steps a build may take.
pub open spec fn is_build_step(job: BuildJob, stage: BuildStage, event: BuildEvent, r: (BuildStage, BuildAction)) -> bool {
    match (stage, event) {
        (BuildStage::Start, BuildEvent::Begin) => r.0 == BuildStage::AwaitVersion && r.1 is ProbeVersion,
        (BuildStage::AwaitVersion, BuildEvent::VersionReported { succeeded, report, .. }) =>
            if version_accepted(succeeded, report@) {
                is_step_after_version(job, r)
            } else {
                r.0 == BuildStage::Done && (r.1 matches BuildAction::Finish(Err(BuildError::Version(_))))
            },
        (BuildStage::AwaitRemoval, BuildEvent::OutputRemoved) => is_step_after_removal(job, r),
        (BuildStage::AwaitDir, BuildEvent::DirCreated) => is_compile_step(job, r),
        (BuildStage::AwaitCompiler, BuildEvent::CompilerExited { succeeded, error_output }) =>
            r.0 == BuildStage::Done && if succeeded {
                r.1 matches BuildAction::Finish(Ok(p)) && p@ == job.out_path@
            } else {
                r.1 matches BuildAction::Finish(Err(BuildError::CompilerFailed(e))) && e@ == error_output@
            },
        _ => r.0 == BuildStage::Done && (r.1 matches BuildAction::Finish(Err(BuildError::UnexpectedEvent))),
    }
}

/// When a file exists at the output path, the compiler runs only after the
/// caller has removed it: directly on the removal, or on the creation of the
/// output directory, which itself follows the removal.
pub proof fn lemma_stale_output_removed_first(job: BuildJob, stage: BuildStage, event: BuildEvent, r: (BuildStage, BuildAction))
    requires
        job.out_exists,
        is_build_step(job, stage, event, r),
    ensures
        r.1 is RunCompiler ==> (stage == BuildStage::AwaitRemoval && event is OutputRemoved)
            || (stage == BuildStage::AwaitDir && event is DirCreated),
        r.0 == BuildStage::AwaitDir ==> stage == BuildStage::AwaitRemoval && event is OutputRemoved,
        stage == BuildStage::AwaitVersion && r.0 != BuildStage::Done ==> (r.1 matches BuildAction::RemoveOutput(p)
            && p@ == job.out_path@),
{
}

fn strs(items: Vec<&str>) -> (r: Vec<String>)
    ensures
        r@.len() == items@.len(),
        forall|k: int| 0 <= k < r@.len() ==> #[trigger] r@[k]@ == items@[k]@,
{
    let mut r: Vec<String> = Vec::new();
    let mut i: usize = 0;
    while i < items.len()
        invariant
            i <= items@.len(),
            r@.len() == i,
            forall|k: int| 0 <= k < i ==> #[trigger] r@[k]@ == items@[k]@,
        decreases items.len() - i,
    {
        r.push(items[i].to_owned());
        i = i + 1;
    }
    r
}

/// The arguments of `go build` for a library-shaped module.
pub fn module_build_args(dir: &str, out: &str) -> (r: Vec<String>)
    ensures
        views(r@) == module_args(dir@, out@),
{
    let r = strs(vec!["build", "-C", dir, "-buildmode=c-shared", "-ldflags=-checklinkname=0", "-o", out]);
    assert(views(r@) =~= module_args(dir@, out@));
    r
}

/// The arguments of `go test -c` for a test module.
pub fn test_build_args(out: &str, package: &str) -> (r: Vec<String>)
    ensures
        views(r@) == test_args(out@, package@),
{
    let r = strs(vec!["test", "-c", "-ldflags=-checklinkname=0", "-o", out, package]);
    assert(views(r@) =~= test_args(out@, package@));
    r
}

fn compile_step(job: &BuildJob) -> (r: (BuildStage, BuildAction))
    ensures
        is_compile_step(*job, r),
{
    match job.target {
        BuildTarget::Module => {
            if let Some(d) = &job.module_dir {
                if !job.module_dir_is_dir {
                    return (BuildStage::Done, BuildAction::Finish(Err(BuildError::ModuleNotDirectory(d.clone()))));
                }
            }
            if job.only_wasip1 {
                return (BuildStage::Done, BuildAction::Finish(Err(BuildError::Unsupported)));
            }
            let args = match &job.module_dir {
                Some(d) => module_build_args(d.as_str(), job.out_path.as_str()),
                None => module_build_args(".", job.out_path.as_str()),
            };
            (BuildStage::AwaitCompiler, BuildAction::RunCompiler(args))
        },
        BuildTarget::TestModule => {
            if !job.only_wasip1 {
                return (BuildStage::Done, BuildAction::Finish(Err(BuildError::Unsupported)));
            }
            let args = test_build_args(job.out_path.as_str(), job.package.as_str());
            (BuildStage::AwaitCompiler, BuildAction::RunCompiler(args))
        },
    }
}

fn step_after_removal(job: &BuildJob) -> (r: (BuildStage, BuildAction))
    ensures
        is_step_after_removal(*job, r),
{
    match (&job.target, &job.out_dir) {
        (BuildTarget::TestModule, Some(d)) => (BuildStage::AwaitDir, BuildAction::CreateDir(d.clone())),
        _ => compile_step(job),
    }
}

fn step_after_version(job: &BuildJob) -> (r: (BuildStage, BuildAction))
    ensures
        is_step_after_version(*job, r),
{
    if job.out_exists {
        (BuildStage::AwaitRemoval, BuildAction::RemoveOutput(job.out_path.clone()))
    } else {
        step_after_removal(job)
    }
}

/// The next stage and action of a build, given the event that ended the
/// previous action.
pub fn build_step(job: &BuildJob, stage: BuildStage, event: BuildEvent) -> (r: (BuildStage, BuildAction))
    ensures
        is_build_step(*job, stage, event, r),
{
    match (stage, event) {
        (BuildStage::Start, BuildEvent::Begin) => (BuildStage::AwaitVersion, BuildAction::ProbeVersion),
        (BuildStage::AwaitVersion, BuildEvent::VersionReported { succeeded, report, error_output }) => {
            match check_go_version(succeeded, report.as_str(), error_output.as_str()) {
                Ok(_) => step_after_version(job),
                Err(e) => (BuildStage::Done, BuildAction::Finish(Err(BuildError::Version(e)))),
            }
        },
        (BuildStage::AwaitRemoval, BuildEvent::OutputRemoved) => step_after_removal(job),
        (BuildStage::AwaitDir, BuildEvent::DirCreated) => compile_step(job),
        (BuildStage::AwaitCompiler, BuildEvent::CompilerExited { succeeded, error_output }) => {
            if succeeded {
                (BuildStage::Done, BuildAction::Finish(Ok(job.out_path.clone())))
            } else {
                (BuildStage::Done, BuildAction::Finish(Err(BuildError::CompilerFailed(error_output))))
            }
        },
        _ => (BuildStage::Done, BuildAction::Finish(Err(BuildError::UnexpectedEvent))),
    }
}

} // verus!
