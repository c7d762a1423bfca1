use vstd::prelude::*;
use crate::paths::{join, path_view};

verus! {

/// The build environment as read by the caller; each field is absent when the
/// environment did not provide it.
#[derive(Debug, PartialEq, Eq)]
pub struct Build {
    /// Scratch directory for the native build.
    pub out_dir: Option<Vec<String>>,
    /// Host triple.
    pub host: Option<String>,
    /// Target triple.
    pub target: Option<String>,
    /// The vendored native source tree.
    pub source_dir: Vec<String>,
    /// Directory the produced shared object is published into.
    pub publish_dir: Vec<String>,
}

/// How an external tool invocation ended.
#[derive(Debug, PartialEq, Eq)]
pub enum ToolOutcome {
    /// It ran and exited successfully.
    Succeeded,
    /// It ran and reported failure; `code` is absent when a signal ended it.
    Exited { code: Option<i32> },
    /// No executable of that name was found.
    NotFound,
    /// It could not be started for another reason.
    Unspawnable { reason: String },
}

/// What the caller reports after carrying out the last action.
#[derive(Debug, PartialEq, Eq)]
pub enum BuildEvent {
    /// The filesystem step succeeded.
    Done,
    /// The step failed, for the reason given.
    Failed { reason: String },
    /// The native compiler was discovered; `cc_env` is what the toolchain
    /// names for the `CC` variable (possibly empty), `path` its executable.
    CompilerFound { cc_env: String, path: String },
    /// The external tool has finished.
    ToolFinished { outcome: ToolOutcome },
}

/// Why a build failed.
#[derive(Debug, PartialEq, Eq)]
pub enum BuildError {
    /// A required build environment value is absent.
    MissingEnv { name: String },
    /// A filesystem step failed on `path`.
    Filesystem { path: Vec<String>, reason: String },
    /// No native compiler could be discovered.
    CompilerDiscovery { reason: String },
    /// The external tool is not installed.
    ToolNotInstalled { tool: String },
    /// The external tool ran and reported failure.
    ToolFailed { tool: String, code: Option<i32> },
    /// The external tool could not be started.
    ToolUnspawnable { tool: String, reason: String },
    /// The caller reported an event that does not answer the pending action.
    UnexpectedEvent,
}

/// What the caller is to do next.
#[derive(Debug, PartialEq, Eq)]
pub enum BuildAction {
    /// Remove the directory and everything in it, if it exists.
    RemoveDirIfExists { path: Vec<String> },
    /// Create the directory and its missing parents.
    CreateDirAll { path: Vec<String> },
    /// Mirror the source tree `from` into `to`.
    CopyTree { from: Vec<String>, to: Vec<String> },
    /// Discover the native compiler for the target and host triples.
    DiscoverCompiler { target: String, host: String },
    /// Run `program` with `args` in `cwd`, with `env` added to its environment.
    RunTool { program: String, args: Vec<String>, cwd: Vec<String>, env: Vec<(String, String)> },
    /// Copy the file `from` to `to`, replacing it.
    CopyFile { from: Vec<String>, to: Vec<String> },
    /// The build is complete; the shared object lies in `lib_dir`.
    Finish { lib_dir: Vec<String> },
    /// The build failed and is abandoned.
    Abort { error: BuildError },
    /// Nothing is left to do.
    Halt,
}

/// The steps of a native build, in order; the last two are terminal.
#[derive(Clone, Copy, Debug, PartialEq, Eq, Structural)]
pub enum Phase {
    ClearBuildDir,
    CreateInnerDir,
    CopySources,
    DiscoverCompiler,
    ClearLibBuildDir,
    CreateLibBuildDir,
    RunCmake,
    RunMake,
    Publish,
    Finished,
    Failed,
}

/// The native compiler driver: a validated configuration and the pending step.
#[derive(Debug, PartialEq, Eq)]
pub struct BuildDriver {
    pub target: String,
    pub host: String,
    pub out_dir: Vec<String>,
    pub source_dir: Vec<String>,
    pub publish_dir: Vec<String>,
    /// The compiler handed to the build-system generator as `CC`.
    pub cc: String,
    pub phase: Phase,
}

/// The first required environment value that is absent, if any.
pub open spec fn missing_env(b: Build) -> Option<Seq<char>> {
    if b.target is None {
        Some("TARGET"@)
    } else if b.host is None {
        Some("HOST"@)
    } else if b.out_dir is None {
        Some("OUT_DIR"@)
    } else {
        None
    }
}

/// The phase that `start` leaves a build in: failed when a required value
/// is absent, else at its first step.
pub open spec fn start_phase(b: Build) -> Phase {
    if missing_env(b) is Some {
        Phase::Failed
    } else {
        Phase::ClearBuildDir
    }
}

pub open spec fn build_dir(d: BuildDriver) -> Seq<Seq<char>> {
    path_view(&d.out_dir).push("build"@)
}

pub open spec fn inner_dir(d: BuildDriver) -> Seq<Seq<char>> {
    build_dir(d).push("libfoo"@)
}

pub open spec fn lib_build_dir(d: BuildDriver) -> Seq<Seq<char>> {
    inner_dir(d).push("build"@)
}

/// Where the build system leaves the shared object.
pub open spec fn lib_dir(d: BuildDriver) -> Seq<Seq<char>> {
    lib_build_dir(d).push("lib"@)
}

pub open spec fn shared_object(d: BuildDriver) -> Seq<Seq<char>> {
    lib_dir(d).push("libfoo.so"@)
}

pub open spec fn published_object(d: BuildDriver) -> Seq<Seq<char>> {
    path_view(&d.publish_dir).push("libfoo.so"@)
}

/// The compiler named to downstream tools: the toolchain's `CC` value, or the
/// compiler's own path where that is empty.
pub open spec fn compiler_command(cc_env: Seq<char>, path: Seq<char>) -> Seq<char> {
    if cc_env.len() == 0 {
        path
    } else {
        cc_env
    }
}

pub open spec fn is_terminal(p: Phase) -> bool {
    p == Phase::Finished || p == Phase::Failed
}

/// The step that follows `p` when `p` succeeds.
pub open spec fn successor(p: Phase) -> Phase {
    match p {
        Phase::ClearBuildDir => Phase::CreateInnerDir,
        Phase::CreateInnerDir => Phase::CopySources,
        Phase::CopySources => Phase::DiscoverCompiler,
        Phase::DiscoverCompiler => Phase::ClearLibBuildDir,
        Phase::ClearLibBuildDir => Phase::CreateLibBuildDir,
        Phase::CreateLibBuildDir => Phase::RunCmake,
        Phase::RunCmake => Phase::RunMake,
        Phase::RunMake => Phase::Publish,
        Phase::Publish => Phase::Finished,
        Phase::Finished => Phase::Finished,
        Phase::Failed => Phase::Failed,
    }
}

/// Whether `e` reports the success of step `p`.
pub open spec fn succeeds(p: Phase, e: BuildEvent) -> bool {
    match p {
        Phase::DiscoverCompiler => e is CompilerFound,
        Phase::RunCmake | Phase::RunMake => e matches BuildEvent::ToolFinished { outcome } && outcome is Succeeded,
        Phase::Finished | Phase::Failed => false,
        _ => e is Done,
    }
}

pub open spec fn next_phase(p: Phase, e: BuildEvent) -> Phase {
    if is_terminal(p) {
        p
    } else if succeeds(p, e) {
        successor(p)
    } else {
        Phase::Failed
    }
}

pub open spec fn tool_of(p: Phase) -> Seq<char> {
    if p == Phase::RunCmake {
        "cmake"@
    } else {
        "make"@
    }
}

/// The path that a filesystem step works on.
pub open spec fn step_path(d: BuildDriver) -> Seq<Seq<char>> {
    match d.phase {
        Phase::ClearBuildDir => build_dir(d),
        Phase::CreateInnerDir | Phase::CopySources => inner_dir(d),
        Phase::Publish => published_object(d),
        _ => lib_build_dir(d),
    }
}

/// The error for a tool that ended with `outcome`.
pub open spec fn tool_error_matches(e: BuildError, tool: Seq<char>, outcome: ToolOutcome) -> bool {
    match outcome {
        ToolOutcome::NotFound => e matches BuildError::ToolNotInstalled { tool: t } && t@ == tool,
        ToolOutcome::Exited { code } => e matches BuildError::ToolFailed { tool: t, code: c }
            && t@ == tool && c == code,
        ToolOutcome::Unspawnable { reason } => e matches BuildError::ToolUnspawnable {
            tool: t,
            reason: r,
        } && t@ == tool && r == reason,
        ToolOutcome::Succeeded => false,
    }
}

/// The error with which step `d.phase` fails on event `ev`.
pub open spec fn error_matches(e: BuildError, d: BuildDriver, ev: BuildEvent) -> bool {
    match d.phase {
        Phase::DiscoverCompiler => match ev {
            BuildEvent::Failed { reason } => e matches BuildError::CompilerDiscovery { reason: r } && r == reason,
            _ => e is UnexpectedEvent,
        },
        Phase::RunCmake | Phase::RunMake => match ev {
            BuildEvent::ToolFinished { outcome } => tool_error_matches(e, tool_of(d.phase), outcome),
            _ => e is UnexpectedEvent,
        },
        _ => match ev {
            BuildEvent::Failed { reason } => e matches BuildError::Filesystem { path, reason: r }
                && path_view(&path) == step_path(d) && r == reason,
            _ => e is UnexpectedEvent,
        },
    }
}

/// The action that carries out the pending step of a running driver.
pub open spec fn action_matches(d: BuildDriver, a: BuildAction) -> bool {
    match d.phase {
        Phase::ClearBuildDir => a matches BuildAction::RemoveDirIfExists { path } && path_view(&path) == build_dir(d),
        Phase::CreateInnerDir => a matches BuildAction::CreateDirAll { path } && path_view(&path) == inner_dir(d),
        Phase::CopySources => a matches BuildAction::CopyTree { from, to } && path_view(&from) == path_view(&d.source_dir)
            && path_view(&to) == inner_dir(d),
        Phase::DiscoverCompiler => a matches BuildAction::DiscoverCompiler { target, host } && target@ == d.target@
            && host@ == d.host@,
        Phase::ClearLibBuildDir => a matches BuildAction::RemoveDirIfExists { path } && path_view(&path) == lib_build_dir(d),
        Phase::CreateLibBuildDir => a matches BuildAction::CreateDirAll { path } && path_view(&path) == lib_build_dir(d),
        Phase::RunCmake => a matches BuildAction::RunTool { program, args, cwd, env } && program@ == "cmake"@
            && path_view(&args) == seq![".."@] && path_view(&cwd) == lib_build_dir(d) && env@.len() == 1
            && env@[0].0@ == "CC"@ && env@[0].1@ == d.cc@,
        Phase::RunMake => a matches BuildAction::RunTool { program, args, cwd, env } && program@ == "make"@
            && args@.len() == 0 && path_view(&cwd) == lib_build_dir(d) && env@.len() == 0,
        Phase::Publish => a matches BuildAction::CopyFile { from, to } && path_view(&from) == shared_object(d)
            && path_view(&to) == published_object(d),
        Phase::Finished => a matches BuildAction::Finish { lib_dir: l } && path_view(&l) == lib_dir(d),
        Phase::Failed => a is Halt,
    }
}

/// The configuration of `d` is that of `e`.
pub open spec fn same_config(d: BuildDriver, e: BuildDriver) -> bool {
    &&& d.target@ == e.target@
    &&& d.host@ == e.host@
    &&& path_view(&d.out_dir) == path_view(&e.out_dir)
    &&& path_view(&d.source_dir) == path_view(&e.source_dir)
    &&& path_view(&d.publish_dir) == path_view(&e.publish_dir)
}

fn lit(s: &str) -> (r: String)
    ensures
        r@ == s@,
{
    String::from_str(s)
}

fn copy_path(p: &Vec<String>) -> (r: Vec<String>)
    ensures
        path_view(&r) == path_view(p),
{
    let mut r: Vec<String> = Vec::new();
    let mut i: usize = 0;
    while i < p.len()
        invariant
            i <= p.len(),
            r@.len() == i,
            forall|k: int| 0 <= k < i ==> r@[k]@ == p@[k]@,
        decreases p.len() - i,
    {
        r.push(p[i].clone());
        i = i + 1;
    }
    assert(path_view(&r) =~= path_view(p));
    r
}

impl BuildDriver {
    fn build_dir(&self) -> (r: Vec<String>)
        ensures
            path_view(&r) == build_dir(*self),
    {
        join(&self.out_dir, "build")
    }

    fn inner_dir(&self) -> (r: Vec<String>)
        ensures
            path_view(&r) == inner_dir(*self),
    {
        join(&self.build_dir(), "libfoo")
    }

    fn lib_build_dir(&self) -> (r: Vec<String>)
        ensures
            path_view(&r) == lib_build_dir(*self),
    {
        join(&self.inner_dir(), "build")
    }

    fn lib_dir(&self) -> (r: Vec<String>)
        ensures
            path_view(&r) == lib_dir(*self),
    {
        join(&self.lib_build_dir(), "lib")
    }

    fn published_object(&self) -> (r: Vec<String>)
        ensures
            path_view(&r) == published_object(*self),
    {
        join(&self.publish_dir, "libfoo.so")
    }

    /// The action that carries out the pending step.
    pub fn pending_action(&self) -> (r: BuildAction)
        ensures
            action_matches(*self, r),
    {
        match self.phase {
            Phase::ClearBuildDir => BuildAction::RemoveDirIfExists { path: self.build_dir() },
            Phase::CreateInnerDir => BuildAction::CreateDirAll { path: self.inner_dir() },
            Phase::CopySources => BuildAction::CopyTree {
                from: copy_path(&self.source_dir),
                to: self.inner_dir(),
            },
            Phase::DiscoverCompiler => BuildAction::DiscoverCompiler {
                target: self.target.clone(),
                host: self.host.clone(),
            },
            Phase::ClearLibBuildDir => BuildAction::RemoveDirIfExists { path: self.lib_build_dir() },
            Phase::CreateLibBuildDir => BuildAction::CreateDirAll { path: self.lib_build_dir() },
            Phase::RunCmake => {
                let mut args: Vec<String> = Vec::new();
                args.push(lit(".."));
                let mut env: Vec<(String, String)> = Vec::new();
                env.push((lit("CC"), self.cc.clone()));
                assert(path_view(&args) =~= seq![".."@]);
                BuildAction::RunTool { program: lit("cmake"), args, cwd: self.lib_build_dir(), env }
            },
            Phase::RunMake => BuildAction::RunTool {
                program: lit("make"),
                args: Vec::new(),
                cwd: self.lib_build_dir(),
                env: Vec::new(),
            },
            Phase::Publish => BuildAction::CopyFile {
                from: join(&self.lib_dir(), "libfoo.so"),
                to: self.published_object(),
            },
            Phase::Finished => BuildAction::Finish { lib_dir: self.lib_dir() },
            Phase::Failed => BuildAction::Halt,
        }
    }
}

fn successor_of(p: Phase) -> (r: Phase)
    ensures
        r == successor(p),
{
    match p {
        Phase::ClearBuildDir => Phase::CreateInnerDir,
        Phase::CreateInnerDir => Phase::CopySources,
        Phase::CopySources => Phase::DiscoverCompiler,
        Phase::DiscoverCompiler => Phase::ClearLibBuildDir,
        Phase::ClearLibBuildDir => Phase::CreateLibBuildDir,
        Phase::CreateLibBuildDir => Phase::RunCmake,
        Phase::RunCmake => Phase::RunMake,
        Phase::RunMake => Phase::Publish,
        Phase::Publish => Phase::Finished,
        Phase::Finished => Phase::Finished,
        Phase::Failed => Phase::Failed,
    }
}

impl BuildDriver {
    /// Starts a build from the environment values. When one is absent the
    /// build fails at once, before any step is taken; otherwise the first
    /// step is to clear the scratch build directory.
    pub fn start(build: Build) -> (r: (BuildDriver, BuildAction))
        ensures
            r.0.phase == start_phase(build),
            missing_env(build) is Some ==> r.0.phase == Phase::Failed && (r.1 matches BuildAction::Abort {
                error: BuildError::MissingEnv { name },
            } && name@ == missing_env(build)->0),
            missing_env(build) is None ==> {
                &&& r.0.phase == Phase::ClearBuildDir
                &&& r.0.target@ == build.target->0@
                &&& r.0.host@ == build.host->0@
                &&& path_view(&r.0.out_dir) == path_view(&build.out_dir->0)
                &&& path_view(&r.0.source_dir) == path_view(&build.source_dir)
                &&& path_view(&r.0.publish_dir) == path_view(&build.publish_dir)
                &&& r.0.cc@.len() == 0
                &&& action_matches(r.0, r.1)
            },
    {
        let Build { out_dir, host, target, source_dir, publish_dir } = build;
        let missing = match (&target, &host, &out_dir) {
            (None, _, _) => Some(lit("TARGET")),
            (Some(_), None, _) => Some(lit("HOST")),
            (Some(_), Some(_), None) => Some(lit("OUT_DIR")),
            (Some(_), Some(_), Some(_)) => None,
        };
        match (target, host, out_dir, missing) {
            (Some(target), Some(host), Some(out_dir), None) => {
                let d = BuildDriver {
                    target,
                    host,
                    out_dir,
                    source_dir,
                    publish_dir,
                    cc: String::new(),
                    phase: Phase::ClearBuildDir,
                };
                let a = d.pending_action();
                (d, a)
            },
            (_, _, _, missing) => {
                let d = BuildDriver {
                    target: String::new(),
                    host: String::new(),
                    out_dir: Vec::new(),
                    source_dir,
                    publish_dir,
                    cc: String::new(),
                    phase: Phase::Failed,
                };
                let name = match missing {
                    Some(name) => name,
                    None => String::new(),
                };
                (d, BuildAction::Abort { error: BuildError::MissingEnv { name } })
            },
        }
    }

    fn step_path(&self) -> (r: Vec<String>)
        ensures
            path_view(&r) == step_path(*self),
    {
        match self.phase {
            Phase::ClearBuildDir => self.build_dir(),
            Phase::CreateInnerDir | Phase::CopySources => self.inner_dir(),
            Phase::Publish => self.published_object(),
            _ => self.lib_build_dir(),
        }
    }

    fn fail(&mut self, error: BuildError) -> (r: BuildAction)
        ensures
            final(self).phase == Phase::Failed,
            final(self).cc == old(self).cc,
            same_config(*final(self), *old(self)),
            r == (BuildAction::Abort { error }),
    {
        self.phase = Phase::Failed;
        BuildAction::Abort { error }
    }

    fn advance(&mut self) -> (r: BuildAction)
        ensures
            final(self).phase == successor(old(self).phase),
            final(self).cc == old(self).cc,
            same_config(*final(self), *old(self)),
            action_matches(*final(self), r),
    {
        self.phase = successor_of(self.phase);
        self.pending_action()
    }

    /// Takes the caller's report on the last action and returns the next one.
    /// A step that succeeds leads to the next step; any other report fails
    /// the build, with an error that names the step's path or tool, and
    /// nothing follows a finished or failed build.
    pub fn step(&mut self, event: BuildEvent) -> (r: BuildAction)
        ensures
            final(self).phase == next_phase(old(self).phase, event),
            same_config(*final(self), *old(self)),
            old(self).phase == Phase::DiscoverCompiler && event is CompilerFound
                ==> final(self).cc@ == compiler_command(event->cc_env@, event->path@),
            !(old(self).phase == Phase::DiscoverCompiler && event is CompilerFound)
                ==> final(self).cc@ == old(self).cc@,
            is_terminal(old(self).phase) ==> r is Halt,
            !is_terminal(old(self).phase) && final(self).phase == Phase::Failed
                ==> (r matches BuildAction::Abort { error } && error_matches(error, *old(self), event)),
            !is_terminal(old(self).phase) && final(self).phase != Phase::Failed
                ==> action_matches(*final(self), r),
    {
        let phase = self.phase;
        if phase == Phase::Finished || phase == Phase::Failed {
            return BuildAction::Halt;
        }
        match event {
            BuildEvent::Done => match phase {
                Phase::DiscoverCompiler | Phase::RunCmake | Phase::RunMake => self.fail(
                    BuildError::UnexpectedEvent,
                ),
                _ => self.advance(),
            },
            BuildEvent::Failed { reason } => match phase {
                Phase::DiscoverCompiler => self.fail(BuildError::CompilerDiscovery { reason }),
                Phase::RunCmake | Phase::RunMake => self.fail(BuildError::UnexpectedEvent),
                _ => {
                    let path = self.step_path();
                    self.fail(BuildError::Filesystem { path, reason })
                },
            },
            BuildEvent::CompilerFound { cc_env, path } => {
                if phase == Phase::DiscoverCompiler {
                    self.cc = if cc_env.as_str().is_empty() {
                        path
                    } else {
                        cc_env
                    };
                    self.advance()
                } else {
                    self.fail(BuildError::UnexpectedEvent)
                }
            },
            BuildEvent::ToolFinished { outcome } => {
                if phase == Phase::RunCmake || phase == Phase::RunMake {
                    let tool = if phase == Phase::RunCmake {
                        lit("cmake")
                    } else {
                        lit("make")
                    };
                    match outcome {
                        ToolOutcome::Succeeded => self.advance(),
                        ToolOutcome::Exited { code } => self.fail(BuildError::ToolFailed { tool, code }),
                        ToolOutcome::NotFound => self.fail(BuildError::ToolNotInstalled { tool }),
                        ToolOutcome::Unspawnable { reason } => self.fail(
                            BuildError::ToolUnspawnable { tool, reason },
                        ),
                    }
                } else {
                    self.fail(BuildError::UnexpectedEvent)
                }
            },
        }
    }
}

/// The phases a driver passes through from `p` when the caller reports `evs`
/// one after another.
pub open spec fn run_phases(p: Phase, evs: Seq<BuildEvent>) -> Seq<Phase>
    decreases evs.len(),
{
    if evs.len() == 0 {
        Seq::empty()
    } else {
        let q = next_phase(p, evs[0]);
        seq![q] + run_phases(q, evs.drop_first())
    }
}

/// Steps whose action starts an external process.
pub open spec fn starts_process(p: Phase) -> bool {
    p == Phase::DiscoverCompiler || p == Phase::RunCmake || p == Phase::RunMake
}

/// A failed build stays failed whatever the caller reports afterwards.
pub proof fn failure_is_final(evs: Seq<BuildEvent>)
    ensures
        run_phases(Phase::Failed, evs).len() == evs.len(),
        forall|i: int| 0 <= i < evs.len() ==> #[trigger] run_phases(Phase::Failed, evs)[i] == Phase::Failed,
    decreases evs.len(),
{
    if evs.len() > 0 {
        failure_is_final(evs.drop_first());
        let rest = run_phases(Phase::Failed, evs.drop_first());
        assert forall|i: int| 0 <= i < evs.len() implies #[trigger] run_phases(Phase::Failed, evs)[i]
            == Phase::Failed by {
            if i > 0 {
                assert(run_phases(Phase::Failed, evs)[i] == rest[i - 1]);
            }
        }
    }
}

/// A build whose environment lacks a required value starts no external
/// process: `start` leaves it in a phase that starts none (its one action is
/// the abort), and it never reaches such a phase, whatever the caller
/// reports afterwards.
pub proof fn missing_env_starts_nothing(b: Build, evs: Seq<BuildEvent>)
    requires
        missing_env(b) is Some,
    ensures
        !starts_process(start_phase(b)),
        forall|i: int| 0 <= i < evs.len() ==> !starts_process(#[trigger] run_phases(start_phase(b), evs)[i]),
{
    failure_is_final(evs);
}

/// Once an external tool is reported missing, the build has failed and never
/// finishes, so no artifact is produced, whatever is reported afterwards.
pub proof fn missing_tool_never_finishes(p: Phase, evs: Seq<BuildEvent>)
    requires
        p == Phase::RunCmake || p == Phase::RunMake,
        evs.len() > 0,
        evs[0] matches BuildEvent::ToolFinished { outcome } && outcome is NotFound,
    ensures
        forall|i: int| 0 <= i < evs.len() ==> #[trigger] run_phases(p, evs)[i] == Phase::Failed,
{
    failure_is_final(evs.drop_first());
    let rest = run_phases(Phase::Failed, evs.drop_first());
    assert forall|i: int| 0 <= i < evs.len() implies #[trigger] run_phases(p, evs)[i] == Phase::Failed by {
        if i > 0 {
            assert(run_phases(p, evs)[i] == rest[i - 1]);
        }
    }
}

/// The position of each phase in the order a build passes through them.
pub open spec fn rank(p: Phase) -> nat {
    match p {
        Phase::ClearBuildDir => 0,
        Phase::CreateInnerDir => 1,
        Phase::CopySources => 2,
        Phase::DiscoverCompiler => 3,
        Phase::ClearLibBuildDir => 4,
        Phase::CreateLibBuildDir => 5,
        Phase::RunCmake => 6,
        Phase::RunMake => 7,
        Phase::Publish => 8,
        Phase::Finished => 9,
        Phase::Failed => 10,
    }
}

/// A build never goes back to an earlier step: from a running step every
/// later phase lies strictly further on.
pub proof fn phases_move_forward(p: Phase, evs: Seq<BuildEvent>)
    ensures
        run_phases(p, evs).len() == evs.len(),
        forall|i: int| 0 <= i < evs.len() ==> rank(#[trigger] run_phases(p, evs)[i]) >= rank(p),
        !is_terminal(p) ==> forall|i: int| 0 <= i < evs.len() ==> rank(#[trigger] run_phases(p, evs)[i]) > rank(p),
    decreases evs.len(),
{
    if evs.len() > 0 {
        let q = next_phase(p, evs[0]);
        phases_move_forward(q, evs.drop_first());
        let rest = run_phases(q, evs.drop_first());
        assert forall|i: int| 0 <= i < evs.len() implies #[trigger] run_phases(p, evs)[i] == if i == 0 {
            q
        } else {
            rest[i - 1]
        } by {}
    }
}

/// The sources are copied only into a freshly prepared directory: a build
/// reaches its copy step only as its third step, right after the scratch
/// build directory was removed and the copy's destination, which lies inside
/// it, was created, both reported done.
pub proof fn copy_only_after_clearing(d: BuildDriver, evs: Seq<BuildEvent>)
    ensures
        inner_dir(d) == build_dir(d).push("libfoo"@),
        forall|i: int| 0 <= i < evs.len() && #[trigger] run_phases(Phase::ClearBuildDir, evs)[i]
            == Phase::CopySources ==> i == 1 && evs[0] is Done && evs[1] is Done,
{
    if evs.len() > 0 {
        let q = next_phase(Phase::ClearBuildDir, evs[0]);
        let e1 = evs.drop_first();
        let r1 = run_phases(q, e1);
        failure_is_final(e1);
        phases_move_forward(q, e1);
        assert forall|i: int| 0 <= i < evs.len() && #[trigger] run_phases(Phase::ClearBuildDir, evs)[i]
            == Phase::CopySources implies i == 1 && evs[0] is Done && evs[1] is Done by {
            if i > 0 {
                assert(run_phases(Phase::ClearBuildDir, evs)[i] == r1[i - 1]);
                if i > 1 {
                    let q2 = next_phase(q, e1[0]);
                    let e2 = e1.drop_first();
                    phases_move_forward(q2, e2);
                    failure_is_final(e2);
                    assert(r1[i - 1] == run_phases(q2, e2)[i - 2]);
                }
            }
        }
    }
}

} // verus!
