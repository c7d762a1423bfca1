use libfoo::driver::{Build, BuildAction, BuildDriver, BuildError, BuildEvent, Phase, ToolOutcome};

fn path(parts: &[&str]) -> Vec<String> {
    parts.iter().map(|s| s.to_string()).collect()
}

fn full_build() -> Build {
    Build {
        out_dir: Some(path(&["/", "out"])),
        host: Some("x86_64-unknown-linux-gnu".to_string()),
        target: Some("aarch64-unknown-linux-gnu".to_string()),
        source_dir: path(&["/", "proj", "libfoo"]),
        publish_dir: path(&["/", "proj"]),
    }
}

fn lib_build_dir() -> Vec<String> {
    path(&["/", "out", "build", "libfoo", "build"])
}

/// Drives a build through every step up to, not including, the cmake run.
fn up_to_cmake(cc_env: &str) -> BuildDriver {
    let (mut d, _) = BuildDriver::start(full_build());
    for _ in 0..3 {
        d.step(BuildEvent::Done);
    }
    d.step(BuildEvent::CompilerFound { cc_env: cc_env.to_string(), path: "/usr/bin/cc".to_string() });
    d.step(BuildEvent::Done);
    d.step(BuildEvent::Done);
    assert_eq!(d.phase, Phase::RunCmake);
    d
}

#[test]
fn successful_build_runs_every_step_in_order() {
    let (mut d, a) = BuildDriver::start(full_build());
    assert_eq!(a, BuildAction::RemoveDirIfExists { path: path(&["/", "out", "build"]) });
    assert_eq!(
        d.step(BuildEvent::Done),
        BuildAction::CreateDirAll { path: path(&["/", "out", "build", "libfoo"]) }
    );
    assert_eq!(
        d.step(BuildEvent::Done),
        BuildAction::CopyTree {
            from: path(&["/", "proj", "libfoo"]),
            to: path(&["/", "out", "build", "libfoo"]),
        }
    );
    assert_eq!(
        d.step(BuildEvent::Done),
        BuildAction::DiscoverCompiler {
            target: "aarch64-unknown-linux-gnu".to_string(),
            host: "x86_64-unknown-linux-gnu".to_string(),
        }
    );
    assert_eq!(
        d.step(BuildEvent::CompilerFound {
            cc_env: "aarch64-linux-gnu-gcc".to_string(),
            path: "/usr/bin/aarch64-linux-gnu-gcc".to_string(),
        }),
        BuildAction::RemoveDirIfExists { path: lib_build_dir() }
    );
    assert_eq!(d.step(BuildEvent::Done), BuildAction::CreateDirAll { path: lib_build_dir() });
    assert_eq!(
        d.step(BuildEvent::Done),
        BuildAction::RunTool {
            program: "cmake".to_string(),
            args: path(&[".."]),
            cwd: lib_build_dir(),
            env: vec![("CC".to_string(), "aarch64-linux-gnu-gcc".to_string())],
        }
    );
    assert_eq!(
        d.step(BuildEvent::ToolFinished { outcome: ToolOutcome::Succeeded }),
        BuildAction::RunTool { program: "make".to_string(), args: vec![], cwd: lib_build_dir(), env: vec![] }
    );
    assert_eq!(
        d.step(BuildEvent::ToolFinished { outcome: ToolOutcome::Succeeded }),
        BuildAction::CopyFile {
            from: path(&["/", "out", "build", "libfoo", "build", "lib", "libfoo.so"]),
            to: path(&["/", "proj", "libfoo.so"]),
        }
    );
    assert_eq!(
        d.step(BuildEvent::Done),
        BuildAction::Finish { lib_dir: path(&["/", "out", "build", "libfoo", "build", "lib"]) }
    );
    assert_eq!(d.phase, Phase::Finished);
    assert_eq!(d.step(BuildEvent::Done), BuildAction::Halt);
}

#[test]
fn empty_cc_env_falls_back_to_compiler_path() {
    let mut d = up_to_cmake("");
    assert_eq!(d.cc, "/usr/bin/cc");
    match d.step(BuildEvent::Failed { reason: "x".to_string() }) {
        BuildAction::Abort { error } => assert_eq!(error, BuildError::UnexpectedEvent),
        other => panic!("unexpected {:?}", other),
    }
}

#[test]
fn missing_target_fails_before_any_step() {
    let mut b = full_build();
    b.target = None;
    b.host = None;
    let (mut d, a) = BuildDriver::start(b);
    assert_eq!(a, BuildAction::Abort { error: BuildError::MissingEnv { name: "TARGET".to_string() } });
    assert_eq!(d.phase, Phase::Failed);
    assert_eq!(d.step(BuildEvent::Done), BuildAction::Halt);
    assert_eq!(d.step(BuildEvent::ToolFinished { outcome: ToolOutcome::Succeeded }), BuildAction::Halt);
    assert_eq!(d.phase, Phase::Failed);
}

#[test]
fn missing_host_fails_before_any_step() {
    let mut b = full_build();
    b.host = None;
    let (_, a) = BuildDriver::start(b);
    assert_eq!(a, BuildAction::Abort { error: BuildError::MissingEnv { name: "HOST".to_string() } });
}

#[test]
fn missing_out_dir_fails_before_any_step() {
    let mut b = full_build();
    b.out_dir = None;
    let (d, a) = BuildDriver::start(b);
    assert_eq!(a, BuildAction::Abort { error: BuildError::MissingEnv { name: "OUT_DIR".to_string() } });
    assert_eq!(d.phase, Phase::Failed);
}

#[test]
fn missing_tool_names_it_and_produces_nothing() {
    let mut d = up_to_cmake("cc");
    let a = d.step(BuildEvent::ToolFinished { outcome: ToolOutcome::NotFound });
    assert_eq!(a, BuildAction::Abort { error: BuildError::ToolNotInstalled { tool: "cmake".to_string() } });
    assert_eq!(d.phase, Phase::Failed);
    assert_eq!(d.step(BuildEvent::ToolFinished { outcome: ToolOutcome::Succeeded }), BuildAction::Halt);
    assert_eq!(d.step(BuildEvent::Done), BuildAction::Halt);
    assert_eq!(d.phase, Phase::Failed);
}

#[test]
fn failing_make_reports_exit_status() {
    let mut d = up_to_cmake("cc");
    d.step(BuildEvent::ToolFinished { outcome: ToolOutcome::Succeeded });
    let a = d.step(BuildEvent::ToolFinished { outcome: ToolOutcome::Exited { code: Some(2) } });
    assert_eq!(a, BuildAction::Abort { error: BuildError::ToolFailed { tool: "make".to_string(), code: Some(2) } });
}

#[test]
fn unspawnable_tool_keeps_os_reason() {
    let mut d = up_to_cmake("cc");
    let a = d.step(BuildEvent::ToolFinished {
        outcome: ToolOutcome::Unspawnable { reason: "permission denied".to_string() },
    });
    assert_eq!(
        a,
        BuildAction::Abort {
            error: BuildError::ToolUnspawnable {
                tool: "cmake".to_string(),
                reason: "permission denied".to_string(),
            },
        }
    );
}

#[test]
fn filesystem_failure_names_path() {
    let (mut d, _) = BuildDriver::start(full_build());
    d.step(BuildEvent::Done);
    let a = d.step(BuildEvent::Failed { reason: "read-only".to_string() });
    assert_eq!(
        a,
        BuildAction::Abort {
            error: BuildError::Filesystem {
                path: path(&["/", "out", "build", "libfoo"]),
                reason: "read-only".to_string(),
            },
        }
    );
}

#[test]
fn publish_failure_names_destination() {
    let mut d = up_to_cmake("cc");
    d.step(BuildEvent::ToolFinished { outcome: ToolOutcome::Succeeded });
    d.step(BuildEvent::ToolFinished { outcome: ToolOutcome::Succeeded });
    assert_eq!(d.phase, Phase::Publish);
    let a = d.step(BuildEvent::Failed { reason: "no such file".to_string() });
    assert_eq!(
        a,
        BuildAction::Abort {
            error: BuildError::Filesystem {
                path: path(&["/", "proj", "libfoo.so"]),
                reason: "no such file".to_string(),
            },
        }
    );
}

#[test]
fn compiler_discovery_failure_is_reported() {
    let (mut d, _) = BuildDriver::start(full_build());
    for _ in 0..3 {
        d.step(BuildEvent::Done);
    }
    assert_eq!(d.phase, Phase::DiscoverCompiler);
    let a = d.step(BuildEvent::Failed { reason: "no compiler".to_string() });
    assert_eq!(a, BuildAction::Abort { error: BuildError::CompilerDiscovery { reason: "no compiler".to_string() } });
}

#[test]
fn failed_clear_never_copies() {
    let (mut d, _) = BuildDriver::start(full_build());
    let a = d.step(BuildEvent::Failed { reason: "busy".to_string() });
    assert_eq!(
        a,
        BuildAction::Abort {
            error: BuildError::Filesystem { path: path(&["/", "out", "build"]), reason: "busy".to_string() },
        }
    );
    for _ in 0..3 {
        assert_eq!(d.step(BuildEvent::Done), BuildAction::Halt);
    }
    assert_eq!(d.phase, Phase::Failed);
}
