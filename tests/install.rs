use venv_develop::config::{BridgeModel, BuildContext, BuildOptions};
use venv_develop::develop::{Action, Develop, Event, Stage};
use venv_develop::error::{EnvironmentProblem, InstallError};
use venv_develop::interpreter::ResolvedInterpreter;
use venv_develop::target::{Os, Target};

fn linux() -> Target {
    Target { os: Os::Linux, is_64_bit: true }
}

fn windows() -> Target {
    Target { os: Os::Windows, is_64_bit: true }
}

fn s(text: &str) -> String {
    text.to_string()
}

fn interpreter(executable: &str) -> ResolvedInterpreter {
    ResolvedInterpreter { executable: s(executable), abi_tag: s("cpython-37m-x86_64-linux-gnu") }
}

fn context(bridge: BridgeModel, module_name: &str) -> BuildContext {
    BuildContext { bridge, module_name: s(module_name) }
}

fn start(target: Target, venv_dir: &str) -> (Develop, Action) {
    Develop::start(
        target,
        s(venv_dir),
        None,
        s("/src/project/Cargo.toml"),
        vec![s("--features"), s("fast")],
        vec![s("-Ctarget-cpu=native")],
        false,
    )
}

/// Feeds `event` to the install, checking first that it waits for it.
fn feed(machine: Develop, event: Event) -> (Develop, Action) {
    assert!(machine.awaits(&event));
    machine.step(event)
}

/// Drives an install up to its compilation, with everything succeeding.
fn up_to_compile(target: Target, venv_dir: &str, python: &str, ctx: BuildContext) -> (Develop, Action) {
    let (m, _) = start(target, venv_dir);
    let (m, _) = feed(m, Event::InterpreterChecked(Ok(Some(interpreter(python)))));
    let (m, _) = feed(m, Event::ContextDerived(Ok(ctx)));
    feed(m, Event::WriterOpened(Ok(())))
}

#[test]
fn starts_by_checking_the_venv_interpreter() {
    let (m, action) = start(linux(), "/tmp/venv1");
    assert_eq!(action, Action::CheckInterpreter { python: s("/tmp/venv1/bin/python") });
    assert!(matches!(m.stage, Stage::Resolving { .. }));
    let (_, action) = start(windows(), "C:\\venv1");
    assert_eq!(action, Action::CheckInterpreter { python: s("C:\\venv1\\Scripts\\python.exe") });
}

#[test]
fn build_options_of_a_develop_install() {
    let (m, _) = start(linux(), "/tmp/venv1");
    let (_, action) = feed(m, Event::InterpreterChecked(Ok(Some(interpreter("/tmp/venv1/bin/python")))));
    let expected = BuildOptions {
        interpreter: vec![s("python")],
        bindings: None,
        manifest_path: s("/src/project/Cargo.toml"),
        out: None,
        debug: true,
        skip_auditwheel: false,
        cargo_extra_args: vec![s("--features"), s("fast")],
        rustc_extra_args: vec![s("-Ctarget-cpu=native")],
    };
    assert_eq!(action, Action::DeriveContext { options: expected });
}

#[test]
fn release_builds_are_not_debug() {
    let options = BuildOptions::for_develop(Some(s("pyo3")), s("Cargo.toml"), vec![], vec![], true);
    assert!(!options.debug);
    assert_eq!(options.bindings, Some(s("pyo3")));
    assert_eq!(options.interpreter, vec![s("python")]);
    assert_eq!(options.out, None);
}

#[test]
fn bin_install_lands_in_venv_bin_dir() {
    let (m, action) = up_to_compile(linux(), "/tmp/venv1", "/tmp/venv1/bin/python", context(BridgeModel::Bin, "hello"));
    assert_eq!(action, Action::CompileBinary);
    let artifacts = vec![(s("bin"), s("/src/project/target/debug/hello"))];
    let (m, action) = feed(m, Event::BinaryCompiled(Ok(artifacts)));
    assert_eq!(
        action,
        Action::CopyBinary { from: s("/src/project/target/debug/hello"), to: s("/tmp/venv1/bin/hello") }
    );
    let (m, action) = feed(m, Event::Installed(Ok(())));
    assert_eq!(action, Action::Finish { outcome: Ok(()) });
    assert_eq!(m.stage, Stage::Done);
}

#[test]
fn bin_install_on_windows_uses_scripts() {
    let (m, _) = up_to_compile(windows(), "C:\\venv1", "C:\\venv1\\Scripts\\python.exe", context(BridgeModel::Bin, "hello"));
    let artifacts = vec![(s("bin"), s("C:\\project\\target\\debug\\hello.exe"))];
    let (_, action) = feed(m, Event::BinaryCompiled(Ok(artifacts)));
    assert_eq!(
        action,
        Action::CopyBinary {
            from: s("C:\\project\\target\\debug\\hello.exe"),
            to: s("C:\\venv1\\Scripts\\hello.exe"),
        }
    );
}

#[test]
fn cffi_install_writes_wrapper_module() {
    let (m, action) = up_to_compile(linux(), "/tmp/venv2", "/tmp/venv2/bin/python", context(BridgeModel::Cffi, "mylib"));
    assert_eq!(action, Action::CompileLibrary { interpreter: None });
    let (m, action) = feed(m, Event::LibraryCompiled(Ok(s("/src/project/target/debug/libmylib.so"))));
    assert_eq!(
        action,
        Action::WriteCffiModule {
            module_name: s("mylib"),
            artifact: s("/src/project/target/debug/libmylib.so"),
            target: linux(),
        }
    );
    let (_, action) = feed(m, Event::Installed(Ok(())));
    assert_eq!(action, Action::Finish { outcome: Ok(()) });
}

#[test]
fn bindings_install_uses_the_venv_interpreter() {
    let bridge = BridgeModel::Bindings { flavor: s("pyo3") };
    let (m, action) = up_to_compile(linux(), "/tmp/venv3", "/tmp/venv3/bin/python", context(bridge, "native"));
    assert_eq!(action, Action::CompileLibrary { interpreter: Some(interpreter("/tmp/venv3/bin/python")) });
    let (m, action) = feed(m, Event::LibraryCompiled(Ok(s("/p/target/debug/libnative.so"))));
    assert_eq!(
        action,
        Action::WriteBindingsModule {
            module_name: s("native"),
            artifact: s("/p/target/debug/libnative.so"),
            interpreter: interpreter("/tmp/venv3/bin/python"),
        }
    );
    let (_, action) = feed(m, Event::Installed(Ok(())));
    assert_eq!(action, Action::Finish { outcome: Ok(()) });
}

#[test]
fn foreign_interpreter_is_rejected_before_compiling() {
    let (m, _) = start(linux(), "/tmp/venv3");
    let (m, action) = feed(m, Event::InterpreterChecked(Ok(Some(interpreter("/usr/bin/python3")))));
    assert_eq!(
        action,
        Action::Finish {
            outcome: Err(InstallError::InvalidEnvironment {
                path: s("/tmp/venv3/bin/python"),
                problem: EnvironmentProblem::ForeignInterpreter { executable: s("/usr/bin/python3") },
            }),
        }
    );
    assert!(!m.awaits(&Event::ContextDerived(Ok(context(BridgeModel::Cffi, "x")))));
}

#[test]
fn missing_interpreter_is_invalid_environment() {
    let (m, _) = start(linux(), "/tmp/empty");
    let (m, action) = feed(m, Event::InterpreterChecked(Ok(None)));
    assert_eq!(
        action,
        Action::Finish {
            outcome: Err(InstallError::InvalidEnvironment {
                path: s("/tmp/empty/bin/python"),
                problem: EnvironmentProblem::NotAnInterpreter,
            }),
        }
    );
    assert_eq!(m.stage, Stage::Done);
    assert!(!m.awaits(&Event::BinaryCompiled(Ok(vec![]))));
    assert!(!m.awaits(&Event::LibraryCompiled(Ok(s("lib.so")))));
}

#[test]
fn failed_interpreter_check_is_invalid_environment() {
    let (m, _) = start(linux(), "/tmp/gone");
    let (_, action) = feed(m, Event::InterpreterChecked(Err(s("No such file or directory"))));
    assert_eq!(
        action,
        Action::Finish {
            outcome: Err(InstallError::InvalidEnvironment {
                path: s("/tmp/gone/bin/python"),
                problem: EnvironmentProblem::CheckFailed { cause: s("No such file or directory") },
            }),
        }
    );
}

#[test]
fn missing_bin_artifact_is_build_incomplete() {
    let (m, _) = up_to_compile(linux(), "/tmp/venv1", "/tmp/venv1/bin/python", context(BridgeModel::Bin, "hello"));
    let artifacts = vec![(s("cdylib"), s("/p/target/debug/libhello.so"))];
    let (m, action) = feed(m, Event::BinaryCompiled(Ok(artifacts)));
    assert_eq!(action, Action::Finish { outcome: Err(InstallError::BuildIncomplete { kind: s("bin") }) });
    assert!(!m.awaits(&Event::Installed(Ok(()))));
}

#[test]
fn bin_artifact_without_file_name_is_build_incomplete() {
    let (m, _) = up_to_compile(linux(), "/tmp/venv1", "/tmp/venv1/bin/python", context(BridgeModel::Bin, "hello"));
    let artifacts = vec![(s("bin"), s("/p/target/debug/"))];
    let (_, action) = feed(m, Event::BinaryCompiled(Ok(artifacts)));
    assert_eq!(action, Action::Finish { outcome: Err(InstallError::BuildIncomplete { kind: s("bin") }) });
}

#[test]
fn first_bin_artifact_is_installed() {
    let (m, _) = up_to_compile(linux(), "/v", "/v/bin/python", context(BridgeModel::Bin, "tool"));
    let artifacts = vec![
        (s("rlib"), s("/p/libtool.rlib")),
        (s("bin"), s("/p/tool")),
        (s("bin"), s("/p/other")),
    ];
    let (_, action) = feed(m, Event::BinaryCompiled(Ok(artifacts)));
    assert_eq!(action, Action::CopyBinary { from: s("/p/tool"), to: s("/v/bin/tool") });
}

#[test]
fn context_failure_is_invalid_configuration() {
    let (m, _) = start(linux(), "/tmp/venv1");
    let (m, _) = feed(m, Event::InterpreterChecked(Ok(Some(interpreter("/tmp/venv1/bin/python")))));
    let (_, action) = feed(m, Event::ContextDerived(Err(s("no cdylib target"))));
    assert_eq!(
        action,
        Action::Finish { outcome: Err(InstallError::InvalidConfiguration { cause: s("no cdylib target") }) }
    );
}

#[test]
fn writer_failure_is_invalid_environment() {
    let (m, _) = start(linux(), "/tmp/venv1");
    let (m, _) = feed(m, Event::InterpreterChecked(Ok(Some(interpreter("/tmp/venv1/bin/python")))));
    let (m, action) = feed(m, Event::ContextDerived(Ok(context(BridgeModel::Cffi, "mylib"))));
    assert_eq!(action, Action::OpenWriter { target: linux(), venv_dir: s("/tmp/venv1") });
    let (_, action) = feed(m, Event::WriterOpened(Err(s("no site-packages"))));
    assert_eq!(
        action,
        Action::Finish {
            outcome: Err(InstallError::InvalidEnvironment {
                path: s("/tmp/venv1"),
                problem: EnvironmentProblem::BadLayout { cause: s("no site-packages") },
            }),
        }
    );
}

#[test]
fn compile_failure_is_toolchain_failure() {
    let (m, _) = up_to_compile(linux(), "/v", "/v/bin/python", context(BridgeModel::Bin, "tool"));
    let (_, action) = feed(m, Event::BinaryCompiled(Err(s("error[E0425]"))));
    assert_eq!(action, Action::Finish { outcome: Err(InstallError::ToolchainFailure { cause: s("error[E0425]") }) });
    let (m, _) = up_to_compile(linux(), "/v", "/v/bin/python", context(BridgeModel::Cffi, "lib"));
    let (_, action) = feed(m, Event::LibraryCompiled(Err(s("linker failed"))));
    assert_eq!(action, Action::Finish { outcome: Err(InstallError::ToolchainFailure { cause: s("linker failed") }) });
}

#[test]
fn copy_failure_is_installation_failed() {
    let (m, _) = up_to_compile(linux(), "/v", "/v/bin/python", context(BridgeModel::Bin, "tool"));
    let (m, _) = feed(m, Event::BinaryCompiled(Ok(vec![(s("bin"), s("/p/tool"))])));
    let (_, action) = feed(m, Event::Installed(Err(s("Permission denied"))));
    assert_eq!(
        action,
        Action::Finish {
            outcome: Err(InstallError::InstallationFailed {
                destination: s("/v/bin/tool"),
                cause: s("Permission denied"),
            }),
        }
    );
}

#[test]
fn module_write_failure_names_the_module() {
    let (m, _) = up_to_compile(linux(), "/v", "/v/bin/python", context(BridgeModel::Cffi, "mylib"));
    let (m, _) = feed(m, Event::LibraryCompiled(Ok(s("/p/libmylib.so"))));
    let (_, action) = feed(m, Event::Installed(Err(s("disk full"))));
    assert_eq!(
        action,
        Action::Finish {
            outcome: Err(InstallError::InstallationFailed { destination: s("mylib"), cause: s("disk full") }),
        }
    );
}

#[test]
fn events_out_of_turn_are_not_awaited() {
    let (m, _) = start(linux(), "/v");
    assert!(!m.awaits(&Event::WriterOpened(Ok(()))));
    let (m, _) = up_to_compile(linux(), "/v", "/v/bin/python", context(BridgeModel::Bin, "tool"));
    assert!(!m.awaits(&Event::LibraryCompiled(Ok(s("/p/lib.so")))));
    assert!(m.awaits(&Event::BinaryCompiled(Ok(vec![]))));
    let (m, _) = up_to_compile(linux(), "/v", "/v/bin/python", context(BridgeModel::Cffi, "lib"));
    assert!(!m.awaits(&Event::BinaryCompiled(Ok(vec![]))));
}

#[test]
fn repeated_install_asks_for_the_same_actions() {
    let run = |artifact: &str| {
        let mut actions = Vec::new();
        let (m, a) = start(linux(), "/tmp/venv1");
        actions.push(a);
        let (m, a) = feed(m, Event::InterpreterChecked(Ok(Some(interpreter("/tmp/venv1/bin/python")))));
        actions.push(a);
        let (m, a) = feed(m, Event::ContextDerived(Ok(context(BridgeModel::Bin, "hello"))));
        actions.push(a);
        let (m, a) = feed(m, Event::WriterOpened(Ok(())));
        actions.push(a);
        let (m, a) = feed(m, Event::BinaryCompiled(Ok(vec![(s("bin"), s(artifact))])));
        actions.push(a);
        let (_, a) = feed(m, Event::Installed(Ok(())));
        actions.push(a);
        actions
    };
    let first = run("/p/target/debug/hello");
    let second = run("/p/target/debug/hello");
    assert_eq!(first, second);
    let rebuilt = run("/elsewhere/hello");
    assert!(matches!(&rebuilt[4], Action::CopyBinary { to, .. } if to == "/tmp/venv1/bin/hello"));
}
