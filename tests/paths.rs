use venv_develop::artifacts::find_artifact;
use venv_develop::error::{EnvironmentProblem, InstallError};
use venv_develop::interpreter::{accept_interpreter, ResolvedInterpreter};
use venv_develop::target::{Os, Target};

fn on(os: Os) -> Target {
    Target { os, is_64_bit: true }
}

#[test]
fn venv_dirs_per_platform() {
    assert_eq!(on(Os::Linux).venv_bin_dir("/tmp/v"), "/tmp/v/bin");
    assert_eq!(on(Os::Macos).venv_python("/tmp/v"), "/tmp/v/bin/python");
    assert_eq!(on(Os::FreeBsd).venv_python("/tmp/v/"), "/tmp/v/bin/python");
    assert_eq!(on(Os::Windows).venv_bin_dir("C:\\v"), "C:\\v\\Scripts");
    assert_eq!(on(Os::Windows).venv_python("C:\\v\\"), "C:\\v\\Scripts\\python.exe");
}

#[test]
fn join_adds_one_separator() {
    let linux = on(Os::Linux);
    assert_eq!(linux.join("/a", "b"), "/a/b");
    assert_eq!(linux.join("/a/", "b"), "/a/b");
    assert_eq!(linux.join("", "b"), "b");
    assert_eq!(on(Os::Windows).join("C:/a/", "b"), "C:/a/b");
    assert_eq!(on(Os::Windows).join("C:\\a", "b"), "C:\\a\\b");
}

#[test]
fn file_name_is_the_last_component() {
    let linux = on(Os::Linux);
    assert_eq!(linux.file_name("/p/target/debug/hello"), Some("hello".to_string()));
    assert_eq!(linux.file_name("hello"), Some("hello".to_string()));
    assert_eq!(linux.file_name("/p/target/"), None);
    assert_eq!(linux.file_name(""), None);
    assert_eq!(linux.file_name("dir\\hello.exe"), Some("dir\\hello.exe".to_string()));
    assert_eq!(on(Os::Windows).file_name("dir\\hello.exe"), Some("hello.exe".to_string()));
    assert_eq!(on(Os::Windows).file_name("C:/p\\x/tool.exe"), Some("tool.exe".to_string()));
}

#[test]
fn find_artifact_takes_the_first_of_its_kind() {
    let artifacts = vec![
        ("cdylib".to_string(), "/p/libx.so".to_string()),
        ("bin".to_string(), "/p/x".to_string()),
        ("bin".to_string(), "/p/y".to_string()),
    ];
    assert_eq!(find_artifact(&artifacts, &"bin".to_string()), Some("/p/x".to_string()));
    assert_eq!(find_artifact(&artifacts, &"cdylib".to_string()), Some("/p/libx.so".to_string()));
    assert_eq!(find_artifact(&artifacts, &"staticlib".to_string()), None);
    assert_eq!(find_artifact(&vec![], &"bin".to_string()), None);
}

#[test]
fn interpreter_must_be_the_venv_one() {
    let python = "/v/bin/python".to_string();
    let found = ResolvedInterpreter { executable: python.clone(), abi_tag: "cp38".to_string() };
    assert_eq!(accept_interpreter(&python, Ok(Some(found.clone()))), Ok(found));
    let other = ResolvedInterpreter { executable: "/usr/bin/python".to_string(), abi_tag: "cp38".to_string() };
    assert_eq!(
        accept_interpreter(&python, Ok(Some(other))),
        Err(InstallError::InvalidEnvironment {
            path: python.clone(),
            problem: EnvironmentProblem::ForeignInterpreter { executable: "/usr/bin/python".to_string() },
        })
    );
    assert_eq!(
        accept_interpreter(&python, Ok(None)),
        Err(InstallError::InvalidEnvironment { path: python.clone(), problem: EnvironmentProblem::NotAnInterpreter })
    );
}
