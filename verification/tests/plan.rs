use shell_exec::cmd::{plan, Probe};
use shell_exec::error::{DirectoryFault, ExecutionError};
use shell_exec::shell::{Invocation, Shell};
use std::path::Path;

fn probe(command_found: bool, dir_exists: bool, dir_is_directory: bool) -> Probe {
    Probe { command_found, dir_exists, dir_is_directory }
}

#[test]
fn plan_admits_a_command_that_passes_every_gate() {
    let result = plan("echo hello", Path::new("/tmp"), Shell::Posix, probe(true, true, true));
    assert_eq!(
        result.unwrap(),
        Invocation {
            program: "sh",
            flag: "-c",
            command: "echo hello",
            working_dir: Path::new("/tmp"),
        }
    );
}

#[test]
fn plan_uses_the_windows_interpreter_where_asked() {
    let result = plan("dir /B", Path::new("C:\\Users"), Shell::Windows, probe(true, true, true));
    assert_eq!(
        result.unwrap(),
        Invocation {
            program: "cmd",
            flag: "/C",
            command: "dir /B",
            working_dir: Path::new("C:\\Users"),
        }
    );
}

#[test]
fn plan_refuses_a_command_that_was_not_found() {
    for dir_exists in [false, true] {
        for dir_is_directory in [false, true] {
            let result = plan(
                "nothing here",
                Path::new("/tmp"),
                Shell::Posix,
                probe(false, dir_exists, dir_is_directory),
            );
            match result {
                Err(ExecutionError::CommandNotFound { command }) => {
                    assert_eq!(command, "nothing here");
                }
                other => panic!("expected CommandNotFound, got {:?}", other),
            }
        }
    }
}

#[test]
fn plan_refuses_a_missing_directory() {
    for dir_is_directory in [false, true] {
        let result =
            plan("ls", Path::new("/nowhere"), Shell::Posix, probe(true, false, dir_is_directory));
        assert!(matches!(
            result,
            Err(ExecutionError::InvalidWorkingDirectory { fault: DirectoryFault::Missing })
        ));
    }
}

#[test]
fn plan_refuses_a_path_that_is_no_directory() {
    let result = plan("ls", Path::new("/etc/passwd"), Shell::Posix, probe(true, true, false));
    assert!(matches!(
        result,
        Err(ExecutionError::InvalidWorkingDirectory { fault: DirectoryFault::NotADirectory })
    ));
}

#[test]
fn plan_does_not_escape_the_command() {
    let command = "echo \"a b\" | grep 'a' > out.txt; echo $HOME && true";
    let invocation = plan(command, Path::new("."), Shell::Posix, probe(true, true, true)).unwrap();
    assert_eq!(invocation.command, command);
}

#[test]
fn shell_of_a_host() {
    assert_eq!(Shell::for_host(true), Shell::Windows);
    assert_eq!(Shell::for_host(false), Shell::Posix);
}

#[test]
fn shell_programs_and_flags() {
    assert_eq!(Shell::Posix.program(), "sh");
    assert_eq!(Shell::Posix.flag(), "-c");
    assert_eq!(Shell::Windows.program(), "cmd");
    assert_eq!(Shell::Windows.flag(), "/C");
}

#[test]
fn shell_invocation_carries_the_command_and_the_directory() {
    let invocation = Shell::Posix.invocation("ls -la", Path::new("/home/user/repo"));
    assert_eq!(invocation.program, "sh");
    assert_eq!(invocation.flag, "-c");
    assert_eq!(invocation.command, "ls -la");
    assert_eq!(invocation.working_dir, Path::new("/home/user/repo"));
}
