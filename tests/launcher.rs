use cli_launcher::launcher::{
    build_script, escape_single_quotes, finish_launch, plan_launch, LaunchError, CREATE_NEW_CONSOLE,
};

#[test]
fn quote_in_path_is_doubled_in_script() {
    let script = build_script("ls", "/tmp/my'project");
    assert_eq!(script, "Set-Location -LiteralPath '/tmp/my''project'; ls");
    assert!(script.contains("/tmp/my''project"));
    assert!(script.ends_with("; ls"));
}

#[test]
fn escape_doubles_every_quote() {
    assert_eq!(escape_single_quotes("a'b''c'"), "a''b''''c''");
    assert_eq!(escape_single_quotes("'"), "''");
}

#[test]
fn escape_leaves_other_characters() {
    assert_eq!(escape_single_quotes("C:\\Users\\me\\$x `y`;z"), "C:\\Users\\me\\$x `y`;z");
    assert_eq!(escape_single_quotes(""), "");
    assert_eq!(escape_single_quotes("目錄'名"), "目錄''名");
}

#[test]
fn empty_tool_only_changes_directory() {
    assert_eq!(build_script("", "D:\\work"), "Set-Location -LiteralPath 'D:\\work'; ");
}

#[test]
fn tool_is_passed_verbatim() {
    assert_eq!(
        build_script("npm run dev -- --port 3000", "/srv/app"),
        "Set-Location -LiteralPath '/srv/app'; npm run dev -- --port 3000"
    );
}

#[test]
fn missing_path_gives_path_not_found() {
    match plan_launch("ls", "/no/such/dir", false) {
        Err(LaunchError::PathNotFound { path }) => assert_eq!(path, "/no/such/dir"),
        _ => panic!("expected a path-not-found failure"),
    }
}

#[test]
fn path_not_found_message_names_the_path() {
    let e = plan_launch("ls", "/no/such/dir", false).err().unwrap();
    assert_eq!(e.message(), "路徑不存在: /no/such/dir");
}

#[test]
fn existing_path_plans_new_console_shell() {
    let plan = plan_launch("ls", "/tmp/my'project", true).ok().unwrap();
    assert_eq!(plan.program, "pwsh");
    assert_eq!(
        plan.args,
        vec![
            "-NoExit".to_string(),
            "-Command".to_string(),
            "Set-Location -LiteralPath '/tmp/my''project'; ls".to_string(),
        ]
    );
    assert_eq!(plan.creation_flags, CREATE_NEW_CONSOLE);
    assert_eq!(CREATE_NEW_CONSOLE, 0x10);
}

#[test]
fn failing_tool_still_plans_and_succeeds_once_spawned() {
    assert!(plan_launch("exit 1", "/tmp", true).is_ok());
    assert!(finish_launch(Ok(())).is_ok());
}

#[test]
fn spawn_failure_gives_spawn_failed() {
    match finish_launch(Err("program not found".to_string())) {
        Err(e) => {
            assert_eq!(e.message(), "Failed to launch pwsh: program not found");
            match e {
                LaunchError::SpawnFailed { reason } => assert_eq!(reason, "program not found"),
                _ => panic!("expected a spawn failure"),
            }
        }
        Ok(()) => panic!("expected a failure"),
    }
}
