use goldagent::hooks::{
    add_git_hook, add_p4_hook, read_signature, remove_hook, render_command_template, shell_quote,
    signature_command, validate_interval, Hook, HookError, HookSource, PollError,
};
use goldagent::shell::{ShellError, ShellOutput};

fn git_hook(command: &str) -> Hook {
    Hook {
        id: "h1".to_string(),
        name: "my-hook".to_string(),
        source: HookSource::Git,
        target: "/tmp/repo".to_string(),
        reference: Some("main".to_string()),
        interval_secs: 30,
        command: command.to_string(),
        enabled: true,
        retry_max: 1,
        created_at: "2025-01-01T00:00:00Z".to_string(),
        rules_file: None,
        report_file: None,
    }
}

fn output(stdout: &str) -> Result<ShellOutput, ShellError> {
    Ok(ShellOutput { exit_code: 0, stdout: stdout.to_string(), stderr: String::new() })
}

#[test]
fn renders_hook_placeholders() {
    let hook = Hook {
        id: "h1".to_string(),
        name: "my-hook".to_string(),
        source: HookSource::Git,
        target: "/tmp/repo".to_string(),
        reference: Some("main".to_string()),
        interval_secs: 30,
        command: "echo ${HOOK_SOURCE} ${HOOK_PREVIOUS} -> ${HOOK_CURRENT}".to_string(),
        enabled: true,
        retry_max: 1,
        created_at: "2025-01-01T00:00:00Z".to_string(),
        rules_file: None,
        report_file: None,
    };
    let out = render_command_template(&hook, "a", "b");
    assert_eq!(out, "echo git a -> b");
}

#[test]
fn renders_every_placeholder_everywhere() {
    let hook = git_hook("${HOOK_ID}|${HOOK_NAME}|${HOOK_TARGET}|${HOOK_REF}|${HOOK_ID}");
    assert_eq!(render_command_template(&hook, "p", "c"), "h1|my-hook|/tmp/repo|main|h1");
    let mut headless = git_hook("ref=${HOOK_REF}");
    headless.reference = None;
    assert_eq!(render_command_template(&headless, "p", "c"), "ref=HEAD");
}

#[test]
fn leaves_unknown_placeholders_untouched() {
    let hook = git_hook("echo ${HOOK_OTHER} ${hook_id} $HOOK_ID ${HOOK_ID");
    assert_eq!(
        render_command_template(&hook, "a", "b"),
        "echo ${HOOK_OTHER} ${hook_id} $HOOK_ID ${HOOK_ID"
    );
}

#[test]
fn substitutes_values_without_escaping() {
    let hook = git_hook("run ${HOOK_PREVIOUS}");
    assert_eq!(render_command_template(&hook, "a b; 'c'", "x"), "run a b; 'c'");
    let chained = git_hook("${HOOK_PREVIOUS}");
    assert_eq!(render_command_template(&chained, "${HOOK_CURRENT}", "z"), "z");
}

#[test]
fn source_names() {
    assert_eq!(HookSource::Git.as_str(), "git");
    assert_eq!(HookSource::P4.as_str(), "p4");
}

#[test]
fn interval_must_be_positive() {
    assert_eq!(validate_interval(0), Err(HookError::ZeroInterval));
    assert_eq!(validate_interval(1), Ok(()));
    assert_eq!(validate_interval(u64::MAX), Ok(()));
    assert_eq!(HookError::ZeroInterval.message(), "Invalid interval `0`. Expected >= 1 second.");
}

#[test]
fn quotes_for_the_shell() {
    assert_eq!(shell_quote("/tmp/repo"), "'/tmp/repo'");
    assert_eq!(shell_quote("it's"), "'it'\"'\"'s'");
    assert_eq!(shell_quote(""), "''");
}

#[test]
fn builds_signature_commands() {
    let hook = git_hook("x");
    assert_eq!(signature_command(&hook), "git -C '/tmp/repo' rev-parse 'main'");
    let mut headless = git_hook("x");
    headless.reference = None;
    assert_eq!(signature_command(&headless), "git -C '/tmp/repo' rev-parse 'HEAD'");
    let mut depot = git_hook("x");
    depot.source = HookSource::P4;
    depot.target = "//depot/main/...".to_string();
    assert_eq!(signature_command(&depot), "p4 changes -m 1 '//depot/main/...'");
}

#[test]
fn reads_git_signature() {
    let hook = git_hook("x");
    assert_eq!(read_signature(&hook, &output("  abc123\n")).ok(), Some("abc123".to_string()));
    let err = read_signature(&hook, &output(" \n\t")).expect_err("empty output");
    assert!(matches!(err, PollError::EmptyGit { .. }));
    assert_eq!(err.message(), "git rev-parse returned empty output for repo `/tmp/repo`");
}

#[test]
fn reads_p4_signature() {
    let mut hook = git_hook("x");
    hook.source = HookSource::P4;
    hook.target = "//depot/...".to_string();
    let out = output("\n  \r\n Change 42 on 2025/01/01 by me \r\nChange 41\n");
    assert_eq!(
        read_signature(&hook, &out).ok(),
        Some("Change 42 on 2025/01/01 by me".to_string())
    );
    let err = read_signature(&hook, &output("\n \n")).expect_err("empty output");
    assert_eq!(err.message(), "p4 changes returned empty output for depot `//depot/...`");
}

#[test]
fn failed_query_is_a_poll_error() {
    let hook = git_hook("x");
    let failed: Result<ShellOutput, ShellError> = Err(ShellError::Failed {
        exit_code: 128,
        stdout: String::new(),
        stderr: "fatal".to_string(),
    });
    let err = read_signature(&hook, &failed).expect_err("command failed");
    assert_eq!(err.message(), "Command failed with code 128.\nstdout:\n\nstderr:\nfatal");
}

#[test]
fn adds_git_hook_with_all_fields() {
    let mut hooks = vec![git_hook("old")];
    let hook = add_git_hook(
        &mut hooks,
        "/repo".to_string(),
        Some("dev".to_string()),
        5,
        "echo ${HOOK_CURRENT}".to_string(),
        None,
        2,
        Some("hook-rules.txt".to_string()),
        None,
    )
    .expect("interval is good");
    assert_eq!(hooks.len(), 2);
    let stored = &hooks[1];
    assert_eq!(stored.id, hook.id);
    assert_eq!(stored.name, format!("hook-{}", hook.id));
    assert!(matches!(stored.source, HookSource::Git));
    assert_eq!(stored.target, "/repo");
    assert_eq!(stored.reference.as_deref(), Some("dev"));
    assert_eq!(stored.interval_secs, 5);
    assert_eq!(stored.command, "echo ${HOOK_CURRENT}");
    assert!(stored.enabled);
    assert_eq!(stored.retry_max, 2);
    assert_eq!(stored.created_at, hook.created_at);
    assert_eq!(stored.rules_file.as_deref(), Some("hook-rules.txt"));
    assert_eq!(stored.report_file, None);
    assert_eq!(hook.id.len(), 36);
    assert!(!hook.created_at.is_empty());
}

#[test]
fn adds_p4_hook_without_reference() {
    let mut hooks = Vec::new();
    let hook = add_p4_hook(
        &mut hooks,
        "//depot/...".to_string(),
        1,
        "echo".to_string(),
        Some("watch".to_string()),
        0,
        None,
        Some("report.md".to_string()),
    )
    .expect("interval is good");
    assert_eq!(hooks.len(), 1);
    assert!(matches!(hook.source, HookSource::P4));
    assert_eq!(hook.name, "watch");
    assert_eq!(hook.reference, None);
    assert_eq!(hook.report_file.as_deref(), Some("report.md"));
}

#[test]
fn rejects_zero_interval_and_keeps_the_list() {
    let mut hooks = vec![git_hook("old")];
    let r = add_git_hook(
        &mut hooks,
        "/repo".to_string(),
        None,
        0,
        "echo".to_string(),
        None,
        1,
        None,
        None,
    );
    assert!(matches!(r, Err(HookError::ZeroInterval)));
    assert_eq!(hooks.len(), 1);
    let r = add_p4_hook(&mut hooks, "//d".to_string(), 0, "echo".to_string(), None, 1, None, None);
    assert!(r.is_err());
    assert_eq!(hooks.len(), 1);
}

#[test]
fn removes_hook_by_id() {
    let mut a = git_hook("a");
    a.id = "a".to_string();
    let mut b = git_hook("b");
    b.id = "b".to_string();
    let mut hooks = vec![a, b];
    assert!(!remove_hook(&mut hooks, "zzz"));
    assert_eq!(hooks.len(), 2);
    assert!(remove_hook(&mut hooks, "a"));
    assert_eq!(hooks.len(), 1);
    assert_eq!(hooks[0].id, "b");
    assert_eq!(hooks[0].command, "b");
}
