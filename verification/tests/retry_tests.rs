use goldagent::hooks::{Hook, HookSource};
use goldagent::jobs::Job;
use goldagent::retry::{
    execute_hook_with_retry, execute_with_retry, hook_log_key, job_log_key, retry_verdict,
    Verdict, BACKOFF_SECS,
};
use goldagent::shell::{ShellError, ShellOutput};

fn job(retry_max: u8) -> Job {
    Job {
        id: "j1".to_string(),
        name: "nightly".to_string(),
        schedule: "0 0 13 * * *".to_string(),
        command: "echo hi".to_string(),
        enabled: true,
        retry_max,
        created_at: "2025-01-01T00:00:00Z".to_string(),
    }
}

fn hook(retry_max: u8) -> Hook {
    Hook {
        id: "h1".to_string(),
        name: "my-hook".to_string(),
        source: HookSource::P4,
        target: "//depot/...".to_string(),
        reference: None,
        interval_secs: 30,
        command: "echo ${HOOK_CURRENT}".to_string(),
        enabled: true,
        retry_max,
        created_at: "2025-01-01T00:00:00Z".to_string(),
        rules_file: None,
        report_file: None,
    }
}

fn failure() -> Result<ShellOutput, ShellError> {
    Err(ShellError::Failed { exit_code: 2, stdout: "o".to_string(), stderr: "e".to_string() })
}

fn success() -> Result<ShellOutput, ShellError> {
    Ok(ShellOutput { exit_code: 0, stdout: "out".to_string(), stderr: "err".to_string() })
}

fn run(retry_max: u8, outcomes: &[bool]) -> (usize, u64) {
    let j = job(retry_max);
    let mut attempt: u8 = 0;
    let mut attempts: usize = 0;
    let mut waited: u64 = 0;
    loop {
        let outcome = if outcomes[attempts] { success() } else { failure() };
        attempts += 1;
        match execute_with_retry(&j, attempt, &outcome).verdict {
            Verdict::Done | Verdict::GiveUp => return (attempts, waited),
            Verdict::RetryAfter { wait_secs, next_attempt } => {
                waited += wait_secs;
                attempt = next_attempt;
            }
        }
    }
}

#[test]
fn persistent_failure_makes_retry_max_plus_one_attempts() {
    assert_eq!(run(0, &[false]), (1, 0));
    assert_eq!(run(1, &[false, false]), (2, 3));
    assert_eq!(run(3, &[false, false, false, false]), (4, 9));
    let all_fail = vec![false; 256];
    assert_eq!(run(255, &all_fail), (256, 3 * 255));
}

#[test]
fn first_try_success_makes_one_attempt() {
    assert_eq!(run(0, &[true]), (1, 0));
    assert_eq!(run(5, &[true]), (1, 0));
}

#[test]
fn later_success_stops_the_retries() {
    assert_eq!(run(5, &[false, false, true]), (3, 6));
}

#[test]
fn verdicts() {
    assert_eq!(BACKOFF_SECS, 3);
    assert_eq!(retry_verdict(2, 0, true), Verdict::Done);
    assert_eq!(retry_verdict(2, 0, false), Verdict::RetryAfter { wait_secs: 3, next_attempt: 1 });
    assert_eq!(retry_verdict(2, 1, false), Verdict::RetryAfter { wait_secs: 3, next_attempt: 2 });
    assert_eq!(retry_verdict(2, 2, false), Verdict::GiveUp);
    assert_eq!(retry_verdict(2, 2, true), Verdict::Done);
    assert_eq!(retry_verdict(0, 0, false), Verdict::GiveUp);
    assert_eq!(retry_verdict(1, 200, false), Verdict::GiveUp);
}

#[test]
fn job_log_lines() {
    let j = job(1);
    assert_eq!(job_log_key(&j), "cron.j1");
    let step = execute_with_retry(&j, 0, &success());
    assert_eq!(
        step.log,
        "job=j1 name=nightly status=success code=0\nstdout:\nout\nstderr:\nerr"
    );
    assert_eq!(step.report, None);
    let step = execute_with_retry(&j, 0, &failure());
    assert_eq!(
        step.log,
        "job=j1 name=nightly status=failed attempt=1/2\nerror=Command failed with code 2.\nstdout:\no\nstderr:\ne"
    );
    assert_eq!(step.report, None);
    let step = execute_with_retry(&j, 1, &failure());
    assert_eq!(step.verdict, Verdict::GiveUp);
    assert!(step.log.starts_with("job=j1 name=nightly status=failed attempt=2/2\nerror="));
    assert_eq!(
        step.report.as_deref(),
        Some("Job j1 (nightly) failed after retries: Command failed with code 2.\nstdout:\no\nstderr:\ne")
    );
}

#[test]
fn attempt_counts_do_not_wrap() {
    let j = job(255);
    let step = execute_with_retry(&j, 255, &Err(ShellError::Blocked));
    assert_eq!(step.verdict, Verdict::GiveUp);
    assert_eq!(
        step.log,
        "job=j1 name=nightly status=failed attempt=256/256\nerror=Blocked potentially dangerous command. Re-run with --force if this is intentional."
    );
}

#[test]
fn hook_log_lines() {
    let h = hook(0);
    assert_eq!(hook_log_key(&h), "hook.h1");
    let step = execute_hook_with_retry(&h, "a", "b", "echo b", 0, &success());
    assert_eq!(step.verdict, Verdict::Done);
    assert_eq!(
        step.log,
        "hook=h1 name=my-hook source=p4 status=success\nprevious=a\ncurrent=b\ncommand=echo b\nstdout:\nout\nstderr:\nerr"
    );
    let failed: Result<ShellOutput, ShellError> =
        Err(ShellError::NotStarted { reason: "no shell".to_string() });
    let step = execute_hook_with_retry(&h, "a", "b", "echo b", 0, &failed);
    assert_eq!(step.verdict, Verdict::GiveUp);
    assert_eq!(
        step.log,
        "hook=h1 name=my-hook source=p4 status=failed attempt=1/1\nprevious=a\ncurrent=b\ncommand=echo b\nerror=no shell"
    );
    assert_eq!(step.report.as_deref(), Some("Hook h1 (my-hook) failed after retries: no shell"));
}
