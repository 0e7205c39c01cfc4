//! Running a command with retries: what follows each attempt, and what is
//! written to the log.
//!
//! The caller runs the command and waits; this module decides. One firing of
//! a job or a hook starts at attempt 0. After each attempt the caller hands
//! its outcome to `execute_with_retry` or `execute_hook_with_retry`, appends
//! the log text under the log key, and does what the verdict says.

use vstd::prelude::*;
use crate::hooks::{source_text, Hook, HookView};
use crate::jobs::{opt_text, Job, JobView};
use crate::number::{decimal, decimal_text, signed_decimal, signed_decimal_text};
use crate::shell::{shell_fault_message, ShellError, ShellFault, ShellOutput, ShellOutputView};
use crate::text::{append, append_str, string_of};

verus! {

/// The seconds to wait between a failed attempt and the next one.
pub const BACKOFF_SECS: u64 = 3;

/// What follows an attempt.
#[derive(Debug, Clone, Copy, PartialEq, Eq)]
pub enum Verdict {
    /// The attempt succeeded; this firing is over.
    Done,
    /// The attempt failed; wait, then make the next attempt.
    RetryAfter { wait_secs: u64, next_attempt: u8 },
    /// The last attempt failed; report it. This firing is over.
    GiveUp,
}

/// What follows attempt number `attempt`, counted from 0, of a command that
/// may be retried `retry_max` times.
pub open spec fn verdict_of(retry_max: u8, attempt: u8, succeeded: bool) -> Verdict {
    if succeeded {
        Verdict::Done
    } else if attempt >= retry_max {
        Verdict::GiveUp
    } else {
        Verdict::RetryAfter { wait_secs: 3, next_attempt: (attempt + 1) as u8 }
    }
}

/// Decides what follows an attempt.
pub fn retry_verdict(retry_max: u8, attempt: u8, succeeded: bool) -> (verdict: Verdict)
    ensures
        verdict == verdict_of(retry_max, attempt, succeeded),
{
    if succeeded {
        Verdict::Done
    } else if attempt >= retry_max {
        Verdict::GiveUp
    } else {
        Verdict::RetryAfter { wait_secs: BACKOFF_SECS, next_attempt: attempt + 1 }
    }
}

/// How many attempts one firing makes from attempt `from` on, when
/// `outcomes[k]` says whether attempt `k` succeeds.
pub open spec fn attempts_from(retry_max: u8, from: u8, outcomes: Seq<bool>) -> nat
    decreases retry_max - from,
{
    match verdict_of(retry_max, from, outcomes[from as int]) {
        Verdict::RetryAfter { wait_secs, next_attempt } => 1 + attempts_from(
            retry_max,
            next_attempt,
            outcomes,
        ),
        _ => 1,
    }
}

/// How many seconds one firing waits from attempt `from` on.
pub open spec fn waited_from(retry_max: u8, from: u8, outcomes: Seq<bool>) -> nat
    decreases retry_max - from,
{
    match verdict_of(retry_max, from, outcomes[from as int]) {
        Verdict::RetryAfter { wait_secs, next_attempt } => wait_secs as nat + waited_from(
            retry_max,
            next_attempt,
            outcomes,
        ),
        _ => 0,
    }
}

/// While every attempt fails, all the attempts that are left are made, with a
/// wait of three seconds before each but the first of them.
pub proof fn lemma_failures_from(retry_max: u8, from: u8, outcomes: Seq<bool>)
    requires
        from <= retry_max,
        outcomes.len() > retry_max,
        forall|k: int| from <= k <= retry_max ==> !outcomes[k],
    ensures
        attempts_from(retry_max, from, outcomes) == retry_max - from + 1,
        waited_from(retry_max, from, outcomes) == 3 * (retry_max - from),
    decreases retry_max - from,
{
    if from < retry_max {
        lemma_failures_from(retry_max, (from + 1) as u8, outcomes);
    }
}

/// A command that fails every time is attempted exactly `retry_max + 1`
/// times, with a wait of three seconds between one attempt and the next.
pub proof fn lemma_persistent_failure(retry_max: u8, outcomes: Seq<bool>)
    requires
        outcomes.len() > retry_max,
        forall|k: int| 0 <= k <= retry_max ==> !outcomes[k],
    ensures
        attempts_from(retry_max, 0, outcomes) == retry_max + 1,
        waited_from(retry_max, 0, outcomes) == 3 * retry_max,
{
    lemma_failures_from(retry_max, 0, outcomes);
}

/// A command that succeeds at once is attempted exactly once, without a wait.
pub proof fn lemma_first_try_success(retry_max: u8, outcomes: Seq<bool>)
    requires
        outcomes.len() > 0,
        outcomes[0],
    ensures
        attempts_from(retry_max, 0, outcomes) == 1,
        waited_from(retry_max, 0, outcomes) == 0,
{
}

/// A command that first succeeds at attempt `first` is attempted exactly
/// `first + 1` times.
pub proof fn lemma_success_ends_firing(
    retry_max: u8,
    from: u8,
    first: u8,
    outcomes: Seq<bool>,
)
    requires
        from <= first <= retry_max,
        outcomes.len() > retry_max,
        outcomes[first as int],
        forall|k: int| from <= k < first ==> !outcomes[k],
    ensures
        attempts_from(retry_max, from, outcomes) == first - from + 1,
        waited_from(retry_max, from, outcomes) == 3 * (first - from),
    decreases first - from,
{
    if from < first {
        lemma_success_ends_firing(retry_max, (from + 1) as u8, first, outcomes);
    }
}

// ---------------------------------------------------------------------------
// Log texts
// ---------------------------------------------------------------------------

/// The outcome of an attempt as plain values.
pub open spec fn attempt_view(outcome: Result<ShellOutput, ShellError>) -> Result<
    ShellOutputView,
    ShellFault,
> {
    match outcome {
        Ok(output) => Ok(output@),
        Err(error) => Err(error@),
    }
}

/// `<attempt + 1>/<retry_max + 1>`: which attempt of how many.
pub open spec fn attempt_of_total(attempt: u8, retry_max: u8) -> Seq<char> {
    decimal_text((attempt + 1) as nat) + "/"@ + decimal_text((retry_max + 1) as nat)
}

/// The key under which the attempts of a job are logged.
pub open spec fn job_log_key_text(job: JobView) -> Seq<char> {
    "cron."@ + job.id
}

/// The log text for an attempt of a job.
pub open spec fn job_attempt_log(
    job: JobView,
    attempt: u8,
    outcome: Result<ShellOutputView, ShellFault>,
) -> Seq<char> {
    match outcome {
        Ok(output) => "job="@ + job.id + " name="@ + job.name + " status=success code="@
            + signed_decimal_text(output.exit_code as int) + "\nstdout:\n"@ + output.stdout
            + "\nstderr:\n"@ + output.stderr,
        Err(fault) => "job="@ + job.id + " name="@ + job.name + " status=failed attempt="@
            + attempt_of_total(attempt, job.retry_max) + "\nerror="@ + shell_fault_message(fault),
    }
}

/// What is reported when the last attempt of a job has failed.
pub open spec fn job_report(
    job: JobView,
    attempt: u8,
    outcome: Result<ShellOutputView, ShellFault>,
) -> Option<Seq<char>> {
    match outcome {
        Err(fault) if attempt >= job.retry_max => Some(
            "Job "@ + job.id + " ("@ + job.name + ") failed after retries: "@
                + shell_fault_message(fault),
        ),
        _ => None,
    }
}

/// The key under which the attempts of a hook are logged.
pub open spec fn hook_log_key_text(hook: HookView) -> Seq<char> {
    "hook."@ + hook.id
}

/// The log text for an attempt of a hook's command.
pub open spec fn hook_attempt_log(
    hook: HookView,
    previous: Seq<char>,
    current: Seq<char>,
    command: Seq<char>,
    attempt: u8,
    outcome: Result<ShellOutputView, ShellFault>,
) -> Seq<char> {
    let head = "hook="@ + hook.id + " name="@ + hook.name + " source="@ + source_text(hook.source);
    let change = "\nprevious="@ + previous + "\ncurrent="@ + current + "\ncommand="@ + command;
    match outcome {
        Ok(output) => head + " status=success"@ + change + "\nstdout:\n"@ + output.stdout
            + "\nstderr:\n"@ + output.stderr,
        Err(fault) => head + " status=failed attempt="@ + attempt_of_total(
            attempt,
            hook.retry_max,
        ) + change + "\nerror="@ + shell_fault_message(fault),
    }
}

/// What is reported when the last attempt of a hook's command has failed.
pub open spec fn hook_report(
    hook: HookView,
    attempt: u8,
    outcome: Result<ShellOutputView, ShellFault>,
) -> Option<Seq<char>> {
    match outcome {
        Err(fault) if attempt >= hook.retry_max => Some(
            "Hook "@ + hook.id + " ("@ + hook.name + ") failed after retries: "@
                + shell_fault_message(fault),
        ),
        _ => None,
    }
}

/// What to do after an attempt.
#[derive(Debug, Clone)]
pub struct RetryStep {
    /// What follows.
    pub verdict: Verdict,
    /// The text to append to the log.
    pub log: String,
    /// The text to report on the error stream, after the last failure.
    pub report: Option<String>,
}

fn push_attempt_of_total(out: &mut Vec<char>, attempt: u8, retry_max: u8)
    ensures
        final(out)@ == old(out)@ + attempt_of_total(attempt, retry_max),
{
    let mut part: Vec<char> = decimal(attempt as u64 + 1);
    append_str(&mut part, "/");
    append(&mut part, &decimal(retry_max as u64 + 1));
    append(out, &part);
}

/// The key under which the attempts of a job are logged.
pub fn job_log_key(job: &Job) -> (key: String)
    ensures
        key@ == job_log_key_text(job@),
{
    let mut out: Vec<char> = Vec::new();
    append_str(&mut out, "cron.");
    append_str(&mut out, job.id.as_str());
    string_of(&out)
}

/// The key under which the attempts of a hook are logged.
pub fn hook_log_key(hook: &Hook) -> (key: String)
    ensures
        key@ == hook_log_key_text(hook@),
{
    let mut out: Vec<char> = Vec::new();
    append_str(&mut out, "hook.");
    append_str(&mut out, hook.id.as_str());
    string_of(&out)
}

/// Decides what follows attempt number `attempt` of a job's command, counted
/// from 0, and writes the log text for it.
///
/// A success ends the firing. A failure is followed by a wait of three
/// seconds and the next attempt, unless `retry_max` retries were made: then
/// the failure is reported and the firing ends.
pub fn execute_with_retry(job: &Job, attempt: u8, outcome: &Result<ShellOutput, ShellError>) -> (step:
    RetryStep)
    ensures
        step.verdict == verdict_of(job.retry_max, attempt, *outcome is Ok),
        step.log@ == job_attempt_log(job@, attempt, attempt_view(*outcome)),
        opt_text(step.report) == job_report(job@, attempt, attempt_view(*outcome)),
{
    let mut log: Vec<char> = Vec::new();
    append_str(&mut log, "job=");
    append_str(&mut log, job.id.as_str());
    append_str(&mut log, " name=");
    append_str(&mut log, job.name.as_str());
    match outcome {
        Ok(output) => {
            append_str(&mut log, " status=success code=");
            append(&mut log, &signed_decimal(output.exit_code as i64));
            append_str(&mut log, "\nstdout:\n");
            append_str(&mut log, output.stdout.as_str());
            append_str(&mut log, "\nstderr:\n");
            append_str(&mut log, output.stderr.as_str());
            assert(log@ =~= job_attempt_log(job@, attempt, attempt_view(*outcome)));
            RetryStep {
                verdict: retry_verdict(job.retry_max, attempt, true),
                log: string_of(&log),
                report: None,
            }
        },
        Err(error) => {
            let message = error.message();
            append_str(&mut log, " status=failed attempt=");
            push_attempt_of_total(&mut log, attempt, job.retry_max);
            append_str(&mut log, "\nerror=");
            append_str(&mut log, message.as_str());
            assert(log@ =~= job_attempt_log(job@, attempt, attempt_view(*outcome)));
            let verdict = retry_verdict(job.retry_max, attempt, false);
            let report = match verdict {
                Verdict::GiveUp => {
                    let mut text: Vec<char> = Vec::new();
                    append_str(&mut text, "Job ");
                    append_str(&mut text, job.id.as_str());
                    append_str(&mut text, " (");
                    append_str(&mut text, job.name.as_str());
                    append_str(&mut text, ") failed after retries: ");
                    append_str(&mut text, message.as_str());
                    Some(string_of(&text))
                },
                _ => None,
            };
            RetryStep { verdict, log: string_of(&log), report }
        },
    }
}

/// Decides what follows attempt number `attempt` of a hook's rendered
/// command, counted from 0, and writes the log text for it. The rules are
/// those of `execute_with_retry`, with the hook's retry count.
pub fn execute_hook_with_retry(
    hook: &Hook,
    previous: &str,
    current: &str,
    command: &str,
    attempt: u8,
    outcome: &Result<ShellOutput, ShellError>,
) -> (step: RetryStep)
    ensures
        step.verdict == verdict_of(hook.retry_max, attempt, *outcome is Ok),
        step.log@ == hook_attempt_log(
            hook@,
            previous@,
            current@,
            command@,
            attempt,
            attempt_view(*outcome),
        ),
        opt_text(step.report) == hook_report(hook@, attempt, attempt_view(*outcome)),
{
    let mut head: Vec<char> = Vec::new();
    append_str(&mut head, "hook=");
    append_str(&mut head, hook.id.as_str());
    append_str(&mut head, " name=");
    append_str(&mut head, hook.name.as_str());
    append_str(&mut head, " source=");
    append_str(&mut head, hook.source.as_str());
    let mut change: Vec<char> = Vec::new();
    append_str(&mut change, "\nprevious=");
    append_str(&mut change, previous);
    append_str(&mut change, "\ncurrent=");
    append_str(&mut change, current);
    append_str(&mut change, "\ncommand=");
    append_str(&mut change, command);
    let mut log: Vec<char> = Vec::new();
    append(&mut log, &head);
    match outcome {
        Ok(output) => {
            append_str(&mut log, " status=success");
            append(&mut log, &change);
            append_str(&mut log, "\nstdout:\n");
            append_str(&mut log, output.stdout.as_str());
            append_str(&mut log, "\nstderr:\n");
            append_str(&mut log, output.stderr.as_str());
            assert(log@ =~= hook_attempt_log(
                hook@,
                previous@,
                current@,
                command@,
                attempt,
                attempt_view(*outcome),
            ));
            RetryStep {
                verdict: retry_verdict(hook.retry_max, attempt, true),
                log: string_of(&log),
                report: None,
            }
        },
        Err(error) => {
            let message = error.message();
            append_str(&mut log, " status=failed attempt=");
            push_attempt_of_total(&mut log, attempt, hook.retry_max);
            append(&mut log, &change);
            append_str(&mut log, "\nerror=");
            append_str(&mut log, message.as_str());
            assert(log@ =~= hook_attempt_log(
                hook@,
                previous@,
                current@,
                command@,
                attempt,
                attempt_view(*outcome),
            ));
            let verdict = retry_verdict(hook.retry_max, attempt, false);
            let report = match verdict {
                Verdict::GiveUp => {
                    let mut text: Vec<char> = Vec::new();
                    append_str(&mut text, "Hook ");
                    append_str(&mut text, hook.id.as_str());
                    append_str(&mut text, " (");
                    append_str(&mut text, hook.name.as_str());
                    append_str(&mut text, ") failed after retries: ");
                    append_str(&mut text, message.as_str());
                    Some(string_of(&text))
                },
                _ => None,
            };
            RetryStep { verdict, log: string_of(&log), report }
        },
    }
}

} // verus!
