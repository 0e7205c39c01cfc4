//! The commands that a task described in chat is scheduled as.

use vstd::prelude::*;
use crate::pattern::{has_prefix, replace_char, replaced_char, starts_with};
use crate::text::{append, append_str, chars_of, string_of, trim, trimmed};
use crate::words::{lowered_ascii, single_line, to_ascii_lowercase, to_single_line};

verus! {

/// The retry count of an action that names none.
pub fn default_retry_max() -> (n: u8)
    ensures
        n == 1,
{
    1
}

/// The polling interval, in seconds, of a hook action that names none.
pub fn default_hook_interval_secs() -> (n: u64)
    ensures
        n == 30,
{
    30
}

/// A text made safe to stand between double quotes on one line: line breaks
/// become spaces, then each backslash and then each double quote gets a
/// backslash in front, and the ends are trimmed.
pub open spec fn quoted_argument(text: Seq<char>) -> Seq<char> {
    trimmed(replaced_char(replaced_char(single_line(text), '\\', "\\\\"@), '"', "\\\""@))
}

/// The command that hands a task to the assistant.
pub open spec fn run_task_command(task: Seq<char>) -> Seq<char> {
    "goldagent run \""@ + quoted_argument(task) + "\""@
}

/// The command that shows a local reminder.
pub open spec fn remind_command(message: Seq<char>) -> Seq<char> {
    "goldagent remind \""@ + quoted_argument(message) + "\""@
}

/// A text reads as a reminder: trimmed, it begins with one of the two Chinese
/// reminder words or, whatever the case of its ASCII letters, with `remind`.
pub open spec fn is_reminder(text: Seq<char>) -> bool {
    let t = trimmed(text);
    has_prefix(t, "提醒"@) || has_prefix(t, "到点"@) || has_prefix(lowered_ascii(t), "remind"@)
}

/// The command a task is scheduled as: a reminder command for a reminder, a
/// run command for anything else.
pub open spec fn scheduled_task_command(task: Seq<char>) -> Seq<char> {
    if is_reminder(task) {
        remind_command(task)
    } else {
        run_task_command(task)
    }
}

/// Makes a text safe to stand between double quotes on one line.
pub fn quote_argument(text: &Vec<char>) -> (out: Vec<char>)
    ensures
        out@ == quoted_argument(text@),
{
    let flat = to_single_line(text);
    let escaped = replace_char(&flat, '\\', &chars_of("\\\\"));
    let escaped = replace_char(&escaped, '"', &chars_of("\\\""));
    trim(&escaped)
}

/// Builds the command that hands `task` to the assistant.
pub fn build_run_task_command(task: &str) -> (command: String)
    ensures
        command@ == run_task_command(task@),
{
    let mut out: Vec<char> = Vec::new();
    append_str(&mut out, "goldagent run \"");
    append(&mut out, &quote_argument(&chars_of(task)));
    append_str(&mut out, "\"");
    string_of(&out)
}

/// Builds the command that shows `message` as a local reminder.
pub fn build_remind_command(message: &str) -> (command: String)
    ensures
        command@ == remind_command(message@),
{
    let mut out: Vec<char> = Vec::new();
    append_str(&mut out, "goldagent remind \"");
    append(&mut out, &quote_argument(&chars_of(message)));
    append_str(&mut out, "\"");
    string_of(&out)
}

/// Whether a task reads as a reminder.
pub fn is_reminder_task(task: &str) -> (r: bool)
    ensures
        r == is_reminder(task@),
{
    let t = trim(&chars_of(task));
    starts_with(&t, &chars_of("提醒")) || starts_with(&t, &chars_of("到点")) || starts_with(
        &to_ascii_lowercase(&t),
        &chars_of("remind"),
    )
}

/// Builds the command a task is scheduled as.
pub fn build_scheduled_task_command(task: &str) -> (command: String)
    ensures
        command@ == scheduled_task_command(task@),
{
    if is_reminder_task(task) {
        build_remind_command(task)
    } else {
        build_run_task_command(task)
    }
}

} // verus!
