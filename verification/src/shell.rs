//! The rules around running a shell command: the safety check before it runs
//! and the reading of its exit afterwards. Running it is the caller's part.

use vstd::prelude::*;
use crate::number::{signed_decimal, signed_decimal_text};
use crate::pattern::{contains, occurs_in};
use crate::text::{append, append_str, chars_of, string_of};

verus! {

/// What a command that ran to a successful end left behind.
#[derive(Debug, Clone)]
pub struct ShellOutput {
    pub exit_code: i32,
    pub stdout: String,
    pub stderr: String,
}

/// What a `ShellOutput` holds, as plain values.
pub struct ShellOutputView {
    pub exit_code: i32,
    pub stdout: Seq<char>,
    pub stderr: Seq<char>,
}

impl View for ShellOutput {
    type V = ShellOutputView;

    open spec fn view(&self) -> ShellOutputView {
        ShellOutputView { exit_code: self.exit_code, stdout: self.stdout@, stderr: self.stderr@ }
    }
}

/// Why a command gave no output to use.
#[derive(Debug, Clone)]
pub enum ShellError {
    /// The safety check refused the command.
    Blocked,
    /// The command could not be started.
    NotStarted { reason: String },
    /// The command ended without success.
    Failed { exit_code: i32, stdout: String, stderr: String },
}

/// What a `ShellError` holds, as plain values.
pub enum ShellFault {
    Blocked,
    NotStarted { reason: Seq<char> },
    Failed { exit_code: i32, stdout: Seq<char>, stderr: Seq<char> },
}

impl View for ShellError {
    type V = ShellFault;

    open spec fn view(&self) -> ShellFault {
        match self {
            ShellError::Blocked => ShellFault::Blocked,
            ShellError::NotStarted { reason } => ShellFault::NotStarted { reason: reason@ },
            ShellError::Failed { exit_code, stdout, stderr } => ShellFault::Failed {
                exit_code: *exit_code,
                stdout: stdout@,
                stderr: stderr@,
            },
        }
    }
}

/// The text that reports a shell fault.
pub open spec fn shell_fault_message(fault: ShellFault) -> Seq<char> {
    match fault {
        ShellFault::Blocked =>
            "Blocked potentially dangerous command. Re-run with --force if this is intentional."@,
        ShellFault::NotStarted { reason } => reason,
        ShellFault::Failed { exit_code, stdout, stderr } => "Command failed with code "@
            + signed_decimal_text(exit_code as int) + ".\nstdout:\n"@ + stdout + "\nstderr:\n"@
            + stderr,
    }
}

impl ShellError {
    /// The text that reports this error.
    pub fn message(&self) -> (text: String)
        ensures
            text@ == shell_fault_message(self@),
    {
        let mut out: Vec<char> = Vec::new();
        match self {
            ShellError::Blocked => {
                append_str(
                    &mut out,
                    "Blocked potentially dangerous command. Re-run with --force if this is intentional.",
                );
            },
            ShellError::NotStarted { reason } => {
                append_str(&mut out, reason.as_str());
            },
            ShellError::Failed { exit_code, stdout, stderr } => {
                append_str(&mut out, "Command failed with code ");
                append(&mut out, &signed_decimal(*exit_code as i64));
                append_str(&mut out, ".\nstdout:\n");
                append_str(&mut out, stdout.as_str());
                append_str(&mut out, "\nstderr:\n");
                append_str(&mut out, stderr.as_str());
            },
        }
        assert(out@ =~= shell_fault_message(self@));
        string_of(&out)
    }
}

// ---------------------------------------------------------------------------
// The safety check
// ---------------------------------------------------------------------------

/// The lower-case form of a text by the Unicode case mapping.
pub uninterp spec fn unicode_lowercase(text: Seq<char>) -> Seq<char>;

/// Lowers a text with `str::to_lowercase`, which maps the text by the Unicode
/// lower-case mapping and reads nothing else.
#[verifier::external_body]
fn lowercase(text: &str) -> (lowered: String)
    ensures
        lowered@ == unicode_lowercase(text@),
{
    text.to_lowercase()
}

/// A lower-case text holds one of the patterns that mark a command as
/// dangerous.
pub open spec fn on_denylist(lowered: Seq<char>) -> bool {
    ||| occurs_in(lowered, "rm -rf /"@)
    ||| occurs_in(lowered, "mkfs"@)
    ||| occurs_in(lowered, "shutdown"@)
    ||| occurs_in(lowered, "reboot"@)
    ||| occurs_in(lowered, "dd if="@)
    ||| occurs_in(lowered, ":(){:|:&};:"@)
}

/// Whether a text that is already in lower case holds a dangerous pattern.
pub fn denylisted(lowered: &str) -> (r: bool)
    ensures
        r == on_denylist(lowered@),
{
    let text = chars_of(lowered);
    contains(&text, &chars_of("rm -rf /")) || contains(&text, &chars_of("mkfs")) || contains(
        &text,
        &chars_of("shutdown"),
    ) || contains(&text, &chars_of("reboot")) || contains(&text, &chars_of("dd if=")) || contains(
        &text,
        &chars_of(":(){:|:&};:"),
    )
}

/// Whether a command looks dangerous: its lower-case form holds a pattern of
/// the deny list.
pub fn is_dangerous(command: &str) -> (r: bool)
    ensures
        r == on_denylist(unicode_lowercase(command@)),
{
    let lowered = lowercase(command);
    denylisted(lowered.as_str())
}

/// Decides whether a command may run: a dangerous one only when forced.
pub fn admit_command(command: &str, force: bool) -> (r: Result<(), ShellError>)
    ensures
        r is Err <==> on_denylist(unicode_lowercase(command@)) && !force,
        r is Err ==> r->Err_0@ == ShellFault::Blocked,
{
    if is_dangerous(command) && !force {
        Err(ShellError::Blocked)
    } else {
        Ok(())
    }
}

// ---------------------------------------------------------------------------
// Reading the exit
// ---------------------------------------------------------------------------

/// The exit code to report: the code the process gave, or -1 when it ended
/// without one.
pub open spec fn reported_code(code: Option<i32>) -> i32 {
    match code {
        Some(c) => c,
        None => -1i32,
    }
}

/// Reads how a command ended. `code` is its exit code, if it ended with one.
/// An exit code of zero is success; anything else is a failure that carries
/// the reported code and both outputs.
pub fn finish_command(code: Option<i32>, stdout: String, stderr: String) -> (r: Result<
    ShellOutput,
    ShellError,
>)
    ensures
        code == Some(0i32) ==> r is Ok && r->Ok_0@ == (ShellOutputView {
            exit_code: 0,
            stdout: stdout@,
            stderr: stderr@,
        }),
        code != Some(0i32) ==> r is Err && r->Err_0@ == (ShellFault::Failed {
            exit_code: reported_code(code),
            stdout: stdout@,
            stderr: stderr@,
        }),
{
    let exit_code: i32 = match code {
        Some(c) => c,
        None => -1,
    };
    if exit_code == 0 && code.is_some() {
        Ok(ShellOutput { exit_code, stdout, stderr })
    } else {
        Err(ShellError::Failed { exit_code, stdout, stderr })
    }
}

} // verus!
