//! The PID file: the lock that keeps a second scheduler from starting.
//!
//! The file holds one decimal process id and a line feed. The caller reads
//! and writes the file and probes the process; this module reads the text,
//! judges the probe and decides.

use vstd::prelude::*;
use crate::number::{decimal, decimal_text, is_digit, lemma_decimal_text_value,
    lemma_parse_decimal_round_trip, parse_unsigned, parsed_unsigned};
use crate::text::{chars_of, is_space, leading_spaces, string_of, trailing_spaces, trim, trimmed};

verus! {

/// What the PID file says.
#[derive(Debug, Clone, Copy, PartialEq, Eq)]
pub enum PidRecord {
    /// There is no file.
    Absent,
    /// The file does not hold a process id.
    Garbled,
    /// The file names this process.
    Pid(u32),
}

/// What the content of the PID file says; `None` stands for no file. The
/// text is trimmed and read as an unsigned decimal number of 32 bits.
pub open spec fn pid_record_of(content: Option<Seq<char>>) -> PidRecord {
    match content {
        None => PidRecord::Absent,
        Some(raw) => match parsed_unsigned(trimmed(raw), 0xffff_ffff) {
            Some(pid) => PidRecord::Pid(pid as u32),
            None => PidRecord::Garbled,
        },
    }
}

/// Reads what the PID file says from its content; `None` stands for no file.
pub fn read_pid_record(content: Option<&str>) -> (record: PidRecord)
    ensures
        record == pid_record_of(
            match content {
                Some(raw) => Some(raw@),
                None => None,
            },
        ),
{
    match content {
        None => PidRecord::Absent,
        Some(raw) => {
            let text = trim(&chars_of(raw));
            match parse_unsigned(&text, 0xffff_ffff) {
                Some(pid) => PidRecord::Pid(pid),
                None => PidRecord::Garbled,
            }
        },
    }
}

/// The content of the PID file for a process: its id in decimal and a line
/// feed.
pub open spec fn pid_file_text(pid: u32) -> Seq<char> {
    decimal_text(pid as nat).push('\n')
}

/// Writes the content of the PID file for a process.
pub fn pid_file_content(pid: u32) -> (content: String)
    ensures
        content@ == pid_file_text(pid),
{
    let mut out = decimal(pid as u64);
    out.push('\n');
    string_of(&out)
}

/// What was written for a process is read back as that process.
pub proof fn lemma_pid_file_round_trip(pid: u32)
    ensures
        pid_record_of(Some(pid_file_text(pid))) == PidRecord::Pid(pid),
{
    let digits = decimal_text(pid as nat);
    let text = pid_file_text(pid);
    lemma_decimal_text_value(pid as nat);
    lemma_parse_decimal_round_trip(pid as nat, 0xffff_ffff);
    assert(is_digit(digits[0]));
    assert(is_digit(digits[digits.len() - 1]));
    assert(text[0] == digits[0]);
    assert(!is_space(text[0]));
    assert(leading_spaces(text) == 0);
    assert(text.skip(0) =~= text);
    assert(text.drop_last() =~= digits);
    assert(is_space(text.last()));
    assert(!is_space(digits.last()));
    assert(trailing_spaces(digits) == 0);
    assert(trailing_spaces(text) == 1);
    assert(text.take(text.len() - 1) =~= digits);
    assert(trimmed(text) == digits);
}

// ---------------------------------------------------------------------------
// Is the process alive?
// ---------------------------------------------------------------------------

/// The process id to send the probing signal to, as the signed number the
/// system call takes; none for process id 0, which is never probed.
pub open spec fn probe_target_of(pid: u32) -> Option<i32> {
    if pid == 0 {
        None
    } else if pid <= 0x7fff_ffff {
        Some(pid as i32)
    } else {
        Some((pid - 0x1_0000_0000) as i32)
    }
}

/// Says where to send the probing signal for a process id.
pub fn probe_target(pid: u32) -> (target: Option<i32>)
    ensures
        target == probe_target_of(pid),
{
    if pid == 0 {
        None
    } else if pid <= 0x7fff_ffff {
        Some(pid as i32)
    } else {
        Some((pid as i64 - 0x1_0000_0000) as i32)
    }
}

/// What came of sending a signal that does nothing to a process.
#[derive(Debug, Clone, Copy, PartialEq, Eq)]
pub enum Probe {
    /// The signal could be sent.
    Delivered,
    /// The signal could not be sent; `errno` is the error code, if there is
    /// one.
    Refused { errno: Option<i32> },
}

/// A probed process is alive if the signal could be sent, or if sending was
/// refused for want of permission: then the process exists. Process id 0 is
/// never alive.
pub open spec fn alive_by(pid: u32, probe: Probe, permission_denied: i32) -> bool {
    pid != 0 && match probe {
        Probe::Delivered => true,
        Probe::Refused { errno } => errno == Some(permission_denied),
    }
}

/// Judges a probe; `permission_denied` is the error code that the system
/// gives when the process exists and may not be signalled.
pub fn liveness(pid: u32, probe: Probe, permission_denied: i32) -> (alive: bool)
    ensures
        alive == alive_by(pid, probe, permission_denied),
{
    if pid == 0 {
        return false;
    }
    match probe {
        Probe::Delivered => true,
        Probe::Refused { errno } => match errno {
            Some(code) => code == permission_denied,
            None => false,
        },
    }
}

/// The error code `libc::EPERM` of this platform. Its value depends on the
/// platform, so nothing is claimed of it.
#[verifier::external_body]
fn permission_denied_code() -> (code: i32) {
    libc::EPERM
}

/// Judges a probe by this platform's code for a refusal for want of
/// permission.
pub fn process_is_alive(pid: u32, probe: Probe) -> (alive: bool)
    ensures
        pid == 0 ==> !alive,
        pid != 0 && probe is Delivered ==> alive,
        probe == (Probe::Refused { errno: None }) ==> !alive,
{
    liveness(pid, probe, permission_denied_code())
}

// ---------------------------------------------------------------------------
// Is a scheduler running?
// ---------------------------------------------------------------------------

/// Whether a scheduler is running, and whether a stale PID file is to be
/// removed.
#[derive(Debug, Clone, Copy, PartialEq, Eq)]
pub enum PidVerdict {
    /// The process that the file names is alive.
    Live(u32),
    /// No scheduler is running.
    Gone { remove_file: bool },
}

/// A scheduler is running if the file names a process that is alive. A file
/// that is garbled or names a dead process is stale and is removed.
pub open spec fn running_of(record: PidRecord, alive: bool) -> PidVerdict {
    match record {
        PidRecord::Absent => PidVerdict::Gone { remove_file: false },
        PidRecord::Garbled => PidVerdict::Gone { remove_file: true },
        PidRecord::Pid(pid) => if alive {
            PidVerdict::Live(pid)
        } else {
            PidVerdict::Gone { remove_file: true }
        },
    }
}

/// Decides whether a scheduler is running; `alive` is the judgement on the
/// process that the record names and counts for nothing otherwise.
pub fn running_pid(record: PidRecord, alive: bool) -> (verdict: PidVerdict)
    ensures
        verdict == running_of(record, alive),
{
    match record {
        PidRecord::Absent => PidVerdict::Gone { remove_file: false },
        PidRecord::Garbled => PidVerdict::Gone { remove_file: true },
        PidRecord::Pid(pid) => if alive {
            PidVerdict::Live(pid)
        } else {
            PidVerdict::Gone { remove_file: true }
        },
    }
}

/// The process of the running scheduler, if there is one.
pub open spec fn live_pid(verdict: PidVerdict) -> Option<u32> {
    match verdict {
        PidVerdict::Live(pid) => Some(pid),
        PidVerdict::Gone { remove_file } => None,
    }
}

// ---------------------------------------------------------------------------
// The guard
// ---------------------------------------------------------------------------

/// What a starting scheduler does about the PID file.
#[derive(Debug, Clone)]
pub enum GuardStep {
    /// Another scheduler is running: do not start and leave the file alone.
    Refuse { running: u32 },
    /// Write `content` to the file and start.
    Claim { content: String },
}

/// What a `GuardStep` holds, as plain values.
pub enum GuardEffect {
    Refuse { running: u32 },
    Claim { content: Seq<char> },
}

impl View for GuardStep {
    type V = GuardEffect;

    open spec fn view(&self) -> GuardEffect {
        match self {
            GuardStep::Refuse { running } => GuardEffect::Refuse { running: *running },
            GuardStep::Claim { content } => GuardEffect::Claim { content: content@ },
        }
    }
}

/// A starting scheduler gives way to a running one that is another process;
/// otherwise it claims the file for itself.
pub open spec fn guard_of(running: Option<u32>, own_pid: u32) -> GuardEffect {
    match running {
        Some(pid) if pid != own_pid => GuardEffect::Refuse { running: pid },
        _ => GuardEffect::Claim { content: pid_file_text(own_pid) },
    }
}

/// Decides what a starting scheduler does about the PID file; `running` is
/// the process of the running scheduler, if there is one.
pub fn acquire(running: Option<u32>, own_pid: u32) -> (step: GuardStep)
    ensures
        step@ == guard_of(running, own_pid),
{
    match running {
        Some(pid) if pid != own_pid => GuardStep::Refuse { running: pid },
        _ => GuardStep::Claim { content: pid_file_content(own_pid) },
    }
}

/// What a starting scheduler does, from what the PID file holds and whether
/// the process it names is alive.
pub open spec fn guard_on_file(content: Option<Seq<char>>, alive: bool, own_pid: u32) -> GuardEffect {
    guard_of(live_pid(running_of(pid_record_of(content), alive)), own_pid)
}

/// The guard refuses when the file names another process that is alive.
pub proof fn lemma_guard_refuses_live_other(content: Seq<char>, pid: u32, own_pid: u32)
    requires
        pid_record_of(Some(content)) == PidRecord::Pid(pid),
        pid != own_pid,
    ensures
        guard_on_file(Some(content), true, own_pid) == (GuardEffect::Refuse { running: pid }),
{
}

/// The guard claims the file, with the caller's own process id as the new
/// content, when there is no file, when the file is garbled, when the
/// process it names is dead, and when it names the caller.
pub proof fn lemma_guard_claims(content: Option<Seq<char>>, alive: bool, own_pid: u32)
    requires
        pid_record_of(content) is Absent || pid_record_of(content) is Garbled || !alive
            || pid_record_of(content) == PidRecord::Pid(own_pid),
    ensures
        guard_on_file(content, alive, own_pid) == (GuardEffect::Claim {
            content: pid_file_text(own_pid),
        }),
{
}

/// A scheduler that starts again on the file it claimed claims it again: the
/// file names the caller.
pub proof fn lemma_guard_reclaims_own_file(alive: bool, own_pid: u32)
    ensures
        guard_on_file(Some(pid_file_text(own_pid)), alive, own_pid) == (GuardEffect::Claim {
            content: pid_file_text(own_pid),
        }),
{
    lemma_pid_file_round_trip(own_pid);
}

} // verus!
