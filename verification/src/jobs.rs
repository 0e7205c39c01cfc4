//! Cron jobs: schedule normalisation and validation, and the job list.

use vstd::prelude::*;
use crate::ident::{fresh_id, timestamp_now};
use crate::number::{decimal, decimal_text, parse_unsigned, parsed_unsigned};
use crate::pattern::{has_prefix, split_at_first, split_once, strip_prefix};
use crate::text::{append, append_str, chars_of, owned, str_eq, string_of, trim, trimmed};
use crate::words::{count_words, words};

verus! {

/// A cron-scheduled recurring command.
#[derive(Debug, Clone)]
pub struct Job {
    pub id: String,
    pub name: String,
    pub schedule: String,
    pub command: String,
    pub enabled: bool,
    pub retry_max: u8,
    pub created_at: String,
}

/// What a `Job` holds, as plain values.
pub struct JobView {
    pub id: Seq<char>,
    pub name: Seq<char>,
    pub schedule: Seq<char>,
    pub command: Seq<char>,
    pub enabled: bool,
    pub retry_max: u8,
    pub created_at: Seq<char>,
}

impl View for Job {
    type V = JobView;

    open spec fn view(&self) -> JobView {
        JobView {
            id: self.id@,
            name: self.name@,
            schedule: self.schedule@,
            command: self.command@,
            enabled: self.enabled,
            retry_max: self.retry_max,
            created_at: self.created_at@,
        }
    }
}

impl Job {
    /// The schedule of a stored job is one that normalises and that the cron
    /// grammar accepts.
    pub open spec fn wf(&self) -> bool {
        validated(self.schedule@) is Ok
    }

    /// A copy that holds the same values.
    pub fn duplicate(&self) -> (copy: Job)
        ensures
            copy@ == self@,
    {
        Job {
            id: self.id.clone(),
            name: self.name.clone(),
            schedule: self.schedule.clone(),
            command: self.command.clone(),
            enabled: self.enabled,
            retry_max: self.retry_max,
            created_at: self.created_at.clone(),
        }
    }
}

/// Why a schedule was rejected.
#[derive(Debug, Clone)]
pub enum ScheduleError {
    /// A `HH:MM` time without a colon.
    MissingColon { raw: String },
    /// The text before the colon is not a number that fits eight bits.
    BadHour { raw: String },
    /// The text after the colon is not a number that fits eight bits.
    BadMinute { raw: String },
    /// An hour above 23.
    HourOutOfRange { hour: u8 },
    /// A minute above 59.
    MinuteOutOfRange { minute: u8 },
    /// Neither a shortcut nor a cron expression of five or six fields.
    UnknownForm { expr: String },
    /// The cron grammar does not accept the normalised expression.
    Rejected { expr: String },
}

/// What a `ScheduleError` holds, as plain values.
pub enum ScheduleFault {
    MissingColon { raw: Seq<char> },
    BadHour { raw: Seq<char> },
    BadMinute { raw: Seq<char> },
    HourOutOfRange { hour: u8 },
    MinuteOutOfRange { minute: u8 },
    UnknownForm { expr: Seq<char> },
    Rejected { expr: Seq<char> },
}

impl View for ScheduleError {
    type V = ScheduleFault;

    open spec fn view(&self) -> ScheduleFault {
        match self {
            ScheduleError::MissingColon { raw } => ScheduleFault::MissingColon { raw: raw@ },
            ScheduleError::BadHour { raw } => ScheduleFault::BadHour { raw: raw@ },
            ScheduleError::BadMinute { raw } => ScheduleFault::BadMinute { raw: raw@ },
            ScheduleError::HourOutOfRange { hour } => ScheduleFault::HourOutOfRange {
                hour: *hour,
            },
            ScheduleError::MinuteOutOfRange { minute } => ScheduleFault::MinuteOutOfRange {
                minute: *minute,
            },
            ScheduleError::UnknownForm { expr } => ScheduleFault::UnknownForm { expr: expr@ },
            ScheduleError::Rejected { expr } => ScheduleFault::Rejected { expr: expr@ },
        }
    }
}

/// The text that reports a schedule fault.
pub open spec fn fault_message(fault: ScheduleFault) -> Seq<char> {
    match fault {
        ScheduleFault::MissingColon { raw } => "Invalid time `"@ + raw + "`. Expected HH:MM."@,
        ScheduleFault::BadHour { raw } => "Invalid hour in `"@ + raw + "`"@,
        ScheduleFault::BadMinute { raw } => "Invalid minute in `"@ + raw + "`"@,
        ScheduleFault::HourOutOfRange { hour } => "Invalid hour `"@ + decimal_text(hour as nat)
            + "`. Expected 00-23."@,
        ScheduleFault::MinuteOutOfRange { minute } => "Invalid minute `"@ + decimal_text(
            minute as nat,
        ) + "`. Expected 00-59."@,
        ScheduleFault::UnknownForm { expr } => "Invalid schedule `"@ + expr
            + "`. Expected: 5-field cron (min hour day month weekday), 6-field cron (sec min hour day month weekday), `daily@HH:MM`, or `weekdays@HH:MM`."@,
        ScheduleFault::Rejected { expr } => "Invalid cron expression: "@ + expr,
    }
}

impl ScheduleError {
    /// The text that reports this error.
    pub fn message(&self) -> (text: String)
        ensures
            text@ == fault_message(self@),
    {
        let mut out: Vec<char> = Vec::new();
        match self {
            ScheduleError::MissingColon { raw } => {
                append_str(&mut out, "Invalid time `");
                append_str(&mut out, raw.as_str());
                append_str(&mut out, "`. Expected HH:MM.");
            },
            ScheduleError::BadHour { raw } => {
                append_str(&mut out, "Invalid hour in `");
                append_str(&mut out, raw.as_str());
                append_str(&mut out, "`");
            },
            ScheduleError::BadMinute { raw } => {
                append_str(&mut out, "Invalid minute in `");
                append_str(&mut out, raw.as_str());
                append_str(&mut out, "`");
            },
            ScheduleError::HourOutOfRange { hour } => {
                append_str(&mut out, "Invalid hour `");
                append(&mut out, &decimal(*hour as u64));
                append_str(&mut out, "`. Expected 00-23.");
            },
            ScheduleError::MinuteOutOfRange { minute } => {
                append_str(&mut out, "Invalid minute `");
                append(&mut out, &decimal(*minute as u64));
                append_str(&mut out, "`. Expected 00-59.");
            },
            ScheduleError::UnknownForm { expr } => {
                append_str(&mut out, "Invalid schedule `");
                append_str(&mut out, expr.as_str());
                append_str(
                    &mut out,
                    "`. Expected: 5-field cron (min hour day month weekday), 6-field cron (sec min hour day month weekday), `daily@HH:MM`, or `weekdays@HH:MM`.",
                );
            },
            ScheduleError::Rejected { expr } => {
                append_str(&mut out, "Invalid cron expression: ");
                append_str(&mut out, expr.as_str());
            },
        }
        assert(out@ =~= fault_message(self@));
        string_of(&out)
    }
}

/// A result as plain values.
pub open spec fn text_outcome(r: Result<String, ScheduleError>) -> Result<
    Seq<char>,
    ScheduleFault,
> {
    match r {
        Ok(text) => Ok(text@),
        Err(e) => Err(e@),
    }
}

/// The hour and minute written as `HH:MM` in `raw`.
///
/// The text is split at its first colon; each side is an unsigned number that
/// fits eight bits; the hour is at most 23 and the minute at most 59. The
/// faults come in this order: no colon, hour text, minute text, hour range,
/// minute range.
pub open spec fn hour_minute(raw: Seq<char>) -> Result<(u8, u8), ScheduleFault> {
    match split_at_first(raw, ':') {
        None => Err(ScheduleFault::MissingColon { raw }),
        Some((hour_raw, minute_raw)) => match parsed_unsigned(hour_raw, 255) {
            None => Err(ScheduleFault::BadHour { raw }),
            Some(hour) => match parsed_unsigned(minute_raw, 255) {
                None => Err(ScheduleFault::BadMinute { raw }),
                Some(minute) => if hour > 23 {
                    Err(ScheduleFault::HourOutOfRange { hour: hour as u8 })
                } else if minute > 59 {
                    Err(ScheduleFault::MinuteOutOfRange { minute: minute as u8 })
                } else {
                    Ok((hour as u8, minute as u8))
                },
            },
        },
    }
}

/// The cron expression for a daily time with the given weekday field.
pub open spec fn timed_cron(hour: u8, minute: u8, weekdays: Seq<char>) -> Seq<char> {
    "0 "@ + decimal_text(minute as nat) + " "@ + decimal_text(hour as nat) + " * * "@ + weekdays
}

/// The six-field cron expression that `expr` stands for.
///
/// After trimming: `daily@HH:MM` fires at that time every day,
/// `weekdays@HH:MM` at that time from Monday to Friday, an expression of five
/// fields gets a seconds field of `0` in front, and one of six fields stands
/// as it is. Anything else is a fault.
pub open spec fn normalized(expr: Seq<char>) -> Result<Seq<char>, ScheduleFault> {
    let e = trimmed(expr);
    if has_prefix(e, "daily@"@) {
        match hour_minute(e.skip("daily@"@.len() as int)) {
            Ok((hour, minute)) => Ok(timed_cron(hour, minute, "*"@)),
            Err(fault) => Err(fault),
        }
    } else if has_prefix(e, "weekdays@"@) {
        match hour_minute(e.skip("weekdays@"@.len() as int)) {
            Ok((hour, minute)) => Ok(timed_cron(hour, minute, "1-5"@)),
            Err(fault) => Err(fault),
        }
    } else if words(e).len() == 5 {
        Ok("0 "@ + e)
    } else if words(e).len() == 6 {
        Ok(e)
    } else {
        Err(ScheduleFault::UnknownForm { expr: e })
    }
}

fn hour_minute_of(raw: &Vec<char>) -> (r: Result<(u8, u8), ScheduleError>)
    ensures
        match r {
            Ok(pair) => hour_minute(raw@) == Ok::<(u8, u8), ScheduleFault>(pair),
            Err(e) => hour_minute(raw@) == Err::<(u8, u8), ScheduleFault>(e@),
        },
{
    match split_once(raw, ':') {
        None => Err(ScheduleError::MissingColon { raw: string_of(raw) }),
        Some((hour_raw, minute_raw)) => {
            let hour: u32 = match parse_unsigned(&hour_raw, 255) {
                None => {
                    return Err(ScheduleError::BadHour { raw: string_of(raw) });
                },
                Some(hour) => hour,
            };
            let minute: u32 = match parse_unsigned(&minute_raw, 255) {
                None => {
                    return Err(ScheduleError::BadMinute { raw: string_of(raw) });
                },
                Some(minute) => minute,
            };
            if hour > 23 {
                Err(ScheduleError::HourOutOfRange { hour: hour as u8 })
            } else if minute > 59 {
                Err(ScheduleError::MinuteOutOfRange { minute: minute as u8 })
            } else {
                Ok((hour as u8, minute as u8))
            }
        },
    }
}

/// Reads a `HH:MM` time.
pub fn parse_hh_mm(raw: &str) -> (r: Result<(u8, u8), ScheduleError>)
    ensures
        match r {
            Ok(pair) => hour_minute(raw@) == Ok::<(u8, u8), ScheduleFault>(pair),
            Err(e) => hour_minute(raw@) == Err::<(u8, u8), ScheduleFault>(e@),
        },
{
    let chars = chars_of(raw);
    hour_minute_of(&chars)
}

fn timed_cron_of(hour: u8, minute: u8, weekdays: &str) -> (out: String)
    ensures
        out@ == timed_cron(hour, minute, weekdays@),
{
    let mut out: Vec<char> = Vec::new();
    append_str(&mut out, "0 ");
    append(&mut out, &decimal(minute as u64));
    append_str(&mut out, " ");
    append(&mut out, &decimal(hour as u64));
    append_str(&mut out, " * * ");
    append_str(&mut out, weekdays);
    assert(out@ =~= timed_cron(hour, minute, weekdays@));
    string_of(&out)
}

/// Turns a shortcut or a cron expression of five or six fields into a cron
/// expression of six fields.
pub fn normalize_schedule(expr: &str) -> (r: Result<String, ScheduleError>)
    ensures
        text_outcome(r) == normalized(expr@),
{
    let raw = chars_of(expr);
    let e = trim(&raw);
    let daily = chars_of("daily@");
    let weekdays = chars_of("weekdays@");
    if let Some(time) = strip_prefix(&e, &daily) {
        return match hour_minute_of(&time) {
            Ok((hour, minute)) => Ok(timed_cron_of(hour, minute, "*")),
            Err(fault) => Err(fault),
        };
    }
    if let Some(time) = strip_prefix(&e, &weekdays) {
        return match hour_minute_of(&time) {
            Ok((hour, minute)) => Ok(timed_cron_of(hour, minute, "1-5")),
            Err(fault) => Err(fault),
        };
    }
    let fields: usize = count_words(&e);
    if fields == 5 {
        let mut out: Vec<char> = Vec::new();
        append_str(&mut out, "0 ");
        append(&mut out, &e);
        assert(out@ =~= "0 "@ + e@);
        Ok(string_of(&out))
    } else if fields == 6 {
        Ok(string_of(&e))
    } else {
        Err(ScheduleError::UnknownForm { expr: string_of(&e) })
    }
}

// ---------------------------------------------------------------------------
// Validation against the cron grammar
// ---------------------------------------------------------------------------

/// Whether the `cron` crate's grammar accepts an expression.
pub uninterp spec fn cron_accepts(expr: Seq<char>) -> bool;

/// Parses `expr` with `cron::Schedule::from_str` and reports whether it was
/// accepted. The parser reads nothing but the expression.
#[verifier::external_body]
fn cron_parses(expr: &str) -> (accepted: bool)
    ensures
        accepted == cron_accepts(expr@),
{
    <cron::Schedule as std::str::FromStr>::from_str(expr).is_ok()
}

/// The verdict on a normalised expression, given what the cron grammar said
/// of it; `expr` is the schedule as it was written.
pub fn cron_verdict(expr: &str, accepted: bool) -> (r: Result<(), ScheduleError>)
    ensures
        accepted ==> r is Ok,
        !accepted ==> r is Err && r->Err_0@ == (ScheduleFault::Rejected { expr: expr@ }),
{
    if accepted {
        Ok(())
    } else {
        Err(ScheduleError::Rejected { expr: owned(expr) })
    }
}

/// Whether a schedule is good: it normalises and the cron grammar accepts the
/// normalised expression.
pub open spec fn validated(expr: Seq<char>) -> Result<(), ScheduleFault> {
    match normalized(expr) {
        Err(fault) => Err(fault),
        Ok(cron) => if cron_accepts(cron) {
            Ok(())
        } else {
            Err(ScheduleFault::Rejected { expr })
        },
    }
}

/// A result as plain values.
pub open spec fn unit_outcome(r: Result<(), ScheduleError>) -> Result<(), ScheduleFault> {
    match r {
        Ok(_) => Ok(()),
        Err(e) => Err(e@),
    }
}

/// Checks that a schedule normalises and that the cron grammar accepts it.
pub fn validate_schedule(expr: &str) -> (r: Result<(), ScheduleError>)
    ensures
        unit_outcome(r) == validated(expr@),
{
    match normalize_schedule(expr) {
        Err(fault) => Err(fault),
        Ok(cron) => {
            let accepted = cron_parses(cron.as_str());
            cron_verdict(expr, accepted)
        },
    }
}

// ---------------------------------------------------------------------------
// The job list
// ---------------------------------------------------------------------------

/// What a list of jobs holds.
pub open spec fn job_views(jobs: Seq<Job>) -> Seq<JobView> {
    jobs.map_values(|j: Job| j@)
}

/// An optional text as plain values.
pub open spec fn opt_text(text: Option<String>) -> Option<Seq<char>> {
    match text {
        Some(t) => Some(t@),
        None => None,
    }
}

/// The record of a new job: enabled, and named `job-<id>` unless a name is given.
pub open spec fn new_job_view(
    id: Seq<char>,
    created_at: Seq<char>,
    schedule: Seq<char>,
    command: Seq<char>,
    name: Option<Seq<char>>,
    retry_max: u8,
) -> JobView {
    JobView {
        id,
        name: match name {
            Some(n) => n,
            None => "job-"@ + id,
        },
        schedule,
        command,
        enabled: true,
        retry_max,
        created_at,
    }
}

/// Builds the record of a new job from its identifier, its creation stamp and
/// what the user gave.
pub fn new_job(
    id: String,
    created_at: String,
    schedule: String,
    command: String,
    name: Option<String>,
    retry_max: u8,
) -> (job: Job)
    ensures
        job@ == new_job_view(id@, created_at@, schedule@, command@, opt_text(name), retry_max),
{
    let name = match name {
        Some(n) => n,
        None => {
            let mut out: Vec<char> = Vec::new();
            append_str(&mut out, "job-");
            append_str(&mut out, id.as_str());
            string_of(&out)
        },
    };
    Job { id, name, schedule, command, enabled: true, retry_max, created_at }
}

/// Adds a job to the list.
///
/// A schedule that is not good is rejected and the list stays as it is.
/// Otherwise the list gains, at its end, an enabled job with a fresh
/// identifier and creation stamp and the given schedule, command, name and
/// retry count; the job is returned.
pub fn add_job(
    jobs: &mut Vec<Job>,
    schedule: String,
    command: String,
    name: Option<String>,
    retry_max: u8,
) -> (r: Result<Job, ScheduleError>)
    ensures
        match r {
            Ok(job) => {
                &&& job.wf()
                &&& job@ == new_job_view(
                    job.id@,
                    job.created_at@,
                    schedule@,
                    command@,
                    opt_text(name),
                    retry_max,
                )
                &&& job_views(final(jobs)@) == job_views(old(jobs)@).push(job@)
            },
            Err(e) => validated(schedule@) == Err::<(), ScheduleFault>(e@) && *final(jobs) == *old(
                jobs,
            ),
        },
{
    match validate_schedule(schedule.as_str()) {
        Err(e) => Err(e),
        Ok(_) => {
            let job = new_job(fresh_id(), timestamp_now(), schedule, command, name, retry_max);
            let copy = job.duplicate();
            jobs.push(copy);
            assert(job_views(jobs@) =~= job_views(old(jobs)@).push(job@));
            Ok(job)
        },
    }
}

/// The jobs whose identifier is not `id`, in their order.
pub open spec fn without_id(jobs: Seq<JobView>, id: Seq<char>) -> Seq<JobView> {
    jobs.filter(|j: JobView| j.id != id)
}

/// Some job has the identifier `id`.
pub open spec fn has_id(jobs: Seq<JobView>, id: Seq<char>) -> bool {
    exists|i: int| 0 <= i < jobs.len() && (#[trigger] jobs[i]).id == id
}

/// Dropping the jobs with an identifier from a list that ends in `last`.
pub proof fn lemma_without_id_push(jobs: Seq<JobView>, last: JobView, id: Seq<char>)
    ensures
        without_id(jobs.push(last), id) == if last.id != id {
            without_id(jobs, id).push(last)
        } else {
            without_id(jobs, id)
        },
{
    reveal(Seq::filter);
    assert(jobs.push(last).drop_last() =~= jobs);
}

/// Removing an identifier that no job has leaves the list as it is.
pub proof fn lemma_remove_unknown_id(jobs: Seq<JobView>, id: Seq<char>)
    requires
        !has_id(jobs, id),
    ensures
        without_id(jobs, id) == jobs,
    decreases jobs.len(),
{
    reveal(Seq::filter);
    if jobs.len() > 0 {
        let init = jobs.drop_last();
        assert forall|i: int| 0 <= i < init.len() implies (#[trigger] init[i]).id != id by {
            assert(init[i] == jobs[i]);
        }
        lemma_remove_unknown_id(init, id);
        assert(jobs.last() == jobs[jobs.len() - 1]);
        assert(jobs =~= init.push(jobs.last()));
    }
}

/// Adding a job whose identifier is new and removing that identifier again
/// gives back the list as it was.
pub proof fn lemma_add_then_remove(jobs: Seq<JobView>, job: JobView)
    requires
        !has_id(jobs, job.id),
    ensures
        without_id(jobs.push(job), job.id) == jobs,
{
    lemma_without_id_push(jobs, job, job.id);
    lemma_remove_unknown_id(jobs, job.id);
}

/// Removes the jobs with the identifier `id` and says whether there was one.
/// The other jobs stay, in their order.
pub fn remove_job(jobs: &mut Vec<Job>, id: &str) -> (removed: bool)
    ensures
        job_views(final(jobs)@) == without_id(job_views(old(jobs)@), id@),
        removed == has_id(job_views(old(jobs)@), id@),
        !removed ==> job_views(final(jobs)@) == job_views(old(jobs)@),
{
    let ghost before = job_views(jobs@);
    let mut kept: Vec<Job> = Vec::new();
    let mut i: usize = 0;
    proof {
        reveal(Seq::filter);
        assert(before.take(0) =~= Seq::<JobView>::empty());
        assert(job_views(kept@) =~= Seq::<JobView>::empty());
    }
    while i < jobs.len()
        invariant
            i <= jobs.len(),
            before == job_views(jobs@),
            job_views(kept@) == without_id(before.take(i as int), id@),
            kept.len() <= i,
            kept.len() == i <==> !has_id(before.take(i as int), id@),
        decreases jobs.len() - i,
    {
        let ghost seen = before.take(i as int);
        let ghost views = job_views(kept@);
        proof {
            assert(before.take(i + 1) =~= seen.push(before[i as int]));
            lemma_without_id_push(seen, before[i as int], id@);
            assert(before[i as int] == jobs@[i as int]@);
        }
        if !str_eq(jobs[i].id.as_str(), id) {
            kept.push(jobs[i].duplicate());
            proof {
                assert(job_views(kept@) =~= views.push(before[i as int]));
                if has_id(before.take(i + 1), id@) {
                    let k = choose|k: int|
                        0 <= k < before.take(i + 1).len() && (#[trigger] before.take(
                            i + 1,
                        )[k]).id == id@;
                    assert(seen[k].id == id@);
                }
                if has_id(seen, id@) {
                    let k = choose|k: int| 0 <= k < seen.len() && (#[trigger] seen[k]).id == id@;
                    assert(before.take(i + 1)[k].id == id@);
                }
            }
        } else {
            proof {
                assert(before.take(i + 1)[i as int].id == id@);
            }
        }
        i += 1;
    }
    proof {
        assert(before.take(jobs.len() as int) =~= before);
        if !has_id(before, id@) {
            lemma_remove_unknown_id(before, id@);
        }
    }
    let removed = kept.len() != jobs.len();
    *jobs = kept;
    removed
}

} // verus!
