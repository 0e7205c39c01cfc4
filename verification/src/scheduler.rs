//! The scheduler process: what it starts, how a job runner walks its schedule
//! and when it fires, and the rewrite of job commands written by an older
//! convention.

use vstd::prelude::*;
use crate::chat_actions::{build_remind_command, is_reminder, is_reminder_task, remind_command};
use crate::hooks::{Hook, HookView};
use crate::jobs::{cron_accepts, Job, JobView};
use crate::number::{decimal, decimal_text};
use crate::pattern::{has_prefix, has_suffix, strip_prefix, strip_suffix};
use crate::text::{append, append_str, chars_of, owned, string_of, trim, trimmed};

verus! {

// ---------------------------------------------------------------------------
// Commands of the older convention
// ---------------------------------------------------------------------------

/// A text with its backslash escapes undone: a backslash gives way to the
/// character after it; a backslash at the very end stays.
pub open spec fn unescaped(s: Seq<char>) -> Seq<char>
    decreases s.len(),
{
    if s.len() == 0 {
        s
    } else if s[0] == '\\' && s.len() >= 2 {
        seq![s[1]] + unescaped(s.skip(2))
    } else {
        seq![s[0]] + unescaped(s.skip(1))
    }
}

/// The task text in a command of the form `goldagent run "<text>"`.
pub open spec fn run_message(command: Seq<char>) -> Option<Seq<char>> {
    let t = trimmed(command);
    let opening = "goldagent run \""@;
    if has_prefix(t, opening) && has_suffix(t.skip(opening.len() as int), "\""@) {
        let quoted = t.skip(opening.len() as int);
        Some(unescaped(quoted.take(quoted.len() - "\""@.len())))
    } else {
        None
    }
}

/// The command that runs for a job: a run command whose task reads as a
/// reminder becomes a reminder command; any other command runs as written.
pub open spec fn effective_command(command: Seq<char>) -> Seq<char> {
    match run_message(command) {
        Some(message) => if is_reminder(message) {
            remind_command(message)
        } else {
            command
        },
        None => command,
    }
}

/// Undoes the backslash escapes of a text.
pub fn unescape_quoted(input: &str) -> (out: String)
    ensures
        out@ == unescaped(input@),
{
    let text = unescape_chars(&chars_of(input));
    string_of(&text)
}

fn unescape_chars(v: &Vec<char>) -> (out: Vec<char>)
    ensures
        out@ == unescaped(v@),
{
    let mut out: Vec<char> = Vec::new();
    let mut i: usize = 0;
    assert(v@.skip(0) =~= v@);
    while i < v.len()
        invariant
            i <= v.len(),
            unescaped(v@) == out@ + unescaped(v@.skip(i as int)),
        decreases v.len() - i,
    {
        let ghost rest = v@.skip(i as int);
        let ghost before = out@;
        if v[i] == '\\' && v.len() - i >= 2 {
            out.push(v[i + 1]);
            proof {
                assert(rest.skip(2) =~= v@.skip(i + 2));
                assert(out@ =~= before + seq![rest[1]]);
                assert(unescaped(v@) =~= out@ + unescaped(v@.skip(i + 2)));
            }
            i += 2;
        } else {
            out.push(v[i]);
            proof {
                assert(rest.skip(1) =~= v@.skip(i + 1));
                assert(out@ =~= before + seq![rest[0]]);
                assert(unescaped(v@) =~= out@ + unescaped(v@.skip(i + 1)));
            }
            i += 1;
        }
    }
    assert(v@.skip(v.len() as int) =~= Seq::<char>::empty());
    assert(out@ + Seq::<char>::empty() =~= out@);
    out
}

/// Reads the task text out of a command of the form `goldagent run "<text>"`.
pub fn parse_goldagent_run_message(command: &str) -> (r: Option<String>)
    ensures
        crate::jobs::opt_text(r) == run_message(command@),
{
    let t = trim(&chars_of(command));
    match strip_prefix(&t, &chars_of("goldagent run \"")) {
        None => None,
        Some(quoted) => match strip_suffix(&quoted, &chars_of("\"")) {
            None => None,
            Some(content) => Some(string_of(&unescape_chars(&content))),
        },
    }
}

/// Whether a message reads as a reminder.
pub fn is_reminder_message(message: &str) -> (r: bool)
    ensures
        r == is_reminder(message@),
{
    is_reminder_task(message)
}

/// Builds the command that shows `message` as a local reminder.
pub fn build_goldagent_remind_command(message: &str) -> (command: String)
    ensures
        command@ == remind_command(message@),
{
    build_remind_command(message)
}

/// The command to run for a job. The rewrite happens when a job runs and is
/// never stored.
pub fn effective_job_command(command: &str) -> (out: String)
    ensures
        out@ == effective_command(command@),
{
    match parse_goldagent_run_message(command) {
        None => owned(command),
        Some(message) => {
            if is_reminder_message(message.as_str()) {
                build_goldagent_remind_command(message.as_str())
            } else {
                owned(command)
            }
        },
    }
}

// ---------------------------------------------------------------------------
// What the scheduler starts
// ---------------------------------------------------------------------------

/// The enabled jobs of a list, in their order.
pub open spec fn enabled_job_views(jobs: Seq<JobView>) -> Seq<JobView> {
    jobs.filter(|j: JobView| j.enabled)
}

/// The enabled hooks of a list, in their order.
pub open spec fn enabled_hook_views(hooks: Seq<HookView>) -> Seq<HookView> {
    hooks.filter(|h: HookView| h.enabled)
}

/// The jobs that get a runner: the enabled ones.
pub fn enabled_jobs(jobs: &Vec<Job>) -> (out: Vec<Job>)
    ensures
        crate::jobs::job_views(out@) == enabled_job_views(crate::jobs::job_views(jobs@)),
{
    let ghost all = crate::jobs::job_views(jobs@);
    let mut out: Vec<Job> = Vec::new();
    let mut i: usize = 0;
    proof {
        reveal(Seq::filter);
        assert(all.take(0) =~= Seq::<JobView>::empty());
        assert(crate::jobs::job_views(out@) =~= Seq::<JobView>::empty());
    }
    while i < jobs.len()
        invariant
            i <= jobs.len(),
            all == crate::jobs::job_views(jobs@),
            crate::jobs::job_views(out@) == enabled_job_views(all.take(i as int)),
        decreases jobs.len() - i,
    {
        let ghost views = crate::jobs::job_views(out@);
        proof {
            reveal(Seq::filter);
            assert(all.take(i + 1).drop_last() =~= all.take(i as int));
            assert(all.take(i + 1).last() == jobs@[i as int]@);
        }
        if jobs[i].enabled {
            out.push(jobs[i].duplicate());
            assert(crate::jobs::job_views(out@) =~= views.push(jobs@[i as int]@));
        }
        i += 1;
    }
    assert(all.take(jobs.len() as int) =~= all);
    out
}

/// The hooks that get a watcher: the enabled ones.
pub fn enabled_hooks(hooks: &Vec<Hook>) -> (out: Vec<Hook>)
    ensures
        crate::hooks::hook_views(out@) == enabled_hook_views(crate::hooks::hook_views(hooks@)),
{
    let ghost all = crate::hooks::hook_views(hooks@);
    let mut out: Vec<Hook> = Vec::new();
    let mut i: usize = 0;
    proof {
        reveal(Seq::filter);
        assert(all.take(0) =~= Seq::<HookView>::empty());
        assert(crate::hooks::hook_views(out@) =~= Seq::<HookView>::empty());
    }
    while i < hooks.len()
        invariant
            i <= hooks.len(),
            all == crate::hooks::hook_views(hooks@),
            crate::hooks::hook_views(out@) == enabled_hook_views(all.take(i as int)),
        decreases hooks.len() - i,
    {
        let ghost views = crate::hooks::hook_views(out@);
        proof {
            reveal(Seq::filter);
            assert(all.take(i + 1).drop_last() =~= all.take(i as int));
            assert(all.take(i + 1).last() == hooks@[i as int]@);
        }
        if hooks[i].enabled {
            out.push(hooks[i].duplicate());
            assert(crate::hooks::hook_views(out@) =~= views.push(hooks@[i as int]@));
        }
        i += 1;
    }
    assert(all.take(hooks.len() as int) =~= all);
    out
}

/// The line the scheduler prints once the lists are loaded: a hint when both
/// are empty, else how many jobs and hooks are enabled.
pub open spec fn serve_summary_text(jobs: Seq<JobView>, hooks: Seq<HookView>) -> Seq<char> {
    if jobs.len() == 0 && hooks.len() == 0 {
        "No cron jobs or hooks configured. Add one with `goldagent cron add ...` or `goldagent hook add-git ...`"@
    } else {
        "Loaded "@ + decimal_text(enabled_job_views(jobs).len()) + " cron job(s) and "@
            + decimal_text(enabled_hook_views(hooks).len()) + " hook watcher(s)."@
    }
}

/// Builds the line the scheduler prints once the lists are loaded.
pub fn serve_summary(jobs: &Vec<Job>, hooks: &Vec<Hook>) -> (line: String)
    ensures
        line@ == serve_summary_text(crate::jobs::job_views(jobs@), crate::hooks::hook_views(hooks@)),
{
    if jobs.len() == 0 && hooks.len() == 0 {
        return owned(
            "No cron jobs or hooks configured. Add one with `goldagent cron add ...` or `goldagent hook add-git ...`",
        );
    }
    let running_jobs = enabled_jobs(jobs);
    let running_hooks = enabled_hooks(hooks);
    let job_count: usize = running_jobs.len();
    let hook_count: usize = running_hooks.len();
    let mut out: Vec<char> = Vec::new();
    append_str(&mut out, "Loaded ");
    append(&mut out, &decimal(job_count as u64));
    append_str(&mut out, " cron job(s) and ");
    append(&mut out, &decimal(hook_count as u64));
    append_str(&mut out, " hook watcher(s).");
    proof {
        let jv = crate::jobs::job_views(jobs@);
        let hv = crate::hooks::hook_views(hooks@);
        assert(crate::jobs::job_views(running_jobs@).len() == job_count);
        assert(crate::hooks::hook_views(running_hooks@).len() == hook_count);
        assert(out@ =~= serve_summary_text(jv, hv));
    }
    string_of(&out)
}

/// The line the scheduler prints when another one is already running.
pub open spec fn already_running_text(pid: Option<u32>) -> Seq<char> {
    match pid {
        Some(p) => "GoldAgent scheduler already running (pid="@ + decimal_text(p as nat) + ")."@,
        None => "GoldAgent scheduler already running."@,
    }
}

/// Builds the line the scheduler prints when another one is already running.
pub fn already_running_message(pid: Option<u32>) -> (line: String)
    ensures
        line@ == already_running_text(pid),
{
    match pid {
        Some(p) => {
            let mut out: Vec<char> = Vec::new();
            append_str(&mut out, "GoldAgent scheduler already running (pid=");
            append(&mut out, &decimal(p as u64));
            append_str(&mut out, ").");
            string_of(&out)
        },
        None => owned("GoldAgent scheduler already running."),
    }
}

// ---------------------------------------------------------------------------
// When a job fires
// ---------------------------------------------------------------------------

/// A point in time: whole seconds since the Unix epoch and the nanoseconds
/// on top of them.
#[derive(Debug, Clone, Copy, PartialEq, Eq)]
pub struct Moment {
    pub secs: i64,
    pub nanos: u32,
}

/// A stretch of time to sleep: whole seconds and the nanoseconds on top of
/// them, fewer than a second's worth.
#[derive(Debug, Clone, Copy, PartialEq, Eq)]
pub struct Pause {
    pub secs: u64,
    pub nanos: u32,
}

impl Moment {
    /// The nanoseconds since the Unix epoch.
    pub open spec fn total_nanos(self) -> int {
        self.secs * 1_000_000_000 + self.nanos
    }
}

/// How long to sleep from `now` until `next`: nothing if `next` is not in the
/// future, else the time between the two. The seconds stop at the largest
/// number they can hold.
pub open spec fn wait_of(now: Moment, next: Moment) -> Option<Pause> {
    let between = next.total_nanos() - now.total_nanos();
    if between <= 0 {
        None
    } else {
        Some(
            Pause {
                secs: if between / 1_000_000_000 > u64::MAX {
                    u64::MAX
                } else {
                    (between / 1_000_000_000) as u64
                },
                nanos: (between % 1_000_000_000) as u32,
            },
        )
    }
}

/// Says how long to sleep from `now` until a job fires at `next`.
pub fn wait_before_fire(now: Moment, next: Moment) -> (pause: Option<Pause>)
    ensures
        pause == wait_of(now, next),
{
    let from: i128 = now.secs as i128 * 1_000_000_000 + now.nanos as i128;
    let to: i128 = next.secs as i128 * 1_000_000_000 + next.nanos as i128;
    let between: i128 = to - from;
    if between <= 0 {
        return None;
    }
    let whole: i128 = between / 1_000_000_000;
    let rest: i128 = between % 1_000_000_000;
    let secs: u64 = if whole > u64::MAX as i128 {
        u64::MAX
    } else {
        whole as u64
    };
    Some(Pause { secs, nanos: rest as u32 })
}

/// What a job runner does next.
#[derive(Debug, Clone, Copy, PartialEq, Eq)]
pub enum JobStep {
    /// Sleep this long, then run the job's command with retries.
    SleepThenFire(Pause),
    /// Run the job's command with retries at once.
    FireNow,
    /// The schedule has no further fire instant: the runner ends.
    Finished,
}

/// What a job runner does next, from the next fire instant of its schedule,
/// if there is one, and the time now.
pub open spec fn job_step_of(next: Option<Moment>, now: Moment) -> JobStep {
    match next {
        None => JobStep::Finished,
        Some(at) => match wait_of(now, at) {
            Some(pause) => JobStep::SleepThenFire(pause),
            None => JobStep::FireNow,
        },
    }
}

/// Decides what a job runner does next, from the next fire instant of its
/// schedule, if there is one, and the time now: it sleeps until the instant
/// if that is still in the future, and fires. An instant that has passed
/// fires at once.
pub fn plan_fire(next: Option<Moment>, now: Moment) -> (step: JobStep)
    ensures
        step == job_step_of(next, now),
{
    match next {
        None => JobStep::Finished,
        Some(at) => match wait_before_fire(now, at) {
            Some(pause) => JobStep::SleepThenFire(pause),
            None => JobStep::FireNow,
        },
    }
}

// ---------------------------------------------------------------------------
// Walking a schedule
// ---------------------------------------------------------------------------

/// A fire instant as the schedule gives it: the moment, and the seconds that
/// the local wall clock shows at that moment, counted as if the clock showed
/// UTC.
#[derive(Debug, Clone, Copy, PartialEq, Eq)]
pub struct FireReading {
    pub at: Moment,
    pub wall_secs: i64,
}

/// Where a job runner stands in its schedule: the instant it came to last,
/// and an instant that is still owed. When the local clock is set back, one
/// wall-clock time comes twice; the schedule fires at both, and the second is
/// owed while the first is handled.
#[derive(Debug, Clone, Copy, PartialEq, Eq)]
pub struct FireCursor {
    pub last: Moment,
    pub pending: Option<Moment>,
}

/// The last second of the year 9999 in UTC, in seconds since the Unix epoch.
/// A schedule is walked from moments between the epoch and this second.
pub const CALENDAR_END_SECS: i64 = 253_402_300_799;

/// The fire instant number `index`, counted from 0, that
/// `cron::Schedule::after` gives for the normalised schedule after a moment
/// in the local time zone. The moment is turned into a local date and time
/// by `chrono`'s `TimeZone::timestamp_opt`, and the instant back into plain
/// numbers by `timestamp`, `timestamp_subsec_nanos` and `naive_local`. The
/// result depends on the time zone of the machine, so one thing only is
/// claimed of it: a text that `cron::Schedule::from_str` refuses gives no
/// instant, since the schedule is parsed first. The moment lies between 1970
/// and 9999, where the second that the schedule adds to it cannot leave
/// `chrono`'s calendar.
#[verifier::external_body]
fn fire_after(normalized: &str, after: Moment, index: usize) -> (reading: Option<FireReading>)
    requires
        0 <= after.secs <= 253_402_300_799,
    ensures
        !cron_accepts(normalized@) ==> reading is None,
{
    let schedule = <cron::Schedule as std::str::FromStr>::from_str(normalized).ok()?;
    let start = chrono::TimeZone::timestamp_opt(&chrono::Local, after.secs, after.nanos).single()?;
    let at = schedule.after(&start).nth(index)?;
    Some(
        FireReading {
            at: Moment { secs: at.timestamp(), nanos: at.timestamp_subsec_nanos() },
            wall_secs: at.naive_local().and_utc().timestamp(),
        },
    )
}

/// The time now, from `chrono::Local::now()`. The value depends on the
/// clock, so nothing is claimed of it. The call takes the system clock to
/// stand at or after the start of 1970.
#[verifier::external_body]
fn clock_now() -> (now: Moment) {
    let now = chrono::Local::now();
    Moment { secs: now.timestamp(), nanos: now.timestamp_subsec_nanos() }
}

/// The next fire instant and the cursor after it.
///
/// An instant that is owed comes first. Otherwise the next instant is the
/// first that the schedule gives after the last one, and the second that it
/// gives is owed if the wall clock shows the same time at both. A schedule
/// that gives no instant leaves the cursor as it is.
pub open spec fn advanced(
    cursor: FireCursor,
    first: Option<FireReading>,
    second: Option<FireReading>,
) -> (Option<Moment>, FireCursor) {
    match cursor.pending {
        Some(owed) => (Some(owed), FireCursor { last: owed, pending: None }),
        None => match first {
            None => (None, cursor),
            Some(f) => (
                Some(f.at),
                FireCursor {
                    last: f.at,
                    pending: match second {
                        Some(s) => if s.wall_secs == f.wall_secs {
                            Some(s.at)
                        } else {
                            None
                        },
                        None => None,
                    },
                },
            ),
        },
    }
}

/// Moves a cursor on by one fire instant; `first` and `second` are the first
/// two instants that the schedule gives after the cursor's last one.
pub fn advance(cursor: &mut FireCursor, first: Option<FireReading>, second: Option<FireReading>) -> (fire:
    Option<Moment>)
    ensures
        (fire, *final(cursor)) == advanced(*old(cursor), first, second),
{
    match cursor.pending {
        Some(owed) => {
            cursor.last = owed;
            cursor.pending = None;
            Some(owed)
        },
        None => match first {
            None => None,
            Some(f) => {
                cursor.last = f.at;
                cursor.pending = match second {
                    Some(s) => if s.wall_secs == f.wall_secs {
                        Some(s.at)
                    } else {
                        None
                    },
                    None => None,
                };
                Some(f.at)
            },
        },
    }
}

impl FireCursor {
    /// A cursor that stands at what the clock shows now, as `starting_at` says.
    pub fn starting_now() -> (cursor: FireCursor)
        ensures
            cursor.pending is None,
    {
        FireCursor::starting_at(clock_now())
    }

    /// A cursor that stands at the moment `now`, with no instant owed: the
    /// schedule is walked from the instants after `now`.
    pub fn starting_at(now: Moment) -> (cursor: FireCursor)
        ensures
            cursor == (FireCursor { last: now, pending: None }),
    {
        FireCursor { last: now, pending: None }
    }
}

/// The cursor stands where a schedule can be walked from: between 1970 and
/// 9999.
pub open spec fn in_calendar(cursor: FireCursor) -> bool {
    0 <= cursor.last.secs <= CALENDAR_END_SECS
}

/// Takes the next fire instant of a normalised schedule in the local time
/// zone and moves the cursor on to it.
///
/// An instant that is owed is taken without asking the schedule. With none
/// owed, a cursor that stands before 1970 or after 9999 has no next instant,
/// and neither has a schedule that the cron grammar refuses. Otherwise the
/// schedule is asked for the first two instants after the cursor's last one,
/// and `advanced` says what follows from what it gives.
pub fn next_fire(normalized: &str, cursor: &mut FireCursor) -> (fire: Option<Moment>)
    ensures
        old(cursor).pending is Some ==> (fire, *final(cursor)) == advanced(
            *old(cursor),
            None,
            None,
        ),
        old(cursor).pending is None ==> exists|first: Option<FireReading>, second: Option<FireReading>|
            (fire, *final(cursor)) == #[trigger] advanced(*old(cursor), first, second),
        old(cursor).pending is None && !in_calendar(*old(cursor)) ==> fire is None,
        old(cursor).pending is None && !cron_accepts(normalized@) ==> fire is None,
        fire is None ==> *final(cursor) == *old(cursor),
{
    if cursor.pending.is_some() {
        return advance(cursor, None, None);
    }
    if cursor.last.secs < 0 || cursor.last.secs > CALENDAR_END_SECS {
        assert((None::<Moment>, *cursor) == advanced(*cursor, None, None));
        return None;
    }
    let first = fire_after(normalized, cursor.last, 0);
    let second = match first {
        Some(_) => fire_after(normalized, cursor.last, 1),
        None => None,
    };
    advance(cursor, first, second)
}

/// One round of a job runner: it takes the next fire instant of the job's
/// normalised schedule, reads the clock, and decides as `plan_fire` does.
///
/// The cursor moves as `advanced` says for what the schedule gave, and the
/// step is what `job_step_of` says for the instant taken and the time read.
/// An instant that is owed is taken, so the runner goes on. With none owed,
/// the runner is finished when the cursor stands outside the calendar or the
/// cron grammar refuses the schedule. A finished runner leaves the cursor as
/// it is.
pub fn run_job_loop(normalized: &str, cursor: &mut FireCursor) -> (step: JobStep)
    ensures
        exists|first: Option<FireReading>, second: Option<FireReading>, now: Moment|
            *final(cursor) == advanced(*old(cursor), first, second).1 && step
                == #[trigger] job_step_of(advanced(*old(cursor), first, second).0, now),
        old(cursor).pending is Some ==> !(step is Finished),
        old(cursor).pending is Some ==> final(cursor).last == old(cursor).pending->0,
        old(cursor).pending is Some ==> final(cursor).pending is None,
        old(cursor).pending is None && !in_calendar(*old(cursor)) ==> step is Finished,
        old(cursor).pending is None && !cron_accepts(normalized@) ==> step is Finished,
        step is Finished ==> *final(cursor) == *old(cursor) && old(cursor).pending is None,
{
    let ghost before = *cursor;
    let next = next_fire(normalized, cursor);
    let now = clock_now();
    let step = plan_fire(next, now);
    proof {
        if before.pending is Some {
            assert((next, *cursor) == advanced(before, None, None));
            assert(step == job_step_of(advanced(before, None, None).0, now));
        } else {
            let (first, second) = choose|first: Option<FireReading>, second: Option<FireReading>|
                (next, *cursor) == #[trigger] advanced(before, first, second);
            assert(step == job_step_of(advanced(before, first, second).0, now));
        }
    }
    step
}

} // verus!
