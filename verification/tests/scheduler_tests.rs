use goldagent::hooks::{Hook, HookSource};
use goldagent::jobs::Job;
use goldagent::scheduler::{
    advance, already_running_message, effective_job_command, enabled_hooks, enabled_jobs,
    next_fire, parse_goldagent_run_message, plan_fire, run_job_loop, serve_summary,
    unescape_quoted, wait_before_fire, FireCursor, FireReading, JobStep, Moment, Pause,
};

fn job(id: &str, enabled: bool) -> Job {
    Job {
        id: id.to_string(),
        name: format!("job-{id}"),
        schedule: "0 0 13 * * *".to_string(),
        command: "echo hi".to_string(),
        enabled,
        retry_max: 1,
        created_at: "2025-01-01T00:00:00Z".to_string(),
    }
}

fn hook(id: &str, enabled: bool) -> Hook {
    Hook {
        id: id.to_string(),
        name: format!("hook-{id}"),
        source: HookSource::Git,
        target: "/tmp/repo".to_string(),
        reference: None,
        interval_secs: 30,
        command: "echo".to_string(),
        enabled,
        retry_max: 0,
        created_at: "2025-01-01T00:00:00Z".to_string(),
        rules_file: None,
        report_file: None,
    }
}

#[test]
fn upgrades_legacy_run_reminder_command() {
    let out = effective_job_command("goldagent run \"提醒我喝水\"");
    assert_eq!(out, "goldagent remind \"提醒我喝水\"");
}

#[test]
fn keeps_non_reminder_run_command() {
    let out = effective_job_command("goldagent run \"总结今天工作\"");
    assert_eq!(out, "goldagent run \"总结今天工作\"");
}

#[test]
fn keeps_other_commands_as_written() {
    assert_eq!(effective_job_command("  echo 提醒  "), "  echo 提醒  ");
    assert_eq!(effective_job_command("goldagent run \""), "goldagent run \"");
}

#[test]
fn rewrites_escaped_reminder_text() {
    let out = effective_job_command("  goldagent run \"remind me: say \\\"hi\\\"\"  ");
    assert_eq!(out, "goldagent remind \"remind me: say \\\"hi\\\"\"");
}

#[test]
fn reads_run_message() {
    assert_eq!(
        parse_goldagent_run_message("goldagent run \"a \\\"b\\\" c\""),
        Some("a \"b\" c".to_string())
    );
    assert_eq!(parse_goldagent_run_message("goldagent run \"\""), Some(String::new()));
    assert_eq!(parse_goldagent_run_message("goldagent run x"), None);
    assert_eq!(parse_goldagent_run_message("goldagent remind \"x\""), None);
}

#[test]
fn undoes_escapes() {
    assert_eq!(unescape_quoted("a\\\\b\\\"c"), "a\\b\"c");
    assert_eq!(unescape_quoted("tail\\"), "tail\\");
    assert_eq!(unescape_quoted("\\n"), "n");
    assert_eq!(unescape_quoted(""), "");
}

#[test]
fn selects_enabled_records_in_order() {
    let jobs = vec![job("a", true), job("b", false), job("c", true)];
    let ids: Vec<String> = enabled_jobs(&jobs).into_iter().map(|j| j.id).collect();
    assert_eq!(ids, vec!["a".to_string(), "c".to_string()]);
    let hooks = vec![hook("x", false), hook("y", true)];
    let ids: Vec<String> = enabled_hooks(&hooks).into_iter().map(|h| h.id).collect();
    assert_eq!(ids, vec!["y".to_string()]);
}

#[test]
fn summarises_what_is_loaded() {
    assert_eq!(
        serve_summary(&Vec::new(), &Vec::new()),
        "No cron jobs or hooks configured. Add one with `goldagent cron add ...` or `goldagent hook add-git ...`"
    );
    let jobs = vec![job("a", true), job("b", false), job("c", true)];
    let hooks = vec![hook("x", false)];
    assert_eq!(serve_summary(&jobs, &hooks), "Loaded 2 cron job(s) and 0 hook watcher(s).");
}

#[test]
fn says_that_a_scheduler_is_running() {
    assert_eq!(
        already_running_message(Some(4242)),
        "GoldAgent scheduler already running (pid=4242)."
    );
    assert_eq!(already_running_message(None), "GoldAgent scheduler already running.");
}

#[test]
fn waits_exactly_until_the_fire_instant() {
    let now = Moment { secs: 100, nanos: 750_000_000 };
    let next = Moment { secs: 103, nanos: 0 };
    assert_eq!(wait_before_fire(now, next), Some(Pause { secs: 2, nanos: 250_000_000 }));
    assert_eq!(wait_before_fire(next, now), None);
    assert_eq!(wait_before_fire(now, now), None);
    let early = Moment { secs: -5, nanos: 1 };
    assert_eq!(
        wait_before_fire(early, Moment { secs: -4, nanos: 0 }),
        Some(Pause { secs: 0, nanos: 999_999_999 })
    );
}

#[test]
fn wait_saturates_at_the_largest_pause() {
    let now = Moment { secs: i64::MIN, nanos: 0 };
    let next = Moment { secs: i64::MAX, nanos: 1_999_999_999 };
    assert_eq!(
        wait_before_fire(now, next),
        Some(Pause { secs: u64::MAX, nanos: 999_999_999 })
    );
}

#[test]
fn plans_the_fire() {
    let now = Moment { secs: 10, nanos: 0 };
    assert_eq!(plan_fire(None, now), JobStep::Finished);
    assert_eq!(plan_fire(Some(Moment { secs: 9, nanos: 0 }), now), JobStep::FireNow);
    assert_eq!(
        plan_fire(Some(Moment { secs: 11, nanos: 5 }), now),
        JobStep::SleepThenFire(Pause { secs: 1, nanos: 5 })
    );
}

fn reading(secs: i64, wall_secs: i64) -> FireReading {
    FireReading { at: Moment { secs, nanos: 0 }, wall_secs }
}

#[test]
fn cursor_moves_to_the_next_instant() {
    let mut cursor = FireCursor { last: Moment { secs: 100, nanos: 7 }, pending: None };
    let fire = advance(&mut cursor, Some(reading(160, 160)), Some(reading(220, 220)));
    assert_eq!(fire, Some(Moment { secs: 160, nanos: 0 }));
    assert_eq!(cursor, FireCursor { last: Moment { secs: 160, nanos: 0 }, pending: None });
    let fire = advance(&mut cursor, None, None);
    assert_eq!(fire, None);
    assert_eq!(cursor, FireCursor { last: Moment { secs: 160, nanos: 0 }, pending: None });
}

#[test]
fn a_repeated_wall_clock_time_fires_twice() {
    let mut cursor = FireCursor { last: Moment { secs: 0, nanos: 0 }, pending: None };
    let fire = advance(&mut cursor, Some(reading(5400, 9000)), Some(reading(9000, 9000)));
    assert_eq!(fire, Some(Moment { secs: 5400, nanos: 0 }));
    assert_eq!(cursor.pending, Some(Moment { secs: 9000, nanos: 0 }));
    let fire = advance(&mut cursor, Some(reading(1, 1)), None);
    assert_eq!(fire, Some(Moment { secs: 9000, nanos: 0 }));
    assert_eq!(cursor, FireCursor { last: Moment { secs: 9000, nanos: 0 }, pending: None });
}

#[test]
fn walks_a_schedule_minute_by_minute() {
    let start = Moment { secs: 1_735_689_600, nanos: 250 };
    let mut cursor = FireCursor { last: start, pending: None };
    assert_eq!(next_fire("0 * * * * *", &mut cursor), Some(Moment { secs: 1_735_689_660, nanos: 0 }));
    assert_eq!(next_fire("0 * * * * *", &mut cursor), Some(Moment { secs: 1_735_689_720, nanos: 0 }));
    assert_eq!(cursor.last, Moment { secs: 1_735_689_720, nanos: 0 });
    let mut cursor = FireCursor { last: Moment { secs: 1_735_689_659, nanos: 999_999_999 }, pending: None };
    assert_eq!(next_fire("*/15 * * * * *", &mut cursor), Some(Moment { secs: 1_735_689_660, nanos: 0 }));
    assert_eq!(next_fire("*/15 * * * * *", &mut cursor), Some(Moment { secs: 1_735_689_675, nanos: 0 }));
}

#[test]
fn a_schedule_without_instants_ends_the_walk() {
    let start = Moment { secs: 1_735_689_600, nanos: 0 };
    let mut cursor = FireCursor { last: start, pending: None };
    assert_eq!(next_fire("0 0 0 1 1 * 1999", &mut cursor), None);
    assert_eq!(cursor, FireCursor { last: start, pending: None });
    assert_eq!(next_fire("not a schedule", &mut cursor), None);
    let mut early = FireCursor { last: Moment { secs: -1, nanos: 0 }, pending: None };
    assert_eq!(next_fire("0 * * * * *", &mut early), None);
    let mut late = FireCursor { last: Moment { secs: 253_402_300_800, nanos: 0 }, pending: None };
    assert_eq!(next_fire("0 * * * * *", &mut late), None);
}

#[test]
fn owed_instants_come_first() {
    let owed = Moment { secs: 42, nanos: 0 };
    let mut cursor = FireCursor { last: Moment { secs: 1, nanos: 0 }, pending: Some(owed) };
    assert_eq!(next_fire("0 * * * * *", &mut cursor), Some(owed));
    assert_eq!(cursor, FireCursor { last: owed, pending: None });
}

#[test]
fn cursor_starts_at_the_given_moment() {
    let now = Moment { secs: 1_735_689_600, nanos: 123 };
    let mut cursor = FireCursor::starting_at(now);
    assert_eq!(cursor, FireCursor { last: now, pending: None });
    assert_eq!(next_fire("0 * * * * *", &mut cursor), Some(Moment { secs: 1_735_689_660, nanos: 0 }));
}

#[test]
fn job_runner_rounds() {
    let cursor = FireCursor::starting_now();
    assert_eq!(cursor.pending, None);
    assert!(cursor.last.secs > 1_600_000_000);
    let mut walking = cursor;
    match run_job_loop("* * * * * *", &mut walking) {
        JobStep::SleepThenFire(pause) => assert!(pause.secs <= 1),
        JobStep::FireNow => {}
        JobStep::Finished => panic!("a schedule of every second goes on"),
    }
    assert_eq!(walking.last.secs, cursor.last.secs + 1);
    let mut ended = cursor;
    assert_eq!(run_job_loop("0 0 0 1 1 * 1999", &mut ended), JobStep::Finished);
    assert_eq!(ended, cursor);
}
