use chrono::{DateTime, Local, TimeZone};
use cron::Schedule;
use goldagent::jobs::normalize_schedule;
use goldagent::scheduler::{next_fire, FireCursor, Moment};
use std::str::FromStr;

fn moment_of(at: &DateTime<Local>) -> Moment {
    Moment { secs: at.timestamp(), nanos: at.timestamp_subsec_nanos() }
}

/// Walks a schedule with the library's cursor and with the iterator of the
/// `cron` crate, side by side.
fn walk_beside(expr: &str, start: Moment, steps: usize) {
    let schedule = Schedule::from_str(expr).expect("the schedule parses");
    let begin = Local.timestamp_opt(start.secs, start.nanos).single().expect("a local time");
    let mut upcoming = schedule.after(&begin);
    let mut cursor = FireCursor::starting_at(start);
    for step in 0..steps {
        let want = upcoming.next().map(|at| moment_of(&at));
        let got = next_fire(expr, &mut cursor);
        assert_eq!(got, want, "{expr} from {start:?}, step {step}");
        if want.is_none() {
            break;
        }
    }
}

#[test]
fn cursor_walks_as_the_cron_iterator_does() {
    let starts = [
        Moment { secs: 0, nanos: 0 },
        Moment { secs: 1_735_689_600, nanos: 0 },
        Moment { secs: 1_735_689_659, nanos: 999_999_999 },
        Moment { secs: 1_711_846_799, nanos: 5 },
        Moment { secs: 1_730_000_000, nanos: 123_456_789 },
        Moment { secs: 1_708_991_999, nanos: 0 },
        Moment { secs: 4_102_444_799, nanos: 0 },
    ];
    let schedules = [
        "* * * * * *",
        "0 * * * * *",
        "*/7 */5 * * * *",
        "0 30 1 * * *",
        "0 30 2 * * *",
        "0 0 13 * * 1-5",
        "0 0 0 29 2 *",
        "5 4 3 2 1 *",
        "0 0 0 1 1 * 2030",
        "0 0 0 1 1 * 1999",
    ];
    for start in starts {
        for expr in schedules {
            walk_beside(expr, start, 40);
        }
    }
}

#[test]
fn normalized_schedules_walk_as_the_cron_iterator_does() {
    let start = Moment { secs: 1_735_689_600, nanos: 250 };
    for written in ["daily@13:00", "weekdays@08:30", "0 13 * * *", "30 0 13 * * *", "*/15 9-17 * * 1-5"] {
        let normalized = normalize_schedule(written).expect("the schedule normalises");
        walk_beside(&normalized, start, 30);
    }
}
