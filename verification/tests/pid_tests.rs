use goldagent::pid::{
    acquire, liveness, pid_file_content, probe_target, process_is_alive, read_pid_record,
    running_pid, GuardStep, PidRecord, PidVerdict, Probe,
};

fn guard(content: Option<&str>, alive: bool, own: u32) -> GuardStep {
    let running = match running_pid(read_pid_record(content), alive) {
        PidVerdict::Live(pid) => Some(pid),
        PidVerdict::Gone { .. } => None,
    };
    acquire(running, own)
}

#[test]
fn refuses_when_another_live_process_is_named() {
    assert!(matches!(guard(Some("4242\n"), true, 77), GuardStep::Refuse { running: 4242 }));
}

#[test]
fn claims_when_absent_garbled_or_dead() {
    for (content, alive) in [
        (None, false),
        (None, true),
        (Some("not a pid"), true),
        (Some(""), true),
        (Some("-5"), true),
        (Some("4294967296"), true),
        (Some("4242\n"), false),
        (Some("77\n"), true),
    ] {
        match guard(content, alive, 77) {
            GuardStep::Claim { content } => assert_eq!(content, "77\n"),
            GuardStep::Refuse { .. } => panic!("the guard claims the file"),
        }
    }
}

#[test]
fn reads_the_pid_file() {
    assert_eq!(read_pid_record(None), PidRecord::Absent);
    assert_eq!(read_pid_record(Some("123\n")), PidRecord::Pid(123));
    assert_eq!(read_pid_record(Some("  \t+9 \r\n")), PidRecord::Pid(9));
    assert_eq!(read_pid_record(Some("0")), PidRecord::Pid(0));
    assert_eq!(read_pid_record(Some("4294967295")), PidRecord::Pid(u32::MAX));
    assert_eq!(read_pid_record(Some("4294967296")), PidRecord::Garbled);
    assert_eq!(read_pid_record(Some("12 3")), PidRecord::Garbled);
    assert_eq!(read_pid_record(Some("0x10")), PidRecord::Garbled);
    assert_eq!(read_pid_record(Some("")), PidRecord::Garbled);
}

#[test]
fn written_pid_is_read_back() {
    for pid in [0u32, 1, 9, 10, 4242, 65536, u32::MAX] {
        let content = pid_file_content(pid);
        assert_eq!(content, format!("{pid}\n"));
        assert_eq!(read_pid_record(Some(&content)), PidRecord::Pid(pid));
    }
}

#[test]
fn stale_files_are_removed() {
    assert_eq!(running_pid(PidRecord::Absent, true), PidVerdict::Gone { remove_file: false });
    assert_eq!(running_pid(PidRecord::Garbled, true), PidVerdict::Gone { remove_file: true });
    assert_eq!(running_pid(PidRecord::Pid(5), false), PidVerdict::Gone { remove_file: true });
    assert_eq!(running_pid(PidRecord::Pid(5), true), PidVerdict::Live(5));
}

#[test]
fn judges_probes() {
    assert!(liveness(10, Probe::Delivered, 1));
    assert!(liveness(10, Probe::Refused { errno: Some(1) }, 1));
    assert!(!liveness(10, Probe::Refused { errno: Some(3) }, 1));
    assert!(!liveness(10, Probe::Refused { errno: None }, 1));
    assert!(!liveness(0, Probe::Delivered, 1));
    assert!(process_is_alive(10, Probe::Delivered));
    assert!(!process_is_alive(0, Probe::Delivered));
    assert!(!process_is_alive(10, Probe::Refused { errno: None }));
}

#[test]
fn probe_targets() {
    assert_eq!(probe_target(0), None);
    assert_eq!(probe_target(1), Some(1));
    assert_eq!(probe_target(2147483647), Some(i32::MAX));
    assert_eq!(probe_target(2147483648), Some(i32::MIN));
    assert_eq!(probe_target(u32::MAX), Some(-1));
}
