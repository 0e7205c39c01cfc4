use goldagent::hooks::{Hook, HookSource, PollError};
use goldagent::watch::{HookWatch, WatchAction};

fn hook() -> Hook {
    Hook {
        id: "h1".to_string(),
        name: "my-hook".to_string(),
        source: HookSource::Git,
        target: "/tmp/repo".to_string(),
        reference: None,
        interval_secs: 30,
        command: "echo".to_string(),
        enabled: true,
        retry_max: 1,
        created_at: "2025-01-01T00:00:00Z".to_string(),
        rules_file: None,
        report_file: None,
    }
}

fn read(signature: &str) -> Result<String, PollError> {
    Ok(signature.to_string())
}

fn failed() -> Result<String, PollError> {
    Err(PollError::EmptyGit { repo: "/tmp/repo".to_string() })
}

fn fires(polls: &[Result<String, PollError>]) -> Vec<(String, String)> {
    let h = hook();
    let mut watch = HookWatch::new();
    let mut out = Vec::new();
    for (i, poll) in polls.iter().enumerate() {
        if let WatchAction::Fire { previous, current } = watch.observe(&h, poll, i == 0) {
            out.push((previous, current));
        }
    }
    out
}

#[test]
fn first_signature_is_the_baseline() {
    assert!(fires(&[read("a")]).is_empty());
    assert!(fires(&[failed(), failed(), read("a")]).is_empty());
    assert!(fires(&[read("a"), read("a"), failed(), read("a")]).is_empty());
}

#[test]
fn fires_once_per_change_with_both_signatures() {
    let got = fires(&[read("a"), read("b"), read("b"), failed(), read("c"), read("a")]);
    assert_eq!(
        got,
        vec![
            ("a".to_string(), "b".to_string()),
            ("b".to_string(), "c".to_string()),
            ("c".to_string(), "a".to_string()),
        ]
    );
}

#[test]
fn failed_startup_poll_leaves_the_baseline_open() {
    let got = fires(&[failed(), read("a"), read("b")]);
    assert_eq!(got, vec![("a".to_string(), "b".to_string())]);
}

#[test]
fn remembers_the_signature_read_last() {
    let h = hook();
    let mut watch = HookWatch::new();
    assert_eq!(watch.last_seen, "");
    assert!(matches!(watch.observe(&h, &read("a"), true), WatchAction::Wait));
    assert_eq!(watch.last_seen, "a");
    assert!(matches!(watch.observe(&h, &failed(), false), WatchAction::Report { .. }));
    assert_eq!(watch.last_seen, "a");
    assert!(matches!(watch.observe(&h, &read("b"), false), WatchAction::Fire { .. }));
    assert_eq!(watch.last_seen, "b");
}

#[test]
fn reports_failed_polls() {
    let h = hook();
    let mut watch = HookWatch::new();
    match watch.observe(&h, &failed(), true) {
        WatchAction::Report { text } => assert_eq!(
            text,
            "Hook h1 (my-hook) initial poll failed: git rev-parse returned empty output for repo `/tmp/repo`"
        ),
        _ => panic!("a failed poll is reported"),
    }
    match watch.observe(&h, &failed(), false) {
        WatchAction::Report { text } => assert_eq!(
            text,
            "Hook h1 (my-hook) poll failed: git rev-parse returned empty output for repo `/tmp/repo`"
        ),
        _ => panic!("a failed poll is reported"),
    }
}
