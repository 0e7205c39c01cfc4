use goldagent::chat_actions::{build_run_task_command, build_scheduled_task_command, is_reminder_task};
use goldagent::connect::mask_api_key;
use goldagent::hooks::{render_command_template, shell_quote, Hook, HookSource};
use goldagent::jobs::normalize_schedule;
use goldagent::scheduler::{effective_job_command, unescape_quoted};

/// A small generator of texts over an alphabet, the same on every run.
struct Texts {
    state: u64,
    alphabet: Vec<String>,
}

impl Texts {
    fn new(seed: u64, alphabet: &[&str]) -> Texts {
        Texts { state: seed, alphabet: alphabet.iter().map(|s| s.to_string()).collect() }
    }

    fn number(&mut self, bound: u64) -> u64 {
        self.state = self.state.wrapping_mul(6364136223846793005).wrapping_add(1442695040888963407);
        (self.state >> 33) % bound
    }

    fn text(&mut self, max_parts: u64) -> String {
        let parts = self.number(max_parts + 1);
        let mut out = String::new();
        for _ in 0..parts {
            let i = self.number(self.alphabet.len() as u64) as usize;
            out.push_str(&self.alphabet[i]);
        }
        out
    }
}

fn std_is_reminder(task: &str) -> bool {
    let trimmed = task.trim();
    trimmed.starts_with("提醒")
        || trimmed.starts_with("到点")
        || trimmed.to_ascii_lowercase().starts_with("remind")
}

fn std_quoted(prefix: &str, task: &str) -> String {
    let normalized = task.replace(['\r', '\n'], " ");
    let escaped = normalized.replace('\\', "\\\\").replace('"', "\\\"");
    format!("{prefix} \"{}\"", escaped.trim())
}

fn std_unescape(input: &str) -> String {
    let mut out = String::with_capacity(input.len());
    let mut chars = input.chars();
    while let Some(ch) = chars.next() {
        if ch == '\\' {
            if let Some(next) = chars.next() {
                out.push(next);
            } else {
                out.push(ch);
            }
        } else {
            out.push(ch);
        }
    }
    out
}

fn std_effective(command: &str) -> String {
    let trimmed = command.trim();
    let message = trimmed
        .strip_prefix("goldagent run \"")
        .and_then(|rest| rest.strip_suffix('"'))
        .map(std_unescape);
    match message {
        Some(message) if std_is_reminder(&message) => std_quoted("goldagent remind", &message),
        _ => command.to_string(),
    }
}

fn task_texts(seed: u64) -> Texts {
    Texts::new(
        seed,
        &["提醒", "到点", "remind", "Remind", " ", "\n", "\r", "\t", "\\", "\"", "a", "我", "\u{3000}"],
    )
}

#[test]
fn task_commands_agree_with_std() {
    let mut texts = task_texts(1);
    for _ in 0..3000 {
        let task = texts.text(6);
        assert_eq!(is_reminder_task(&task), std_is_reminder(&task), "{task:?}");
        assert_eq!(build_run_task_command(&task), std_quoted("goldagent run", &task), "{task:?}");
        let want = if std_is_reminder(&task) {
            std_quoted("goldagent remind", &task)
        } else {
            std_quoted("goldagent run", &task)
        };
        assert_eq!(build_scheduled_task_command(&task), want, "{task:?}");
    }
}

#[test]
fn effective_commands_agree_with_std() {
    let mut texts = Texts::new(
        2,
        &["goldagent run \"", "goldagent run ", "\"", "\\", " ", "提醒", "remind", "x", "\n", "\\\""],
    );
    for _ in 0..3000 {
        let command = texts.text(6);
        assert_eq!(unescape_quoted(&command), std_unescape(&command), "{command:?}");
        assert_eq!(effective_job_command(&command), std_effective(&command), "{command:?}");
    }
}

#[test]
fn stored_run_commands_run_as_they_would_be_scheduled_now() {
    let mut texts = task_texts(3);
    for _ in 0..3000 {
        let task = texts.text(6);
        let stored = build_run_task_command(&task);
        assert_eq!(effective_job_command(&stored), build_scheduled_task_command(&task), "{task:?}");
    }
}

fn std_hh_mm(raw: &str) -> Option<(u8, u8)> {
    let (hour_raw, minute_raw) = raw.split_once(':')?;
    let hour = hour_raw.parse::<u8>().ok()?;
    let minute = minute_raw.parse::<u8>().ok()?;
    if hour > 23 || minute > 59 {
        return None;
    }
    Some((hour, minute))
}

fn std_normalize(expr: &str) -> Option<String> {
    let expr = expr.trim();
    if let Some(time) = expr.strip_prefix("daily@") {
        let (hour, minute) = std_hh_mm(time)?;
        return Some(format!("0 {minute} {hour} * * *"));
    }
    if let Some(time) = expr.strip_prefix("weekdays@") {
        let (hour, minute) = std_hh_mm(time)?;
        return Some(format!("0 {minute} {hour} * * 1-5"));
    }
    match expr.split_whitespace().count() {
        5 => Some(format!("0 {expr}")),
        6 => Some(expr.to_string()),
        _ => None,
    }
}

#[test]
fn schedules_agree_with_std() {
    let mut texts = Texts::new(
        4,
        &["daily@", "weekdays@", ":", "0", "1", "2", "3", "5", "9", "+", "-", " ", "*", "\t", "/"],
    );
    for _ in 0..5000 {
        let expr = texts.text(9);
        assert_eq!(normalize_schedule(&expr).ok(), std_normalize(&expr), "{expr:?}");
    }
}

fn hook(command: String, id: String, name: String, target: String, reference: Option<String>) -> Hook {
    Hook {
        id,
        name,
        source: HookSource::P4,
        target,
        reference,
        interval_secs: 30,
        command,
        enabled: true,
        retry_max: 1,
        created_at: "2025-01-01T00:00:00Z".to_string(),
        rules_file: None,
        report_file: None,
    }
}

#[test]
fn templates_agree_with_std() {
    let mut texts = Texts::new(
        5,
        &[
            "${HOOK_ID}", "${HOOK_NAME}", "${HOOK_SOURCE}", "${HOOK_TARGET}", "${HOOK_REF}",
            "${HOOK_PREVIOUS}", "${HOOK_CURRENT}", "${", "HOOK_", "ID}", "}", " ", "x", "$",
        ],
    );
    for round in 0..3000 {
        let reference = if round % 2 == 0 { Some(texts.text(2)) } else { None };
        let h = hook(texts.text(6), texts.text(2), texts.text(2), texts.text(2), reference);
        let previous = texts.text(2);
        let current = texts.text(2);
        let want = h
            .command
            .replace("${HOOK_ID}", &h.id)
            .replace("${HOOK_NAME}", &h.name)
            .replace("${HOOK_SOURCE}", "p4")
            .replace("${HOOK_TARGET}", &h.target)
            .replace("${HOOK_REF}", h.reference.as_deref().unwrap_or("HEAD"))
            .replace("${HOOK_PREVIOUS}", &previous)
            .replace("${HOOK_CURRENT}", &current);
        assert_eq!(render_command_template(&h, &previous, &current), want);
    }
}

#[test]
fn shell_quotes_agree_with_std() {
    let mut texts = Texts::new(6, &["'", "\"", " ", "a", "/", "\\"]);
    for _ in 0..1000 {
        let raw = texts.text(6);
        assert_eq!(shell_quote(&raw), format!("'{}'", raw.replace('\'', "'\"'\"'")));
    }
}

fn std_mask(key: &str) -> String {
    if key.len() <= 8 {
        return "****".to_string();
    }
    format!("{}****{}", &key[..4], &key[key.len() - 4..])
}

#[test]
fn masks_agree_with_std_where_the_ends_are_whole_characters() {
    let mut texts = Texts::new(7, &["a", "b", "-", "é", "智", "😀"]);
    let mut compared = 0;
    for _ in 0..4000 {
        let key = texts.text(12);
        if key.len() > 8 && !(key.is_char_boundary(4) && key.is_char_boundary(key.len() - 4)) {
            continue;
        }
        compared += 1;
        assert_eq!(mask_api_key(&key), std_mask(&key), "{key:?}");
    }
    assert!(compared > 1000);
}
