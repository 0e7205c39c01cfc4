//! Hooks: watchers that fire a command when the signature of a Git or
//! Perforce target changes.

use vstd::prelude::*;
use crate::ident::{fresh_id, timestamp_now};
use crate::jobs::opt_text;
use crate::pattern::{lemma_replaced_absent, occurs_in, replace, replace_char, replaced,
    replaced_char};
use crate::shell::{shell_fault_message, ShellError, ShellFault, ShellOutput};
use crate::text::{append, append_str, chars_of, str_eq, string_of, trim, trimmed};
use crate::words::{find_nonblank_line, first_nonblank_line};

verus! {

/// Where a hook reads its signature from.
#[derive(Debug, Clone, Copy, PartialEq, Eq)]
pub enum HookSource {
    Git,
    P4,
}

/// The name of a source as it is written in commands and logs.
pub open spec fn source_text(source: HookSource) -> Seq<char> {
    match source {
        HookSource::Git => "git"@,
        HookSource::P4 => "p4"@,
    }
}

impl HookSource {
    /// The name of the source as it is written in commands and logs.
    pub fn as_str(&self) -> (name: &'static str)
        ensures
            name@ == source_text(*self),
    {
        match self {
            HookSource::Git => "git",
            HookSource::P4 => "p4",
        }
    }
}

/// A watcher on a Git repository or a Perforce depot path.
#[derive(Debug, Clone)]
pub struct Hook {
    pub id: String,
    pub name: String,
    pub source: HookSource,
    pub target: String,
    pub reference: Option<String>,
    pub interval_secs: u64,
    pub command: String,
    pub enabled: bool,
    pub retry_max: u8,
    pub created_at: String,
    /// A file of rules for a model to judge the change by, in place of
    /// running `command`.
    pub rules_file: Option<String>,
    /// Where the model's report is appended.
    pub report_file: Option<String>,
}

/// What a `Hook` holds, as plain values.
pub struct HookView {
    pub id: Seq<char>,
    pub name: Seq<char>,
    pub source: HookSource,
    pub target: Seq<char>,
    pub reference: Option<Seq<char>>,
    pub interval_secs: u64,
    pub command: Seq<char>,
    pub enabled: bool,
    pub retry_max: u8,
    pub created_at: Seq<char>,
    pub rules_file: Option<Seq<char>>,
    pub report_file: Option<Seq<char>>,
}

impl View for Hook {
    type V = HookView;

    open spec fn view(&self) -> HookView {
        HookView {
            id: self.id@,
            name: self.name@,
            source: self.source,
            target: self.target@,
            reference: opt_text(self.reference),
            interval_secs: self.interval_secs,
            command: self.command@,
            enabled: self.enabled,
            retry_max: self.retry_max,
            created_at: self.created_at@,
            rules_file: opt_text(self.rules_file),
            report_file: opt_text(self.report_file),
        }
    }
}

/// A copy of an optional text.
pub fn copy_opt(text: &Option<String>) -> (copy: Option<String>)
    ensures
        opt_text(copy) == opt_text(*text),
{
    match text {
        Some(t) => Some(t.clone()),
        None => None,
    }
}

impl Hook {
    /// A hook polls at least one second apart.
    pub open spec fn wf(&self) -> bool {
        self.interval_secs >= 1
    }

    /// A copy that holds the same values.
    pub fn duplicate(&self) -> (copy: Hook)
        ensures
            copy@ == self@,
    {
        Hook {
            id: self.id.clone(),
            name: self.name.clone(),
            source: self.source,
            target: self.target.clone(),
            reference: copy_opt(&self.reference),
            interval_secs: self.interval_secs,
            command: self.command.clone(),
            enabled: self.enabled,
            retry_max: self.retry_max,
            created_at: self.created_at.clone(),
            rules_file: copy_opt(&self.rules_file),
            report_file: copy_opt(&self.report_file),
        }
    }
}

/// Why a hook was rejected.
#[derive(Debug, Clone, Copy, PartialEq, Eq)]
pub enum HookError {
    /// A polling interval of zero seconds.
    ZeroInterval,
}

impl HookError {
    /// The text that reports this error.
    pub fn message(&self) -> (text: String)
        ensures
            text@ == "Invalid interval `0`. Expected >= 1 second."@,
    {
        crate::text::owned("Invalid interval `0`. Expected >= 1 second.")
    }
}

/// Accepts a polling interval of at least one second.
pub fn validate_interval(interval_secs: u64) -> (r: Result<(), HookError>)
    ensures
        r is Err <==> interval_secs == 0,
{
    if interval_secs == 0 {
        Err(HookError::ZeroInterval)
    } else {
        Ok(())
    }
}

// ---------------------------------------------------------------------------
// The command template
// ---------------------------------------------------------------------------

/// The reference a hook reads: the one it names, or `HEAD`.
pub open spec fn reference_or_head(reference: Option<Seq<char>>) -> Seq<char> {
    match reference {
        Some(r) => r,
        None => "HEAD"@,
    }
}

/// The command of a hook with its placeholders filled in.
///
/// The placeholders are replaced one kind after the other, each wherever it
/// stands in the text at that point, by plain substitution: identifier, name,
/// source, target, reference, previous signature, current signature.
pub open spec fn rendered(hook: HookView, previous: Seq<char>, current: Seq<char>) -> Seq<char> {
    let a = replaced(hook.command, "${HOOK_ID}"@, hook.id);
    let b = replaced(a, "${HOOK_NAME}"@, hook.name);
    let c = replaced(b, "${HOOK_SOURCE}"@, source_text(hook.source));
    let d = replaced(c, "${HOOK_TARGET}"@, hook.target);
    let e = replaced(d, "${HOOK_REF}"@, reference_or_head(hook.reference));
    let f = replaced(e, "${HOOK_PREVIOUS}"@, previous);
    replaced(f, "${HOOK_CURRENT}"@, current)
}

/// No placeholder stands in `text`.
pub open spec fn placeholder_free(text: Seq<char>) -> bool {
    &&& !occurs_in(text, "${HOOK_ID}"@)
    &&& !occurs_in(text, "${HOOK_NAME}"@)
    &&& !occurs_in(text, "${HOOK_SOURCE}"@)
    &&& !occurs_in(text, "${HOOK_TARGET}"@)
    &&& !occurs_in(text, "${HOOK_REF}"@)
    &&& !occurs_in(text, "${HOOK_PREVIOUS}"@)
    &&& !occurs_in(text, "${HOOK_CURRENT}"@)
}

/// A command without any of the seven placeholders is rendered as it stands,
/// whatever else it holds.
pub proof fn lemma_render_without_placeholders(
    hook: HookView,
    previous: Seq<char>,
    current: Seq<char>,
)
    requires
        placeholder_free(hook.command),
    ensures
        rendered(hook, previous, current) == hook.command,
{
    let t = hook.command;
    lemma_replaced_absent(t, "${HOOK_ID}"@, hook.id);
    lemma_replaced_absent(t, "${HOOK_NAME}"@, hook.name);
    lemma_replaced_absent(t, "${HOOK_SOURCE}"@, source_text(hook.source));
    lemma_replaced_absent(t, "${HOOK_TARGET}"@, hook.target);
    lemma_replaced_absent(t, "${HOOK_REF}"@, reference_or_head(hook.reference));
    lemma_replaced_absent(t, "${HOOK_PREVIOUS}"@, previous);
    lemma_replaced_absent(t, "${HOOK_CURRENT}"@, current);
}

/// Fills the placeholders of a hook's command.
pub fn render_command_template(hook: &Hook, previous: &str, current: &str) -> (out: String)
    ensures
        out@ == rendered(hook@, previous@, current@),
{
    let reference = match &hook.reference {
        Some(r) => chars_of(r.as_str()),
        None => chars_of("HEAD"),
    };
    let text = chars_of(hook.command.as_str());
    let text = replace(&text, &chars_of("${HOOK_ID}"), &chars_of(hook.id.as_str()));
    let text = replace(&text, &chars_of("${HOOK_NAME}"), &chars_of(hook.name.as_str()));
    let text = replace(&text, &chars_of("${HOOK_SOURCE}"), &chars_of(hook.source.as_str()));
    let text = replace(&text, &chars_of("${HOOK_TARGET}"), &chars_of(hook.target.as_str()));
    let text = replace(&text, &chars_of("${HOOK_REF}"), &reference);
    let text = replace(&text, &chars_of("${HOOK_PREVIOUS}"), &chars_of(previous));
    let text = replace(&text, &chars_of("${HOOK_CURRENT}"), &chars_of(current));
    string_of(&text)
}

// ---------------------------------------------------------------------------
// Reading a signature
// ---------------------------------------------------------------------------

/// A text between single quotes, safe as one word of a shell command: each
/// single quote inside it is written as `'"'"'`.
pub open spec fn shell_quoted(raw: Seq<char>) -> Seq<char> {
    "'"@ + replaced_char(raw, '\'', "'\"'\"'"@) + "'"@
}

/// Quotes a text as one word of a shell command.
pub fn shell_quote(raw: &str) -> (out: String)
    ensures
        out@ == shell_quoted(raw@),
{
    let quoted = quote_chars(&chars_of(raw));
    string_of(&quoted)
}

fn quote_chars(raw: &Vec<char>) -> (out: Vec<char>)
    ensures
        out@ == shell_quoted(raw@),
{
    let escaped = replace_char(raw, '\'', &chars_of("'\"'\"'"));
    let mut out: Vec<char> = Vec::new();
    append_str(&mut out, "'");
    append(&mut out, &escaped);
    append_str(&mut out, "'");
    assert(out@ =~= shell_quoted(raw@));
    out
}

/// The shell command that prints the state of a hook's target: for Git the
/// commit that the reference resolves to, for Perforce the latest change.
pub open spec fn signature_query(hook: HookView) -> Seq<char> {
    match hook.source {
        HookSource::Git => "git -C "@ + shell_quoted(hook.target) + " rev-parse "@ + shell_quoted(
            reference_or_head(hook.reference),
        ),
        HookSource::P4 => "p4 changes -m 1 "@ + shell_quoted(hook.target),
    }
}

/// Builds the shell command that prints the state of a hook's target.
pub fn signature_command(hook: &Hook) -> (command: String)
    ensures
        command@ == signature_query(hook@),
{
    let mut out: Vec<char> = Vec::new();
    let target = quote_chars(&chars_of(hook.target.as_str()));
    match hook.source {
        HookSource::Git => {
            let reference = match &hook.reference {
                Some(r) => chars_of(r.as_str()),
                None => chars_of("HEAD"),
            };
            append_str(&mut out, "git -C ");
            append(&mut out, &target);
            append_str(&mut out, " rev-parse ");
            append(&mut out, &quote_chars(&reference));
        },
        HookSource::P4 => {
            append_str(&mut out, "p4 changes -m 1 ");
            append(&mut out, &target);
        },
    }
    assert(out@ =~= signature_query(hook@));
    string_of(&out)
}

/// Why a poll gave no signature.
#[derive(Debug, Clone)]
pub enum PollError {
    /// The query command failed.
    Command { error: ShellError },
    /// `git rev-parse` printed nothing.
    EmptyGit { repo: String },
    /// `p4 changes` printed nothing.
    EmptyP4 { depot: String },
}

/// What a `PollError` holds, as plain values.
pub enum PollFault {
    Command { fault: ShellFault },
    EmptyGit { repo: Seq<char> },
    EmptyP4 { depot: Seq<char> },
}

impl View for PollError {
    type V = PollFault;

    open spec fn view(&self) -> PollFault {
        match self {
            PollError::Command { error } => PollFault::Command { fault: error@ },
            PollError::EmptyGit { repo } => PollFault::EmptyGit { repo: repo@ },
            PollError::EmptyP4 { depot } => PollFault::EmptyP4 { depot: depot@ },
        }
    }
}

/// The text that reports a poll fault.
pub open spec fn poll_fault_message(fault: PollFault) -> Seq<char> {
    match fault {
        PollFault::Command { fault } => shell_fault_message(fault),
        PollFault::EmptyGit { repo } => "git rev-parse returned empty output for repo `"@ + repo
            + "`"@,
        PollFault::EmptyP4 { depot } => "p4 changes returned empty output for depot `"@ + depot
            + "`"@,
    }
}

impl PollError {
    /// The text that reports this error.
    pub fn message(&self) -> (text: String)
        ensures
            text@ == poll_fault_message(self@),
    {
        match self {
            PollError::Command { error } => error.message(),
            PollError::EmptyGit { repo } => {
                let mut out: Vec<char> = Vec::new();
                append_str(&mut out, "git rev-parse returned empty output for repo `");
                append_str(&mut out, repo.as_str());
                append_str(&mut out, "`");
                string_of(&out)
            },
            PollError::EmptyP4 { depot } => {
                let mut out: Vec<char> = Vec::new();
                append_str(&mut out, "p4 changes returned empty output for depot `");
                append_str(&mut out, depot.as_str());
                append_str(&mut out, "`");
                string_of(&out)
            },
        }
    }
}

/// The signature that the output of the query command holds.
///
/// For Git it is the trimmed output; for Perforce the first line that is not
/// blank, trimmed. An output without one is a fault.
pub open spec fn signature_in(hook: HookView, stdout: Seq<char>) -> Result<Seq<char>, PollFault> {
    match hook.source {
        HookSource::Git => if trimmed(stdout).len() == 0 {
            Err(PollFault::EmptyGit { repo: hook.target })
        } else {
            Ok(trimmed(stdout))
        },
        HookSource::P4 => match first_nonblank_line(stdout) {
            Some(line) => Ok(line),
            None => Err(PollFault::EmptyP4 { depot: hook.target }),
        },
    }
}

/// A poll result as plain values.
pub open spec fn poll_outcome(r: Result<String, PollError>) -> Result<Seq<char>, PollFault> {
    match r {
        Ok(signature) => Ok(signature@),
        Err(e) => Err(e@),
    }
}

/// A line that `first_nonblank_line` finds is not empty.
pub proof fn lemma_nonblank_line_not_empty(s: Seq<char>)
    ensures
        first_nonblank_line(s) is Some ==> first_nonblank_line(s)->0.len() > 0,
    decreases s.len(),
{
    if s.len() > 0 {
        let n = crate::words::line_len(s);
        crate::words::lemma_line_len_bound(s);
        if trimmed(s.take(n as int)).len() == 0 && n < s.len() {
            lemma_nonblank_line_not_empty(s.skip(n as int + 1));
        }
    }
}

/// Reads the signature of a hook's target from the outcome of the query
/// command. A failed command is a fault that carries the failure; a
/// signature is never empty.
pub fn read_signature(hook: &Hook, outcome: &Result<ShellOutput, ShellError>) -> (r: Result<
    String,
    PollError,
>)
    ensures
        match outcome {
            Ok(output) => poll_outcome(r) == signature_in(hook@, output.stdout@),
            Err(error) => poll_outcome(r) == Err::<Seq<char>, PollFault>(
                PollFault::Command { fault: error@ },
            ),
        },
        r is Ok ==> r->Ok_0@.len() > 0,
{
    match outcome {
        Err(error) => Err(PollError::Command { error: copy_shell_error(error) }),
        Ok(output) => {
            let stdout = chars_of(output.stdout.as_str());
            match hook.source {
                HookSource::Git => {
                    let signature = trim(&stdout);
                    if signature.len() == 0 {
                        Err(PollError::EmptyGit { repo: hook.target.clone() })
                    } else {
                        Ok(string_of(&signature))
                    }
                },
                HookSource::P4 => {
                    proof {
                        lemma_nonblank_line_not_empty(stdout@);
                    }
                    match find_nonblank_line(&stdout) {
                        Some(line) => Ok(string_of(&line)),
                        None => Err(PollError::EmptyP4 { depot: hook.target.clone() }),
                    }
                },
            }
        },
    }
}

fn copy_shell_error(error: &ShellError) -> (copy: ShellError)
    ensures
        copy@ == error@,
{
    match error {
        ShellError::Blocked => ShellError::Blocked,
        ShellError::NotStarted { reason } => ShellError::NotStarted { reason: reason.clone() },
        ShellError::Failed { exit_code, stdout, stderr } => ShellError::Failed {
            exit_code: *exit_code,
            stdout: stdout.clone(),
            stderr: stderr.clone(),
        },
    }
}

// ---------------------------------------------------------------------------
// The hook list
// ---------------------------------------------------------------------------

/// What a list of hooks holds.
pub open spec fn hook_views(hooks: Seq<Hook>) -> Seq<HookView> {
    hooks.map_values(|h: Hook| h@)
}

/// The record of a new hook: enabled, and named `hook-<id>` unless a name is
/// given.
pub open spec fn new_hook_view(
    id: Seq<char>,
    created_at: Seq<char>,
    source: HookSource,
    target: Seq<char>,
    reference: Option<Seq<char>>,
    interval_secs: u64,
    command: Seq<char>,
    name: Option<Seq<char>>,
    retry_max: u8,
    rules_file: Option<Seq<char>>,
    report_file: Option<Seq<char>>,
) -> HookView {
    HookView {
        id,
        name: match name {
            Some(n) => n,
            None => "hook-"@ + id,
        },
        source,
        target,
        reference,
        interval_secs,
        command,
        enabled: true,
        retry_max,
        created_at,
        rules_file,
        report_file,
    }
}

/// Builds the record of a new hook from its identifier, its creation stamp
/// and what the user gave.
pub fn new_hook(
    id: String,
    created_at: String,
    source: HookSource,
    target: String,
    reference: Option<String>,
    interval_secs: u64,
    command: String,
    name: Option<String>,
    retry_max: u8,
    rules_file: Option<String>,
    report_file: Option<String>,
) -> (hook: Hook)
    ensures
        hook@ == new_hook_view(
            id@,
            created_at@,
            source,
            target@,
            opt_text(reference),
            interval_secs,
            command@,
            opt_text(name),
            retry_max,
            opt_text(rules_file),
            opt_text(report_file),
        ),
{
    let name = match name {
        Some(n) => n,
        None => {
            let mut out: Vec<char> = Vec::new();
            append_str(&mut out, "hook-");
            append_str(&mut out, id.as_str());
            string_of(&out)
        },
    };
    Hook {
        id,
        name,
        source,
        target,
        reference,
        interval_secs,
        command,
        enabled: true,
        retry_max,
        created_at,
        rules_file,
        report_file,
    }
}

/// Adds a hook on a Git repository to the list.
///
/// An interval of zero is rejected and the list stays as it is. Otherwise
/// the list gains, at its end, an enabled hook with a fresh identifier and
/// creation stamp and the given values; the hook is returned.
pub fn add_git_hook(
    hooks: &mut Vec<Hook>,
    repo: String,
    reference: Option<String>,
    interval_secs: u64,
    command: String,
    name: Option<String>,
    retry_max: u8,
    rules_file: Option<String>,
    report_file: Option<String>,
) -> (r: Result<Hook, HookError>)
    ensures
        r is Err <==> interval_secs == 0,
        r is Err ==> *final(hooks) == *old(hooks),
        r is Ok ==> {
            let hook = r->Ok_0;
            &&& hook.wf()
            &&& hook@ == new_hook_view(
                hook.id@,
                hook.created_at@,
                HookSource::Git,
                repo@,
                opt_text(reference),
                interval_secs,
                command@,
                opt_text(name),
                retry_max,
                opt_text(rules_file),
                opt_text(report_file),
            )
            &&& hook_views(final(hooks)@) == hook_views(old(hooks)@).push(hook@)
        },
{
    match validate_interval(interval_secs) {
        Err(e) => Err(e),
        Ok(_) => {
            let hook = new_hook(
                fresh_id(),
                timestamp_now(),
                HookSource::Git,
                repo,
                reference,
                interval_secs,
                command,
                name,
                retry_max,
                rules_file,
                report_file,
            );
            hooks.push(hook.duplicate());
            assert(hook_views(hooks@) =~= hook_views(old(hooks)@).push(hook@));
            Ok(hook)
        },
    }
}

/// Adds a hook on a Perforce depot path to the list; it names no reference.
///
/// An interval of zero is rejected and the list stays as it is. Otherwise
/// the list gains, at its end, an enabled hook with a fresh identifier and
/// creation stamp and the given values; the hook is returned.
pub fn add_p4_hook(
    hooks: &mut Vec<Hook>,
    depot: String,
    interval_secs: u64,
    command: String,
    name: Option<String>,
    retry_max: u8,
    rules_file: Option<String>,
    report_file: Option<String>,
) -> (r: Result<Hook, HookError>)
    ensures
        r is Err <==> interval_secs == 0,
        r is Err ==> *final(hooks) == *old(hooks),
        r is Ok ==> {
            let hook = r->Ok_0;
            &&& hook.wf()
            &&& hook@ == new_hook_view(
                hook.id@,
                hook.created_at@,
                HookSource::P4,
                depot@,
                None,
                interval_secs,
                command@,
                opt_text(name),
                retry_max,
                opt_text(rules_file),
                opt_text(report_file),
            )
            &&& hook_views(final(hooks)@) == hook_views(old(hooks)@).push(hook@)
        },
{
    match validate_interval(interval_secs) {
        Err(e) => Err(e),
        Ok(_) => {
            let hook = new_hook(
                fresh_id(),
                timestamp_now(),
                HookSource::P4,
                depot,
                None,
                interval_secs,
                command,
                name,
                retry_max,
                rules_file,
                report_file,
            );
            hooks.push(hook.duplicate());
            assert(hook_views(hooks@) =~= hook_views(old(hooks)@).push(hook@));
            Ok(hook)
        },
    }
}

/// The hooks whose identifier is not `id`, in their order.
pub open spec fn hooks_without_id(hooks: Seq<HookView>, id: Seq<char>) -> Seq<HookView> {
    hooks.filter(|h: HookView| h.id != id)
}

/// Some hook has the identifier `id`.
pub open spec fn has_hook_id(hooks: Seq<HookView>, id: Seq<char>) -> bool {
    exists|i: int| 0 <= i < hooks.len() && (#[trigger] hooks[i]).id == id
}

/// Dropping the hooks with an identifier from a list that ends in `last`.
pub proof fn lemma_hooks_without_id_push(hooks: Seq<HookView>, last: HookView, id: Seq<char>)
    ensures
        hooks_without_id(hooks.push(last), id) == if last.id != id {
            hooks_without_id(hooks, id).push(last)
        } else {
            hooks_without_id(hooks, id)
        },
{
    reveal(Seq::filter);
    assert(hooks.push(last).drop_last() =~= hooks);
}

/// Removing an identifier that no hook has leaves the list as it is.
pub proof fn lemma_remove_unknown_hook_id(hooks: Seq<HookView>, id: Seq<char>)
    requires
        !has_hook_id(hooks, id),
    ensures
        hooks_without_id(hooks, id) == hooks,
    decreases hooks.len(),
{
    reveal(Seq::filter);
    if hooks.len() > 0 {
        let init = hooks.drop_last();
        assert forall|i: int| 0 <= i < init.len() implies (#[trigger] init[i]).id != id by {
            assert(init[i] == hooks[i]);
        }
        lemma_remove_unknown_hook_id(init, id);
        assert(hooks.last() == hooks[hooks.len() - 1]);
        assert(hooks =~= init.push(hooks.last()));
    }
}

/// Removes the hooks with the identifier `id` and says whether there was one.
/// The other hooks stay, in their order.
pub fn remove_hook(hooks: &mut Vec<Hook>, id: &str) -> (removed: bool)
    ensures
        hook_views(final(hooks)@) == hooks_without_id(hook_views(old(hooks)@), id@),
        removed == has_hook_id(hook_views(old(hooks)@), id@),
        !removed ==> hook_views(final(hooks)@) == hook_views(old(hooks)@),
{
    let ghost before = hook_views(hooks@);
    let mut kept: Vec<Hook> = Vec::new();
    let mut i: usize = 0;
    proof {
        reveal(Seq::filter);
        assert(before.take(0) =~= Seq::<HookView>::empty());
        assert(hook_views(kept@) =~= Seq::<HookView>::empty());
    }
    while i < hooks.len()
        invariant
            i <= hooks.len(),
            before == hook_views(hooks@),
            hook_views(kept@) == hooks_without_id(before.take(i as int), id@),
            kept.len() <= i,
            kept.len() == i <==> !has_hook_id(before.take(i as int), id@),
        decreases hooks.len() - i,
    {
        let ghost seen = before.take(i as int);
        let ghost views = hook_views(kept@);
        proof {
            assert(before.take(i + 1) =~= seen.push(before[i as int]));
            lemma_hooks_without_id_push(seen, before[i as int], id@);
            assert(before[i as int] == hooks@[i as int]@);
        }
        if !str_eq(hooks[i].id.as_str(), id) {
            kept.push(hooks[i].duplicate());
            proof {
                assert(hook_views(kept@) =~= views.push(before[i as int]));
                if has_hook_id(before.take(i + 1), id@) {
                    let k = choose|k: int|
                        0 <= k < before.take(i + 1).len() && (#[trigger] before.take(
                            i + 1,
                        )[k]).id == id@;
                    assert(seen[k].id == id@);
                }
                if has_hook_id(seen, id@) {
                    let k = choose|k: int| 0 <= k < seen.len() && (#[trigger] seen[k]).id == id@;
                    assert(before.take(i + 1)[k].id == id@);
                }
            }
        } else {
            proof {
                assert(before.take(i + 1)[i as int].id == id@);
            }
        }
        i += 1;
    }
    proof {
        assert(before.take(hooks.len() as int) =~= before);
        if !has_hook_id(before, id@) {
            lemma_remove_unknown_hook_id(before, id@);
        }
    }
    let removed = kept.len() != hooks.len();
    *hooks = kept;
    removed
}

} // verus!
