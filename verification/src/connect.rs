//! The connection to a model provider: which provider, how it is reached,
//! which model, and the key. Reading and writing the stored connection is
//! the caller's part.

use vstd::prelude::*;
use crate::jobs::opt_text;
use crate::text::{append, append_str, byte_len, char_width, chars_of, owned, shorter_than,
    slice_of, string_of, utf8_width};

verus! {

/// A model provider.
#[derive(Debug, Clone, Copy, PartialEq, Eq)]
pub enum ConnectProvider {
    OpenAi,
    Anthropic,
    Zhipu,
}

/// How the provider is reached.
#[derive(Debug, Clone, Copy, PartialEq, Eq)]
pub enum ConnectMode {
    /// Through the login of the Codex command-line tool.
    CodexLogin,
    /// With an API key.
    OpenAIApi,
}

/// Which of Zhipu's two APIs is used.
#[derive(Debug, Clone, Copy, PartialEq, Eq)]
pub enum ZhipuApiType {
    General,
    Coding,
}

/// The stored connection.
#[derive(Debug, Clone)]
pub struct ConnectConfig {
    pub provider: ConnectProvider,
    pub mode: ConnectMode,
    pub model: Option<String>,
    pub api_key: Option<String>,
    pub zhipu_api_type: ZhipuApiType,
}

/// What a `ConnectConfig` holds, as plain values.
pub struct ConnectConfigView {
    pub provider: ConnectProvider,
    pub mode: ConnectMode,
    pub model: Option<Seq<char>>,
    pub api_key: Option<Seq<char>>,
    pub zhipu_api_type: ZhipuApiType,
}

impl View for ConnectConfig {
    type V = ConnectConfigView;

    open spec fn view(&self) -> ConnectConfigView {
        ConnectConfigView {
            provider: self.provider,
            mode: self.mode,
            model: opt_text(self.model),
            api_key: opt_text(self.api_key),
            zhipu_api_type: self.zhipu_api_type,
        }
    }
}

impl Default for ConnectConfig {
    /// OpenAI through the Codex login, with no model and no key chosen.
    fn default() -> (cfg: ConnectConfig)
        ensures
            cfg@ == (ConnectConfigView {
                provider: ConnectProvider::OpenAi,
                mode: ConnectMode::CodexLogin,
                model: None,
                api_key: None,
                zhipu_api_type: ZhipuApiType::Coding,
            }),
    {
        ConnectConfig {
            provider: ConnectProvider::OpenAi,
            mode: ConnectMode::CodexLogin,
            model: None,
            api_key: None,
            zhipu_api_type: ZhipuApiType::Coding,
        }
    }
}

// ---------------------------------------------------------------------------
// Names and labels
// ---------------------------------------------------------------------------

/// The name of a provider as shown to the user.
pub open spec fn provider_label_text(provider: ConnectProvider) -> Seq<char> {
    match provider {
        ConnectProvider::OpenAi => "OpenAI"@,
        ConnectProvider::Anthropic => "Anthropic"@,
        ConnectProvider::Zhipu => "智谱"@,
    }
}

/// Gives the name of a provider as shown to the user.
pub fn provider_label(provider: &ConnectProvider) -> (label: &'static str)
    ensures
        label@ == provider_label_text(*provider),
{
    match provider {
        ConnectProvider::OpenAi => "OpenAI",
        ConnectProvider::Anthropic => "Anthropic",
        ConnectProvider::Zhipu => "智谱",
    }
}

/// The name of a mode as shown to the user.
pub open spec fn mode_label_text(mode: ConnectMode) -> Seq<char> {
    match mode {
        ConnectMode::CodexLogin => "登录态(Codex)"@,
        ConnectMode::OpenAIApi => "API Key"@,
    }
}

/// Gives the name of a mode as shown to the user.
pub fn mode_label(mode: &ConnectMode) -> (label: &'static str)
    ensures
        label@ == mode_label_text(*mode),
{
    match mode {
        ConnectMode::CodexLogin => "登录态(Codex)",
        ConnectMode::OpenAIApi => "API Key",
    }
}

/// The environment variable that holds a provider's key.
pub open spec fn env_var_name(provider: ConnectProvider) -> Seq<char> {
    match provider {
        ConnectProvider::OpenAi => "OPENAI_API_KEY"@,
        ConnectProvider::Anthropic => "ANTHROPIC_API_KEY"@,
        ConnectProvider::Zhipu => "ZHIPU_API_KEY"@,
    }
}

/// Gives the name of the environment variable that holds a provider's key.
pub fn provider_env_var(provider: &ConnectProvider) -> (name: &'static str)
    ensures
        name@ == env_var_name(*provider),
{
    match provider {
        ConnectProvider::OpenAi => "OPENAI_API_KEY",
        ConnectProvider::Anthropic => "ANTHROPIC_API_KEY",
        ConnectProvider::Zhipu => "ZHIPU_API_KEY",
    }
}

/// The name of a Zhipu API as shown to the user.
pub open spec fn zhipu_label_text(kind: ZhipuApiType) -> Seq<char> {
    match kind {
        ZhipuApiType::General => "普通 API"@,
        ZhipuApiType::Coding => "Coding Plan API"@,
    }
}

/// Gives the name of a Zhipu API as shown to the user.
pub fn zhipu_api_type_label(kind: ZhipuApiType) -> (label: &'static str)
    ensures
        label@ == zhipu_label_text(kind),
{
    match kind {
        ZhipuApiType::General => "普通 API",
        ZhipuApiType::Coding => "Coding Plan API",
    }
}

// ---------------------------------------------------------------------------
// Keys
// ---------------------------------------------------------------------------

/// How many characters from the start of `s` fit in `budget` bytes.
pub open spec fn head_within(s: Seq<char>, budget: nat) -> nat
    decreases s.len(),
{
    if s.len() > 0 && utf8_width(s[0]) <= budget {
        1 + head_within(s.drop_first(), (budget - utf8_width(s[0])) as nat)
    } else {
        0
    }
}

/// How many characters from the end of `s` fit in `budget` bytes.
pub open spec fn tail_within(s: Seq<char>, budget: nat) -> nat
    decreases s.len(),
{
    if s.len() > 0 && utf8_width(s.last()) <= budget {
        1 + tail_within(s.drop_last(), (budget - utf8_width(s.last())) as nat)
    } else {
        0
    }
}

/// A key with all but its ends hidden: a key of at most eight bytes is
/// hidden whole; of a longer one the first four bytes and the last four stay
/// readable, as far as whole characters fit in them.
pub open spec fn masked_key(key: Seq<char>) -> Seq<char> {
    if byte_len(key) <= 8 {
        "****"@
    } else {
        key.take(head_within(key, 4) as int) + "****"@ + key.skip(
            key.len() - tail_within(key, 4),
        )
    }
}

fn count_head_within(v: &Vec<char>, budget: u64) -> (n: usize)
    ensures
        n == head_within(v@, budget as nat),
        n <= v.len(),
{
    let mut i: usize = 0;
    let mut left: u64 = budget;
    assert(v@.skip(0) =~= v@);
    while i < v.len() && char_width(v[i]) <= left
        invariant
            i <= v.len(),
            head_within(v@, budget as nat) == i + head_within(v@.skip(i as int), left as nat),
        decreases v.len() - i,
    {
        assert(v@.skip(i as int).drop_first() =~= v@.skip(i + 1));
        left = left - char_width(v[i]);
        i += 1;
    }
    i
}

fn count_tail_within(v: &Vec<char>, budget: u64) -> (n: usize)
    ensures
        n == tail_within(v@, budget as nat),
        n <= v.len(),
{
    let mut j: usize = v.len();
    let mut left: u64 = budget;
    assert(v@.take(j as int) =~= v@);
    while j > 0 && char_width(v[j - 1]) <= left
        invariant
            j <= v.len(),
            tail_within(v@, budget as nat) == (v.len() - j) + tail_within(
                v@.take(j as int),
                left as nat,
            ),
        decreases j,
    {
        assert(v@.take(j as int).drop_last() =~= v@.take(j - 1));
        left = left - char_width(v[j - 1]);
        j -= 1;
    }
    v.len() - j
}

/// Hides all but the ends of a key.
pub fn mask_api_key(key: &str) -> (out: String)
    ensures
        out@ == masked_key(key@),
{
    let v = chars_of(key);
    if shorter_than(&v, 9) {
        return owned("****");
    }
    let head: usize = count_head_within(&v, 4);
    let tail: usize = count_tail_within(&v, 4);
    let mut out = slice_of(&v, 0, head);
    append_str(&mut out, "****");
    append(&mut out, &slice_of(&v, v.len() - tail, v.len()));
    assert(out@ =~= masked_key(key@));
    string_of(&out)
}

/// The key in use: the stored one, or else the one from the environment.
pub open spec fn effective_key(cfg: ConnectConfigView, env_key: Option<Seq<char>>) -> Option<
    Seq<char>,
> {
    match cfg.api_key {
        Some(key) => Some(key),
        None => env_key,
    }
}

/// Picks the key in use; `env_key` is the value of the provider's
/// environment variable, if it is set.
pub fn effective_api_key(cfg: &ConnectConfig, env_key: Option<String>) -> (key: Option<String>)
    ensures
        opt_text(key) == effective_key(cfg@, opt_text(env_key)),
{
    match &cfg.api_key {
        Some(key) => Some(key.clone()),
        None => env_key,
    }
}

/// The account line shown for a connection.
///
/// With the Codex login it is the login status, or a hint when that is
/// unknown. With a key it names the provider's environment variable and
/// shows the key in use with all but its ends hidden, or says that none is
/// set.
pub open spec fn account_label_text(
    cfg: ConnectConfigView,
    login_status: Option<Seq<char>>,
    env_key: Option<Seq<char>>,
) -> Seq<char> {
    match cfg.mode {
        ConnectMode::CodexLogin => match login_status {
            Some(status) => status,
            None => "未知（可运行 `codex login status` 检查）"@,
        },
        ConnectMode::OpenAIApi => match effective_key(cfg, env_key) {
            Some(key) => "API Key("@ + env_var_name(cfg.provider) + "): "@ + masked_key(key),
            None => "API Key 未配置（"@ + env_var_name(cfg.provider) + "）"@,
        },
    }
}

/// Writes the account line for a connection; `login_status` is what the
/// Codex tool says of its login, if it says anything, and `env_key` is the
/// value of the provider's environment variable, if it is set.
pub fn account_label(cfg: &ConnectConfig, login_status: Option<String>, env_key: Option<String>) -> (label:
    String)
    ensures
        label@ == account_label_text(cfg@, opt_text(login_status), opt_text(env_key)),
{
    match cfg.mode {
        ConnectMode::CodexLogin => match login_status {
            Some(status) => status,
            None => owned("未知（可运行 `codex login status` 检查）"),
        },
        ConnectMode::OpenAIApi => {
            let env_var = provider_env_var(&cfg.provider);
            let mut out: Vec<char> = Vec::new();
            match effective_api_key(cfg, env_key) {
                Some(key) => {
                    append_str(&mut out, "API Key(");
                    append_str(&mut out, env_var);
                    append_str(&mut out, "): ");
                    append_str(&mut out, mask_api_key(key.as_str()).as_str());
                },
                None => {
                    append_str(&mut out, "API Key 未配置（");
                    append_str(&mut out, env_var);
                    append_str(&mut out, "）");
                },
            }
            string_of(&out)
        },
    }
}

// ---------------------------------------------------------------------------
// Changing the connection
// ---------------------------------------------------------------------------

/// The connection after a switch to the Codex login: OpenAI, with the given
/// model or else `gpt-5.3-codex`; key and Zhipu API stay.
pub open spec fn with_login(cfg: ConnectConfigView, model: Option<Seq<char>>) -> ConnectConfigView {
    ConnectConfigView {
        provider: ConnectProvider::OpenAi,
        mode: ConnectMode::CodexLogin,
        model: Some(
            match model {
                Some(m) => m,
                None => "gpt-5.3-codex"@,
            },
        ),
        api_key: cfg.api_key,
        zhipu_api_type: cfg.zhipu_api_type,
    }
}

/// Switches a connection to the Codex login.
pub fn set_login(cfg: ConnectConfig, model: Option<String>) -> (out: ConnectConfig)
    ensures
        out@ == with_login(cfg@, opt_text(model)),
{
    ConnectConfig {
        provider: ConnectProvider::OpenAi,
        mode: ConnectMode::CodexLogin,
        model: Some(
            match model {
                Some(m) => m,
                None => owned("gpt-5.3-codex"),
            },
        ),
        api_key: cfg.api_key,
        zhipu_api_type: cfg.zhipu_api_type,
    }
}

} // verus!
