use goldagent::connect::{
    account_label, effective_api_key, mask_api_key, mode_label, provider_env_var, provider_label,
    set_login, zhipu_api_type_label, ConnectConfig, ConnectMode, ConnectProvider, ZhipuApiType,
};

#[test]
fn default_connection() {
    let cfg = ConnectConfig::default();
    assert_eq!(cfg.provider, ConnectProvider::OpenAi);
    assert_eq!(cfg.mode, ConnectMode::CodexLogin);
    assert_eq!(cfg.model, None);
    assert_eq!(cfg.api_key, None);
    assert_eq!(cfg.zhipu_api_type, ZhipuApiType::Coding);
}

#[test]
fn labels() {
    assert_eq!(provider_label(&ConnectProvider::OpenAi), "OpenAI");
    assert_eq!(provider_label(&ConnectProvider::Anthropic), "Anthropic");
    assert_eq!(provider_label(&ConnectProvider::Zhipu), "智谱");
    assert_eq!(mode_label(&ConnectMode::CodexLogin), "登录态(Codex)");
    assert_eq!(mode_label(&ConnectMode::OpenAIApi), "API Key");
    assert_eq!(provider_env_var(&ConnectProvider::OpenAi), "OPENAI_API_KEY");
    assert_eq!(provider_env_var(&ConnectProvider::Anthropic), "ANTHROPIC_API_KEY");
    assert_eq!(provider_env_var(&ConnectProvider::Zhipu), "ZHIPU_API_KEY");
    assert_eq!(zhipu_api_type_label(ZhipuApiType::General), "普通 API");
    assert_eq!(zhipu_api_type_label(ZhipuApiType::Coding), "Coding Plan API");
}

#[test]
fn masks_keys() {
    assert_eq!(mask_api_key(""), "****");
    assert_eq!(mask_api_key("12345678"), "****");
    assert_eq!(mask_api_key("123456789"), "1234****6789");
    assert_eq!(mask_api_key("sk-abcdefghijklmnop"), "sk-a****mnop");
    assert_eq!(mask_api_key("智谱"), "****");
    assert_eq!(mask_api_key("ab智谱智谱cd"), "ab****cd");
    assert_eq!(mask_api_key("éé1234567éé"), "éé****éé");
}

#[test]
fn stored_key_comes_before_the_environment() {
    let mut cfg = ConnectConfig::default();
    assert_eq!(effective_api_key(&cfg, None), None);
    assert_eq!(effective_api_key(&cfg, Some("env".to_string())), Some("env".to_string()));
    cfg.api_key = Some("stored".to_string());
    assert_eq!(effective_api_key(&cfg, Some("env".to_string())), Some("stored".to_string()));
}

#[test]
fn account_lines() {
    let mut cfg = ConnectConfig::default();
    assert_eq!(account_label(&cfg, Some("Logged in".to_string()), None), "Logged in");
    assert_eq!(account_label(&cfg, None, None), "未知（可运行 `codex login status` 检查）");
    cfg.mode = ConnectMode::OpenAIApi;
    cfg.provider = ConnectProvider::Zhipu;
    assert_eq!(account_label(&cfg, None, None), "API Key 未配置（ZHIPU_API_KEY）");
    assert_eq!(
        account_label(&cfg, None, Some("0123456789abcdef".to_string())),
        "API Key(ZHIPU_API_KEY): 0123****cdef"
    );
}

#[test]
fn login_switches_to_openai() {
    let mut cfg = ConnectConfig::default();
    cfg.provider = ConnectProvider::Zhipu;
    cfg.mode = ConnectMode::OpenAIApi;
    cfg.api_key = Some("k".to_string());
    cfg.zhipu_api_type = ZhipuApiType::General;
    let out = set_login(cfg.clone(), None);
    assert_eq!(out.provider, ConnectProvider::OpenAi);
    assert_eq!(out.mode, ConnectMode::CodexLogin);
    assert_eq!(out.model.as_deref(), Some("gpt-5.3-codex"));
    assert_eq!(out.api_key.as_deref(), Some("k"));
    assert_eq!(out.zhipu_api_type, ZhipuApiType::General);
    let out = set_login(cfg, Some("gpt-5.2".to_string()));
    assert_eq!(out.model.as_deref(), Some("gpt-5.2"));
}
