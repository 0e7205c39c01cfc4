use goldagent::connect::ConnectProvider;
use goldagent::provider::{build_codex_prompt, provider_key, trim_history, ChatMessage};
use goldagent::usage::{add_counter, UsageCounter, UsageEvent};

#[test]
fn message_roles() {
    let m = ChatMessage::system("s".to_string());
    assert_eq!((m.role.as_str(), m.content.as_str()), ("system", "s"));
    let m = ChatMessage::user("u".to_string());
    assert_eq!((m.role.as_str(), m.content.as_str()), ("user", "u"));
    let m = ChatMessage::assistant("a".to_string());
    assert_eq!((m.role.as_str(), m.content.as_str()), ("assistant", "a"));
}

#[test]
fn builds_the_prompt() {
    let messages = vec![
        ChatMessage::system("be brief".to_string()),
        ChatMessage::user("hi".to_string()),
        ChatMessage::assistant("hello".to_string()),
        ChatMessage { role: "tool".to_string(), content: "x".to_string() },
    ];
    assert_eq!(
        build_codex_prompt(&messages),
        "You are GoldAgent.\nReturn only the final assistant response text, no extra wrappers.\n\nConversation:\nSystem:\nbe brief\n\nUser:\nhi\n\nAssistant:\nhello\n\nMessage:\nx\n\n"
    );
    assert_eq!(
        build_codex_prompt(&Vec::new()),
        "You are GoldAgent.\nReturn only the final assistant response text, no extra wrappers.\n\nConversation:\n"
    );
}

#[test]
fn trims_the_history() {
    let all: Vec<ChatMessage> = ["s", "1", "2", "3", "4"]
        .iter()
        .map(|c| ChatMessage::user(c.to_string()))
        .collect();
    let contents = |v: &Vec<ChatMessage>| -> Vec<String> {
        v.iter().map(|m| m.content.clone()).collect()
    };
    let mut m = all.clone();
    trim_history(&mut m, 2);
    assert_eq!(contents(&m), vec!["s", "3", "4"]);
    let mut m = all.clone();
    trim_history(&mut m, 4);
    assert_eq!(contents(&m), vec!["s", "1", "2", "3", "4"]);
    let mut m = all.clone();
    trim_history(&mut m, 0);
    assert_eq!(contents(&m), vec!["s"]);
    let mut m: Vec<ChatMessage> = Vec::new();
    trim_history(&mut m, 3);
    assert!(m.is_empty());
}

#[test]
fn provider_keys() {
    assert_eq!(provider_key(&ConnectProvider::OpenAi), "openai");
    assert_eq!(provider_key(&ConnectProvider::Anthropic), "anthropic");
    assert_eq!(provider_key(&ConnectProvider::Zhipu), "zhipu");
}

#[test]
fn counts_usage() {
    let mut counter = UsageCounter::default();
    let event = UsageEvent { model_key: "m".to_string(), input_tokens: 10, output_tokens: 4 };
    add_counter(&mut counter, &event);
    add_counter(&mut counter, &event);
    assert_eq!(counter, UsageCounter { requests: 2, input_tokens: 20, output_tokens: 8 });
    let mut full = UsageCounter { requests: u64::MAX, input_tokens: u64::MAX - 5, output_tokens: 0 };
    add_counter(&mut full, &event);
    assert_eq!(
        full,
        UsageCounter { requests: u64::MAX, input_tokens: u64::MAX, output_tokens: 4 }
    );
}
