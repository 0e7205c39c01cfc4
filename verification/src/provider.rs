//! Chat messages and the prompt built from a conversation.

use vstd::prelude::*;
use crate::connect::ConnectProvider;
use crate::text::{append_str, chars_of, owned, string_of, text_is};

verus! {

/// One message of a conversation.
#[derive(Debug, Clone)]
pub struct ChatMessage {
    pub role: String,
    pub content: String,
}

/// What a `ChatMessage` holds, as plain values.
pub struct ChatMessageView {
    pub role: Seq<char>,
    pub content: Seq<char>,
}

impl View for ChatMessage {
    type V = ChatMessageView;

    open spec fn view(&self) -> ChatMessageView {
        ChatMessageView { role: self.role@, content: self.content@ }
    }
}

impl ChatMessage {
    /// A message in the role `system`.
    pub fn system(content: String) -> (message: ChatMessage)
        ensures
            message@ == (ChatMessageView { role: "system"@, content: content@ }),
    {
        ChatMessage { role: owned("system"), content }
    }

    /// A message in the role `user`.
    pub fn user(content: String) -> (message: ChatMessage)
        ensures
            message@ == (ChatMessageView { role: "user"@, content: content@ }),
    {
        ChatMessage { role: owned("user"), content }
    }

    /// A message in the role `assistant`.
    pub fn assistant(content: String) -> (message: ChatMessage)
        ensures
            message@ == (ChatMessageView { role: "assistant"@, content: content@ }),
    {
        ChatMessage { role: owned("assistant"), content }
    }

    /// A copy that holds the same values.
    pub fn duplicate(&self) -> (copy: ChatMessage)
        ensures
            copy@ == self@,
    {
        ChatMessage { role: self.role.clone(), content: self.content.clone() }
    }
}

/// What a conversation holds.
pub open spec fn message_views(messages: Seq<ChatMessage>) -> Seq<ChatMessageView> {
    messages.map_values(|m: ChatMessage| m@)
}

/// The heading under which a role is shown in a prompt.
pub open spec fn role_heading(role: Seq<char>) -> Seq<char> {
    if role == "system"@ {
        "System"@
    } else if role == "user"@ {
        "User"@
    } else if role == "assistant"@ {
        "Assistant"@
    } else {
        "Message"@
    }
}

/// The part of a prompt that shows the messages: for each, in order, the
/// heading of its role and a colon, its content on the next line, and an
/// empty line.
pub open spec fn conversation_text(messages: Seq<ChatMessageView>) -> Seq<char>
    decreases messages.len(),
{
    if messages.len() == 0 {
        Seq::empty()
    } else {
        conversation_text(messages.drop_last()) + role_heading(messages.last().role) + ":\n"@
            + messages.last().content + "\n\n"@
    }
}

/// The prompt for the Codex tool: a fixed opening and the conversation.
pub open spec fn codex_prompt(messages: Seq<ChatMessageView>) -> Seq<char> {
    "You are GoldAgent.\nReturn only the final assistant response text, no extra wrappers.\n\nConversation:\n"@
        + conversation_text(messages)
}

/// Builds the prompt for the Codex tool from a conversation.
pub fn build_codex_prompt(messages: &Vec<ChatMessage>) -> (prompt: String)
    ensures
        prompt@ == codex_prompt(message_views(messages@)),
{
    let ghost all = message_views(messages@);
    let ghost opening =
        "You are GoldAgent.\nReturn only the final assistant response text, no extra wrappers.\n\nConversation:\n"@;
    let mut out: Vec<char> = Vec::new();
    append_str(
        &mut out,
        "You are GoldAgent.\nReturn only the final assistant response text, no extra wrappers.\n\nConversation:\n",
    );
    let mut i: usize = 0;
    proof {
        assert(all.take(0) =~= Seq::<ChatMessageView>::empty());
        assert(out@ =~= opening + conversation_text(all.take(0)));
    }
    while i < messages.len()
        invariant
            i <= messages.len(),
            all == message_views(messages@),
            opening
                == "You are GoldAgent.\nReturn only the final assistant response text, no extra wrappers.\n\nConversation:\n"@,
            out@ == opening + conversation_text(all.take(i as int)),
        decreases messages.len() - i,
    {
        let message = &messages[i];
        let role = chars_of(message.role.as_str());
        let heading: &str = if text_is(&role, "system") {
            "System"
        } else if text_is(&role, "user") {
            "User"
        } else if text_is(&role, "assistant") {
            "Assistant"
        } else {
            "Message"
        };
        let ghost before = out@;
        append_str(&mut out, heading);
        append_str(&mut out, ":\n");
        append_str(&mut out, message.content.as_str());
        append_str(&mut out, "\n\n");
        proof {
            let upto = all.take(i + 1);
            assert(upto.drop_last() =~= all.take(i as int));
            assert(upto.last() == message@);
            assert(out@ =~= opening + conversation_text(upto));
        }
        i += 1;
    }
    assert(all.take(messages.len() as int) =~= all);
    string_of(&out)
}

/// A conversation cut down to its first message and the last `max_rest` of
/// the others; an empty conversation stays empty.
pub open spec fn trimmed_history(messages: Seq<ChatMessageView>, max_rest: nat) -> Seq<
    ChatMessageView,
> {
    if messages.len() == 0 {
        messages
    } else if messages.len() - 1 > max_rest {
        seq![messages[0]] + messages.skip(messages.len() - max_rest)
    } else {
        messages
    }
}

/// Cuts a conversation down to its first message, which sets the scene, and
/// the last `max_non_system` of the others.
pub fn trim_history(messages: &mut Vec<ChatMessage>, max_non_system: usize)
    ensures
        message_views(final(messages)@) == trimmed_history(
            message_views(old(messages)@),
            max_non_system as nat,
        ),
{
    if messages.len() == 0 {
        return;
    }
    if messages.len() - 1 <= max_non_system {
        return;
    }
    let ghost all = message_views(messages@);
    let mut kept: Vec<ChatMessage> = Vec::new();
    kept.push(messages[0].duplicate());
    let start: usize = messages.len() - max_non_system;
    let mut i: usize = start;
    assert(message_views(kept@) =~= seq![all[0]] + all.subrange(start as int, start as int));
    while i < messages.len()
        invariant
            1 <= start <= i <= messages.len(),
            all == message_views(messages@),
            message_views(kept@) == seq![all[0]] + all.subrange(start as int, i as int),
        decreases messages.len() - i,
    {
        let ghost views = message_views(kept@);
        kept.push(messages[i].duplicate());
        assert(message_views(kept@) =~= views.push(all[i as int]));
        i += 1;
        assert(message_views(kept@) =~= seq![all[0]] + all.subrange(start as int, i as int));
    }
    assert(all.subrange(start as int, messages.len() as int) =~= all.skip(start as int));
    *messages = kept;
}

/// The name of a provider as a key.
pub open spec fn provider_key_text(provider: ConnectProvider) -> Seq<char> {
    match provider {
        ConnectProvider::OpenAi => "openai"@,
        ConnectProvider::Anthropic => "anthropic"@,
        ConnectProvider::Zhipu => "zhipu"@,
    }
}

/// Gives the name of a provider as a key.
pub fn provider_key(provider: &ConnectProvider) -> (key: &'static str)
    ensures
        key@ == provider_key_text(*provider),
{
    match provider {
        ConnectProvider::OpenAi => "openai",
        ConnectProvider::Anthropic => "anthropic",
        ConnectProvider::Zhipu => "zhipu",
    }
}

} // verus!
