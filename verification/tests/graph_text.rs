use teams_tui::graph::{
    strip_html_tags, ChatMember, ChatMessage, ChatMessageFrom, ChatMessageReaction, ChatSummary,
    IdentityUser, MessageBody,
};

fn member(name: Option<&str>, user_id: Option<&str>) -> ChatMember {
    ChatMember {
        id: None,
        display_name: name.map(|s| s.to_string()),
        user_id: user_id.map(|s| s.to_string()),
        email: None,
    }
}

fn chat(id: &str, topic: Option<&str>, members: Vec<ChatMember>) -> ChatSummary {
    ChatSummary {
        id: id.to_string(),
        topic: topic.map(|s| s.to_string()),
        chat_type: "group".to_string(),
        members,
        last_updated_date_time: None,
    }
}

fn message(content_type: &str, content: &str, sender: Option<Option<&str>>) -> ChatMessage {
    ChatMessage {
        id: "m1".to_string(),
        created_at: None,
        from: sender.map(|s| ChatMessageFrom {
            user: Some(IdentityUser { id: Some("u".to_string()), display_name: s.map(|n| n.to_string()) }),
        }),
        body: MessageBody { content_type: content_type.to_string(), content: content.to_string() },
        reactions: vec![ChatMessageReaction { reaction_type: "like".to_string() }],
    }
}

#[test]
fn resolved_title_prefers_topic() {
    let c = chat("19:abc", Some("Project X"), vec![member(Some("Alice"), Some("a"))]);
    assert_eq!(c.resolved_title(Some("Me")), "Project X");
}

#[test]
fn resolved_title_lists_other_members() {
    let c = chat(
        "19:abc",
        None,
        vec![member(Some("Alice"), Some("a")), member(Some("ME"), Some("m")), member(None, Some("x")), member(Some("Bob"), None)],
    );
    assert_eq!(c.resolved_title(Some("me")), "Alice, Bob");
    assert_eq!(c.resolved_title(None), "Alice, ME, Bob");
}

#[test]
fn resolved_title_blank_topic_uses_members() {
    let c = chat("19:abc", Some("   "), vec![member(Some("Alice"), Some("a"))]);
    assert_eq!(c.resolved_title(None), "Alice");
}

#[test]
fn resolved_title_falls_back_to_id_prefix() {
    let c = chat("19:abcdefghij", None, vec![member(Some("Me"), Some("m"))]);
    assert_eq!(c.resolved_title(Some("me")), "Chat (19:abcde)");
    let short = chat("abc", None, vec![]);
    assert_eq!(short.resolved_title(None), "Chat (abc)");
}

#[test]
fn title_checked_refuses_a_cut_character() {
    // the eighth byte falls inside 'é'
    let c = chat("abcdefgé-tail", None, vec![]);
    assert_eq!(c.title_checked(None), None);
    let ok = chat("abcdefé-tail", None, vec![]);
    assert_eq!(ok.title_checked(None), Some("Chat (abcdefé)".to_string()));
}

#[test]
fn strip_html_tags_removes_tags_and_decodes() {
    assert_eq!(strip_html_tags("<p>Hello&nbsp;<b>World</b> &amp; co</p>"), "Hello World & co");
    assert_eq!(strip_html_tags("  <div>x &lt; y &gt; z</div>  "), "x < y > z");
    assert_eq!(strip_html_tags("&quot;hi&quot; it&#39;s"), "\"hi\" it's");
    assert_eq!(strip_html_tags("no tags"), "no tags");
    assert_eq!(strip_html_tags("<br>"), "");
}

#[test]
fn strip_html_tags_decodes_in_order() {
    // "&amp;lt;" decodes to "&lt;" only: "&lt;" is handled before "&amp;"
    assert_eq!(strip_html_tags("&amp;lt;"), "&lt;");
    // an unclosed tag swallows the rest
    assert_eq!(strip_html_tags("a <b c"), "a");
    // a stray '>' is dropped
    assert_eq!(strip_html_tags("a > b"), "a  b");
}

#[test]
fn clean_content_handles_html_in_any_case() {
    assert_eq!(message("HTML", "<p>Hi</p>", None).clean_content(), "Hi");
    assert_eq!(message("html", "<i>x</i> &amp; y", None).clean_content(), "x & y");
}

#[test]
fn clean_content_keeps_plain_text() {
    assert_eq!(message("text", "<p>Hi</p>", None).clean_content(), "<p>Hi</p>");
}

#[test]
fn sender_display_name_defaults_to_unknown() {
    assert_eq!(message("text", "x", Some(Some("Alice"))).sender_display_name(), "Alice");
    assert_eq!(message("text", "x", Some(None)).sender_display_name(), "Unknown");
    assert_eq!(message("text", "x", None).sender_display_name(), "Unknown");
}
