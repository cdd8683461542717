use teams_tui::app::{ActiveConversation, App};
use teams_tui::events::{extract_user_ids, BackgroundEvent};
use teams_tui::graph::{
    ChannelSummary, ChatMember, ChatMessage, ChatSummary, MessageBody, OrgUser, PresenceInfo, TeamSummary,
};

fn member(name: &str, user_id: Option<&str>) -> ChatMember {
    ChatMember { id: None, display_name: Some(name.to_string()), user_id: user_id.map(|s| s.to_string()), email: None }
}

fn chat(id: &str, kind: &str, members: Vec<ChatMember>) -> ChatSummary {
    ChatSummary { id: id.to_string(), topic: None, chat_type: kind.to_string(), members, last_updated_date_time: None }
}

fn msg(id: &str) -> ChatMessage {
    ChatMessage {
        id: id.to_string(),
        created_at: None,
        from: None,
        body: MessageBody { content_type: "text".to_string(), content: String::new() },
        reactions: Vec::new(),
    }
}

fn user(id: &str, name: Option<&str>) -> OrgUser {
    OrgUser {
        id: id.to_string(),
        display_name: name.map(|s| s.to_string()),
        user_principal_name: None,
        mail: None,
        job_title: None,
        department: None,
    }
}

fn conv(id: &str) -> ActiveConversation {
    ActiveConversation::Chat { id: id.to_string(), title: "T".to_string() }
}

#[test]
fn extract_user_ids_takes_other_members_of_direct_chats() {
    let chats = vec![
        chat("1", "oneOnOne", vec![member("A", Some("a")), member("Me", Some("me"))]),
        chat("2", "group", vec![member("G", Some("g"))]),
        chat("3", "oneOnOne", vec![member("A", Some("a")), member("N", None)]),
        chat("4", "oneOnOne", vec![member("B", Some("b"))]),
    ];
    let mut mine = extract_user_ids(&chats, Some("me"));
    mine.sort();
    assert_eq!(mine, vec!["a".to_string(), "b".to_string()]);
    let mut all = extract_user_ids(&chats, None);
    all.sort();
    assert_eq!(all, vec!["a".to_string(), "b".to_string(), "me".to_string()]);
    assert!(extract_user_ids(&[], Some("me")).is_empty());
}

#[test]
fn loaded_messages_show_when_active() {
    let mut app = App::new();
    app.active_conversation = Some(conv("c1"));
    app.is_loading = true;
    let reload = app.apply_background_event(BackgroundEvent::MessagesLoaded {
        conv: conv("c1"),
        messages: vec![msg("m1"), msg("m2")],
        elapsed_ms: 12,
    });
    assert!(reload.is_none());
    assert_eq!(app.messages.len(), 2);
    assert!(!app.is_loading && !app.is_syncing);
    assert_eq!(app.status_message, "Loaded (12ms)");
    assert_eq!(app.get_cached_messages(&conv("c1")).unwrap().len(), 2);
}

#[test]
fn loaded_messages_only_cached_when_inactive() {
    let mut app = App::new();
    app.active_conversation = Some(conv("c1"));
    app.apply_background_event(BackgroundEvent::MessagesLoaded {
        conv: conv("c2"),
        messages: vec![msg("m1")],
        elapsed_ms: 3,
    });
    assert!(app.messages.is_empty());
    assert_eq!(app.status_message, "Ready");
    assert_eq!(app.get_cached_messages(&conv("c2")).unwrap().len(), 1);
}

#[test]
fn load_failure_reported_for_active_conversation() {
    let mut app = App::new();
    app.active_conversation = Some(conv("c1"));
    app.is_loading = true;
    app.apply_background_event(BackgroundEvent::MessageLoadFailed { conv: conv("c2"), error: "x".into() });
    assert!(app.is_loading);
    app.apply_background_event(BackgroundEvent::MessageLoadFailed { conv: conv("c1"), error: "timeout".into() });
    assert!(!app.is_loading);
    assert_eq!(app.status_message, "Load failed: timeout");
}

#[test]
fn sent_message_asks_for_a_reload() {
    let mut app = App::new();
    let reload = app.apply_background_event(BackgroundEvent::MessageSent { conv: conv("c9"), elapsed_ms: 250 });
    assert_eq!(reload, Some(conv("c9")));
    assert_eq!(app.status_message, "Sent (250ms)");
    let none = app.apply_background_event(BackgroundEvent::MessageSendFailed { error: "403".into() });
    assert!(none.is_none());
    assert_eq!(app.status_message, "Send failed: 403");
}

#[test]
fn search_results_merge_with_local_contacts() {
    let mut app = App::new();
    let chats = vec![chat("1", "group", vec![member("Alice", Some("a"))])];
    app.rebuild_sidebar(&chats, &[]);
    app.open_search();
    app.search_query = "al".to_string();
    app.is_searching = true;
    app.apply_background_event(BackgroundEvent::SearchResults {
        query: "al".to_string(),
        results: vec![user("a", Some("Alice")), user("x", Some("Alice")), user("y", Some("Albert")), user("y", None)],
        elapsed_ms: 5,
    });
    assert!(!app.is_searching);
    let ids: Vec<String> = app.search_results.iter().map(|u| u.id.clone()).collect();
    assert_eq!(ids, vec!["a".to_string(), "y".to_string()]);
    assert_eq!(app.search_results[0].job_title.as_deref(), Some("Recent Chat Contact"));
}

#[test]
fn stale_search_results_are_dropped() {
    let mut app = App::new();
    app.open_search();
    app.search_query = "bo".to_string();
    app.is_searching = true;
    app.apply_background_event(BackgroundEvent::SearchResults {
        query: "b".to_string(),
        results: vec![user("b", Some("Bob"))],
        elapsed_ms: 5,
    });
    assert!(app.search_results.is_empty());
    assert!(app.is_searching);
}

#[test]
fn search_failure_marks_directory_denied() {
    let mut app = App::new();
    app.is_searching = true;
    app.apply_background_event(BackgroundEvent::SearchFailed { error: "HTTP 403 Forbidden".into() });
    assert!(app.directory_search_denied);
    assert!(!app.is_searching);
    assert_eq!(
        app.search_error_msg.as_deref(),
        Some("Directory search permission required. Run 'teams-tui --login'. Showing local contacts:")
    );
    let mut other = App::new();
    other.apply_background_event(BackgroundEvent::SearchFailed { error: "timeout".into() });
    assert!(!other.directory_search_denied);
    assert_eq!(other.search_error_msg.as_deref(), Some("Search error: timeout"));
}

#[test]
fn presence_events_update_the_tables() {
    let mut app = App::new();
    app.apply_background_event(BackgroundEvent::PresenceUpdated(PresenceInfo {
        availability: "Busy".into(),
        activity: "InAMeeting".into(),
    }));
    assert_eq!(app.presence.as_ref().map(|p| p.availability.clone()), Some("Busy".to_string()));
    app.apply_background_event(BackgroundEvent::UserPresencesLoaded(vec![
        ("a".to_string(), PresenceInfo { availability: "Away".into(), activity: "Away".into() }),
        ("a".to_string(), PresenceInfo { availability: "Available".into(), activity: "Available".into() }),
        ("b".to_string(), PresenceInfo { availability: "Offline".into(), activity: "Offline".into() }),
    ]));
    assert_eq!(app.user_presences.get("a").unwrap().availability, "Available");
    assert_eq!(app.user_presences.get("b").unwrap().availability, "Offline");
    assert!(app.user_presences.get("c").is_none());
    app.apply_background_event(BackgroundEvent::PresenceSetResult(Ok(())));
    assert_eq!(app.status_message, "Presence updated successfully.");
    app.apply_background_event(BackgroundEvent::PresenceSetResult(Err("denied".into())));
    assert_eq!(app.status_message, "Failed to update presence: denied");
}

#[test]
fn polled_messages_replace_the_active_view() {
    let mut app = App::new();
    app.active_conversation = Some(conv("c1"));
    app.is_syncing = true;
    app.apply_background_event(BackgroundEvent::ConversationPolled { conv: conv("c1"), messages: vec![msg("n")] });
    assert_eq!(app.messages.len(), 1);
    assert!(app.is_syncing);
    assert_eq!(app.get_cached_messages(&conv("c1")).unwrap()[0].id, "n");
}

#[test]
fn sidebar_refresh_and_channel_loading() {
    let mut app = App::new();
    let chats = vec![chat("1", "group", vec![member("Alice", Some("a"))])];
    let teams = vec![(TeamSummary { id: "t".into(), display_name: "T".into(), description: None }, Vec::new())];
    app.apply_background_event(BackgroundEvent::SidebarRefreshed { chats, teams, elapsed_ms: 1 });
    assert_eq!(app.status_message, "Refreshed!");
    assert_eq!(app.sidebar_items.len(), 4);
    app.apply_background_event(BackgroundEvent::TeamChannelsLoaded {
        team_id: "t".into(),
        channels: vec![ChannelSummary { id: "c".into(), display_name: "general".into(), description: None }],
    });
    assert_eq!(app.sidebar_items.len(), 5);
    assert_eq!(app.raw_teams[0].1.len(), 1);
}
