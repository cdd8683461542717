use teams_tui::app::{ActiveConversation, App, FocusedPane};
use teams_tui::graph::{ChatMember, ChatMessage, ChatSummary, MessageBody, OrgUser, PresenceInfo, UserProfile};
use teams_tui::store::KeyedStore;
use teams_tui::view::{
    availability_badge, chat_badge, empty_messages_note, empty_results_note, footer_help, footer_status,
    header_presence, header_user_name, input_title, is_active_channel, is_active_chat, is_own_message,
    message_blocks, message_pane_title, message_time, reaction_emoji, result_lines, results_title, search_title, Tone,
};

fn presence(a: &str, act: &str) -> PresenceInfo {
    PresenceInfo { availability: a.to_string(), activity: act.to_string() }
}

fn signed_in() -> App {
    let mut app = App::new();
    app.current_user = Some(UserProfile {
        id: "me".into(),
        display_name: Some("Me Myself".into()),
        user_principal_name: None,
        mail: None,
    });
    app
}

fn one_on_one(members: Vec<(&str, Option<&str>)>) -> ChatSummary {
    ChatSummary {
        id: "c".into(),
        topic: None,
        chat_type: "oneOnOne".into(),
        members: members
            .into_iter()
            .map(|(n, u)| ChatMember { id: None, display_name: Some(n.into()), user_id: u.map(|s| s.into()), email: None })
            .collect(),
        last_updated_date_time: None,
    }
}

#[test]
fn availability_badges_ignore_case() {
    assert_eq!(availability_badge("Available"), ("🟢", Tone::Green));
    assert_eq!(availability_badge("BUSY"), ("🔴", Tone::Red));
    assert_eq!(availability_badge("DoNotDisturb"), ("🔴", Tone::Red));
    assert_eq!(availability_badge("BeRightBack"), ("🟡", Tone::Yellow));
    assert_eq!(availability_badge("away"), ("🟡", Tone::Yellow));
    assert_eq!(availability_badge("Offline"), ("⚪", Tone::Gray));
    assert_eq!(availability_badge("PresenceUnknown"), ("🔵", Tone::Cyan));
}

#[test]
fn header_presence_describes_the_user() {
    assert_eq!(header_presence(&None), ("⚪", Tone::Gray, "Unknown".to_string()));
    assert_eq!(header_presence(&Some(presence("Available", "InACall"))), ("🟢", Tone::Green, "Available (InACall)".to_string()));
    assert_eq!(header_presence(&Some(presence("busy", "InAMeeting"))), ("🔴", Tone::Red, "Busy (InAMeeting)".to_string()));
    assert_eq!(header_presence(&Some(presence("DoNotDisturb", "x"))), ("⛔", Tone::Red, "Do Not Disturb".to_string()));
    assert_eq!(header_presence(&Some(presence("BeRightBack", "x"))), ("🟡", Tone::Yellow, "Away".to_string()));
    assert_eq!(header_presence(&Some(presence("Offline", "x"))), ("⚪", Tone::Gray, "Offline".to_string()));
    assert_eq!(header_presence(&Some(presence("Strange", "x"))), ("🔵", Tone::Cyan, "Strange".to_string()));
    assert_eq!(header_user_name(&App::new()), "Connecting...");
    assert_eq!(header_user_name(&signed_in()), "Me Myself");
}

#[test]
fn chat_badge_uses_the_other_members_presence() {
    let mut app = signed_in();
    let chat = one_on_one(vec![("Me Myself", Some("me")), ("Nobody", None), ("Ann", Some("ann")), ("Bo", Some("bo"))]);
    assert_eq!(chat_badge(&app, &chat), None);
    app.user_presences.insert("bo".into(), presence("Busy", "Busy"));
    // only the first other member counts
    assert_eq!(chat_badge(&app, &chat), None);
    app.user_presences.insert("ann".into(), presence("Away", "Away"));
    assert_eq!(chat_badge(&app, &chat), Some(("🟡", Tone::Yellow)));
    let mut group = chat.clone();
    group.chat_type = "group".into();
    assert_eq!(chat_badge(&app, &group), None);
}

#[test]
fn active_markers_compare_ids() {
    let mut app = App::new();
    assert!(!is_active_chat(&app, "c"));
    app.active_conversation = Some(ActiveConversation::Chat { id: "c".into(), title: "t".into() });
    assert!(is_active_chat(&app, "c"));
    assert!(!is_active_chat(&app, "d"));
    assert!(!is_active_channel(&app, "t", "c"));
    app.active_conversation = Some(ActiveConversation::Channel { team_id: "t".into(), channel_id: "c".into(), title: "x".into() });
    assert!(is_active_channel(&app, "t", "c"));
    assert!(!is_active_channel(&app, "u", "c"));
}

#[test]
fn message_pane_title_and_notes() {
    let mut app = App::new();
    assert_eq!(message_pane_title(&app), " No conversation selected ");
    assert_eq!(empty_messages_note(&app), Some("Select a chat or channel from the sidebar and press Enter."));
    app.active_conversation = Some(ActiveConversation::Chat { id: "c".into(), title: "Alice".into() });
    app.is_syncing = true;
    assert_eq!(message_pane_title(&app), " Chat: Alice [Syncing...] ");
    app.focused_pane = FocusedPane::Messages;
    assert_eq!(message_pane_title(&app), "Chat: Alice [Syncing...] (Active - Scroll with ↑/↓) ");
    assert_eq!(empty_messages_note(&app), Some("No messages found in this conversation."));
    app.is_loading = true;
    assert_eq!(empty_messages_note(&app), Some("Loading messages..."));
    app.active_conversation = Some(ActiveConversation::Channel { team_id: "t".into(), channel_id: "c".into(), title: "T > #g".into() });
    assert_eq!(
        empty_messages_note(&app),
        Some("Loading channel messages from Microsoft Graph... (Channels may take a few moments)")
    );
    app.is_syncing = false;
    app.focused_pane = FocusedPane::Sidebar;
    assert_eq!(message_pane_title(&app), " Channel: T > #g ");
    app.messages.push(ChatMessage {
        id: "m".into(),
        created_at: None,
        from: None,
        body: MessageBody { content_type: "text".into(), content: "x".into() },
        reactions: vec![],
    });
    assert_eq!(empty_messages_note(&app), None);
}

#[test]
fn reactions_and_own_messages() {
    assert_eq!(reaction_emoji("like"), "👍");
    assert_eq!(reaction_emoji("Heart"), "❤️");
    assert_eq!(reaction_emoji("LAUGH"), "😆");
    assert_eq!(reaction_emoji("surprised"), "😮");
    assert_eq!(reaction_emoji("sad"), "😢");
    assert_eq!(reaction_emoji("angry"), "😡");
    assert_eq!(reaction_emoji("custom"), "✨");
    let app = signed_in();
    assert!(is_own_message(&app, "me myself"));
    assert!(!is_own_message(&app, "Someone"));
    assert!(!is_own_message(&App::new(), "Me Myself"));
}

#[test]
fn message_time_reads_rfc3339() {
    assert_eq!(message_time(&None), "--:--:--");
    assert_eq!(message_time(&Some("not a time".into())), "--:--:--");
    let t = message_time(&Some("2024-05-01T10:20:30.123Z".into()));
    assert_eq!(t.len(), 8);
    assert_eq!(&t[2..3], ":");
    assert_eq!(&t[5..6], ":");
    assert_eq!(&t[6..8], "30");
    assert!(t.chars().enumerate().all(|(i, c)| if i == 2 || i == 5 { c == ':' } else { c.is_ascii_digit() }));
}

#[test]
fn message_blocks_read_oldest_first() {
    let mut app = signed_in();
    let mk = |id: &str, sender: &str, body: &str, kind: &str| ChatMessage {
        id: id.into(),
        created_at: None,
        from: Some(teams_tui::graph::ChatMessageFrom {
            user: Some(teams_tui::graph::IdentityUser { id: None, display_name: Some(sender.into()) }),
        }),
        body: MessageBody { content_type: kind.into(), content: body.into() },
        reactions: vec![teams_tui::graph::ChatMessageReaction { reaction_type: "heart".into() }],
    };
    // held newest first
    app.messages = vec![mk("new", "ME MYSELF", "<p>one</p><p>two</p>", "html"), mk("old", "Ann", "a\nb", "text")];
    let blocks = message_blocks(&app);
    assert_eq!(blocks.len(), 2);
    assert_eq!(blocks[0].sender, "Ann");
    assert!(!blocks[0].own);
    assert_eq!(blocks[0].lines, vec!["a", "b"]);
    assert_eq!(blocks[0].time, "--:--:--");
    assert_eq!(blocks[0].reactions, vec!["❤️"]);
    assert_eq!(blocks[1].sender, "ME MYSELF");
    assert!(blocks[1].own);
    assert_eq!(blocks[1].lines, vec!["onetwo"]);
}

#[test]
fn input_and_footer_titles() {
    let mut app = App::new();
    assert_eq!(input_title(&app), " Message: None (Select a conversation first) (Press 'i' to type) ");
    app.active_conversation = Some(ActiveConversation::Chat { id: "c".into(), title: "Alice".into() });
    app.focused_pane = FocusedPane::Input;
    assert_eq!(input_title(&app), " Message to: Alice (Press Enter to Send, Esc to Exit) ");
    assert_eq!(footer_help(FocusedPane::Input), " [Enter] Send | [Esc] Cancel/Unfocus | [Tab] Switch Pane ");
    assert!(footer_help(FocusedPane::Sidebar).contains("[q] Quit"));
    assert!(footer_help(FocusedPane::Messages).contains("[Esc] Back to Sidebar"));
    assert_eq!(footer_status(&app), " Status: Ready ");
}

#[test]
fn search_modal_titles_and_notes() {
    let mut app = App::new();
    assert_eq!(search_title(&app), " Search Organisation Users & Contacts (Type Name or Email) ");
    assert_eq!(results_title(&app), " Results (0) ");
    assert_eq!(
        empty_results_note(&app),
        "Type at least 1 character to search users in the organisation or recent contacts."
    );
    app.search_query = "bo".into();
    assert_eq!(empty_results_note(&app), "No matching users or contacts found.");
    app.is_searching = true;
    assert_eq!(search_title(&app), " Search Users (Searching directory & contacts...) ");
    assert_eq!(empty_results_note(&app), "Searching directory and recent contacts...");
    app.is_searching = false;
    app.directory_search_denied = true;
    app.search_error_msg = Some("denied".into());
    assert!(search_title(&app).starts_with(" Search Recent Contacts"));
    assert_eq!(results_title(&app), " Results (0) [Note: denied] ");
    assert_eq!(empty_results_note(&app), "denied");
    app.search_results = vec![OrgUser { id: "1".into(), display_name: None, user_principal_name: None, mail: None, job_title: None, department: None }; 12];
    app.search_error_msg = None;
    assert_eq!(results_title(&app), " Results (12) ");
}

#[test]
fn result_lines_show_name_role_and_address() {
    let full = OrgUser {
        id: "1".into(),
        display_name: Some("Ann".into()),
        user_principal_name: Some("ann@upn".into()),
        mail: Some("ann@mail".into()),
        job_title: Some("Dev".into()),
        department: Some("R&D".into()),
    };
    let l = result_lines(&full);
    assert_eq!((l.name.as_str(), l.role.as_str(), l.detail.as_str()), ("Ann", " (Dev)", "ann@mail • R&D"));
    let bare = OrgUser { id: "2".into(), display_name: None, user_principal_name: Some("u@upn".into()), mail: None, job_title: Some(String::new()), department: Some(String::new()) };
    let l = result_lines(&bare);
    assert_eq!((l.name.as_str(), l.role.as_str(), l.detail.as_str()), ("Unknown", "", "u@upn"));
    let none = OrgUser { id: "3".into(), display_name: None, user_principal_name: None, mail: None, job_title: None, department: None };
    assert_eq!(result_lines(&none).detail, "No email");
}

#[test]
fn keyed_store_reads_back_writes() {
    let mut s: KeyedStore<u32> = KeyedStore::new();
    assert!(s.get("a").is_none());
    s.insert("a".to_string(), 1);
    s.insert("b".to_string(), 2);
    s.insert("a".to_string(), 3);
    assert_eq!(s.get("a"), Some(&3));
    assert_eq!(s.get("b"), Some(&2));
    assert!(s.get("c").is_none());
}
