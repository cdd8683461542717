use teams_tui::app::{chat_titles_resolvable, status_option, ActiveConversation, App, FocusedPane, SidebarItem, STATUS_OPTION_COUNT};
use teams_tui::graph::{
    ChannelSummary, ChatMember, ChatMessage, ChatSummary, MessageBody, OrgUser, TeamSummary, UserProfile,
};

fn member(name: &str, user_id: &str, email: Option<&str>) -> ChatMember {
    ChatMember {
        id: Some(format!("mid-{}", user_id)),
        display_name: Some(name.to_string()),
        user_id: if user_id.is_empty() { None } else { Some(user_id.to_string()) },
        email: email.map(|e| e.to_string()),
    }
}

fn chat(id: &str, kind: &str, members: Vec<ChatMember>) -> ChatSummary {
    ChatSummary {
        id: id.to_string(),
        topic: None,
        chat_type: kind.to_string(),
        members,
        last_updated_date_time: None,
    }
}

fn team(id: &str, name: &str) -> TeamSummary {
    TeamSummary { id: id.to_string(), display_name: name.to_string(), description: None }
}

fn channel(id: &str, name: &str) -> ChannelSummary {
    ChannelSummary { id: id.to_string(), display_name: name.to_string(), description: None }
}

fn msg(id: &str) -> ChatMessage {
    ChatMessage {
        id: id.to_string(),
        created_at: None,
        from: None,
        body: MessageBody { content_type: "text".to_string(), content: id.to_string() },
        reactions: Vec::new(),
    }
}

fn me() -> UserProfile {
    UserProfile { id: "me".to_string(), display_name: Some("Me Myself".to_string()), user_principal_name: None, mail: None }
}

fn sample_app() -> App {
    let mut app = App::new();
    app.current_user = Some(me());
    let chats = vec![
        chat("c1", "oneOnOne", vec![member("Alice Smith", "a", Some("alice@corp.com")), member("Me Myself", "me", None)]),
        chat("c2", "group", vec![member("Bob Jones", "b", Some("bob@corp.com")), member("alice smith", "a2", None)]),
    ];
    let teams = vec![(team("t1", "Team One"), vec![channel("ch1", "general"), channel("ch2", "random")])];
    app.rebuild_sidebar(&chats, &teams);
    app
}

#[test]
fn new_app_is_ready() {
    let app = App::new();
    assert_eq!(app.status_message, "Ready");
    assert_eq!(app.focused_pane, FocusedPane::Sidebar);
    assert!(app.sidebar_items.is_empty());
    assert!(app.active_conversation.is_none());
    assert!(!app.is_search_modal_open && !app.is_status_modal_open);
    assert_eq!(app.cursor_pos, 0);
}

#[test]
fn search_modal_opens_and_closes_clean() {
    let mut app = App::new();
    app.search_query = "old".to_string();
    app.search_error_msg = Some("err".to_string());
    app.selected_search_idx = 3;
    app.open_search();
    assert!(app.is_search_modal_open);
    assert_eq!(app.search_query, "");
    assert!(app.search_error_msg.is_none());
    assert_eq!(app.selected_search_idx, 0);
    app.search_char('a');
    app.search_char('b');
    assert_eq!(app.search_query, "ab");
    app.search_backspace();
    assert_eq!(app.search_query, "a");
    app.close_search();
    assert!(!app.is_search_modal_open);
    assert_eq!(app.search_query, "");
}

#[test]
fn status_menu_wraps_both_ways() {
    let mut app = App::new();
    app.open_status_modal();
    assert!(app.is_status_modal_open);
    assert_eq!(app.selected_status_idx, 0);
    app.status_up();
    assert_eq!(app.selected_status_idx, STATUS_OPTION_COUNT - 1);
    app.status_down();
    assert_eq!(app.selected_status_idx, 0);
    app.status_down();
    app.status_up();
    assert_eq!(app.selected_status_idx, 0);
    app.close_status_modal();
    assert!(!app.is_status_modal_open);
    assert_eq!(status_option(2), ("Do Not Disturb", "⛔", "DoNotDisturb", "DoNotDisturb"));
    assert_eq!(status_option(5), ("Reset (Auto)", "🔄", "", ""));
}

#[test]
fn search_selection_wraps() {
    let mut app = App::new();
    app.search_down();
    assert_eq!(app.selected_search_idx, 0);
    app.search_results = vec![
        OrgUser { id: "1".into(), display_name: None, user_principal_name: None, mail: None, job_title: None, department: None },
        OrgUser { id: "2".into(), display_name: None, user_principal_name: None, mail: None, job_title: None, department: None },
    ];
    app.search_up();
    assert_eq!(app.selected_search_idx, 1);
    assert_eq!(app.selected_search_user().map(|u| u.id.clone()), Some("2".to_string()));
    app.search_down();
    assert_eq!(app.selected_search_idx, 0);
    app.selected_search_idx = 9;
    assert!(app.selected_search_user().is_none());
}

#[test]
fn typing_and_backspace_edit_at_the_cursor() {
    let mut app = App::new();
    app.insert_char('h');
    app.insert_char('i');
    assert_eq!(app.input_buffer, "hi");
    assert_eq!(app.cursor_pos, 2);
    app.backspace();
    assert_eq!(app.input_buffer, "h");
    assert_eq!(app.cursor_pos, 1);
    app.cursor_pos = 0;
    app.backspace();
    assert_eq!(app.input_buffer, "h");
    assert_eq!(app.cursor_pos, 0);
}

#[test]
fn backspace_undoes_an_insertion() {
    let mut app = App::new();
    app.input_buffer = "ab".to_string();
    app.cursor_pos = 1;
    app.insert_char('x');
    assert_eq!(app.input_buffer, "axb");
    assert_eq!(app.cursor_pos, 2);
    app.backspace();
    assert_eq!(app.input_buffer, "ab");
    assert_eq!(app.cursor_pos, 1);
}

#[test]
fn clear_input_hands_back_the_text() {
    let mut app = App::new();
    app.input_buffer = "hello".to_string();
    app.cursor_pos = 5;
    assert_eq!(app.clear_input(), "hello");
    assert_eq!(app.input_buffer, "");
    assert_eq!(app.cursor_pos, 0);
}

#[test]
fn focus_cycles_through_three_panes() {
    let mut app = App::new();
    app.cycle_focus();
    assert_eq!(app.focused_pane, FocusedPane::Messages);
    app.cycle_focus();
    assert_eq!(app.focused_pane, FocusedPane::Input);
    app.cycle_focus();
    assert_eq!(app.focused_pane, FocusedPane::Sidebar);
}

#[test]
fn scrolling_saturates() {
    let mut app = App::new();
    app.scroll_messages_up();
    assert_eq!(app.message_scroll, 3);
    app.scroll_messages_down();
    app.scroll_messages_down();
    assert_eq!(app.message_scroll, 0);
    app.message_scroll = usize::MAX - 1;
    app.scroll_messages_up();
    assert_eq!(app.message_scroll, usize::MAX);
    app.set_status("Custom".to_string());
    assert_eq!(app.status_message, "Custom");
}

#[test]
fn rebuild_sidebar_lays_out_chats_then_teams() {
    let app = sample_app();
    assert_eq!(app.sidebar_items.len(), 7);
    assert!(matches!(&app.sidebar_items[0], SidebarItem::SectionHeader(t) if t == "── CHATS ──"));
    assert!(matches!(&app.sidebar_items[1], SidebarItem::Chat { title, .. } if title == "Alice Smith"));
    assert!(matches!(&app.sidebar_items[2], SidebarItem::Chat { title, .. } if title == "Bob Jones, alice smith"));
    assert!(matches!(&app.sidebar_items[3], SidebarItem::SectionHeader(t) if t == "── TEAMS ──"));
    assert!(matches!(&app.sidebar_items[4], SidebarItem::TeamHeader { team, is_expanded: true } if team.id == "t1"));
    assert!(matches!(&app.sidebar_items[5], SidebarItem::Channel { team_name, channel, .. } if team_name == "Team One" && channel.id == "ch1"));
    assert!(matches!(&app.sidebar_items[6], SidebarItem::Channel { channel, .. } if channel.id == "ch2"));
    // the selection moved off the header
    assert_eq!(app.selected_sidebar_idx, 1);
}

#[test]
fn rebuild_sidebar_keeps_a_valid_selection() {
    let mut app = sample_app();
    app.selected_sidebar_idx = 5;
    let chats = app.raw_chats.clone();
    let teams = app.raw_teams.clone();
    app.rebuild_sidebar(&chats, &teams);
    assert_eq!(app.selected_sidebar_idx, 5);
    app.rebuild_sidebar(&[], &[]);
    assert!(app.sidebar_items.is_empty());
    assert_eq!(app.selected_sidebar_idx, 0);
}

#[test]
fn sidebar_navigation_skips_headers_and_wraps() {
    let mut app = sample_app();
    app.selected_sidebar_idx = 2;
    app.sidebar_down();
    assert_eq!(app.selected_sidebar_idx, 4);
    app.sidebar_up();
    assert_eq!(app.selected_sidebar_idx, 2);
    app.selected_sidebar_idx = 6;
    app.sidebar_down();
    assert_eq!(app.selected_sidebar_idx, 1);
    app.sidebar_up();
    assert_eq!(app.selected_sidebar_idx, 6);
    let mut empty = App::new();
    empty.sidebar_down();
    empty.sidebar_up();
    assert_eq!(empty.selected_sidebar_idx, 0);
}

#[test]
fn selected_line_gives_its_conversation() {
    let mut app = sample_app();
    app.selected_sidebar_idx = 1;
    assert_eq!(
        app.currently_selected_conversation(),
        Some(ActiveConversation::Chat { id: "c1".to_string(), title: "Alice Smith".to_string() })
    );
    app.selected_sidebar_idx = 6;
    assert_eq!(
        app.currently_selected_conversation(),
        Some(ActiveConversation::Channel {
            team_id: "t1".to_string(),
            channel_id: "ch2".to_string(),
            title: "Team One > #random".to_string()
        })
    );
    app.selected_sidebar_idx = 4;
    assert_eq!(app.currently_selected_conversation(), None);
    app.selected_sidebar_idx = 40;
    assert_eq!(app.currently_selected_conversation(), None);
}

#[test]
fn cache_keys_name_the_conversation() {
    let c = ActiveConversation::Chat { id: "42".into(), title: "x".into() };
    assert_eq!(c.cache_key(), "chat:42");
    let ch = ActiveConversation::Channel { team_id: "t".into(), channel_id: "c".into(), title: "y".into() };
    assert_eq!(ch.cache_key(), "channel:t:c");
}

#[test]
fn cached_messages_read_back_what_was_written() {
    let mut app = App::new();
    let c = ActiveConversation::Chat { id: "42".into(), title: "x".into() };
    let other = ActiveConversation::Chat { id: "43".into(), title: "x".into() };
    assert!(app.get_cached_messages(&c).is_none());
    app.cache_messages(&c, vec![msg("m1"), msg("m2")]);
    app.cache_messages(&other, vec![msg("z")]);
    let got = app.get_cached_messages(&c).expect("cached");
    assert_eq!(got.iter().map(|m| m.id.clone()).collect::<Vec<_>>(), vec!["m1", "m2"]);
    app.cache_messages(&c, vec![msg("m3")]);
    assert_eq!(app.get_cached_messages(&c).unwrap()[0].id, "m3");
    // the title plays no part in the key
    let renamed = ActiveConversation::Chat { id: "42".into(), title: "other".into() };
    assert_eq!(app.get_cached_messages(&renamed).unwrap().len(), 1);
}

#[test]
fn update_team_channels_replaces_that_team_only() {
    let mut app = sample_app();
    app.update_team_channels("t1", vec![channel("ch9", "new")]);
    assert_eq!(app.raw_teams[0].1.len(), 1);
    assert_eq!(app.raw_teams[0].1[0].id, "ch9");
    assert_eq!(app.sidebar_items.len(), 6);
    app.update_team_channels("unknown", vec![]);
    assert_eq!(app.raw_teams[0].1.len(), 1);
}

#[test]
fn local_contact_search_matches_names_and_mail() {
    let app = sample_app();
    let found = app.search_local_contacts("  ALI ");
    assert_eq!(found.len(), 1);
    assert_eq!(found[0].display_name.as_deref(), Some("Alice Smith"));
    assert_eq!(found[0].id, "a");
    assert_eq!(found[0].mail.as_deref(), Some("alice@corp.com"));
    assert_eq!(found[0].user_principal_name.as_deref(), Some("alice@corp.com"));
    assert_eq!(found[0].job_title.as_deref(), Some("Recent Chat Contact"));
    assert!(found[0].department.is_none());
    let by_mail = app.search_local_contacts("bob@");
    assert_eq!(by_mail.len(), 1);
    assert_eq!(by_mail[0].id, "b");
    // the signed-in user is never offered
    assert!(app.search_local_contacts("myself").is_empty());
    assert!(app.search_local_contacts("   ").is_empty());
}

#[test]
fn local_contact_id_falls_back_to_member_id() {
    let mut app = App::new();
    let chats = vec![chat("c", "group", vec![member("Zed", "", None)])];
    app.rebuild_sidebar(&chats, &[]);
    let found = app.search_local_contacts("zed");
    assert_eq!(found.len(), 1);
    assert_eq!(found[0].id, "mid-");
}

#[test]
fn find_existing_chat_by_id_or_name() {
    let app = sample_app();
    // c2 is a group chat: only one-on-one chats count
    assert!(app.find_existing_chat("nobody", "b").is_none());
    assert!(app.find_existing_chat("Bob Jones", "").is_none());
    assert_eq!(app.find_existing_chat("ALICE SMITH", "").map(|c| c.id), Some("c1".to_string()));
    assert_eq!(app.find_existing_chat("nobody", "mid-a").map(|c| c.id), Some("c1".to_string()));
    assert!(app.find_existing_chat("nobody", "zz").is_none());
}

#[test]
fn find_existing_chat_ignores_group_chats() {
    let mut app = App::new();
    app.raw_chats = vec![chat("g1", "group", vec![member("Alice", "u1", None), member("Bob", "u2", None)])];
    assert!(app.find_existing_chat("Alice", "u1").is_none());
    app.raw_chats.push(chat("d1", "oneOnOne", vec![member("Alice", "u1", None)]));
    assert_eq!(app.find_existing_chat("Alice", "u1").map(|c| c.id), Some("d1".to_string()));
}

#[test]
fn chat_titles_resolvable_spots_cut_ids() {
    let ok = vec![chat("abcdefghijkl", "group", vec![])];
    assert!(chat_titles_resolvable(&ok, None));
    let bad = vec![chat("abcdefgé", "group", vec![])];
    assert!(!chat_titles_resolvable(&bad, None));
    let named = vec![chat("abcdefgé", "group", vec![member("X", "x", None)])];
    assert!(chat_titles_resolvable(&named, None));
}
