use teams_tui::app::{ActiveConversation, App, FocusedPane};
use teams_tui::graph::{ChatMember, ChatMessage, ChatSummary, MessageBody, OrgUser, UserProfile};
use teams_tui::keys::{active_poll_secs, is_due, presence_poll_secs, KeyCommand, KeyInput};

fn member(name: &str, user_id: &str) -> ChatMember {
    ChatMember { id: None, display_name: Some(name.to_string()), user_id: Some(user_id.to_string()), email: None }
}

fn chat(id: &str, members: Vec<ChatMember>) -> ChatSummary {
    ChatSummary { id: id.to_string(), topic: None, chat_type: "oneOnOne".to_string(), members, last_updated_date_time: None }
}

fn msg(id: &str) -> ChatMessage {
    ChatMessage {
        id: id.to_string(),
        created_at: None,
        from: None,
        body: MessageBody { content_type: "text".to_string(), content: String::new() },
        reactions: Vec::new(),
    }
}

fn signed_in_app() -> App {
    let mut app = App::new();
    app.current_user = Some(UserProfile {
        id: "me".to_string(),
        display_name: Some("Me".to_string()),
        user_principal_name: None,
        mail: None,
    });
    let chats = vec![chat("c1", vec![member("Alice", "a"), member("Me", "me")])];
    app.rebuild_sidebar(&chats, &[]);
    app
}

fn key(app: &mut App, k: KeyInput) -> KeyCommand {
    app.handle_key(k, false)
}

#[test]
fn sidebar_enter_loads_an_uncached_conversation() {
    let mut app = signed_in_app();
    assert_eq!(app.selected_sidebar_idx, 1);
    let cmd = key(&mut app, KeyInput::Enter);
    match cmd {
        KeyCommand::LoadConversation(c) => assert_eq!(c.cache_key(), "chat:c1"),
        other => panic!("unexpected {:?}", other),
    }
    assert_eq!(app.status_message, "Loading Alice...");
    assert!(app.is_loading && !app.is_syncing);
    assert!(app.messages.is_empty());
    assert_eq!(
        app.active_conversation,
        Some(ActiveConversation::Chat { id: "c1".to_string(), title: "Alice".to_string() })
    );
}

#[test]
fn sidebar_enter_shows_cached_messages() {
    let mut app = signed_in_app();
    let conv = ActiveConversation::Chat { id: "c1".to_string(), title: "Alice".to_string() };
    app.cache_messages(&conv, vec![msg("m1")]);
    let cmd = key(&mut app, KeyInput::Enter);
    assert!(matches!(cmd, KeyCommand::LoadConversation(_)));
    assert_eq!(app.status_message, "Loaded (cached) - Syncing Alice...");
    assert!(!app.is_loading && app.is_syncing);
    assert_eq!(app.messages.len(), 1);
}

#[test]
fn sidebar_keys_quit_refresh_and_focus() {
    let mut app = signed_in_app();
    assert!(matches!(key(&mut app, KeyInput::Char('r')), KeyCommand::RefreshSidebar));
    assert_eq!(app.status_message, "Refreshing conversations in background...");
    assert!(matches!(key(&mut app, KeyInput::Char('i')), KeyCommand::Nothing));
    assert_eq!(app.focused_pane, FocusedPane::Input);
    app.focused_pane = FocusedPane::Sidebar;
    assert!(matches!(key(&mut app, KeyInput::Char('q')), KeyCommand::Quit));
    assert!(matches!(key(&mut app, KeyInput::Char('p')), KeyCommand::Nothing));
    assert!(app.is_status_modal_open);
}

#[test]
fn ctrl_c_quits_outside_modals_only() {
    let mut app = signed_in_app();
    app.focused_pane = FocusedPane::Input;
    assert!(matches!(app.handle_key(KeyInput::Char('c'), true), KeyCommand::Quit));
    assert!(matches!(app.handle_key(KeyInput::Char('c'), false), KeyCommand::Nothing));
    assert_eq!(app.input_buffer, "c");
    app.open_search();
    assert!(matches!(app.handle_key(KeyInput::Char('c'), true), KeyCommand::SearchEdited { cleared: false }));
    assert_eq!(app.search_query, "c");
}

#[test]
fn input_enter_sends_to_the_open_conversation() {
    let mut app = signed_in_app();
    app.focused_pane = FocusedPane::Input;
    // nothing to send
    assert!(matches!(key(&mut app, KeyInput::Enter), KeyCommand::Nothing));
    for c in "hi".chars() {
        key(&mut app, KeyInput::Char(c));
    }
    assert!(matches!(key(&mut app, KeyInput::Enter), KeyCommand::Nothing));
    assert_eq!(app.status_message, "Cannot send: No active conversation selected.");
    assert_eq!(app.input_buffer, "hi");
    app.active_conversation = Some(ActiveConversation::Chat { id: "c1".into(), title: "Alice".into() });
    match key(&mut app, KeyInput::Enter) {
        KeyCommand::SendMessage { conv, text } => {
            assert_eq!(conv.cache_key(), "chat:c1");
            assert_eq!(text, "hi");
        },
        other => panic!("unexpected {:?}", other),
    }
    assert_eq!(app.input_buffer, "");
    assert_eq!(app.cursor_pos, 0);
    assert_eq!(app.status_message, "Sending message...");
}

#[test]
fn input_cursor_moves_within_the_text() {
    let mut app = signed_in_app();
    app.focused_pane = FocusedPane::Input;
    key(&mut app, KeyInput::Char('a'));
    key(&mut app, KeyInput::Char('b'));
    key(&mut app, KeyInput::Left);
    key(&mut app, KeyInput::Char('x'));
    assert_eq!(app.input_buffer, "axb");
    key(&mut app, KeyInput::Right);
    key(&mut app, KeyInput::Right);
    assert_eq!(app.cursor_pos, 3);
    key(&mut app, KeyInput::Backspace);
    assert_eq!(app.input_buffer, "ax");
    key(&mut app, KeyInput::Esc);
    assert_eq!(app.focused_pane, FocusedPane::Sidebar);
}

#[test]
fn h_and_l_switch_panes() {
    let mut app = signed_in_app();
    key(&mut app, KeyInput::Char('l'));
    assert_eq!(app.focused_pane, FocusedPane::Messages);
    key(&mut app, KeyInput::Right);
    assert_eq!(app.focused_pane, FocusedPane::Input);
    // in the input line, letters are typed and arrows move the cursor
    key(&mut app, KeyInput::Char('h'));
    assert_eq!(app.input_buffer, "h");
    key(&mut app, KeyInput::Left);
    assert_eq!(app.cursor_pos, 0);
    assert_eq!(app.focused_pane, FocusedPane::Input);
    app.focused_pane = FocusedPane::Messages;
    key(&mut app, KeyInput::Char('h'));
    assert_eq!(app.focused_pane, FocusedPane::Sidebar);
    key(&mut app, KeyInput::Left);
    assert_eq!(app.focused_pane, FocusedPane::Input);
}

#[test]
fn messages_pane_scrolls_and_leaves() {
    let mut app = signed_in_app();
    app.focused_pane = FocusedPane::Messages;
    key(&mut app, KeyInput::Up);
    key(&mut app, KeyInput::Char('k'));
    assert_eq!(app.message_scroll, 6);
    key(&mut app, KeyInput::Down);
    assert_eq!(app.message_scroll, 3);
    key(&mut app, KeyInput::Esc);
    assert_eq!(app.focused_pane, FocusedPane::Sidebar);
}

#[test]
fn search_typing_offers_local_contacts() {
    let mut app = signed_in_app();
    key(&mut app, KeyInput::Char('/'));
    assert!(app.is_search_modal_open);
    assert!(matches!(key(&mut app, KeyInput::Char('a')), KeyCommand::SearchEdited { cleared: false }));
    assert_eq!(app.search_results.len(), 1);
    assert_eq!(app.search_results[0].id, "a");
    assert!(matches!(key(&mut app, KeyInput::Backspace), KeyCommand::SearchEdited { cleared: true }));
    assert!(app.search_results.is_empty());
    assert!(matches!(key(&mut app, KeyInput::Esc), KeyCommand::Nothing));
    assert!(!app.is_search_modal_open);
}

#[test]
fn search_enter_opens_the_known_chat() {
    let mut app = signed_in_app();
    app.open_search();
    key(&mut app, KeyInput::Char('a'));
    match key(&mut app, KeyInput::Enter) {
        KeyCommand::LoadConversation(c) => assert_eq!(c.cache_key(), "chat:c1"),
        other => panic!("unexpected {:?}", other),
    }
    assert!(!app.is_search_modal_open);
    assert_eq!(app.focused_pane, FocusedPane::Input);
    assert_eq!(app.status_message, "Opened chat with Alice. Press 'i' or Enter to type!");
    assert!(app.is_loading);
}

#[test]
fn search_enter_asks_for_a_new_chat() {
    let mut app = signed_in_app();
    app.open_search();
    app.search_query = "zo".to_string();
    app.search_results = vec![OrgUser {
        id: "z".to_string(),
        display_name: Some("Zoe".to_string()),
        user_principal_name: None,
        mail: None,
        job_title: None,
        department: None,
    }];
    match key(&mut app, KeyInput::Enter) {
        KeyCommand::OpenChat { my_id, target_id, target_name } => {
            assert_eq!(my_id, "me");
            assert_eq!(target_id, "z");
            assert_eq!(target_name, "Zoe");
        },
        other => panic!("unexpected {:?}", other),
    }
    assert_eq!(app.status_message, "Opening 1:1 chat with Zoe...");
    assert!(app.is_search_modal_open);
    let conv = app.chat_opened("new-chat".to_string(), "Zoe".to_string());
    assert_eq!(conv.cache_key(), "chat:new-chat");
    assert!(!app.is_search_modal_open);
    assert_eq!(app.focused_pane, FocusedPane::Input);
    assert_eq!(app.status_message, "Chatting with Zoe. Type a message and press Enter!");
    app.chat_open_failed("boom");
    assert_eq!(app.status_message, "Could not start chat: boom");
}

#[test]
fn status_menu_enter_sets_presence() {
    let mut app = signed_in_app();
    app.open_status_modal();
    key(&mut app, KeyInput::Down);
    match key(&mut app, KeyInput::Enter) {
        KeyCommand::SetPresence { user_id, availability, activity } => {
            assert_eq!(user_id, "me");
            assert_eq!(availability, "Busy");
            assert_eq!(activity, "Busy");
        },
        other => panic!("unexpected {:?}", other),
    }
    assert!(!app.is_status_modal_open);
    assert_eq!(app.status_message, "Updating presence status...");
    let mut anon = App::new();
    anon.open_status_modal();
    assert!(matches!(anon.handle_key(KeyInput::Enter, false), KeyCommand::Nothing));
    assert_eq!(anon.status_message, "Updating presence status...");
}

#[test]
fn status_menu_escape_closes() {
    let mut app = signed_in_app();
    app.open_status_modal();
    key(&mut app, KeyInput::Char('k'));
    assert_eq!(app.selected_status_idx, 5);
    assert!(matches!(key(&mut app, KeyInput::Esc), KeyCommand::Nothing));
    assert!(!app.is_status_modal_open);
}

#[test]
fn search_query_is_sent_once_after_the_delay() {
    let mut app = signed_in_app();
    app.search_query = "  bob ".to_string();
    assert_eq!(app.take_search_query(""), Some("bob".to_string()));
    assert!(app.is_searching);
    app.is_searching = false;
    assert_eq!(app.take_search_query("bob"), None);
    assert!(!app.is_searching);
    app.search_query = "   ".to_string();
    assert_eq!(app.take_search_query(""), None);
    app.search_query = "carol".to_string();
    app.directory_search_denied = true;
    assert_eq!(app.take_search_query(""), None);
}

#[test]
fn poll_intervals_have_floors() {
    let chat = Some(ActiveConversation::Chat { id: "c".into(), title: "t".into() });
    let channel = Some(ActiveConversation::Channel { team_id: "t".into(), channel_id: "c".into(), title: "x".into() });
    assert_eq!(active_poll_secs(1, 1, &chat), 5);
    assert_eq!(active_poll_secs(1, 40, &None), 5);
    assert_eq!(active_poll_secs(9, 1, &chat), 9);
    assert_eq!(active_poll_secs(9, 9, &channel), 15);
    assert_eq!(active_poll_secs(3, 20, &channel), 20);
    assert_eq!(presence_poll_secs(1), 3);
    assert_eq!(presence_poll_secs(10), 10);
    assert!(is_due(300, 300));
    assert!(!is_due(299, 300));
}

#[test]
fn initial_conversation_is_the_selected_line() {
    let mut app = signed_in_app();
    let conv = app.open_initial_conversation().expect("a chat is selected");
    assert_eq!(conv.cache_key(), "chat:c1");
    assert!(app.is_loading);
    assert_eq!(app.active_conversation, Some(conv));
    let mut empty = App::new();
    assert!(empty.open_initial_conversation().is_none());
    assert!(!empty.is_loading);
}

#[test]
fn keys_inside_a_character_are_refused() {
    let mut app = signed_in_app();
    app.focused_pane = FocusedPane::Input;
    assert!(app.key_is_ready(KeyInput::Char('é'), false));
    key(&mut app, KeyInput::Char('é'));
    // the cursor advanced one byte, into the middle of 'é'
    assert_eq!(app.cursor_pos, 1);
    assert!(!app.key_is_ready(KeyInput::Char('x'), false));
    // backspace deletes from byte 0, where 'é' starts
    assert!(app.key_is_ready(KeyInput::Backspace, false));
    assert!(app.key_is_ready(KeyInput::Left, false));
    assert!(app.key_is_ready(KeyInput::Char('c'), true));
    app.cursor_pos = 2;
    assert!(app.key_is_ready(KeyInput::Char('x'), false));
    assert!(!app.key_is_ready(KeyInput::Backspace, false));
    app.input_buffer = "ab".to_string();
    assert!(app.key_is_ready(KeyInput::Backspace, false));
}
