//! How a key press changes the state, and what work it asks the caller to
//! start: fetching messages, sending one, opening a chat, setting presence.
use vstd::prelude::*;
use vstd::utf8::encode_utf8;
use crate::app::{
    backspaced, cache_key_spec, can_backspace, conversation_of_line, cursor_on_boundary,
    down_from, inserted_at_cursor, local_contacts_spec, next_pane, opt_conv, prev_pane, status_option,
    status_option_spec, up_from, ActiveConversation, ActiveConversationView, App, FocusedPane,
    STATUS_OPTION_COUNT,
};
use crate::graph::{clone_messages, OrgUser};
use crate::text::{char_index_at_byte, is_blank, str_eq, trim_spec};

verus! {

broadcast use vstd::string::group_string_axioms;

/// A key press, as far as the client distinguishes keys.
#[derive(Debug, PartialEq, Eq, Clone, Copy, Structural)]
pub enum KeyInput {
    Char(char),
    Enter,
    Esc,
    Backspace,
    Tab,
    BackTab,
    Up,
    Down,
    Left,
    Right,
    Other,
}

/// Work a key press asks the caller to start.
#[derive(Debug)]
pub enum KeyCommand {
    Nothing,
    /// Leave the application.
    Quit,
    /// The search query was edited: restart the search delay; when `cleared`,
    /// also forget the last query searched for.
    SearchEdited { cleared: bool },
    /// Fetch the messages of this conversation.
    LoadConversation(ActiveConversation),
    /// Find or create the 1:1 chat between the two users, then report it
    /// with `chat_opened` or `chat_open_failed`.
    OpenChat { my_id: String, target_id: String, target_name: String },
    /// Set the user's preferred presence; an empty availability clears it.
    SetPresence { user_id: String, availability: String, activity: String },
    /// Send `text` to the conversation.
    SendMessage { conv: ActiveConversation, text: String },
    /// Fetch the chat and team lists again.
    RefreshSidebar,
}

/// The title of a conversation.
pub open spec fn title_of(c: ActiveConversationView) -> Seq<char> {
    match c {
        ActiveConversationView::Chat { title, .. } => title,
        ActiveConversationView::Channel { title, .. } => title,
    }
}

/// The signed-in user's id, or empty.
pub open spec fn my_id_spec(a: App) -> Seq<char> {
    match a.current_user {
        Some(u) => u.id@,
        None => Seq::empty(),
    }
}

fn my_id_of(a: &App) -> (r: String)
    ensures
        r@ == my_id_spec(*a),
{
    match &a.current_user {
        Some(u) => u.id.clone(),
        None => String::new(),
    }
}

/// `after` shows conversation `conv`: the cached messages when there are
/// some (marked as syncing), otherwise none while loading. The result tells
/// whether cached messages were shown.
pub open spec fn shows_conversation(before: App, conv: ActiveConversation, after: App, cached: bool) -> bool {
    let key = cache_key_spec(conv@);
    &&& cached == before.message_cache@.dom().contains(key)
    &&& after.active_conversation == Some(conv)
    &&& if cached {
        &&& after.messages.deep_view() == before.message_cache@[key].deep_view()
        &&& !after.is_loading
        &&& after.is_syncing
    } else {
        &&& after.messages@.len() == 0
        &&& after.is_loading
        &&& !after.is_syncing
    }
    &&& after == (App {
        active_conversation: after.active_conversation,
        messages: after.messages,
        is_loading: after.is_loading,
        is_syncing: after.is_syncing,
        ..before
    })
}

/// The pane before `p` in the focus cycle.
fn previous_pane(p: FocusedPane) -> (r: FocusedPane)
    ensures
        r == prev_pane(p),
{
    match p {
        FocusedPane::Sidebar => FocusedPane::Input,
        FocusedPane::Messages => FocusedPane::Sidebar,
        FocusedPane::Input => FocusedPane::Messages,
    }
}

impl App {
    /// Makes `conv` the conversation on screen, showing its cached messages
    /// if there are any; returns whether there were.
    fn show_conversation(&mut self, conv: ActiveConversation) -> (cached: bool)
        ensures
            shows_conversation(*old(self), conv, *final(self), cached),
    {
        let cached = match self.get_cached_messages(&conv) {
            Some(msgs) => Some(clone_messages(msgs)),
            None => None,
        };
        self.active_conversation = Some(conv);
        match cached {
            Some(m) => {
                self.messages = m;
                self.is_loading = false;
                self.is_syncing = true;
                true
            },
            None => {
                self.messages.clear();
                self.is_loading = true;
                self.is_syncing = false;
                false
            },
        }
    }
}

// ---------------------------------------------------------------------------
// Search modal
// ---------------------------------------------------------------------------

/// The name a search result is addressed by: its display name, or "User".
pub open spec fn target_name_spec(u: OrgUser) -> Seq<char> {
    match u.display_name {
        Some(n) => n@,
        None => "User"@,
    }
}

/// The state change and command of a key in the search modal.
pub open spec fn search_key_effect(before: App, key: KeyInput, after: App, cmd: KeyCommand) -> bool {
    match key {
        KeyInput::Esc => cmd is Nothing && after.search_query@.len() == 0
            && after.search_results@.len() == 0 && after == (App {
            is_search_modal_open: false,
            search_query: after.search_query,
            search_results: after.search_results,
            selected_search_idx: 0,
            is_searching: false,
            search_error_msg: None,
            ..before
        }),
        KeyInput::Down | KeyInput::Tab => cmd is Nothing && after == (App {
            selected_search_idx: if before.search_results@.len() > 0 {
                ((before.selected_search_idx + 1) % (before.search_results@.len() as int)) as usize
            } else {
                before.selected_search_idx
            },
            ..before
        }),
        KeyInput::Up | KeyInput::BackTab => cmd is Nothing && after == (App {
            selected_search_idx: if before.search_results@.len() == 0 {
                before.selected_search_idx
            } else if before.selected_search_idx == 0 {
                (before.search_results@.len() - 1) as usize
            } else {
                (before.selected_search_idx - 1) as usize
            },
            ..before
        }),
        KeyInput::Backspace => {
            let q = if before.search_query@.len() > 0 {
                before.search_query@.drop_last()
            } else {
                before.search_query@
            };
            &&& after.search_query@ == q
            &&& if trim_spec(q).len() == 0 {
                &&& cmd matches KeyCommand::SearchEdited { cleared } && cleared
                &&& after.search_results@.len() == 0
                &&& after == (App {
                    search_query: after.search_query,
                    search_results: after.search_results,
                    ..before
                })
            } else {
                &&& cmd matches KeyCommand::SearchEdited { cleared } && !cleared
                &&& after.search_results.deep_view() == local_contacts_spec(
                    before.raw_chats.deep_view(),
                    q,
                    before.current_user,
                )
                &&& after == (App {
                    search_query: after.search_query,
                    search_results: after.search_results,
                    selected_search_idx: 0,
                    ..before
                })
            }
        },
        KeyInput::Char(c) => {
            let q = before.search_query@.push(c);
            let local = local_contacts_spec(before.raw_chats.deep_view(), q, before.current_user);
            &&& cmd matches KeyCommand::SearchEdited { cleared } && !cleared
            &&& after.search_query@ == q
            &&& if local.len() > 0 {
                &&& after.search_results.deep_view() == local
                &&& after == (App {
                    search_query: after.search_query,
                    search_results: after.search_results,
                    selected_search_idx: 0,
                    ..before
                })
            } else {
                after == (App { search_query: after.search_query, ..before })
            }
        },
        KeyInput::Enter => search_enter_effect(before, after, cmd),
        _ => cmd is Nothing && after == before,
    }
}

/// Enter in the search modal: with a selected user, open the known chat with
/// them, or ask for one to be found or created when both ids are known.
pub open spec fn search_enter_effect(before: App, after: App, cmd: KeyCommand) -> bool {
    if before.selected_search_idx >= before.search_results@.len() {
        cmd is Nothing && after == before
    } else {
        let target = before.search_results@[before.selected_search_idx as int];
        let name = target_name_spec(target);
        match crate::app::chat_with_target_from(
            before.raw_chats.deep_view(),
            name,
            target.id@,
            0,
        ) {
            Some(i) => {
                let chat = before.raw_chats.deep_view()[i];
                &&& cmd matches KeyCommand::LoadConversation(conv) && conv@
                    == (ActiveConversationView::Chat { id: chat.id, title: name })
                    && after.active_conversation == Some(conv)
                &&& after.search_query@.len() == 0
                &&& after.search_results@.len() == 0
                &&& !after.is_search_modal_open
                &&& after.selected_search_idx == 0
                &&& !after.is_searching
                &&& after.search_error_msg is None
                &&& after.focused_pane == FocusedPane::Input
                &&& after.status_message@ == "Opened chat with "@ + name
                    + ". Press 'i' or Enter to type!"@
                &&& if before.message_cache@.dom().contains(
                    "chat:"@ + chat.id,
                ) {
                    &&& after.messages.deep_view() == before.message_cache@["chat:"@
                        + chat.id].deep_view()
                    &&& !after.is_loading && after.is_syncing
                } else {
                    after.messages@.len() == 0 && after.is_loading && !after.is_syncing
                }
                &&& after == (App {
                    active_conversation: after.active_conversation,
                    messages: after.messages,
                    is_loading: after.is_loading,
                    is_syncing: after.is_syncing,
                    search_query: after.search_query,
                    search_results: after.search_results,
                    is_search_modal_open: false,
                    selected_search_idx: 0,
                    is_searching: false,
                    search_error_msg: None,
                    focused_pane: FocusedPane::Input,
                    status_message: after.status_message,
                    ..before
                })
            },
            None => if my_id_spec(before).len() > 0 && target.id@.len() > 0 {
                &&& cmd matches KeyCommand::OpenChat { my_id, target_id, target_name } && my_id@
                    == my_id_spec(before) && target_id@ == target.id@ && target_name@ == name
                &&& after.status_message@ == "Opening 1:1 chat with "@ + name + "..."@
                &&& after == (App { status_message: after.status_message, ..before })
            } else {
                cmd is Nothing && after == before
            },
        }
    }
}

/// What a key needs from the state to be handled in the search modal.
pub open spec fn search_key_ready(a: App, key: KeyInput) -> bool {
    (key is Down || key is Tab) ==> (a.search_results@.len() > 0 ==> a.selected_search_idx
        < usize::MAX)
}

impl App {
    fn open_found_chat(&mut self, chat_id: String, name: String) -> (cmd: KeyCommand)
        requires
            old(self).selected_search_idx < old(self).search_results@.len(),
        ensures
            cmd matches KeyCommand::LoadConversation(conv) && conv@ == (ActiveConversationView::Chat {
                id: chat_id@,
                title: name@,
            }) && final(self).active_conversation == Some(conv),
            final(self).search_query@.len() == 0,
            final(self).search_results@.len() == 0,
            final(self).status_message@ == "Opened chat with "@ + name@
                + ". Press 'i' or Enter to type!"@,
            old(self).message_cache@.dom().contains("chat:"@ + chat_id@) ==> {
                &&& final(self).messages.deep_view() == old(self).message_cache@["chat:"@
                    + chat_id@].deep_view()
                &&& !final(self).is_loading && final(self).is_syncing
            },
            !old(self).message_cache@.dom().contains("chat:"@ + chat_id@) ==> final(self).messages@.len()
                == 0 && final(self).is_loading && !final(self).is_syncing,
            *final(self) == (App {
                active_conversation: final(self).active_conversation,
                messages: final(self).messages,
                is_loading: final(self).is_loading,
                is_syncing: final(self).is_syncing,
                search_query: final(self).search_query,
                search_results: final(self).search_results,
                is_search_modal_open: false,
                selected_search_idx: 0,
                is_searching: false,
                search_error_msg: None,
                focused_pane: FocusedPane::Input,
                status_message: final(self).status_message,
                ..*old(self)
            }),
    {
        let conv = ActiveConversation::Chat { id: chat_id, title: name.clone() };
        let load = conv.clone();
        self.active_conversation = Some(conv.clone());
        self.close_search();
        self.focused_pane = FocusedPane::Input;
        let mut s = String::from_str("Opened chat with ");
        s.append(name.as_str());
        s.append(". Press 'i' or Enter to type!");
        self.status_message = s;
        self.show_conversation(conv);
        KeyCommand::LoadConversation(load)
    }

    fn search_enter(&mut self) -> (cmd: KeyCommand)
        ensures
            search_enter_effect(*old(self), *final(self), cmd),
    {
        if self.selected_search_idx >= self.search_results.len() {
            return KeyCommand::Nothing;
        }
        let target = &self.search_results[self.selected_search_idx];
        let target_id = target.id.clone();
        let name = match &target.display_name {
            Some(n) => n.clone(),
            None => String::from_str("User"),
        };
        let my_id = my_id_of(self);
        match self.find_existing_chat(name.as_str(), target_id.as_str()) {
            Some(chat) => self.open_found_chat(chat.id, name),
            None => {
                if !my_id.as_str().is_empty() && !target_id.as_str().is_empty() {
                    let mut s = String::from_str("Opening 1:1 chat with ");
                    s.append(name.as_str());
                    s.append("...");
                    self.status_message = s;
                    KeyCommand::OpenChat { my_id, target_id, target_name: name }
                } else {
                    KeyCommand::Nothing
                }
            },
        }
    }

    /// Handles a key while the search modal is open.
    pub fn handle_search_key(&mut self, key: KeyInput) -> (cmd: KeyCommand)
        requires
            search_key_ready(*old(self), key),
        ensures
            search_key_effect(*old(self), key, *final(self), cmd),
    {
        match key {
            KeyInput::Esc => {
                self.close_search();
                KeyCommand::Nothing
            },
            KeyInput::Down | KeyInput::Tab => {
                self.search_down();
                KeyCommand::Nothing
            },
            KeyInput::Up | KeyInput::BackTab => {
                self.search_up();
                KeyCommand::Nothing
            },
            KeyInput::Backspace => {
                self.search_backspace();
                if is_blank(self.search_query.as_str()) {
                    self.search_results.clear();
                    KeyCommand::SearchEdited { cleared: true }
                } else {
                    let local = self.search_local_contacts(self.search_query.as_str());
                    self.search_results = local;
                    self.selected_search_idx = 0;
                    KeyCommand::SearchEdited { cleared: false }
                }
            },
            KeyInput::Char(c) => {
                self.search_char(c);
                let local = self.search_local_contacts(self.search_query.as_str());
                if local.len() > 0 {
                    self.search_results = local;
                    self.selected_search_idx = 0;
                }
                KeyCommand::SearchEdited { cleared: false }
            },
            KeyInput::Enter => self.search_enter(),
            _ => KeyCommand::Nothing,
        }
    }

    /// The 1:1 chat asked for with `OpenChat` exists: show it under `title`,
    /// close the search and focus the input line. Returns the conversation
    /// whose messages to fetch; the chat list should be refreshed too.
    pub fn chat_opened(&mut self, chat_id: String, title: String) -> (conv: ActiveConversation)
        ensures
            conv@ == (ActiveConversationView::Chat { id: chat_id@, title: title@ }),
            final(self).active_conversation == Some(conv),
            final(self).search_query@.len() == 0,
            final(self).search_results@.len() == 0,
            final(self).status_message@ == "Chatting with "@ + title@
                + ". Type a message and press Enter!"@,
            *final(self) == (App {
                active_conversation: final(self).active_conversation,
                search_query: final(self).search_query,
                search_results: final(self).search_results,
                is_search_modal_open: false,
                selected_search_idx: 0,
                is_searching: false,
                search_error_msg: None,
                focused_pane: FocusedPane::Input,
                status_message: final(self).status_message,
                ..*old(self)
            }),
    {
        let mut s = String::from_str("Chatting with ");
        s.append(title.as_str());
        s.append(". Type a message and press Enter!");
        let conv = ActiveConversation::Chat { id: chat_id, title };
        self.active_conversation = Some(conv.clone());
        self.close_search();
        self.focused_pane = FocusedPane::Input;
        self.status_message = s;
        conv
    }

    /// The 1:1 chat asked for with `OpenChat` could not be opened.
    pub fn chat_open_failed(&mut self, error: &str)
        ensures
            final(self).status_message@ == "Could not start chat: "@ + error@,
            *final(self) == (App { status_message: final(self).status_message, ..*old(self) }),
    {
        let mut s = String::from_str("Could not start chat: ");
        s.append(error);
        self.status_message = s;
    }
}

// ---------------------------------------------------------------------------
// Status modal
// ---------------------------------------------------------------------------

/// The state change and command of a key in the status menu.
pub open spec fn status_key_effect(before: App, key: KeyInput, after: App, cmd: KeyCommand) -> bool {
    match key {
        KeyInput::Esc => cmd is Nothing && after == (App {
            is_status_modal_open: false,
            ..before
        }),
        KeyInput::Down | KeyInput::Tab | KeyInput::Char('j') => cmd is Nothing && after == (App {
            selected_status_idx: ((before.selected_status_idx + 1) % (
            STATUS_OPTION_COUNT as int)) as usize,
            ..before
        }),
        KeyInput::Up | KeyInput::BackTab | KeyInput::Char('k') => cmd is Nothing && after == (App {
            selected_status_idx: if before.selected_status_idx == 0 {
                (STATUS_OPTION_COUNT - 1) as usize
            } else {
                (before.selected_status_idx - 1) as usize
            },
            ..before
        }),
        KeyInput::Enter => {
            let opt = status_option_spec(before.selected_status_idx as int);
            &&& if my_id_spec(before).len() > 0 {
                cmd matches KeyCommand::SetPresence { user_id, availability, activity } && user_id@
                    == my_id_spec(before) && availability@ == opt.2 && activity@ == opt.3
            } else {
                cmd is Nothing
            }
            &&& after.status_message@ == "Updating presence status..."@
            &&& after == (App {
                is_status_modal_open: false,
                status_message: after.status_message,
                ..before
            })
        },
        _ => cmd is Nothing && after == before,
    }
}

/// What a key needs from the state to be handled in the status menu.
pub open spec fn status_key_ready(a: App, key: KeyInput) -> bool {
    &&& (key is Down || key is Tab || key == KeyInput::Char('j')) ==> a.selected_status_idx
        < usize::MAX
    &&& key is Enter ==> a.selected_status_idx < STATUS_OPTION_COUNT
}

impl App {
    /// Handles a key while the status menu is open.
    pub fn handle_status_key(&mut self, key: KeyInput) -> (cmd: KeyCommand)
        requires
            status_key_ready(*old(self), key),
        ensures
            status_key_effect(*old(self), key, *final(self), cmd),
    {
        match key {
            KeyInput::Esc => {
                self.close_status_modal();
                KeyCommand::Nothing
            },
            KeyInput::Down | KeyInput::Tab | KeyInput::Char('j') => {
                self.status_down();
                KeyCommand::Nothing
            },
            KeyInput::Up | KeyInput::BackTab | KeyInput::Char('k') => {
                self.status_up();
                KeyCommand::Nothing
            },
            KeyInput::Enter => {
                let (_, _, availability, activity) = status_option(self.selected_status_idx);
                let my_id = my_id_of(self);
                let cmd = if !my_id.as_str().is_empty() {
                    KeyCommand::SetPresence {
                        user_id: my_id,
                        availability: availability.to_owned(),
                        activity: activity.to_owned(),
                    }
                } else {
                    KeyCommand::Nothing
                };
                self.close_status_modal();
                self.status_message = String::from_str("Updating presence status...");
                cmd
            },
            _ => KeyCommand::Nothing,
        }
    }
}

// ---------------------------------------------------------------------------
// Panes
// ---------------------------------------------------------------------------

/// The state change and command of a key in the input line.
pub open spec fn input_key_effect(before: App, key: KeyInput, after: App, cmd: KeyCommand) -> bool {
    match key {
        KeyInput::Enter => if trim_spec(before.input_buffer@).len() == 0 {
            cmd is Nothing && after == before
        } else if before.active_conversation is Some {
            &&& cmd matches KeyCommand::SendMessage { conv, text } && conv
                == before.active_conversation->0 && text == before.input_buffer
            &&& after.input_buffer@.len() == 0
            &&& after.status_message@ == "Sending message..."@
            &&& after == (App {
                input_buffer: after.input_buffer,
                cursor_pos: 0,
                status_message: after.status_message,
                ..before
            })
        } else {
            &&& cmd is Nothing
            &&& after.status_message@ == "Cannot send: No active conversation selected."@
            &&& after == (App { status_message: after.status_message, ..before })
        },
        KeyInput::Backspace => cmd is Nothing && backspaced(before, after),
        KeyInput::Esc => cmd is Nothing && after == (App {
            focused_pane: FocusedPane::Sidebar,
            ..before
        }),
        KeyInput::Tab => cmd is Nothing && after == (App {
            focused_pane: next_pane(before.focused_pane),
            ..before
        }),
        KeyInput::Left => cmd is Nothing && after == (App {
            cursor_pos: if before.cursor_pos > 0 {
                (before.cursor_pos - 1) as usize
            } else {
                0
            },
            ..before
        }),
        KeyInput::Right => cmd is Nothing && after == (App {
            cursor_pos: if before.cursor_pos < (encode_utf8(before.input_buffer@).len() as usize) {
                (before.cursor_pos + 1) as usize
            } else {
                before.cursor_pos
            },
            ..before
        }),
        KeyInput::Char(c) => cmd is Nothing && inserted_at_cursor(before, c, after),
        _ => cmd is Nothing && after == before,
    }
}

/// What a key needs from the state to be handled in the input line.
pub open spec fn input_key_ready(a: App, key: KeyInput) -> bool {
    &&& key is Backspace ==> can_backspace(a)
    &&& key is Char ==> cursor_on_boundary(a.input_buffer@, a.cursor_pos as int) && a.cursor_pos
        < usize::MAX
}

/// The state change and command of a key in the sidebar.
pub open spec fn sidebar_key_effect(before: App, key: KeyInput, after: App, cmd: KeyCommand) -> bool {
    match key {
        KeyInput::Char('q') => cmd is Quit && after == before,
        KeyInput::Tab => cmd is Nothing && after == (App {
            focused_pane: next_pane(before.focused_pane),
            ..before
        }),
        KeyInput::Char('i') => cmd is Nothing && after == (App {
            focused_pane: FocusedPane::Input,
            ..before
        }),
        KeyInput::Char('/') | KeyInput::Char('s') => cmd is Nothing && after.search_query@.len()
            == 0 && after.search_results@.len() == 0 && after == (App {
            is_search_modal_open: true,
            search_query: after.search_query,
            search_results: after.search_results,
            selected_search_idx: 0,
            is_searching: false,
            search_error_msg: None,
            ..before
        }),
        KeyInput::Char('p') => cmd is Nothing && after == (App {
            is_status_modal_open: true,
            selected_status_idx: 0,
            ..before
        }),
        KeyInput::Char('j') | KeyInput::Down => cmd is Nothing && after == (App {
            selected_sidebar_idx: if before.sidebar_items@.len() == 0 {
                before.selected_sidebar_idx
            } else {
                match down_from(
                    before.sidebar_items.deep_view(),
                    before.selected_sidebar_idx as int,
                    1,
                ) {
                    Some(i) => i as usize,
                    None => before.selected_sidebar_idx,
                }
            },
            ..before
        }),
        KeyInput::Char('k') | KeyInput::Up => cmd is Nothing && after == (App {
            selected_sidebar_idx: if before.sidebar_items@.len() == 0 {
                before.selected_sidebar_idx
            } else {
                match up_from(
                    before.sidebar_items.deep_view(),
                    before.selected_sidebar_idx as int,
                    1,
                ) {
                    Some(i) => i as usize,
                    None => before.selected_sidebar_idx,
                }
            },
            ..before
        }),
        KeyInput::Enter => {
            let line = if before.selected_sidebar_idx < before.sidebar_items@.len() {
                conversation_of_line(before.sidebar_items@[before.selected_sidebar_idx as int]@)
            } else {
                None
            };
            match line {
                Some(cv) => {
                    &&& cmd matches KeyCommand::LoadConversation(conv) && conv@ == cv && {
                        let mid = App { status_message: before.status_message, ..after };
                        exists|cached: bool|
                            shows_conversation(before, conv, mid, cached) && after.status_message@
                                == if cached {
                                "Loaded (cached) - Syncing "@ + title_of(cv) + "..."@
                            } else {
                                "Loading "@ + title_of(cv) + "..."@
                            }
                    }
                },
                None => cmd is Nothing && after == before,
            }
        },
        KeyInput::Char('r') => {
            &&& cmd is RefreshSidebar
            &&& after.status_message@ == "Refreshing conversations in background..."@
            &&& after == (App { status_message: after.status_message, ..before })
        },
        KeyInput::Char('l') | KeyInput::Right => cmd is Nothing && after == (App {
            focused_pane: next_pane(before.focused_pane),
            ..before
        }),
        KeyInput::Char('h') | KeyInput::Left => cmd is Nothing && after == (App {
            focused_pane: prev_pane(before.focused_pane),
            ..before
        }),
        _ => cmd is Nothing && after == before,
    }
}

/// What a key needs from the state to be handled in the sidebar.
pub open spec fn sidebar_key_ready(a: App, key: KeyInput) -> bool {
    &&& (key == KeyInput::Char('j') || key is Down) ==> (a.sidebar_items@.len() > 0
        ==> a.selected_sidebar_idx < usize::MAX)
    &&& (key == KeyInput::Char('k') || key is Up) ==> (a.sidebar_items@.len() > 0
        ==> a.selected_sidebar_idx <= a.sidebar_items@.len())
}

/// The state change and command of a key in the message view.
pub open spec fn messages_key_effect(before: App, key: KeyInput, after: App, cmd: KeyCommand) -> bool {
    match key {
        KeyInput::Char('q') => cmd is Quit && after == before,
        KeyInput::Tab => cmd is Nothing && after == (App {
            focused_pane: next_pane(before.focused_pane),
            ..before
        }),
        KeyInput::Esc => cmd is Nothing && after == (App {
            focused_pane: FocusedPane::Sidebar,
            ..before
        }),
        KeyInput::Char('i') => cmd is Nothing && after == (App {
            focused_pane: FocusedPane::Input,
            ..before
        }),
        KeyInput::Char('/') | KeyInput::Char('s') => cmd is Nothing && after.search_query@.len()
            == 0 && after.search_results@.len() == 0 && after == (App {
            is_search_modal_open: true,
            search_query: after.search_query,
            search_results: after.search_results,
            selected_search_idx: 0,
            is_searching: false,
            search_error_msg: None,
            ..before
        }),
        KeyInput::Char('k') | KeyInput::Up => cmd is Nothing && after == (App {
            message_scroll: if before.message_scroll + 3 > usize::MAX {
                usize::MAX
            } else {
                (before.message_scroll + 3) as usize
            },
            ..before
        }),
        KeyInput::Char('j') | KeyInput::Down => cmd is Nothing && after == (App {
            message_scroll: if before.message_scroll < 3 {
                0
            } else {
                (before.message_scroll - 3) as usize
            },
            ..before
        }),
        KeyInput::Char('l') | KeyInput::Right => cmd is Nothing && after == (App {
            focused_pane: next_pane(before.focused_pane),
            ..before
        }),
        KeyInput::Char('h') | KeyInput::Left => cmd is Nothing && after == (App {
            focused_pane: prev_pane(before.focused_pane),
            ..before
        }),
        _ => cmd is Nothing && after == before,
    }
}

impl App {
    /// Handles a key in the input line.
    pub fn handle_input_key(&mut self, key: KeyInput) -> (cmd: KeyCommand)
        requires
            input_key_ready(*old(self), key),
        ensures
            input_key_effect(*old(self), key, *final(self), cmd),
    {
        match key {
            KeyInput::Enter => {
                if is_blank(self.input_buffer.as_str()) {
                    return KeyCommand::Nothing;
                }
                match &self.active_conversation {
                    Some(c) => {
                        let conv = c.clone();
                        let text = self.clear_input();
                        self.status_message = String::from_str("Sending message...");
                        KeyCommand::SendMessage { conv, text }
                    },
                    None => {
                        self.status_message = String::from_str(
                            "Cannot send: No active conversation selected.",
                        );
                        KeyCommand::Nothing
                    },
                }
            },
            KeyInput::Backspace => {
                self.backspace();
                KeyCommand::Nothing
            },
            KeyInput::Esc => {
                self.focused_pane = FocusedPane::Sidebar;
                KeyCommand::Nothing
            },
            KeyInput::Tab => {
                self.cycle_focus();
                KeyCommand::Nothing
            },
            KeyInput::Left => {
                if self.cursor_pos > 0 {
                    self.cursor_pos -= 1;
                }
                KeyCommand::Nothing
            },
            KeyInput::Right => {
                if self.cursor_pos < self.input_buffer.as_str().len() {
                    self.cursor_pos += 1;
                }
                KeyCommand::Nothing
            },
            KeyInput::Char(c) => {
                self.insert_char(c);
                KeyCommand::Nothing
            },
            _ => KeyCommand::Nothing,
        }
    }

    /// Handles a key in the sidebar.
    pub fn handle_sidebar_key(&mut self, key: KeyInput) -> (cmd: KeyCommand)
        requires
            sidebar_key_ready(*old(self), key),
        ensures
            sidebar_key_effect(*old(self), key, *final(self), cmd),
    {
        match key {
            KeyInput::Char('q') => KeyCommand::Quit,
            KeyInput::Tab => {
                self.cycle_focus();
                KeyCommand::Nothing
            },
            KeyInput::Char('i') => {
                self.focused_pane = FocusedPane::Input;
                KeyCommand::Nothing
            },
            KeyInput::Char('/') | KeyInput::Char('s') => {
                self.open_search();
                KeyCommand::Nothing
            },
            KeyInput::Char('p') => {
                self.open_status_modal();
                KeyCommand::Nothing
            },
            KeyInput::Char('j') | KeyInput::Down => {
                self.sidebar_down();
                KeyCommand::Nothing
            },
            KeyInput::Char('k') | KeyInput::Up => {
                self.sidebar_up();
                KeyCommand::Nothing
            },
            KeyInput::Enter => {
                match self.currently_selected_conversation() {
                    Some(conv) => {
                        let title = match &conv {
                            ActiveConversation::Chat { title, .. } => title.clone(),
                            ActiveConversation::Channel { title, .. } => title.clone(),
                        };
                        let load = conv.clone();
                        let ghost before = *self;
                        let cached = self.show_conversation(conv);
                        let ghost mid = *self;
                        let mut s = if cached {
                            String::from_str("Loaded (cached) - Syncing ")
                        } else {
                            String::from_str("Loading ")
                        };
                        s.append(title.as_str());
                        s.append("...");
                        self.status_message = s;
                        assert(mid == (App { status_message: before.status_message, ..*self }));
                        assert(shows_conversation(before, load, App { status_message: before.status_message, ..*self }, cached));
                        KeyCommand::LoadConversation(load)
                    },
                    None => KeyCommand::Nothing,
                }
            },
            KeyInput::Char('r') => {
                self.status_message = String::from_str("Refreshing conversations in background...");
                KeyCommand::RefreshSidebar
            },
            KeyInput::Char('l') | KeyInput::Right => {
                self.cycle_focus();
                KeyCommand::Nothing
            },
            KeyInput::Char('h') | KeyInput::Left => {
                self.focused_pane = previous_pane(self.focused_pane);
                KeyCommand::Nothing
            },
            _ => KeyCommand::Nothing,
        }
    }

    /// Handles a key in the message view.
    pub fn handle_messages_key(&mut self, key: KeyInput) -> (cmd: KeyCommand)
        ensures
            messages_key_effect(*old(self), key, *final(self), cmd),
    {
        match key {
            KeyInput::Char('q') => KeyCommand::Quit,
            KeyInput::Tab => {
                self.cycle_focus();
                KeyCommand::Nothing
            },
            KeyInput::Esc => {
                self.focused_pane = FocusedPane::Sidebar;
                KeyCommand::Nothing
            },
            KeyInput::Char('i') => {
                self.focused_pane = FocusedPane::Input;
                KeyCommand::Nothing
            },
            KeyInput::Char('/') | KeyInput::Char('s') => {
                self.open_search();
                KeyCommand::Nothing
            },
            KeyInput::Char('k') | KeyInput::Up => {
                self.scroll_messages_up();
                KeyCommand::Nothing
            },
            KeyInput::Char('j') | KeyInput::Down => {
                self.scroll_messages_down();
                KeyCommand::Nothing
            },
            KeyInput::Char('l') | KeyInput::Right => {
                self.cycle_focus();
                KeyCommand::Nothing
            },
            KeyInput::Char('h') | KeyInput::Left => {
                self.focused_pane = previous_pane(self.focused_pane);
                KeyCommand::Nothing
            },
            _ => KeyCommand::Nothing,
        }
    }
}

// ---------------------------------------------------------------------------
// Dispatch
// ---------------------------------------------------------------------------

/// Whether a key is Ctrl+C.
pub open spec fn is_interrupt(key: KeyInput, ctrl: bool) -> bool {
    ctrl && key == KeyInput::Char('c')
}

/// What a key needs from the state, wherever it is handled.
pub open spec fn key_ready(a: App, key: KeyInput, ctrl: bool) -> bool {
    if a.is_search_modal_open {
        search_key_ready(a, key)
    } else if a.is_status_modal_open {
        status_key_ready(a, key)
    } else if is_interrupt(key, ctrl) {
        true
    } else {
        match a.focused_pane {
            FocusedPane::Input => input_key_ready(a, key),
            FocusedPane::Sidebar => sidebar_key_ready(a, key),
            FocusedPane::Messages => true,
        }
    }
}

/// The state change and command of a key: an open search modal takes every
/// key, then an open status menu; otherwise Ctrl+C quits, and any other key
/// goes to the focused pane.
pub open spec fn key_effect(before: App, key: KeyInput, ctrl: bool, after: App, cmd: KeyCommand) -> bool {
    if before.is_search_modal_open {
        search_key_effect(before, key, after, cmd)
    } else if before.is_status_modal_open {
        status_key_effect(before, key, after, cmd)
    } else if is_interrupt(key, ctrl) {
        cmd is Quit && after == before
    } else {
        match before.focused_pane {
            FocusedPane::Input => input_key_effect(before, key, after, cmd),
            FocusedPane::Sidebar => sidebar_key_effect(before, key, after, cmd),
            FocusedPane::Messages => messages_key_effect(before, key, after, cmd),
        }
    }
}

impl App {
    /// Handles one key press; `ctrl` tells whether Control was held.
    pub fn handle_key(&mut self, key: KeyInput, ctrl: bool) -> (cmd: KeyCommand)
        requires
            key_ready(*old(self), key, ctrl),
        ensures
            key_effect(*old(self), key, ctrl, *final(self), cmd),
    {
        if self.is_search_modal_open {
            return self.handle_search_key(key);
        }
        if self.is_status_modal_open {
            return self.handle_status_key(key);
        }
        if ctrl && key == KeyInput::Char('c') {
            return KeyCommand::Quit;
        }
        match self.focused_pane {
            FocusedPane::Input => self.handle_input_key(key),
            FocusedPane::Sidebar => self.handle_sidebar_key(key),
            FocusedPane::Messages => self.handle_messages_key(key),
        }
    }

    /// Whether `handle_key` can take this key in the current state (see `key_ready`).
    pub fn key_is_ready(&self, key: KeyInput, ctrl: bool) -> (r: bool)
        ensures
            r == key_ready(*self, key, ctrl),
    {
        if self.is_search_modal_open {
            return match key {
                KeyInput::Down | KeyInput::Tab => self.search_results.len() == 0
                    || self.selected_search_idx < usize::MAX,
                _ => true,
            };
        }
        if self.is_status_modal_open {
            return match key {
                KeyInput::Down | KeyInput::Tab | KeyInput::Char('j') => self.selected_status_idx
                    < usize::MAX,
                KeyInput::Enter => self.selected_status_idx < STATUS_OPTION_COUNT,
                _ => true,
            };
        }
        if ctrl && key == KeyInput::Char('c') {
            return true;
        }
        match self.focused_pane {
            FocusedPane::Input => match key {
                KeyInput::Backspace => {
                    if self.cursor_pos > 0 && !self.input_buffer.as_str().is_empty() {
                        match char_index_at_byte(self.input_buffer.as_str(), self.cursor_pos - 1) {
                            Some(k) => k < self.input_buffer.as_str().unicode_len(),
                            None => false,
                        }
                    } else {
                        true
                    }
                },
                KeyInput::Char(_) => self.cursor_pos < usize::MAX && char_index_at_byte(
                    self.input_buffer.as_str(),
                    self.cursor_pos,
                ).is_some(),
                _ => true,
            },
            FocusedPane::Sidebar => match key {
                KeyInput::Char('j') | KeyInput::Down => self.sidebar_items.len() == 0
                    || self.selected_sidebar_idx < usize::MAX,
                KeyInput::Char('k') | KeyInput::Up => self.sidebar_items.len() == 0
                    || self.selected_sidebar_idx <= self.sidebar_items.len(),
                _ => true,
            },
            FocusedPane::Messages => true,
        }
    }

    /// Once the search delay has passed: the query to search the directory
    /// for, if any. That is the trimmed query when it is not empty, differs
    /// from the one searched last, and directory search is not known to be
    /// denied; the search is then marked as running.
    pub fn take_search_query(&mut self, last_query: &str) -> (r: Option<String>)
        ensures
            ({
                let q = trim_spec(old(self).search_query@);
                if q.len() > 0 && q != last_query@ && !old(self).directory_search_denied {
                    &&& r matches Some(s) && s@ == q
                    &&& *final(self) == (App { is_searching: true, ..*old(self) })
                } else {
                    &&& r is None
                    &&& *final(self) == *old(self)
                }
            }),
    {
        let q = crate::text::trim(self.search_query.as_str());
        if !is_blank(self.search_query.as_str()) && !str_eq(q.as_str(), last_query) && !self.directory_search_denied {
            self.is_searching = true;
            Some(q)
        } else {
            None
        }
    }
}

/// The selected sidebar line's conversation, if the selection is on one.
pub open spec fn selected_line_conversation(a: App) -> Option<ActiveConversationView> {
    if a.selected_sidebar_idx < a.sidebar_items@.len() {
        conversation_of_line(a.sidebar_items@[a.selected_sidebar_idx as int]@)
    } else {
        None
    }
}

impl App {
    /// At start-up: the conversation under the sidebar selection, if any,
    /// becomes the open one; the open conversation, if there is one, starts
    /// loading and is returned so that its messages are fetched.
    pub fn open_initial_conversation(&mut self) -> (r: Option<ActiveConversation>)
        ensures
            opt_conv(final(self).active_conversation) == match selected_line_conversation(
                *old(self),
            ) {
                Some(c) => Some(c),
                None => opt_conv(old(self).active_conversation),
            },
            r == final(self).active_conversation,
            r is Some ==> *final(self) == (App {
                active_conversation: final(self).active_conversation,
                is_loading: true,
                ..*old(self)
            }),
            r is None ==> *final(self) == *old(self),
    {
        if let Some(c) = self.currently_selected_conversation() {
            self.active_conversation = Some(c);
        }
        match &self.active_conversation {
            Some(c) => {
                let conv = c.clone();
                self.is_loading = true;
                Some(conv)
            },
            None => None,
        }
    }
}

/// Shortest wait between polls of an open chat, in seconds.
pub const CHAT_POLL_MIN_SECS: u64 = 5;

/// Shortest wait between polls of an open channel, in seconds.
pub const CHANNEL_POLL_MIN_SECS: u64 = 15;

/// Shortest wait between polls of the user's own presence, in seconds.
pub const PRESENCE_POLL_MIN_SECS: u64 = 3;

/// How long a search query must rest before it is sent, in milliseconds.
pub const SEARCH_DELAY_MS: u64 = 300;

/// Wait between refreshes of the other users' presence, in seconds.
pub const CONTACT_PRESENCE_POLL_SECS: u64 = 30;

/// Wait between renewals of the presence session, in seconds.
pub const PRESENCE_SESSION_RENEW_SECS: u64 = 2700;

/// The wait between polls of the open conversation: the configured channel
/// interval, but at least 15 s, for a channel; the configured chat interval,
/// but at least 5 s, otherwise.
pub fn active_poll_secs(chat_secs: u64, channel_secs: u64, active: &Option<ActiveConversation>) -> (r:
    u64)
    ensures
        r == if active matches Some(ActiveConversation::Channel { .. }) {
            if channel_secs < CHANNEL_POLL_MIN_SECS { CHANNEL_POLL_MIN_SECS } else { channel_secs }
        } else {
            if chat_secs < CHAT_POLL_MIN_SECS { CHAT_POLL_MIN_SECS } else { chat_secs }
        },
{
    match active {
        Some(ActiveConversation::Channel { .. }) => if channel_secs < CHANNEL_POLL_MIN_SECS {
            CHANNEL_POLL_MIN_SECS
        } else {
            channel_secs
        },
        _ => if chat_secs < CHAT_POLL_MIN_SECS {
            CHAT_POLL_MIN_SECS
        } else {
            chat_secs
        },
    }
}

/// The wait between polls of the user's own presence: the configured
/// interval, but at least 3 s.
pub fn presence_poll_secs(configured: u64) -> (r: u64)
    ensures
        r == if configured < PRESENCE_POLL_MIN_SECS { PRESENCE_POLL_MIN_SECS } else { configured },
{
    if configured < PRESENCE_POLL_MIN_SECS { PRESENCE_POLL_MIN_SECS } else { configured }
}

/// Whether a wait of `period` has passed after `elapsed` went by.
pub fn is_due(elapsed: u64, period: u64) -> (r: bool)
    ensures
        r == (elapsed >= period),
{
    elapsed >= period
}

} // verus!
