//! The application state: sidebar, active conversation, message cache, input
//! line, search and status modals, and every transition the keyboard and the
//! background tasks drive.
use vstd::prelude::*;
use crate::graph::{
    clone_opt_string, opt_str, opt_str_ref, resolved_title_spec,
    ChannelSummary, ChannelSummaryView, ChatMemberView, ChatMessage, ChatSummary,
    ChatSummaryView, OrgUser, OrgUserView, PresenceInfo, TeamSummary, TeamSummaryView,
    UserProfile,
};
use crate::store::KeyedStore;
use crate::text::{
    clear_string, contains_seq, contains_str, eq_ignore_ascii_case, eq_ignore_ascii_case_spec,
    insert_char_at, is_blank, lowercase_of, pop_char, push_char, remove_char_at, str_eq,
    to_lowercase, trim, trim_spec, utf8_offset,
};

verus! {

broadcast use vstd::string::group_string_axioms;

/// The pane that has keyboard focus.
#[derive(Debug, PartialEq, Eq, Clone, Copy, Structural)]
pub enum FocusedPane {
    Sidebar,
    Messages,
    Input,
}

/// The pane that follows `p` when focus cycles: Sidebar, Messages, Input, Sidebar.
pub open spec fn next_pane(p: FocusedPane) -> FocusedPane {
    match p {
        FocusedPane::Sidebar => FocusedPane::Messages,
        FocusedPane::Messages => FocusedPane::Input,
        FocusedPane::Input => FocusedPane::Sidebar,
    }
}

/// The pane before `p` in the focus cycle.
pub open spec fn prev_pane(p: FocusedPane) -> FocusedPane {
    match p {
        FocusedPane::Sidebar => FocusedPane::Input,
        FocusedPane::Messages => FocusedPane::Sidebar,
        FocusedPane::Input => FocusedPane::Messages,
    }
}

/// The conversation whose messages are shown.
#[derive(Debug)]
pub enum ActiveConversation {
    Chat { id: String, title: String },
    Channel { team_id: String, channel_id: String, title: String },
}

pub enum ActiveConversationView {
    Chat { id: Seq<char>, title: Seq<char> },
    Channel { team_id: Seq<char>, channel_id: Seq<char>, title: Seq<char> },
}

impl View for ActiveConversation {
    type V = ActiveConversationView;

    open spec fn view(&self) -> ActiveConversationView {
        match self {
            ActiveConversation::Chat { id, title } => ActiveConversationView::Chat {
                id: id@,
                title: title@,
            },
            ActiveConversation::Channel { team_id, channel_id, title } =>
                ActiveConversationView::Channel {
                team_id: team_id@,
                channel_id: channel_id@,
                title: title@,
            },
        }
    }
}

impl Clone for ActiveConversation {
    fn clone(&self) -> (r: Self)
        ensures
            r == *self,
    {
        match self {
            ActiveConversation::Chat { id, title } => ActiveConversation::Chat {
                id: id.clone(),
                title: title.clone(),
            },
            ActiveConversation::Channel { team_id, channel_id, title } =>
                ActiveConversation::Channel {
                team_id: team_id.clone(),
                channel_id: channel_id.clone(),
                title: title.clone(),
            },
        }
    }
}

/// Two conversations are the same when all their fields have the same characters.
impl PartialEq for ActiveConversation {
    fn eq(&self, other: &Self) -> (r: bool) {
        match (self, other) {
            (
                ActiveConversation::Chat { id: a, title: b },
                ActiveConversation::Chat { id: c, title: d },
            ) => *a == *c && *b == *d,
            (
                ActiveConversation::Channel { team_id: a, channel_id: b, title: c },
                ActiveConversation::Channel { team_id: d, channel_id: e, title: f },
            ) => *a == *d && *b == *e && *c == *f,
            _ => false,
        }
    }
}

impl vstd::std_specs::cmp::PartialEqSpecImpl for ActiveConversation {
    open spec fn obeys_eq_spec() -> bool {
        true
    }

    open spec fn eq_spec(&self, other: &Self) -> bool {
        self@ == other@
    }
}

/// The key a conversation's messages are cached under.
pub open spec fn cache_key_spec(c: ActiveConversationView) -> Seq<char> {
    match c {
        ActiveConversationView::Chat { id, .. } => "chat:"@ + id,
        ActiveConversationView::Channel { team_id, channel_id, .. } => "channel:"@ + team_id + ":"@
            + channel_id,
    }
}

impl ActiveConversation {
    /// The key this conversation's messages are cached under:
    /// `chat:<id>` or `channel:<team id>:<channel id>`.
    pub fn cache_key(&self) -> (r: String)
        ensures
            r@ == cache_key_spec(self@),
    {
        match self {
            ActiveConversation::Chat { id, .. } => {
                let mut k = String::from_str("chat:");
                k.append(id.as_str());
                k
            },
            ActiveConversation::Channel { team_id, channel_id, .. } => {
                let mut k = String::from_str("channel:");
                k.append(team_id.as_str());
                k.append(":");
                k.append(channel_id.as_str());
                k
            },
        }
    }
}

/// One line of the sidebar.
#[derive(Debug)]
pub enum SidebarItem {
    SectionHeader(String),
    Chat { chat: ChatSummary, title: String },
    TeamHeader { team: TeamSummary, is_expanded: bool },
    Channel { team_id: String, team_name: String, channel: ChannelSummary },
}

pub enum SidebarItemView {
    SectionHeader(Seq<char>),
    Chat { chat: ChatSummaryView, title: Seq<char> },
    TeamHeader { team: TeamSummaryView, is_expanded: bool },
    Channel { team_id: Seq<char>, team_name: Seq<char>, channel: ChannelSummaryView },
}

impl View for SidebarItem {
    type V = SidebarItemView;

    open spec fn view(&self) -> SidebarItemView {
        match self {
            SidebarItem::SectionHeader(t) => SidebarItemView::SectionHeader(t@),
            SidebarItem::Chat { chat, title } => SidebarItemView::Chat {
                chat: chat@,
                title: title@,
            },
            SidebarItem::TeamHeader { team, is_expanded } => SidebarItemView::TeamHeader {
                team: team@,
                is_expanded: *is_expanded,
            },
            SidebarItem::Channel { team_id, team_name, channel } => SidebarItemView::Channel {
                team_id: team_id@,
                team_name: team_name@,
                channel: channel@,
            },
        }
    }
}

impl DeepView for SidebarItem {
    type V = SidebarItemView;

    open spec fn deep_view(&self) -> SidebarItemView {
        self@
    }
}

/// Number of entries in the presence status menu.
pub const STATUS_OPTION_COUNT: usize = 6;

/// Entry `i` of the presence status menu: label, icon, availability and
/// activity sent to the server (both empty for "reset to automatic").
pub open spec fn status_option_spec(i: int) -> (Seq<char>, Seq<char>, Seq<char>, Seq<char>) {
    if i == 0 {
        ("Available"@, "\u{1F7E2}"@, "Available"@, "Available"@)
    } else if i == 1 {
        ("Busy"@, "\u{1F534}"@, "Busy"@, "Busy"@)
    } else if i == 2 {
        ("Do Not Disturb"@, "\u{26D4}"@, "DoNotDisturb"@, "DoNotDisturb"@)
    } else if i == 3 {
        ("Be Right Back"@, "\u{1F7E1}"@, "BeRightBack"@, "BeRightBack"@)
    } else if i == 4 {
        ("Away"@, "\u{1F7E1}"@, "Away"@, "Away"@)
    } else {
        ("Reset (Auto)"@, "\u{1F504}"@, ""@, ""@)
    }
}

/// Entry `i` of the presence status menu.
pub fn status_option(i: usize) -> (r: (&'static str, &'static str, &'static str, &'static str))
    requires
        i < STATUS_OPTION_COUNT,
    ensures
        (r.0@, r.1@, r.2@, r.3@) == status_option_spec(i as int),
{
    if i == 0 {
        ("Available", "\u{1F7E2}", "Available", "Available")
    } else if i == 1 {
        ("Busy", "\u{1F534}", "Busy", "Busy")
    } else if i == 2 {
        ("Do Not Disturb", "\u{26D4}", "DoNotDisturb", "DoNotDisturb")
    } else if i == 3 {
        ("Be Right Back", "\u{1F7E1}", "BeRightBack", "BeRightBack")
    } else if i == 4 {
        ("Away", "\u{1F7E1}", "Away", "Away")
    } else {
        ("Reset (Auto)", "\u{1F504}", "", "")
    }
}

/// The whole state of the client.
#[derive(Debug)]
pub struct App {
    pub current_user: Option<UserProfile>,
    pub presence: Option<PresenceInfo>,
    pub sidebar_items: Vec<SidebarItem>,
    pub selected_sidebar_idx: usize,
    pub active_conversation: Option<ActiveConversation>,
    pub messages: Vec<ChatMessage>,
    pub message_scroll: usize,
    pub input_buffer: String,
    pub cursor_pos: usize,
    pub focused_pane: FocusedPane,
    pub status_message: String,
    pub is_loading: bool,
    pub is_syncing: bool,
    pub should_quit: bool,
    /// Messages of each conversation seen, under its cache key.
    pub message_cache: KeyedStore<Vec<ChatMessage>>,
    /// Presence of other users, under their user id.
    pub user_presences: KeyedStore<PresenceInfo>,
    pub raw_chats: Vec<ChatSummary>,
    pub raw_teams: Vec<(TeamSummary, Vec<ChannelSummary>)>,
    pub is_search_modal_open: bool,
    pub search_query: String,
    pub search_results: Vec<OrgUser>,
    pub selected_search_idx: usize,
    pub is_searching: bool,
    pub directory_search_denied: bool,
    pub search_error_msg: Option<String>,
    pub is_status_modal_open: bool,
    pub selected_status_idx: usize,
}

// ---------------------------------------------------------------------------
// Sidebar model
// ---------------------------------------------------------------------------

/// A sidebar line can be selected unless it is a section header.
pub open spec fn selectable(item: SidebarItemView) -> bool {
    !(item is SectionHeader)
}

/// The first selectable line at or after `start + j`, going down and wrapping,
/// trying the offsets `j..=n`.
pub open spec fn down_from(items: Seq<SidebarItemView>, start: int, j: int) -> Option<int>
    decreases items.len() + 1 - j,
{
    let n = items.len() as int;
    if j > n || j < 1 {
        None
    } else if selectable(items[(start + j) % n]) {
        Some((start + j) % n)
    } else {
        down_from(items, start, j + 1)
    }
}

/// The first selectable line at or before `start - j`, going up and wrapping,
/// trying the offsets `j..=n`.
pub open spec fn up_from(items: Seq<SidebarItemView>, start: int, j: int) -> Option<int>
    decreases items.len() + 1 - j,
{
    let n = items.len() as int;
    if j > n || j < 1 {
        None
    } else if selectable(items[(start - j) % n]) {
        Some((start - j) % n)
    } else {
        up_from(items, start, j + 1)
    }
}

/// Index of the first selectable line, or 0 when there is none.
pub open spec fn first_selectable_from(items: Seq<SidebarItemView>, i: int) -> int
    decreases items.len() - i,
{
    if i >= items.len() || i < 0 {
        0
    } else if selectable(items[i]) {
        i
    } else {
        first_selectable_from(items, i + 1)
    }
}

/// The section header that opens the chat list.
pub open spec fn chats_header() -> Seq<char> {
    "\u{2500}\u{2500} CHATS \u{2500}\u{2500}"@
}

/// The section header that opens the team list.
pub open spec fn teams_header() -> Seq<char> {
    "\u{2500}\u{2500} TEAMS \u{2500}\u{2500}"@
}

/// One line per chat, titled as `resolved_title_spec` says.
pub open spec fn chat_lines(chats: Seq<ChatSummaryView>, me: Option<Seq<char>>) -> Seq<
    SidebarItemView,
> {
    chats.map_values(
        |c: ChatSummaryView| SidebarItemView::Chat { chat: c, title: resolved_title_spec(c, me) },
    )
}

/// The lines of one team: its header, then one line per channel.
pub open spec fn team_block(team: TeamSummaryView, channels: Seq<ChannelSummaryView>) -> Seq<
    SidebarItemView,
> {
    seq![SidebarItemView::TeamHeader { team: team, is_expanded: true }] + channels.map_values(
        |ch: ChannelSummaryView|
            SidebarItemView::Channel {
                team_id: team.id,
                team_name: team.display_name,
                channel: ch,
            },
    )
}

/// The blocks of all teams, in order.
pub open spec fn team_lines(teams: Seq<(TeamSummaryView, Seq<ChannelSummaryView>)>) -> Seq<
    SidebarItemView,
>
    decreases teams.len(),
{
    if teams.len() == 0 {
        Seq::empty()
    } else {
        team_lines(teams.drop_last()) + team_block(teams.last().0, teams.last().1)
    }
}

/// The sidebar: a chats section (header and one line per chat) when there are
/// chats, then a teams section (header and each team's block) when there are teams.
pub open spec fn sidebar_lines(
    chats: Seq<ChatSummaryView>,
    teams: Seq<(TeamSummaryView, Seq<ChannelSummaryView>)>,
    me: Option<Seq<char>>,
) -> Seq<SidebarItemView> {
    (if chats.len() > 0 {
        seq![SidebarItemView::SectionHeader(chats_header())] + chat_lines(chats, me)
    } else {
        Seq::empty()
    }) + (if teams.len() > 0 {
        seq![SidebarItemView::SectionHeader(teams_header())] + team_lines(teams)
    } else {
        Seq::empty()
    })
}

/// The selection after a rebuild: kept when it still points at a selectable
/// line, otherwise moved to the first selectable line (or 0).
pub open spec fn selection_after_rebuild(items: Seq<SidebarItemView>, old_sel: int) -> int {
    if old_sel >= items.len() || !selectable(items[old_sel]) {
        first_selectable_from(items, 0)
    } else {
        old_sel
    }
}

/// The signed-in user's display name, if known.
pub open spec fn me_name(user: Option<UserProfile>) -> Option<Seq<char>> {
    match user {
        Some(u) => opt_str(u.display_name),
        None => None,
    }
}

/// Every chat's title can be formed.
pub open spec fn titles_resolvable(chats: Seq<ChatSummaryView>, me: Option<Seq<char>>) -> bool {
    forall|i: int| 0 <= i < chats.len() ==> crate::graph::title_resolvable(#[trigger] chats[i], me)
}

/// The conversation a sidebar line opens: chats by id and title, channels by
/// team, channel and the title "<team> > #<channel>".
pub open spec fn conversation_of_line(item: SidebarItemView) -> Option<ActiveConversationView> {
    match item {
        SidebarItemView::Chat { chat, title } => Some(
            ActiveConversationView::Chat { id: chat.id, title: title },
        ),
        SidebarItemView::Channel { team_id, team_name, channel } => Some(
            ActiveConversationView::Channel {
                team_id: team_id,
                channel_id: channel.id,
                title: team_name + " > #"@ + channel.display_name,
            },
        ),
        _ => None,
    }
}

/// The view of an optional conversation.
pub open spec fn opt_conv(c: Option<ActiveConversation>) -> Option<ActiveConversationView> {
    match c {
        Some(x) => Some(x@),
        None => None,
    }
}

impl App {
    /// A fresh state: nothing loaded, sidebar focused, status "Ready".
    pub fn new() -> (r: Self)
        ensures
            r.current_user is None,
            r.presence is None,
            r.sidebar_items@.len() == 0,
            r.selected_sidebar_idx == 0,
            r.active_conversation is None,
            r.messages@.len() == 0,
            r.message_scroll == 0,
            r.input_buffer@ == Seq::<char>::empty(),
            r.cursor_pos == 0,
            r.focused_pane == FocusedPane::Sidebar,
            r.status_message@ == "Ready"@,
            !r.is_loading,
            !r.is_syncing,
            !r.should_quit,
            r.message_cache@ == Map::<Seq<char>, Vec<ChatMessage>>::empty(),
            r.user_presences@ == Map::<Seq<char>, PresenceInfo>::empty(),
            r.raw_chats@.len() == 0,
            r.raw_teams@.len() == 0,
            !r.is_search_modal_open,
            r.search_query@ == Seq::<char>::empty(),
            r.search_results@.len() == 0,
            r.selected_search_idx == 0,
            !r.is_searching,
            !r.directory_search_denied,
            r.search_error_msg is None,
            !r.is_status_modal_open,
            r.selected_status_idx == 0,
    {
        App {
            current_user: None,
            presence: None,
            sidebar_items: Vec::new(),
            selected_sidebar_idx: 0,
            active_conversation: None,
            messages: Vec::new(),
            message_scroll: 0,
            input_buffer: String::new(),
            cursor_pos: 0,
            focused_pane: FocusedPane::Sidebar,
            status_message: String::from_str("Ready"),
            is_loading: false,
            is_syncing: false,
            should_quit: false,
            message_cache: KeyedStore::new(),
            user_presences: KeyedStore::new(),
            raw_chats: Vec::new(),
            raw_teams: Vec::new(),
            is_search_modal_open: false,
            search_query: String::new(),
            search_results: Vec::new(),
            selected_search_idx: 0,
            is_searching: false,
            directory_search_denied: false,
            search_error_msg: None,
            is_status_modal_open: false,
            selected_status_idx: 0,
        }
    }

    /// Opens the user search with an empty query and no results.
    pub fn open_search(&mut self)
        ensures
            final(self).search_query@ == Seq::<char>::empty(),
            final(self).search_results@ == Seq::<OrgUser>::empty(),
            *final(self) == (App {
                is_search_modal_open: true,
                search_query: final(self).search_query,
                search_results: final(self).search_results,
                selected_search_idx: 0,
                is_searching: false,
                search_error_msg: None,
                ..*old(self)
            }),
    {
        self.is_search_modal_open = true;
        clear_string(&mut self.search_query);
        self.search_results.clear();
        self.selected_search_idx = 0;
        self.is_searching = false;
        self.search_error_msg = None;
    }

    /// Closes the user search, clearing its query and results.
    pub fn close_search(&mut self)
        ensures
            final(self).search_query@ == Seq::<char>::empty(),
            final(self).search_results@ == Seq::<OrgUser>::empty(),
            *final(self) == (App {
                is_search_modal_open: false,
                search_query: final(self).search_query,
                search_results: final(self).search_results,
                selected_search_idx: 0,
                is_searching: false,
                search_error_msg: None,
                ..*old(self)
            }),
    {
        self.is_search_modal_open = false;
        clear_string(&mut self.search_query);
        self.search_results.clear();
        self.selected_search_idx = 0;
        self.is_searching = false;
        self.search_error_msg = None;
    }

    /// Opens the status menu on its first entry.
    pub fn open_status_modal(&mut self)
        ensures
            *final(self) == (App {
                is_status_modal_open: true,
                selected_status_idx: 0,
                ..*old(self)
            }),
    {
        self.is_status_modal_open = true;
        self.selected_status_idx = 0;
    }

    /// Closes the status menu.
    pub fn close_status_modal(&mut self)
        ensures
            *final(self) == (App { is_status_modal_open: false, ..*old(self) }),
    {
        self.is_status_modal_open = false;
    }

    /// Moves the status menu selection up, wrapping from the first entry to the last.
    pub fn status_up(&mut self)
        ensures
            *final(self) == (App {
                selected_status_idx: if old(self).selected_status_idx == 0 {
                    (STATUS_OPTION_COUNT - 1) as usize
                } else {
                    (old(self).selected_status_idx - 1) as usize
                },
                ..*old(self)
            }),
    {
        if self.selected_status_idx == 0 {
            self.selected_status_idx = STATUS_OPTION_COUNT - 1;
        } else {
            self.selected_status_idx -= 1;
        }
    }

    /// Moves the status menu selection down, wrapping from the last entry to the first.
    pub fn status_down(&mut self)
        requires
            old(self).selected_status_idx < usize::MAX,
        ensures
            *final(self) == (App {
                selected_status_idx: ((old(self).selected_status_idx + 1) % (
                STATUS_OPTION_COUNT as int)) as usize,
                ..*old(self)
            }),
    {
        self.selected_status_idx = (self.selected_status_idx + 1) % STATUS_OPTION_COUNT;
    }

    /// Appends a character to the search query.
    pub fn search_char(&mut self, c: char)
        ensures
            final(self).search_query@ == old(self).search_query@.push(c),
            *final(self) == (App { search_query: final(self).search_query, ..*old(self) }),
    {
        push_char(&mut self.search_query, c);
    }

    /// Removes the last character of the search query, if any.
    pub fn search_backspace(&mut self)
        ensures
            final(self).search_query@ == if old(self).search_query@.len() > 0 {
                old(self).search_query@.drop_last()
            } else {
                old(self).search_query@
            },
            *final(self) == (App { search_query: final(self).search_query, ..*old(self) }),
    {
        pop_char(&mut self.search_query);
    }

    /// Moves the search selection down, wrapping at the end; nothing without results.
    pub fn search_down(&mut self)
        requires
            old(self).search_results@.len() > 0 ==> old(self).selected_search_idx < usize::MAX,
        ensures
            *final(self) == (App {
                selected_search_idx: if old(self).search_results@.len() > 0 {
                    ((old(self).selected_search_idx + 1) % (
                    old(self).search_results@.len() as int)) as usize
                } else {
                    old(self).selected_search_idx
                },
                ..*old(self)
            }),
    {
        if self.search_results.len() > 0 {
            self.selected_search_idx = (self.selected_search_idx + 1) % self.search_results.len();
        }
    }

    /// Moves the search selection up, wrapping at the start; nothing without results.
    pub fn search_up(&mut self)
        ensures
            *final(self) == (App {
                selected_search_idx: if old(self).search_results@.len() == 0 {
                    old(self).selected_search_idx
                } else if old(self).selected_search_idx == 0 {
                    (old(self).search_results@.len() - 1) as usize
                } else {
                    (old(self).selected_search_idx - 1) as usize
                },
                ..*old(self)
            }),
    {
        if self.search_results.len() > 0 {
            if self.selected_search_idx == 0 {
                self.selected_search_idx = self.search_results.len() - 1;
            } else {
                self.selected_search_idx -= 1;
            }
        }
    }

    /// The selected search result, if the selection points at one.
    pub fn selected_search_user(&self) -> (r: Option<&OrgUser>)
        ensures
            r == if self.selected_search_idx < self.search_results@.len() {
                Some(&self.search_results@[self.selected_search_idx as int])
            } else {
                None
            },
    {
        if self.selected_search_idx < self.search_results.len() {
            Some(&self.search_results[self.selected_search_idx])
        } else {
            None
        }
    }

    /// Replaces the status line.
    pub fn set_status(&mut self, msg: String)
        ensures
            *final(self) == (App { status_message: msg, ..*old(self) }),
    {
        self.status_message = msg;
    }

    /// Moves focus to the next pane: Sidebar, Messages, Input, Sidebar.
    pub fn cycle_focus(&mut self)
        ensures
            *final(self) == (App { focused_pane: next_pane(old(self).focused_pane), ..*old(self) }),
    {
        self.focused_pane = match self.focused_pane {
            FocusedPane::Sidebar => FocusedPane::Messages,
            FocusedPane::Messages => FocusedPane::Input,
            FocusedPane::Input => FocusedPane::Sidebar,
        };
    }

    /// Scrolls the message view towards older messages by three lines (saturating).
    pub fn scroll_messages_up(&mut self)
        ensures
            *final(self) == (App {
                message_scroll: if old(self).message_scroll + 3 > usize::MAX {
                    usize::MAX
                } else {
                    (old(self).message_scroll + 3) as usize
                },
                ..*old(self)
            }),
    {
        self.message_scroll = self.message_scroll.saturating_add(3);
    }

    /// Scrolls the message view towards newer messages by three lines (saturating at 0).
    pub fn scroll_messages_down(&mut self)
        ensures
            *final(self) == (App {
                message_scroll: if old(self).message_scroll < 3 {
                    0
                } else {
                    (old(self).message_scroll - 3) as usize
                },
                ..*old(self)
            }),
    {
        self.message_scroll = self.message_scroll.saturating_sub(3);
    }

    /// Inserts `c` into the input line at the cursor (a byte index) and moves
    /// the cursor one byte right. The cursor must lie on a character boundary.
    pub fn insert_char(&mut self, c: char)
        requires
            cursor_on_boundary(old(self).input_buffer@, old(self).cursor_pos as int),
            old(self).cursor_pos < usize::MAX,
        ensures
            inserted_at_cursor(*old(self), c, *final(self)),
    {
        insert_char_at(&mut self.input_buffer, self.cursor_pos, c);
        self.cursor_pos += 1;
    }

    /// When the cursor is past the start and the line is not empty, moves the
    /// cursor one byte left and removes the character starting there.
    pub fn backspace(&mut self)
        requires
            can_backspace(*old(self)),
        ensures
            backspaced(*old(self), *final(self)),
    {
        if self.cursor_pos > 0 && !self.input_buffer.as_str().is_empty() {
            self.cursor_pos -= 1;
            remove_char_at(&mut self.input_buffer, self.cursor_pos);
        }
    }

    /// Empties the input line, puts the cursor at its start, and returns what it held.
    pub fn clear_input(&mut self) -> (r: String)
        ensures
            r == old(self).input_buffer,
            final(self).input_buffer@ == Seq::<char>::empty(),
            *final(self) == (App {
                input_buffer: final(self).input_buffer,
                cursor_pos: 0,
                ..*old(self)
            }),
    {
        let text = self.input_buffer.clone();
        clear_string(&mut self.input_buffer);
        self.cursor_pos = 0;
        text
    }
}

// ---------------------------------------------------------------------------
// Sidebar navigation
// ---------------------------------------------------------------------------

fn is_header(item: &SidebarItem) -> (r: bool)
    ensures
        r == !selectable(item@),
{
    match item {
        SidebarItem::SectionHeader(_) => true,
        _ => false,
    }
}

proof fn lemma_mod_succ(a: int, n: int)
    requires
        n > 0,
        a >= 0,
    ensures
        ((a % n) + 1) % n == (a + 1) % n,
{
    vstd::arithmetic::div_mod::lemma_add_mod_noop_right(1, a, n);
}

proof fn lemma_mod_pred(x: int, n: int)
    requires
        n > 0,
    ensures
        (x - 1) % n == if x % n == 0 {
            n - 1
        } else {
            x % n - 1
        },
{
    vstd::arithmetic::div_mod::lemma_mod_bound(x, n);
    vstd::arithmetic::div_mod::lemma_sub_mod_noop(x, 1, n);
    if n == 1 {
        vstd::arithmetic::div_mod::lemma_mod_bound(x - 1, n);
    } else {
        vstd::arithmetic::div_mod::lemma_small_mod(1, n as nat);
        if x % n == 0 {
            vstd::arithmetic::div_mod::lemma_mod_add_multiples_vanish(-1, n);
            vstd::arithmetic::div_mod::lemma_small_mod((n - 1) as nat, n as nat);
        } else {
            vstd::arithmetic::div_mod::lemma_small_mod((x % n - 1) as nat, n as nat);
        }
    }
}

/// The line `sidebar_down` moves to from `start`, if any.
fn next_selectable_down(items: &Vec<SidebarItem>, start: usize) -> (r: Option<usize>)
    requires
        items@.len() > 0,
        start < usize::MAX,
    ensures
        r == match down_from(items.deep_view(), start as int, 1) {
            Some(i) => Some(i as usize),
            None => None::<usize>,
        },
        r is Some ==> r->0 < items@.len(),
{
    let ghost v = items.deep_view();
    let n = items.len();
    let mut next = start;
    let mut t: usize = 0;
    while t < n
        invariant
            n == items@.len(),
            v == items.deep_view(),
            n > 0,
            start < usize::MAX,
            t <= n,
            t == 0 ==> next == start,
            t > 0 ==> next as int == (start + t) % (n as int),
            down_from(v, start as int, 1) == down_from(v, start as int, t + 1),
        decreases n - t,
    {
        proof {
            if t > 0 {
                lemma_mod_succ(start + t, n as int);
            }
        }
        next = (next + 1) % n;
        assert(v[next as int] == items@[next as int]@);
        if !is_header(&items[next]) {
            return Some(next);
        }
        t = t + 1;
    }
    None
}

/// The line `sidebar_up` moves to from `start`, if any.
fn next_selectable_up(items: &Vec<SidebarItem>, start: usize) -> (r: Option<usize>)
    requires
        items@.len() > 0,
        start <= items@.len(),
    ensures
        r == match up_from(items.deep_view(), start as int, 1) {
            Some(i) => Some(i as usize),
            None => None::<usize>,
        },
        r is Some ==> r->0 < items@.len(),
{
    let ghost v = items.deep_view();
    let n = items.len();
    let mut prev = start;
    let mut t: usize = 0;
    while t < n
        invariant
            n == items@.len(),
            v == items.deep_view(),
            n > 0,
            start <= n,
            t <= n,
            t == 0 ==> prev == start,
            t > 0 ==> prev as int == (start - t) % (n as int),
            up_from(v, start as int, 1) == up_from(v, start as int, t + 1),
        decreases n - t,
    {
        proof {
            if t > 0 {
                lemma_mod_pred(start - t, n as int);
            } else {
                lemma_mod_pred(start as int, n as int);
                if start < n {
                    vstd::arithmetic::div_mod::lemma_small_mod(start as nat, n as nat);
                } else {
                    vstd::arithmetic::div_mod::lemma_mod_self_0(n as int);
                }
            }
        }
        if prev == 0 {
            prev = n - 1;
        } else {
            prev -= 1;
        }
        assert(v[prev as int] == items@[prev as int]@);
        if !is_header(&items[prev]) {
            return Some(prev);
        }
        t = t + 1;
    }
    None
}

/// Index of the first selectable line, or 0.
fn first_selectable(items: &Vec<SidebarItem>) -> (r: usize)
    ensures
        r == first_selectable_from(items.deep_view(), 0),
        r < items@.len() || r == 0,
{
    let ghost v = items.deep_view();
    let mut i: usize = 0;
    while i < items.len()
        invariant
            i <= items@.len(),
            v == items.deep_view(),
            first_selectable_from(v, 0) == first_selectable_from(v, i as int),
        decreases items@.len() - i,
    {
        assert(v[i as int] == items@[i as int]@);
        if !is_header(&items[i]) {
            return i;
        }
        i = i + 1;
    }
    0
}

impl App {
    /// Moves the sidebar selection to the next selectable line below, wrapping
    /// around; stays put when the sidebar is empty or nothing is selectable.
    pub fn sidebar_down(&mut self)
        requires
            old(self).sidebar_items@.len() > 0 ==> old(self).selected_sidebar_idx < usize::MAX,
        ensures
            *final(self) == (App {
                selected_sidebar_idx: if old(self).sidebar_items@.len() == 0 {
                    old(self).selected_sidebar_idx
                } else {
                    match down_from(
                        old(self).sidebar_items.deep_view(),
                        old(self).selected_sidebar_idx as int,
                        1,
                    ) {
                        Some(i) => i as usize,
                        None => old(self).selected_sidebar_idx,
                    }
                },
                ..*old(self)
            }),
    {
        if self.sidebar_items.len() == 0 {
            return ;
        }
        if let Some(i) = next_selectable_down(&self.sidebar_items, self.selected_sidebar_idx) {
            self.selected_sidebar_idx = i;
        }
    }

    /// Moves the sidebar selection to the next selectable line above, wrapping
    /// around; stays put when the sidebar is empty or nothing is selectable.
    /// A selection more than one past the end would be read out of bounds.
    pub fn sidebar_up(&mut self)
        requires
            old(self).sidebar_items@.len() > 0 ==> old(self).selected_sidebar_idx
                <= old(self).sidebar_items@.len(),
        ensures
            *final(self) == (App {
                selected_sidebar_idx: if old(self).sidebar_items@.len() == 0 {
                    old(self).selected_sidebar_idx
                } else {
                    match up_from(
                        old(self).sidebar_items.deep_view(),
                        old(self).selected_sidebar_idx as int,
                        1,
                    ) {
                        Some(i) => i as usize,
                        None => old(self).selected_sidebar_idx,
                    }
                },
                ..*old(self)
            }),
    {
        if self.sidebar_items.len() == 0 {
            return ;
        }
        if let Some(i) = next_selectable_up(&self.sidebar_items, self.selected_sidebar_idx) {
            self.selected_sidebar_idx = i;
        }
    }

    /// The conversation the selected sidebar line opens, if it is a chat or channel.
    pub fn currently_selected_conversation(&self) -> (r: Option<ActiveConversation>)
        ensures
            opt_conv(r) == if self.selected_sidebar_idx < self.sidebar_items@.len() {
                conversation_of_line(self.sidebar_items@[self.selected_sidebar_idx as int]@)
            } else {
                None
            },
    {
        if self.selected_sidebar_idx >= self.sidebar_items.len() {
            return None;
        }
        match &self.sidebar_items[self.selected_sidebar_idx] {
            SidebarItem::Chat { chat, title } => Some(
                ActiveConversation::Chat { id: chat.id.clone(), title: title.clone() },
            ),
            SidebarItem::Channel { team_id, channel, team_name } => {
                let mut t = team_name.clone();
                t.append(" > #");
                t.append(channel.display_name.as_str());
                Some(
                    ActiveConversation::Channel {
                        team_id: team_id.clone(),
                        channel_id: channel.id.clone(),
                        title: t,
                    },
                )
            },
            _ => None,
        }
    }

    /// The cached messages of `conv`, if any were cached.
    pub fn get_cached_messages(&self, conv: &ActiveConversation) -> (r: Option<&Vec<ChatMessage>>)
        ensures
            r is Some <==> self.message_cache@.dom().contains(cache_key_spec(conv@)),
            r is Some ==> *r->0 == self.message_cache@[cache_key_spec(conv@)],
    {
        let key = conv.cache_key();
        self.message_cache.get(key.as_str())
    }

    /// Caches `msgs` as the messages of `conv`, replacing what was cached.
    pub fn cache_messages(&mut self, conv: &ActiveConversation, msgs: Vec<ChatMessage>)
        ensures
            final(self).message_cache@ == old(self).message_cache@.insert(
                cache_key_spec(conv@),
                msgs,
            ),
            *final(self) == (App { message_cache: final(self).message_cache, ..*old(self) }),
    {
        let key = conv.cache_key();
        self.message_cache.insert(key, msgs);
    }
}

// ---------------------------------------------------------------------------
// Rebuilding the sidebar
// ---------------------------------------------------------------------------

/// `after`'s sidebar is the one its chats and teams give, with the selection
/// carried over from `before` as `selection_after_rebuild` says.
pub open spec fn sidebar_rebuilt(before: App, after: App) -> bool {
    &&& after.sidebar_items.deep_view() == sidebar_lines(
        after.raw_chats.deep_view(),
        after.raw_teams.deep_view(),
        me_name(after.current_user),
    )
    &&& after.selected_sidebar_idx as int == selection_after_rebuild(
        after.sidebar_items.deep_view(),
        before.selected_sidebar_idx as int,
    )
}

/// Index of the first team whose id has the characters `id`, searching from `i`.
pub open spec fn team_index_from(
    teams: Seq<(TeamSummaryView, Seq<ChannelSummaryView>)>,
    id: Seq<char>,
    i: int,
) -> Option<int>
    decreases teams.len() - i,
{
    if i < 0 || i >= teams.len() {
        None
    } else if teams[i].0.id == id {
        Some(i)
    } else {
        team_index_from(teams, id, i + 1)
    }
}

fn clone_chat(c: &ChatSummary) -> (r: ChatSummary)
    ensures
        r@ == c@,
{
    c.clone()
}

fn clone_channels(v: &Vec<ChannelSummary>) -> (r: Vec<ChannelSummary>)
    ensures
        r@ == v@,
{
    let r = v.clone();
    assert forall|i: int| 0 <= i < v@.len() implies r@[i] == v@[i] by {
        assert(cloned(v@[i], r@[i]));
    }
    assert(r@ =~= v@);
    r
}

/// The signed-in user's display name, borrowed.
fn me_name_of(user: &Option<UserProfile>) -> (r: Option<&str>)
    ensures
        opt_str_ref(r) == me_name(*user),
{
    match user {
        Some(u) => match &u.display_name {
            Some(n) => Some(n.as_str()),
            None => None,
        },
        None => None,
    }
}

/// The sidebar lines of `chats` and `teams` (see `sidebar_lines`).
fn build_sidebar(
    chats: &Vec<ChatSummary>,
    teams: &Vec<(TeamSummary, Vec<ChannelSummary>)>,
    me: Option<&str>,
) -> (r: Vec<SidebarItem>)
    requires
        titles_resolvable(chats.deep_view(), opt_str_ref(me)),
    ensures
        r.deep_view() == sidebar_lines(chats.deep_view(), teams.deep_view(), opt_str_ref(me)),
{
    let ghost cv = chats.deep_view();
    let ghost tv = teams.deep_view();
    let ghost mev = opt_str_ref(me);
    let mut items: Vec<SidebarItem> = Vec::new();
    if chats.len() > 0 {
        items.push(
            SidebarItem::SectionHeader(
                String::from_str("\u{2500}\u{2500} CHATS \u{2500}\u{2500}"),
            ),
        );
        let mut i: usize = 0;
        while i < chats.len()
            invariant
                i <= chats@.len(),
                cv == chats.deep_view(),
                mev == opt_str_ref(me),
                titles_resolvable(cv, mev),
                items.deep_view() == seq![SidebarItemView::SectionHeader(chats_header())]
                    + chat_lines(cv.take(i as int), mev),
            decreases chats@.len() - i,
        {
            let chat = &chats[i];
            assert(cv[i as int] == chat@);
            let title = chat.resolved_title(me);
            let ghost before = items.deep_view();
            items.push(SidebarItem::Chat { chat: clone_chat(chat), title });
            assert(chat_lines(cv.take(i + 1), mev) =~= chat_lines(cv.take(i as int), mev).push(
                SidebarItemView::Chat { chat: chat@, title: resolved_title_spec(chat@, mev) },
            ));
            assert(items.deep_view() =~= before.push(
                SidebarItemView::Chat { chat: chat@, title: resolved_title_spec(chat@, mev) },
            ));
            i = i + 1;
        }
        assert(cv.take(chats@.len() as int) =~= cv);
    }
    let ghost chat_part = items.deep_view();
    assert(chat_part == (if cv.len() > 0 {
        seq![SidebarItemView::SectionHeader(chats_header())] + chat_lines(cv, mev)
    } else {
        Seq::<SidebarItemView>::empty()
    })) by {
        if cv.len() == 0 {
            assert(items.deep_view() =~= Seq::<SidebarItemView>::empty());
        }
    }
    if teams.len() > 0 {
        items.push(
            SidebarItem::SectionHeader(
                String::from_str("\u{2500}\u{2500} TEAMS \u{2500}\u{2500}"),
            ),
        );
        let mut i: usize = 0;
        while i < teams.len()
            invariant
                i <= teams@.len(),
                tv == teams.deep_view(),
                items.deep_view() == chat_part + seq![
                    SidebarItemView::SectionHeader(teams_header()),
                ] + team_lines(tv.take(i as int)),
            decreases teams@.len() - i,
        {
            let team = &teams[i].0;
            let channels = &teams[i].1;
            assert(tv[i as int] == (team@, channels.deep_view()));
            assert(tv.take(i + 1).drop_last() =~= tv.take(i as int));
            let ghost base = items.deep_view();
            items.push(SidebarItem::TeamHeader { team: team.clone(), is_expanded: true });
            let mut j: usize = 0;
            let ghost cvs = channels.deep_view();
            while j < channels.len()
                invariant
                    j <= channels@.len(),
                    cvs == channels.deep_view(),
                    items.deep_view() == base + seq![
                        SidebarItemView::TeamHeader { team: team@, is_expanded: true },
                    ] + cvs.take(j as int).map_values(
                        |ch: ChannelSummaryView|
                            SidebarItemView::Channel {
                                team_id: team@.id,
                                team_name: team@.display_name,
                                channel: ch,
                            },
                    ),
                decreases channels@.len() - j,
            {
                let ch = &channels[j];
                assert(cvs[j as int] == ch@);
                let ghost before = items.deep_view();
                items.push(
                    SidebarItem::Channel {
                        team_id: team.id.clone(),
                        team_name: team.display_name.clone(),
                        channel: ch.clone(),
                    },
                );
                assert(items.deep_view() =~= before.push(
                    SidebarItemView::Channel {
                        team_id: team@.id,
                        team_name: team@.display_name,
                        channel: ch@,
                    },
                ));
                assert(cvs.take(j + 1).map_values(
                    |ch: ChannelSummaryView|
                        SidebarItemView::Channel {
                            team_id: team@.id,
                            team_name: team@.display_name,
                            channel: ch,
                        },
                ) =~= cvs.take(j as int).map_values(
                    |ch: ChannelSummaryView|
                        SidebarItemView::Channel {
                            team_id: team@.id,
                            team_name: team@.display_name,
                            channel: ch,
                        },
                ).push(
                    SidebarItemView::Channel {
                        team_id: team@.id,
                        team_name: team@.display_name,
                        channel: ch@,
                    },
                ));
                j = j + 1;
            }
            assert(cvs.take(channels@.len() as int) =~= cvs);
            assert(items.deep_view() =~= chat_part + seq![
                SidebarItemView::SectionHeader(teams_header()),
            ] + team_lines(tv.take(i + 1)));
            i = i + 1;
        }
        assert(tv.take(teams@.len() as int) =~= tv);
    } else {
        assert(items.deep_view() =~= chat_part + Seq::<SidebarItemView>::empty());
    }
    items
}

/// `after` is `before` with the channels of the first team with id `team_id`
/// replaced by `channels` (nothing replaced when no team has that id) and the
/// sidebar rebuilt.
pub open spec fn team_channels_updated(
    before: App,
    team_id: Seq<char>,
    channels: Seq<ChannelSummaryView>,
    after: App,
) -> bool {
    &&& after.raw_teams.deep_view() == match team_index_from(
        before.raw_teams.deep_view(),
        team_id,
        0,
    ) {
        Some(i) => before.raw_teams.deep_view().update(
            i,
            (before.raw_teams.deep_view()[i].0, channels),
        ),
        None => before.raw_teams.deep_view(),
    }
    &&& sidebar_rebuilt(before, after)
    &&& after == (App {
        raw_teams: after.raw_teams,
        sidebar_items: after.sidebar_items,
        selected_sidebar_idx: after.selected_sidebar_idx,
        ..before
    })
}

/// Index of the first team with id `id`.
fn find_team(teams: &Vec<(TeamSummary, Vec<ChannelSummary>)>, id: &str) -> (r: Option<usize>)
    ensures
        match r {
            Some(k) => team_index_from(teams.deep_view(), id@, 0) == Some(k as int),
            None => team_index_from(teams.deep_view(), id@, 0) is None,
        },
        r is Some ==> r->0 < teams@.len(),
{
    let ghost tv = teams.deep_view();
    let mut i: usize = 0;
    while i < teams.len()
        invariant
            i <= teams@.len(),
            tv == teams.deep_view(),
            team_index_from(tv, id@, 0) == team_index_from(tv, id@, i as int),
        decreases teams@.len() - i,
    {
        assert(tv[i as int].0.id == teams@[i as int].0.id@);
        if str_eq(teams[i].0.id.as_str(), id) {
            return Some(i);
        }
        i = i + 1;
    }
    None
}

impl App {
    /// Rebuilds the sidebar from the stored chats and teams and keeps the
    /// selection on a selectable line.
    fn rebuild_sidebar_items(&mut self)
        requires
            titles_resolvable(old(self).raw_chats.deep_view(), me_name(old(self).current_user)),
        ensures
            sidebar_rebuilt(*old(self), *final(self)),
            *final(self) == (App {
                sidebar_items: final(self).sidebar_items,
                selected_sidebar_idx: final(self).selected_sidebar_idx,
                ..*old(self)
            }),
    {
        let me = me_name_of(&self.current_user);
        let items = build_sidebar(&self.raw_chats, &self.raw_teams, me);
        let ghost v = items.deep_view();
        let sel = self.selected_sidebar_idx;
        let keep = sel < items.len() && !is_header(&items[sel]);
        proof {
            if sel < items@.len() {
                assert(v[sel as int] == items@[sel as int]@);
            }
        }
        let new_sel = if keep {
            sel
        } else {
            first_selectable(&items)
        };
        self.sidebar_items = items;
        self.selected_sidebar_idx = new_sel;
    }

    /// Stores copies of `chats` and `teams` and rebuilds the sidebar from them.
    pub fn rebuild_sidebar(
        &mut self,
        chats: &[ChatSummary],
        teams: &[(TeamSummary, Vec<ChannelSummary>)],
    )
        requires
            titles_resolvable(chats.deep_view(), me_name(old(self).current_user)),
        ensures
            final(self).raw_chats.deep_view() == chats.deep_view(),
            final(self).raw_teams.deep_view() == teams.deep_view(),
            sidebar_rebuilt(*old(self), *final(self)),
            *final(self) == (App {
                raw_chats: final(self).raw_chats,
                raw_teams: final(self).raw_teams,
                sidebar_items: final(self).sidebar_items,
                selected_sidebar_idx: final(self).selected_sidebar_idx,
                ..*old(self)
            }),
    {
        let mut cs: Vec<ChatSummary> = Vec::new();
        let mut i: usize = 0;
        while i < chats.len()
            invariant
                i <= chats@.len(),
                cs.deep_view() == chats.deep_view().take(i as int),
            decreases chats@.len() - i,
        {
            let ghost before = cs.deep_view();
            cs.push(clone_chat(&chats[i]));
            assert(cs.deep_view() =~= before.push(chats@[i as int]@));
            assert(chats.deep_view().take(i + 1) =~= chats.deep_view().take(i as int).push(
                chats@[i as int]@,
            ));
            i = i + 1;
        }
        assert(chats.deep_view().take(chats@.len() as int) =~= chats.deep_view());
        let mut ts: Vec<(TeamSummary, Vec<ChannelSummary>)> = Vec::new();
        let mut j: usize = 0;
        while j < teams.len()
            invariant
                j <= teams@.len(),
                ts.deep_view() == teams.deep_view().take(j as int),
            decreases teams@.len() - j,
        {
            let ghost before = ts.deep_view();
            let entry = (teams[j].0.clone(), clone_channels(&teams[j].1));
            assert(entry.1.deep_view() =~= teams@[j as int].1.deep_view());
            ts.push(entry);
            assert(ts.deep_view() =~= before.push(teams.deep_view()[j as int]));
            assert(teams.deep_view().take(j + 1) =~= teams.deep_view().take(j as int).push(
                teams.deep_view()[j as int],
            ));
            j = j + 1;
        }
        assert(teams.deep_view().take(teams@.len() as int) =~= teams.deep_view());
        self.raw_chats = cs;
        self.raw_teams = ts;
        self.rebuild_sidebar_items();
    }

    /// Replaces the channel list of the first team with id `team_id` (if any)
    /// and rebuilds the sidebar.
    pub fn update_team_channels(&mut self, team_id: &str, channels: Vec<ChannelSummary>)
        requires
            titles_resolvable(old(self).raw_chats.deep_view(), me_name(old(self).current_user)),
        ensures
            team_channels_updated(*old(self), team_id@, channels.deep_view(), *final(self)),
    {
        let ghost tv = self.raw_teams.deep_view();
        let found = find_team(&self.raw_teams, team_id);
        if let Some(k) = found {
            let team = self.raw_teams[k].0.clone();
            let mut ts = Vec::new();
            std::mem::swap(&mut ts, &mut self.raw_teams);
            ts.set(k, (team, channels));
            self.raw_teams = ts;
            assert(self.raw_teams.deep_view() =~= tv.update(k as int, (tv[k as int].0, channels.deep_view())));
        }
        self.rebuild_sidebar_items();
    }
}

// ---------------------------------------------------------------------------
// Contacts from known chats
// ---------------------------------------------------------------------------

/// The members of all chats, chat after chat.
pub open spec fn members_of(chats: Seq<ChatSummaryView>) -> Seq<ChatMemberView>
    decreases chats.len(),
{
    if chats.len() == 0 {
        Seq::empty()
    } else {
        members_of(chats.drop_last()) + chats.last().members
    }
}

/// The characters of an optional string, or nothing.
pub open spec fn or_empty(o: Option<Seq<char>>) -> Seq<char> {
    match o {
        Some(s) => s,
        None => Seq::empty(),
    }
}

/// The id a contact found among chat members gets: the member's user id,
/// else its membership id, else empty.
pub open spec fn contact_id(m: ChatMemberView) -> Seq<char> {
    match m.user_id {
        Some(u) => u,
        None => or_empty(m.id),
    }
}

/// The contact made of chat member `m` named `name`.
pub open spec fn local_contact(m: ChatMemberView, name: Seq<char>) -> OrgUserView {
    OrgUserView {
        id: contact_id(m),
        display_name: Some(name),
        user_principal_name: m.email,
        mail: m.email,
        job_title: Some("Recent Chat Contact"@),
        department: None,
    }
}

/// Member `m` matches the lower-cased query `q`: it has a non-blank name that
/// is not the current user's (both lower-cased), and its lower-cased name or
/// e-mail contains `q`.
pub open spec fn member_matches(m: ChatMemberView, q: Seq<char>, me_lower: Seq<char>) -> bool {
    match m.display_name {
        Some(name) => trim_spec(name).len() > 0 && lowercase_of(name) != me_lower && (
        contains_seq(lowercase_of(name), q) || contains_seq(lowercase_of(or_empty(m.email)), q)),
        None => false,
    }
}

/// Contacts found scanning `ms` in order, each lower-cased name taken once,
/// together with the lower-cased names taken.
pub open spec fn contacts_scan(ms: Seq<ChatMemberView>, q: Seq<char>, me_lower: Seq<char>) -> (
    Seq<OrgUserView>,
    Seq<Seq<char>>,
)
    decreases ms.len(),
{
    if ms.len() == 0 {
        (Seq::empty(), Seq::empty())
    } else {
        let prev = contacts_scan(ms.drop_last(), q, me_lower);
        let m = ms.last();
        if member_matches(m, q, me_lower) && !prev.1.contains(lowercase_of(m.display_name->0)) {
            (
                prev.0.push(local_contact(m, m.display_name->0)),
                prev.1.push(lowercase_of(m.display_name->0)),
            )
        } else {
            prev
        }
    }
}

/// The contacts a local search for `query` offers: none for a blank query;
/// otherwise the matching chat members, first occurrence of each name kept.
pub open spec fn local_contacts_spec(
    chats: Seq<ChatSummaryView>,
    query: Seq<char>,
    user: Option<UserProfile>,
) -> Seq<OrgUserView> {
    if trim_spec(query).len() == 0 {
        Seq::empty()
    } else {
        contacts_scan(
            members_of(chats),
            lowercase_of(trim_spec(query)),
            lowercase_of(or_empty(me_name(user))),
        ).0
    }
}

/// Whether `v` holds a string with the characters of `s`.
pub(crate) fn contains_string(v: &Vec<String>, s: &str) -> (r: bool)
    ensures
        r == v.deep_view().contains(s@),
{
    let mut i: usize = 0;
    while i < v.len()
        invariant
            i <= v@.len(),
            forall|k: int| 0 <= k < i ==> v.deep_view()[k] != s@,
        decreases v@.len() - i,
    {
        if str_eq(v[i].as_str(), s) {
            assert(v.deep_view()[i as int] == s@);
            return true;
        }
        i = i + 1;
    }
    false
}

fn or_empty_str(o: &Option<String>) -> (r: &str)
    ensures
        r@ == or_empty(opt_str(*o)),
{
    proof {
        reveal_strlit("");
    }
    match o {
        Some(s) => s.as_str(),
        None => "",
    }
}

// ---------------------------------------------------------------------------
// Finding an existing chat
// ---------------------------------------------------------------------------

/// Member `m` has user id or membership id `id`.
pub open spec fn member_has_id(m: ChatMemberView, id: Seq<char>) -> bool {
    m.user_id == Some(id) || m.id == Some(id)
}

/// Chat `c` is a one-on-one chat with the target: the id is nonempty and a
/// member has it, or a member's name equals `name` ignoring ASCII case (a
/// missing name counts as empty).
pub open spec fn chat_with_target(c: ChatSummaryView, name: Seq<char>, id: Seq<char>) -> bool {
    &&& c.chat_type == "oneOnOne"@
    &&& (id.len() > 0 && exists|i: int|
        0 <= i < c.members.len() && member_has_id(#[trigger] c.members[i], id)) || exists|i: int|
        0 <= i < c.members.len() && eq_ignore_ascii_case_spec(
            or_empty(#[trigger] c.members[i].display_name),
            name,
        )
}

/// Index of the first chat with the target, searching from `i`.
pub open spec fn chat_with_target_from(
    chats: Seq<ChatSummaryView>,
    name: Seq<char>,
    id: Seq<char>,
    i: int,
) -> Option<int>
    decreases chats.len() - i,
{
    if i < 0 || i >= chats.len() {
        None
    } else if chat_with_target(chats[i], name, id) {
        Some(i)
    } else {
        chat_with_target_from(chats, name, id, i + 1)
    }
}

fn has_member_id(c: &ChatSummary, id: &str) -> (r: bool)
    ensures
        r == exists|i: int| 0 <= i < c@.members.len() && member_has_id(#[trigger] c@.members[i], id@),
{
    let mut i: usize = 0;
    while i < c.members.len()
        invariant
            i <= c.members@.len(),
            c@.members.len() == c.members@.len(),
            forall|k: int| 0 <= k < i ==> !member_has_id(#[trigger] c@.members[k], id@),
        decreases c.members@.len() - i,
    {
        let m = &c.members[i];
        assert(c@.members[i as int] == m@);
        let by_user = match &m.user_id {
            Some(u) => str_eq(u.as_str(), id),
            None => false,
        };
        let by_member = match &m.id {
            Some(u) => str_eq(u.as_str(), id),
            None => false,
        };
        if by_user || by_member {
            return true;
        }
        i = i + 1;
    }
    false
}

fn has_member_named(c: &ChatSummary, name: &str) -> (r: bool)
    ensures
        r == exists|i: int|
            0 <= i < c@.members.len() && eq_ignore_ascii_case_spec(
                or_empty(#[trigger] c@.members[i].display_name),
                name@,
            ),
{
    let mut i: usize = 0;
    while i < c.members.len()
        invariant
            i <= c.members@.len(),
            c@.members.len() == c.members@.len(),
            forall|k: int|
                0 <= k < i ==> !eq_ignore_ascii_case_spec(
                    or_empty(#[trigger] c@.members[k].display_name),
                    name@,
                ),
        decreases c.members@.len() - i,
    {
        let m = &c.members[i];
        assert(c@.members[i as int] == m@);
        if eq_ignore_ascii_case(or_empty_str(&m.display_name), name) {
            return true;
        }
        i = i + 1;
    }
    false
}

impl App {
    /// Contacts found among the members of known chats whose name or e-mail
    /// contains the trimmed, lower-cased query (see `local_contacts_spec`).
    pub fn search_local_contacts(&self, query: &str) -> (r: Vec<OrgUser>)
        ensures
            r.deep_view() == local_contacts_spec(
                self.raw_chats.deep_view(),
                query@,
                self.current_user,
            ),
    {
        if is_blank(query) {
            return Vec::new();
        }
        let qt = trim(query);
        let q = to_lowercase(qt.as_str());
        let me = me_name_of(&self.current_user);
        proof {
            reveal_strlit("");
        }
        let me_str: &str = match me {
            Some(m) => m,
            None => "",
        };
        assert(me_str@ == or_empty(me_name(self.current_user)));
        let me_lower = to_lowercase(me_str);
        let ghost cv = self.raw_chats.deep_view();
        let mut seen: Vec<String> = Vec::new();
        let mut results: Vec<OrgUser> = Vec::new();
        let mut ci: usize = 0;
        while ci < self.raw_chats.len()
            invariant
                ci <= self.raw_chats@.len(),
                cv == self.raw_chats.deep_view(),
                q@ == lowercase_of(trim_spec(query@)),
                trim_spec(query@).len() > 0,
                me_lower@ == lowercase_of(or_empty(me_name(self.current_user))),
                (results.deep_view(), seen.deep_view()) == contacts_scan(
                    members_of(cv.take(ci as int)),
                    q@,
                    me_lower@,
                ),
            decreases self.raw_chats@.len() - ci,
        {
            let chat = &self.raw_chats[ci];
            assert(cv[ci as int] == chat@);
            let ghost before = members_of(cv.take(ci as int));
            let mut mi: usize = 0;
            assert(chat@.members.take(0) =~= Seq::<ChatMemberView>::empty());
            assert(before + chat@.members.take(0) =~= before);
            while mi < chat.members.len()
                invariant
                    mi <= chat.members@.len(),
                    chat@.members.len() == chat.members@.len(),
                    (results.deep_view(), seen.deep_view()) == contacts_scan(
                        before + chat@.members.take(mi as int),
                        q@,
                        me_lower@,
                    ),
                decreases chat.members@.len() - mi,
            {
                let member = &chat.members[mi];
                assert(chat@.members[mi as int] == member@);
                let ghost prefix = before + chat@.members.take(mi as int);
                assert((before + chat@.members.take(mi + 1)).drop_last() =~= prefix);
                assert((before + chat@.members.take(mi + 1)).last() == member@);
                if let Some(name) = &member.display_name {
                    if !is_blank(name.as_str()) {
                        let name_lower = to_lowercase(name.as_str());
                        if !str_eq(name_lower.as_str(), me_lower.as_str()) {
                            let email_lower = to_lowercase(or_empty_str(&member.email));
                            if contains_str(name_lower.as_str(), q.as_str()) || contains_str(
                                email_lower.as_str(),
                                q.as_str(),
                            ) {
                                if !contains_string(&seen, name_lower.as_str()) {
                                    let id = match &member.user_id {
                                        Some(u) => u.clone(),
                                        None => match &member.id {
                                            Some(i) => i.clone(),
                                            None => String::new(),
                                        },
                                    };
                                    let contact = OrgUser {
                                        id,
                                        display_name: Some(name.clone()),
                                        user_principal_name: clone_opt_string(&member.email),
                                        mail: clone_opt_string(&member.email),
                                        job_title: Some(String::from_str("Recent Chat Contact")),
                                        department: None,
                                    };
                                    let ghost r0 = results.deep_view();
                                    let ghost s0 = seen.deep_view();
                                    results.push(contact);
                                    seen.push(name_lower);
                                    assert(results.deep_view() =~= r0.push(
                                        local_contact(member@, name@),
                                    ));
                                    assert(seen.deep_view() =~= s0.push(lowercase_of(name@)));
                                }
                            }
                        }
                    }
                }
                mi = mi + 1;
            }
            assert(chat@.members.take(chat@.members.len() as int) =~= chat@.members);
            assert(cv.take(ci + 1).drop_last() =~= cv.take(ci as int));
            ci = ci + 1;
        }
        assert(cv.take(cv.len() as int) =~= cv);
        results
    }

    /// The first known one-on-one chat that has the target user as a member,
    /// by id (when the id is nonempty) or by name ignoring ASCII case.
    pub fn find_existing_chat(&self, target_name: &str, target_id: &str) -> (r: Option<
        ChatSummary,
    >)
        ensures
            match chat_with_target_from(
                self.raw_chats.deep_view(),
                target_name@,
                target_id@,
                0,
            ) {
                Some(i) => r is Some && r->0@ == self.raw_chats.deep_view()[i],
                None => r is None,
            },
    {
        let ghost cv = self.raw_chats.deep_view();
        let mut i: usize = 0;
        while i < self.raw_chats.len()
            invariant
                i <= self.raw_chats@.len(),
                cv == self.raw_chats.deep_view(),
                chat_with_target_from(cv, target_name@, target_id@, 0) == chat_with_target_from(
                    cv,
                    target_name@,
                    target_id@,
                    i as int,
                ),
            decreases self.raw_chats@.len() - i,
        {
            let chat = &self.raw_chats[i];
            assert(cv[i as int] == chat@);
            if str_eq(chat.chat_type.as_str(), "oneOnOne") {
                if !target_id.is_empty() {
                    if has_member_id(chat, target_id) {
                        return Some(clone_chat(chat));
                    }
                }
                if has_member_named(chat, target_name) {
                    return Some(clone_chat(chat));
                }
            }
            i = i + 1;
        }
        None
    }
}

/// Whether every chat's title can be formed for the user named `me`
/// (the condition `rebuild_sidebar` needs).
pub fn chat_titles_resolvable(chats: &[ChatSummary], me: Option<&str>) -> (r: bool)
    ensures
        r == titles_resolvable(chats.deep_view(), opt_str_ref(me)),
{
    let mut i: usize = 0;
    while i < chats.len()
        invariant
            i <= chats@.len(),
            forall|k: int|
                0 <= k < i ==> crate::graph::title_resolvable(#[trigger] chats.deep_view()[k], opt_str_ref(me)),
        decreases chats@.len() - i,
    {
        assert(chats.deep_view()[i as int] == chats@[i as int]@);
        if chats[i].title_checked(me).is_none() {
            return false;
        }
        i = i + 1;
    }
    true
}

// ---------------------------------------------------------------------------
// Input line editing
// ---------------------------------------------------------------------------

/// Byte index `cursor` is where some character of `buf` starts, or its end.
pub open spec fn cursor_on_boundary(buf: Seq<char>, cursor: int) -> bool {
    exists|k: int| 0 <= k <= buf.len() && #[trigger] utf8_offset(buf, k) == cursor
}

/// `after` is `before` with `c` inserted at the character where the cursor
/// (a byte index) points, and the cursor one byte further; all else unchanged.
pub open spec fn inserted_at_cursor(before: App, c: char, after: App) -> bool {
    &&& forall|k: int|
        0 <= k <= before.input_buffer@.len() && #[trigger] utf8_offset(before.input_buffer@, k)
            == before.cursor_pos ==> after.input_buffer@ == before.input_buffer@.insert(k, c)
    &&& after == (App {
        input_buffer: after.input_buffer,
        cursor_pos: (before.cursor_pos + 1) as usize,
        ..before
    })
}

/// Backspace has something to delete.
pub open spec fn backspace_deletes(a: App) -> bool {
    a.cursor_pos > 0 && a.input_buffer@.len() > 0
}

/// When backspace deletes, a character starts one byte before the cursor.
pub open spec fn can_backspace(a: App) -> bool {
    backspace_deletes(a) ==> exists|k: int|
        0 <= k < a.input_buffer@.len() && #[trigger] utf8_offset(a.input_buffer@, k)
            == a.cursor_pos - 1
}

/// `after` is `before` after backspace: when it deletes, the cursor is one
/// byte left and the character starting there is gone; otherwise nothing changed.
pub open spec fn backspaced(before: App, after: App) -> bool {
    &&& backspace_deletes(before) ==> {
        &&& after.cursor_pos == before.cursor_pos - 1
        &&& forall|k: int|
            0 <= k < before.input_buffer@.len() && #[trigger] utf8_offset(
                before.input_buffer@,
                k,
            ) == before.cursor_pos - 1 ==> after.input_buffer@ == before.input_buffer@.remove(k)
    }
    &&& !backspace_deletes(before) ==> after == before
    &&& after == (App {
        input_buffer: after.input_buffer,
        cursor_pos: after.cursor_pos,
        ..before
    })
}

} // verus!
