//! What the screen says: titles, notes, presence badges and message lines,
//! worked out from the state. Drawing them is left to the caller.
use vstd::prelude::*;
use crate::app::{ActiveConversation, ActiveConversationView, App, FocusedPane};
use crate::graph::{
    clean_content_spec, opt_str, sender_name_spec, ChatMemberView, ChatMessage, ChatSummary, OrgUser,
    PresenceInfo,
};
use crate::text::{decimal, decimal_spec, eq_ignore_ascii_case, eq_ignore_ascii_case_spec, lowercase_of, str_eq, to_lowercase, text_lines, lines_spec, trim, trim_spec};

verus! {

broadcast use vstd::string::group_string_axioms;

/// The colour family a presence is shown in.
#[derive(Debug, Clone, Copy, PartialEq, Eq, Structural)]
pub enum Tone {
    Green,
    Red,
    Yellow,
    Gray,
    Cyan,
}

// ---------------------------------------------------------------------------
// Presence
// ---------------------------------------------------------------------------

/// The badge of a contact whose availability, lower-cased, is `l`.
pub open spec fn badge_spec(l: Seq<char>) -> (Seq<char>, Tone) {
    if l == "available"@ {
        ("🟢"@, Tone::Green)
    } else if l == "busy"@ || l == "donotdisturb"@ {
        ("🔴"@, Tone::Red)
    } else if l == "away"@ || l == "berightback"@ {
        ("🟡"@, Tone::Yellow)
    } else if l == "offline"@ {
        ("⚪"@, Tone::Gray)
    } else {
        ("🔵"@, Tone::Cyan)
    }
}

/// The badge shown beside a contact with the given availability; the
/// availability is compared without regard to case.
pub fn availability_badge(availability: &str) -> (r: (&'static str, Tone))
    ensures
        (r.0@, r.1) == badge_spec(lowercase_of(availability@)),
{
    let l = to_lowercase(availability);
    let l = l.as_str();
    if str_eq(l, "available") {
        ("🟢", Tone::Green)
    } else if str_eq(l, "busy") || str_eq(l, "donotdisturb") {
        ("🔴", Tone::Red)
    } else if str_eq(l, "away") || str_eq(l, "berightback") {
        ("🟡", Tone::Yellow)
    } else if str_eq(l, "offline") {
        ("⚪", Tone::Gray)
    } else {
        ("🔵", Tone::Cyan)
    }
}

/// The header's presence: icon, tone and text for the user's own presence.
pub open spec fn header_presence_spec(p: Option<PresenceInfo>) -> (Seq<char>, Tone, Seq<char>) {
    match p {
        None => ("⚪"@, Tone::Gray, "Unknown"@),
        Some(p) => {
            let l = lowercase_of(p.availability@);
            if l == "available"@ {
                ("🟢"@, Tone::Green, "Available ("@ + p.activity@ + ")"@)
            } else if l == "busy"@ {
                ("🔴"@, Tone::Red, "Busy ("@ + p.activity@ + ")"@)
            } else if l == "donotdisturb"@ {
                ("⛔"@, Tone::Red, "Do Not Disturb"@)
            } else if l == "away"@ || l == "berightback"@ {
                ("🟡"@, Tone::Yellow, "Away"@)
            } else if l == "offline"@ {
                ("⚪"@, Tone::Gray, "Offline"@)
            } else {
                ("🔵"@, Tone::Cyan, p.availability@)
            }
        },
    }
}

/// The header's icon, tone and text for the user's own presence.
pub fn header_presence(presence: &Option<PresenceInfo>) -> (r: (&'static str, Tone, String))
    ensures
        (r.0@, r.1, r.2@) == header_presence_spec(*presence),
{
    match presence {
        None => ("⚪", Tone::Gray, String::from_str("Unknown")),
        Some(p) => {
            let l = to_lowercase(p.availability.as_str());
            let l = l.as_str();
            if str_eq(l, "available") {
                let mut t = String::from_str("Available (");
                t.append(p.activity.as_str());
                t.append(")");
                ("🟢", Tone::Green, t)
            } else if str_eq(l, "busy") {
                let mut t = String::from_str("Busy (");
                t.append(p.activity.as_str());
                t.append(")");
                ("🔴", Tone::Red, t)
            } else if str_eq(l, "donotdisturb") {
                ("⛔", Tone::Red, String::from_str("Do Not Disturb"))
            } else if str_eq(l, "away") || str_eq(l, "berightback") {
                ("🟡", Tone::Yellow, String::from_str("Away"))
            } else if str_eq(l, "offline") {
                ("⚪", Tone::Gray, String::from_str("Offline"))
            } else {
                ("🔵", Tone::Cyan, p.availability.clone())
            }
        },
    }
}

/// The name shown for the signed-in user: the display name, or
/// "Connecting..." until it is known.
pub fn header_user_name(app: &App) -> (r: String)
    ensures
        r@ == match app.current_user {
            Some(u) => match u.display_name {
                Some(n) => n@,
                None => "Connecting..."@,
            },
            None => "Connecting..."@,
        },
{
    match &app.current_user {
        Some(u) => match &u.display_name {
            Some(n) => n.clone(),
            None => String::from_str("Connecting..."),
        },
        None => String::from_str("Connecting..."),
    }
}

/// The user id of the first member from index `i` on that has one and is not
/// the signed-in user `me`.
pub open spec fn other_member_from(ms: Seq<ChatMemberView>, me: Option<Seq<char>>, i: int) -> Option<
    Seq<char>,
>
    decreases ms.len() - i,
{
    if i < 0 || i >= ms.len() {
        None
    } else {
        match ms[i].user_id {
            Some(uid) => if me != Some(uid) {
                Some(uid)
            } else {
                other_member_from(ms, me, i + 1)
            },
            None => other_member_from(ms, me, i + 1),
        }
    }
}

/// The signed-in user's id, if known.
pub open spec fn my_user_id(a: App) -> Option<Seq<char>> {
    match a.current_user {
        Some(u) => Some(u.id@),
        None => None,
    }
}

/// The presence badge of a 1:1 chat: that of the other member, when the
/// chat is one-on-one and the other member's presence is known.
pub open spec fn chat_badge_spec(a: App, chat: ChatSummary) -> Option<(Seq<char>, Tone)> {
    if chat.chat_type@ != "oneOnOne"@ {
        None
    } else {
        match other_member_from(chat@.members, my_user_id(a), 0) {
            Some(uid) => if a.user_presences@.dom().contains(uid) {
                Some(badge_spec(lowercase_of(a.user_presences@[uid].availability@)))
            } else {
                None
            },
            None => None,
        }
    }
}

/// The presence badge shown beside a chat in the sidebar, if any.
pub fn chat_badge(app: &App, chat: &ChatSummary) -> (r: Option<(&'static str, Tone)>)
    ensures
        match r {
            Some(b) => chat_badge_spec(*app, *chat) == Some((b.0@, b.1)),
            None => chat_badge_spec(*app, *chat) is None,
        },
{
    if !str_eq(chat.chat_type.as_str(), "oneOnOne") {
        return None;
    }
    let ghost me = my_user_id(*app);
    let ghost ms = chat@.members;
    let mut i: usize = 0;
    while i < chat.members.len()
        invariant
            0 <= i <= chat.members@.len(),
            ms == chat@.members,
            me == my_user_id(*app),
            chat.chat_type@ == "oneOnOne"@,
            other_member_from(ms, me, 0) == other_member_from(ms, me, i as int),
        decreases chat.members@.len() - i,
    {
        let m = &chat.members[i];
        assert(ms[i as int] == m@);
        match &m.user_id {
            Some(uid) => {
                let mine = match &app.current_user {
                    Some(u) => str_eq(uid.as_str(), u.id.as_str()),
                    None => false,
                };
                if !mine {
                    assert(other_member_from(ms, me, i as int) == Some(uid@));
                    return match app.user_presences.get(uid.as_str()) {
                        Some(p) => Some(availability_badge(p.availability.as_str())),
                        None => None,
                    };
                }
            },
            None => {},
        }
        i = i + 1;
    }
    None
}

/// Whether the chat `chat_id` is the conversation on screen.
pub fn is_active_chat(app: &App, chat_id: &str) -> (r: bool)
    ensures
        r == (app.active_conversation matches Some(ActiveConversation::Chat { id, .. }) && id@
            == chat_id@),
{
    match &app.active_conversation {
        Some(ActiveConversation::Chat { id, .. }) => str_eq(id.as_str(), chat_id),
        _ => false,
    }
}

/// Whether the channel `channel_id` of team `team_id` is the conversation on screen.
pub fn is_active_channel(app: &App, team_id: &str, channel_id: &str) -> (r: bool)
    ensures
        r == (app.active_conversation matches Some(
            ActiveConversation::Channel { team_id: t, channel_id: c, .. },
        ) && c@ == channel_id@ && t@ == team_id@),
{
    match &app.active_conversation {
        Some(ActiveConversation::Channel { team_id: t, channel_id: c, .. }) => str_eq(
            c.as_str(),
            channel_id,
        ) && str_eq(t.as_str(), team_id),
        _ => false,
    }
}

// ---------------------------------------------------------------------------
// Message pane
// ---------------------------------------------------------------------------

/// The title of the conversation on screen, with the sync mark.
pub open spec fn conversation_title_spec(a: App) -> Seq<char> {
    let base = match a.active_conversation {
        Some(c) => match c@ {
            ActiveConversationView::Chat { title, .. } => " Chat: "@ + title + " "@,
            ActiveConversationView::Channel { title, .. } => " Channel: "@ + title + " "@,
        },
        None => " No conversation selected "@,
    };
    if a.is_syncing {
        base + "[Syncing...] "@
    } else {
        base
    }
}

/// The message pane's title: the conversation's title, trimmed and marked as
/// active while the pane has the focus.
pub open spec fn message_pane_title_spec(a: App) -> Seq<char> {
    if a.focused_pane == FocusedPane::Messages {
        trim_spec(conversation_title_spec(a)) + " (Active - Scroll with ↑/↓) "@
    } else {
        conversation_title_spec(a)
    }
}

/// The message pane's title.
pub fn message_pane_title(app: &App) -> (r: String)
    ensures
        r@ == message_pane_title_spec(*app),
{
    let mut t = match &app.active_conversation {
        Some(ActiveConversation::Chat { title, .. }) => {
            let mut t = String::from_str(" Chat: ");
            t.append(title.as_str());
            t.append(" ");
            t
        },
        Some(ActiveConversation::Channel { title, .. }) => {
            let mut t = String::from_str(" Channel: ");
            t.append(title.as_str());
            t.append(" ");
            t
        },
        None => String::from_str(" No conversation selected "),
    };
    if app.is_syncing {
        t.append("[Syncing...] ");
    }
    if app.focused_pane == FocusedPane::Messages {
        let mut f = trim(t.as_str());
        f.append(" (Active - Scroll with ↑/↓) ");
        f
    } else {
        t
    }
}

/// The note shown instead of messages when there are none.
pub open spec fn empty_messages_note_spec(a: App) -> Seq<char> {
    if a.is_loading {
        if a.active_conversation matches Some(ActiveConversation::Channel { .. }) {
            "Loading channel messages from Microsoft Graph... (Channels may take a few moments)"@
        } else {
            "Loading messages..."@
        }
    } else if a.active_conversation is None {
        "Select a chat or channel from the sidebar and press Enter."@
    } else {
        "No messages found in this conversation."@
    }
}

/// The note shown in the message pane when it has no messages; none when it has.
pub fn empty_messages_note(app: &App) -> (r: Option<&'static str>)
    ensures
        app.messages@.len() > 0 ==> r is None,
        app.messages@.len() == 0 ==> (r matches Some(s) && s@ == empty_messages_note_spec(*app)),
{
    if app.messages.len() > 0 {
        return None;
    }
    let note = if app.is_loading {
        if matches!(app.active_conversation, Some(ActiveConversation::Channel { .. })) {
            "Loading channel messages from Microsoft Graph... (Channels may take a few moments)"
        } else {
            "Loading messages..."
        }
    } else if app.active_conversation.is_none() {
        "Select a chat or channel from the sidebar and press Enter."
    } else {
        "No messages found in this conversation."
    };
    Some(note)
}

/// The emoji of a reaction type, compared without regard to case.
pub open spec fn reaction_emoji_spec(l: Seq<char>) -> Seq<char> {
    if l == "like"@ {
        "👍"@
    } else if l == "heart"@ {
        "❤️"@
    } else if l == "laugh"@ {
        "😆"@
    } else if l == "surprised"@ {
        "😮"@
    } else if l == "sad"@ {
        "😢"@
    } else if l == "angry"@ {
        "😡"@
    } else {
        "✨"@
    }
}

/// The emoji shown for a reaction.
pub fn reaction_emoji(reaction_type: &str) -> (r: &'static str)
    ensures
        r@ == reaction_emoji_spec(lowercase_of(reaction_type@)),
{
    let l = to_lowercase(reaction_type);
    let l = l.as_str();
    if str_eq(l, "like") {
        "👍"
    } else if str_eq(l, "heart") {
        "❤️"
    } else if str_eq(l, "laugh") {
        "😆"
    } else if str_eq(l, "surprised") {
        "😮"
    } else if str_eq(l, "sad") {
        "😢"
    } else if str_eq(l, "angry") {
        "😡"
    } else {
        "✨"
    }
}

/// The signed-in user's display name equals `sender`, ASCII case aside.
pub open spec fn own_message_spec(a: App, sender: Seq<char>) -> bool {
    match a.current_user {
        Some(u) => match u.display_name {
            Some(n) => eq_ignore_ascii_case_spec(n@, sender),
            None => false,
        },
        None => false,
    }
}

/// Whether a message whose sender is shown as `sender` was written by the
/// signed-in user: their display name equals it, ASCII case aside.
pub fn is_own_message(app: &App, sender: &str) -> (r: bool)
    ensures
        r == own_message_spec(*app, sender@),
{
    match &app.current_user {
        Some(u) => match &u.display_name {
            Some(n) => eq_ignore_ascii_case(n.as_str(), sender),
            None => false,
        },
        None => false,
    }
}

/// Whether `chrono::DateTime::parse_from_rfc3339` accepts the text `s`.
pub uninterp spec fn rfc3339_parses(s: Seq<char>) -> bool;

/// `c` is an ASCII digit.
pub open spec fn is_digit(c: char) -> bool {
    '0' <= c && c <= '9'
}

/// `r` reads `HH:MM:SS`: two digits, a colon, two digits, a colon, two digits.
pub open spec fn clock_shape(r: Seq<char>) -> bool {
    &&& r.len() == 8
    &&& r[2] == ':' && r[5] == ':'
    &&& is_digit(r[0]) && is_digit(r[1])
    &&& is_digit(r[3]) && is_digit(r[4])
    &&& is_digit(r[6]) && is_digit(r[7])
}

/// `r` is what is shown for a message created at `created_at`: a clock time
/// when the time reads as RFC 3339, otherwise "--:--:--".
pub open spec fn shows_time(created_at: Option<String>, r: Seq<char>) -> bool {
    match created_at {
        Some(t) => if rfc3339_parses(t@) {
            clock_shape(r)
        } else {
            r == "--:--:--"@
        },
        None => r == "--:--:--"@,
    }
}

/// Calls `chrono::DateTime::parse_from_rfc3339` on `ts` and, when it parses,
/// shows the instant in the machine's time zone as `%H:%M:%S`. Whether it
/// parses depends on `ts` alone and is named `rfc3339_parses(ts@)`; which
/// time comes out depends on the time zone, so only its shape is stated,
/// which chrono documents: hours, minutes and seconds, each zero-padded to
/// two digits, between colons.
#[verifier::external_body]
fn local_clock_time(ts: &str) -> (r: Option<String>)
    ensures
        r is Some <==> rfc3339_parses(ts@),
        r matches Some(s) ==> clock_shape(s@),
{
    match chrono::DateTime::parse_from_rfc3339(ts) {
        Ok(dt) => Some(dt.with_timezone(&chrono::Local).format("%H:%M:%S").to_string()),
        Err(_) => None,
    }
}

/// The time shown beside a message: its creation time on the local clock,
/// or "--:--:--" when it has none or it does not read as RFC 3339.
pub fn message_time(created_at: &Option<String>) -> (r: String)
    ensures
        shows_time(*created_at, r@),
        (created_at matches Some(t) && rfc3339_parses(t@)) ==> r@ != "--:--:--"@,
{
    proof {
        reveal_strlit("--:--:--");
    }
    match created_at {
        Some(t) => match local_clock_time(t.as_str()) {
            Some(s) => {
                assert(s@[0] != "--:--:--"@[0]);
                s
            },
            None => String::from_str("--:--:--"),
        },
        None => String::from_str("--:--:--"),
    }
}

/// What the message pane shows of one message.
#[derive(Debug)]
pub struct MessageBlock {
    /// The time beside the sender.
    pub time: String,
    /// The sender's name.
    pub sender: String,
    /// The signed-in user wrote it.
    pub own: bool,
    /// The text, line by line.
    pub lines: Vec<String>,
    /// One emoji per reaction, in order.
    pub reactions: Vec<&'static str>,
}

/// `b` shows message `m` as seen by the state `a`.
pub open spec fn block_of(a: App, m: ChatMessage, b: MessageBlock) -> bool {
    &&& shows_time(m.created_at, b.time@)
    &&& b.sender@ == sender_name_spec(m.from)
    &&& b.own == own_message_spec(a, b.sender@)
    &&& b.lines.deep_view() == lines_spec(clean_content_spec(m.body.content_type@, m.body.content@))
    &&& b.reactions@.len() == m.reactions@.len()
    &&& forall|i: int|
        0 <= i < b.reactions@.len() ==> (#[trigger] b.reactions@[i])@ == reaction_emoji_spec(
            lowercase_of(m.reactions@[i].reaction_type@),
        )
}

fn message_block(app: &App, m: &ChatMessage) -> (r: MessageBlock)
    ensures
        block_of(*app, *m, r),
{
    let sender = m.sender_display_name();
    let own = is_own_message(app, sender.as_str());
    let time = message_time(&m.created_at);
    let content = m.clean_content();
    let lines = text_lines(content.as_str());
    let mut reactions: Vec<&'static str> = Vec::new();
    let mut i: usize = 0;
    while i < m.reactions.len()
        invariant
            i <= m.reactions@.len(),
            reactions@.len() == i,
            forall|k: int|
                0 <= k < i ==> (#[trigger] reactions@[k])@ == reaction_emoji_spec(
                    lowercase_of(m.reactions@[k].reaction_type@),
                ),
        decreases m.reactions@.len() - i,
    {
        reactions.push(reaction_emoji(m.reactions[i].reaction_type.as_str()));
        i = i + 1;
    }
    MessageBlock { time, sender, own, lines, reactions }
}

/// What the message pane shows, oldest message first: the messages are
/// held newest first, so the last one comes first.
pub fn message_blocks(app: &App) -> (r: Vec<MessageBlock>)
    ensures
        r@.len() == app.messages@.len(),
        forall|i: int|
            0 <= i < r@.len() ==> block_of(
                *app,
                app.messages@[app.messages@.len() - 1 - i],
                #[trigger] r@[i],
            ),
{
    let n = app.messages.len();
    let mut out: Vec<MessageBlock> = Vec::new();
    let mut i: usize = 0;
    while i < n
        invariant
            n == app.messages@.len(),
            i <= n,
            out@.len() == i,
            forall|k: int|
                0 <= k < i ==> block_of(*app, app.messages@[n - 1 - k], #[trigger] out@[k]),
        decreases n - i,
    {
        out.push(message_block(app, &app.messages[n - 1 - i]));
        i = i + 1;
    }
    out
}

// ---------------------------------------------------------------------------
// Input line and footer
// ---------------------------------------------------------------------------

/// The input line's title: whom a message goes to, and how to send it.
pub open spec fn input_title_spec(a: App) -> Seq<char> {
    let target = match a.active_conversation {
        Some(c) => match c@ {
            ActiveConversationView::Chat { title, .. } => title,
            ActiveConversationView::Channel { title, .. } => title,
        },
        None => "None (Select a conversation first)"@,
    };
    if a.focused_pane == FocusedPane::Input {
        " Message to: "@ + target + " (Press Enter to Send, Esc to Exit) "@
    } else {
        " Message: "@ + target + " (Press 'i' to type) "@
    }
}

/// The input line's title.
pub fn input_title(app: &App) -> (r: String)
    ensures
        r@ == input_title_spec(*app),
{
    let target = match &app.active_conversation {
        Some(ActiveConversation::Chat { title, .. }) => title.as_str(),
        Some(ActiveConversation::Channel { title, .. }) => title.as_str(),
        None => "None (Select a conversation first)",
    };
    if app.focused_pane == FocusedPane::Input {
        let mut t = String::from_str(" Message to: ");
        t.append(target);
        t.append(" (Press Enter to Send, Esc to Exit) ");
        t
    } else {
        let mut t = String::from_str(" Message: ");
        t.append(target);
        t.append(" (Press 'i' to type) ");
        t
    }
}

/// The key help shown in the footer for the focused pane.
pub fn footer_help(pane: FocusedPane) -> (r: &'static str)
    ensures
        r@ == match pane {
            FocusedPane::Sidebar => " [j/k] Navigate | [Enter] Open Chat | [s] Search | [p] Status | [r] Refresh | [q] Quit "@,
            FocusedPane::Messages => " [↑/↓] Scroll Messages | [i] Type Message | [/] Search Users | [Esc] Back to Sidebar "@,
            FocusedPane::Input => " [Enter] Send | [Esc] Cancel/Unfocus | [Tab] Switch Pane "@,
        },
{
    match pane {
        FocusedPane::Sidebar => " [j/k] Navigate | [Enter] Open Chat | [s] Search | [p] Status | [r] Refresh | [q] Quit ",
        FocusedPane::Messages => " [↑/↓] Scroll Messages | [i] Type Message | [/] Search Users | [Esc] Back to Sidebar ",
        FocusedPane::Input => " [Enter] Send | [Esc] Cancel/Unfocus | [Tab] Switch Pane ",
    }
}

/// The status shown in the footer.
pub fn footer_status(app: &App) -> (r: String)
    ensures
        r@ == " Status: "@ + app.status_message@ + " "@,
{
    let mut s = String::from_str(" Status: ");
    s.append(app.status_message.as_str());
    s.append(" ");
    s
}

// ---------------------------------------------------------------------------
// Search modal
// ---------------------------------------------------------------------------

/// The title of the search box.
pub fn search_title(app: &App) -> (r: &'static str)
    ensures
        r@ == if app.is_searching {
            " Search Users (Searching directory & contacts...) "@
        } else if app.directory_search_denied {
            " Search Recent Contacts (Run 'teams-tui --login' for full directory) "@
        } else {
            " Search Organisation Users & Contacts (Type Name or Email) "@
        },
{
    if app.is_searching {
        " Search Users (Searching directory & contacts...) "
    } else if app.directory_search_denied {
        " Search Recent Contacts (Run 'teams-tui --login' for full directory) "
    } else {
        " Search Organisation Users & Contacts (Type Name or Email) "
    }
}

/// The title of the result list: the number of results, and the search
/// note when there is one.
pub fn results_title(app: &App) -> (r: String)
    ensures
        r@ == match app.search_error_msg {
            Some(e) => " Results ("@ + decimal_spec(app.search_results@.len()) + ") [Note: "@ + e@
                + "] "@,
            None => " Results ("@ + decimal_spec(app.search_results@.len()) + ") "@,
        },
{
    let n = decimal(app.search_results.len() as u128);
    let mut t = String::from_str(" Results (");
    t.append(n.as_str());
    match &app.search_error_msg {
        Some(e) => {
            t.append(") [Note: ");
            t.append(e.as_str());
            t.append("] ");
        },
        None => {
            t.append(") ");
        },
    }
    t
}

/// The note shown in place of an empty result list.
pub fn empty_results_note(app: &App) -> (r: String)
    ensures
        r@ == match app.search_error_msg {
            Some(e) => e@,
            None => if trim_spec(app.search_query@).len() == 0 {
                "Type at least 1 character to search users in the organisation or recent contacts."@
            } else if app.is_searching {
                "Searching directory and recent contacts..."@
            } else {
                "No matching users or contacts found."@
            },
        },
{
    match &app.search_error_msg {
        Some(e) => e.clone(),
        None => if crate::text::is_blank(app.search_query.as_str()) {
            String::from_str(
                "Type at least 1 character to search users in the organisation or recent contacts.",
            )
        } else if app.is_searching {
            String::from_str("Searching directory and recent contacts...")
        } else {
            String::from_str("No matching users or contacts found.")
        },
    }
}

/// The text of one search result: the name, a role suffix, and the line
/// under the name.
#[derive(Debug)]
pub struct ResultLines {
    pub name: String,
    pub role: String,
    pub detail: String,
}

/// `o`'s text, or `d` when it is absent.
pub open spec fn or_default(o: Option<Seq<char>>, d: Seq<char>) -> Seq<char> {
    match o {
        Some(s) => s,
        None => d,
    }
}

/// The contact address shown for a user: mail, else principal name, else "No email".
pub open spec fn email_spec(u: OrgUser) -> Seq<char> {
    match opt_str(u.mail) {
        Some(m) => m,
        None => or_default(opt_str(u.user_principal_name), "No email"@),
    }
}

fn text_or(o: &Option<String>, d: &str) -> (r: String)
    ensures
        r@ == or_default(opt_str(*o), d@),
{
    match o {
        Some(s) => s.clone(),
        None => d.to_owned(),
    }
}

/// The text of a search result: the name ("Unknown" without one); the job
/// title in brackets, if not empty; the address, followed by " • " and the
/// department when that is not empty.
pub fn result_lines(user: &OrgUser) -> (r: ResultLines)
    ensures
        r.name@ == or_default(opt_str(user.display_name), "Unknown"@),
        r.role@ == ({
            let role = or_default(opt_str(user.job_title), ""@);
            if role.len() == 0 { ""@ } else { " ("@ + role + ")"@ }
        }),
        r.detail@ == ({
            let dept = or_default(opt_str(user.department), ""@);
            if dept.len() == 0 { email_spec(*user) } else { email_spec(*user) + " • "@ + dept }
        }),
{
    let name = text_or(&user.display_name, "Unknown");
    let role = text_or(&user.job_title, "");
    let email = match &user.mail {
        Some(m) => m.clone(),
        None => text_or(&user.user_principal_name, "No email"),
    };
    let dept = text_or(&user.department, "");
    let role_text = if role.as_str().is_empty() {
        String::from_str("")
    } else {
        let mut t = String::from_str(" (");
        t.append(role.as_str());
        t.append(")");
        t
    };
    let detail = if dept.as_str().is_empty() {
        email
    } else {
        let mut t = email;
        t.append(" • ");
        t.append(dept.as_str());
        t
    };
    ResultLines { name, role: role_text, detail }
}

} // verus!
