//! The Microsoft Graph data model the client works with, and the text it derives
//! from it: chat titles, message bodies as plain text, sender names.
use vstd::prelude::*;
use vstd::utf8::encode_utf8;
use crate::text::{
    chars_of, char_utf8_len, eq_ignore_ascii_case, eq_ignore_ascii_case_spec, is_blank,
    join_spec, join_strings, lemma_utf8_offset_step, lemma_utf8_offset_strict,
    lemma_utf8_offset_total, lowercase_of, push_char, replace_all, replace_str, str_eq,
    string_from_chars, to_lowercase, trim, trim_spec, utf8_offset,
};

verus! {

broadcast use vstd::string::group_string_axioms;

/// The view of an optional string: its characters, if present.
pub open spec fn opt_str(o: Option<String>) -> Option<Seq<char>> {
    match o {
        Some(s) => Some(s@),
        None => None,
    }
}

/// Calls `<Option<String> as Clone>::clone`, which returns an equal value.
pub fn clone_opt_string(o: &Option<String>) -> (r: Option<String>)
    ensures
        r == *o,
{
    match o {
        Some(s) => Some(s.clone()),
        None => None,
    }
}

/// One page of a Graph collection response.
#[derive(Debug)]
pub struct GraphList<T> {
    pub value: Vec<T>,
    pub next_link: Option<String>,
}

// ---------------------------------------------------------------------------
// Users and presence
// ---------------------------------------------------------------------------

/// The signed-in user's profile.
#[derive(Debug)]
pub struct UserProfile {
    pub id: String,
    pub display_name: Option<String>,
    pub user_principal_name: Option<String>,
    pub mail: Option<String>,
}

pub struct UserProfileView {
    pub id: Seq<char>,
    pub display_name: Option<Seq<char>>,
    pub user_principal_name: Option<Seq<char>>,
    pub mail: Option<Seq<char>>,
}

impl View for UserProfile {
    type V = UserProfileView;

    open spec fn view(&self) -> UserProfileView {
        UserProfileView {
            id: self.id@,
            display_name: opt_str(self.display_name),
            user_principal_name: opt_str(self.user_principal_name),
            mail: opt_str(self.mail),
        }
    }
}

impl Clone for UserProfile {
    fn clone(&self) -> (r: Self)
        ensures
            r == *self,
    {
        UserProfile {
            id: self.id.clone(),
            display_name: clone_opt_string(&self.display_name),
            user_principal_name: clone_opt_string(&self.user_principal_name),
            mail: clone_opt_string(&self.mail),
        }
    }
}

/// A user of the organisation directory (or a contact found locally).
#[derive(Debug)]
pub struct OrgUser {
    pub id: String,
    pub display_name: Option<String>,
    pub user_principal_name: Option<String>,
    pub mail: Option<String>,
    pub job_title: Option<String>,
    pub department: Option<String>,
}

pub struct OrgUserView {
    pub id: Seq<char>,
    pub display_name: Option<Seq<char>>,
    pub user_principal_name: Option<Seq<char>>,
    pub mail: Option<Seq<char>>,
    pub job_title: Option<Seq<char>>,
    pub department: Option<Seq<char>>,
}

impl View for OrgUser {
    type V = OrgUserView;

    open spec fn view(&self) -> OrgUserView {
        OrgUserView {
            id: self.id@,
            display_name: opt_str(self.display_name),
            user_principal_name: opt_str(self.user_principal_name),
            mail: opt_str(self.mail),
            job_title: opt_str(self.job_title),
            department: opt_str(self.department),
        }
    }
}

impl DeepView for OrgUser {
    type V = OrgUserView;

    open spec fn deep_view(&self) -> OrgUserView {
        self@
    }
}

impl Clone for OrgUser {
    fn clone(&self) -> (r: Self)
        ensures
            r == *self,
    {
        OrgUser {
            id: self.id.clone(),
            display_name: clone_opt_string(&self.display_name),
            user_principal_name: clone_opt_string(&self.user_principal_name),
            mail: clone_opt_string(&self.mail),
            job_title: clone_opt_string(&self.job_title),
            department: clone_opt_string(&self.department),
        }
    }
}

/// A presence state: availability (Available, Busy, ...) and activity.
#[derive(Debug)]
pub struct PresenceInfo {
    pub availability: String,
    pub activity: String,
}

pub struct PresenceInfoView {
    pub availability: Seq<char>,
    pub activity: Seq<char>,
}

impl View for PresenceInfo {
    type V = PresenceInfoView;

    open spec fn view(&self) -> PresenceInfoView {
        PresenceInfoView { availability: self.availability@, activity: self.activity@ }
    }
}

impl DeepView for PresenceInfo {
    type V = PresenceInfoView;

    open spec fn deep_view(&self) -> PresenceInfoView {
        self@
    }
}

impl Clone for PresenceInfo {
    fn clone(&self) -> (r: Self)
        ensures
            r == *self,
    {
        PresenceInfo { availability: self.availability.clone(), activity: self.activity.clone() }
    }
}

// ---------------------------------------------------------------------------
// Chats, teams, channels
// ---------------------------------------------------------------------------

/// A member of a chat.
#[derive(Debug)]
pub struct ChatMember {
    pub id: Option<String>,
    pub display_name: Option<String>,
    pub user_id: Option<String>,
    pub email: Option<String>,
}

pub struct ChatMemberView {
    pub id: Option<Seq<char>>,
    pub display_name: Option<Seq<char>>,
    pub user_id: Option<Seq<char>>,
    pub email: Option<Seq<char>>,
}

impl View for ChatMember {
    type V = ChatMemberView;

    open spec fn view(&self) -> ChatMemberView {
        ChatMemberView {
            id: opt_str(self.id),
            display_name: opt_str(self.display_name),
            user_id: opt_str(self.user_id),
            email: opt_str(self.email),
        }
    }
}

impl DeepView for ChatMember {
    type V = ChatMemberView;

    open spec fn deep_view(&self) -> ChatMemberView {
        self@
    }
}

impl Clone for ChatMember {
    fn clone(&self) -> (r: Self)
        ensures
            r == *self,
    {
        ChatMember {
            id: clone_opt_string(&self.id),
            display_name: clone_opt_string(&self.display_name),
            user_id: clone_opt_string(&self.user_id),
            email: clone_opt_string(&self.email),
        }
    }
}

/// A 1:1 or group chat, with its members.
#[derive(Debug)]
pub struct ChatSummary {
    pub id: String,
    pub topic: Option<String>,
    pub chat_type: String,
    pub members: Vec<ChatMember>,
    pub last_updated_date_time: Option<String>,
}

pub struct ChatSummaryView {
    pub id: Seq<char>,
    pub topic: Option<Seq<char>>,
    pub chat_type: Seq<char>,
    pub members: Seq<ChatMemberView>,
    pub last_updated_date_time: Option<Seq<char>>,
}

impl View for ChatSummary {
    type V = ChatSummaryView;

    open spec fn view(&self) -> ChatSummaryView {
        ChatSummaryView {
            id: self.id@,
            topic: opt_str(self.topic),
            chat_type: self.chat_type@,
            members: self.members.deep_view(),
            last_updated_date_time: opt_str(self.last_updated_date_time),
        }
    }
}

impl DeepView for ChatSummary {
    type V = ChatSummaryView;

    open spec fn deep_view(&self) -> ChatSummaryView {
        self@
    }
}

/// Calls `<Vec<T> as Clone>::clone` for elements whose clone returns an equal value.
pub fn clone_members(v: &Vec<ChatMember>) -> (r: Vec<ChatMember>)
    ensures
        r@ == v@,
{
    let r = v.clone();
    assert forall|i: int| 0 <= i < v@.len() implies r@[i] == v@[i] by {
        assert(cloned(v@[i], r@[i]));
    }
    assert(r@ =~= v@);
    r
}

impl Clone for ChatSummary {
    fn clone(&self) -> (r: Self)
        ensures
            r@ == self@,
    {
        ChatSummary {
            id: self.id.clone(),
            topic: clone_opt_string(&self.topic),
            chat_type: self.chat_type.clone(),
            members: clone_members(&self.members),
            last_updated_date_time: clone_opt_string(&self.last_updated_date_time),
        }
    }
}

/// A team the user has joined.
#[derive(Debug)]
pub struct TeamSummary {
    pub id: String,
    pub display_name: String,
    pub description: Option<String>,
}

pub struct TeamSummaryView {
    pub id: Seq<char>,
    pub display_name: Seq<char>,
    pub description: Option<Seq<char>>,
}

impl View for TeamSummary {
    type V = TeamSummaryView;

    open spec fn view(&self) -> TeamSummaryView {
        TeamSummaryView {
            id: self.id@,
            display_name: self.display_name@,
            description: opt_str(self.description),
        }
    }
}

impl DeepView for TeamSummary {
    type V = TeamSummaryView;

    open spec fn deep_view(&self) -> TeamSummaryView {
        self@
    }
}

impl Clone for TeamSummary {
    fn clone(&self) -> (r: Self)
        ensures
            r == *self,
    {
        TeamSummary {
            id: self.id.clone(),
            display_name: self.display_name.clone(),
            description: clone_opt_string(&self.description),
        }
    }
}

/// A channel within a team.
#[derive(Debug)]
pub struct ChannelSummary {
    pub id: String,
    pub display_name: String,
    pub description: Option<String>,
}

pub struct ChannelSummaryView {
    pub id: Seq<char>,
    pub display_name: Seq<char>,
    pub description: Option<Seq<char>>,
}

impl View for ChannelSummary {
    type V = ChannelSummaryView;

    open spec fn view(&self) -> ChannelSummaryView {
        ChannelSummaryView {
            id: self.id@,
            display_name: self.display_name@,
            description: opt_str(self.description),
        }
    }
}

impl DeepView for ChannelSummary {
    type V = ChannelSummaryView;

    open spec fn deep_view(&self) -> ChannelSummaryView {
        self@
    }
}

impl Clone for ChannelSummary {
    fn clone(&self) -> (r: Self)
        ensures
            r == *self,
    {
        ChannelSummary {
            id: self.id.clone(),
            display_name: self.display_name.clone(),
            description: clone_opt_string(&self.description),
        }
    }
}

// ---------------------------------------------------------------------------
// Messages
// ---------------------------------------------------------------------------

/// The identity a message was sent by.
#[derive(Debug)]
pub struct IdentityUser {
    pub id: Option<String>,
    pub display_name: Option<String>,
}

impl Clone for IdentityUser {
    fn clone(&self) -> (r: Self)
        ensures
            r == *self,
    {
        IdentityUser { id: clone_opt_string(&self.id), display_name: clone_opt_string(&self.display_name) }
    }
}

/// The `from` part of a message.
#[derive(Debug)]
pub struct ChatMessageFrom {
    pub user: Option<IdentityUser>,
}

impl Clone for ChatMessageFrom {
    fn clone(&self) -> (r: Self)
        ensures
            r == *self,
    {
        ChatMessageFrom {
            user: match &self.user {
                Some(u) => Some(u.clone()),
                None => None,
            },
        }
    }
}

/// A message body: its content type (`text` or `html`) and content.
#[derive(Debug)]
pub struct MessageBody {
    pub content_type: String,
    pub content: String,
}

impl Clone for MessageBody {
    fn clone(&self) -> (r: Self)
        ensures
            r == *self,
    {
        MessageBody { content_type: self.content_type.clone(), content: self.content.clone() }
    }
}

/// One reaction on a message.
#[derive(Debug)]
pub struct ChatMessageReaction {
    pub reaction_type: String,
}

impl Clone for ChatMessageReaction {
    fn clone(&self) -> (r: Self)
        ensures
            r == *self,
    {
        ChatMessageReaction { reaction_type: self.reaction_type.clone() }
    }
}

/// A chat or channel message.
#[derive(Debug)]
pub struct ChatMessage {
    pub id: String,
    pub created_at: Option<String>,
    pub from: Option<ChatMessageFrom>,
    pub body: MessageBody,
    pub reactions: Vec<ChatMessageReaction>,
}

/// Copies a vector of reactions.
pub fn clone_reactions(v: &Vec<ChatMessageReaction>) -> (r: Vec<ChatMessageReaction>)
    ensures
        r@ == v@,
{
    let r = v.clone();
    assert forall|i: int| 0 <= i < v@.len() implies r@[i] == v@[i] by {
        assert(cloned(v@[i], r@[i]));
    }
    assert(r@ =~= v@);
    r
}

/// A message with its reactions as a sequence.
pub struct ChatMessageView {
    pub id: String,
    pub created_at: Option<String>,
    pub from: Option<ChatMessageFrom>,
    pub body: MessageBody,
    pub reactions: Seq<ChatMessageReaction>,
}

impl View for ChatMessage {
    type V = ChatMessageView;

    open spec fn view(&self) -> ChatMessageView {
        ChatMessageView {
            id: self.id,
            created_at: self.created_at,
            from: self.from,
            body: self.body,
            reactions: self.reactions@,
        }
    }
}

impl DeepView for ChatMessage {
    type V = ChatMessageView;

    open spec fn deep_view(&self) -> ChatMessageView {
        self@
    }
}

impl Clone for ChatMessage {
    fn clone(&self) -> (r: Self)
        ensures
            r@ == self@,
    {
        ChatMessage {
            id: self.id.clone(),
            created_at: clone_opt_string(&self.created_at),
            from: match &self.from {
                Some(f) => Some(f.clone()),
                None => None,
            },
            body: self.body.clone(),
            reactions: clone_reactions(&self.reactions),
        }
    }
}

/// Copies a list of messages.
pub fn clone_messages(v: &Vec<ChatMessage>) -> (r: Vec<ChatMessage>)
    ensures
        r.deep_view() == v.deep_view(),
{
    let r = v.clone();
    assert forall|i: int| 0 <= i < v@.len() implies r@[i]@ == v@[i]@ by {
        assert(cloned(v@[i], r@[i]));
    }
    assert(r.deep_view() =~= v.deep_view());
    r
}

// ---------------------------------------------------------------------------
// Chat titles
// ---------------------------------------------------------------------------

/// The view of an optional borrowed string.
pub open spec fn opt_str_ref(o: Option<&str>) -> Option<Seq<char>> {
    match o {
        Some(s) => Some(s@),
        None => None,
    }
}

/// A member name is shown in a chat title unless it is the current user's
/// name, compared after lower-casing.
pub open spec fn shows_member_name(name: Seq<char>, me: Option<Seq<char>>) -> bool {
    match me {
        Some(m) => lowercase_of(name) != lowercase_of(m),
        None => true,
    }
}

/// The display names of `members`, in order, that a chat title shows.
pub open spec fn other_member_names(members: Seq<ChatMemberView>, me: Option<Seq<char>>) -> Seq<
    Seq<char>,
>
    decreases members.len(),
{
    if members.len() == 0 {
        Seq::empty()
    } else {
        let rest = other_member_names(members.drop_last(), me);
        match members.last().display_name {
            Some(n) => if shows_member_name(n, me) {
                rest.push(n)
            } else {
                rest
            },
            None => rest,
        }
    }
}

/// Byte length of the chat-id prefix shown in a fallback title: at most 8 bytes.
pub open spec fn id_prefix_bytes(id: Seq<char>) -> int {
    let n = encode_utf8(id).len() as int;
    if n < 8 {
        n
    } else {
        8
    }
}

/// The shown prefix of the id ends on a character boundary.
pub open spec fn id_prefix_ok(id: Seq<char>) -> bool {
    exists|k: int| 0 <= k <= id.len() && #[trigger] utf8_offset(id, k) == id_prefix_bytes(id)
}

/// The characters making up the first `id_prefix_bytes(id)` bytes of `id`.
pub open spec fn id_prefix(id: Seq<char>) -> Seq<char> {
    id.take(choose|k: int| 0 <= k <= id.len() && #[trigger] utf8_offset(id, k) == id_prefix_bytes(id))
}

/// The chat has a topic that is not blank.
pub open spec fn has_shown_topic(chat: ChatSummaryView) -> bool {
    chat.topic is Some && trim_spec(chat.topic->0).len() > 0
}

/// A title made of none of the topic and member names: the chat id is shown instead.
pub open spec fn title_falls_back(chat: ChatSummaryView, me: Option<Seq<char>>) -> bool {
    !has_shown_topic(chat) && other_member_names(chat.members, me).len() == 0
}

/// The title a chat is listed under: its topic when it has a non-blank one;
/// otherwise the other members' names joined by ", "; otherwise "Chat (<id prefix>)".
pub open spec fn resolved_title_spec(chat: ChatSummaryView, me: Option<Seq<char>>) -> Seq<char> {
    if has_shown_topic(chat) {
        chat.topic->0
    } else if other_member_names(chat.members, me).len() > 0 {
        join_spec(other_member_names(chat.members, me), ", "@)
    } else {
        "Chat ("@ + id_prefix(id_of(chat)) + ")"@
    }
}

/// The id of a chat view.
pub open spec fn id_of(chat: ChatSummaryView) -> Seq<char> {
    chat.id
}

/// The characters of `id` that make up its first `id_prefix_bytes(id)` bytes.
/// `None` when no character boundary falls there.
fn id_prefix_checked(id: &str) -> (r: Option<String>)
    ensures
        r is Some <==> id_prefix_ok(id@),
        r is Some ==> r->0@ == id_prefix(id@),
{
    let v = chars_of(id);
    let vl = v.len();
    let ghost s = id@;
    let mut k: usize = 0;
    let mut off: usize = 0;
    while k < vl && off < 8
        invariant
            v@ == s,
            vl == s.len(),
            k <= vl,
            off < 12,
            off as int == utf8_offset(s, k as int),
            k > 0 ==> utf8_offset(s, k - 1) < 8,
        decreases vl - k,
    {
        proof {
            lemma_utf8_offset_step(s, k as int);
        }
        let n = char_utf8_len(v[k]);
        off = off + n;
        k = k + 1;
    }
    proof {
        lemma_utf8_offset_total(s);
    }
    let hits = off == 8 || (k == vl && off < 8);
    proof {
        if k < vl {
            lemma_utf8_offset_strict(s, k as int, vl as int);
        }
    }
    if !hits {
        proof {
            // the byte count jumped past 8 inside character k - 1
            assert forall|j: int| 0 <= j <= s.len() implies #[trigger] utf8_offset(s, j)
                != id_prefix_bytes(s) by {
                if j < k - 1 {
                    lemma_utf8_offset_strict(s, j, k - 1);
                } else if j > k {
                    lemma_utf8_offset_strict(s, k as int, j);
                }
            }
        }
        return None;
    }
    proof {
        assert(utf8_offset(s, k as int) == id_prefix_bytes(s));
        assert forall|j: int|
            0 <= j <= s.len() && #[trigger] utf8_offset(s, j) == id_prefix_bytes(s) implies j
            == k by {
            if j < k {
                lemma_utf8_offset_strict(s, j, k as int);
            } else if j > k {
                lemma_utf8_offset_strict(s, k as int, j);
            }
        }
    }
    let r = string_from_chars(&v, 0, k);
    assert(v@.subrange(0, k as int) =~= s.take(k as int));
    Some(r)
}

/// The title can be formed: when it falls back to the id, a character
/// boundary lies where the shown id prefix ends.
pub open spec fn title_resolvable(chat: ChatSummaryView, me: Option<Seq<char>>) -> bool {
    title_falls_back(chat, me) ==> id_prefix_ok(chat.id)
}

impl ChatSummary {
    /// The title this chat is listed under (see `resolved_title_spec`).
    /// Slicing the id inside a character is refused by `requires`.
    pub fn resolved_title(&self, current_user_name: Option<&str>) -> (r: String)
        requires
            title_resolvable(self@, opt_str_ref(current_user_name)),
        ensures
            r@ == resolved_title_spec(self@, opt_str_ref(current_user_name)),
    {
        match self.title_checked(current_user_name) {
            Some(t) => t,
            None => {
                proof {
                    assert(false);
                }
                String::new()
            },
        }
    }

    /// The title, or `None` when it would cut the id inside a character.
    pub fn title_checked(&self, current_user_name: Option<&str>) -> (r: Option<String>)
        ensures
            r is Some <==> title_resolvable(self@, opt_str_ref(current_user_name)),
            r is Some ==> r->0@ == resolved_title_spec(self@, opt_str_ref(current_user_name)),
    {
        let ghost me = opt_str_ref(current_user_name);
        if let Some(t) = &self.topic {
            if !is_blank(t.as_str()) {
                return Some(t.clone());
            }
        }
        let me_lower: Option<String> = match current_user_name {
            Some(m) => Some(to_lowercase(m)),
            None => None,
        };
        let mut names: Vec<String> = Vec::new();
        let mut i: usize = 0;
        while i < self.members.len()
            invariant
                i <= self@.members.len(),
                self.members@.len() == self@.members.len(),
                me == opt_str_ref(current_user_name),
                me_lower is Some == current_user_name is Some,
                me_lower is Some ==> me_lower->0@ == lowercase_of(current_user_name->0@),
                names.deep_view() == other_member_names(self@.members.take(i as int), me),
            decreases self@.members.len() - i,
        {
            let m = &self.members[i];
            assert(self@.members.take(i + 1).drop_last() =~= self@.members.take(i as int));
            assert(self@.members.take(i + 1).last() == m@);
            if let Some(name) = &m.display_name {
                let keep = match &me_lower {
                    Some(ml) => {
                        let nl = to_lowercase(name.as_str());
                        !str_eq(nl.as_str(), ml.as_str())
                    },
                    None => true,
                };
                if keep {
                    names.push(name.clone());
                    assert(names.deep_view() =~= other_member_names(
                        self@.members.take(i + 1),
                        me,
                    ));
                }
            }
            i = i + 1;
        }
        assert(self@.members.take(self@.members.len() as int) =~= self@.members);
        if names.len() > 0 {
            return Some(join_strings(&names, ", "));
        }
        assert(title_falls_back(self@, me));
        match id_prefix_checked(self.id.as_str()) {
            Some(prefix) => {
                let mut r = String::from_str("Chat (");
                r.append(prefix.as_str());
                r.append(")");
                Some(r)
            },
            None => None,
        }
    }
}

// ---------------------------------------------------------------------------
// Message text
// ---------------------------------------------------------------------------

/// `s` with everything between `<` and the next `>` removed, the brackets
/// included; `in_tag` says whether the scan starts inside a tag.
pub open spec fn strip_tags(s: Seq<char>, in_tag: bool) -> Seq<char>
    decreases s.len(),
{
    if s.len() == 0 {
        Seq::empty()
    } else if s[0] == '<' {
        strip_tags(s.drop_first(), true)
    } else if s[0] == '>' {
        strip_tags(s.drop_first(), false)
    } else if !in_tag {
        seq![s[0]] + strip_tags(s.drop_first(), false)
    } else {
        strip_tags(s.drop_first(), true)
    }
}

/// Plain text of an HTML fragment: tags removed, the common entities
/// (`&nbsp;`, `&lt;`, `&gt;`, `&amp;`, `&quot;`, `&#39;`) decoded in that
/// order, and surrounding whitespace trimmed.
pub open spec fn strip_html_spec(html: Seq<char>) -> Seq<char> {
    let t = strip_tags(html, false);
    let t1 = replace_all(t, "&nbsp;"@, " "@);
    let t2 = replace_all(t1, "&lt;"@, "<"@);
    let t3 = replace_all(t2, "&gt;"@, ">"@);
    let t4 = replace_all(t3, "&amp;"@, "&"@);
    let t5 = replace_all(t4, "&quot;"@, "\""@);
    let t6 = replace_all(t5, "&#39;"@, "'"@);
    trim_spec(t6)
}

fn remove_tags(html: &str) -> (r: String)
    ensures
        r@ == strip_tags(html@, false),
{
    let v = chars_of(html);
    let mut out = String::new();
    let mut in_tag = false;
    let mut i: usize = 0;
    assert(v@.skip(0) == v@);
    while i < v.len()
        invariant
            i <= v@.len(),
            v@ == html@,
            out@ + strip_tags(v@.skip(i as int), in_tag) == strip_tags(html@, false),
        decreases v@.len() - i,
    {
        let ch = v[i];
        assert(v@.skip(i as int).drop_first() == v@.skip(i + 1));
        assert(v@.skip(i as int)[0] == ch);
        if ch == '<' {
            in_tag = true;
        } else if ch == '>' {
            in_tag = false;
        } else if !in_tag {
            push_char(&mut out, ch);
            assert(out@ + strip_tags(v@.skip(i + 1), false) =~= (out@.drop_last() + seq![ch])
                + strip_tags(v@.skip(i + 1), false));
        }
        i = i + 1;
    }
    assert(v@.skip(i as int) =~= Seq::<char>::empty());
    assert(out@ + Seq::<char>::empty() =~= out@);
    out
}

/// Removes basic HTML tags and decodes common entities.
pub fn strip_html_tags(html: &str) -> (r: String)
    ensures
        r@ == strip_html_spec(html@),
{
    proof {
        reveal_strlit("&nbsp;");
        reveal_strlit("&lt;");
        reveal_strlit("&gt;");
        reveal_strlit("&amp;");
        reveal_strlit("&quot;");
        reveal_strlit("&#39;");
    }
    let t = remove_tags(html);
    let t1 = replace_str(t.as_str(), "&nbsp;", " ");
    let t2 = replace_str(t1.as_str(), "&lt;", "<");
    let t3 = replace_str(t2.as_str(), "&gt;", ">");
    let t4 = replace_str(t3.as_str(), "&amp;", "&");
    let t5 = replace_str(t4.as_str(), "&quot;", "\"");
    let t6 = replace_str(t5.as_str(), "&#39;", "'");
    trim(t6.as_str())
}

/// The text a message shows: HTML bodies (content type `html`, any ASCII
/// case) reduced to plain text, other bodies as they are.
pub open spec fn clean_content_spec(content_type: Seq<char>, content: Seq<char>) -> Seq<char> {
    if eq_ignore_ascii_case_spec(content_type, "html"@) {
        strip_html_spec(content)
    } else {
        content
    }
}

/// The name a message is attributed to: the sender's display name, or "Unknown".
pub open spec fn sender_name_spec(from: Option<ChatMessageFrom>) -> Seq<char> {
    match from {
        Some(f) => match f.user {
            Some(u) => match u.display_name {
                Some(n) => n@,
                None => "Unknown"@,
            },
            None => "Unknown"@,
        },
        None => "Unknown"@,
    }
}

impl ChatMessage {
    /// Converts HTML or text content into readable plain text.
    pub fn clean_content(&self) -> (r: String)
        ensures
            r@ == clean_content_spec(self.body.content_type@, self.body.content@),
    {
        if eq_ignore_ascii_case(self.body.content_type.as_str(), "html") {
            strip_html_tags(self.body.content.as_str())
        } else {
            self.body.content.clone()
        }
    }

    /// The sender's display name, or "Unknown".
    pub fn sender_display_name(&self) -> (r: String)
        ensures
            r@ == sender_name_spec(self.from),
    {
        if let Some(f) = &self.from {
            if let Some(u) = &f.user {
                if let Some(n) = &u.display_name {
                    return n.clone();
                }
            }
        }
        String::from_str("Unknown")
    }
}

} // verus!
