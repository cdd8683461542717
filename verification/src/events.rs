//! How the state reacts to what background work reports: loaded messages,
//! search results, presence, refreshed chat lists. Running that work is left
//! to the caller, which hands back each outcome as a `BackgroundEvent`.
use vstd::prelude::*;
use crate::app::{
    cache_key_spec, contains_string, local_contacts_spec, me_name, sidebar_rebuilt, team_channels_updated,
    titles_resolvable, ActiveConversation, ActiveConversationView, App,
};
use crate::graph::{
    clone_messages, ChannelSummary, ChatMessage, ChatSummary, OrgUser, OrgUserView, PresenceInfo,
    TeamSummary,
};
use crate::store::KeyedStore;
use crate::text::{contains_seq, contains_str, decimal, decimal_spec, str_eq};

verus! {

broadcast use vstd::string::group_string_axioms;

// ---------------------------------------------------------------------------
// Users whose presence is shown
// ---------------------------------------------------------------------------

/// `uid` is the user id of a member of a 1:1 chat, other than the signed-in user.
pub open spec fn presence_candidate(
    chats: Seq<crate::graph::ChatSummaryView>,
    me: Option<Seq<char>>,
    uid: Seq<char>,
) -> bool {
    exists|i: int, j: int|
        0 <= i < chats.len() && chats[i].chat_type == "oneOnOne"@ && 0 <= j
            < chats[i].members.len() && #[trigger] chats[i].members[j].user_id == Some(uid) && me
            != Some(uid)
}

/// The ids of the other members of 1:1 chats, each once.
pub fn extract_user_ids(chats: &[ChatSummary], current_user_id: Option<&str>) -> (r: Vec<String>)
    ensures
        r.deep_view().no_duplicates(),
        forall|uid: Seq<char>|
            r.deep_view().contains(uid) <==> presence_candidate(
                chats.deep_view(),
                crate::graph::opt_str_ref(current_user_id),
                uid,
            ),
{
    let ghost cv = chats.deep_view();
    let ghost me = crate::graph::opt_str_ref(current_user_id);
    let mut ids: Vec<String> = Vec::new();
    let mut ci: usize = 0;
    while ci < chats.len()
        invariant
            ci <= chats@.len(),
            cv == chats.deep_view(),
            me == crate::graph::opt_str_ref(current_user_id),
            ids.deep_view().no_duplicates(),
            forall|uid: Seq<char>|
                ids.deep_view().contains(uid) <==> exists|i: int, j: int|
                    0 <= i < ci && cv[i].chat_type == "oneOnOne"@ && 0 <= j < cv[i].members.len()
                        && #[trigger] cv[i].members[j].user_id == Some(uid) && me != Some(uid),
        decreases chats@.len() - ci,
    {
        let chat = &chats[ci];
        assert(cv[ci as int] == chat@);
        if str_eq(chat.chat_type.as_str(), "oneOnOne") {
            let mut mj: usize = 0;
            while mj < chat.members.len()
                invariant
                    mj <= chat.members@.len(),
                    chat@.members.len() == chat.members@.len(),
                    cv[ci as int] == chat@,
                    me == crate::graph::opt_str_ref(current_user_id),
                    chat@.chat_type == "oneOnOne"@,
                    ids.deep_view().no_duplicates(),
                    forall|uid: Seq<char>|
                        ids.deep_view().contains(uid) <==> (exists|i: int, j: int|
                            0 <= i < ci && cv[i].chat_type == "oneOnOne"@ && 0 <= j
                                < cv[i].members.len() && #[trigger] cv[i].members[j].user_id
                                == Some(uid) && me != Some(uid)) || (exists|j: int|
                            0 <= j < mj && #[trigger] chat@.members[j].user_id == Some(uid) && me
                                != Some(uid)),
                decreases chat.members@.len() - mj,
            {
                let m = &chat.members[mj];
                assert(chat@.members[mj as int] == m@);
                let ghost ids0 = ids.deep_view();
                let ghost mut added = false;
                if let Some(uid) = &m.user_id {
                    let mine = match current_user_id {
                        Some(c) => str_eq(uid.as_str(), c),
                        None => false,
                    };
                    if !mine && !contains_string(&ids, uid.as_str()) {
                        ids.push(uid.clone());
                        proof {
                            added = true;
                        }
                    }
                }
                assert(added ==> ids.deep_view() =~= ids0.push(m@.user_id->0));
                assert(!added ==> ids.deep_view() == ids0);
                assert(added ==> m@.user_id is Some && me != m@.user_id && !ids0.contains(
                    m@.user_id->0,
                ));
                assert(!added ==> m@.user_id is None || me == m@.user_id || ids0.contains(
                    m@.user_id->0,
                ));
                assert forall|u2: Seq<char>|
                    ids.deep_view().contains(u2) <==> (exists|i: int, j: int|
                        0 <= i < ci && cv[i].chat_type == "oneOnOne"@ && 0 <= j
                            < cv[i].members.len() && #[trigger] cv[i].members[j].user_id == Some(
                            u2,
                        ) && me != Some(u2)) || (exists|j: int|
                        0 <= j < mj + 1 && #[trigger] chat@.members[j].user_id == Some(u2) && me
                            != Some(u2)) by {
                    if ids0.contains(u2) {
                        let k = choose|k: int| 0 <= k < ids0.len() && ids0[k] == u2;
                        assert(ids.deep_view()[k] == u2);
                    }
                    if exists|j: int|
                        0 <= j < mj + 1 && #[trigger] chat@.members[j].user_id == Some(u2) && me
                            != Some(u2) {
                        let j = choose|j: int|
                            0 <= j < mj + 1 && #[trigger] chat@.members[j].user_id == Some(u2)
                                && me != Some(u2);
                        if j == mj {
                            if !ids0.contains(u2) {
                                assert(ids.deep_view()[ids0.len() as int] == u2);
                            } else {
                                let k = choose|k: int| 0 <= k < ids0.len() && ids0[k] == u2;
                                assert(ids.deep_view()[k] == u2);
                            }
                        }
                    }
                    if ids.deep_view().contains(u2) && !ids0.contains(u2) {
                        let k = choose|k: int|
                            0 <= k < ids.deep_view().len() && ids.deep_view()[k] == u2;
                        if k < ids0.len() {
                            assert(ids0[k] == u2);
                        }
                        assert(chat@.members[mj as int].user_id == Some(u2));
                    }
                }
                mj = mj + 1;
            }
            assert forall|uid: Seq<char>|
                ids.deep_view().contains(uid) <==> exists|i: int, j: int|
                    0 <= i < ci + 1 && cv[i].chat_type == "oneOnOne"@ && 0 <= j
                        < cv[i].members.len() && #[trigger] cv[i].members[j].user_id == Some(uid)
                        && me != Some(uid) by {
                if exists|j: int|
                    0 <= j < chat@.members.len() && #[trigger] chat@.members[j].user_id == Some(uid)
                        && me != Some(uid) {
                    let j = choose|j: int|
                        0 <= j < chat@.members.len() && #[trigger] chat@.members[j].user_id == Some(
                            uid,
                        ) && me != Some(uid);
                    assert(cv[ci as int].members[j].user_id == Some(uid));
                }
                if exists|i: int, j: int|
                    0 <= i < ci + 1 && cv[i].chat_type == "oneOnOne"@ && 0 <= j
                        < cv[i].members.len() && #[trigger] cv[i].members[j].user_id == Some(uid)
                        && me != Some(uid) {
                    let (i, j) = choose|i: int, j: int|
                        0 <= i < ci + 1 && cv[i].chat_type == "oneOnOne"@ && 0 <= j
                            < cv[i].members.len() && #[trigger] cv[i].members[j].user_id == Some(
                            uid,
                        ) && me != Some(uid);
                    if i == ci {
                        assert(chat@.members[j].user_id == Some(uid));
                    }
                }
            }
        } else {
            assert forall|uid: Seq<char>|
                ids.deep_view().contains(uid) <==> exists|i: int, j: int|
                    0 <= i < ci + 1 && cv[i].chat_type == "oneOnOne"@ && 0 <= j
                        < cv[i].members.len() && #[trigger] cv[i].members[j].user_id == Some(uid)
                        && me != Some(uid) by {
                if exists|i: int, j: int|
                    0 <= i < ci + 1 && cv[i].chat_type == "oneOnOne"@ && 0 <= j
                        < cv[i].members.len() && #[trigger] cv[i].members[j].user_id == Some(uid)
                        && me != Some(uid) {
                    let (i, j) = choose|i: int, j: int|
                        0 <= i < ci + 1 && cv[i].chat_type == "oneOnOne"@ && 0 <= j
                            < cv[i].members.len() && #[trigger] cv[i].members[j].user_id == Some(
                            uid,
                        ) && me != Some(uid);
                    assert(i != ci);
                }
            }
        }
        ci = ci + 1;
    }
    ids
}

// ---------------------------------------------------------------------------
// Background events
// ---------------------------------------------------------------------------

/// What a background task reports.
#[derive(Debug)]
pub enum BackgroundEvent {
    TeamChannelsLoaded { team_id: String, channels: Vec<ChannelSummary> },
    MessagesLoaded { conv: ActiveConversation, messages: Vec<ChatMessage>, elapsed_ms: u128 },
    MessageLoadFailed { conv: ActiveConversation, error: String },
    MessageSent { conv: ActiveConversation, elapsed_ms: u128 },
    MessageSendFailed { error: String },
    SearchResults { query: String, results: Vec<OrgUser>, elapsed_ms: u128 },
    SearchFailed { error: String },
    PresenceUpdated(PresenceInfo),
    ConversationPolled { conv: ActiveConversation, messages: Vec<ChatMessage> },
    SidebarRefreshed {
        chats: Vec<ChatSummary>,
        teams: Vec<(TeamSummary, Vec<ChannelSummary>)>,
        elapsed_ms: u128,
    },
    UserPresencesLoaded(Vec<(String, PresenceInfo)>),
    PresenceSetResult(Result<(), String>),
}

/// `conv` is the conversation on screen.
pub open spec fn is_active(a: App, conv: ActiveConversationView) -> bool {
    a.active_conversation matches Some(c) && c@ == conv
}

/// A status text with a duration: `<prefix><ms>ms)`.
pub open spec fn timed_status(prefix: Seq<char>, ms: u128) -> Seq<char> {
    prefix + decimal_spec(ms as nat) + "ms)"@
}

/// Remote result `r` repeats a listed user: same id, or the same display name.
pub open spec fn listed_already(list: Seq<OrgUserView>, r: OrgUserView) -> bool {
    exists|i: int|
        0 <= i < list.len() && ((#[trigger] list[i]).id == r.id || (list[i].display_name is Some
            && list[i].display_name == r.display_name))
}

/// `base` followed by the remote results that repeat no user listed before them.
pub open spec fn merge_results(base: Seq<OrgUserView>, remote: Seq<OrgUserView>) -> Seq<OrgUserView>
    decreases remote.len(),
{
    if remote.len() == 0 {
        base
    } else {
        let prev = merge_results(base, remote.drop_last());
        if listed_already(prev, remote.last()) {
            prev
        } else {
            prev.push(remote.last())
        }
    }
}

/// The presence table after storing each pair in turn.
pub open spec fn presences_stored(
    m: Map<Seq<char>, PresenceInfo>,
    ps: Seq<(String, PresenceInfo)>,
) -> Map<Seq<char>, PresenceInfo>
    decreases ps.len(),
{
    if ps.len() == 0 {
        m
    } else {
        presences_stored(m, ps.drop_last()).insert(ps.last().0@, ps.last().1)
    }
}

/// The search-error note shown when the directory is closed to the user.
pub open spec fn permission_note_spec() -> Seq<char> {
    "Directory search permission required. Run 'teams-tui --login'. Showing local contacts:"@
}

/// The event can be applied: any chat list it leads to has formable titles.
pub open spec fn event_ready(a: App, ev: BackgroundEvent) -> bool {
    match ev {
        BackgroundEvent::TeamChannelsLoaded { .. } => titles_resolvable(
            a.raw_chats.deep_view(),
            me_name(a.current_user),
        ),
        BackgroundEvent::SidebarRefreshed { chats, .. } => titles_resolvable(
            chats.deep_view(),
            me_name(a.current_user),
        ),
        _ => true,
    }
}

/// `after` is `before` once the event is applied, and `reload` the
/// conversation whose messages must be fetched again.
pub open spec fn event_applied(
    before: App,
    ev: BackgroundEvent,
    after: App,
    reload: Option<ActiveConversation>,
) -> bool {
    match ev {
        BackgroundEvent::TeamChannelsLoaded { team_id, channels } => reload is None
            && team_channels_updated(before, team_id@, channels.deep_view(), after),
        BackgroundEvent::MessagesLoaded { conv, messages, elapsed_ms } => {
            &&& reload is None
            &&& after.message_cache@ == before.message_cache@.insert(cache_key_spec(conv@), messages)
            &&& if is_active(before, conv@) {
                &&& after.messages.deep_view() == messages.deep_view()
                &&& after.status_message@ == timed_status("Loaded ("@, elapsed_ms)
                &&& after == (App {
                    message_cache: after.message_cache,
                    messages: after.messages,
                    is_loading: false,
                    is_syncing: false,
                    status_message: after.status_message,
                    ..before
                })
            } else {
                after == (App { message_cache: after.message_cache, ..before })
            }
        },
        BackgroundEvent::MessageLoadFailed { conv, error } => {
            &&& reload is None
            &&& if is_active(before, conv@) {
                &&& after.status_message@ == "Load failed: "@ + error@
                &&& after == (App {
                    is_loading: false,
                    is_syncing: false,
                    status_message: after.status_message,
                    ..before
                })
            } else {
                after == before
            }
        },
        BackgroundEvent::MessageSent { conv, elapsed_ms } => {
            &&& reload == Some(conv)
            &&& after.status_message@ == timed_status("Sent ("@, elapsed_ms)
            &&& after == (App { status_message: after.status_message, ..before })
        },
        BackgroundEvent::MessageSendFailed { error } => {
            &&& reload is None
            &&& after.status_message@ == "Send failed: "@ + error@
            &&& after == (App { status_message: after.status_message, ..before })
        },
        BackgroundEvent::SearchResults { query, results, .. } => {
            &&& reload is None
            &&& if before.is_search_modal_open && before.search_query@ == query@ {
                &&& after.search_results.deep_view() == merge_results(
                    local_contacts_spec(before.raw_chats.deep_view(), query@, before.current_user),
                    results.deep_view(),
                )
                &&& after == (App {
                    search_results: after.search_results,
                    is_searching: false,
                    ..before
                })
            } else {
                after == before
            }
        },
        BackgroundEvent::SearchFailed { error } => {
            &&& reload is None
            &&& if contains_seq(error@, "PERMISSION_DENIED"@) || contains_seq(error@, "403"@) {
                &&& after.search_error_msg matches Some(m) && m@ == permission_note_spec()
                &&& after == (App {
                    is_searching: false,
                    directory_search_denied: true,
                    search_error_msg: after.search_error_msg,
                    ..before
                })
            } else {
                &&& after.search_error_msg matches Some(m) && m@ == "Search error: "@ + error@
                &&& after == (App {
                    is_searching: false,
                    search_error_msg: after.search_error_msg,
                    ..before
                })
            }
        },
        BackgroundEvent::PresenceUpdated(p) => reload is None && after == (App {
            presence: Some(p),
            ..before
        }),
        BackgroundEvent::ConversationPolled { conv, messages } => {
            &&& reload is None
            &&& after.message_cache@ == before.message_cache@.insert(cache_key_spec(conv@), messages)
            &&& if is_active(before, conv@) {
                &&& after.messages.deep_view() == messages.deep_view()
                &&& after == (App {
                    message_cache: after.message_cache,
                    messages: after.messages,
                    ..before
                })
            } else {
                after == (App { message_cache: after.message_cache, ..before })
            }
        },
        BackgroundEvent::SidebarRefreshed { chats, teams, .. } => {
            &&& reload is None
            &&& after.raw_chats.deep_view() == chats.deep_view()
            &&& after.raw_teams.deep_view() == teams.deep_view()
            &&& sidebar_rebuilt(before, after)
            &&& after.status_message@ == "Refreshed!"@
            &&& after == (App {
                raw_chats: after.raw_chats,
                raw_teams: after.raw_teams,
                sidebar_items: after.sidebar_items,
                selected_sidebar_idx: after.selected_sidebar_idx,
                status_message: after.status_message,
                ..before
            })
        },
        BackgroundEvent::UserPresencesLoaded(ps) => {
            &&& reload is None
            &&& after.user_presences@ == presences_stored(before.user_presences@, ps@)
            &&& after == (App { user_presences: after.user_presences, ..before })
        },
        BackgroundEvent::PresenceSetResult(res) => {
            &&& reload is None
            &&& match res {
                Ok(_) => after.status_message@ == "Presence updated successfully."@,
                Err(e) => after.status_message@ == "Failed to update presence: "@ + e@,
            }
            &&& after == (App { status_message: after.status_message, ..before })
        },
    }
}

fn text_with(prefix: &str, s: &str) -> (r: String)
    ensures
        r@ == prefix@ + s@,
{
    let mut t = prefix.to_owned();
    t.append(s);
    t
}

fn timed(prefix: &str, ms: u128) -> (r: String)
    ensures
        r@ == timed_status(prefix@, ms),
{
    let mut t = prefix.to_owned();
    t.append(decimal(ms).as_str());
    t.append("ms)");
    t
}

fn is_active_exec(a: &App, conv: &ActiveConversation) -> (r: bool)
    ensures
        r == is_active(*a, conv@),
{
    match &a.active_conversation {
        Some(c) => *c == *conv,
        None => false,
    }
}

fn listed_already_exec(list: &Vec<OrgUser>, r: &OrgUser) -> (b: bool)
    ensures
        b == listed_already(list.deep_view(), r@),
{
    let mut i: usize = 0;
    while i < list.len()
        invariant
            i <= list@.len(),
            forall|k: int|
                0 <= k < i ==> !((#[trigger] list.deep_view()[k]).id == r@.id || (list.deep_view()[k].display_name
                    is Some && list.deep_view()[k].display_name == r@.display_name)),
        decreases list@.len() - i,
    {
        let c = &list[i];
        assert(list.deep_view()[i as int] == c@);
        let same_name = match (&c.display_name, &r.display_name) {
            (Some(a), Some(b)) => *a == *b,
            _ => false,
        };
        if c.id == r.id || same_name {
            return true;
        }
        i = i + 1;
    }
    false
}

/// Appends to `combined` each remote result that repeats no listed user.
fn merge_remote(combined: &mut Vec<OrgUser>, remote: Vec<OrgUser>)
    ensures
        final(combined).deep_view() == merge_results(old(combined).deep_view(), remote.deep_view()),
{
    let ghost base = combined.deep_view();
    let ghost rv = remote.deep_view();
    let total = remote.len();
    let mut rest = remote;
    let mut n: usize = 0;
    assert(rv.take(0) =~= Seq::<OrgUserView>::empty());
    while rest.len() > 0
        invariant
            rv.len() == n + rest@.len(),
            total == rv.len(),
            forall|k: int| 0 <= k < rest@.len() ==> #[trigger] rest@[k]@ == rv[n + k],
            combined.deep_view() == merge_results(base, rv.take(n as int)),
        decreases rest@.len(),
    {
        let ghost rest0 = rest@;
        let r = rest.remove(0);
        assert(r@ == rv[n as int]);
        assert(rv.take(n + 1).drop_last() =~= rv.take(n as int));
        assert(rv.take(n + 1).last() == r@);
        if !listed_already_exec(combined, &r) {
            let ghost before = combined.deep_view();
            combined.push(r);
            assert(combined.deep_view() =~= before.push(rv[n as int]));
        }
        n = n + 1;
        assert forall|k: int| 0 <= k < rest@.len() implies #[trigger] rest@[k]@ == rv[n + k] by {
            assert(rest@[k] == rest0[k + 1]);
        }
    }
    assert(rv.take(rv.len() as int) =~= rv);
}

/// Stores each pair of user id and presence in turn.
fn store_presences(store: &mut KeyedStore<PresenceInfo>, ps: Vec<(String, PresenceInfo)>)
    ensures
        final(store)@ == presences_stored(old(store)@, ps@),
{
    let ghost pv = ps@;
    let ghost m0 = store@;
    let total = ps.len();
    let mut rest = ps;
    let mut n: usize = 0;
    assert(pv.take(0) =~= Seq::<(String, PresenceInfo)>::empty());
    while rest.len() > 0
        invariant
            n + rest@.len() == pv.len(),
            total == pv.len(),
            forall|k: int| 0 <= k < rest@.len() ==> #[trigger] rest@[k] == pv[n + k],
            store@ == presences_stored(m0, pv.take(n as int)),
        decreases rest@.len(),
    {
        let ghost rest0 = rest@;
        let (id, p) = rest.remove(0);
        assert(pv.take(n + 1).drop_last() =~= pv.take(n as int));
        assert(pv.take(n + 1).last() == pv[n as int]);
        store.insert(id, p);
        n = n + 1;
        assert forall|k: int| 0 <= k < rest@.len() implies #[trigger] rest@[k] == pv[n + k] by {
            assert(rest@[k] == rest0[k + 1]);
        }
    }
    assert(pv.take(pv.len() as int) =~= pv);
}

impl App {
    /// Shows `messages` when `conv` is on screen and caches them in any case.
    fn take_messages(&mut self, conv: &ActiveConversation, messages: Vec<ChatMessage>) -> (shown: bool)
        ensures
            shown == is_active(*old(self), conv@),
            final(self).message_cache@ == old(self).message_cache@.insert(
                cache_key_spec(conv@),
                messages,
            ),
            shown ==> final(self).messages.deep_view() == messages.deep_view(),
            *final(self) == (App {
                message_cache: final(self).message_cache,
                messages: if shown {
                    final(self).messages
                } else {
                    old(self).messages
                },
                ..*old(self)
            }),
    {
        if is_active_exec(self, conv) {
            let shown = clone_messages(&messages);
            self.cache_messages(conv, messages);
            self.messages = shown;
            true
        } else {
            self.cache_messages(conv, messages);
            false
        }
    }

    /// The local contacts for `query` merged with the remote `results`.
    fn merged_search_results(&self, query: &str, results: Vec<OrgUser>) -> (r: Vec<OrgUser>)
        ensures
            r.deep_view() == merge_results(
                local_contacts_spec(self.raw_chats.deep_view(), query@, self.current_user),
                results.deep_view(),
            ),
    {
        let mut combined = self.search_local_contacts(query);
        merge_remote(&mut combined, results);
        combined
    }
}

impl App {
    /// Applies what a background task reported; returns the conversation
    /// to fetch again, if any (after a message was sent).
    pub fn apply_background_event(&mut self, ev: BackgroundEvent) -> (reload: Option<ActiveConversation>)
        requires
            event_ready(*old(self), ev),
        ensures
            event_applied(*old(self), ev, *final(self), reload),
    {
        let ghost ev0 = ev;
        match ev {
            BackgroundEvent::TeamChannelsLoaded { team_id, channels } => {
                let ghost cv = channels.deep_view();
                let tid: &str = team_id.as_str();
                self.update_team_channels(tid, channels);
                None
            },
            BackgroundEvent::MessagesLoaded { conv, messages, elapsed_ms } => {
                if self.take_messages(&conv, messages) {
                    self.is_loading = false;
                    self.is_syncing = false;
                    self.status_message = timed("Loaded (", elapsed_ms);
                }
                None
            },
            BackgroundEvent::MessageLoadFailed { conv, error } => {
                if is_active_exec(self, &conv) {
                    self.is_loading = false;
                    self.is_syncing = false;
                    self.status_message = text_with("Load failed: ", error.as_str());
                }
                None
            },
            BackgroundEvent::MessageSent { conv, elapsed_ms } => {
                self.status_message = timed("Sent (", elapsed_ms);
                Some(conv)
            },
            BackgroundEvent::MessageSendFailed { error } => {
                self.status_message = text_with("Send failed: ", error.as_str());
                None
            },
            BackgroundEvent::SearchResults { query, results, .. } => {
                if self.is_search_modal_open && str_eq(self.search_query.as_str(), query.as_str()) {
                    self.search_results = self.merged_search_results(query.as_str(), results);
                    self.is_searching = false;
                }
                None
            },
            BackgroundEvent::SearchFailed { error } => {
                self.is_searching = false;
                if contains_str(error.as_str(), "PERMISSION_DENIED") || contains_str(
                    error.as_str(),
                    "403",
                ) {
                    self.directory_search_denied = true;
                    self.search_error_msg = Some(
                        String::from_str(
                            "Directory search permission required. Run 'teams-tui --login'. Showing local contacts:",
                        ),
                    );
                } else {
                    self.search_error_msg = Some(text_with("Search error: ", error.as_str()));
                }
                None
            },
            BackgroundEvent::PresenceUpdated(p) => {
                self.presence = Some(p);
                None
            },
            BackgroundEvent::ConversationPolled { conv, messages } => {
                self.take_messages(&conv, messages);
                None
            },
            BackgroundEvent::SidebarRefreshed { chats, teams, .. } => {
                self.rebuild_sidebar(chats.as_slice(), teams.as_slice());
                self.status_message = String::from_str("Refreshed!");
                None
            },
            BackgroundEvent::UserPresencesLoaded(ps) => {
                store_presences(&mut self.user_presences, ps);
                None
            },
            BackgroundEvent::PresenceSetResult(res) => {
                match res {
                    Ok(_) => {
                        self.status_message = String::from_str("Presence updated successfully.");
                    },
                    Err(e) => {
                        self.status_message = text_with("Failed to update presence: ", e.as_str());
                    },
                }
                None
            },
        }
    }
}

} // verus!
