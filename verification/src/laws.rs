//! Properties that relate several operations of the application state, each
//! proved over the same spec functions the operations' contracts use.
use vstd::prelude::*;
use crate::app::{
    backspace_deletes, backspaced, cache_key_spec, can_backspace, cursor_on_boundary,
    down_from, first_selectable_from, inserted_at_cursor, next_pane, selectable,
    selection_after_rebuild, up_from, ActiveConversationView, App, FocusedPane, SidebarItemView,
    STATUS_OPTION_COUNT,
};
use crate::app::{contacts_scan, local_contacts_spec, me_name, or_empty};
use crate::graph::{ChatMemberView, ChatMessage, ChatSummaryView, UserProfile};
use crate::text::{contains_seq, lowercase_of, trim_spec};
use crate::text::{lemma_utf8_offset_strict, utf8_offset};
use crate::auth::{refreshed_ok, scopes_spec, token_source_spec, TokenResponse, TokenSource, TokenStore};
use crate::app::members_of;
use crate::events::{event_applied, BackgroundEvent};
use crate::graph::PresenceInfo;
use crate::keys::{key_effect, KeyCommand, KeyInput};
use crate::view::{badge_spec, header_presence_spec, Tone};

verus! {

/// Deleting with backspace right after typing a character restores the input
/// line and the cursor: backspace is possible then, and undoes the insertion.
pub proof fn law_backspace_undoes_insert(a0: App, c: char, a1: App, a2: App)
    requires
        cursor_on_boundary(a0.input_buffer@, a0.cursor_pos as int),
        a0.cursor_pos < usize::MAX,
        inserted_at_cursor(a0, c, a1),
        can_backspace(a1) ==> backspaced(a1, a2),
    ensures
        can_backspace(a1),
        a2.input_buffer@ == a0.input_buffer@,
        a2 == (App { input_buffer: a2.input_buffer, ..a0 }),
{
    let buf = a0.input_buffer@;
    let k = choose|k: int| 0 <= k <= buf.len() && #[trigger] utf8_offset(buf, k) == a0.cursor_pos;
    let buf1 = a1.input_buffer@;
    assert(buf1 == buf.insert(k, c));
    assert(buf1.take(k) =~= buf.take(k));
    assert(utf8_offset(buf1, k) == a0.cursor_pos);
    assert(backspace_deletes(a1));
    assert(can_backspace(a1));
    assert forall|j: int|
        0 <= j < buf1.len() && #[trigger] utf8_offset(buf1, j) == a1.cursor_pos - 1 implies j
        == k by {
        if j < k {
            lemma_utf8_offset_strict(buf1, j, k);
        } else if j > k {
            lemma_utf8_offset_strict(buf1, k, j);
        }
    }
    assert(buf1.remove(k) =~= buf);
}

/// Cycling the focus three times comes back to the pane it started on.
pub proof fn law_focus_cycle_returns(p: FocusedPane)
    ensures
        next_pane(next_pane(next_pane(p))) == p,
{
}

/// The index `status_up` moves to.
pub open spec fn status_up_index(i: int) -> int {
    if i == 0 {
        STATUS_OPTION_COUNT - 1
    } else {
        i - 1
    }
}

/// Moving down then up in the status menu, or up then down, returns to the
/// same entry.
pub proof fn law_status_moves_invert(i: int)
    requires
        0 <= i < STATUS_OPTION_COUNT,
    ensures
        status_up_index((i + 1) % (STATUS_OPTION_COUNT as int)) == i,
        (status_up_index(i) + 1) % (STATUS_OPTION_COUNT as int) == i,
{
}

/// The index `search_up` moves to among `n` results.
pub open spec fn search_up_index(i: int, n: int) -> int {
    if i == 0 {
        n - 1
    } else {
        i - 1
    }
}

/// Among `n > 0` search results, moving down then up, or up then down,
/// returns to the same result.
pub proof fn law_search_moves_invert(i: int, n: int)
    requires
        0 <= i < n,
    ensures
        search_up_index((i + 1) % n, n) == i,
        (search_up_index(i, n) + 1) % n == i,
{
    if i + 1 < n {
        vstd::arithmetic::div_mod::lemma_small_mod((i + 1) as nat, n as nat);
    } else {
        vstd::arithmetic::div_mod::lemma_mod_self_0(n);
    }
    if i > 0 {
        vstd::arithmetic::div_mod::lemma_small_mod(i as nat, n as nat);
    }
}

/// After caching messages for a conversation, reading the cache for that
/// conversation gives back exactly those messages, and every other cache key
/// keeps what it had.
pub proof fn law_cache_read_after_write(
    cache: Map<Seq<char>, Vec<ChatMessage>>,
    conv: ActiveConversationView,
    msgs: Vec<ChatMessage>,
    other: Seq<char>,
)
    requires
        other != cache_key_spec(conv),
    ensures
        cache.insert(cache_key_spec(conv), msgs).dom().contains(cache_key_spec(conv)),
        cache.insert(cache_key_spec(conv), msgs)[cache_key_spec(conv)] == msgs,
        cache.insert(cache_key_spec(conv), msgs).dom().contains(other) == cache.dom().contains(
            other,
        ),
        cache.dom().contains(other) ==> cache.insert(cache_key_spec(conv), msgs)[other]
            == cache[other],
{
}

/// Distinct chats never share a cache key, and a chat never shares one with a
/// channel; so caching one chat's messages never touches another's.
pub proof fn law_chat_cache_keys_distinct(a: ActiveConversationView, b: ActiveConversationView)
    requires
        a is Chat,
        (b is Chat && a->Chat_id != b->Chat_id) || b is Channel,
    ensures
        cache_key_spec(a) != cache_key_spec(b),
{
    reveal_strlit("chat:");
    reveal_strlit("channel:");
    let ka = cache_key_spec(a);
    let kb = cache_key_spec(b);
    if b is Channel {
        assert(ka[3] == 't');
        assert(kb[3] == 'n');
    } else {
        if ka == kb {
            assert(a->Chat_id =~= ka.skip(5));
            assert(b->Chat_id =~= kb.skip(5));
        }
    }
}

proof fn lemma_first_selectable(items: Seq<SidebarItemView>, i: int)
    requires
        0 <= i <= items.len(),
        exists|j: int| i <= j < items.len() && selectable(#[trigger] items[j]),
    ensures
        0 <= first_selectable_from(items, i) < items.len(),
        selectable(items[first_selectable_from(items, i)]),
    decreases items.len() - i,
{
    if i < items.len() && !selectable(items[i]) {
        lemma_first_selectable(items, i + 1);
    }
}

/// After a rebuild, whenever the sidebar has a selectable line, the selection
/// is on one.
pub proof fn law_rebuild_selects_selectable(items: Seq<SidebarItemView>, old_sel: int)
    requires
        old_sel >= 0,
        exists|j: int| 0 <= j < items.len() && selectable(#[trigger] items[j]),
    ensures
        0 <= selection_after_rebuild(items, old_sel) < items.len(),
        selectable(items[selection_after_rebuild(items, old_sel)]),
{
    lemma_first_selectable(items, 0);
}

proof fn lemma_down_from_found(items: Seq<SidebarItemView>, start: int, j: int)
    requires
        items.len() > 0,
        start >= 0,
        1 <= j,
    ensures
        down_from(items, start, j) matches Some(i) ==> 0 <= i < items.len() && selectable(
            items[i],
        ),
        down_from(items, start, j) is None ==> forall|t: int|
            j <= t <= items.len() ==> !selectable(#[trigger] items[(start + t) % (items.len() as int)]),
    decreases items.len() + 1 - j,
{
    if j <= items.len() && !selectable(items[(start + j) % (items.len() as int)]) {
        lemma_down_from_found(items, start, j + 1);
    }
}

proof fn lemma_up_from_found(items: Seq<SidebarItemView>, start: int, j: int)
    requires
        items.len() > 0,
        1 <= j,
    ensures
        up_from(items, start, j) matches Some(i) ==> 0 <= i < items.len() && selectable(
            items[i],
        ),
        up_from(items, start, j) is None ==> forall|t: int|
            j <= t <= items.len() ==> !selectable(#[trigger] items[(start - t) % (items.len() as int)]),
    decreases items.len() + 1 - j,
{
    if j <= items.len() && !selectable(items[(start - j) % (items.len() as int)]) {
        lemma_up_from_found(items, start, j + 1);
    }
}

/// Moving the sidebar selection down or up lands on a selectable line, and
/// finds one whenever the sidebar has any.
pub proof fn law_sidebar_moves_land_on_selectable(items: Seq<SidebarItemView>, start: int)
    requires
        items.len() > 0,
        start >= 0,
        exists|j: int| 0 <= j < items.len() && selectable(#[trigger] items[j]),
    ensures
        down_from(items, start, 1) is Some,
        up_from(items, start, 1) is Some,
        down_from(items, start, 1) matches Some(i) ==> 0 <= i < items.len() && selectable(
            items[i],
        ),
        up_from(items, start, 1) matches Some(i) ==> 0 <= i < items.len() && selectable(
            items[i],
        ),
{
    let n = items.len() as int;
    let j = choose|j: int| 0 <= j < items.len() && selectable(#[trigger] items[j]);
    lemma_down_from_found(items, start, 1);
    lemma_up_from_found(items, start, 1);
    // the offsets that reach j going down and going up
    let d = (j - start - 1) % n + 1;
    let u = (start - j - 1) % n + 1;
    vstd::arithmetic::div_mod::lemma_mod_bound(j - start - 1, n);
    vstd::arithmetic::div_mod::lemma_mod_bound(start - j - 1, n);
    vstd::arithmetic::div_mod::lemma_small_mod(j as nat, n as nat);
    assert((start + d) % n == j) by {
        vstd::arithmetic::div_mod::lemma_add_mod_noop_right(start + 1, j - start - 1, n);
        assert(start + d == (start + 1) + (j - start - 1) % n);
    }
    assert((start - u) % n == j) by {
        vstd::arithmetic::div_mod::lemma_sub_mod_noop_right(start - 1, start - j - 1, n);
        assert(start - u == (start - 1) - (start - j - 1) % n);
    }
    assert(selectable(items[(start + d) % n]));
    assert(selectable(items[(start - u) % n]));
}

/// The offset at which `down_from` stops, trying `j..=n`; 0 when none is selectable.
spec fn down_offset(items: Seq<SidebarItemView>, start: int, j: int) -> int
    decreases items.len() + 1 - j,
{
    let n = items.len() as int;
    if j > n || j < 1 {
        0
    } else if selectable(items[(start + j) % n]) {
        j
    } else {
        down_offset(items, start, j + 1)
    }
}

proof fn lemma_down_offset(items: Seq<SidebarItemView>, start: int, j: int)
    requires
        items.len() > 0,
        1 <= j,
        down_from(items, start, j) is Some,
    ensures
        j <= down_offset(items, start, j) <= items.len(),
        down_from(items, start, j) == Some(
            (start + down_offset(items, start, j)) % (items.len() as int),
        ),
        forall|u: int|
            j <= u < down_offset(items, start, j) ==> !selectable(
                #[trigger] items[(start + u) % (items.len() as int)],
            ),
    decreases items.len() + 1 - j,
{
    if !selectable(items[(start + j) % (items.len() as int)]) {
        lemma_down_offset(items, start, j + 1);
    }
}

proof fn lemma_up_reaches(items: Seq<SidebarItemView>, d: int, target: int, s: int, t: int)
    requires
        items.len() > 0,
        1 <= s <= t <= items.len(),
        0 <= target < items.len(),
        (d - t) % (items.len() as int) == target,
        selectable(items[target]),
        forall|u: int| s <= u < t ==> !selectable(#[trigger] items[(d - u) % (items.len() as int)]),
    ensures
        up_from(items, d, s) == Some(target),
    decreases t - s,
{
    if s < t {
        lemma_up_reaches(items, d, target, s + 1, t);
    }
}

/// Moving the sidebar selection up right after moving it down from a
/// selectable line brings it back to that line.
pub proof fn law_sidebar_up_undoes_down(items: Seq<SidebarItemView>, start: int)
    requires
        0 <= start < items.len(),
        selectable(items[start]),
    ensures
        down_from(items, start, 1) matches Some(d) && up_from(items, d, 1) == Some(start),
{
    let n = items.len() as int;
    assert(selectable(items[(start + n) % n])) by {
        vstd::arithmetic::div_mod::lemma_mod_add_multiples_vanish(start, n);
        vstd::arithmetic::div_mod::lemma_small_mod(start as nat, n as nat);
    }
    lemma_down_from_found(items, start, 1);
    lemma_down_offset(items, start, 1);
    let t = down_offset(items, start, 1);
    let d = (start + t) % n;
    assert forall|u: int| 1 <= u < t implies !selectable(#[trigger] items[(d - u) % n]) by {
        vstd::arithmetic::div_mod::lemma_sub_mod_noop(start + t, u, n);
        vstd::arithmetic::div_mod::lemma_sub_mod_noop(d, u, n);
        vstd::arithmetic::div_mod::lemma_mod_twice(start + t, n);
        assert((d - u) % n == (start + (t - u)) % n);
        assert(!selectable(items[(start + (t - u)) % n]));
    }
    assert((d - t) % n == start) by {
        vstd::arithmetic::div_mod::lemma_sub_mod_noop(start + t, t, n);
        vstd::arithmetic::div_mod::lemma_sub_mod_noop(d, t, n);
        vstd::arithmetic::div_mod::lemma_mod_twice(start + t, n);
        vstd::arithmetic::div_mod::lemma_small_mod(start as nat, n as nat);
    }
    lemma_up_reaches(items, d, start, 1, t);
}

proof fn lemma_contacts_scan_shape(ms: Seq<ChatMemberView>, q: Seq<char>, me_lower: Seq<char>)
    ensures
        contacts_scan(ms, q, me_lower).0.len() == contacts_scan(ms, q, me_lower).1.len(),
        forall|i: int|
            0 <= i < contacts_scan(ms, q, me_lower).0.len() ==> {
                let c = #[trigger] contacts_scan(ms, q, me_lower).0[i];
                &&& c.display_name is Some
                &&& contacts_scan(ms, q, me_lower).1[i] == lowercase_of(c.display_name->0)
                &&& lowercase_of(c.display_name->0) != me_lower
                &&& contains_seq(lowercase_of(c.display_name->0), q) || contains_seq(
                    lowercase_of(or_empty(c.mail)),
                    q,
                )
            },
        contacts_scan(ms, q, me_lower).1.no_duplicates(),
    decreases ms.len(),
{
    if ms.len() > 0 {
        lemma_contacts_scan_shape(ms.drop_last(), q, me_lower);
    }
}

/// A local contact search never offers the same name twice (compared after
/// lower-casing), never offers the signed-in user, and offers only contacts
/// whose lower-cased name or e-mail contains the lower-cased, trimmed query.
pub proof fn law_local_contacts_distinct(
    chats: Seq<ChatSummaryView>,
    query: Seq<char>,
    user: Option<UserProfile>,
)
    ensures
        forall|i: int|
            0 <= i < local_contacts_spec(chats, query, user).len() ==> {
                let c = #[trigger] local_contacts_spec(chats, query, user)[i];
                &&& c.display_name is Some
                &&& lowercase_of(c.display_name->0) != lowercase_of(or_empty(me_name(user)))
                &&& contains_seq(lowercase_of(c.display_name->0), lowercase_of(trim_spec(query)))
                    || contains_seq(lowercase_of(or_empty(c.mail)), lowercase_of(trim_spec(query)))
            },
        forall|i: int, j: int|
            0 <= i < j < local_contacts_spec(chats, query, user).len() ==> lowercase_of(
                (#[trigger] local_contacts_spec(chats, query, user)[i]).display_name->0,
            ) != lowercase_of(
                (#[trigger] local_contacts_spec(chats, query, user)[j]).display_name->0,
            ),
{
    let q = lowercase_of(trim_spec(query));
    if trim_spec(query).len() > 0 {
        let ms = crate::app::members_of(chats);
        let me_lower = lowercase_of(or_empty(me_name(user)));
        lemma_contacts_scan_shape(ms, q, me_lower);
        let r = contacts_scan(ms, q, me_lower);
        assert forall|i: int, j: int| 0 <= i < j < r.0.len() implies lowercase_of(
            r.0[i].display_name->0,
        ) != lowercase_of(r.0[j].display_name->0) by {
            assert(r.1[i] != r.1[j]);
        }
    }
}

/// Tokens obtained by a refresh are reused as they are while they stay valid
/// for more than three minutes; once that is no longer so, the next start
/// refreshes again, with the refresh token the answer gave or else the one
/// that was used.
pub proof fn law_refreshed_tokens_reused(
    resp: TokenResponse,
    used: Seq<char>,
    now: u64,
    later: u64,
    r: Result<TokenStore, String>,
)
    requires
        resp.access_token is Some,
        resp.expires_in matches Some(e) && now + e <= u64::MAX,
        refreshed_ok(resp, used, now, r),
    ensures
        r matches Ok(tokens) && ({
            let e = resp.expires_in->0;
            &&& later + 180 < now + e ==> token_source_spec(false, Some(tokens), later)
                == TokenSource::Cached(tokens.access_token)
            &&& later + 180 >= now + e ==> (token_source_spec(false, Some(tokens), later)
                matches TokenSource::Refresh(t) && t@ == match resp.refresh_token {
                Some(n) => n@,
                None => used,
            })
        }),
{
}

/// Outside the menus, `i` in the sidebar or the message view moves the focus
/// to the input line and changes nothing else, whether or not Control is held.
pub proof fn law_i_focuses_input(before: App, ctrl: bool, after: App, cmd: KeyCommand)
    requires
        !before.is_search_modal_open,
        !before.is_status_modal_open,
        before.focused_pane == FocusedPane::Messages || before.focused_pane == FocusedPane::Sidebar,
        key_effect(before, KeyInput::Char('i'), ctrl, after, cmd),
    ensures
        cmd is Nothing,
        after == (App { focused_pane: FocusedPane::Input, ..before }),
{
}

/// Messages fetched in the background are cached under their conversation's
/// key; they reach the screen only when that conversation is the open one,
/// and otherwise the messages on screen stay as they were. The open
/// conversation never changes.
pub proof fn law_background_messages_stay_with_their_conversation(
    before: App,
    ev: BackgroundEvent,
    after: App,
    reload: Option<crate::app::ActiveConversation>,
)
    requires
        event_applied(before, ev, after, reload),
    ensures
        match ev {
            BackgroundEvent::ConversationPolled { conv, messages } => {
                &&& after.active_conversation == before.active_conversation
                &&& after.message_cache@.dom().contains(cache_key_spec(conv@))
                &&& after.message_cache@[cache_key_spec(conv@)] == messages
                &&& (before.active_conversation matches Some(c) && c@ == conv@)
                    ==> after.messages.deep_view() == messages.deep_view()
                &&& !(before.active_conversation matches Some(c) && c@ == conv@)
                    ==> after.messages == before.messages
            },
            BackgroundEvent::MessagesLoaded { conv, messages, .. } => {
                &&& after.active_conversation == before.active_conversation
                &&& after.message_cache@.dom().contains(cache_key_spec(conv@))
                &&& after.message_cache@[cache_key_spec(conv@)] == messages
                &&& (before.active_conversation matches Some(c) && c@ == conv@)
                    ==> after.messages.deep_view() == messages.deep_view()
                &&& !(before.active_conversation matches Some(c) && c@ == conv@)
                    ==> after.messages == before.messages
            },
            _ => true,
        },
{
}

/// The presence shown in the header and the badges beside contacts follow
/// the availability, compared without regard to case: available is a green
/// circle, busy red, do-not-disturb red (a no-entry sign in the header), away
/// and be-right-back a yellow circle reading "Away", offline a white circle;
/// header and badge always share their colour; no presence reads "Unknown".
pub proof fn law_presence_colours(p: PresenceInfo)
    ensures
        ({
            let l = lowercase_of(p.availability@);
            let h = header_presence_spec(Some(p));
            &&& (l == "away"@ || l == "berightback"@) ==> h == ("🟡"@, Tone::Yellow, "Away"@)
                && badge_spec(l) == ("🟡"@, Tone::Yellow)
            &&& l == "available"@ ==> h.0 == "🟢"@ && h.1 == Tone::Green && badge_spec(l) == (
                "🟢"@,
                Tone::Green,
            )
            &&& l == "busy"@ ==> h.0 == "🔴"@ && h.1 == Tone::Red && badge_spec(l) == (
                "🔴"@,
                Tone::Red,
            )
            &&& l == "donotdisturb"@ ==> h == ("⛔"@, Tone::Red, "Do Not Disturb"@) && badge_spec(l)
                == ("🔴"@, Tone::Red)
            &&& l == "offline"@ ==> h == ("⚪"@, Tone::Gray, "Offline"@) && badge_spec(l) == (
                "⚪"@,
                Tone::Gray,
            )
            &&& h.1 == badge_spec(l).1
        }),
        header_presence_spec(None) == ("⚪"@, Tone::Gray, "Unknown"@),
{
    reveal_strlit("available");
    reveal_strlit("busy");
    reveal_strlit("donotdisturb");
    reveal_strlit("away");
    reveal_strlit("berightback");
    reveal_strlit("offline");
    assert("available"@.len() == 9);
    assert("busy"@.len() == 4 && "busy"@[0] == 'b');
    assert("donotdisturb"@.len() == 12);
    assert("away"@.len() == 4 && "away"@[0] == 'a');
    assert("berightback"@.len() == 11);
    assert("offline"@.len() == 7);
}

/// The sign-in asks for every permission the client's requests need: reading
/// the user, other users and people, chats and their messages, teams,
/// channels and their messages, and presence; sending chat and channel
/// messages; setting presence; and a refresh token.
pub proof fn law_scopes_cover_requests()
    ensures
        scopes_spec().contains("User.Read"@),
        scopes_spec().contains("User.ReadBasic.All"@),
        scopes_spec().contains("People.Read"@),
        scopes_spec().contains("Chat.ReadWrite"@),
        scopes_spec().contains("ChatMessage.Read"@),
        scopes_spec().contains("ChatMessage.Send"@),
        scopes_spec().contains("ChannelMessage.Read.All"@),
        scopes_spec().contains("ChannelMessage.Send"@),
        scopes_spec().contains("Team.ReadBasic.All"@),
        scopes_spec().contains("Channel.ReadBasic.All"@),
        scopes_spec().contains("Presence.Read"@),
        scopes_spec().contains("Presence.ReadWrite"@),
        scopes_spec().contains("offline_access"@),
{
    let s = scopes_spec();
    assert(s[0] == "User.Read"@);
    assert(s[1] == "User.ReadBasic.All"@);
    assert(s[2] == "People.Read"@);
    assert(s[3] == "Chat.ReadWrite"@);
    assert(s[4] == "ChatMessage.Read"@);
    assert(s[5] == "ChatMessage.Send"@);
    assert(s[6] == "ChannelMessage.Read.All"@);
    assert(s[7] == "ChannelMessage.Send"@);
    assert(s[8] == "Team.ReadBasic.All"@);
    assert(s[9] == "Channel.ReadBasic.All"@);
    assert(s[10] == "Presence.Read"@);
    assert(s[11] == "Presence.ReadWrite"@);
    assert(s[12] == "offline_access"@);
}

proof fn lemma_member_listed(chats: Seq<ChatSummaryView>, i: int, j: int) -> (k: int)
    requires
        0 <= i < chats.len(),
        0 <= j < chats[i].members.len(),
    ensures
        0 <= k < members_of(chats).len(),
        members_of(chats)[k] == chats[i].members[j],
    decreases chats.len(),
{
    let prev = members_of(chats.drop_last());
    if i == chats.len() - 1 {
        prev.len() + j
    } else {
        assert(chats.drop_last()[i] == chats[i]);
        lemma_member_listed(chats.drop_last(), i, j)
    }
}

proof fn lemma_scan_takes_names(ms: Seq<ChatMemberView>, q: Seq<char>, me_lower: Seq<char>, k: int)
    requires
        0 <= k < ms.len(),
        crate::app::member_matches(ms[k], q, me_lower),
    ensures
        contacts_scan(ms, q, me_lower).1.contains(lowercase_of(ms[k].display_name->0)),
    decreases ms.len(),
{
    let prev = contacts_scan(ms.drop_last(), q, me_lower);
    let name = lowercase_of(ms[k].display_name->0);
    if k < ms.len() - 1 {
        assert(ms.drop_last()[k] == ms[k]);
        lemma_scan_takes_names(ms.drop_last(), q, me_lower, k);
        let w = choose|t: int| 0 <= t < prev.1.len() && prev.1[t] == name;
        let cur = contacts_scan(ms, q, me_lower);
        assert(cur.1[w] == name);
    } else {
        let cur = contacts_scan(ms, q, me_lower);
        if prev.1.contains(name) {
            let w = choose|t: int| 0 <= t < prev.1.len() && prev.1[t] == name;
            assert(cur.1[w] == name);
        } else {
            assert(cur.1[prev.1.len() as int] == name);
        }
    }
}

/// A local contact search misses no one: every member of a known chat with a
/// non-blank name that is not the signed-in user's (compared lower-cased),
/// whose lower-cased name or e-mail contains the lower-cased, trimmed query,
/// is offered under that name (compared lower-cased).
pub proof fn law_local_contacts_complete(
    chats: Seq<ChatSummaryView>,
    query: Seq<char>,
    user: Option<UserProfile>,
    i: int,
    j: int,
)
    requires
        trim_spec(query).len() > 0,
        0 <= i < chats.len(),
        0 <= j < chats[i].members.len(),
        chats[i].members[j].display_name is Some,
        trim_spec(chats[i].members[j].display_name->0).len() > 0,
        lowercase_of(chats[i].members[j].display_name->0) != lowercase_of(
            or_empty(me_name(user)),
        ),
        contains_seq(
            lowercase_of(chats[i].members[j].display_name->0),
            lowercase_of(trim_spec(query)),
        ) || contains_seq(
            lowercase_of(or_empty(chats[i].members[j].email)),
            lowercase_of(trim_spec(query)),
        ),
    ensures
        exists|r: int|
            0 <= r < local_contacts_spec(chats, query, user).len() && lowercase_of(
                (#[trigger] local_contacts_spec(chats, query, user)[r]).display_name->0,
            ) == lowercase_of(chats[i].members[j].display_name->0),
{
    let q = lowercase_of(trim_spec(query));
    let me_lower = lowercase_of(or_empty(me_name(user)));
    let ms = members_of(chats);
    let k = lemma_member_listed(chats, i, j);
    lemma_scan_takes_names(ms, q, me_lower, k);
    lemma_contacts_scan_shape(ms, q, me_lower);
    let scan = contacts_scan(ms, q, me_lower);
    let w = choose|t: int|
        0 <= t < scan.1.len() && scan.1[t] == lowercase_of(chats[i].members[j].display_name->0);
    assert(lowercase_of(scan.0[w].display_name->0) == scan.1[w]);
    assert(local_contacts_spec(chats, query, user) == scan.0);
}

} // verus!
