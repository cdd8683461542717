//! The Microsoft Graph requests the client makes, and the decisions taken on
//! their answers: when to retry, how a user search falls back, what an answer
//! turns into. Sending requests and decoding JSON answers are left to the caller.
use vstd::prelude::*;
use crate::graph::{clone_opt_string, opt_str, OrgUserView, OrgUser, PresenceInfo};
use crate::text::{
    parse_u64, parse_u64_spec, replace_all, replace_str, trim, trim_spec,
};

verus! {

broadcast use vstd::string::group_string_axioms;

// ---------------------------------------------------------------------------
// JSON string literals
// ---------------------------------------------------------------------------

/// The JSON string literal `serde_json` writes for `s`: quoted, with the
/// characters JSON requires escaped.
pub uninterp spec fn json_string_literal(s: Seq<char>) -> Seq<char>;

/// Calls `serde_json::to_string` on a string. Serialising a `str` writes into
/// a `Vec<u8>`, which cannot fail, so the error arm is never taken; the
/// contract names the result `json_string_literal(s@)`.
#[verifier::external_body]
fn json_string(s: &str) -> (r: String)
    ensures
        r@ == json_string_literal(s@),
{
    match serde_json::to_string(s) {
        Ok(j) => j,
        Err(_) => String::new(),
    }
}

// ---------------------------------------------------------------------------
// Requests
// ---------------------------------------------------------------------------

/// HTTP method of a request.
#[derive(Debug, PartialEq, Eq, Clone, Copy, Structural)]
pub enum HttpMethod {
    Get,
    Post,
}

/// A request to send: method, URL, query parameters (still to be
/// URL-encoded) and, for a POST with a JSON payload, the body.
#[derive(Debug)]
pub struct GraphRequest {
    pub method: HttpMethod,
    pub url: String,
    pub query: Vec<(String, String)>,
    pub body: Option<String>,
}

/// The root of the Graph API.
pub open spec fn graph_base_spec() -> Seq<char> {
    "https://graph.microsoft.com/v1.0"@
}

/// The root of the Graph API.
pub fn graph_base_url() -> (r: String)
    ensures
        r@ == graph_base_spec(),
{
    String::from_str("https://graph.microsoft.com/v1.0")
}

/// `req` is a request with `method` to `url`, without query parameters,
/// carrying `body`.
pub open spec fn plain_request(
    req: GraphRequest,
    method: HttpMethod,
    url: Seq<char>,
    body: Option<Seq<char>>,
) -> bool {
    &&& req.method == method
    &&& req.url@ == url
    &&& req.query@.len() == 0
    &&& opt_str(req.body) == body
}

fn request(method: HttpMethod, url: String, body: Option<String>) -> (r: GraphRequest)
    ensures
        plain_request(r, method, url@, opt_str(body)),
{
    GraphRequest { method, url, query: Vec::new(), body }
}

/// The signed-in user's profile: `GET {base}/me`.
pub fn me_request(base: &str) -> (r: GraphRequest)
    ensures
        plain_request(r, HttpMethod::Get, base@ + "/me"@, None),
{
    let mut u = base.to_owned();
    u.append("/me");
    request(HttpMethod::Get, u, None)
}

/// The signed-in user's presence: `GET {base}/me/presence`.
pub fn presence_request(base: &str) -> (r: GraphRequest)
    ensures
        plain_request(r, HttpMethod::Get, base@ + "/me/presence"@, None),
{
    let mut u = base.to_owned();
    u.append("/me/presence");
    request(HttpMethod::Get, u, None)
}

/// The body that sets a preferred presence for eight hours.
pub open spec fn preferred_presence_body(availability: Seq<char>, activity: Seq<char>) -> Seq<
    char,
> {
    "{\"activity\":"@ + json_string_literal(activity) + ",\"availability\":"@
        + json_string_literal(availability) + ",\"expirationDuration\":\"PT8H\"}"@
}

/// Sets a user's preferred presence:
/// `POST {base}/users/{user}/presence/setUserPreferredPresence`.
pub fn set_preferred_presence_request(
    base: &str,
    user_id: &str,
    availability: &str,
    activity: &str,
) -> (r: GraphRequest)
    ensures
        plain_request(
            r,
            HttpMethod::Post,
            base@ + "/users/"@ + user_id@ + "/presence/setUserPreferredPresence"@,
            Some(preferred_presence_body(availability@, activity@)),
        ),
{
    let mut u = base.to_owned();
    u.append("/users/");
    u.append(user_id);
    u.append("/presence/setUserPreferredPresence");
    let mut b = String::from_str("{\"activity\":");
    b.append(json_string(activity).as_str());
    b.append(",\"availability\":");
    b.append(json_string(availability).as_str());
    b.append(",\"expirationDuration\":\"PT8H\"}");
    request(HttpMethod::Post, u, Some(b))
}

/// The body that keeps an application presence session "Available" for an hour.
pub open spec fn presence_session_body(session_id: Seq<char>) -> Seq<char> {
    "{\"activity\":\"Available\",\"availability\":\"Available\",\"expirationDuration\":\"PT1H\",\"sessionId\":"@
        + json_string_literal(session_id) + "}"@
}

/// Opens (or renews) the application presence session:
/// `POST {base}/me/presence/setPresence`.
pub fn presence_session_request(base: &str, client_id: &str) -> (r: GraphRequest)
    ensures
        plain_request(
            r,
            HttpMethod::Post,
            base@ + "/me/presence/setPresence"@,
            Some(presence_session_body(client_id@)),
        ),
{
    let mut u = base.to_owned();
    u.append("/me/presence/setPresence");
    let mut b = String::from_str(
        "{\"activity\":\"Available\",\"availability\":\"Available\",\"expirationDuration\":\"PT1H\",\"sessionId\":",
    );
    b.append(json_string(client_id).as_str());
    b.append("}");
    request(HttpMethod::Post, u, Some(b))
}

/// Clears a user's preferred presence:
/// `POST {base}/users/{user}/presence/clearUserPreferredPresence`, no body.
pub fn clear_preferred_presence_request(base: &str, user_id: &str) -> (r: GraphRequest)
    ensures
        plain_request(
            r,
            HttpMethod::Post,
            base@ + "/users/"@ + user_id@ + "/presence/clearUserPreferredPresence"@,
            None,
        ),
{
    let mut u = base.to_owned();
    u.append("/users/");
    u.append(user_id);
    u.append("/presence/clearUserPreferredPresence");
    request(HttpMethod::Post, u, None)
}

/// The JSON literals of `ids`, comma-separated.
pub open spec fn json_list_items(ids: Seq<Seq<char>>) -> Seq<char>
    decreases ids.len(),
{
    if ids.len() == 0 {
        Seq::empty()
    } else if ids.len() == 1 {
        json_string_literal(ids[0])
    } else {
        json_list_items(ids.drop_last()) + ","@ + json_string_literal(ids.last())
    }
}

/// Presence of several users: `POST {base}/communications/getPresencesByUserId`
/// with body `{"ids":[...]}`; no request at all for an empty list.
pub fn users_presence_request(base: &str, user_ids: &[&str]) -> (r: Option<GraphRequest>)
    ensures
        user_ids@.len() == 0 <==> r is None,
        r is Some ==> plain_request(
            r->0,
            HttpMethod::Post,
            base@ + "/communications/getPresencesByUserId"@,
            Some(
                "{\"ids\":["@ + json_list_items(user_ids@.map_values(|s: &str| s@)) + "]}"@,
            ),
        ),
{
    if user_ids.len() == 0 {
        return None;
    }
    let ghost ids = user_ids@.map_values(|s: &str| s@);
    let mut items = String::new();
    let mut i: usize = 0;
    while i < user_ids.len()
        invariant
            i <= user_ids@.len(),
            ids == user_ids@.map_values(|s: &str| s@),
            items@ == json_list_items(ids.take(i as int)),
        decreases user_ids@.len() - i,
    {
        assert(ids.take(i + 1).drop_last() =~= ids.take(i as int));
        if i > 0 {
            items.append(",");
        }
        items.append(json_string(user_ids[i]).as_str());
        i = i + 1;
    }
    assert(ids.take(user_ids@.len() as int) =~= ids);
    let mut u = base.to_owned();
    u.append("/communications/getPresencesByUserId");
    let mut b = String::from_str("{\"ids\":[");
    b.append(items.as_str());
    b.append("]}");
    Some(request(HttpMethod::Post, u, Some(b)))
}

/// The user's chats with their members, 30 at most:
/// `GET {base}/me/chats?$expand=members&$top=30`.
pub fn my_chats_request(base: &str) -> (r: GraphRequest)
    ensures
        plain_request(r, HttpMethod::Get, base@ + "/me/chats?$expand=members&$top=30"@, None),
{
    let mut u = base.to_owned();
    u.append("/me/chats?$expand=members&$top=30");
    request(HttpMethod::Get, u, None)
}

/// The teams the user has joined: `GET {base}/me/joinedTeams`.
pub fn joined_teams_request(base: &str) -> (r: GraphRequest)
    ensures
        plain_request(r, HttpMethod::Get, base@ + "/me/joinedTeams"@, None),
{
    let mut u = base.to_owned();
    u.append("/me/joinedTeams");
    request(HttpMethod::Get, u, None)
}

/// The channels of a team: `GET {base}/teams/{team}/channels`.
pub fn team_channels_request(base: &str, team_id: &str) -> (r: GraphRequest)
    ensures
        plain_request(r, HttpMethod::Get, base@ + "/teams/"@ + team_id@ + "/channels"@, None),
{
    let mut u = base.to_owned();
    u.append("/teams/");
    u.append(team_id);
    u.append("/channels");
    request(HttpMethod::Get, u, None)
}

/// The latest 30 messages of a chat: `GET {base}/me/chats/{chat}/messages?$top=30`.
pub fn chat_messages_request(base: &str, chat_id: &str) -> (r: GraphRequest)
    ensures
        plain_request(
            r,
            HttpMethod::Get,
            base@ + "/me/chats/"@ + chat_id@ + "/messages?$top=30"@,
            None,
        ),
{
    let mut u = base.to_owned();
    u.append("/me/chats/");
    u.append(chat_id);
    u.append("/messages?$top=30");
    request(HttpMethod::Get, u, None)
}

/// The latest 20 messages of a channel:
/// `GET {base}/teams/{team}/channels/{channel}/messages?$top=20`.
pub fn channel_messages_request(base: &str, team_id: &str, channel_id: &str) -> (r: GraphRequest)
    ensures
        plain_request(
            r,
            HttpMethod::Get,
            base@ + "/teams/"@ + team_id@ + "/channels/"@ + channel_id@ + "/messages?$top=20"@,
            None,
        ),
{
    let mut u = base.to_owned();
    u.append("/teams/");
    u.append(team_id);
    u.append("/channels/");
    u.append(channel_id);
    u.append("/messages?$top=20");
    request(HttpMethod::Get, u, None)
}

/// The body of a plain-text message.
pub open spec fn text_message_body(text: Seq<char>) -> Seq<char> {
    "{\"body\":{\"content\":"@ + json_string_literal(text) + ",\"contentType\":\"text\"}}"@
}

fn text_body(text: &str) -> (r: String)
    ensures
        r@ == text_message_body(text@),
{
    let mut b = String::from_str("{\"body\":{\"content\":");
    b.append(json_string(text).as_str());
    b.append(",\"contentType\":\"text\"}}");
    b
}

/// Sends a text message to a chat: `POST {base}/me/chats/{chat}/messages`.
pub fn send_chat_message_request(base: &str, chat_id: &str, text: &str) -> (r: GraphRequest)
    ensures
        plain_request(
            r,
            HttpMethod::Post,
            base@ + "/me/chats/"@ + chat_id@ + "/messages"@,
            Some(text_message_body(text@)),
        ),
{
    let mut u = base.to_owned();
    u.append("/me/chats/");
    u.append(chat_id);
    u.append("/messages");
    request(HttpMethod::Post, u, Some(text_body(text)))
}

/// Sends a text message to a channel:
/// `POST {base}/teams/{team}/channels/{channel}/messages`.
pub fn send_channel_message_request(base: &str, team_id: &str, channel_id: &str, text: &str) -> (r:
    GraphRequest)
    ensures
        plain_request(
            r,
            HttpMethod::Post,
            base@ + "/teams/"@ + team_id@ + "/channels/"@ + channel_id@ + "/messages"@,
            Some(text_message_body(text@)),
        ),
{
    let mut u = base.to_owned();
    u.append("/teams/");
    u.append(team_id);
    u.append("/channels/");
    u.append(channel_id);
    u.append("/messages");
    request(HttpMethod::Post, u, Some(text_body(text)))
}

/// The member entry for user `user_id` as owner of a new chat.
pub open spec fn chat_member_json(base: Seq<char>, user_id: Seq<char>) -> Seq<char> {
    "{\"@odata.type\":\"#microsoft.graph.aadUserConversationMember\",\"roles\":[\"owner\"],\"user@odata.bind\":"@
        + json_string_literal(base + "/users('"@ + user_id + "')"@) + "}"@
}

fn chat_member(base: &str, user_id: &str) -> (r: String)
    ensures
        r@ == chat_member_json(base@, user_id@),
{
    let mut bind = base.to_owned();
    bind.append("/users('");
    bind.append(user_id);
    bind.append("')");
    let mut m = String::from_str(
        "{\"@odata.type\":\"#microsoft.graph.aadUserConversationMember\",\"roles\":[\"owner\"],\"user@odata.bind\":",
    );
    m.append(json_string(bind.as_str()).as_str());
    m.append("}");
    m
}

/// Finds or creates the 1:1 chat between two users: `POST {base}/chats`
/// with both as owners.
pub fn one_on_one_chat_request(base: &str, my_id: &str, target_user_id: &str) -> (r: GraphRequest)
    ensures
        plain_request(
            r,
            HttpMethod::Post,
            base@ + "/chats"@,
            Some(
                "{\"chatType\":\"oneOnOne\",\"members\":["@ + chat_member_json(base@, my_id@) + ","@
                    + chat_member_json(base@, target_user_id@) + "]}"@,
            ),
        ),
{
    let mut u = base.to_owned();
    u.append("/chats");
    let mut b = String::from_str("{\"chatType\":\"oneOnOne\",\"members\":[");
    b.append(chat_member(base, my_id).as_str());
    b.append(",");
    b.append(chat_member(base, target_user_id).as_str());
    b.append("]}");
    request(HttpMethod::Post, u, Some(b))
}

// ---------------------------------------------------------------------------
// User search
// ---------------------------------------------------------------------------

/// The query as it enters an OData filter: trimmed, single quotes doubled.
pub open spec fn clean_query_spec(query: Seq<char>) -> Seq<char> {
    replace_all(trim_spec(query), "'"@, "''"@)
}

/// The query as it enters an OData filter: trimmed, single quotes doubled.
pub fn clean_search_query(query: &str) -> (r: String)
    ensures
        r@ == clean_query_spec(query@),
{
    proof {
        reveal_strlit("'");
    }
    let t = trim(query);
    replace_str(t.as_str(), "'", "''")
}

/// The OData filter matching users whose display name, principal name or
/// mail starts with `q`.
pub open spec fn user_filter_spec(q: Seq<char>) -> Seq<char> {
    "startswith(displayName,'"@ + q + "') or startswith(userPrincipalName,'"@ + q
        + "') or startswith(mail,'"@ + q + "')"@
}

/// The directory search for `query`: `GET {base}/users` filtered by
/// `user_filter_spec`, 15 results, selected fields; none when the cleaned
/// query is empty.
pub fn user_search_request(base: &str, query: &str) -> (r: Option<GraphRequest>)
    ensures
        clean_query_spec(query@).len() == 0 <==> r is None,
        r is Some ==> {
            let req = r->0;
            &&& req.method == HttpMethod::Get
            &&& req.url@ == base@ + "/users"@
            &&& req.body is None
            &&& req.query@.len() == 3
            &&& req.query@[0].0@ == "$filter"@
            &&& req.query@[0].1@ == user_filter_spec(clean_query_spec(query@))
            &&& req.query@[1].0@ == "$top"@ && req.query@[1].1@ == "15"@
            &&& req.query@[2].0@ == "$select"@ && req.query@[2].1@
                == "id,displayName,userPrincipalName,mail,jobTitle,department"@
        },
{
    let q = clean_search_query(query);
    if q.as_str().is_empty() {
        return None;
    }
    let mut u = base.to_owned();
    u.append("/users");
    let mut f = String::from_str("startswith(displayName,'");
    f.append(q.as_str());
    f.append("') or startswith(userPrincipalName,'");
    f.append(q.as_str());
    f.append("') or startswith(mail,'");
    f.append(q.as_str());
    f.append("')");
    let mut params: Vec<(String, String)> = Vec::new();
    params.push((String::from_str("$filter"), f));
    params.push((String::from_str("$top"), String::from_str("15")));
    params.push(
        (
            String::from_str("$select"),
            String::from_str("id,displayName,userPrincipalName,mail,jobTitle,department"),
        ),
    );
    Some(GraphRequest { method: HttpMethod::Get, url: u, query: params, body: None })
}

/// The fallback search among the user's relevant people:
/// `GET {base}/me/people?$search="<q>"&$top=15`, with `q` already cleaned.
pub fn people_search_request(base: &str, clean_q: &str) -> (r: GraphRequest)
    ensures
        r.method == HttpMethod::Get,
        r.url@ == base@ + "/me/people"@,
        r.body is None,
        r.query@.len() == 2,
        r.query@[0].0@ == "$search"@ && r.query@[0].1@ == "\""@ + clean_q@ + "\""@,
        r.query@[1].0@ == "$top"@ && r.query@[1].1@ == "15"@,
{
    let mut u = base.to_owned();
    u.append("/me/people");
    let mut term = String::from_str("\"");
    term.append(clean_q);
    term.append("\"");
    let mut params: Vec<(String, String)> = Vec::new();
    params.push((String::from_str("$search"), term));
    params.push((String::from_str("$top"), String::from_str("15")));
    GraphRequest { method: HttpMethod::Get, url: u, query: params, body: None }
}

/// HTTP status 403 Forbidden.
pub const STATUS_FORBIDDEN: u16 = 403;

/// HTTP status 429 Too Many Requests.
pub const STATUS_TOO_MANY_REQUESTS: u16 = 429;

/// A status in the 2xx range.
pub open spec fn success_status(status: u16) -> bool {
    200 <= status <= 299
}

/// Whether the status means success (2xx).
pub fn is_success(status: u16) -> (r: bool)
    ensures
        r == success_status(status),
{
    200 <= status && status <= 299
}

/// What to do with the answer of the directory search.
#[derive(Debug, PartialEq, Eq, Clone, Copy, Structural)]
pub enum SearchStep {
    /// Use the users the answer lists.
    UseDirectory,
    /// The directory is closed to this user: search the user's people instead.
    TryPeople,
    /// Report the failure with the answer's text.
    Fail,
}

/// The step after the directory search answered with `status`.
pub fn search_step(status: u16) -> (r: SearchStep)
    ensures
        r == if status == 403 {
            SearchStep::TryPeople
        } else if success_status(status) {
            SearchStep::UseDirectory
        } else {
            SearchStep::Fail
        },
{
    if status == STATUS_FORBIDDEN {
        SearchStep::TryPeople
    } else if is_success(status) {
        SearchStep::UseDirectory
    } else {
        SearchStep::Fail
    }
}

/// The error reported when neither the directory nor the people search works.
pub open spec fn permission_denied_spec() -> Seq<char> {
    "PERMISSION_DENIED: Directory search requires 'User.ReadBasic.All'. Please run 'teams-tui --login' to consent to updated permissions."@
}

/// The error reported when neither the directory nor the people search works.
pub fn permission_denied_message() -> (r: String)
    ensures
        r@ == permission_denied_spec(),
{
    String::from_str(
        "PERMISSION_DENIED: Directory search requires 'User.ReadBasic.All'. Please run 'teams-tui --login' to consent to updated permissions.",
    )
}

/// An e-mail address of a person.
#[derive(Debug)]
pub struct GraphPersonEmail {
    pub address: Option<String>,
}

/// A person relevant to the user, as the people search returns it.
#[derive(Debug)]
pub struct GraphPerson {
    pub id: String,
    pub display_name: Option<String>,
    pub scored_email_addresses: Vec<GraphPersonEmail>,
    pub job_title: Option<String>,
    pub department: Option<String>,
}

/// The directory user a person stands for: the first scored address, if
/// any, serves as both principal name and mail.
pub open spec fn person_user_spec(p: GraphPerson) -> OrgUserView {
    let email = if p.scored_email_addresses@.len() > 0 {
        opt_str(p.scored_email_addresses@[0].address)
    } else {
        None
    };
    OrgUserView {
        id: p.id@,
        display_name: opt_str(p.display_name),
        user_principal_name: email,
        mail: email,
        job_title: opt_str(p.job_title),
        department: opt_str(p.department),
    }
}

/// The directory users the people search found, in order.
pub fn people_to_users(people: Vec<GraphPerson>) -> (r: Vec<OrgUser>)
    ensures
        r.deep_view() == people@.map_values(|p: GraphPerson| person_user_spec(p)),
{
    let mut out: Vec<OrgUser> = Vec::new();
    let mut i: usize = 0;
    while i < people.len()
        invariant
            i <= people@.len(),
            out.deep_view() == people@.take(i as int).map_values(
                |p: GraphPerson| person_user_spec(p),
            ),
        decreases people@.len() - i,
    {
        let p = &people[i];
        let email = if p.scored_email_addresses.len() > 0 {
            clone_opt_string(&p.scored_email_addresses[0].address)
        } else {
            None
        };
        let u = OrgUser {
            id: p.id.clone(),
            display_name: clone_opt_string(&p.display_name),
            user_principal_name: clone_opt_string(&email),
            mail: email,
            job_title: clone_opt_string(&p.job_title),
            department: clone_opt_string(&p.department),
        };
        let ghost before = out.deep_view();
        out.push(u);
        assert(out.deep_view() =~= before.push(person_user_spec(*p)));
        assert(people@.take(i + 1).map_values(|p: GraphPerson| person_user_spec(p))
            =~= people@.take(i as int).map_values(|p: GraphPerson| person_user_spec(p)).push(
            person_user_spec(*p),
        ));
        i = i + 1;
    }
    assert(people@.take(people@.len() as int) =~= people@);
    out
}

/// One entry of a multi-user presence answer.
#[derive(Debug)]
pub struct PresenceResult {
    pub id: String,
    pub availability: String,
    pub activity: String,
}

/// Pairs of user id and presence, in the order of the answer.
pub fn presences_from_results(results: Vec<PresenceResult>) -> (r: Vec<(String, PresenceInfo)>)
    ensures
        r@.len() == results@.len(),
        forall|i: int|
            0 <= i < r@.len() ==> #[trigger] r@[i].0 == results@[i].id && r@[i].1.availability
                == results@[i].availability && r@[i].1.activity == results@[i].activity,
{
    let mut out: Vec<(String, PresenceInfo)> = Vec::new();
    let mut i: usize = 0;
    while i < results.len()
        invariant
            i <= results@.len(),
            out@.len() == i,
            forall|k: int|
                0 <= k < i ==> #[trigger] out@[k].0 == results@[k].id && out@[k].1.availability
                    == results@[k].availability && out@[k].1.activity == results@[k].activity,
        decreases results@.len() - i,
    {
        let p = &results[i];
        out.push(
            (
                p.id.clone(),
                PresenceInfo { availability: p.availability.clone(), activity: p.activity.clone() },
            ),
        );
        i = i + 1;
    }
    out
}

/// What the people search's answer leads to.
#[derive(Debug, PartialEq, Eq, Clone, Copy, Structural)]
pub enum PeopleStep {
    /// Read the people the answer lists.
    UsePeople,
    /// Report that directory search needs more permissions.
    Denied,
}

/// The step after the people search answered with `status`.
pub fn people_step(status: u16) -> (r: PeopleStep)
    ensures
        r == if success_status(status) {
            PeopleStep::UsePeople
        } else {
            PeopleStep::Denied
        },
{
    if is_success(status) {
        PeopleStep::UsePeople
    } else {
        PeopleStep::Denied
    }
}

/// The outcome of the people search: `people` holds what a successful,
/// readable answer listed, and is `None` when the request failed, was not
/// answered with success, or could not be read. The people found become
/// directory users; otherwise the search reports the permission error.
pub fn people_search_result(people: Option<Vec<GraphPerson>>) -> (r: Result<Vec<OrgUser>, String>)
    ensures
        match people {
            Some(p) => r matches Ok(users) && users.deep_view() == p@.map_values(
                |x: GraphPerson| person_user_spec(x),
            ),
            None => r matches Err(m) && m@ == permission_denied_spec(),
        },
{
    match people {
        Some(p) => Ok(people_to_users(p)),
        None => Err(permission_denied_message()),
    }
}

/// A Graph operation whose failure is reported with the answer's text.
#[derive(Debug, PartialEq, Eq, Clone, Copy, Structural)]
pub enum GraphFailure {
    SetPresence,
    PresenceSession,
    ClearPresence,
    UserPresences,
    SendChatMessage,
    SendChannelMessage,
    UserSearch,
    OpenChat,
}

/// How the failure of each operation is introduced.
pub open spec fn failure_prefix_spec(kind: GraphFailure) -> Seq<char> {
    match kind {
        GraphFailure::SetPresence => "Failed to set presence"@,
        GraphFailure::PresenceSession => "Failed to establish presence session"@,
        GraphFailure::ClearPresence => "Failed to clear presence"@,
        GraphFailure::UserPresences => "Failed to fetch user presences"@,
        GraphFailure::SendChatMessage => "Failed to send chat message"@,
        GraphFailure::SendChannelMessage => "Failed to send channel message"@,
        GraphFailure::UserSearch => "User search failed"@,
        GraphFailure::OpenChat => "Failed to open/create chat"@,
    }
}

/// The error for an operation answered without success: its introduction,
/// ": ", and the answer's text.
pub fn failure_message(kind: GraphFailure, body: &str) -> (r: String)
    ensures
        r@ == failure_prefix_spec(kind) + ": "@ + body@,
{
    let mut m = String::from_str(
        match kind {
            GraphFailure::SetPresence => "Failed to set presence",
            GraphFailure::PresenceSession => "Failed to establish presence session",
            GraphFailure::ClearPresence => "Failed to clear presence",
            GraphFailure::UserPresences => "Failed to fetch user presences",
            GraphFailure::SendChatMessage => "Failed to send chat message",
            GraphFailure::SendChannelMessage => "Failed to send channel message",
            GraphFailure::UserSearch => "User search failed",
            GraphFailure::OpenChat => "Failed to open/create chat",
        },
    );
    m.append(": ");
    m.append(body);
    m
}

// ---------------------------------------------------------------------------
// Rate limiting
// ---------------------------------------------------------------------------

/// The wait before retrying after a 429 answer: the `Retry-After` value in
/// seconds when it parses, otherwise twice the attempt number.
pub open spec fn retry_wait_spec(attempt: u64, retry_after: Option<Seq<char>>) -> u64 {
    match retry_after {
        Some(h) => match parse_u64_spec(h) {
            Some(v) => v,
            None => (2 * attempt) as u64,
        },
        None => (2 * attempt) as u64,
    }
}

/// Whether to retry a request: only a 429 answer is retried, at most three
/// times. Returns the attempt number and the seconds to wait first.
pub fn retry_decision(status: u16, attempts: u64, retry_after: Option<&str>) -> (r: Option<(u64, u64)>)
    ensures
        r is Some <==> status == 429 && attempts < 3,
        r is Some ==> (r->0).0 == attempts + 1 && (r->0).1 == retry_wait_spec(
            (attempts + 1) as u64,
            match retry_after {
                Some(h) => Some(h@),
                None => None,
            },
        ),
{
    if status == STATUS_TOO_MANY_REQUESTS && attempts < 3 {
        let attempt = attempts + 1;
        let parsed = match retry_after {
            Some(h) => parse_u64(h),
            None => None,
        };
        let wait = match parsed {
            Some(v) => v,
            None => 2 * attempt,
        };
        Some((attempt, wait))
    } else {
        None
    }
}

} // verus!
