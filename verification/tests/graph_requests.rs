use teams_tui::graph::PresenceInfo;
use teams_tui::requests::{
    channel_messages_request, chat_messages_request, clean_search_query, clear_preferred_presence_request,
    graph_base_url, is_success, joined_teams_request, me_request, my_chats_request, one_on_one_chat_request,
    people_search_request, people_to_users, permission_denied_message, presence_request,
    presence_session_request, presences_from_results, retry_decision, search_step,
    send_channel_message_request, send_chat_message_request, set_preferred_presence_request,
    team_channels_request, user_search_request, users_presence_request, GraphPerson, GraphPersonEmail,
    HttpMethod, PresenceResult, SearchStep,
};
use teams_tui::requests::{failure_message, people_search_result, people_step, GraphFailure, PeopleStep};

const BASE: &str = "https://graph.microsoft.com/v1.0";

#[test]
fn base_url_is_graph_v1() {
    assert_eq!(graph_base_url(), BASE);
}

#[test]
fn simple_get_requests() {
    let r = me_request(BASE);
    assert_eq!(r.method, HttpMethod::Get);
    assert_eq!(r.url, "https://graph.microsoft.com/v1.0/me");
    assert!(r.query.is_empty() && r.body.is_none());
    assert_eq!(presence_request(BASE).url, format!("{}/me/presence", BASE));
    assert_eq!(my_chats_request(BASE).url, format!("{}/me/chats?$expand=members&$top=30", BASE));
    assert_eq!(joined_teams_request(BASE).url, format!("{}/me/joinedTeams", BASE));
    assert_eq!(team_channels_request(BASE, "T1").url, format!("{}/teams/T1/channels", BASE));
    assert_eq!(chat_messages_request(BASE, "19:x").url, format!("{}/me/chats/19:x/messages?$top=30", BASE));
    assert_eq!(
        channel_messages_request(BASE, "T1", "C1").url,
        format!("{}/teams/T1/channels/C1/messages?$top=20", BASE)
    );
}

#[test]
fn presence_bodies_are_json() {
    let r = set_preferred_presence_request(BASE, "u1", "Busy", "InACall");
    assert_eq!(r.method, HttpMethod::Post);
    assert_eq!(r.url, format!("{}/users/u1/presence/setUserPreferredPresence", BASE));
    assert_eq!(
        r.body.as_deref(),
        Some(r#"{"activity":"InACall","availability":"Busy","expirationDuration":"PT8H"}"#)
    );
    let s = presence_session_request(BASE, "client-1");
    assert_eq!(s.url, format!("{}/me/presence/setPresence", BASE));
    assert_eq!(
        s.body.as_deref(),
        Some(r#"{"activity":"Available","availability":"Available","expirationDuration":"PT1H","sessionId":"client-1"}"#)
    );
    let c = clear_preferred_presence_request(BASE, "u1");
    assert_eq!(c.method, HttpMethod::Post);
    assert_eq!(c.url, format!("{}/users/u1/presence/clearUserPreferredPresence", BASE));
    assert!(c.body.is_none());
}

#[test]
fn message_bodies_escape_text() {
    let r = send_chat_message_request(BASE, "c1", "say \"hi\"\nnow");
    assert_eq!(r.url, format!("{}/me/chats/c1/messages", BASE));
    assert_eq!(
        r.body.as_deref(),
        Some(r#"{"body":{"content":"say \"hi\"\nnow","contentType":"text"}}"#)
    );
    let c = send_channel_message_request(BASE, "t", "c", "a\\b");
    assert_eq!(c.url, format!("{}/teams/t/channels/c/messages", BASE));
    assert_eq!(c.body.as_deref(), Some(r#"{"body":{"content":"a\\b","contentType":"text"}}"#));
}

#[test]
fn users_presence_request_lists_ids() {
    assert!(users_presence_request(BASE, &[]).is_none());
    let r = users_presence_request(BASE, &["a", "b\"c"]).expect("request");
    assert_eq!(r.url, format!("{}/communications/getPresencesByUserId", BASE));
    assert_eq!(r.body.as_deref(), Some(r#"{"ids":["a","b\"c"]}"#));
}

#[test]
fn one_on_one_chat_binds_both_users() {
    let r = one_on_one_chat_request(BASE, "me", "you");
    assert_eq!(r.url, format!("{}/chats", BASE));
    let member = |id: &str| {
        format!(
            r##"{{"@odata.type":"#microsoft.graph.aadUserConversationMember","roles":["owner"],"user@odata.bind":"{}/users('{}')"}}"##,
            BASE, id
        )
    };
    let expected = format!(r#"{{"chatType":"oneOnOne","members":[{},{}]}}"#, member("me"), member("you"));
    assert_eq!(r.body.as_deref(), Some(expected.as_str()));
}

#[test]
fn search_query_is_trimmed_and_quoted() {
    assert_eq!(clean_search_query("  o'brien "), "o''brien");
    assert!(user_search_request(BASE, "   ").is_none());
    let r = user_search_request(BASE, " ann ").expect("request");
    assert_eq!(r.url, format!("{}/users", BASE));
    assert_eq!(r.query.len(), 3);
    assert_eq!(r.query[0].0, "$filter");
    assert_eq!(
        r.query[0].1,
        "startswith(displayName,'ann') or startswith(userPrincipalName,'ann') or startswith(mail,'ann')"
    );
    assert_eq!(r.query[1], ("$top".to_string(), "15".to_string()));
    assert_eq!(r.query[2].1, "id,displayName,userPrincipalName,mail,jobTitle,department");
    let p = people_search_request(BASE, "ann");
    assert_eq!(p.url, format!("{}/me/people", BASE));
    assert_eq!(p.query, vec![("$search".to_string(), "\"ann\"".to_string()), ("$top".to_string(), "15".to_string())]);
}

#[test]
fn search_steps_follow_the_status() {
    assert_eq!(search_step(200), SearchStep::UseDirectory);
    assert_eq!(search_step(299), SearchStep::UseDirectory);
    assert_eq!(search_step(403), SearchStep::TryPeople);
    assert_eq!(search_step(404), SearchStep::Fail);
    assert_eq!(search_step(199), SearchStep::Fail);
    assert!(is_success(204) && !is_success(300));
    assert!(permission_denied_message().starts_with("PERMISSION_DENIED: "));
}

#[test]
fn people_become_directory_users() {
    let people = vec![
        GraphPerson {
            id: "p1".into(),
            display_name: Some("Pat".into()),
            scored_email_addresses: vec![
                GraphPersonEmail { address: Some("pat@x.com".into()) },
                GraphPersonEmail { address: Some("other@x.com".into()) },
            ],
            job_title: Some("Dev".into()),
            department: None,
        },
        GraphPerson { id: "p2".into(), display_name: None, scored_email_addresses: vec![], job_title: None, department: Some("Ops".into()) },
    ];
    let users = people_to_users(people);
    assert_eq!(users.len(), 2);
    assert_eq!(users[0].mail.as_deref(), Some("pat@x.com"));
    assert_eq!(users[0].user_principal_name.as_deref(), Some("pat@x.com"));
    assert_eq!(users[0].job_title.as_deref(), Some("Dev"));
    assert!(users[1].mail.is_none());
    assert_eq!(users[1].department.as_deref(), Some("Ops"));
}

#[test]
fn presence_results_pair_ids() {
    let out = presences_from_results(vec![
        PresenceResult { id: "a".into(), availability: "Busy".into(), activity: "Busy".into() },
        PresenceResult { id: "b".into(), availability: "Away".into(), activity: "Away".into() },
    ]);
    assert_eq!(out.len(), 2);
    assert_eq!(out[1].0, "b");
    let PresenceInfo { availability, activity } = &out[0].1;
    assert_eq!((availability.as_str(), activity.as_str()), ("Busy", "Busy"));
}

#[test]
fn retry_only_throttled_requests_three_times() {
    assert_eq!(retry_decision(429, 0, None), Some((1, 2)));
    assert_eq!(retry_decision(429, 1, Some("7")), Some((2, 7)));
    assert_eq!(retry_decision(429, 2, Some("soon")), Some((3, 6)));
    assert_eq!(retry_decision(429, 3, Some("1")), None);
    assert_eq!(retry_decision(500, 0, None), None);
    assert_eq!(retry_decision(200, 0, None), None);
}

#[test]
fn people_search_outcomes() {
    assert_eq!(people_step(200), PeopleStep::UsePeople);
    assert_eq!(people_step(403), PeopleStep::Denied);
    assert_eq!(people_step(500), PeopleStep::Denied);
    let found = people_search_result(Some(vec![GraphPerson {
        id: "p".into(),
        display_name: Some("Pat".into()),
        scored_email_addresses: vec![GraphPersonEmail { address: Some("p@x".into()) }],
        job_title: None,
        department: None,
    }]))
    .expect("users");
    assert_eq!(found.len(), 1);
    assert_eq!(found[0].mail.as_deref(), Some("p@x"));
    match people_search_result(None) {
        Err(e) => assert!(e.starts_with("PERMISSION_DENIED")),
        Ok(_) => panic!("expected the permission error"),
    }
}

#[test]
fn failures_carry_the_answer_text() {
    assert_eq!(failure_message(GraphFailure::UserSearch, "boom"), "User search failed: boom");
    assert_eq!(failure_message(GraphFailure::UserPresences, "x"), "Failed to fetch user presences: x");
    assert_eq!(failure_message(GraphFailure::OpenChat, "no"), "Failed to open/create chat: no");
    assert_eq!(failure_message(GraphFailure::SetPresence, ""), "Failed to set presence: ");
    assert_eq!(failure_message(GraphFailure::PresenceSession, "e"), "Failed to establish presence session: e");
    assert_eq!(failure_message(GraphFailure::ClearPresence, "e"), "Failed to clear presence: e");
    assert_eq!(failure_message(GraphFailure::SendChatMessage, "e"), "Failed to send chat message: e");
    assert_eq!(failure_message(GraphFailure::SendChannelMessage, "e"), "Failed to send channel message: e");
}
