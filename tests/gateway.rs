use groupme_gateway::{
    callback, check_status, current_user_url, groups_page_url, list_reply, messages_url, plan_list,
    plan_send, plan_user, prepare_send, push_decimal, send_message_url, send_payload, send_reply,
    sent_message_of, status_failure_text, user_reply, Group, GroupPager, JsonValue, Message,
    PageOutcome, PagerStep, Plan, TokenStore, UpstreamError, User,
};

fn group(n: usize) -> Group {
    Group {
        id: format!("g{n}"),
        name: format!("Group {n}"),
        group_type: "private".to_string(),
        description: String::new(),
        image_url: None,
        creator_user_id: "u1".to_string(),
        created_at: 1_700_000_000,
        updated_at: 1_700_000_100,
        members: Vec::new(),
    }
}

fn message(id: &str) -> Message {
    Message {
        id: id.to_string(),
        group_id: "42".to_string(),
        name: "Ann".to_string(),
        avatar_url: None,
        text: Some("hi".to_string()),
        sender_id: "u1".to_string(),
        sender_type: "user".to_string(),
        created_at: 1_700_000_000,
        system: false,
        attachments: None,
        favorited_by: Vec::new(),
    }
}

fn page_of(start: usize, count: usize) -> Vec<Group> {
    (start..start + count).map(group).collect()
}

fn string(s: &str) -> JsonValue {
    JsonValue::Str(s.to_string())
}

fn object(fields: Vec<(&str, JsonValue)>) -> JsonValue {
    JsonValue::Object(fields.into_iter().map(|(k, v)| (k.to_string(), v)).collect())
}

/// Drives a pager against a stub that answers page `n` with `stub(n)`; returns
/// the outcome and the pages asked for.
fn walk(stub: impl Fn(u64) -> PageOutcome) -> (Result<Vec<Group>, UpstreamError>, Vec<u64>) {
    let mut pager = GroupPager::new();
    let mut asked = Vec::new();
    loop {
        let page = pager.page();
        asked.push(page);
        assert!(asked.len() < 1000, "the walk does not end");
        match pager.receive(stub(page)) {
            PagerStep::Continue(next) => pager = next,
            PagerStep::Finished(groups) => return (Ok(groups), asked),
            PagerStep::Failed(e) => return (Err(e), asked),
        }
    }
}

#[test]
fn store_starts_empty() {
    let store = TokenStore::new();
    assert_eq!(store.get(), None);
}

#[test]
fn store_get_returns_what_was_set() {
    let mut store = TokenStore::new();
    store.set("abc".to_string());
    assert_eq!(store.get(), Some("abc".to_string()));
    assert_eq!(store.get(), Some("abc".to_string()));
}

#[test]
fn store_last_write_wins() {
    let mut store = TokenStore::new();
    store.set("x".to_string());
    store.set("y".to_string());
    assert_eq!(store.get(), Some("y".to_string()));
}

#[test]
fn callback_stores_token_and_redirects() {
    let mut store = TokenStore::new();
    let target = callback(&mut store, "abc123".to_string());
    assert_eq!(target, "http://localhost:3000/login_success.html");
    assert_eq!(store.get(), Some("abc123".to_string()));
    callback(&mut store, "newer".to_string());
    assert_eq!(store.get(), Some("newer".to_string()));
}

#[test]
fn unauthenticated_defaults() {
    let store = TokenStore::new();
    match plan_list::<Group>(&store) {
        Plan::Reply(groups) => assert!(groups.is_empty()),
        Plan::Call(_) => panic!("called upstream without a token"),
    }
    match plan_user(&store) {
        Plan::Reply(u) => {
            assert_eq!(u.name, "Unknown User");
            assert_eq!(u.id, "");
            assert_eq!(u.email, "");
            assert_eq!(u.image_url, "");
            assert_eq!(u.phone_number, "");
            assert_eq!(u.created_at, 0);
            assert_eq!(u.updated_at, 0);
            assert_eq!(u.locale, "");
            assert!(!u.sms);
        }
        Plan::Call(_) => panic!("called upstream without a token"),
    }
    match plan_send(&store) {
        Plan::Reply(s) => assert_eq!(s, "Not authenticated"),
        Plan::Call(_) => panic!("called upstream without a token"),
    }
}

#[test]
fn authenticated_plans_call_with_token() {
    let mut store = TokenStore::new();
    store.set("tok".to_string());
    assert!(matches!(plan_list::<Message>(&store), Plan::Call(t) if t == "tok"));
    assert!(matches!(plan_user(&store), Plan::Call(t) if t == "tok"));
    assert!(matches!(plan_send(&store), Plan::Call(t) if t == "tok"));
}

#[test]
fn pagination_gathers_until_empty_page() {
    let (out, asked) = walk(|page| if page <= 2 { Ok(page_of((page as usize - 1) * 100, 100)) } else { Ok(Vec::new()) });
    let groups = out.ok().expect("the walk succeeds");
    assert_eq!(groups.len(), 200);
    assert_eq!(asked, vec![1, 2, 3]);
    assert_eq!(groups[0].id, "g0");
    assert_eq!(groups[199].id, "g199");
}

#[test]
fn pagination_empty_first_page() {
    let (out, asked) = walk(|_| Ok(Vec::new()));
    assert!(out.ok().expect("the walk succeeds").is_empty());
    assert_eq!(asked, vec![1]);
}

#[test]
fn pagination_failure_discards_earlier_pages() {
    let (out, asked) = walk(|page| {
        if page == 1 {
            Ok(page_of(0, 100))
        } else {
            Err(UpstreamError::Status { code: 500, body: "down".to_string() })
        }
    });
    assert_eq!(asked, vec![1, 2]);
    match out {
        Err(UpstreamError::Status { code, body }) => {
            assert_eq!(code, 500);
            assert_eq!(body, "down");
        }
        _ => panic!("expected the page's failure"),
    }
}

#[test]
fn idempotency_keys_differ() {
    let (k1, b1) = prepare_send("same text");
    let (k2, b2) = prepare_send("same text");
    assert_ne!(k1, k2);
    for k in [&k1, &k2] {
        assert_eq!(k.len(), 36);
        assert_eq!(k.chars().nth(14), Some('4'));
        for i in [8, 13, 18, 23] {
            assert_eq!(k.chars().nth(i), Some('-'));
        }
    }
    let key_of = |b: &JsonValue| match b.get("message").and_then(|m| m.get("source_guid")) {
        Some(JsonValue::Str(s)) => s.clone(),
        _ => panic!("no key in the body"),
    };
    assert_eq!(key_of(&b1), k1);
    assert_eq!(key_of(&b2), k2);
}

#[test]
fn send_payload_shape() {
    let body = send_payload("k-1", "hello");
    let message = body.get("message").expect("message member");
    assert!(matches!(message.get("source_guid"), Some(JsonValue::Str(s)) if s == "k-1"));
    assert!(matches!(message.get("text"), Some(JsonValue::Str(s)) if s == "hello"));
    assert!(body.get("text").is_none());
}

#[test]
fn sent_message_found() {
    let answer = object(vec![(
        "response",
        object(vec![("message", object(vec![("id", string("m1"))]))]),
    )]);
    let m = sent_message_of(&answer).ok().expect("path present");
    assert!(matches!(m.get("id"), Some(JsonValue::Str(s)) if s == "m1"));
}

#[test]
fn malformed_send_answer_is_invalid_format() {
    let missing_message = object(vec![("response", object(vec![("other", JsonValue::Null)]))]);
    let missing_response = object(vec![("meta", object(vec![("code", JsonValue::Number("201".to_string()))]))]);
    let not_object = JsonValue::Array(Vec::new());
    for answer in [missing_message, missing_response, not_object] {
        match sent_message_of(&answer) {
            Err(e) => {
                assert!(matches!(e, UpstreamError::InvalidResponseFormat));
                assert!(!matches!(e, UpstreamError::Status { .. }));
                assert_eq!(e.describe(), "Invalid response format");
            }
            Ok(_) => panic!("a malformed answer was accepted"),
        }
    }
}

#[test]
fn json_get_first_member_and_non_objects() {
    let v = object(vec![("a", string("1")), ("b", string("2")), ("a", string("3"))]);
    assert!(matches!(v.get("a"), Some(JsonValue::Str(s)) if s == "1"));
    assert!(matches!(v.get("b"), Some(JsonValue::Str(s)) if s == "2"));
    assert!(v.get("c").is_none());
    assert!(JsonValue::Null.get("a").is_none());
    assert!(string("a").get("a").is_none());
}

#[test]
fn status_check_boundaries() {
    assert!(matches!(check_status(200, "ok".to_string()), Ok(b) if b == "ok"));
    assert!(matches!(check_status(299, "x".to_string()), Ok(_)));
    assert!(matches!(check_status(199, "x".to_string()), Err(UpstreamError::Status { code: 199, .. })));
    assert!(matches!(check_status(300, "x".to_string()), Err(UpstreamError::Status { code: 300, .. })));
    match check_status(500, "boom".to_string()) {
        Err(UpstreamError::Status { code, body }) => {
            assert_eq!(code, 500);
            assert_eq!(body, "boom");
        }
        _ => panic!("500 is a failure"),
    }
}

#[test]
fn status_failure_describes_reason() {
    let e = UpstreamError::Status { code: 500, body: "boom".to_string() };
    assert_eq!(e.describe(), "API request failed with status 500 Internal Server Error: boom");
    let e = UpstreamError::Status { code: 404, body: String::new() };
    assert_eq!(e.describe(), "API request failed with status 404 Not Found: ");
}

#[test]
fn status_failure_text_without_reason() {
    assert_eq!(
        status_failure_text(599, None, "b"),
        "API request failed with status 599 <unknown status code>: b"
    );
    assert_eq!(
        status_failure_text(418, Some("I'm a teapot".to_string()), "x"),
        "API request failed with status 418 I'm a teapot: x"
    );
}

#[test]
fn other_errors_describe_their_detail() {
    assert_eq!(UpstreamError::Transport("connection refused".to_string()).describe(), "connection refused");
    assert_eq!(UpstreamError::Decode("missing field `id`".to_string()).describe(), "missing field `id`");
}

#[test]
fn decimal_numerals() {
    for (n, text) in [(0u64, "0"), (7, "7"), (10, "10"), (12345, "12345"), (u64::MAX, "18446744073709551615")] {
        let mut out = "p=".to_string();
        push_decimal(&mut out, n);
        assert_eq!(out, format!("p={text}"));
    }
}

#[test]
fn upstream_addresses() {
    assert_eq!(groups_page_url(1), "https://api.groupme.com/v3/groups?page=1&per_page=100");
    assert_eq!(groups_page_url(12), "https://api.groupme.com/v3/groups?page=12&per_page=100");
    assert_eq!(messages_url("42"), "https://api.groupme.com/v3/groups/42/messages?limit=20");
    assert_eq!(send_message_url("42"), "https://api.groupme.com/v3/groups/42/messages");
    assert_eq!(current_user_url(), "https://api.groupme.com/v3/users/me");
}

#[test]
fn list_reply_passes_or_empties() {
    let v = list_reply(Ok(vec![message("a"), message("b")]));
    assert_eq!(v.len(), 2);
    assert_eq!(v[1].id, "b");
    let v: Vec<Message> = list_reply(Err(UpstreamError::Transport("x".to_string())));
    assert!(v.is_empty());
}

#[test]
fn user_reply_passes_or_placeholder() {
    let u = User {
        id: "7".to_string(),
        name: "Ann".to_string(),
        email: "a@example.com".to_string(),
        image_url: String::new(),
        phone_number: "+1".to_string(),
        created_at: 5,
        updated_at: 6,
        locale: "en".to_string(),
        sms: true,
    };
    assert_eq!(user_reply(Ok(u)).name, "Ann");
    let p = user_reply(Err(UpstreamError::Status { code: 401, body: String::new() }));
    assert_eq!(p.name, "Unknown User");
    assert_eq!(p.id, "");
    assert_eq!(p.created_at, 0);
    assert!(!p.sms);
}

#[test]
fn send_reply_texts() {
    assert_eq!(send_reply(Ok(message("m"))), "Message sent successfully");
    assert_eq!(
        send_reply(Err(UpstreamError::InvalidResponseFormat)),
        "Error sending message: Invalid response format"
    );
    assert_eq!(
        send_reply(Err(UpstreamError::Status { code: 400, body: "bad".to_string() })),
        "Error sending message: API request failed with status 400 Bad Request: bad"
    );
}
