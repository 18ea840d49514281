use estranged::api::{upload_content_request, ApiRequest, MaxApi, Method, UpdatePoller};
use estranged::ids::{ChatId, Marker, Mid, TimeMs, UserId};
use estranged::kinds::{ChatType, UpdateType};
use estranged::model::{Recipient, Update, UpdateKind, Updates};
use estranged::query::api_url_of;
use estranged::update_types::UpdateTypes;

fn url_crate_url(path: &str, pairs: &[(&str, &str)]) -> String {
    let mut url = url::Url::parse("https://platform-api.max.ru").unwrap();
    url.set_path(path);
    for (k, v) in pairs {
        url.query_pairs_mut().append_pair(k, v);
    }
    url.to_string()
}

fn owned(pairs: &[(&str, &str)]) -> Vec<(String, String)> {
    pairs.iter().map(|(k, v)| (k.to_string(), v.to_string())).collect()
}

#[test]
fn urls_match_the_url_crate() {
    let cases: Vec<(&str, Vec<(&str, &str)>)> = vec![
        ("/subscriptions", vec![]),
        ("/updates", vec![("timeout", "30"), ("types", "message_created,bot_started")]),
        ("/subscriptions", vec![("url", "https://example.com/hook?a=1&b=2 3")]),
        ("/messages", vec![("message_id", "mid.ÄÖ*-._~")]),
    ];
    for (path, pairs) in cases {
        assert_eq!(api_url_of(path, &owned(&pairs)), url_crate_url(path, &pairs));
    }
}

#[test]
fn query_values_are_urlencoded() {
    assert_eq!(
        api_url_of("/updates", &owned(&[("types", "message_created,bot_started")])),
        "https://platform-api.max.ru/updates?types=message_created%2Cbot_started"
    );
    assert_eq!(
        api_url_of("/x", &owned(&[("a b", "c&d=é")])),
        "https://platform-api.max.ru/x?a+b=c%26d%3D%C3%A9"
    );
}

fn api() -> MaxApi {
    MaxApi::new("token-1".to_string())
}

fn check(r: &ApiRequest, method: Method, url: &str) {
    assert_eq!(r.method, method);
    assert_eq!(r.url, url);
    assert_eq!(r.authorization, "token-1");
}

#[test]
fn subscription_requests() {
    check(&api().subscriptions_request(), Method::Get, "https://platform-api.max.ru/subscriptions");
    check(&api().subscribe_request(), Method::Post, "https://platform-api.max.ru/subscriptions");
    check(
        &api().unsubscribe_request("https://bot.example/hook"),
        Method::Delete,
        "https://platform-api.max.ru/subscriptions?url=https%3A%2F%2Fbot.example%2Fhook",
    );
}

#[test]
fn updates_request_lists_given_parameters_in_order() {
    let mut types = UpdateTypes::new();
    check(&api().updates_request(None, None, &types), Method::Get, "https://platform-api.max.ru/updates");
    types.insert(UpdateType::BotStarted);
    types.insert(UpdateType::MessageCreated);
    check(
        &api().updates_request(Some(30), Some(Marker::new(-5)), &types),
        Method::Get,
        "https://platform-api.max.ru/updates?timeout=30&marker=-5&types=message_created%2Cbot_started",
    );
    check(
        &api().updates_request(None, Some(Marker::new(77)), &UpdateTypes::new()),
        Method::Get,
        "https://platform-api.max.ru/updates?marker=77",
    );
}

#[test]
fn send_reply_and_edit_requests() {
    check(
        &api().send_request(Some(UserId::from_i64(12)), Some(ChatId::from_i64(-34)), Some(false)),
        Method::Post,
        "https://platform-api.max.ru/messages?user_id=12&chat_id=-34&disable_link_preview=false",
    );
    check(&api().send_request(None, None, None), Method::Post, "https://platform-api.max.ru/messages");
    let recipient = Recipient {
        chat_id: Some(ChatId::from_i64(99)),
        chat_type: ChatType::Dialog,
        user_id: None,
    };
    let reply = api().reply_request(&recipient, Some(true));
    let send = api().send_request(None, Some(ChatId::from_i64(99)), Some(true));
    assert_eq!(reply.url, send.url);
    check(&reply, Method::Post, "https://platform-api.max.ru/messages?chat_id=99&disable_link_preview=true");
    check(
        &api().edit_request(&Mid::new("mid.1/2".to_string())),
        Method::Put,
        "https://platform-api.max.ru/messages?message_id=mid.1%2F2",
    );
    check(&api().upload_request("image"), Method::Post, "https://platform-api.max.ru/uploads?type=image");
}

#[test]
fn poller_resumes_from_the_last_marker() {
    let api = api();
    let types = UpdateTypes::new();
    let mut poller = UpdatePoller::new();
    assert!(poller.marker().is_none());
    check(&poller.next_request(&api, Some(10), &types).unwrap(), Method::Get, "https://platform-api.max.ru/updates?timeout=10");
    let batch = Updates {
        updates: vec![Update { timestamp: TimeMs::from_millis(5), kind: UpdateKind::Unknown }],
        marker: Some(Marker::new(8)),
    };
    let got = poller.advance(batch);
    assert_eq!(got.len(), 1);
    assert_eq!(got[0].timestamp, TimeMs::from_millis(5));
    assert_eq!(poller.marker(), Some(Marker::new(8)));
    check(
        &poller.next_request(&api, Some(10), &types).unwrap(),
        Method::Get,
        "https://platform-api.max.ru/updates?timeout=10&marker=8",
    );
    let got = poller.advance(Updates { updates: vec![], marker: None });
    assert!(got.is_empty());
    assert!(poller.marker().is_none());
    assert!(!poller.is_ended());
    poller.fail();
    assert!(poller.is_ended());
    assert!(poller.next_request(&api, Some(10), &types).is_none());
}

#[test]
fn upload_content_goes_without_the_token() {
    let second = upload_content_request("https://upload.example/u?id=1");
    assert_eq!(second.method, Method::Post);
    assert_eq!(second.url, "https://upload.example/u?id=1");
    assert_eq!(second.content_type, "application/json");
}

#[test]
fn unsubscribe_query_reads_back_as_the_url() {
    for hook in [
        "https://bot.example/hook?a=1&b=2",
        "https://bot.example/p+q#frag",
        "https://bot.example/%41=%zz",
        "https://bot.example/пример",
    ] {
        let request = api().unsubscribe_request(hook);
        let parsed = url::Url::parse(&request.url).unwrap();
        let pairs: Vec<(String, String)> = url::form_urlencoded::parse(parsed.query().unwrap().as_bytes())
            .into_owned()
            .collect();
        assert_eq!(pairs, vec![("url".to_string(), hook.to_string())]);
    }
}
