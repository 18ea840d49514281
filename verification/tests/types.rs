use estranged::error::Error;
use estranged::ids::{ChatId, Count, Marker, MessageSeq, Mid, TimeMs, UserId};
use estranged::kinds::{ChatType, UnknownVariant, UpdateType};
use estranged::model::{
    NewMessageBody, Notify, RequestResult, UpdateKind, User,
};
use estranged::text::{bool_to_text, i64_text, u64_text, u8_text};
use estranged::update_types::UpdateTypes;

#[test]
fn user_id_round_trips_through_i64() {
    let id = UserId::from_i64(-42);
    assert_eq!(id.as_i64(), -42);
    assert_eq!(id.to_string(), "-42");
    assert_eq!(UserId::from_i64(0).to_string(), "0");
}

#[test]
fn chat_id_round_trips_through_i64() {
    let id = ChatId::from_i64(9_007_199_254_740_993);
    assert_eq!(id.as_i64(), 9_007_199_254_740_993);
    assert_eq!(id.to_string(), "9007199254740993");
}

#[test]
fn decimal_text_matches_std_at_the_extremes() {
    for n in [i64::MIN, i64::MIN + 1, -10, -9, -1, 0, 1, 9, 10, 99, 100, i64::MAX] {
        assert_eq!(i64_text(n), n.to_string());
    }
    for n in [0u64, 7, 10, 1234567890, u64::MAX] {
        assert_eq!(u64_text(n), n.to_string());
    }
    for n in [0u8, 5, 30, 255] {
        assert_eq!(u8_text(n), n.to_string());
    }
    assert_eq!(bool_to_text(true), "true");
    assert_eq!(bool_to_text(false), "false");
}

#[test]
fn marker_and_mid_text() {
    assert_eq!(Marker::new(1234).to_string(), "1234");
    assert_eq!(Marker::new(1234).as_i64(), 1234);
    assert_eq!(Mid::new("mid.abc".to_string()).to_string(), "mid.abc");
    assert_eq!(MessageSeq::new(7).as_i64(), 7);
    assert_eq!(TimeMs::from_millis(1_700_000_000_000).millis(), 1_700_000_000_000);
}

#[test]
fn count_converts_when_not_negative() {
    assert_eq!(Count::new(0).as_usize(), Ok(0));
    assert_eq!(Count::new(i32::MAX).as_usize(), Ok(i32::MAX as usize));
    assert_eq!(Count::new(-1).as_usize(), Err(Error::Overflow));
    assert_eq!(Count::new(i32::MIN).as_usize(), Err(Error::Overflow));
}

#[test]
fn chat_type_text_is_variant_name() {
    assert_eq!(ChatType::Chat.to_string(), "Chat");
    assert_eq!(ChatType::Dialog.to_string(), "Dialog");
    assert_eq!(ChatType::from_str("Dialog"), Ok(ChatType::Dialog));
    assert_eq!(ChatType::from_str("Chat"), Ok(ChatType::Chat));
    assert_eq!(ChatType::from_str("chat"), Err(UnknownVariant));
    assert_eq!(ChatType::from_str(""), Err(UnknownVariant));
}

#[test]
fn update_type_text_is_snake_case() {
    assert_eq!(UpdateType::MessageCreated.to_string(), "message_created");
    assert_eq!(UpdateType::BotStarted.to_string(), "bot_started");
    assert_eq!(UpdateType::Unknown.to_string(), "unknown");
    for t in [UpdateType::MessageCreated, UpdateType::BotStarted, UpdateType::Unknown] {
        assert_eq!(UpdateType::from_str(&t.to_string()), Ok(t));
    }
    assert_eq!(UpdateType::from_str("MessageCreated"), Err(UnknownVariant));
}

#[test]
fn update_type_order_is_declaration_order() {
    assert!(UpdateType::MessageCreated < UpdateType::BotStarted);
    assert!(UpdateType::BotStarted < UpdateType::Unknown);
}

#[test]
fn update_types_behave_as_an_ordered_set() {
    let mut types = UpdateTypes::new();
    assert!(types.is_empty());
    assert_eq!(types.join(), "");
    assert!(types.insert(UpdateType::BotStarted));
    assert!(types.insert(UpdateType::MessageCreated));
    assert!(!types.insert(UpdateType::BotStarted));
    assert!(!types.is_empty());
    assert!(types.contains(UpdateType::MessageCreated));
    assert!(!types.contains(UpdateType::Unknown));
    assert_eq!(types.to_vec(), vec![UpdateType::MessageCreated, UpdateType::BotStarted]);
    assert_eq!(types.join(), "message_created,bot_started");
    types.insert(UpdateType::Unknown);
    assert_eq!(types.join(), "message_created,bot_started,unknown");
}

#[test]
fn update_types_join_matches_btree_set_iteration() {
    let set: std::collections::BTreeSet<UpdateType> =
        [UpdateType::Unknown, UpdateType::MessageCreated].into_iter().collect();
    let mut types = UpdateTypes::new();
    for t in set.iter() {
        types.insert(*t);
    }
    let expected: Vec<String> = set.iter().map(|t| t.to_string()).collect();
    assert_eq!(types.join(), expected.join(","));
}

#[test]
fn request_result_into_result() {
    assert_eq!(RequestResult::Success.into_result(), Ok(()));
    assert_eq!(
        RequestResult::Failure { message: "bad token".to_string() }.into_result(),
        Err(Error::Response { message: "bad token".to_string() })
    );
}

#[test]
fn notify_defaults_to_true() {
    assert_eq!(Notify::default(), Notify(true));
    let body = NewMessageBody::default();
    assert!(body.text.is_none());
    assert!(body.attachments.is_none());
    assert!(body.link.is_none());
    assert_eq!(body.notify, Notify(true));
    assert!(body.format.is_none());
}

#[test]
fn update_kind_has_its_update_type() {
    let user = User {
        user_id: UserId::from_i64(1),
        first_name: "Ann".to_string(),
        last_name: None,
        username: None,
        is_bot: false,
        last_activity_time: TimeMs::from_millis(0),
    };
    let started = UpdateKind::BotStarted {
        chat_id: ChatId::from_i64(2),
        user: Box::new(user),
        payload: None,
        user_locale: Some("en".to_string()),
    };
    assert_eq!(started.update_type(), UpdateType::BotStarted);
    assert_eq!(UpdateKind::Unknown.update_type(), UpdateType::Unknown);
}

#[test]
fn ids_are_their_raw_ids() {
    for n in [i64::MIN, -1, 0, 1, i64::MAX] {
        let u = UserId::from_i64(n);
        assert_eq!(UserId::from_i64(u.as_i64()), u);
        let c = ChatId::from_i64(n);
        assert_eq!(ChatId::from_i64(c.as_i64()), c);
    }
}

#[test]
fn ids_order_as_their_raw_ids() {
    let values = [i64::MIN, -7, 0, 3, i64::MAX];
    for a in values {
        for b in values {
            assert_eq!(UserId::from_i64(a).partial_cmp(&UserId::from_i64(b)), a.partial_cmp(&b));
            assert_eq!(UserId::from_i64(a).cmp(&UserId::from_i64(b)), a.cmp(&b));
            assert_eq!(ChatId::from_i64(a).partial_cmp(&ChatId::from_i64(b)), a.partial_cmp(&b));
            assert_eq!(ChatId::from_i64(a).cmp(&ChatId::from_i64(b)), a.cmp(&b));
            assert_eq!(UserId::from_i64(a) < UserId::from_i64(b), a < b);
        }
    }
}

#[test]
fn error_text() {
    assert_eq!(Error::Overflow.to_string(), "overflow");
    assert_eq!(
        Error::Invalid.to_string(),
        "does not match pattern /^[a-zA-Z0-9_-]{5,256}$/"
    );
    assert_eq!(Error::Response { message: "no".to_string() }.to_string(), "no");
}
