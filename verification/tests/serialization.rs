use botapi::bot::Bot;
use botapi::json::{to_text, Json};
use botapi::requests::{EditMessageReplyMarkup, Request, SetChatPermissions};
use botapi::types::{
    ChatId, ChatOrInlineMessage, ChatPermissions, InlineKeyboardButton, InlineKeyboardMarkup,
};

fn chat_target() -> ChatOrInlineMessage {
    ChatOrInlineMessage::Chat { chat_id: ChatId::Id(123), message_id: 7 }
}

fn sample_keyboard() -> InlineKeyboardMarkup {
    let mut b = InlineKeyboardButton::new("go");
    b.callback_data = Some(String::from("cb1"));
    InlineKeyboardMarkup { inline_keyboard: vec![vec![b]] }
}

#[test]
fn scalar_documents_serialize_exactly() {
    assert_eq!(to_text(&Json::Null), "null");
    assert_eq!(to_text(&Json::Bool(true)), "true");
    assert_eq!(to_text(&Json::Bool(false)), "false");
    assert_eq!(to_text(&Json::Int(0)), "0");
    assert_eq!(to_text(&Json::Int(-1)), "-1");
    assert_eq!(to_text(&Json::Int(i64::MAX)), "9223372036854775807");
    assert_eq!(to_text(&Json::Int(i64::MIN)), "-9223372036854775808");
}

#[test]
fn strings_are_escaped() {
    assert_eq!(to_text(&Json::Str(String::from("plain"))), "\"plain\"");
    assert_eq!(to_text(&Json::Str(String::from("a\"b\\c"))), "\"a\\\"b\\\\c\"");
    assert_eq!(to_text(&Json::Str(String::new())), "\"\"");
}

#[test]
fn arrays_and_objects_serialize_exactly() {
    assert_eq!(to_text(&Json::Arr(vec![])), "[]");
    assert_eq!(to_text(&Json::Obj(vec![])), "{}");
    let nested = Json::Arr(vec![Json::Int(1), Json::Arr(vec![Json::Int(2), Json::Int(3)])]);
    assert_eq!(to_text(&nested), "[1,[2,3]]");
    let obj = Json::Obj(vec![
        (String::from("a"), Json::Int(-5)),
        (String::from("b"), Json::Str(String::from("x"))),
    ]);
    assert_eq!(to_text(&obj), "{\"a\":-5,\"b\":\"x\"}");
}

#[test]
fn serializer_output_is_json_to_other_parsers() {
    let obj = Json::Obj(vec![
        (String::from("n"), Json::Int(-42)),
        (String::from("s"), Json::Str(String::from("q\"uote\\slash"))),
        (String::from("a"), Json::Arr(vec![Json::Bool(false), Json::Null])),
    ]);
    let parsed: serde_json::Value = serde_json::from_str(&to_text(&obj)).unwrap();
    let mut m = serde_json::Map::new();
    m.insert(String::from("n"), serde_json::Value::from(-42i64));
    m.insert(String::from("s"), serde_json::Value::from("q\"uote\\slash"));
    m.insert(
        String::from("a"),
        serde_json::Value::Array(vec![serde_json::Value::from(false), serde_json::Value::Null]),
    );
    assert_eq!(parsed, serde_json::Value::Object(m));
}

#[test]
fn fresh_edit_request_serializes_required_fields_only() {
    let bot = Bot::new("TOKEN");
    let req = EditMessageReplyMarkup::new(&bot, chat_target());
    let body = to_text(&req.payload());
    assert_eq!(body, "{\"chat_id\":123,\"message_id\":7}");
    assert!(!body.contains("reply_markup"));
    assert!(!body.contains("null"));
}

#[test]
fn set_reply_markup_is_serialized_with_its_key() {
    let bot = Bot::new("TOKEN");
    let req = EditMessageReplyMarkup::new(&bot, chat_target()).reply_markup(sample_keyboard());
    let body = to_text(&req.payload());
    assert_eq!(
        body,
        "{\"chat_id\":123,\"message_id\":7,\"reply_markup\":{\"inline_keyboard\":[[{\"text\":\"go\",\"callback_data\":\"cb1\"}]]}}"
    );
}

#[test]
fn chat_target_flattens_to_sibling_keys() {
    let bot = Bot::new("TOKEN");
    let req = EditMessageReplyMarkup::new(&bot, chat_target());
    let body = to_text(&req.payload());
    assert!(body.contains("\"chat_id\":123"));
    assert!(body.contains("\"message_id\":7"));
    assert!(!body.contains("inline_message_id"));
}

#[test]
fn inline_target_flattens_to_its_single_key() {
    let bot = Bot::new("TOKEN");
    let target = ChatOrInlineMessage::Inline { inline_message_id: String::from("inl9") };
    let req = EditMessageReplyMarkup::new(&bot, target);
    let body = to_text(&req.payload());
    assert_eq!(body, "{\"inline_message_id\":\"inl9\"}");
    assert!(!body.contains("\"chat_id\""));
    assert!(!body.contains("\"message_id\""));
}

#[test]
fn target_can_be_replaced_wholesale() {
    let bot = Bot::new("TOKEN");
    let req = EditMessageReplyMarkup::new(&bot, chat_target())
        .chat_or_inline_message(ChatOrInlineMessage::Inline {
            inline_message_id: String::from("z"),
        });
    assert_eq!(to_text(&req.payload()), "{\"inline_message_id\":\"z\"}");
}

#[test]
fn unset_permissions_serialize_to_empty_object() {
    assert_eq!(to_text(&ChatPermissions::new().to_json()), "{}");
}

#[test]
fn set_permission_fields_serialize_in_field_order() {
    let mut p = ChatPermissions::new();
    p.can_pin_messages = Some(false);
    p.can_send_messages = Some(true);
    assert_eq!(
        to_text(&p.to_json()),
        "{\"can_send_messages\":true,\"can_pin_messages\":false}"
    );
}

#[test]
fn set_chat_permissions_serializes_both_required_fields() {
    let bot = Bot::new("TOKEN");
    let mut p = ChatPermissions::new();
    p.can_invite_users = Some(true);
    let req = SetChatPermissions::new(&bot, ChatId::Id(-100200), p);
    assert_eq!(
        to_text(&req.payload()),
        "{\"chat_id\":-100200,\"permissions\":{\"can_invite_users\":true}}"
    );
}

#[test]
fn chat_id_username_serializes_as_string() {
    let bot = Bot::new("TOKEN");
    let req = SetChatPermissions::new(&bot, ChatId::Id(1), ChatPermissions::new())
        .chat_id(ChatId::ChannelUsername(String::from("@supergroupusername")));
    assert_eq!(
        to_text(&req.payload()),
        "{\"chat_id\":\"@supergroupusername\",\"permissions\":{}}"
    );
}

#[test]
fn permissions_setter_replaces_the_whole_value() {
    let bot = Bot::new("TOKEN");
    let mut p = ChatPermissions::new();
    p.can_send_polls = Some(true);
    let req = SetChatPermissions::new(&bot, ChatId::Id(5), ChatPermissions::new()).permissions(p);
    assert_eq!(
        to_text(&req.payload()),
        "{\"chat_id\":5,\"permissions\":{\"can_send_polls\":true}}"
    );
}

#[test]
fn identical_requests_serialize_identically() {
    let bot_a = Bot::new("TOKEN");
    let bot_b = Bot::new("TOKEN");
    let a = EditMessageReplyMarkup::new(&bot_a, chat_target()).reply_markup(sample_keyboard());
    let b = EditMessageReplyMarkup::new(&bot_b, chat_target()).reply_markup(sample_keyboard());
    assert_eq!(to_text(&a.payload()), to_text(&b.payload()));
    assert_eq!(a.method(), b.method());
    assert_eq!(a.url(), b.url());
}

#[test]
fn method_names_and_urls_are_fixed_per_request_type() {
    let bot = Bot::new("123:abc");
    let edit = EditMessageReplyMarkup::new(&bot, chat_target());
    assert_eq!(edit.method(), "editMessageReplyMarkup");
    assert_eq!(edit.url(), "https://api.telegram.org/bot123:abc/editMessageReplyMarkup");
    let set = SetChatPermissions::new(&bot, ChatId::Id(1), ChatPermissions::new());
    assert_eq!(set.method(), "setChatPermissions");
    assert_eq!(set.url(), "https://api.telegram.org/bot123:abc/setChatPermissions");
}
