use botapi::json::Json;
use botapi::net::{decode_envelope, handle_response, method_url, RequestError};
use botapi::requests::{EditMessageReplyMarkup, SetChatPermissions};
use botapi::types::{Message, True};

fn ok_envelope(result: Json) -> Json {
    Json::Obj(vec![
        (String::from("ok"), Json::Bool(true)),
        (String::from("result"), result),
    ])
}

fn err_envelope(code: i64, description: &str) -> Json {
    Json::Obj(vec![
        (String::from("ok"), Json::Bool(false)),
        (String::from("error_code"), Json::Int(code)),
        (String::from("description"), Json::Str(String::from(description))),
    ])
}

fn message_result(id: i64) -> Json {
    Json::Obj(vec![(String::from("message_id"), Json::Int(id))])
}

#[test]
fn success_envelope_decodes_into_the_message_output() {
    let env = ok_envelope(message_result(42));
    let r = handle_response::<EditMessageReplyMarkup>(&env);
    assert_eq!(r.unwrap(), Message { id: 42 });
}

#[test]
fn success_envelope_decodes_into_the_boolean_sentinel() {
    let env = ok_envelope(Json::Bool(true));
    let r = handle_response::<SetChatPermissions>(&env);
    assert_eq!(r.unwrap(), True);
}

#[test]
fn failure_envelope_becomes_an_api_error_with_code_and_description() {
    let env = err_envelope(400, "Bad Request");
    let r = handle_response::<EditMessageReplyMarkup>(&env);
    match r {
        Err(RequestError::Api { code, description }) => {
            assert_eq!(code, 400);
            assert_eq!(description, "Bad Request");
        },
        other => panic!("expected an api error, got {:?}", other),
    }
}

#[test]
fn non_object_body_is_a_malformed_envelope() {
    let r = handle_response::<EditMessageReplyMarkup>(&Json::Arr(vec![Json::Bool(true)]));
    assert!(matches!(r, Err(RequestError::MalformedEnvelope)));
}

#[test]
fn missing_ok_member_is_a_malformed_envelope() {
    let env = Json::Obj(vec![(String::from("result"), message_result(1))]);
    let r = handle_response::<EditMessageReplyMarkup>(&env);
    assert!(matches!(r, Err(RequestError::MalformedEnvelope)));
}

#[test]
fn ok_true_without_result_is_a_malformed_envelope() {
    let env = Json::Obj(vec![(String::from("ok"), Json::Bool(true))]);
    let r = handle_response::<EditMessageReplyMarkup>(&env);
    assert!(matches!(r, Err(RequestError::MalformedEnvelope)));
}

#[test]
fn ok_false_without_error_details_is_a_malformed_envelope() {
    let env = Json::Obj(vec![(String::from("ok"), Json::Bool(false))]);
    let r = handle_response::<EditMessageReplyMarkup>(&env);
    assert!(matches!(r, Err(RequestError::MalformedEnvelope)));
}

#[test]
fn non_boolean_ok_member_is_a_malformed_envelope() {
    let env = Json::Obj(vec![
        (String::from("ok"), Json::Str(String::from("yes"))),
        (String::from("result"), message_result(1)),
    ]);
    let r = handle_response::<EditMessageReplyMarkup>(&env);
    assert!(matches!(r, Err(RequestError::MalformedEnvelope)));
}

#[test]
fn result_of_the_wrong_shape_is_a_shape_error() {
    let env = ok_envelope(Json::Bool(true));
    let r = handle_response::<EditMessageReplyMarkup>(&env);
    assert!(matches!(r, Err(RequestError::UnexpectedShape)));

    let env = ok_envelope(message_result(3));
    let r = handle_response::<SetChatPermissions>(&env);
    assert!(matches!(r, Err(RequestError::UnexpectedShape)));
}

#[test]
fn decode_envelope_hands_the_result_document_through() {
    let env = ok_envelope(message_result(9));
    let res = decode_envelope(&env).unwrap();
    assert!(matches!(res, Json::Obj(_)));
    assert!(matches!(res.get("message_id"), Some(Json::Int(9))));
}

#[test]
fn get_finds_the_first_member_with_the_key() {
    let obj = Json::Obj(vec![
        (String::from("a"), Json::Int(1)),
        (String::from("b"), Json::Int(2)),
        (String::from("a"), Json::Int(3)),
    ]);
    assert!(matches!(obj.get("a"), Some(Json::Int(1))));
    assert!(matches!(obj.get("b"), Some(Json::Int(2))));
    assert!(obj.get("c").is_none());
    assert!(Json::Int(5).get("a").is_none());
}

#[test]
fn endpoint_is_derived_from_token_and_method() {
    assert_eq!(
        method_url("123:abc", "getMe"),
        "https://api.telegram.org/bot123:abc/getMe"
    );
    assert_eq!(method_url("", ""), "https://api.telegram.org/bot/");
}

#[test]
fn network_error_carries_the_transport_text() {
    let e = RequestError::Network(String::from("connection refused"));
    match e {
        RequestError::Network(msg) => assert_eq!(msg, "connection refused"),
        other => panic!("expected a network error, got {:?}", other),
    }
}
