use yewchat::envelope::{
    decode_envelope, decode_inbound, decode_message_data, encode, kind_from_tag, DecodeError,
    Inbound, MessageData, MsgTypes, WebSocketMessage,
};
use yewchat::json::{find_member, Json};

fn users_of(r: Result<Inbound, DecodeError>) -> Vec<String> {
    match r {
        Ok(Inbound::Users(v)) => v,
        other => panic!("not a users envelope: {:?}", other),
    }
}

#[test]
fn encode_register_exact_text() {
    let w = WebSocketMessage {
        message_type: MsgTypes::Register,
        data_array: None,
        data: Some(String::from("carol")),
    };
    assert_eq!(encode(&w), r#"{"messageType":"register","dataArray":null,"data":"carol"}"#);
}

#[test]
fn encode_escapes_strings() {
    let w = WebSocketMessage {
        message_type: MsgTypes::Message,
        data_array: None,
        data: Some(String::from("say \"hi\"\n")),
    };
    assert_eq!(
        encode(&w),
        r#"{"messageType":"message","dataArray":null,"data":"say \"hi\"\n"}"#
    );
}

#[test]
fn encode_users_list() {
    let w = WebSocketMessage {
        message_type: MsgTypes::Users,
        data_array: Some(vec![String::from("a"), String::from("b c")]),
        data: None,
    };
    assert_eq!(encode(&w), r#"{"messageType":"users","dataArray":["a","b c"],"data":null}"#);
    let empty = WebSocketMessage { message_type: MsgTypes::Users, data_array: Some(vec![]), data: None };
    assert_eq!(encode(&empty), r#"{"messageType":"users","dataArray":[],"data":null}"#);
}

#[test]
fn encoded_users_decode_back() {
    let names = vec![String::from("x\"y"), String::from("ü")];
    let w = WebSocketMessage { message_type: MsgTypes::Users, data_array: Some(names.clone()), data: None };
    assert_eq!(users_of(decode_inbound(&encode(&w))), names);
}

#[test]
fn kind_tags_are_lowercase_and_exact() {
    assert_eq!(kind_from_tag(&String::from("users")), Some(MsgTypes::Users));
    assert_eq!(kind_from_tag(&String::from("register")), Some(MsgTypes::Register));
    assert_eq!(kind_from_tag(&String::from("message")), Some(MsgTypes::Message));
    assert_eq!(kind_from_tag(&String::from("Users")), None);
}

#[test]
fn decode_users_envelope() {
    let r = decode_inbound(r#"{"messageType":"users","dataArray":["carol","dave"],"data":null}"#);
    assert_eq!(users_of(r), vec![String::from("carol"), String::from("dave")]);
    let r = decode_inbound(r#"{"dataArray":[],"messageType":"users"}"#);
    assert_eq!(users_of(r), Vec::<String>::new());
}

#[test]
fn decode_message_envelope_two_stages() {
    let r = decode_inbound(
        r#"{"messageType":"message","dataArray":null,"data":"{\"from\":\"dave\",\"message\":\"yo\"}"}"#,
    );
    match r {
        Ok(Inbound::Message(m)) => {
            assert_eq!(m, MessageData { from: String::from("dave"), message: String::from("yo") })
        }
        other => panic!("not a message: {:?}", other),
    }
}

#[test]
fn decode_register_envelope() {
    match decode_inbound(r#"{"messageType":"register","data":"erin"}"#) {
        Ok(Inbound::Register(s)) => assert_eq!(s, "erin"),
        other => panic!("not a register: {:?}", other),
    }
}

#[test]
fn decode_errors() {
    assert_eq!(decode_inbound("not json").unwrap_err(), DecodeError::Syntax);
    assert_eq!(decode_inbound("[1,2]").unwrap_err(), DecodeError::NotAnObject);
    assert_eq!(decode_inbound(r#"{"data":"x"}"#).unwrap_err(), DecodeError::MissingKind);
    assert_eq!(decode_inbound(r#"{"messageType":3,"data":"x"}"#).unwrap_err(), DecodeError::MissingKind);
    assert_eq!(
        decode_inbound(r#"{"messageType":"ping","data":"x"}"#).unwrap_err(),
        DecodeError::UnknownKind(String::from("ping"))
    );
    assert_eq!(
        decode_inbound(r#"{"messageType":"USERS","dataArray":[]}"#).unwrap_err(),
        DecodeError::UnknownKind(String::from("USERS"))
    );
}

#[test]
fn decode_malformed_payloads() {
    let bad = [
        r#"{"messageType":"users","data":null}"#,
        r#"{"messageType":"users","dataArray":["a",1]}"#,
        r#"{"messageType":"users","dataArray":"a"}"#,
        r#"{"messageType":"users","dataArray":["a"],"data":"b"}"#,
        r#"{"messageType":"register"}"#,
        r#"{"messageType":"register","data":7}"#,
        r#"{"messageType":"message","dataArray":["a"],"data":"{}"}"#,
    ];
    for text in bad {
        assert_eq!(decode_inbound(text).unwrap_err(), DecodeError::MalformedPayload, "{}", text);
    }
}

#[test]
fn decode_malformed_nested_message() {
    assert_eq!(
        decode_inbound(r#"{"messageType":"message","data":"hello"}"#).unwrap_err(),
        DecodeError::Syntax
    );
    assert_eq!(
        decode_inbound(r#"{"messageType":"message","data":"\"hello\""}"#).unwrap_err(),
        DecodeError::NotAnObject
    );
    assert_eq!(
        decode_inbound(r#"{"messageType":"message","data":"{\"from\":\"a\"}"}"#).unwrap_err(),
        DecodeError::MalformedMessage
    );
    assert_eq!(
        decode_inbound(r#"{"messageType":"message","data":"{\"from\":\"a\",\"message\":5}"}"#)
            .unwrap_err(),
        DecodeError::MalformedMessage
    );
}

#[test]
fn decode_from_model_values() {
    let obj = Json::Object(vec![
        (String::from("messageType"), Json::Str(String::from("register"))),
        (String::from("data"), Json::Str(String::from("a"))),
        (String::from("data"), Json::Str(String::from("b"))),
    ]);
    let w = decode_envelope(&obj).unwrap();
    assert_eq!(w.message_type, MsgTypes::Register);
    assert_eq!(w.data, Some(String::from("a")));
    assert_eq!(w.data_array, None);
    assert_eq!(decode_envelope(&Json::Null).unwrap_err(), DecodeError::NotAnObject);
    let msg = Json::Object(vec![
        (String::from("message"), Json::Str(String::from("m"))),
        (String::from("from"), Json::Str(String::from("f"))),
    ]);
    assert_eq!(
        decode_message_data(&msg).unwrap(),
        MessageData { from: String::from("f"), message: String::from("m") }
    );
    assert_eq!(decode_message_data(&Json::Bool(true)).unwrap_err(), DecodeError::NotAnObject);
}

#[test]
fn find_member_first_match() {
    let members = vec![
        (String::from("a"), Json::Null),
        (String::from("b"), Json::Bool(true)),
        (String::from("b"), Json::Null),
    ];
    assert_eq!(find_member(&members, &String::from("b")), Some(1));
    assert_eq!(find_member(&members, &String::from("c")), None);
}
