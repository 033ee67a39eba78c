use yewchat::chat::{Chat, Msg};
use yewchat::envelope::{DecodeError, MessageData};
use yewchat::presence::avatar_url;
use yewchat::view::{BodyKind, Side};

const MESSAGE_YO: &str =
    r#"{"messageType":"message","dataArray":null,"data":"{\"from\":\"dave\",\"message\":\"yo\"}"}"#;
const MESSAGE_HI: &str =
    r#"{"messageType":"message","dataArray":null,"data":"{\"from\":\"alice\",\"message\":\"hi\"}"}"#;

#[test]
fn end_to_end_carol() {
    let (mut chat, frame) = Chat::create(String::from("carol"));
    assert_eq!(frame, r#"{"messageType":"register","dataArray":null,"data":"carol"}"#);
    let v: serde_json::Value = serde_json::from_str(&frame).unwrap();
    assert_eq!(v["messageType"], "register");
    assert_eq!(v["data"], "carol");
    assert!(v["dataArray"].is_null());
    assert!(chat.users().is_empty() && chat.messages().is_empty());

    let r = chat.update(Msg::HandleMsg(String::from(
        r#"{"messageType":"users","dataArray":["carol","dave"],"data":null}"#,
    )));
    assert!(r.rerender && r.error.is_none() && r.send.is_none());
    assert_eq!(chat.users().len(), 2);
    assert_eq!(chat.users()[0].name, "carol");
    assert_eq!(chat.users()[1].name, "dave");

    let r = chat.update(Msg::HandleMsg(String::from(MESSAGE_YO)));
    assert!(r.rerender);
    assert_eq!(
        chat.messages(),
        &vec![MessageData { from: String::from("dave"), message: String::from("yo") }]
    );
    let view = chat.view();
    assert_eq!(view.messages.len(), 1);
    assert_eq!(view.messages[0].side, Side::Other);
    assert_eq!(view.messages[0].avatar, avatar_url("dave"));
    assert_eq!(view.messages[0].kind, BodyKind::Text);
    assert!(view.users[0].is_self);
    assert!(!view.users[1].is_self);
}

#[test]
fn message_envelope_appends_one_entry() {
    let (mut chat, _) = Chat::create(String::from("bob"));
    chat.handle_text(MESSAGE_YO).unwrap();
    let before = chat.messages().len();
    assert_eq!(chat.handle_text(MESSAGE_HI), Ok(true));
    assert_eq!(chat.messages().len(), before + 1);
    assert_eq!(
        chat.messages()[before],
        MessageData { from: String::from("alice"), message: String::from("hi") }
    );
}

#[test]
fn same_message_twice_gives_two_entries() {
    let (mut chat, _) = Chat::create(String::from("bob"));
    chat.handle_text(MESSAGE_HI).unwrap();
    chat.handle_text(MESSAGE_HI).unwrap();
    assert_eq!(chat.messages().len(), 2);
    assert_eq!(chat.messages()[0], chat.messages()[1]);
}

#[test]
fn users_envelope_replaces_directory() {
    let (mut chat, _) = Chat::create(String::from("bob"));
    let frame = r#"{"messageType":"users","dataArray":["a","b","a"]}"#;
    chat.handle_text(frame).unwrap();
    let first = chat.users().clone();
    assert_eq!(first.len(), 3);
    chat.handle_text(r#"{"messageType":"users","dataArray":["c"]}"#).unwrap();
    assert_eq!(chat.users().len(), 1);
    assert_eq!(chat.users()[0].name, "c");
    chat.handle_text(frame).unwrap();
    assert_eq!(chat.users(), &first);
    chat.handle_text(frame).unwrap();
    assert_eq!(chat.users(), &first);
    assert_eq!(first[0].avatar, first[2].avatar);
}

#[test]
fn bad_frame_is_dropped() {
    let (mut chat, _) = Chat::create(String::from("bob"));
    chat.handle_text(MESSAGE_HI).unwrap();
    let r = chat.update(Msg::HandleMsg(String::from("{oops")));
    assert!(!r.rerender && r.send.is_none() && !r.clear_input);
    assert_eq!(r.error, Some(DecodeError::Syntax));
    assert_eq!(chat.messages().len(), 1);
    let r = chat.update(Msg::HandleMsg(String::from(r#"{"messageType":"nope"}"#)));
    assert_eq!(r.error, Some(DecodeError::UnknownKind(String::from("nope"))));
}

#[test]
fn register_frame_changes_nothing() {
    let (mut chat, _) = Chat::create(String::from("bob"));
    let r = chat.update(Msg::HandleMsg(String::from(r#"{"messageType":"register","data":"x"}"#)));
    assert!(!r.rerender && r.error.is_none());
    assert!(chat.users().is_empty() && chat.messages().is_empty());
}

#[test]
fn submit_sends_and_clears() {
    let (mut chat, _) = Chat::create(String::from("bob"));
    let r = chat.update(Msg::SubmitMessage(String::from("party.gif")));
    assert_eq!(
        r.send,
        Some(String::from(r#"{"messageType":"message","dataArray":null,"data":"party.gif"}"#))
    );
    assert!(r.clear_input && !r.rerender && r.error.is_none());
    assert!(chat.messages().is_empty());
    let r = chat.update(Msg::SubmitMessage(String::new()));
    assert_eq!(
        r.send,
        Some(String::from(r#"{"messageType":"message","dataArray":null,"data":""}"#))
    );
    assert_eq!(chat.submit(String::from("x")), r#"{"messageType":"message","dataArray":null,"data":"x"}"#);
}

#[test]
fn own_message_is_on_own_side() {
    let (mut chat, _) = Chat::create(String::from("alice"));
    chat.handle_text(r#"{"messageType":"users","dataArray":["alice"]}"#).unwrap();
    chat.handle_text(MESSAGE_HI).unwrap();
    let view = chat.view();
    assert_eq!(view.messages[0].side, Side::Own);
    assert_eq!(view.messages[0].avatar, avatar_url("alice"));
    assert_eq!(chat.identity(), "alice");
}
