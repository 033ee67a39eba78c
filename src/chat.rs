//! The client session: it registers the local user, applies inbound
//! envelopes to the presence directory and the message log, and frames what
//! the user submits. Transport and rendering stay with the host, which hands
//! each event in and performs the reaction that comes back.
use vstd::prelude::*;
use crate::envelope::{
    ChatMessage, DecodeError, Inbound, InboundModel, MessageData, MsgTypes, WebSocketMessage,
    WireModel, decode_inbound, encode, envelope_text, inbound_of, texts,
};
use crate::presence::{Profile, UserProfile, apply_users_envelope, avatar_url_of, directory_of, profiles};
use crate::view::{ChatView, message_row_of, project, user_row_of};

verus! {

/// An event handed to the session.
#[derive(Debug)]
pub enum Msg {
    /// A text frame that the transport delivered.
    HandleMsg(String),
    /// The user submitted the input field, which held this text.
    SubmitMessage(String),
}

/// What the host does after an event.
#[derive(Debug, PartialEq, Eq)]
pub struct Reaction {
    /// The view changed and is to be drawn again.
    pub rerender: bool,
    /// A frame to send over the transport.
    pub send: Option<String>,
    /// The input field is to be cleared.
    pub clear_input: bool,
    /// The frame that could not be decoded was dropped, for this reason.
    pub error: Option<DecodeError>,
}

/// A chat session of one local user.
pub struct Chat {
    identity: String,
    users: Vec<UserProfile>,
    messages: Vec<MessageData>,
}

/// The content of a session.
pub ghost struct ChatState {
    pub identity: Seq<char>,
    pub users: Seq<Profile>,
    pub messages: Seq<ChatMessage>,
}

pub open spec fn messages_of(v: Seq<MessageData>) -> Seq<ChatMessage> {
    v.map_values(|m: MessageData| m@)
}

impl Chat {
    /// The content of the session.
    pub closed spec fn state(&self) -> ChatState {
        ChatState {
            identity: self.identity@,
            users: profiles(self.users@),
            messages: messages_of(self.messages@),
        }
    }
}

/// A `users` envelope replaces the directory wholesale.
pub open spec fn with_users(s: ChatState, names: Seq<Seq<char>>) -> ChatState {
    ChatState { users: directory_of(names), ..s }
}

/// A `message` envelope appends to the log, with no deduplication.
pub open spec fn with_message(s: ChatState, m: ChatMessage) -> ChatState {
    ChatState { messages: s.messages.push(m), ..s }
}

/// The state after an inbound envelope; a `register` one changes nothing.
pub open spec fn after_inbound(s: ChatState, i: InboundModel) -> ChatState {
    match i {
        InboundModel::Users(names) => with_users(s, names),
        InboundModel::Message(m) => with_message(s, m),
        InboundModel::Register(_) => s,
    }
}

/// Whether an inbound envelope changes what is shown.
pub open spec fn changes_view(i: InboundModel) -> bool {
    !(i is Register)
}

/// The frame that registers a user.
pub open spec fn register_text(identity: Seq<char>) -> Seq<char> {
    envelope_text(WireModel { kind: MsgTypes::Register, data_array: None, data: Some(identity) })
}

/// The frame that sends a chat message.
pub open spec fn message_text(input: Seq<char>) -> Seq<char> {
    envelope_text(WireModel { kind: MsgTypes::Message, data_array: None, data: Some(input) })
}

/// What an event does to a session, and what the host is to do.
pub open spec fn reaction_ok(s: ChatState, msg_in: Msg, s2: ChatState, r: Reaction) -> bool {
    match msg_in {
        Msg::HandleMsg(text) => r.send is None && !r.clear_input && match inbound_of(text@) {
            Ok(i) => s2 == after_inbound(s, i) && r.rerender == changes_view(i) && r.error is None,
            Err(e) => s2 == s && !r.rerender && r.error == Some(e),
        },
        Msg::SubmitMessage(input) => s2 == s && !r.rerender && r.clear_input && r.error is None
            && (r.send matches Some(f) && f@ == message_text(input@)),
    }
}

impl Chat {
    /// Starts a session for the local user, and gives the frame that
    /// registers them, to be sent once.
    pub fn create(identity: String) -> (r: (Chat, String))
        ensures
            r.0.state() == (ChatState { identity: identity@, users: Seq::empty(), messages: Seq::empty() }),
            r.1@ == register_text(identity@),
    {
        let register = WebSocketMessage {
            message_type: MsgTypes::Register,
            data_array: None,
            data: Some(identity.clone()),
        };
        let frame = encode(&register);
        let chat = Chat { identity, users: Vec::new(), messages: Vec::new() };
        assert(profiles(chat.users@) =~= Seq::<Profile>::empty());
        assert(messages_of(chat.messages@) =~= Seq::<ChatMessage>::empty());
        (chat, frame)
    }

    /// The local user's name.
    pub fn identity(&self) -> (r: &String)
        ensures
            r@ == self.state().identity,
    {
        &self.identity
    }

    /// The presence directory.
    pub fn users(&self) -> (r: &Vec<UserProfile>)
        ensures
            profiles(r@) == self.state().users,
    {
        &self.users
    }

    /// The message log, oldest first.
    pub fn messages(&self) -> (r: &Vec<MessageData>)
        ensures
            messages_of(r@) == self.state().messages,
    {
        &self.messages
    }

    /// Replaces the directory with the names of a `users` envelope.
    pub fn apply_users(&mut self, names: &Vec<String>)
        ensures
            final(self).state() == with_users(old(self).state(), texts(names@)),
    {
        self.users = apply_users_envelope(names);
    }

    /// Appends a message to the log.
    pub fn apply_message(&mut self, message: MessageData)
        ensures
            final(self).state() == with_message(old(self).state(), message@),
    {
        let ghost before = self.messages@;
        self.messages.push(message);
        assert(messages_of(self.messages@) =~= messages_of(before).push(message@));
    }

    /// Applies a decoded inbound envelope; tells whether the view changed.
    pub fn apply_inbound(&mut self, inbound: Inbound) -> (changed: bool)
        ensures
            final(self).state() == after_inbound(old(self).state(), inbound@),
            changed == changes_view(inbound@),
    {
        match inbound {
            Inbound::Users(names) => {
                self.apply_users(&names);
                true
            },
            Inbound::Message(m) => {
                self.apply_message(m);
                true
            },
            Inbound::Register(_) => false,
        }
    }

    /// Decodes and applies one inbound text. A text that does not decode is
    /// dropped and leaves the session as it was.
    pub fn handle_text(&mut self, text: &str) -> (r: Result<bool, DecodeError>)
        ensures
            match inbound_of(text@) {
                Ok(i) => final(self).state() == after_inbound(old(self).state(), i) && r == Ok::<bool, DecodeError>(
                    changes_view(i),
                ),
                Err(e) => final(self).state() == old(self).state() && r == Err::<bool, DecodeError>(e),
            },
    {
        match decode_inbound(text) {
            Ok(inbound) => Ok(self.apply_inbound(inbound)),
            Err(e) => Err(e),
        }
    }

    /// The frame that sends what the user typed; empty input is sent too.
    pub fn submit(&self, input: String) -> (r: String)
        ensures
            r@ == message_text(input@),
    {
        encode(&WebSocketMessage { message_type: MsgTypes::Message, data_array: None, data: Some(input) })
    }

    /// Handles one event. The input field is cleared on every submit,
    /// whatever becomes of the send.
    pub fn update(&mut self, msg: Msg) -> (r: Reaction)
        ensures
            reaction_ok(old(self).state(), msg, final(self).state(), r),
    {
        match msg {
            Msg::HandleMsg(text) => match self.handle_text(text.as_str()) {
                Ok(changed) => Reaction { rerender: changed, send: None, clear_input: false, error: None },
                Err(e) => Reaction { rerender: false, send: None, clear_input: false, error: Some(e) },
            },
            Msg::SubmitMessage(input) => {
                let frame = self.submit(input);
                Reaction { rerender: false, send: Some(frame), clear_input: true, error: None }
            },
        }
    }

    /// What the session shows: a row per user, the local one marked, and a
    /// bubble per message with its side, avatar and body kind.
    pub fn view(&self) -> (r: ChatView)
        ensures
            r.users@.len() == self.state().users.len(),
            forall|i: int|
                0 <= i < self.state().users.len() ==> (#[trigger] r.users@[i])@ == user_row_of(
                    self.state().users[i],
                    self.state().identity,
                ),
            r.messages@.len() == self.state().messages.len(),
            forall|i: int|
                0 <= i < self.state().messages.len() ==> (#[trigger] r.messages@[i])@ == message_row_of(
                    self.state().messages[i],
                    self.state().users,
                    self.state().identity,
                ),
    {
        project(&self.users, &self.messages, &self.identity)
    }
}

/// A `users` envelope leaves a directory that depends on its names alone:
/// from any two states, and when applied twice, the same profiles result, one
/// per name in the same order, with avatars that depend on the name alone.
pub proof fn lemma_users_replace(s1: ChatState, s2: ChatState, names: Seq<Seq<char>>)
    ensures
        after_inbound(s1, InboundModel::Users(names)).users == after_inbound(
            s2,
            InboundModel::Users(names),
        ).users,
        after_inbound(after_inbound(s1, InboundModel::Users(names)), InboundModel::Users(names)).users
            == after_inbound(s1, InboundModel::Users(names)).users,
        after_inbound(s1, InboundModel::Users(names)).users.len() == names.len(),
        forall|i: int|
            0 <= i < names.len() ==> (#[trigger] after_inbound(
                s1,
                InboundModel::Users(names),
            ).users[i]).name == names[i] && after_inbound(
                s1,
                InboundModel::Users(names),
            ).users[i].avatar == avatar_url_of(names[i]),
{
    crate::presence::lemma_directory_follows_names(names);
}

/// A `message` envelope adds exactly one entry to the log, at its end, equal
/// to the message it carries; the rest of the session is unchanged.
pub proof fn lemma_message_appends(s: ChatState, m: ChatMessage)
    ensures
        after_inbound(s, InboundModel::Message(m)).messages.len() == s.messages.len() + 1,
        after_inbound(s, InboundModel::Message(m)).messages[s.messages.len() as int] == m,
        after_inbound(s, InboundModel::Message(m)).messages.subrange(0, s.messages.len() as int)
            == s.messages,
        after_inbound(s, InboundModel::Message(m)).users == s.users,
        after_inbound(s, InboundModel::Message(m)).identity == s.identity,
{
    assert(s.messages.push(m).subrange(0, s.messages.len() as int) =~= s.messages);
}

/// The log is not deduplicated: the same `message` envelope applied twice
/// leaves two equal entries.
pub proof fn lemma_message_twice_logged_twice(s: ChatState, m: ChatMessage)
    ensures
        ({
            let s2 = after_inbound(after_inbound(s, InboundModel::Message(m)), InboundModel::Message(m));
            &&& s2.messages.len() == s.messages.len() + 2
            &&& s2.messages[s.messages.len() as int] == m
            &&& s2.messages[s.messages.len() + 1int] == m
            &&& s2.messages == s.messages + seq![m, m]
        }),
{
    assert(s.messages.push(m).push(m) =~= s.messages + seq![m, m]);
}

} // verus!
