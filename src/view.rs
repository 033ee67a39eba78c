//! The view projection: what the chat shows, derived from the directory, the
//! log and the local identity, with no state of its own.
use vstd::prelude::*;
use vstd::string::StrSliceExecFns;
use crate::envelope::{ChatMessage, MessageData};
use crate::presence::{Profile, UserProfile, avatar_for, avatar_lookup, profiles};

verus! {

/// Which side of the conversation a message bubble stands on.
#[derive(Clone, Copy, Debug, PartialEq, Eq, Structural)]
pub enum Side {
    Own,
    Other,
}

/// How a message body is shown: as an inline image or as text.
#[derive(Clone, Copy, Debug, PartialEq, Eq, Structural)]
pub enum BodyKind {
    Image,
    Text,
}

/// A row of the user list.
#[derive(Clone, Debug, PartialEq, Eq)]
pub struct UserRow {
    pub name: String,
    pub avatar: String,
    pub is_self: bool,
}

/// A message bubble.
#[derive(Clone, Debug, PartialEq, Eq)]
pub struct MessageRow {
    pub sender: String,
    pub body: String,
    pub avatar: String,
    pub side: Side,
    pub kind: BodyKind,
}

/// Everything the chat shows.
#[derive(Clone, Debug, PartialEq, Eq)]
pub struct ChatView {
    pub users: Vec<UserRow>,
    pub messages: Vec<MessageRow>,
}

pub ghost struct UserRowModel {
    pub name: Seq<char>,
    pub avatar: Seq<char>,
    pub is_self: bool,
}

pub ghost struct MessageRowModel {
    pub sender: Seq<char>,
    pub body: Seq<char>,
    pub avatar: Seq<char>,
    pub side: Side,
    pub kind: BodyKind,
}

impl View for UserRow {
    type V = UserRowModel;

    open spec fn view(&self) -> UserRowModel {
        UserRowModel { name: self.name@, avatar: self.avatar@, is_self: self.is_self }
    }
}

impl View for MessageRow {
    type V = MessageRowModel;

    open spec fn view(&self) -> MessageRowModel {
        MessageRowModel {
            sender: self.sender@,
            body: self.body@,
            avatar: self.avatar@,
            side: self.side,
            kind: self.kind,
        }
    }
}

/// The suffix that marks a body as an image.
pub open spec fn gif_suffix() -> Seq<char> {
    seq!['.', 'g', 'i', 'f']
}

/// Whether a body ends with `.gif`, exactly and case-sensitively.
pub open spec fn is_gif(body: Seq<char>) -> bool {
    body.len() >= 4 && body.subrange(body.len() - 4, body.len() as int) == gif_suffix()
}

pub open spec fn kind_of_body(body: Seq<char>) -> BodyKind {
    if is_gif(body) {
        BodyKind::Image
    } else {
        BodyKind::Text
    }
}

pub open spec fn side_of(sender: Seq<char>, identity: Seq<char>) -> Side {
    if sender == identity {
        Side::Own
    } else {
        Side::Other
    }
}

pub open spec fn user_row_of(p: Profile, identity: Seq<char>) -> UserRowModel {
    UserRowModel { name: p.name, avatar: p.avatar, is_self: p.name == identity }
}

pub open spec fn message_row_of(
    m: ChatMessage,
    dir: Seq<Profile>,
    identity: Seq<char>,
) -> MessageRowModel {
    MessageRowModel {
        sender: m.sender,
        body: m.body,
        avatar: avatar_lookup(dir, m.sender),
        side: side_of(m.sender, identity),
        kind: kind_of_body(m.body),
    }
}

/// Whether a name is the local user's: exact equality, no normalisation.
pub fn is_self(name: &String, local_identity: &String) -> (r: bool)
    ensures
        r == (name@ == local_identity@),
{
    *name == *local_identity
}

/// The side of a message: the local user's own, or another's.
pub fn bubble_side(message: &MessageData, local_identity: &String) -> (r: Side)
    ensures
        r == side_of(message.from@, local_identity@),
{
    if is_self(&message.from, local_identity) {
        Side::Own
    } else {
        Side::Other
    }
}

/// Classifies a body: an image where it ends with `.gif`, text otherwise.
pub fn classify_body(body: &str) -> (r: BodyKind)
    ensures
        r == kind_of_body(body@),
{
    let n = body.unicode_len();
    if n < 4 {
        return BodyKind::Text;
    }
    let a = body.get_char(n - 4);
    let b = body.get_char(n - 3);
    let c = body.get_char(n - 2);
    let d = body.get_char(n - 1);
    let hit = a == '.' && b == 'g' && c == 'i' && d == 'f';
    proof {
        let tail = body@.subrange(n - 4, n as int);
        if hit {
            assert(tail =~= gif_suffix());
        } else {
            assert(tail[0] != '.' || tail[1] != 'g' || tail[2] != 'i' || tail[3] != 'f');
            assert(tail != gif_suffix());
        }
    }
    if hit {
        BodyKind::Image
    } else {
        BodyKind::Text
    }
}

/// Projects the directory and the log into rows, for a local user.
pub fn project(
    users: &Vec<UserProfile>,
    messages: &Vec<MessageData>,
    local_identity: &String,
) -> (r: ChatView)
    ensures
        r.users@.len() == users@.len(),
        forall|i: int|
            0 <= i < users@.len() ==> (#[trigger] r.users@[i])@ == user_row_of(
                users@[i]@,
                local_identity@,
            ),
        r.messages@.len() == messages@.len(),
        forall|i: int|
            0 <= i < messages@.len() ==> (#[trigger] r.messages@[i])@ == message_row_of(
                messages@[i]@,
                profiles(users@),
                local_identity@,
            ),
{
    let mut user_rows: Vec<UserRow> = Vec::new();
    let mut i: usize = 0;
    while i < users.len()
        invariant
            i <= users@.len(),
            user_rows@.len() == i,
            forall|k: int|
                0 <= k < i ==> (#[trigger] user_rows@[k])@ == user_row_of(
                    users@[k]@,
                    local_identity@,
                ),
        decreases users@.len() - i,
    {
        let u = &users[i];
        user_rows.push(
            UserRow {
                name: u.name.clone(),
                avatar: u.avatar.clone(),
                is_self: is_self(&u.name, local_identity),
            },
        );
        i = i + 1;
    }
    let mut message_rows: Vec<MessageRow> = Vec::new();
    let mut j: usize = 0;
    while j < messages.len()
        invariant
            j <= messages@.len(),
            message_rows@.len() == j,
            forall|k: int|
                0 <= k < j ==> (#[trigger] message_rows@[k])@ == message_row_of(
                    messages@[k]@,
                    profiles(users@),
                    local_identity@,
                ),
        decreases messages@.len() - j,
    {
        let m = &messages[j];
        message_rows.push(
            MessageRow {
                sender: m.from.clone(),
                body: m.message.clone(),
                avatar: avatar_for(users, &m.from),
                side: bubble_side(m, local_identity),
                kind: classify_body(m.message.as_str()),
            },
        );
        j = j + 1;
    }
    ChatView { users: user_rows, messages: message_rows }
}

} // verus!
