//! The wire protocol: envelopes of three kinds, written as JSON text and read
//! back strictly. A `message` envelope that the server sends carries in its
//! `data` a second JSON text, `{"from": .., "message": ..}`, decoded in turn.
use vstd::prelude::*;
use vstd::string::StringExecFns;
use crate::json::{Json, json_parse_of, json_quoted, member, find_member, parse_json, quote_json};

verus! {

/// The kind of an envelope, written on the wire in lower case.
#[derive(Clone, Copy, Debug, PartialEq, Eq, Structural)]
pub enum MsgTypes {
    Users,
    Register,
    Message,
}

/// One envelope as it travels: a kind, and a payload in `data_array` (for
/// `users`) or in `data` (for `register` and `message`).
#[derive(Debug)]
pub struct WebSocketMessage {
    pub message_type: MsgTypes,
    pub data_array: Option<Vec<String>>,
    pub data: Option<String>,
}

/// A chat message as the log keeps it: who sent it, and what it says.
#[derive(Debug, PartialEq, Eq)]
pub struct MessageData {
    pub from: String,
    pub message: String,
}

/// Why an inbound text was not an envelope this client accepts.
#[derive(Clone, Debug, PartialEq, Eq)]
pub enum DecodeError {
    /// The text (or the nested text of a `message`) is not JSON.
    Syntax,
    /// The JSON value is not an object.
    NotAnObject,
    /// `messageType` is absent or not a string.
    MissingKind,
    /// `messageType` names no kind of this protocol; the tag is kept.
    UnknownKind(String),
    /// The payload does not fit the kind: the field it needs is absent or of
    /// the wrong type, or the other payload field is set as well.
    MalformedPayload,
    /// The nested `{from, message}` object lacks a field, or one is no string.
    MalformedMessage,
}

/// A decoded inbound envelope, with the nested message already read.
#[derive(Debug)]
pub enum Inbound {
    Users(Vec<String>),
    Register(String),
    Message(MessageData),
}

/// The content of an envelope.
pub ghost struct WireModel {
    pub kind: MsgTypes,
    pub data_array: Option<Seq<Seq<char>>>,
    pub data: Option<Seq<char>>,
}

/// The content of a chat message.
pub ghost struct ChatMessage {
    pub sender: Seq<char>,
    pub body: Seq<char>,
}

/// The content of a decoded inbound envelope.
pub ghost enum InboundModel {
    Users(Seq<Seq<char>>),
    Register(Seq<char>),
    Message(ChatMessage),
}

pub open spec fn opt_text(o: Option<String>) -> Option<Seq<char>> {
    match o {
        Some(s) => Some(s@),
        None => None,
    }
}

pub open spec fn texts(v: Seq<String>) -> Seq<Seq<char>> {
    v.map_values(|s: String| s@)
}

pub open spec fn opt_texts(o: Option<Vec<String>>) -> Option<Seq<Seq<char>>> {
    match o {
        Some(v) => Some(texts(v@)),
        None => None,
    }
}

impl View for WebSocketMessage {
    type V = WireModel;

    open spec fn view(&self) -> WireModel {
        WireModel {
            kind: self.message_type,
            data_array: opt_texts(self.data_array),
            data: opt_text(self.data),
        }
    }
}

impl View for MessageData {
    type V = ChatMessage;

    open spec fn view(&self) -> ChatMessage {
        ChatMessage { sender: self.from@, body: self.message@ }
    }
}

impl View for Inbound {
    type V = InboundModel;

    open spec fn view(&self) -> InboundModel {
        match self {
            Inbound::Users(v) => InboundModel::Users(texts(v@)),
            Inbound::Register(s) => InboundModel::Register(s@),
            Inbound::Message(m) => InboundModel::Message(m@),
        }
    }
}

/// The kind that a wire tag names, if any (exact, case-sensitive).
pub open spec fn kind_of(tag: Seq<char>) -> Option<MsgTypes> {
    if tag == "users"@ {
        Some(MsgTypes::Users)
    } else if tag == "register"@ {
        Some(MsgTypes::Register)
    } else if tag == "message"@ {
        Some(MsgTypes::Message)
    } else {
        None
    }
}

/// The text of a JSON string; other values have none.
pub open spec fn str_text(j: Json) -> Seq<char> {
    match j {
        Json::Str(s) => s@,
        _ => Seq::empty(),
    }
}

pub open spec fn all_strings(items: Seq<Json>) -> bool {
    forall|i: int| 0 <= i < items.len() ==> (#[trigger] items[i]) is Str
}

/// An optional string field: absent or `null` reads as `None`; a string as
/// its text; anything else is malformed (`None` outside).
pub open spec fn optional_text(f: Option<Json>) -> Option<Option<Seq<char>>> {
    match f {
        None => Some(None),
        Some(Json::Null) => Some(None),
        Some(Json::Str(s)) => Some(Some(s@)),
        _ => None,
    }
}

/// An optional field holding an array of strings, read as `optional_text` reads.
pub open spec fn optional_texts(f: Option<Json>) -> Option<Option<Seq<Seq<char>>>> {
    match f {
        None => Some(None),
        Some(Json::Null) => Some(None),
        Some(Json::Array(a)) => if all_strings(a@) {
            Some(Some(a@.map_values(|j: Json| str_text(j))))
        } else {
            None
        },
        _ => None,
    }
}

/// Each kind carries exactly one payload field: `users` a list, the others a string.
pub open spec fn payload_fits(kind: MsgTypes, arr: Option<Seq<Seq<char>>>, data: Option<Seq<char>>) -> bool {
    match kind {
        MsgTypes::Users => arr is Some && data is None,
        _ => arr is None && data is Some,
    }
}

impl WireModel {
    pub open spec fn wf(self) -> bool {
        payload_fits(self.kind, self.data_array, self.data)
    }
}

/// The envelope that a JSON value holds, or why it holds none.
pub open spec fn envelope_of(j: Json) -> Result<WireModel, DecodeError> {
    match j {
        Json::Object(m) => match member(m@, "messageType"@) {
            Some(Json::Str(tag)) => match kind_of(tag@) {
                None => Err(DecodeError::UnknownKind(tag)),
                Some(kind) => match (
                    optional_texts(member(m@, "dataArray"@)),
                    optional_text(member(m@, "data"@)),
                ) {
                    (Some(arr), Some(data)) => if payload_fits(kind, arr, data) {
                        Ok(WireModel { kind, data_array: arr, data })
                    } else {
                        Err(DecodeError::MalformedPayload)
                    },
                    _ => Err(DecodeError::MalformedPayload),
                },
            },
            _ => Err(DecodeError::MissingKind),
        },
        _ => Err(DecodeError::NotAnObject),
    }
}

/// The chat message that the nested JSON value of a `message` envelope holds.
pub open spec fn message_of(j: Json) -> Result<ChatMessage, DecodeError> {
    match j {
        Json::Object(m) => match (member(m@, "from"@), member(m@, "message"@)) {
            (Some(Json::Str(f)), Some(Json::Str(b))) => Ok(ChatMessage { sender: f@, body: b@ }),
            _ => Err(DecodeError::MalformedMessage),
        },
        _ => Err(DecodeError::NotAnObject),
    }
}

/// The inbound envelope that an envelope's content amounts to, where the
/// nested text of a `message` parses to `nested`.
pub open spec fn inbound_of_wire(w: WireModel, nested: Option<Json>) -> Result<InboundModel, DecodeError> {
    match w.kind {
        MsgTypes::Users => Ok(InboundModel::Users(w.data_array.unwrap())),
        MsgTypes::Register => Ok(InboundModel::Register(w.data.unwrap())),
        MsgTypes::Message => match nested {
            None => Err(DecodeError::Syntax),
            Some(d) => match message_of(d) {
                Ok(c) => Ok(InboundModel::Message(c)),
                Err(e) => Err(e),
            },
        },
    }
}

/// What an inbound text decodes to: both stages, each through serde_json's parse.
pub open spec fn inbound_of(text: Seq<char>) -> Result<InboundModel, DecodeError> {
    match json_parse_of(text) {
        None => Err(DecodeError::Syntax),
        Some(j) => match envelope_of(j) {
            Err(e) => Err(e),
            Ok(w) => inbound_of_wire(
                w,
                if w.kind == MsgTypes::Message {
                    json_parse_of(w.data.unwrap())
                } else {
                    None
                },
            ),
        },
    }
}

/// The kind named by a wire tag.
pub fn kind_from_tag(tag: &String) -> (r: Option<MsgTypes>)
    ensures
        r == kind_of(tag@),
{
    if *tag == String::from_str("users") {
        Some(MsgTypes::Users)
    } else if *tag == String::from_str("register") {
        Some(MsgTypes::Register)
    } else if *tag == String::from_str("message") {
        Some(MsgTypes::Message)
    } else {
        None
    }
}

/// Reads an optional string field of an object.
fn read_optional_text(members: &Vec<(String, Json)>, key: &String) -> (r: Option<Option<String>>)
    ensures
        match r {
            Some(o) => optional_text(member(members@, key@)) == Some(opt_text(o)),
            None => optional_text(member(members@, key@)) is None,
        },
{
    match find_member(members, key) {
        None => Some(None),
        Some(i) => match &members[i].1 {
            Json::Null => Some(None),
            Json::Str(s) => Some(Some(s.clone())),
            _ => None,
        },
    }
}

/// The texts of an array whose items are all strings; `None` otherwise.
fn read_strings(items: &Vec<Json>) -> (r: Option<Vec<String>>)
    ensures
        match r {
            Some(v) => all_strings(items@) && texts(v@) == items@.map_values(|j: Json| str_text(j)),
            None => !all_strings(items@),
        },
{
    let mut out: Vec<String> = Vec::new();
    let mut i: usize = 0;
    while i < items.len()
        invariant
            i <= items@.len(),
            out@.len() == i,
            forall|k: int| 0 <= k < i ==> (#[trigger] items@[k]) is Str,
            forall|k: int| 0 <= k < i ==> (#[trigger] out@[k])@ == str_text(items@[k]),
        decreases items@.len() - i,
    {
        match &items[i] {
            Json::Str(s) => {
                out.push(s.clone());
            },
            _ => {
                return None;
            },
        }
        i = i + 1;
    }
    assert(texts(out@) =~= items@.map_values(|j: Json| str_text(j)));
    Some(out)
}

/// Reads an optional field holding an array of strings.
fn read_optional_texts(members: &Vec<(String, Json)>, key: &String) -> (r: Option<Option<Vec<String>>>)
    ensures
        match r {
            Some(o) => optional_texts(member(members@, key@)) == Some(opt_texts(o)),
            None => optional_texts(member(members@, key@)) is None,
        },
{
    match find_member(members, key) {
        None => Some(None),
        Some(i) => match &members[i].1 {
            Json::Null => Some(None),
            Json::Array(a) => match read_strings(a) {
                Some(v) => Some(Some(v)),
                None => None,
            },
            _ => None,
        },
    }
}

/// Reads an envelope out of a parsed JSON value, strictly: the kind must be
/// known and the payload must fit it.
pub fn decode_envelope(j: &Json) -> (r: Result<WebSocketMessage, DecodeError>)
    ensures
        match r {
            Ok(w) => envelope_of(*j) == Ok::<WireModel, DecodeError>(w@),
            Err(e) => envelope_of(*j) == Err::<WireModel, DecodeError>(e),
        },
{
    let members = match j {
        Json::Object(m) => m,
        _ => {
            return Err(DecodeError::NotAnObject);
        },
    };
    let tag = match find_member(members, &String::from_str("messageType")) {
        Some(i) => match &members[i].1 {
            Json::Str(s) => s,
            _ => {
                return Err(DecodeError::MissingKind);
            },
        },
        None => {
            return Err(DecodeError::MissingKind);
        },
    };
    let kind = match kind_from_tag(tag) {
        Some(k) => k,
        None => {
            return Err(DecodeError::UnknownKind(tag.clone()));
        },
    };
    let data_array = match read_optional_texts(members, &String::from_str("dataArray")) {
        Some(a) => a,
        None => {
            return Err(DecodeError::MalformedPayload);
        },
    };
    let data = match read_optional_text(members, &String::from_str("data")) {
        Some(d) => d,
        None => {
            return Err(DecodeError::MalformedPayload);
        },
    };
    let fits = match kind {
        MsgTypes::Users => data_array.is_some() && data.is_none(),
        _ => data_array.is_none() && data.is_some(),
    };
    if fits {
        Ok(WebSocketMessage { message_type: kind, data_array, data })
    } else {
        Err(DecodeError::MalformedPayload)
    }
}

/// Reads the `{from, message}` object nested in a `message` envelope.
pub fn decode_message_data(j: &Json) -> (r: Result<MessageData, DecodeError>)
    ensures
        match r {
            Ok(m) => message_of(*j) == Ok::<ChatMessage, DecodeError>(m@),
            Err(e) => message_of(*j) == Err::<ChatMessage, DecodeError>(e),
        },
{
    let members = match j {
        Json::Object(m) => m,
        _ => {
            return Err(DecodeError::NotAnObject);
        },
    };
    let from = match read_optional_text(members, &String::from_str("from")) {
        Some(Some(f)) => f,
        _ => {
            return Err(DecodeError::MalformedMessage);
        },
    };
    let message = match read_optional_text(members, &String::from_str("message")) {
        Some(Some(b)) => b,
        _ => {
            return Err(DecodeError::MalformedMessage);
        },
    };
    Ok(MessageData { from, message })
}

/// Decodes one inbound text, both stages: the envelope, and for a `message`
/// the nested `{from, message}` text that its `data` holds.
pub fn decode_inbound(text: &str) -> (r: Result<Inbound, DecodeError>)
    ensures
        match r {
            Ok(i) => inbound_of(text@) == Ok::<InboundModel, DecodeError>(i@),
            Err(e) => inbound_of(text@) == Err::<InboundModel, DecodeError>(e),
        },
{
    let j = match parse_json(text) {
        Some(j) => j,
        None => {
            return Err(DecodeError::Syntax);
        },
    };
    let w = match decode_envelope(&j) {
        Ok(w) => w,
        Err(e) => {
            return Err(e);
        },
    };
    match w.message_type {
        MsgTypes::Users => match w.data_array {
            Some(a) => Ok(Inbound::Users(a)),
            None => Err(DecodeError::MalformedPayload),
        },
        MsgTypes::Register => match w.data {
            Some(d) => Ok(Inbound::Register(d)),
            None => Err(DecodeError::MalformedPayload),
        },
        MsgTypes::Message => match w.data {
            Some(d) => match parse_json(d.as_str()) {
                None => Err(DecodeError::Syntax),
                Some(nested) => match decode_message_data(&nested) {
                    Ok(m) => Ok(Inbound::Message(m)),
                    Err(e) => Err(e),
                },
            },
            None => Err(DecodeError::MalformedPayload),
        },
    }
}

/// The wire tag of a kind, as a JSON string.
pub open spec fn kind_tag(k: MsgTypes) -> Seq<char> {
    match k {
        MsgTypes::Users => "\"users\""@,
        MsgTypes::Register => "\"register\""@,
        MsgTypes::Message => "\"message\""@,
    }
}

/// The first `n` items, each as a JSON string, separated by commas.
pub open spec fn quoted_join(items: Seq<Seq<char>>, n: int) -> Seq<char>
    decreases n,
{
    if n <= 0 {
        Seq::empty()
    } else if n == 1 {
        json_quoted(items[0])
    } else {
        quoted_join(items, n - 1) + ","@ + json_quoted(items[n - 1])
    }
}

/// A list of strings as a JSON array.
pub open spec fn array_text(items: Seq<Seq<char>>) -> Seq<char> {
    "["@ + quoted_join(items, items.len() as int) + "]"@
}

/// The JSON text of an envelope: `messageType`, `dataArray`, `data`, in this
/// order, an absent payload written `null`.
pub open spec fn envelope_text(w: WireModel) -> Seq<char> {
    "{\"messageType\":"@ + kind_tag(w.kind) + ",\"dataArray\":"@ + match w.data_array {
        None => "null"@,
        Some(a) => array_text(a),
    } + ",\"data\":"@ + match w.data {
        None => "null"@,
        Some(d) => json_quoted(d),
    } + "}"@
}

fn kind_tag_text(k: MsgTypes) -> (r: &'static str)
    ensures
        r@ == kind_tag(k),
{
    match k {
        MsgTypes::Users => "\"users\"",
        MsgTypes::Register => "\"register\"",
        MsgTypes::Message => "\"message\"",
    }
}

/// Appends a list of strings as a JSON array.
fn append_array(out: &mut String, v: &Vec<String>)
    ensures
        final(out)@ == old(out)@ + array_text(texts(v@)),
{
    let ghost start = out@;
    out.append("[");
    let mut i: usize = 0;
    while i < v.len()
        invariant
            i <= v@.len(),
            out@ == start + "["@ + quoted_join(texts(v@), i as int),
        decreases v@.len() - i,
    {
        if i > 0 {
            out.append(",");
        }
        let q = quote_json(v[i].as_str());
        out.append(q.as_str());
        proof {
            if i == 0 {
                assert(quoted_join(texts(v@), 0) =~= Seq::<char>::empty());
                assert(start + "["@ + Seq::<char>::empty() =~= start + "["@);
            }
        }
        i = i + 1;
    }
    out.append("]");
}

/// Appends an optional string as a JSON string, or `null`.
fn append_optional(out: &mut String, d: &Option<String>)
    ensures
        final(out)@ == old(out)@ + match opt_text(*d) {
            None => "null"@,
            Some(s) => json_quoted(s),
        },
{
    match d {
        None => out.append("null"),
        Some(s) => {
            let q = quote_json(s.as_str());
            out.append(q.as_str());
        },
    }
}

/// Writes an envelope as JSON text.
pub fn encode(w: &WebSocketMessage) -> (r: String)
    ensures
        r@ == envelope_text(w@),
{
    let mut out = String::from_str("{\"messageType\":");
    out.append(kind_tag_text(w.message_type));
    out.append(",\"dataArray\":");
    match &w.data_array {
        None => out.append("null"),
        Some(v) => append_array(&mut out, v),
    }
    out.append(",\"data\":");
    append_optional(&mut out, &w.data);
    out.append("}");
    out
}

} // verus!
