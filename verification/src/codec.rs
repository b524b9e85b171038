//! The wire envelope and the two directions of the codec.
//!
//! A frame is one JSON object with three members:
//!
//! * `messageType`: one of the tags `users`, `register`, `message`;
//! * `dataArray`: a list of names, or `null`; read only under `users`;
//! * `data`: a text, or `null`. Under `register` it is a bare name. Under
//!   `message` it is itself the text of a JSON object: `{from, message}` in
//!   frames that arrive, `{message}` alone in frames that leave, because the
//!   room attributes the sender.
//!
//! [`decode`] goes from text to an [`Operation`] in three steps: the text is
//! parsed, the document is read into a [`WebSocketMessage`], and the envelope
//! is turned into the operation. [`encode`] goes back in two: the operation
//! is laid out as an envelope, and the envelope is rendered.

use vstd::prelude::*;
use vstd::string::*;
use crate::json::{
    as_items, as_text, is_null, json_of, json_of_each, member, parse, parsed, quote, quoted, Json,
};
use crate::text::same_text;

verus! {

/// The kind of a frame, as its `messageType` tag says.
#[derive(Debug, Clone, Copy, PartialEq, Eq, Structural)]
pub enum MsgTypes {
    Users,
    Register,
    Message,
}

impl MsgTypes {
    /// The tag that stands for this kind on the wire.
    pub open spec fn tag(self) -> Seq<char> {
        match self {
            MsgTypes::Users => "users"@,
            MsgTypes::Register => "register"@,
            MsgTypes::Message => "message"@,
        }
    }

    /// The kind that a tag stands for. Tags are lower case and match exactly.
    pub open spec fn with_tag(tag: Seq<char>) -> Option<MsgTypes> {
        if tag == "users"@ {
            Some(MsgTypes::Users)
        } else if tag == "register"@ {
            Some(MsgTypes::Register)
        } else if tag == "message"@ {
            Some(MsgTypes::Message)
        } else {
            None
        }
    }

    /// Returns the tag of this kind.
    pub fn as_tag(self) -> (tag: &'static str)
        ensures
            tag@ == self.tag(),
    {
        match self {
            MsgTypes::Users => "users",
            MsgTypes::Register => "register",
            MsgTypes::Message => "message",
        }
    }

    /// Looks a tag up. `None` means the tag names no kind of frame.
    pub fn from_tag(tag: &str) -> (found: Option<MsgTypes>)
        ensures
            found == Self::with_tag(tag@),
    {
        if same_text(tag, "users") {
            Some(MsgTypes::Users)
        } else if same_text(tag, "register") {
            Some(MsgTypes::Register)
        } else if same_text(tag, "message") {
            Some(MsgTypes::Message)
        } else {
            None
        }
    }

    /// Every kind is found again under its own tag.
    pub proof fn lemma_tag_round_trip(self)
        ensures
            Self::with_tag(self.tag()) == Some(self),
    {
        reveal_strlit("users");
        reveal_strlit("register");
        reveal_strlit("message");
        assert("users"@.len() == 5 && "register"@.len() == 8 && "message"@.len() == 7);
    }
}

/// Why a frame was rejected.
#[derive(Debug, Clone, Copy, PartialEq, Eq, Structural)]
pub enum DecodeError {
    /// The frame is not a JSON object of the envelope's shape.
    Envelope,
    /// The frame has the envelope's shape, but its tag names no kind of
    /// frame.
    UnknownTag,
    /// The frame is tagged `message` and its `data` is missing or is not the
    /// text of a `{from, message}` record.
    Payload,
}

impl DecodeError {
    /// The sentence that describes this error.
    pub open spec fn description(self) -> Seq<char> {
        match self {
            DecodeError::Envelope => "malformed envelope"@,
            DecodeError::UnknownTag => "unknown message type"@,
            DecodeError::Payload => "malformed message payload"@,
        }
    }

    /// A sentence for a log.
    pub fn describe(&self) -> (sentence: String)
        ensures
            sentence@ == self.description(),
    {
        match self {
            DecodeError::Envelope => String::from_str("malformed envelope"),
            DecodeError::UnknownTag => String::from_str("unknown message type"),
            DecodeError::Payload => String::from_str("malformed message payload"),
        }
    }
}

/// The record nested in the `data` of a `message` frame; also one entry of
/// the message log.
#[derive(Debug, Clone, PartialEq, Eq)]
pub struct MessageData {
    pub from: String,
    pub message: String,
}

/// A [`MessageData`] as mathematics sees it.
pub struct MessageDataView {
    pub from: Seq<char>,
    pub message: Seq<char>,
}

impl View for MessageData {
    type V = MessageDataView;

    open spec fn view(&self) -> MessageDataView {
        MessageDataView { from: self.from@, message: self.message@ }
    }
}

impl DeepView for MessageData {
    type V = MessageDataView;

    open spec fn deep_view(&self) -> MessageDataView {
        self.view()
    }
}

/// The envelope: one frame with its tag resolved and its members typed.
#[derive(Debug, Clone, PartialEq, Eq)]
pub struct WebSocketMessage {
    pub message_type: MsgTypes,
    pub data_array: Option<Vec<String>>,
    pub data: Option<String>,
}

/// A [`WebSocketMessage`] as mathematics sees it.
pub struct WebSocketMessageView {
    pub message_type: MsgTypes,
    pub data_array: Option<Seq<Seq<char>>>,
    pub data: Option<Seq<char>>,
}

impl View for WebSocketMessage {
    type V = WebSocketMessageView;

    open spec fn view(&self) -> WebSocketMessageView {
        WebSocketMessageView {
            message_type: self.message_type,
            data_array: self.data_array.deep_view(),
            data: self.data.deep_view(),
        }
    }
}

/// What a frame asks for.
#[derive(Debug, Clone, PartialEq, Eq)]
pub enum Operation {
    /// The full list of members who are online, replacing any earlier list.
    RosterSnapshot { members: Vec<String> },
    /// The local user announcing itself. Sent, never acted on when received.
    Registration { name: String },
    /// One chat message. `sender` is empty in a message that is about to be
    /// sent: the room fills it in.
    ChatMessage { sender: String, body: String },
}

/// An [`Operation`] as mathematics sees it.
pub enum OperationView {
    RosterSnapshot { members: Seq<Seq<char>> },
    Registration { name: Seq<char> },
    ChatMessage { sender: Seq<char>, body: Seq<char> },
}

impl View for Operation {
    type V = OperationView;

    open spec fn view(&self) -> OperationView {
        match *self {
            Operation::RosterSnapshot { members } => OperationView::RosterSnapshot {
                members: members.deep_view(),
            },
            Operation::Registration { name } => OperationView::Registration { name: name@ },
            Operation::ChatMessage { sender, body } => OperationView::ChatMessage {
                sender: sender@,
                body: body@,
            },
        }
    }
}

/// The outcome of a decoding as mathematics sees it: the view of the
/// operation, or the error as it is.
pub open spec fn outcome_view(outcome: Result<Operation, DecodeError>) -> Result<
    OperationView,
    DecodeError,
> {
    match outcome {
        Ok(operation) => Ok(operation@),
        Err(error) => Err(error),
    }
}

/// The text stored under `key`, where the member must be a text.
pub open spec fn text_in(doc: Json, key: Seq<char>) -> Option<Seq<char>> {
    match doc.field(key) {
        Some(Json::Text(text)) => Some(text),
        _ => None,
    }
}

/// The text stored under `key`, where the member may be left out.
///
/// `Some(None)`: the member is missing or `null`. `Some(Some(text))`: it is a
/// text. `None`: it is there and is neither, which makes the document
/// malformed.
pub open spec fn optional_text_in(doc: Json, key: Seq<char>) -> Option<Option<Seq<char>>> {
    match doc.field(key) {
        None => Some(None),
        Some(Json::Null) => Some(None),
        Some(Json::Text(text)) => Some(Some(text)),
        Some(_) => None,
    }
}

/// Whether every element of an array is a text.
pub open spec fn all_text(items: Seq<Json>) -> bool {
    forall|i: int| 0 <= i < items.len() ==> #[trigger] items[i] is Text
}

/// The texts of an array of texts, in order.
pub open spec fn texts_of(items: Seq<Json>) -> Seq<Seq<char>> {
    Seq::new(items.len(), |i: int| items[i]->Text_0)
}

/// The list of texts stored under `key`, where the member may be left out.
/// The three outcomes are those of [`optional_text_in`]; an array with an
/// element that is not a text is malformed.
pub open spec fn optional_texts_in(doc: Json, key: Seq<char>) -> Option<Option<Seq<Seq<char>>>> {
    match doc.field(key) {
        None => Some(None),
        Some(Json::Null) => Some(None),
        Some(Json::Array(items)) => if all_text(items) {
            Some(Some(texts_of(items)))
        } else {
            None
        },
        Some(_) => None,
    }
}

/// The envelope that a document holds.
///
/// The document has the shape of an envelope where it is an object whose
/// `messageType` is a text, whose `dataArray`, if there is one, is a list of
/// texts, and whose `data`, if there is one, is a text; other members are
/// ignored. A document of another shape is rejected as
/// [`DecodeError::Envelope`]. One of this shape whose tag names no kind of
/// frame is rejected as [`DecodeError::UnknownTag`].
pub open spec fn envelope_in(doc: Json) -> Result<WebSocketMessageView, DecodeError> {
    match (
        text_in(doc, "messageType"@),
        optional_texts_in(doc, "dataArray"@),
        optional_text_in(doc, "data"@),
    ) {
        (Some(tag), Some(data_array), Some(data)) => match MsgTypes::with_tag(tag) {
            Some(message_type) => Ok(WebSocketMessageView { message_type, data_array, data }),
            None => Err(DecodeError::UnknownTag),
        },
        _ => Err(DecodeError::Envelope),
    }
}

/// The outcome of reading an envelope as mathematics sees it.
pub open spec fn envelope_view(outcome: Result<WebSocketMessage, DecodeError>) -> Result<
    WebSocketMessageView,
    DecodeError,
> {
    match outcome {
        Ok(envelope) => Ok(envelope@),
        Err(error) => Err(error),
    }
}

/// The record that a document holds, or `None` where the document is not an
/// object with a text under `from` and a text under `message`.
pub open spec fn record_in(doc: Json) -> Option<MessageDataView> {
    match (text_in(doc, "from"@), text_in(doc, "message"@)) {
        (Some(from), Some(message)) => Some(MessageDataView { from, message }),
        _ => None,
    }
}

/// The record that a text spells, or `None` where it spells none.
pub open spec fn record_of_text(text: Seq<char>) -> Option<MessageDataView> {
    match parsed(text) {
        Some(doc) => record_in(doc),
        None => None,
    }
}

/// The envelope that a text spells. A text that is not JSON is rejected as
/// [`DecodeError::Envelope`].
pub open spec fn envelope_of_text(text: Seq<char>) -> Result<WebSocketMessageView, DecodeError> {
    match parsed(text) {
        Some(doc) => envelope_in(doc),
        None => Err(DecodeError::Envelope),
    }
}

impl WebSocketMessageView {
    /// The record nested in this envelope: only a `message` frame has one,
    /// and only where its `data` is there and spells a record.
    pub open spec fn payload(self) -> Option<MessageDataView> {
        match (self.message_type, self.data) {
            (MsgTypes::Message, Some(text)) => record_of_text(text),
            _ => None,
        }
    }

    /// The operation that this envelope asks for, given the record that was
    /// found nested in it.
    ///
    /// A roster frame without a list is an empty roster and a registration
    /// without a name has the empty name: neither is an error. A message
    /// frame without a record is.
    pub open spec fn operation(self, payload: Option<MessageDataView>) -> Result<
        OperationView,
        DecodeError,
    > {
        match self.message_type {
            MsgTypes::Users => Ok(
                OperationView::RosterSnapshot {
                    members: match self.data_array {
                        Some(members) => members,
                        None => Seq::empty(),
                    },
                },
            ),
            MsgTypes::Register => Ok(
                OperationView::Registration {
                    name: match self.data {
                        Some(name) => name,
                        None => Seq::empty(),
                    },
                },
            ),
            MsgTypes::Message => match payload {
                Some(record) => Ok(
                    OperationView::ChatMessage { sender: record.from, body: record.message },
                ),
                None => Err(DecodeError::Payload),
            },
        }
    }
}

/// What [`decode`] returns for a text.
pub open spec fn decoded(text: Seq<char>) -> Result<OperationView, DecodeError> {
    match envelope_of_text(text) {
        Ok(envelope) => envelope.operation(envelope.payload()),
        Err(error) => Err(error),
    }
}

/// Reads the text that must stand under `key`.
fn read_text(value: &serde_json::Value, key: &str) -> (found: Option<String>)
    ensures
        found.deep_view() == text_in(json_of(*value), key@),
{
    match member(value, key) {
        Some(inner) => match as_text(inner) {
            Some(text) => Some(text.to_owned()),
            None => None,
        },
        None => None,
    }
}

/// Reads the text that may stand under `key`.
fn read_optional_text(value: &serde_json::Value, key: &str) -> (found: Option<Option<String>>)
    ensures
        found.deep_view() == optional_text_in(json_of(*value), key@),
{
    match member(value, key) {
        None => Some(None),
        Some(inner) => match as_text(inner) {
            Some(text) => Some(Some(text.to_owned())),
            None => if is_null(inner) {
                Some(None)
            } else {
                None
            },
        },
    }
}

/// Reads an array of texts.
fn read_texts(items: &Vec<serde_json::Value>) -> (found: Option<Vec<String>>)
    ensures
        match found {
            Some(texts) => all_text(json_of_each(items@)) && texts.deep_view() == texts_of(
                json_of_each(items@),
            ),
            None => !all_text(json_of_each(items@)),
        },
{
    let ghost docs = json_of_each(items@);
    let mut texts: Vec<String> = Vec::new();
    let mut i: usize = 0;
    while i < items.len()
        invariant
            i <= items.len(),
            docs == json_of_each(items@),
            texts.len() == i,
            forall|k: int| 0 <= k < i ==> #[trigger] docs[k] == Json::Text(texts@[k]@),
        decreases items.len() - i,
    {
        match as_text(&items[i]) {
            Some(text) => {
                texts.push(text.to_owned());
            },
            None => {
                assert(!(docs[i as int] is Text));
                return None;
            },
        }
        i += 1;
    }
    assert(texts.deep_view() =~= texts_of(docs));
    Some(texts)
}

/// Reads the list of texts that may stand under `key`.
fn read_optional_texts(value: &serde_json::Value, key: &str) -> (found: Option<
    Option<Vec<String>>,
>)
    ensures
        found.deep_view() == optional_texts_in(json_of(*value), key@),
{
    match member(value, key) {
        None => Some(None),
        Some(inner) => match as_items(inner) {
            Some(items) => match read_texts(items) {
                Some(texts) => Some(Some(texts)),
                None => None,
            },
            None => if is_null(inner) {
                Some(None)
            } else {
                None
            },
        },
    }
}

impl MessageData {
    /// Reads the record out of a parsed document.
    fn read(value: &serde_json::Value) -> (found: Option<MessageData>)
        ensures
            found.deep_view() == record_in(json_of(*value)),
    {
        let from = read_text(value, "from");
        let message = read_text(value, "message");
        match (from, message) {
            (Some(from), Some(message)) => Some(MessageData { from, message }),
            _ => None,
        }
    }

    /// Parses the text of a `{from, message}` record. `None` means the text
    /// is not JSON or is not such a record.
    pub fn parse(text: &str) -> (found: Option<MessageData>)
        ensures
            found.deep_view() == record_of_text(text@),
    {
        match parse(text) {
            Ok(value) => MessageData::read(&value),
            Err(_) => None,
        }
    }
}

impl WebSocketMessage {
    /// Reads the envelope out of a parsed document.
    fn read(value: &serde_json::Value) -> (found: Result<WebSocketMessage, DecodeError>)
        ensures
            envelope_view(found) == envelope_in(json_of(*value)),
    {
        let tag = read_text(value, "messageType");
        let data_array = read_optional_texts(value, "dataArray");
        let data = read_optional_text(value, "data");
        match (tag, data_array, data) {
            (Some(tag), Some(data_array), Some(data)) => match MsgTypes::from_tag(tag.as_str()) {
                Some(message_type) => Ok(WebSocketMessage { message_type, data_array, data }),
                None => Err(DecodeError::UnknownTag),
            },
            _ => Err(DecodeError::Envelope),
        }
    }

    /// Parses the text of a frame.
    ///
    /// Fails with [`DecodeError::Envelope`] where the text is not JSON or
    /// has not the shape of an envelope, and with
    /// [`DecodeError::UnknownTag`] where it has and its tag names no kind of
    /// frame.
    pub fn parse(text: &str) -> (found: Result<WebSocketMessage, DecodeError>)
        ensures
            envelope_view(found) == envelope_of_text(text@),
    {
        match parse(text) {
            Ok(value) => WebSocketMessage::read(&value),
            Err(_) => Err(DecodeError::Envelope),
        }
    }

    /// Parses the record nested in this envelope, if it holds one.
    pub fn parse_payload(&self) -> (found: Option<MessageData>)
        ensures
            found.deep_view() == self@.payload(),
    {
        match (self.message_type, &self.data) {
            (MsgTypes::Message, Some(text)) => MessageData::parse(text.as_str()),
            _ => None,
        }
    }

    /// Turns the envelope into the operation it asks for. `payload` is the
    /// record that was found nested in it, `None` where there was none.
    pub fn into_operation(self, payload: Option<MessageData>) -> (outcome: Result<
        Operation,
        DecodeError,
    >)
        ensures
            outcome_view(outcome) == self@.operation(payload.deep_view()),
    {
        match self.message_type {
            MsgTypes::Users => {
                let members = match self.data_array {
                    Some(members) => members,
                    None => Vec::new(),
                };
                assert(self.data_array is None ==> members.deep_view() =~= Seq::<
                    Seq<char>,
                >::empty());
                Ok(Operation::RosterSnapshot { members })
            },
            MsgTypes::Register => {
                let name = match self.data {
                    Some(name) => name,
                    None => String::new(),
                };
                Ok(Operation::Registration { name })
            },
            MsgTypes::Message => match payload {
                Some(record) => Ok(
                    Operation::ChatMessage { sender: record.from, body: record.message },
                ),
                None => Err(DecodeError::Payload),
            },
        }
    }
}

/// Decodes one frame.
///
/// Fails with [`DecodeError::Envelope`] where the text is not a JSON object
/// of the envelope's shape, with [`DecodeError::UnknownTag`] where it is and
/// its tag names no kind of frame, and with [`DecodeError::Payload`] where a
/// `message` frame does not carry the text of a `{from, message}` record.
/// Every other text decodes.
pub fn decode(text: &str) -> (outcome: Result<Operation, DecodeError>)
    ensures
        outcome_view(outcome) == decoded(text@),
{
    match WebSocketMessage::parse(text) {
        Ok(envelope) => {
            let payload = envelope.parse_payload();
            envelope.into_operation(payload)
        },
        Err(error) => Err(error),
    }
}

/// The tag of a kind as a JSON string literal.
pub open spec fn tag_literal(kind: MsgTypes) -> Seq<char> {
    match kind {
        MsgTypes::Users => "\"users\""@,
        MsgTypes::Register => "\"register\""@,
        MsgTypes::Message => "\"message\""@,
    }
}

/// The JSON for an optional text: `null`, or the text as a string literal.
pub open spec fn text_literal(text: Option<Seq<char>>) -> Seq<char> {
    match text {
        Some(text) => quoted(text),
        None => "null"@,
    }
}

/// The string literals of `items`, in order, with a comma between
/// neighbours.
pub open spec fn joined(items: Seq<Seq<char>>) -> Seq<char>
    decreases items.len(),
{
    if items.len() == 0 {
        Seq::empty()
    } else if items.len() == 1 {
        quoted(items[0])
    } else {
        joined(items.drop_last()) + ","@ + quoted(items.last())
    }
}

/// The JSON for an optional list of texts: `null`, or an array of string
/// literals.
pub open spec fn list_literal(items: Option<Seq<Seq<char>>>) -> Seq<char> {
    match items {
        Some(items) => "["@ + joined(items) + "]"@,
        None => "null"@,
    }
}

/// The text of the record that a message carries when it leaves: the body
/// alone, under `message`.
pub open spec fn outgoing_payload(body: Seq<char>) -> Seq<char> {
    "{\"message\":"@ + quoted(body) + "}"@
}

impl MessageDataView {
    /// The text of this record: `from`, then `message`.
    pub open spec fn rendered(self) -> Seq<char> {
        "{\"from\":"@ + quoted(self.from) + ",\"message\":"@ + quoted(self.message) + "}"@
    }
}

impl WebSocketMessageView {
    /// The text of this envelope: the three members in the order
    /// `messageType`, `dataArray`, `data`, each always written, `null` where
    /// it holds nothing.
    pub open spec fn rendered(self) -> Seq<char> {
        "{\"messageType\":"@ + tag_literal(self.message_type) + ",\"dataArray\":"@ + list_literal(
            self.data_array,
        ) + ",\"data\":"@ + text_literal(self.data) + "}"@
    }
}

impl OperationView {
    /// The envelope that carries this operation when it is sent.
    ///
    /// A registration carries the bare name. A chat message carries its body
    /// in a nested record and leaves the sender out.
    pub open spec fn envelope(self) -> WebSocketMessageView {
        match self {
            OperationView::RosterSnapshot { members } => WebSocketMessageView {
                message_type: MsgTypes::Users,
                data_array: Some(members),
                data: None,
            },
            OperationView::Registration { name } => WebSocketMessageView {
                message_type: MsgTypes::Register,
                data_array: None,
                data: Some(name),
            },
            OperationView::ChatMessage { sender, body } => WebSocketMessageView {
                message_type: MsgTypes::Message,
                data_array: None,
                data: Some(outgoing_payload(body)),
            },
        }
    }
}

/// What [`encode`] returns for an operation.
pub open spec fn encoded(operation: OperationView) -> Seq<char> {
    operation.envelope().rendered()
}

/// What [`encode_incoming`] returns for a record: the frame in which the
/// room delivers that chat message.
pub open spec fn encoded_incoming(record: MessageDataView) -> Seq<char> {
    WebSocketMessageView {
        message_type: MsgTypes::Message,
        data_array: None,
        data: Some(record.rendered()),
    }.rendered()
}

/// Returns the tag of a kind as a JSON string literal.
fn tag_literal_of(kind: MsgTypes) -> (literal: &'static str)
    ensures
        literal@ == tag_literal(kind),
{
    match kind {
        MsgTypes::Users => "\"users\"",
        MsgTypes::Register => "\"register\"",
        MsgTypes::Message => "\"message\"",
    }
}

/// Appends the JSON for an optional text.
fn push_text_literal(out: &mut String, text: Option<&str>)
    ensures
        final(out)@ == old(out)@ + text_literal(text.deep_view()),
{
    match text {
        Some(text) => {
            let literal = quote(text);
            out.append(literal.as_str());
        },
        None => {
            out.append("null");
        },
    }
}

/// Appends the string literals of `items`, with commas between them.
fn push_joined(out: &mut String, items: &Vec<String>)
    ensures
        final(out)@ == old(out)@ + joined(items.deep_view()),
{
    let ghost before = out@;
    let ghost all = items.deep_view();
    let mut i: usize = 0;
    assert(before + joined(all.take(0)) =~= before);
    while i < items.len()
        invariant
            i <= items.len(),
            all == items.deep_view(),
            out@ == before + joined(all.take(i as int)),
        decreases items.len() - i,
    {
        if i > 0 {
            out.append(",");
        }
        let literal = quote(items[i].as_str());
        out.append(literal.as_str());
        proof {
            let longer = all.take(i + 1);
            assert(longer.drop_last() =~= all.take(i as int));
            assert(out@ =~= before + joined(longer));
        }
        i += 1;
    }
    assert(all.take(i as int) =~= all);
}

/// Appends the JSON for an optional list of texts.
fn push_list_literal(out: &mut String, items: Option<&Vec<String>>)
    ensures
        final(out)@ == old(out)@ + list_literal(items.deep_view()),
{
    match items {
        Some(items) => {
            let ghost before = out@;
            out.append("[");
            push_joined(out, items);
            out.append("]");
            assert(out@ =~= before + ("["@ + joined(items.deep_view()) + "]"@));
        },
        None => {
            out.append("null");
        },
    }
}

/// Renders an envelope from its three members.
fn render_members(kind: MsgTypes, data_array: Option<&Vec<String>>, data: Option<&str>) -> (frame:
    String)
    ensures
        frame@ == (WebSocketMessageView {
            message_type: kind,
            data_array: data_array.deep_view(),
            data: data.deep_view(),
        }).rendered(),
{
    let mut frame = String::from_str("{\"messageType\":");
    frame.append(tag_literal_of(kind));
    frame.append(",\"dataArray\":");
    push_list_literal(&mut frame, data_array);
    frame.append(",\"data\":");
    push_text_literal(&mut frame, data);
    frame.append("}");
    frame
}

/// Renders the record that a message carries when it leaves.
fn render_outgoing_payload(body: &str) -> (payload: String)
    ensures
        payload@ == outgoing_payload(body@),
{
    let mut payload = String::from_str("{\"message\":");
    let literal = quote(body);
    payload.append(literal.as_str());
    payload.append("}");
    payload
}

impl MessageData {
    /// Renders the record as the text of a JSON object.
    pub fn render(&self) -> (payload: String)
        ensures
            payload@ == self@.rendered(),
    {
        let mut payload = String::from_str("{\"from\":");
        let from = quote(self.from.as_str());
        payload.append(from.as_str());
        payload.append(",\"message\":");
        let message = quote(self.message.as_str());
        payload.append(message.as_str());
        payload.append("}");
        payload
    }
}

impl WebSocketMessage {
    /// Lays an operation out as the envelope that carries it when sent.
    pub fn from_operation(operation: Operation) -> (envelope: WebSocketMessage)
        ensures
            envelope@ == operation@.envelope(),
    {
        match operation {
            Operation::RosterSnapshot { members } => WebSocketMessage {
                message_type: MsgTypes::Users,
                data_array: Some(members),
                data: None,
            },
            Operation::Registration { name } => WebSocketMessage {
                message_type: MsgTypes::Register,
                data_array: None,
                data: Some(name),
            },
            Operation::ChatMessage { sender, body } => WebSocketMessage {
                message_type: MsgTypes::Message,
                data_array: None,
                data: Some(render_outgoing_payload(body.as_str())),
            },
        }
    }

    /// Renders the envelope as the text of a frame.
    pub fn render(&self) -> (frame: String)
        ensures
            frame@ == self@.rendered(),
    {
        let data_array = match &self.data_array {
            Some(items) => Some(items),
            None => None,
        };
        let data = match &self.data {
            Some(text) => Some(text.as_str()),
            None => None,
        };
        render_members(self.message_type, data_array, data)
    }
}

/// Encodes an operation as the frame that is sent for it.
pub fn encode(operation: &Operation) -> (frame: String)
    ensures
        frame@ == encoded(operation@),
{
    match operation {
        Operation::RosterSnapshot { members } => render_members(
            MsgTypes::Users,
            Some(members),
            None,
        ),
        Operation::Registration { name } => render_members(
            MsgTypes::Register,
            None,
            Some(name.as_str()),
        ),
        Operation::ChatMessage { sender, body } => {
            let payload = render_outgoing_payload(body.as_str());
            render_members(MsgTypes::Message, None, Some(payload.as_str()))
        },
    }
}

/// Encodes a chat message as the frame in which the room delivers it: with
/// the sender, in a nested `{from, message}` record.
pub fn encode_incoming(record: &MessageData) -> (frame: String)
    ensures
        frame@ == encoded_incoming(record@),
{
    let payload = record.render();
    render_members(MsgTypes::Message, None, Some(payload.as_str()))
}

/// The envelope in which the room delivers a record.
pub open spec fn incoming_envelope(record: MessageDataView) -> WebSocketMessageView {
    WebSocketMessageView {
        message_type: MsgTypes::Message,
        data_array: None,
        data: Some(record.rendered()),
    }
}

/// Decoding undoes [`encode_incoming`], sender and body alike, for every
/// record whose two renderings the JSON parser reads back as they were
/// written: the record's own text, and the frame around it.
///
/// Whether the parser does so is up to the JSON library and is not claimed
/// here; what is shown is that the codec loses nothing on top of it.
pub proof fn lemma_round_trip_above_json(record: MessageDataView)
    ensures
        record_of_text(record.rendered()) == Some(record) && envelope_of_text(
            encoded_incoming(record),
        ) == Ok::<WebSocketMessageView, DecodeError>(incoming_envelope(record)) ==> decoded(
            encoded_incoming(record),
        ) == Ok::<OperationView, DecodeError>(
            OperationView::ChatMessage { sender: record.from, body: record.message },
        ),
{
}

/// An envelope that carries a record always yields the chat message with the
/// record's sender and body, and an envelope laid out for an operation has
/// the kind of the operation.
pub proof fn lemma_envelope_keeps_operation(record: MessageDataView, operation: OperationView)
    ensures
        incoming_envelope(record).operation(Some(record)) == Ok::<OperationView, DecodeError>(
            OperationView::ChatMessage { sender: record.from, body: record.message },
        ),
        operation is RosterSnapshot ==> operation.envelope().operation(None) == Ok::<
            OperationView,
            DecodeError,
        >(operation),
        operation is Registration ==> operation.envelope().operation(None) == Ok::<
            OperationView,
            DecodeError,
        >(operation),
{
}

} // verus!
