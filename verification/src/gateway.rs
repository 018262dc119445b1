//! The frames of the gateway and their codec.
//!
//! A frame is a JSON object with the members `op` (the opcode), `d` (the
//! payload), `e` (the event's name, with opcode 0) and `seq` (passed over).
//! The members may come in any order: the opcode and the event's name are
//! looked up first, and the payload is read once they are known.

use vstd::prelude::*;
use vstd::string::*;
use crate::data::{
    ClientSettings, House, HouseView, Message, MessageView, User, UserView, house_of, message_of,
    settings_of, user_field,
};
use crate::fields::{id_of, integer_of, read_id, read_integer, read_text, text_of};
use crate::json::{
    Field, Json, JsonValue, Lookup, field, find, has_key, json_parse, json_text,
    lemma_field_found, lemma_field_of_one, lemma_field_of_two, lemma_object_view, members_view,
    repeats_key,
};
use crate::text::spells;

verus! {

/// Why a text is no frame.
#[derive(Clone, Copy, Debug, PartialEq, Eq, Structural)]
pub enum DecodeError {
    /// The text is not JSON.
    Syntax,
    /// The document is not an object.
    NotAnObject,
    /// The object has a member other than `op`, `d`, `e` and `seq`.
    UnknownField,
    /// The object has `op`, `d` or `e` more than once.
    DuplicateField,
    /// The object has no `op`.
    MissingOpcode,
    /// `op` is not an integer from 0 to 255.
    InvalidOpcode,
    /// `op` is an opcode that stands for no frame.
    UnknownOpcode(u8),
    /// `e` is not a string.
    InvalidEvent,
    /// The frame is an event and has no `d`.
    MissingData,
    /// The frame is an event and has no `e`.
    MissingEvent,
    /// The frame is a well-formed event whose name is not known.
    UnknownEvent,
    /// The frame has a `d` and its opcode takes none.
    UnexpectedData,
    /// `d` is not the payload that the opcode, or the event, asks for.
    InvalidPayload,
}

/// The payload of `Hello`: how long to wait between two heartbeats, in
/// milliseconds.
#[derive(Clone, Copy, Debug, PartialEq, Eq, Structural)]
pub struct OpCodeHello {
    pub heart_beat: u16,
}

/// The payload of `Login`.
#[derive(Clone, Debug, PartialEq, Eq)]
pub struct OpCodeLogin {
    pub token: String,
}

/// The payload of the event `INIT_STATE`.
#[derive(Clone, Debug, PartialEq, Eq)]
pub struct EventInitState {
    pub user: User,
    pub settings: ClientSettings,
}

/// The payload of the event `TYPING_START`.
#[derive(Clone, Copy, Debug, PartialEq, Eq, Structural)]
pub struct EventTypingStart {
    pub room_id: u64,
    pub user_id: u64,
}

/// An event with its payload.
#[derive(Clone, Debug, PartialEq, Eq)]
pub enum OpCodeEvent {
    InitState(EventInitState),
    HouseJoin(House),
    TypingStart(EventTypingStart),
    MessageCreate(Message),
}

/// One message of the gateway.
#[derive(Clone, Debug, PartialEq, Eq)]
pub enum Frame {
    Event(OpCodeEvent),
    Hello(OpCodeHello),
    Login(OpCodeLogin),
    HeartBeat,
}

/// The content of an [`OpCodeLogin`].
pub struct OpCodeLoginView {
    pub token: Seq<char>,
}

/// The content of an [`EventInitState`].
pub struct EventInitStateView {
    pub user: UserView,
    pub settings: ClientSettings,
}

/// The content of an [`OpCodeEvent`].
pub enum OpCodeEventView {
    InitState(EventInitStateView),
    HouseJoin(HouseView),
    TypingStart(EventTypingStart),
    MessageCreate(MessageView),
}

/// The content of a [`Frame`].
pub enum FrameView {
    Event(OpCodeEventView),
    Hello(OpCodeHello),
    Login(OpCodeLoginView),
    HeartBeat,
}

impl View for OpCodeLogin {
    type V = OpCodeLoginView;

    open spec fn view(&self) -> OpCodeLoginView {
        OpCodeLoginView { token: self.token@ }
    }
}

impl View for EventInitState {
    type V = EventInitStateView;

    open spec fn view(&self) -> EventInitStateView {
        EventInitStateView { user: self.user@, settings: self.settings }
    }
}

impl View for OpCodeEvent {
    type V = OpCodeEventView;

    open spec fn view(&self) -> OpCodeEventView {
        match self {
            OpCodeEvent::InitState(event) => OpCodeEventView::InitState(event@),
            OpCodeEvent::HouseJoin(house) => OpCodeEventView::HouseJoin(house@),
            OpCodeEvent::TypingStart(event) => OpCodeEventView::TypingStart(*event),
            OpCodeEvent::MessageCreate(message) => OpCodeEventView::MessageCreate(message@),
        }
    }
}

impl View for Frame {
    type V = FrameView;

    open spec fn view(&self) -> FrameView {
        match self {
            Frame::Event(event) => FrameView::Event(event@),
            Frame::Hello(hello) => FrameView::Hello(*hello),
            Frame::Login(login) => FrameView::Login(login@),
            Frame::HeartBeat => FrameView::HeartBeat,
        }
    }
}

/// The payload of `Hello` that a document stands for.
pub open spec fn hello_of(value: JsonValue) -> Option<OpCodeHello> {
    match value {
        JsonValue::Object(members) => match integer_of(field(members, "hbt_int"@), 65535) {
            Some(n) => Some(OpCodeHello { heart_beat: n as u16 }),
            None => None,
        },
        _ => None,
    }
}

/// The payload of `Login` that a document stands for.
pub open spec fn login_of(value: JsonValue) -> Option<OpCodeLoginView> {
    match value {
        JsonValue::Object(members) => match text_of(field(members, "token"@)) {
            Some(token) => Some(OpCodeLoginView { token }),
            None => None,
        },
        _ => None,
    }
}

/// The settings of a member of an object.
pub open spec fn settings_field(field: Field) -> Option<ClientSettings> {
    match field {
        Field::Found(value) => settings_of(value),
        _ => None,
    }
}

/// The payload of `INIT_STATE` that a document stands for.
pub open spec fn init_state_of(value: JsonValue) -> Option<EventInitStateView> {
    match value {
        JsonValue::Object(members) => match (
            user_field(field(members, "user"@)),
            settings_field(field(members, "settings"@)),
        ) {
            (Some(user), Some(settings)) => Some(EventInitStateView { user, settings }),
            _ => None,
        },
        _ => None,
    }
}

/// The payload of `TYPING_START` that a document stands for.
pub open spec fn typing_start_of(value: JsonValue) -> Option<EventTypingStart> {
    match value {
        JsonValue::Object(members) => match (
            id_of(field(members, "room_id"@)),
            id_of(field(members, "author_id"@)),
        ) {
            (Some(room_id), Some(user_id)) => Some(EventTypingStart { room_id, user_id }),
            _ => None,
        },
        _ => None,
    }
}

/// The event with the given name and payload.
pub open spec fn event_of(name: Seq<char>, data: JsonValue) -> Result<
    OpCodeEventView,
    DecodeError,
> {
    if name == "INIT_STATE"@ {
        match init_state_of(data) {
            Some(event) => Ok(OpCodeEventView::InitState(event)),
            None => Err(DecodeError::InvalidPayload),
        }
    } else if name == "HOUSE_JOIN"@ {
        match house_of(data) {
            Some(house) => Ok(OpCodeEventView::HouseJoin(house)),
            None => Err(DecodeError::InvalidPayload),
        }
    } else if name == "TYPING_START"@ {
        match typing_start_of(data) {
            Some(event) => Ok(OpCodeEventView::TypingStart(event)),
            None => Err(DecodeError::InvalidPayload),
        }
    } else if name == "MESSAGE_CREATE"@ {
        match message_of(data) {
            Some(message) => Ok(OpCodeEventView::MessageCreate(message)),
            None => Err(DecodeError::InvalidPayload),
        }
    } else {
        Err(DecodeError::UnknownEvent)
    }
}

/// Whether an event of this name is known.
pub open spec fn known_event(name: Seq<char>) -> bool {
    name == "INIT_STATE"@ || name == "HOUSE_JOIN"@ || name == "TYPING_START"@ || name
        == "MESSAGE_CREATE"@
}

/// Whether a frame may have a member with this key.
pub open spec fn known_key(key: Seq<char>) -> bool {
    key == "op"@ || key == "d"@ || key == "e"@ || key == "seq"@
}

/// Whether every member of the object has a key that a frame may have.
pub open spec fn all_keys_known(members: Seq<(Seq<char>, JsonValue)>) -> bool {
    forall|i: int| 0 <= i < members.len() ==> known_key((#[trigger] members[i]).0)
}

/// The frame with the given opcode, event name and payload, each as the
/// object holds it.
pub open spec fn frame_of_parts(op: Field, event: Field, data: Field) -> Result<
    FrameView,
    DecodeError,
> {
    if op is Repeated || event is Repeated || data is Repeated {
        Err(DecodeError::DuplicateField)
    } else if op is Missing {
        Err(DecodeError::MissingOpcode)
    } else if !(op matches Field::Found(JsonValue::Integer(n)) && n <= 255) {
        Err(DecodeError::InvalidOpcode)
    } else if !(event is Missing || event matches Field::Found(JsonValue::Text(_))) {
        Err(DecodeError::InvalidEvent)
    } else {
        let code = op->Found_0->Integer_0;
        if code == 0 {
            match (data, event) {
                (Field::Found(payload), Field::Found(JsonValue::Text(name))) => match event_of(
                    name,
                    payload,
                ) {
                    Ok(event) => Ok(FrameView::Event(event)),
                    Err(error) => Err(error),
                },
                (Field::Found(_), _) => Err(DecodeError::MissingEvent),
                _ => Err(DecodeError::MissingData),
            }
        } else if code == 1 {
            match data {
                Field::Found(payload) => match hello_of(payload) {
                    Some(hello) => Ok(FrameView::Hello(hello)),
                    None => Err(DecodeError::InvalidPayload),
                },
                _ => Err(DecodeError::MissingData),
            }
        } else if code == 2 {
            match data {
                Field::Found(payload) => match login_of(payload) {
                    Some(login) => Ok(FrameView::Login(login)),
                    None => Err(DecodeError::InvalidPayload),
                },
                _ => Err(DecodeError::MissingData),
            }
        } else if code == 3 {
            match data {
                Field::Found(_) => Err(DecodeError::UnexpectedData),
                _ => Ok(FrameView::HeartBeat),
            }
        } else {
            Err(DecodeError::UnknownOpcode(code as u8))
        }
    }
}

/// The frame that the members of an object stand for.
///
/// Where an object fails in more than one way, the error names the first
/// failure in this order, which does not depend on the order of the members:
/// an unknown member; a repeated `op`, `e` or `d`; a missing or an invalid
/// opcode; an event name that is no string; then what the opcode asks for,
/// the payload before the event's name and the name before what the payload
/// holds.
pub open spec fn frame_of_members(members: Seq<(Seq<char>, JsonValue)>) -> Result<
    FrameView,
    DecodeError,
> {
    if !all_keys_known(members) {
        Err(DecodeError::UnknownField)
    } else {
        frame_of_parts(field(members, "op"@), field(members, "e"@), field(members, "d"@))
    }
}

/// The frame that a document stands for.
pub open spec fn frame_of(value: JsonValue) -> Result<FrameView, DecodeError> {
    match value {
        JsonValue::Object(members) => frame_of_members(members),
        _ => Err(DecodeError::NotAnObject),
    }
}

/// The frame that a text stands for.
pub open spec fn decode_spec(text: Seq<char>) -> Result<FrameView, DecodeError> {
    match json_parse(text) {
        Some(value) => frame_of(value),
        None => Err(DecodeError::Syntax),
    }
}

/// The document that stands for a frame which a client may send.
pub open spec fn document_of(frame: FrameView) -> JsonValue
    recommends
        !(frame is Event),
{
    match frame {
        FrameView::Hello(hello) => JsonValue::Object(
            seq![
                ("op"@, JsonValue::Integer(1)),
                (
                    "d"@,
                    JsonValue::Object(seq![("hbt_int"@, JsonValue::Integer(hello.heart_beat as nat))]),
                ),
            ],
        ),
        FrameView::Login(login) => JsonValue::Object(
            seq![
                ("op"@, JsonValue::Integer(2)),
                ("d"@, JsonValue::Object(seq![("token"@, JsonValue::Text(login.token))])),
            ],
        ),
        _ => JsonValue::Object(seq![("op"@, JsonValue::Integer(3))]),
    }
}

/// The content of what the reading of an event gave.
pub open spec fn event_view(result: Result<OpCodeEvent, DecodeError>) -> Result<
    OpCodeEventView,
    DecodeError,
> {
    match result {
        Ok(event) => Ok(event@),
        Err(error) => Err(error),
    }
}

/// The content of what a decoding gave.
pub open spec fn decoded_view(result: Result<Frame, DecodeError>) -> Result<
    FrameView,
    DecodeError,
> {
    match result {
        Ok(frame) => Ok(frame@),
        Err(error) => Err(error),
    }
}

impl OpCodeHello {
    /// Reads the payload of `Hello`.
    pub fn from_json(json: &Json) -> (hello: Option<OpCodeHello>)
        ensures
            hello == hello_of(json@),
    {
        match json {
            Json::Object(members) => {
                proof {
                    lemma_object_view(*members);
                }
                let interval = read_integer(members, "hbt_int", 65535)?;
                Some(OpCodeHello { heart_beat: interval as u16 })
            },
            _ => None,
        }
    }
}

impl OpCodeLogin {
    /// Reads the payload of `Login`.
    pub fn from_json(json: &Json) -> (login: Option<OpCodeLogin>)
        ensures
            login is Some == login_of(json@) is Some,
            login matches Some(l) ==> login_of(json@) == Some(l@),
    {
        match json {
            Json::Object(members) => {
                proof {
                    lemma_object_view(*members);
                }
                let token = read_text(members, "token")?;
                Some(OpCodeLogin { token })
            },
            _ => None,
        }
    }
}

impl EventInitState {
    /// Reads the payload of `INIT_STATE`.
    pub fn from_json(json: &Json) -> (event: Option<EventInitState>)
        ensures
            event is Some == init_state_of(json@) is Some,
            event matches Some(e) ==> init_state_of(json@) == Some(e@),
    {
        match json {
            Json::Object(members) => {
                proof {
                    lemma_object_view(*members);
                }
                let user = match find(members, "user") {
                    Lookup::Found(value) => User::from_json(value)?,
                    _ => {
                        return None;
                    },
                };
                let settings = match find(members, "settings") {
                    Lookup::Found(value) => ClientSettings::from_json(value)?,
                    _ => {
                        return None;
                    },
                };
                Some(EventInitState { user, settings })
            },
            _ => None,
        }
    }
}

impl EventTypingStart {
    /// Reads the payload of `TYPING_START`.
    pub fn from_json(json: &Json) -> (event: Option<EventTypingStart>)
        ensures
            event == typing_start_of(json@),
    {
        match json {
            Json::Object(members) => {
                proof {
                    lemma_object_view(*members);
                }
                let room_id = read_id(members, "room_id")?;
                let user_id = read_id(members, "author_id")?;
                Some(EventTypingStart { room_id, user_id })
            },
            _ => None,
        }
    }
}

/// Reads a frame from the members of an object.
pub struct FrameVisitor;

impl FrameVisitor {
    /// What the visitor reads.
    pub fn expecting(&self) -> (what: &'static str)
        ensures
            what@ == "a hiven.io gateway websocket frame"@,
    {
        "a hiven.io gateway websocket frame"
    }

    /// Reads the payload of the event with the given name.
    pub fn deserialize_event(&self, event: &str, data: &Json) -> (result: Result<
        OpCodeEvent,
        DecodeError,
    >)
        ensures
            event_view(result) == event_of(event@, data@),
    {
        if spells(event, "INIT_STATE") {
            match EventInitState::from_json(data) {
                Some(payload) => Ok(OpCodeEvent::InitState(payload)),
                None => Err(DecodeError::InvalidPayload),
            }
        } else if spells(event, "HOUSE_JOIN") {
            match House::from_json(data) {
                Some(payload) => Ok(OpCodeEvent::HouseJoin(payload)),
                None => Err(DecodeError::InvalidPayload),
            }
        } else if spells(event, "TYPING_START") {
            match EventTypingStart::from_json(data) {
                Some(payload) => Ok(OpCodeEvent::TypingStart(payload)),
                None => Err(DecodeError::InvalidPayload),
            }
        } else if spells(event, "MESSAGE_CREATE") {
            match Message::from_json(data) {
                Some(payload) => Ok(OpCodeEvent::MessageCreate(payload)),
                None => Err(DecodeError::InvalidPayload),
            }
        } else {
            Err(DecodeError::UnknownEvent)
        }
    }

    /// Reads a frame from the members of an object, in whatever order they
    /// stand: first the opcode and the event's name are looked up, then the
    /// payload is read as they ask.
    pub fn visit_map(&self, members: &Vec<(String, Json)>) -> (result: Result<Frame, DecodeError>)
        ensures
            decoded_view(result) == frame_of_members(members_view(members@)),
    {
        let ghost view = members_view(members@);
        let mut i: usize = 0;
        while i < members.len()
            invariant
                i <= members.len(),
                view == members_view(members@),
                forall|j: int| 0 <= j < i ==> known_key((#[trigger] view[j]).0),
            decreases members.len() - i,
        {
            let key = members[i].0.as_str();
            if !(spells(key, "op") || spells(key, "d") || spells(key, "e") || spells(key, "seq")) {
                assert(!known_key(view[i as int].0));
                return Err(DecodeError::UnknownField);
            }
            i = i + 1;
        }
        let op = find(members, "op");
        let event = find(members, "e");
        let data = find(members, "d");
        match (&op, &event, &data) {
            (Lookup::Repeated, _, _) | (_, Lookup::Repeated, _) | (_, _, Lookup::Repeated) => {
                return Err(DecodeError::DuplicateField);
            },
            _ => {},
        }
        let code: u8 = match op {
            Lookup::Missing => {
                return Err(DecodeError::MissingOpcode);
            },
            Lookup::Found(Json::Integer(n)) => {
                if *n > 255 {
                    return Err(DecodeError::InvalidOpcode);
                }
                *n as u8
            },
            _ => {
                return Err(DecodeError::InvalidOpcode);
            },
        };
        let name: Option<&String> = match event {
            Lookup::Missing => None,
            Lookup::Found(Json::Text(name)) => Some(name),
            _ => {
                return Err(DecodeError::InvalidEvent);
            },
        };
        let payload: Option<&Json> = match data {
            Lookup::Found(payload) => Some(payload),
            _ => None,
        };
        match (code, payload) {
            (0, Some(payload)) => match name {
                Some(name) => match self.deserialize_event(name.as_str(), payload) {
                    Ok(decoded) => Ok(Frame::Event(decoded)),
                    Err(error) => Err(error),
                },
                None => Err(DecodeError::MissingEvent),
            },
            (1, Some(payload)) => match OpCodeHello::from_json(payload) {
                Some(hello) => Ok(Frame::Hello(hello)),
                None => Err(DecodeError::InvalidPayload),
            },
            (2, Some(payload)) => match OpCodeLogin::from_json(payload) {
                Some(login) => Ok(Frame::Login(login)),
                None => Err(DecodeError::InvalidPayload),
            },
            (3, Some(_)) => Err(DecodeError::UnexpectedData),
            (3, None) => Ok(Frame::HeartBeat),
            (0, None) | (1, None) | (2, None) => Err(DecodeError::MissingData),
            _ => Err(DecodeError::UnknownOpcode(code)),
        }
    }
}

impl Frame {
    /// Reads a frame from the document that stands for it.
    pub fn deserialize(json: &Json) -> (result: Result<Frame, DecodeError>)
        ensures
            decoded_view(result) == frame_of(json@),
    {
        match json {
            Json::Object(members) => {
                proof {
                    lemma_object_view(*members);
                }
                FrameVisitor.visit_map(members)
            },
            _ => Err(DecodeError::NotAnObject),
        }
    }
}

/// Decodes the text of a frame.
pub fn decode(text: &str) -> (result: Result<Frame, DecodeError>)
    ensures
        decoded_view(result) == decode_spec(text@),
{
    match Json::parse(text) {
        Some(json) => Frame::deserialize(&json),
        None => Err(DecodeError::Syntax),
    }
}

impl Frame {
    /// The document that stands for the frame. Only the frames that a client
    /// may send have one.
    pub fn serialize(&self) -> (json: Json)
        requires
            !(self is Event),
        ensures
            json@ == document_of(self@),
            json@.is_exact(),
    {
        let mut members: Vec<(String, Json)> = Vec::new();
        match self {
            Frame::Hello(hello) => {
                let mut payload: Vec<(String, Json)> = Vec::new();
                payload.push((String::from_str("hbt_int"), Json::Integer(hello.heart_beat as u64)));
                assert(members_view(payload@) =~= seq![
                    ("hbt_int"@, JsonValue::Integer(hello.heart_beat as nat)),
                ]);
                members.push((String::from_str("op"), Json::Integer(1)));
                members.push((String::from_str("d"), Json::object(payload)));
                assert(members_view(members@) =~= seq![
                    ("op"@, JsonValue::Integer(1)),
                    (
                        "d"@,
                        JsonValue::Object(
                            seq![("hbt_int"@, JsonValue::Integer(hello.heart_beat as nat))],
                        ),
                    ),
                ]);
            },
            Frame::Login(login) => {
                let mut payload: Vec<(String, Json)> = Vec::new();
                payload.push((String::from_str("token"), Json::Text(login.token.clone())));
                assert(members_view(payload@) =~= seq![("token"@, JsonValue::Text(login.token@))]);
                members.push((String::from_str("op"), Json::Integer(2)));
                members.push((String::from_str("d"), Json::object(payload)));
                assert(members_view(members@) =~= seq![
                    ("op"@, JsonValue::Integer(2)),
                    ("d"@, JsonValue::Object(seq![("token"@, JsonValue::Text(login.token@))])),
                ]);
            },
            _ => {
                members.push((String::from_str("op"), Json::Integer(3)));
                assert(members_view(members@) =~= seq![("op"@, JsonValue::Integer(3))]);
            },
        }
        proof {
            reveal_with_fuel(JsonValue::is_exact, 3);
        }
        Json::object(members)
    }
}

/// Encodes a frame that a client may send.
pub fn encode(frame: &Frame) -> (text: String)
    requires
        !(frame is Event),
    ensures
        text@ == json_text(document_of(frame@)),
{
    frame.serialize().render()
}

/// The keys of a frame are four different strings, and differ from the keys
/// of its payloads.
proof fn lemma_keys_differ()
    ensures
        "op"@ != "d"@,
        "op"@ != "e"@,
        "d"@ != "e"@,
        known_key("op"@),
        known_key("d"@),
{
    reveal_strlit("op");
    reveal_strlit("d");
    reveal_strlit("e");
    assert("op"@.len() == 2 && "d"@.len() == 1 && "e"@.len() == 1);
    assert("d"@[0] == 'd' && "e"@[0] == 'e');
}

/// Round trip: the document that stands for a frame which a client may send
/// is read back as that very frame.
pub proof fn lemma_round_trip(frame: FrameView)
    requires
        !(frame is Event),
    ensures
        frame_of(document_of(frame)) == Ok::<FrameView, DecodeError>(frame),
{
    lemma_keys_differ();
    match frame {
        FrameView::Hello(hello) => {
            let payload = JsonValue::Object(
                seq![("hbt_int"@, JsonValue::Integer(hello.heart_beat as nat))],
            );
            lemma_field_of_two("op"@, JsonValue::Integer(1), "d"@, payload, "e"@);
            lemma_field_of_one(
                "hbt_int"@,
                JsonValue::Integer(hello.heart_beat as nat),
                "hbt_int"@,
            );
            assert(hello_of(payload) == Some(hello));
        },
        FrameView::Login(login) => {
            let payload = JsonValue::Object(seq![("token"@, JsonValue::Text(login.token))]);
            lemma_field_of_two("op"@, JsonValue::Integer(2), "d"@, payload, "e"@);
            lemma_field_of_one("token"@, JsonValue::Text(login.token), "token"@);
            assert(login_of(payload) == Some(login));
        },
        _ => {
            lemma_field_of_one("op"@, JsonValue::Integer(3), "e"@);
            lemma_field_of_one("op"@, JsonValue::Integer(3), "d"@);
        },
    }
}

/// Decoding fails with `UnknownEvent` on the frames that are events in every
/// respect but the name, and on no others: the object has only members that
/// a frame may have, its opcode is 0, it has a payload, and its event name is
/// a string that names no known event.
pub proof fn lemma_when_an_event_is_unknown(members: Seq<(Seq<char>, JsonValue)>)
    ensures
        frame_of_members(members) == Err::<FrameView, DecodeError>(DecodeError::UnknownEvent)
            <==> {
            &&& all_keys_known(members)
            &&& field(members, "op"@) == Field::Found(JsonValue::Integer(0))
            &&& field(members, "d"@) is Found
            &&& field(members, "e"@) matches Field::Found(JsonValue::Text(name))
            &&& !known_event(name)
        },
{
}

/// A text that is read as the document of a frame decodes to that frame.
/// What is read from the text that was written for a document is for
/// `serde_json` to say; where it is that document, encoding and decoding
/// undo each other.
pub proof fn lemma_decode_encoded(frame: FrameView, text: Seq<char>)
    requires
        !(frame is Event),
        json_parse(text) == Some(document_of(frame)),
    ensures
        decode_spec(text) == Ok::<FrameView, DecodeError>(frame),
{
    lemma_round_trip(frame);
}

/// Whether `b` holds the members of `a` in another order: member `i` of `b`
/// is member `to[i]` of `a`, and member `i` of `a` is member `back[i]` of `b`.
pub open spec fn is_reordering<T>(a: Seq<T>, b: Seq<T>, to: Seq<int>, back: Seq<int>) -> bool {
    &&& a.len() == b.len()
    &&& to.len() == a.len()
    &&& back.len() == a.len()
    &&& forall|i: int|
        0 <= i < a.len() ==> 0 <= #[trigger] to[i] < a.len() && b[i] == a[to[i]] && back[to[i]]
            == i
    &&& forall|i: int|
        0 <= i < a.len() ==> 0 <= #[trigger] back[i] < a.len() && to[back[i]] == i
}

/// What an object holds under a key does not depend on the order of its
/// members.
pub proof fn lemma_field_reordered(
    a: Seq<(Seq<char>, JsonValue)>,
    b: Seq<(Seq<char>, JsonValue)>,
    to: Seq<int>,
    back: Seq<int>,
    key: Seq<char>,
)
    requires
        is_reordering(a, b, to, back),
    ensures
        field(a, key) == field(b, key),
{
    if has_key(a, key) {
        let i = choose|i: int| 0 <= i < a.len() && (#[trigger] a[i]).0 == key;
        assert(b[back[i]] == a[to[back[i]]]);
        assert(b[back[i]].0 == key);
    }
    if has_key(b, key) {
        let i = choose|i: int| 0 <= i < b.len() && (#[trigger] b[i]).0 == key;
        assert(a[to[i]].0 == key);
    }
    if repeats_key(a, key) {
        let (i, j) = choose|i: int, j: int|
            0 <= i < j < a.len() && (#[trigger] a[i]).0 == key && (#[trigger] a[j]).0 == key;
        assert(b[back[i]] == a[to[back[i]]]);
        assert(b[back[j]] == a[to[back[j]]]);
        if back[i] < back[j] {
            assert(b[back[i]].0 == key && b[back[j]].0 == key);
        } else {
            assert(b[back[j]].0 == key && b[back[i]].0 == key);
        }
    }
    if repeats_key(b, key) {
        let (i, j) = choose|i: int, j: int|
            0 <= i < j < b.len() && (#[trigger] b[i]).0 == key && (#[trigger] b[j]).0 == key;
        if to[i] < to[j] {
            assert(a[to[i]].0 == key && a[to[j]].0 == key);
        } else {
            assert(a[to[j]].0 == key && a[to[i]].0 == key);
        }
    }
    if has_key(a, key) && !repeats_key(a, key) {
        let i = choose|i: int| 0 <= i < a.len() && (#[trigger] a[i]).0 == key;
        assert(b[back[i]] == a[to[back[i]]]);
        lemma_field_found(a, key, i);
        lemma_field_found(b, key, back[i]);
    }
}

/// Whether two objects hold the same members, in whatever order.
pub open spec fn same_members(a: Seq<(Seq<char>, JsonValue)>, b: Seq<(Seq<char>, JsonValue)>)
    -> bool {
    exists|to: Seq<int>, back: Seq<int>| is_reordering(a, b, to, back)
}

/// Decoding does not depend on the order in which the members of a frame
/// are written: two objects that hold the same members stand for the same
/// frame, or fail in the same way.
pub proof fn lemma_order_independent(
    a: Seq<(Seq<char>, JsonValue)>,
    b: Seq<(Seq<char>, JsonValue)>,
)
    requires
        same_members(a, b),
    ensures
        frame_of_members(a) == frame_of_members(b),
{
    let (to, back) = choose|to: Seq<int>, back: Seq<int>| is_reordering(a, b, to, back);
    if !all_keys_known(a) {
        let i = choose|i: int| 0 <= i < a.len() && !known_key((#[trigger] a[i]).0);
        assert(b[back[i]] == a[to[back[i]]]);
        assert(!known_key(b[back[i]].0));
    }
    if !all_keys_known(b) {
        let i = choose|i: int| 0 <= i < b.len() && !known_key((#[trigger] b[i]).0);
        assert(!known_key(a[to[i]].0));
    }
    lemma_field_reordered(a, b, to, back, "op"@);
    lemma_field_reordered(a, b, to, back, "e"@);
    lemma_field_reordered(a, b, to, back, "d"@);
}

/// A frame of two members, such as an opcode and a payload, decodes to the
/// same whichever of the two is written first.
pub proof fn lemma_either_order(first: (Seq<char>, JsonValue), second: (Seq<char>, JsonValue))
    ensures
        frame_of_members(seq![first, second]) == frame_of_members(seq![second, first]),
{
    let swap = seq![1int, 0int];
    assert(is_reordering(seq![first, second], seq![second, first], swap, swap));
    lemma_order_independent(seq![first, second], seq![second, first]);
}

} // verus!
