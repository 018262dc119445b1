//! Writing the records of gateway events as the objects that stand for them
//! on the wire, and the law that ties writing to reading: what is written is
//! read back unchanged.
//!
//! A member that is optional and absent is written as `null`. Identifiers are
//! written as strings of decimal digits.

use vstd::prelude::*;
use vstd::string::*;
use crate::data::{
    ClientSettings, House, HouseView, Member, MemberView, Message, MessageView, Presence, Room,
    RoomView, Theme, User, UserView, house_of, member_of, member_views, message_of,
    optional_text_view, optional_theme_of, room_of, room_views, settings_of, user_of,
};
use crate::fields::{id_of, optional_id_of};
use crate::gateway::{
    DecodeError, EventInitState, EventInitStateView, EventTypingStart, OpCodeEvent,
    OpCodeEventView, event_of,
};
use crate::json::{
    Field, Json, JsonValue, field, items_view, lemma_exact_array, lemma_exact_object,
    lemma_field_at, members_view,
};
use crate::text::{decimal_digits, lemma_decimal_round_trip, u64_to_decimal};

verus! {

/// An optional string as a document.
pub open spec fn optional_text_value(text: Option<Seq<char>>) -> JsonValue {
    match text {
        Some(t) => JsonValue::Text(t),
        None => JsonValue::Null,
    }
}

/// An identifier as a document.
pub open spec fn id_value(id: u64) -> JsonValue {
    JsonValue::Text(decimal_digits(id as nat))
}

/// An optional identifier as a document.
pub open spec fn optional_id_value(id: Option<u64>) -> JsonValue {
    match id {
        Some(n) => id_value(n),
        None => JsonValue::Null,
    }
}

/// An optional truth value as a document.
pub open spec fn optional_bool_value(flag: Option<bool>) -> JsonValue {
    match flag {
        Some(b) => JsonValue::Bool(b),
        None => JsonValue::Null,
    }
}

/// A presence as a document.
pub open spec fn presence_value(presence: Presence) -> JsonValue {
    match presence {
        Presence::Offline => JsonValue::Text("offline"@),
        Presence::Online => JsonValue::Text("online"@),
    }
}

/// An optional theme as a document.
pub open spec fn optional_theme_value(theme: Option<Theme>) -> JsonValue {
    match theme {
        Some(Theme::Dark) => JsonValue::Text("dark"@),
        None => JsonValue::Null,
    }
}

/// The members of the object that stands for a user.
pub open spec fn user_members(user: UserView) -> Seq<(Seq<char>, JsonValue)> {
    seq![
        ("username"@, JsonValue::Text(user.username)),
        ("name"@, JsonValue::Text(user.name)),
        ("icon"@, optional_text_value(user.icon)),
        ("header"@, optional_text_value(user.header)),
        ("id"@, id_value(user.id)),
    ]
}

/// The object that stands for a user.
pub open spec fn user_document(user: UserView) -> JsonValue {
    JsonValue::Object(user_members(user))
}

/// The members of the object that stands for a user's settings.
pub open spec fn settings_members(settings: ClientSettings) -> Seq<(Seq<char>, JsonValue)> {
    seq![
        ("theme"@, optional_theme_value(settings.theme)),
        ("enable_desktop_notifications"@, optional_bool_value(settings.desktop_notifications)),
    ]
}

/// The object that stands for a user's settings.
pub open spec fn settings_document(settings: ClientSettings) -> JsonValue {
    JsonValue::Object(settings_members(settings))
}

/// The members of the object that stands for a member of a house.
pub open spec fn member_members(member: MemberView) -> Seq<(Seq<char>, JsonValue)> {
    seq![("user"@, user_document(member.user)), ("presence"@, presence_value(member.presence))]
}

/// The object that stands for a member of a house.
pub open spec fn member_document(member: MemberView) -> JsonValue {
    JsonValue::Object(member_members(member))
}

/// The members of the object that stands for a room.
pub open spec fn room_members(room: RoomView) -> Seq<(Seq<char>, JsonValue)> {
    seq![
        ("name"@, JsonValue::Text(room.name)),
        ("description"@, optional_text_value(room.description)),
        ("position"@, JsonValue::Integer(room.position)),
        ("last_message_id"@, optional_id_value(room.last_message_id)),
        ("id"@, id_value(room.id)),
    ]
}

/// The object that stands for a room.
pub open spec fn room_document(room: RoomView) -> JsonValue {
    JsonValue::Object(room_members(room))
}

/// The objects that stand for the members of a house.
pub open spec fn member_documents(list: Seq<MemberView>) -> Seq<JsonValue> {
    Seq::new(list.len(), |i: int| member_document(list[i]))
}

/// The objects that stand for the rooms of a house.
pub open spec fn room_documents(list: Seq<RoomView>) -> Seq<JsonValue> {
    Seq::new(list.len(), |i: int| room_document(list[i]))
}

/// The members of the object that stands for a house.
pub open spec fn house_members(house: HouseView) -> Seq<(Seq<char>, JsonValue)> {
    seq![
        ("name"@, JsonValue::Text(house.name)),
        ("icon"@, optional_text_value(house.icon)),
        ("members"@, JsonValue::Array(member_documents(house.members))),
        ("rooms"@, JsonValue::Array(room_documents(house.rooms))),
        ("id"@, id_value(house.id)),
        ("owner_id"@, id_value(house.owner_id)),
    ]
}

/// The object that stands for a house.
pub open spec fn house_document(house: HouseView) -> JsonValue {
    JsonValue::Object(house_members(house))
}

/// The members of the object that stands for a message.
pub open spec fn message_members(message: MessageView) -> Seq<(Seq<char>, JsonValue)> {
    seq![
        ("content"@, JsonValue::Text(message.content)),
        ("room_id"@, id_value(message.room_id)),
        ("author_id"@, id_value(message.author_id)),
    ]
}

/// The object that stands for a message.
pub open spec fn message_document(message: MessageView) -> JsonValue {
    JsonValue::Object(message_members(message))
}

/// The members of the payload of `INIT_STATE`.
pub open spec fn init_state_members(event: EventInitStateView) -> Seq<(Seq<char>, JsonValue)> {
    seq![("user"@, user_document(event.user)), ("settings"@, settings_document(event.settings))]
}

/// The payload of `INIT_STATE`.
pub open spec fn init_state_document(event: EventInitStateView) -> JsonValue {
    JsonValue::Object(init_state_members(event))
}

/// The members of the payload of `TYPING_START`.
pub open spec fn typing_start_members(event: EventTypingStart) -> Seq<(Seq<char>, JsonValue)> {
    seq![("room_id"@, id_value(event.room_id)), ("author_id"@, id_value(event.user_id))]
}

/// The payload of `TYPING_START`.
pub open spec fn typing_start_document(event: EventTypingStart) -> JsonValue {
    JsonValue::Object(typing_start_members(event))
}

/// The name under which an event travels.
pub open spec fn event_name(event: OpCodeEventView) -> Seq<char> {
    match event {
        OpCodeEventView::InitState(_) => "INIT_STATE"@,
        OpCodeEventView::HouseJoin(_) => "HOUSE_JOIN"@,
        OpCodeEventView::TypingStart(_) => "TYPING_START"@,
        OpCodeEventView::MessageCreate(_) => "MESSAGE_CREATE"@,
    }
}

/// The payload with which an event travels.
pub open spec fn event_document(event: OpCodeEventView) -> JsonValue {
    match event {
        OpCodeEventView::InitState(payload) => init_state_document(payload),
        OpCodeEventView::HouseJoin(house) => house_document(house),
        OpCodeEventView::TypingStart(payload) => typing_start_document(payload),
        OpCodeEventView::MessageCreate(message) => message_document(message),
    }
}

/// An identifier that is written is read back.
pub proof fn lemma_id_round_trip(id: u64)
    ensures
        id_of(Field::Found(id_value(id))) == Some(id),
        optional_id_of(Field::Found(id_value(id))) == Some(Some(id)),
{
    lemma_decimal_round_trip(id);
}

/// A user that is written is read back.
pub proof fn lemma_user_round_trip(user: UserView)
    ensures
        user_of(user_document(user)) == Some(user),
{
    reveal_strlit("username");
    reveal_strlit("name");
    reveal_strlit("icon");
    reveal_strlit("header");
    reveal_strlit("id");
    assert("username"@.len() == 8);
    assert("name"@.len() == 4);
    assert("icon"@.len() == 4);
    assert("header"@.len() == 6);
    assert("id"@.len() == 2);
    assert("name"@[0] != "icon"@[0]);
    let members = user_members(user);
    lemma_field_at(members, 0);
    lemma_field_at(members, 1);
    lemma_field_at(members, 2);
    lemma_field_at(members, 3);
    lemma_field_at(members, 4);
    lemma_id_round_trip(user.id);
}

/// Settings that are written are read back.
pub proof fn lemma_settings_round_trip(settings: ClientSettings)
    ensures
        settings_of(settings_document(settings)) == Some(settings),
{
    reveal_strlit("theme");
    reveal_strlit("dark");
    reveal_strlit("enable_desktop_notifications");
    assert("theme"@.len() == 5);
    assert("enable_desktop_notifications"@.len() == 28);
    assert("dark"@.len() == 4);
    let members = settings_members(settings);
    lemma_field_at(members, 0);
    lemma_field_at(members, 1);
    assert(optional_theme_of(field(members, "theme"@)) == Some(settings.theme));
}

/// A member of a house that is written is read back.
pub proof fn lemma_member_round_trip(member: MemberView)
    ensures
        member_of(member_document(member)) == Some(member),
{
    reveal_strlit("user");
    reveal_strlit("presence");
    reveal_strlit("offline");
    reveal_strlit("online");
    assert("user"@.len() == 4);
    assert("presence"@.len() == 8);
    assert("offline"@.len() == 7);
    assert("online"@.len() == 6);
    let members = member_members(member);
    lemma_field_at(members, 0);
    lemma_field_at(members, 1);
    lemma_user_round_trip(member.user);
}

/// A room that is written is read back.
pub proof fn lemma_room_round_trip(room: RoomView)
    requires
        room.position <= usize::MAX,
    ensures
        room_of(room_document(room)) == Some(room),
{
    reveal_strlit("name");
    reveal_strlit("description");
    reveal_strlit("position");
    reveal_strlit("last_message_id");
    reveal_strlit("id");
    assert("name"@.len() == 4);
    assert("description"@.len() == 11);
    assert("position"@.len() == 8);
    assert("last_message_id"@.len() == 15);
    assert("id"@.len() == 2);
    let members = room_members(room);
    lemma_field_at(members, 0);
    lemma_field_at(members, 1);
    lemma_field_at(members, 2);
    lemma_field_at(members, 3);
    lemma_field_at(members, 4);
    lemma_id_round_trip(room.id);
    if room.last_message_id is Some {
        lemma_id_round_trip(room.last_message_id->0);
    }
}

/// Whether every room of a list stands at a position that a machine can
/// hold.
pub open spec fn positions_fit(rooms: Seq<RoomView>) -> bool {
    forall|i: int| 0 <= i < rooms.len() ==> (#[trigger] rooms[i]).position <= usize::MAX
}

/// A house that is written is read back.
pub proof fn lemma_house_round_trip(house: HouseView)
    requires
        positions_fit(house.rooms),
    ensures
        house_of(house_document(house)) == Some(house),
{
    reveal_strlit("name");
    reveal_strlit("icon");
    reveal_strlit("members");
    reveal_strlit("rooms");
    reveal_strlit("id");
    reveal_strlit("owner_id");
    assert("name"@.len() == 4);
    assert("icon"@.len() == 4);
    assert("members"@.len() == 7);
    assert("rooms"@.len() == 5);
    assert("id"@.len() == 2);
    assert("owner_id"@.len() == 8);
    assert("name"@[0] != "icon"@[0]);
    let members = house_members(house);
    lemma_field_at(members, 0);
    lemma_field_at(members, 1);
    lemma_field_at(members, 2);
    lemma_field_at(members, 3);
    lemma_field_at(members, 4);
    lemma_field_at(members, 5);
    lemma_id_round_trip(house.id);
    lemma_id_round_trip(house.owner_id);
    let written_members = member_documents(house.members);
    assert forall|i: int| 0 <= i < written_members.len() implies member_of(
        #[trigger] written_members[i],
    ) == Some(house.members[i]) by {
        lemma_member_round_trip(house.members[i]);
    }
    assert(Seq::new(written_members.len(), |i: int| member_of(written_members[i])->0)
        =~= house.members);
    let written_rooms = room_documents(house.rooms);
    assert forall|i: int| 0 <= i < written_rooms.len() implies room_of(
        #[trigger] written_rooms[i],
    ) == Some(house.rooms[i]) by {
        lemma_room_round_trip(house.rooms[i]);
    }
    assert(Seq::new(written_rooms.len(), |i: int| room_of(written_rooms[i])->0) =~= house.rooms);
}

/// A message that is written is read back.
pub proof fn lemma_message_round_trip(message: MessageView)
    ensures
        message_of(message_document(message)) == Some(message),
{
    reveal_strlit("content");
    reveal_strlit("room_id");
    reveal_strlit("author_id");
    assert("content"@.len() == 7);
    assert("room_id"@.len() == 7);
    assert("author_id"@.len() == 9);
    assert("content"@[0] != "room_id"@[0]);
    let members = message_members(message);
    lemma_field_at(members, 0);
    lemma_field_at(members, 1);
    lemma_field_at(members, 2);
    lemma_id_round_trip(message.room_id);
    lemma_id_round_trip(message.author_id);
}

/// Whether the records that an event carries can all be held by a machine.
pub open spec fn event_fits(event: OpCodeEventView) -> bool {
    event matches OpCodeEventView::HouseJoin(house) ==> positions_fit(house.rooms)
}

/// An event that is written under its name is read back.
pub proof fn lemma_event_round_trip(event: OpCodeEventView)
    requires
        event_fits(event),
    ensures
        event_of(event_name(event), event_document(event)) == Ok::<
            OpCodeEventView,
            DecodeError,
        >(event),
{
    reveal_strlit("INIT_STATE");
    reveal_strlit("HOUSE_JOIN");
    reveal_strlit("TYPING_START");
    reveal_strlit("MESSAGE_CREATE");
    assert("INIT_STATE"@.len() == 10);
    assert("HOUSE_JOIN"@.len() == 10);
    assert("TYPING_START"@.len() == 12);
    assert("MESSAGE_CREATE"@.len() == 14);
    assert("INIT_STATE"@[0] != "HOUSE_JOIN"@[0]);
    match event {
        OpCodeEventView::InitState(payload) => {
            reveal_strlit("user");
            reveal_strlit("settings");
            assert("user"@.len() == 4);
            assert("settings"@.len() == 8);
            let members = init_state_members(payload);
            lemma_field_at(members, 0);
            lemma_field_at(members, 1);
            lemma_user_round_trip(payload.user);
            lemma_settings_round_trip(payload.settings);
        },
        OpCodeEventView::HouseJoin(house) => {
            lemma_house_round_trip(house);
        },
        OpCodeEventView::TypingStart(payload) => {
            reveal_strlit("room_id");
            reveal_strlit("author_id");
            assert("room_id"@.len() == 7);
            assert("author_id"@.len() == 9);
            let members = typing_start_members(payload);
            lemma_field_at(members, 0);
            lemma_field_at(members, 1);
            lemma_id_round_trip(payload.room_id);
            lemma_id_round_trip(payload.user_id);
        },
        OpCodeEventView::MessageCreate(message) => {
            lemma_message_round_trip(message);
        },
    }
}

/// A member of an object.
fn entry(key: &str, value: Json) -> (member: (String, Json))
    ensures
        member.0@ == key@,
        member.1 == value,
{
    (String::from_str(key), value)
}

/// Writes an optional string.
fn write_optional_text(text: &Option<String>) -> (json: Json)
    ensures
        json@ == optional_text_value(optional_text_view(*text)),
        json@.is_exact(),
{
    match text {
        Some(t) => Json::Text(t.clone()),
        None => Json::Null,
    }
}

/// Writes an identifier.
fn write_id(id: u64) -> (json: Json)
    ensures
        json@ == id_value(id),
        json@.is_exact(),
{
    Json::Text(u64_to_decimal(id))
}

/// Writes an optional identifier.
fn write_optional_id(id: Option<u64>) -> (json: Json)
    ensures
        json@ == optional_id_value(id),
        json@.is_exact(),
{
    match id {
        Some(n) => write_id(n),
        None => Json::Null,
    }
}

impl Presence {
    /// Writes the presence as the word that stands for it.
    pub fn to_json(&self) -> (json: Json)
        ensures
            json@ == presence_value(*self),
            json@.is_exact(),
    {
        match self {
            Presence::Offline => Json::Text(String::from_str("offline")),
            Presence::Online => Json::Text(String::from_str("online")),
        }
    }
}

impl User {
    /// Writes the user as the object that stands for it.
    pub fn to_json(&self) -> (json: Json)
        ensures
            json@ == user_document(self@),
            json@.is_exact(),
    {
        let mut members: Vec<(String, Json)> = Vec::new();
        members.push(entry("username", Json::Text(self.username.clone())));
        members.push(entry("name", Json::Text(self.name.clone())));
        members.push(entry("icon", write_optional_text(&self.icon)));
        members.push(entry("header", write_optional_text(&self.header)));
        members.push(entry("id", write_id(self.id)));
        proof {
            assert(members_view(members@) =~= user_members(self@));
            lemma_exact_object(members_view(members@));
        }
        Json::object(members)
    }
}

impl ClientSettings {
    /// Writes the settings as the object that stands for them.
    pub fn to_json(&self) -> (json: Json)
        ensures
            json@ == settings_document(*self),
            json@.is_exact(),
    {
        let theme = match self.theme {
            Some(Theme::Dark) => Json::Text(String::from_str("dark")),
            None => Json::Null,
        };
        let notifications = match self.desktop_notifications {
            Some(flag) => Json::Bool(flag),
            None => Json::Null,
        };
        let mut members: Vec<(String, Json)> = Vec::new();
        members.push(entry("theme", theme));
        members.push(entry("enable_desktop_notifications", notifications));
        proof {
            assert(members_view(members@) =~= settings_members(*self));
            lemma_exact_object(members_view(members@));
        }
        Json::object(members)
    }
}

impl Member {
    /// Writes the member as the object that stands for it.
    pub fn to_json(&self) -> (json: Json)
        ensures
            json@ == member_document(self@),
            json@.is_exact(),
    {
        let mut members: Vec<(String, Json)> = Vec::new();
        members.push(entry("user", self.user.to_json()));
        members.push(entry("presence", self.presence.to_json()));
        proof {
            assert(members_view(members@) =~= member_members(self@));
            lemma_exact_object(members_view(members@));
        }
        Json::object(members)
    }
}

impl Room {
    /// Writes the room as the object that stands for it.
    pub fn to_json(&self) -> (json: Json)
        ensures
            json@ == room_document(self@),
            json@.is_exact(),
    {
        let mut members: Vec<(String, Json)> = Vec::new();
        members.push(entry("name", Json::Text(self.name.clone())));
        members.push(entry("description", write_optional_text(&self.description)));
        members.push(entry("position", Json::Integer(self.position as u64)));
        members.push(entry("last_message_id", write_optional_id(self.last_message_id)));
        members.push(entry("id", write_id(self.id)));
        proof {
            assert(members_view(members@) =~= room_members(self@));
            lemma_exact_object(members_view(members@));
        }
        Json::object(members)
    }
}

/// Writes the members of a house as an array.
fn write_members(list: &Vec<Member>) -> (json: Json)
    ensures
        json@ == JsonValue::Array(member_documents(member_views(list@))),
        json@.is_exact(),
{
    let mut items: Vec<Json> = Vec::new();
    let mut i: usize = 0;
    while i < list.len()
        invariant
            i <= list.len(),
            items@.len() == i,
            forall|j: int|
                0 <= j < i ==> (#[trigger] items@[j])@ == member_document(list@[j]@) && items@[j]@.is_exact(),
        decreases list.len() - i,
    {
        items.push(list[i].to_json());
        i = i + 1;
    }
    proof {
        assert(items_view(items@) =~= member_documents(member_views(list@)));
        lemma_exact_array(items_view(items@));
    }
    Json::array(items)
}

/// Writes the rooms of a house as an array.
fn write_rooms(list: &Vec<Room>) -> (json: Json)
    ensures
        json@ == JsonValue::Array(room_documents(room_views(list@))),
        json@.is_exact(),
{
    let mut items: Vec<Json> = Vec::new();
    let mut i: usize = 0;
    while i < list.len()
        invariant
            i <= list.len(),
            items@.len() == i,
            forall|j: int|
                0 <= j < i ==> (#[trigger] items@[j])@ == room_document(list@[j]@) && items@[j]@.is_exact(),
        decreases list.len() - i,
    {
        items.push(list[i].to_json());
        i = i + 1;
    }
    proof {
        assert(items_view(items@) =~= room_documents(room_views(list@)));
        lemma_exact_array(items_view(items@));
    }
    Json::array(items)
}

impl House {
    /// Writes the house as the object that stands for it.
    pub fn to_json(&self) -> (json: Json)
        ensures
            json@ == house_document(self@),
            json@.is_exact(),
    {
        let mut members: Vec<(String, Json)> = Vec::new();
        members.push(entry("name", Json::Text(self.name.clone())));
        members.push(entry("icon", write_optional_text(&self.icon)));
        members.push(entry("members", write_members(&self.members)));
        members.push(entry("rooms", write_rooms(&self.rooms)));
        members.push(entry("id", write_id(self.id)));
        members.push(entry("owner_id", write_id(self.owner_id)));
        proof {
            assert(members_view(members@) =~= house_members(self@));
            lemma_exact_object(members_view(members@));
        }
        Json::object(members)
    }
}

impl Message {
    /// Writes the message as the object that stands for it.
    pub fn to_json(&self) -> (json: Json)
        ensures
            json@ == message_document(self@),
            json@.is_exact(),
    {
        let mut members: Vec<(String, Json)> = Vec::new();
        members.push(entry("content", Json::Text(self.content.clone())));
        members.push(entry("room_id", write_id(self.room_id)));
        members.push(entry("author_id", write_id(self.author_id)));
        proof {
            assert(members_view(members@) =~= message_members(self@));
            lemma_exact_object(members_view(members@));
        }
        Json::object(members)
    }
}

impl EventInitState {
    /// Writes the payload of `INIT_STATE`.
    pub fn to_json(&self) -> (json: Json)
        ensures
            json@ == init_state_document(self@),
            json@.is_exact(),
    {
        let mut members: Vec<(String, Json)> = Vec::new();
        members.push(entry("user", self.user.to_json()));
        members.push(entry("settings", self.settings.to_json()));
        proof {
            assert(members_view(members@) =~= init_state_members(self@));
            lemma_exact_object(members_view(members@));
        }
        Json::object(members)
    }
}

impl EventTypingStart {
    /// Writes the payload of `TYPING_START`.
    pub fn to_json(&self) -> (json: Json)
        ensures
            json@ == typing_start_document(*self),
            json@.is_exact(),
    {
        let mut members: Vec<(String, Json)> = Vec::new();
        members.push(entry("room_id", write_id(self.room_id)));
        members.push(entry("author_id", write_id(self.user_id)));
        proof {
            assert(members_view(members@) =~= typing_start_members(*self));
            lemma_exact_object(members_view(members@));
        }
        Json::object(members)
    }
}

impl OpCodeEvent {
    /// The name under which the event travels.
    pub fn name(&self) -> (name: &'static str)
        ensures
            name@ == event_name(self@),
    {
        match self {
            OpCodeEvent::InitState(_) => "INIT_STATE",
            OpCodeEvent::HouseJoin(_) => "HOUSE_JOIN",
            OpCodeEvent::TypingStart(_) => "TYPING_START",
            OpCodeEvent::MessageCreate(_) => "MESSAGE_CREATE",
        }
    }

    /// Writes the payload with which the event travels.
    pub fn to_json(&self) -> (json: Json)
        ensures
            json@ == event_document(self@),
            json@.is_exact(),
    {
        match self {
            OpCodeEvent::InitState(payload) => payload.to_json(),
            OpCodeEvent::HouseJoin(house) => house.to_json(),
            OpCodeEvent::TypingStart(payload) => payload.to_json(),
            OpCodeEvent::MessageCreate(message) => message.to_json(),
        }
    }
}

} // verus!
