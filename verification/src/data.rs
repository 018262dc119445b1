//! The records that gateway events carry, and how each is read from the
//! object that stands for it on the wire.
//!
//! A record is an object. Members that the record does not know are passed
//! over; a member that it knows has to have the right kind, and may not occur
//! twice.

use vstd::prelude::*;
use crate::fields::{
    id_of, integer_of, optional_bool_of, optional_id_of, optional_text_of, read_id, read_integer,
    read_optional_bool, read_optional_id, read_optional_text, read_text, text_of,
};
use crate::json::{Field, Json, JsonValue, Lookup, field, find, items_view, lemma_array_view,
    lemma_object_view, members_view};
use crate::text::spells;

verus! {

/// Whether a user is around.
#[derive(Clone, Copy, Debug, PartialEq, Eq, Structural)]
pub enum Presence {
    Offline,
    Online,
}

/// The look of the client.
#[derive(Clone, Copy, Debug, PartialEq, Eq, Structural)]
pub enum Theme {
    Dark,
}

/// A user of the service.
#[derive(Clone, Debug, PartialEq, Eq)]
pub struct User {
    pub username: String,
    pub name: String,
    pub icon: Option<String>,
    pub header: Option<String>,
    pub id: u64,
}

/// What the client remembers of a user's choices.
#[derive(Clone, Copy, Debug, PartialEq, Eq, Structural)]
pub struct ClientSettings {
    pub theme: Option<Theme>,
    pub desktop_notifications: Option<bool>,
}

/// A user as a member of a house.
#[derive(Clone, Debug, PartialEq, Eq)]
pub struct Member {
    pub user: User,
    pub presence: Presence,
}

/// A channel of a house.
#[derive(Clone, Debug, PartialEq, Eq)]
pub struct Room {
    pub name: String,
    pub description: Option<String>,
    pub position: usize,
    pub last_message_id: Option<u64>,
    pub id: u64,
}

/// A community with its members and rooms.
#[derive(Clone, Debug, PartialEq, Eq)]
pub struct House {
    pub name: String,
    pub icon: Option<String>,
    pub members: Vec<Member>,
    pub rooms: Vec<Room>,
    pub id: u64,
    pub owner_id: u64,
}

/// A message posted in a room.
#[derive(Clone, Debug, PartialEq, Eq)]
pub struct Message {
    pub content: String,
    pub room_id: u64,
    pub author_id: u64,
}

/// The content of a [`User`].
pub struct UserView {
    pub username: Seq<char>,
    pub name: Seq<char>,
    pub icon: Option<Seq<char>>,
    pub header: Option<Seq<char>>,
    pub id: u64,
}

/// The content of a [`Member`].
pub struct MemberView {
    pub user: UserView,
    pub presence: Presence,
}

/// The content of a [`Room`].
pub struct RoomView {
    pub name: Seq<char>,
    pub description: Option<Seq<char>>,
    pub position: nat,
    pub last_message_id: Option<u64>,
    pub id: u64,
}

/// The content of a [`House`].
pub struct HouseView {
    pub name: Seq<char>,
    pub icon: Option<Seq<char>>,
    pub members: Seq<MemberView>,
    pub rooms: Seq<RoomView>,
    pub id: u64,
    pub owner_id: u64,
}

/// The content of a [`Message`].
pub struct MessageView {
    pub content: Seq<char>,
    pub room_id: u64,
    pub author_id: u64,
}

/// The content of an optional string.
pub open spec fn optional_text_view(text: Option<String>) -> Option<Seq<char>> {
    match text {
        Some(t) => Some(t@),
        None => None,
    }
}

impl View for User {
    type V = UserView;

    open spec fn view(&self) -> UserView {
        UserView {
            username: self.username@,
            name: self.name@,
            icon: optional_text_view(self.icon),
            header: optional_text_view(self.header),
            id: self.id,
        }
    }
}

impl View for Member {
    type V = MemberView;

    open spec fn view(&self) -> MemberView {
        MemberView { user: self.user@, presence: self.presence }
    }
}

impl View for Room {
    type V = RoomView;

    open spec fn view(&self) -> RoomView {
        RoomView {
            name: self.name@,
            description: optional_text_view(self.description),
            position: self.position as nat,
            last_message_id: self.last_message_id,
            id: self.id,
        }
    }
}

impl View for House {
    type V = HouseView;

    open spec fn view(&self) -> HouseView {
        HouseView {
            name: self.name@,
            icon: optional_text_view(self.icon),
            members: member_views(self.members@),
            rooms: room_views(self.rooms@),
            id: self.id,
            owner_id: self.owner_id,
        }
    }
}

impl View for Message {
    type V = MessageView;

    open spec fn view(&self) -> MessageView {
        MessageView { content: self.content@, room_id: self.room_id, author_id: self.author_id }
    }
}

/// The presence that a member of an object spells.
pub open spec fn presence_of(field: Field) -> Option<Presence> {
    match field {
        Field::Found(JsonValue::Text(word)) => if word == "offline"@ {
            Some(Presence::Offline)
        } else if word == "online"@ {
            Some(Presence::Online)
        } else {
            None
        },
        _ => None,
    }
}

/// The theme that a member of an object spells, if it is there; the outer
/// `None` stands for a member that spells none.
pub open spec fn optional_theme_of(field: Field) -> Option<Option<Theme>> {
    match field {
        Field::Missing => Some(None),
        Field::Found(JsonValue::Null) => Some(None),
        Field::Found(JsonValue::Text(word)) => if word == "dark"@ {
            Some(Some(Theme::Dark))
        } else {
            None
        },
        _ => None,
    }
}

/// The user that a document stands for.
pub open spec fn user_of(value: JsonValue) -> Option<UserView> {
    match value {
        JsonValue::Object(members) => match (
            text_of(field(members, "username"@)),
            text_of(field(members, "name"@)),
            optional_text_of(field(members, "icon"@)),
            optional_text_of(field(members, "header"@)),
            id_of(field(members, "id"@)),
        ) {
            (Some(username), Some(name), Some(icon), Some(header), Some(id)) => Some(
                UserView { username, name, icon, header, id },
            ),
            _ => None,
        },
        _ => None,
    }
}

/// The settings that a document stands for.
pub open spec fn settings_of(value: JsonValue) -> Option<ClientSettings> {
    match value {
        JsonValue::Object(members) => match (
            optional_theme_of(field(members, "theme"@)),
            optional_bool_of(field(members, "enable_desktop_notifications"@)),
        ) {
            (Some(theme), Some(desktop_notifications)) => Some(
                ClientSettings { theme, desktop_notifications },
            ),
            _ => None,
        },
        _ => None,
    }
}

/// The user of a member of an object.
pub open spec fn user_field(field: Field) -> Option<UserView> {
    match field {
        Field::Found(value) => user_of(value),
        _ => None,
    }
}

/// The member of a house that a document stands for.
pub open spec fn member_of(value: JsonValue) -> Option<MemberView> {
    match value {
        JsonValue::Object(members) => match (
            user_field(field(members, "user"@)),
            presence_of(field(members, "presence"@)),
        ) {
            (Some(user), Some(presence)) => Some(MemberView { user, presence }),
            _ => None,
        },
        _ => None,
    }
}

/// The room that a document stands for.
pub open spec fn room_of(value: JsonValue) -> Option<RoomView> {
    match value {
        JsonValue::Object(members) => match (
            text_of(field(members, "name"@)),
            optional_text_of(field(members, "description"@)),
            integer_of(field(members, "position"@), usize::MAX as nat),
            optional_id_of(field(members, "last_message_id"@)),
            id_of(field(members, "id"@)),
        ) {
            (Some(name), Some(description), Some(position), Some(last_message_id), Some(id)) => Some(
                RoomView { name, description, position, last_message_id, id },
            ),
            _ => None,
        },
        _ => None,
    }
}

/// The members that an array under a key stands for: every item has to be a
/// member.
pub open spec fn members_of(field: Field) -> Option<Seq<MemberView>> {
    match field {
        Field::Found(JsonValue::Array(items)) => if forall|i: int|
            0 <= i < items.len() ==> member_of(#[trigger] items[i]) is Some {
            Some(Seq::new(items.len(), |i: int| member_of(items[i])->0))
        } else {
            None
        },
        _ => None,
    }
}

/// The rooms that an array under a key stands for: every item has to be a
/// room.
pub open spec fn rooms_of(field: Field) -> Option<Seq<RoomView>> {
    match field {
        Field::Found(JsonValue::Array(items)) => if forall|i: int|
            0 <= i < items.len() ==> room_of(#[trigger] items[i]) is Some {
            Some(Seq::new(items.len(), |i: int| room_of(items[i])->0))
        } else {
            None
        },
        _ => None,
    }
}

/// The house that a document stands for.
pub open spec fn house_of(value: JsonValue) -> Option<HouseView> {
    match value {
        JsonValue::Object(members) => match (
            text_of(field(members, "name"@)),
            optional_text_of(field(members, "icon"@)),
            members_of(field(members, "members"@)),
            rooms_of(field(members, "rooms"@)),
            id_of(field(members, "id"@)),
            id_of(field(members, "owner_id"@)),
        ) {
            (Some(name), Some(icon), Some(house_members), Some(rooms), Some(id), Some(owner_id)) => Some(
                HouseView { name, icon, members: house_members, rooms, id, owner_id },
            ),
            _ => None,
        },
        _ => None,
    }
}

/// The message that a document stands for.
pub open spec fn message_of(value: JsonValue) -> Option<MessageView> {
    match value {
        JsonValue::Object(members) => match (
            text_of(field(members, "content"@)),
            id_of(field(members, "room_id"@)),
            id_of(field(members, "author_id"@)),
        ) {
            (Some(content), Some(room_id), Some(author_id)) => Some(
                MessageView { content, room_id, author_id },
            ),
            _ => None,
        },
        _ => None,
    }
}

impl Presence {
    /// Reads the presence under `key`.
    pub fn read(members: &Vec<(String, Json)>, key: &str) -> (presence: Option<Presence>)
        ensures
            presence == presence_of(field(members_view(members@), key@)),
    {
        match find(members, key) {
            Lookup::Found(Json::Text(word)) => if spells(word.as_str(), "offline") {
                Some(Presence::Offline)
            } else if spells(word.as_str(), "online") {
                Some(Presence::Online)
            } else {
                None
            },
            _ => None,
        }
    }
}

impl Theme {
    /// Reads the theme under `key`, if there is one.
    pub fn read_optional(members: &Vec<(String, Json)>, key: &str) -> (theme: Option<
        Option<Theme>,
    >)
        ensures
            theme == optional_theme_of(field(members_view(members@), key@)),
    {
        match find(members, key) {
            Lookup::Missing => Some(None),
            Lookup::Found(Json::Null) => Some(None),
            Lookup::Found(Json::Text(word)) => if spells(word.as_str(), "dark") {
                Some(Some(Theme::Dark))
            } else {
                None
            },
            _ => None,
        }
    }
}

impl User {
    /// Reads a user from the object that stands for it.
    pub fn from_json(json: &Json) -> (user: Option<User>)
        ensures
            user is Some == user_of(json@) is Some,
            user matches Some(u) ==> user_of(json@) == Some(u@),
    {
        match json {
            Json::Object(members) => {
                proof {
                    lemma_object_view(*members);
                }
                let username = read_text(members, "username")?;
                let name = read_text(members, "name")?;
                let icon = read_optional_text(members, "icon")?;
                let header = read_optional_text(members, "header")?;
                let id = read_id(members, "id")?;
                Some(User { username, name, icon, header, id })
            },
            _ => None,
        }
    }
}

impl ClientSettings {
    /// Reads the settings from the object that stands for them.
    pub fn from_json(json: &Json) -> (settings: Option<ClientSettings>)
        ensures
            settings == settings_of(json@),
    {
        match json {
            Json::Object(members) => {
                proof {
                    lemma_object_view(*members);
                }
                let theme = Theme::read_optional(members, "theme")?;
                let desktop_notifications = read_optional_bool(
                    members,
                    "enable_desktop_notifications",
                )?;
                Some(ClientSettings { theme, desktop_notifications })
            },
            _ => None,
        }
    }
}

impl Member {
    /// Reads a member of a house from the object that stands for it.
    pub fn from_json(json: &Json) -> (member: Option<Member>)
        ensures
            member is Some == member_of(json@) is Some,
            member matches Some(m) ==> member_of(json@) == Some(m@),
    {
        match json {
            Json::Object(members) => {
                proof {
                    lemma_object_view(*members);
                }
                let user = match find(members, "user") {
                    Lookup::Found(value) => User::from_json(value)?,
                    _ => {
                        return None;
                    },
                };
                let presence = Presence::read(members, "presence")?;
                Some(Member { user, presence })
            },
            _ => None,
        }
    }
}

impl Room {
    /// Reads a room from the object that stands for it.
    pub fn from_json(json: &Json) -> (room: Option<Room>)
        ensures
            room is Some == room_of(json@) is Some,
            room matches Some(r) ==> room_of(json@) == Some(r@),
    {
        match json {
            Json::Object(members) => {
                proof {
                    lemma_object_view(*members);
                }
                let name = read_text(members, "name")?;
                let description = read_optional_text(members, "description")?;
                let position = read_integer(members, "position", usize::MAX as u64)?;
                let last_message_id = read_optional_id(members, "last_message_id")?;
                let id = read_id(members, "id")?;
                Some(Room { name, description, position: position as usize, last_message_id, id })
            },
            _ => None,
        }
    }
}

impl Message {
    /// Reads a message from the object that stands for it.
    pub fn from_json(json: &Json) -> (message: Option<Message>)
        ensures
            message is Some == message_of(json@) is Some,
            message matches Some(m) ==> message_of(json@) == Some(m@),
    {
        match json {
            Json::Object(members) => {
                proof {
                    lemma_object_view(*members);
                }
                let content = read_text(members, "content")?;
                let room_id = read_id(members, "room_id")?;
                let author_id = read_id(members, "author_id")?;
                Some(Message { content, room_id, author_id })
            },
            _ => None,
        }
    }
}

/// The contents of a list of members.
pub open spec fn member_views(list: Seq<Member>) -> Seq<MemberView> {
    Seq::new(list.len(), |i: int| list[i]@)
}

/// The contents of a list of rooms.
pub open spec fn room_views(list: Seq<Room>) -> Seq<RoomView> {
    Seq::new(list.len(), |i: int| list[i]@)
}

/// Reads the array of members under `key`.
pub fn read_members(members: &Vec<(String, Json)>, key: &str) -> (list: Option<Vec<Member>>)
    ensures
        list is Some == members_of(field(members_view(members@), key@)) is Some,
        list matches Some(l) ==> members_of(field(members_view(members@), key@)) == Some(
            member_views(l@),
        ),
{
    match find(members, key) {
        Lookup::Found(Json::Array(items)) => {
            proof {
                lemma_array_view(*items);
            }
            let ghost values = items_view(items@);
            let mut list: Vec<Member> = Vec::new();
            let mut i: usize = 0;
            while i < items.len()
                invariant
                    i <= items.len(),
                    values == items_view(items@),
                    field(members_view(members@), key@) == Field::Found(JsonValue::Array(values)),
                    list@.len() == i,
                    forall|j: int| 0 <= j < i ==> member_of(#[trigger] values[j]) == Some(list@[j]@),
                decreases items.len() - i,
            {
                match Member::from_json(&items[i]) {
                    Some(member) => {
                        list.push(member);
                    },
                    None => {
                        assert(member_of(values[i as int]) is None);
                        return None;
                    },
                }
                i = i + 1;
            }
            assert(Seq::new(values.len(), |i: int| member_of(values[i])->0) =~= member_views(
                list@,
            ));
            Some(list)
        },
        _ => None,
    }
}

/// Reads the array of rooms under `key`.
pub fn read_rooms(members: &Vec<(String, Json)>, key: &str) -> (list: Option<Vec<Room>>)
    ensures
        list is Some == rooms_of(field(members_view(members@), key@)) is Some,
        list matches Some(l) ==> rooms_of(field(members_view(members@), key@)) == Some(
            room_views(l@),
        ),
{
    match find(members, key) {
        Lookup::Found(Json::Array(items)) => {
            proof {
                lemma_array_view(*items);
            }
            let ghost values = items_view(items@);
            let mut list: Vec<Room> = Vec::new();
            let mut i: usize = 0;
            while i < items.len()
                invariant
                    i <= items.len(),
                    values == items_view(items@),
                    field(members_view(members@), key@) == Field::Found(JsonValue::Array(values)),
                    list@.len() == i,
                    forall|j: int| 0 <= j < i ==> room_of(#[trigger] values[j]) == Some(list@[j]@),
                decreases items.len() - i,
            {
                match Room::from_json(&items[i]) {
                    Some(room) => {
                        list.push(room);
                    },
                    None => {
                        assert(room_of(values[i as int]) is None);
                        return None;
                    },
                }
                i = i + 1;
            }
            assert(Seq::new(values.len(), |i: int| room_of(values[i])->0) =~= room_views(list@));
            Some(list)
        },
        _ => None,
    }
}

impl House {
    /// Reads a house from the object that stands for it.
    pub fn from_json(json: &Json) -> (house: Option<House>)
        ensures
            house is Some == house_of(json@) is Some,
            house matches Some(h) ==> house_of(json@) == Some(h@),
    {
        match json {
            Json::Object(members) => {
                proof {
                    lemma_object_view(*members);
                }
                let name = read_text(members, "name")?;
                let icon = read_optional_text(members, "icon")?;
                let house_members = read_members(members, "members")?;
                let rooms = read_rooms(members, "rooms")?;
                let id = read_id(members, "id")?;
                let owner_id = read_id(members, "owner_id")?;
                Some(House { name, icon, members: house_members, rooms, id, owner_id })
            },
            _ => None,
        }
    }
}

} // verus!
