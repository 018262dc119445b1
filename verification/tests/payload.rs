use hiven_rs::data::{ClientSettings, House, Member, Message, Presence, Room, Theme, User};
use hiven_rs::gateway::{EventInitState, EventTypingStart, FrameVisitor, OpCodeEvent};
use hiven_rs::json::Json;

fn user() -> User {
    User {
        username: "ann".to_string(),
        name: "Ann \"the\" First".to_string(),
        icon: Some("a.png".to_string()),
        header: None,
        id: 18446744073709551615,
    }
}

fn room() -> Room {
    Room {
        name: "general".to_string(),
        description: Some("talk".to_string()),
        position: 3,
        last_message_id: Some(0),
        id: 42,
    }
}

fn house() -> House {
    House {
        name: "Home".to_string(),
        icon: None,
        members: vec![
            Member { user: user(), presence: Presence::Online },
            Member { user: user(), presence: Presence::Offline },
        ],
        rooms: vec![room(), Room { description: None, last_message_id: None, ..room() }],
        id: 1,
        owner_id: 2,
    }
}

#[test]
fn identifiers_are_written_as_strings() {
    let message = Message { content: "hi".to_string(), room_id: 12, author_id: 345 };
    assert_eq!(
        message.to_json().render(),
        "{\"content\":\"hi\",\"room_id\":\"12\",\"author_id\":\"345\"}"
    );
    let typing = EventTypingStart { room_id: 0, user_id: u64::MAX };
    assert_eq!(
        typing.to_json().render(),
        "{\"room_id\":\"0\",\"author_id\":\"18446744073709551615\"}"
    );
}

#[test]
fn records_are_written_member_by_member() {
    assert_eq!(
        user().to_json().render(),
        "{\"username\":\"ann\",\"name\":\"Ann \\\"the\\\" First\",\"icon\":\"a.png\",\
         \"header\":null,\"id\":\"18446744073709551615\"}"
    );
    assert_eq!(
        room().to_json().render(),
        "{\"name\":\"general\",\"description\":\"talk\",\"position\":3,\
         \"last_message_id\":\"0\",\"id\":\"42\"}"
    );
    let settings = ClientSettings { theme: Some(Theme::Dark), desktop_notifications: None };
    assert_eq!(
        settings.to_json().render(),
        "{\"theme\":\"dark\",\"enable_desktop_notifications\":null}"
    );
    assert_eq!(Presence::Online.to_json(), Json::Text("online".to_string()));
    assert_eq!(Presence::Offline.to_json(), Json::Text("offline".to_string()));
}

#[test]
fn written_records_are_read_back() {
    assert_eq!(User::from_json(&user().to_json()), Some(user()));
    assert_eq!(Room::from_json(&room().to_json()), Some(room()));
    assert_eq!(House::from_json(&house().to_json()), Some(house()));
    let member = Member { user: user(), presence: Presence::Offline };
    assert_eq!(Member::from_json(&member.to_json()), Some(member));
    let message = Message { content: String::new(), room_id: 1, author_id: 2 };
    assert_eq!(Message::from_json(&message.to_json()), Some(message));
    for settings in [
        ClientSettings { theme: None, desktop_notifications: None },
        ClientSettings { theme: Some(Theme::Dark), desktop_notifications: Some(false) },
    ] {
        assert_eq!(ClientSettings::from_json(&settings.to_json()), Some(settings));
    }
}

#[test]
fn written_events_are_read_back_under_their_names() {
    let events = [
        OpCodeEvent::InitState(EventInitState {
            user: user(),
            settings: ClientSettings { theme: None, desktop_notifications: Some(true) },
        }),
        OpCodeEvent::HouseJoin(house()),
        OpCodeEvent::TypingStart(EventTypingStart { room_id: 7, user_id: 8 }),
        OpCodeEvent::MessageCreate(Message {
            content: "hi".to_string(),
            room_id: 7,
            author_id: 8,
        }),
    ];
    let names = ["INIT_STATE", "HOUSE_JOIN", "TYPING_START", "MESSAGE_CREATE"];
    for (event, name) in events.into_iter().zip(names) {
        assert_eq!(event.name(), name);
        assert_eq!(FrameVisitor.deserialize_event(event.name(), &event.to_json()), Ok(event));
    }
}

#[test]
fn records_of_the_wrong_shape_are_refused() {
    assert_eq!(User::from_json(&Json::Null), None);
    assert_eq!(User::from_json(&Json::Array(vec![])), None);
    assert_eq!(User::from_json(&Json::Object(vec![])), None);
    let mut twice = match user().to_json() {
        Json::Object(members) => members,
        other => panic!("not an object: {:?}", other),
    };
    twice.push(("id".to_string(), Json::Text("1".to_string())));
    assert_eq!(User::from_json(&Json::Object(twice)), None);
    let numbered = Json::Object(vec![
        ("content".to_string(), Json::Text("hi".to_string())),
        ("room_id".to_string(), Json::Integer(1)),
        ("author_id".to_string(), Json::Text("2".to_string())),
    ]);
    assert_eq!(Message::from_json(&numbered), None);
    let far = Json::Object(vec![
        ("name".to_string(), Json::Text("r".to_string())),
        ("position".to_string(), Json::OtherNumber),
        ("id".to_string(), Json::Text("2".to_string())),
    ]);
    assert_eq!(Room::from_json(&far), None);
}

#[test]
fn documents_that_cannot_be_written_are_told_apart() {
    assert!(user().to_json().is_exact());
    assert!(!Json::OtherNumber.is_exact());
    let nested = Json::Object(vec![(
        "list".to_string(),
        Json::Array(vec![Json::Integer(1), Json::OtherNumber]),
    )]);
    assert!(!nested.is_exact());
    assert_eq!(nested.try_render(), None);
    assert_eq!(Json::Array(vec![Json::Integer(1)]).try_render(), Some("[1]".to_string()));
}
