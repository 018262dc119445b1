use hiven_rs::data::{ClientSettings, House, Member, Message, Presence, Room, Theme, User};
use hiven_rs::gateway::{
    decode, encode, DecodeError, EventInitState, EventTypingStart, Frame, FrameVisitor,
    OpCodeEvent, OpCodeHello, OpCodeLogin,
};
use hiven_rs::json::Json;

fn login(token: &str) -> Frame {
    Frame::Login(OpCodeLogin { token: token.to_string() })
}

#[test]
fn serilization_test() {
    assert_eq!(encode(&Frame::HeartBeat), "{\"op\":3}");
    assert_eq!(encode(&login("secret")), "{\"op\":2,\"d\":{\"token\":\"secret\"}}");
    assert_eq!(
        encode(&Frame::Hello(OpCodeHello { heart_beat: 30000 })),
        "{\"op\":1,\"d\":{\"hbt_int\":30000}}"
    );
}

#[test]
fn login_and_heartbeat_round_trip() {
    for frame in [
        Frame::HeartBeat,
        login("token"),
        login(""),
        login("with \"quotes\", a \\ and a\nline break"),
        login("snowman \u{2603} \u{1F600}"),
        Frame::Hello(OpCodeHello { heart_beat: 0 }),
        Frame::Hello(OpCodeHello { heart_beat: 65535 }),
    ] {
        assert_eq!(decode(&encode(&frame)), Ok(frame));
    }
}

#[test]
fn round_trip_through_documents() {
    for frame in [Frame::HeartBeat, login("token"), Frame::Hello(OpCodeHello { heart_beat: 50 })] {
        assert_eq!(Frame::deserialize(&frame.serialize()), Ok(frame));
    }
}

#[test]
fn hello_decodes_in_either_order() {
    let expected = Ok(Frame::Hello(OpCodeHello { heart_beat: 30000 }));
    assert_eq!(decode("{\"op\":1,\"d\":{\"hbt_int\":30000}}"), expected);
    assert_eq!(decode("{\"d\":{\"hbt_int\":30000},\"op\":1}"), expected);
}

#[test]
fn login_decodes_in_either_order() {
    let expected = Ok(login("abc"));
    assert_eq!(decode("{\"op\":2,\"d\":{\"token\":\"abc\"}}"), expected);
    assert_eq!(decode("{\"d\":{\"token\":\"abc\"},\"op\":2}"), expected);
}

#[test]
fn heartbeat_decodes_and_encodes() {
    assert_eq!(decode("{\"op\":3}"), Ok(Frame::HeartBeat));
    assert_eq!(encode(&Frame::HeartBeat), "{\"op\":3}");
}

#[test]
fn sequence_numbers_are_passed_over() {
    assert_eq!(decode("{\"seq\":7,\"op\":3}"), Ok(Frame::HeartBeat));
    assert_eq!(decode("{\"op\":3,\"seq\":null}"), Ok(Frame::HeartBeat));
    assert_eq!(
        decode("{\"seq\":1,\"d\":{\"hbt_int\":5},\"op\":1}"),
        Ok(Frame::Hello(OpCodeHello { heart_beat: 5 }))
    );
}

#[test]
fn unknown_opcode_fails() {
    assert_eq!(decode("{\"op\":99}"), Err(DecodeError::UnknownOpcode(99)));
    assert_eq!(decode("{\"op\":4,\"d\":{}}"), Err(DecodeError::UnknownOpcode(4)));
    assert_eq!(decode("{\"d\":{},\"op\":255}"), Err(DecodeError::UnknownOpcode(255)));
}

#[test]
fn unknown_event_fails_decoding() {
    assert_eq!(
        decode("{\"op\":0,\"e\":\"UNKNOWN_EVENT\",\"d\":{}}"),
        Err(DecodeError::UnknownEvent)
    );
    assert_eq!(
        decode("{\"d\":{},\"e\":\"UNKNOWN_EVENT\",\"op\":0}"),
        Err(DecodeError::UnknownEvent)
    );
}

#[test]
fn every_decode_error_has_an_input() {
    assert_eq!(decode("{\"op\":3"), Err(DecodeError::Syntax));
    assert_eq!(decode(""), Err(DecodeError::Syntax));
    assert_eq!(decode("[3]"), Err(DecodeError::NotAnObject));
    assert_eq!(decode("3"), Err(DecodeError::NotAnObject));
    assert_eq!(decode("{\"op\":3,\"x\":1}"), Err(DecodeError::UnknownField));
    assert_eq!(decode("{\"x\":1}"), Err(DecodeError::UnknownField));
    assert_eq!(decode("{}"), Err(DecodeError::MissingOpcode));
    assert_eq!(decode("{\"d\":{\"hbt_int\":1}}"), Err(DecodeError::MissingOpcode));
    assert_eq!(decode("{\"op\":\"3\"}"), Err(DecodeError::InvalidOpcode));
    assert_eq!(decode("{\"op\":256}"), Err(DecodeError::InvalidOpcode));
    assert_eq!(decode("{\"op\":-1}"), Err(DecodeError::InvalidOpcode));
    assert_eq!(decode("{\"op\":1.0}"), Err(DecodeError::InvalidOpcode));
    assert_eq!(decode("{\"op\":99}"), Err(DecodeError::UnknownOpcode(99)));
    assert_eq!(decode("{\"op\":0,\"e\":7,\"d\":{}}"), Err(DecodeError::InvalidEvent));
    assert_eq!(decode("{\"op\":0,\"e\":\"INIT_STATE\"}"), Err(DecodeError::MissingData));
    assert_eq!(decode("{\"op\":0}"), Err(DecodeError::MissingData));
    assert_eq!(decode("{\"op\":1}"), Err(DecodeError::MissingData));
    assert_eq!(decode("{\"op\":2}"), Err(DecodeError::MissingData));
    assert_eq!(decode("{\"op\":0,\"d\":{}}"), Err(DecodeError::MissingEvent));
    assert_eq!(decode("{\"op\":0,\"e\":\"NOPE\",\"d\":{}}"), Err(DecodeError::UnknownEvent));
    assert_eq!(decode("{\"op\":3,\"d\":{}}"), Err(DecodeError::UnexpectedData));
    assert_eq!(decode("{\"d\":null,\"op\":3}"), Err(DecodeError::UnexpectedData));
    assert_eq!(decode("{\"op\":1,\"d\":{}}"), Err(DecodeError::InvalidPayload));
    assert_eq!(decode("{\"op\":1,\"d\":{\"hbt_int\":65536}}"), Err(DecodeError::InvalidPayload));
    assert_eq!(decode("{\"op\":1,\"d\":{\"hbt_int\":\"5\"}}"), Err(DecodeError::InvalidPayload));
    assert_eq!(decode("{\"op\":2,\"d\":{\"token\":5}}"), Err(DecodeError::InvalidPayload));
    assert_eq!(decode("{\"op\":2,\"d\":[]}"), Err(DecodeError::InvalidPayload));
    assert_eq!(
        decode("{\"op\":0,\"e\":\"TYPING_START\",\"d\":{\"room_id\":\"1\"}}"),
        Err(DecodeError::InvalidPayload)
    );
}

#[test]
fn repeated_members_fail() {
    let heartbeat = || ("op".to_string(), Json::Integer(3));
    let twice = Json::Object(vec![heartbeat(), heartbeat()]);
    assert_eq!(Frame::deserialize(&twice), Err(DecodeError::DuplicateField));
    let events = Json::Object(vec![
        ("e".to_string(), Json::Text("A".to_string())),
        heartbeat(),
        ("e".to_string(), Json::Text("B".to_string())),
    ]);
    assert_eq!(Frame::deserialize(&events), Err(DecodeError::DuplicateField));
    let numbered = Json::Object(vec![
        ("seq".to_string(), Json::Integer(1)),
        heartbeat(),
        ("seq".to_string(), Json::Integer(2)),
    ]);
    assert_eq!(Frame::deserialize(&numbered), Ok(Frame::HeartBeat));
}

#[test]
fn an_unknown_member_outweighs_everything_else() {
    assert_eq!(decode("{\"op\":99,\"zzz\":1}"), Err(DecodeError::UnknownField));
    assert_eq!(decode("{\"zzz\":1,\"op\":3,\"d\":1}"), Err(DecodeError::UnknownField));
}

#[test]
fn an_event_name_is_ignored_outside_events() {
    assert_eq!(decode("{\"op\":3,\"e\":\"WHATEVER\"}"), Ok(Frame::HeartBeat));
    assert_eq!(decode("{\"op\":3,\"e\":5}"), Err(DecodeError::InvalidEvent));
}

fn typing_text(order: usize) -> &'static str {
    let texts = [
        "{\"op\":0,\"e\":\"TYPING_START\",\"d\":{\"room_id\":\"12\",\"author_id\":\"34\"}}",
        "{\"op\":0,\"d\":{\"room_id\":\"12\",\"author_id\":\"34\"},\"e\":\"TYPING_START\"}",
        "{\"e\":\"TYPING_START\",\"op\":0,\"d\":{\"author_id\":\"34\",\"room_id\":\"12\"}}",
        "{\"e\":\"TYPING_START\",\"d\":{\"room_id\":\"12\",\"author_id\":\"34\"},\"op\":0}",
        "{\"d\":{\"room_id\":\"12\",\"author_id\":\"34\"},\"op\":0,\"e\":\"TYPING_START\"}",
        "{\"d\":{\"room_id\":\"12\",\"author_id\":\"34\"},\"e\":\"TYPING_START\",\"op\":0}",
    ];
    texts[order]
}

#[test]
fn events_decode_in_every_order() {
    let expected = Ok(Frame::Event(OpCodeEvent::TypingStart(EventTypingStart {
        room_id: 12,
        user_id: 34,
    })));
    for order in 0..6 {
        assert_eq!(decode(typing_text(order)), expected);
    }
}

#[test]
fn message_create_decodes() {
    let text = "{\"op\":0,\"e\":\"MESSAGE_CREATE\",\"seq\":3,\"d\":{\"content\":\"hi\",\
        \"room_id\":\"18446744073709551615\",\"author_id\":\"7\",\"extra\":[1,2]}}";
    assert_eq!(
        decode(text),
        Ok(Frame::Event(OpCodeEvent::MessageCreate(Message {
            content: "hi".to_string(),
            room_id: u64::MAX,
            author_id: 7,
        })))
    );
    let too_large = "{\"op\":0,\"e\":\"MESSAGE_CREATE\",\"d\":{\"content\":\"hi\",\
        \"room_id\":\"18446744073709551616\",\"author_id\":\"7\"}}";
    assert_eq!(decode(too_large), Err(DecodeError::InvalidPayload));
    let as_number = "{\"op\":0,\"e\":\"MESSAGE_CREATE\",\"d\":{\"content\":\"hi\",\
        \"room_id\":1,\"author_id\":\"7\"}}";
    assert_eq!(decode(as_number), Err(DecodeError::InvalidPayload));
}

#[test]
fn init_state_decodes() {
    let text = "{\"op\":0,\"e\":\"INIT_STATE\",\"d\":{\"user\":{\"username\":\"ann\",\
        \"name\":\"Ann\",\"icon\":null,\"id\":\"5\"},\"settings\":{\"theme\":\"dark\",\
        \"enable_desktop_notifications\":true}}}";
    assert_eq!(
        decode(text),
        Ok(Frame::Event(OpCodeEvent::InitState(EventInitState {
            user: User {
                username: "ann".to_string(),
                name: "Ann".to_string(),
                icon: None,
                header: None,
                id: 5,
            },
            settings: ClientSettings { theme: Some(Theme::Dark), desktop_notifications: Some(true) },
        })))
    );
    let light = "{\"op\":0,\"e\":\"INIT_STATE\",\"d\":{\"user\":{\"username\":\"ann\",\
        \"name\":\"Ann\",\"id\":\"5\"},\"settings\":{\"theme\":\"light\"}}}";
    assert_eq!(decode(light), Err(DecodeError::InvalidPayload));
}

#[test]
fn house_join_decodes() {
    let text = "{\"op\":0,\"e\":\"HOUSE_JOIN\",\"d\":{\"name\":\"Home\",\"icon\":\"i.png\",\
        \"members\":[{\"user\":{\"username\":\"bob\",\"name\":\"Bob\",\"header\":\"h\",\
        \"id\":\"9\"},\"presence\":\"online\"},{\"user\":{\"username\":\"cy\",\"name\":\"Cy\",\
        \"id\":\"10\"},\"presence\":\"offline\"}],\"rooms\":[{\"name\":\"general\",\
        \"description\":null,\"position\":0,\"last_message_id\":\"77\",\"id\":\"3\"},\
        {\"name\":\"random\",\"position\":1,\"id\":\"4\"}],\"id\":\"1\",\"owner_id\":\"9\"}}";
    let house = House {
        name: "Home".to_string(),
        icon: Some("i.png".to_string()),
        members: vec![
            Member {
                user: User {
                    username: "bob".to_string(),
                    name: "Bob".to_string(),
                    icon: None,
                    header: Some("h".to_string()),
                    id: 9,
                },
                presence: Presence::Online,
            },
            Member {
                user: User {
                    username: "cy".to_string(),
                    name: "Cy".to_string(),
                    icon: None,
                    header: None,
                    id: 10,
                },
                presence: Presence::Offline,
            },
        ],
        rooms: vec![
            Room {
                name: "general".to_string(),
                description: None,
                position: 0,
                last_message_id: Some(77),
                id: 3,
            },
            Room {
                name: "random".to_string(),
                description: None,
                position: 1,
                last_message_id: None,
                id: 4,
            },
        ],
        id: 1,
        owner_id: 9,
    };
    assert_eq!(decode(text), Ok(Frame::Event(OpCodeEvent::HouseJoin(house))));
    let away = "{\"op\":0,\"e\":\"HOUSE_JOIN\",\"d\":{\"name\":\"Home\",\"members\":[{\"user\":\
        {\"username\":\"bob\",\"name\":\"Bob\",\"id\":\"9\"},\"presence\":\"away\"}],\
        \"rooms\":[],\"id\":\"1\",\"owner_id\":\"9\"}}";
    assert_eq!(decode(away), Err(DecodeError::InvalidPayload));
}

#[test]
fn the_visitor_reads_members_and_events() {
    let visitor = FrameVisitor;
    assert_eq!(visitor.expecting(), "a hiven.io gateway websocket frame");
    let members = vec![("op".to_string(), Json::Integer(3))];
    assert_eq!(visitor.visit_map(&members), Ok(Frame::HeartBeat));
    let payload = Json::Object(vec![
        ("room_id".to_string(), Json::Text("1".to_string())),
        ("author_id".to_string(), Json::Text("+2".to_string())),
    ]);
    assert_eq!(
        visitor.deserialize_event("TYPING_START", &payload),
        Ok(OpCodeEvent::TypingStart(EventTypingStart { room_id: 1, user_id: 2 }))
    );
    assert_eq!(visitor.deserialize_event("typing_start", &payload), Err(DecodeError::UnknownEvent));
    assert_eq!(
        visitor.deserialize_event("MESSAGE_CREATE", &payload),
        Err(DecodeError::InvalidPayload)
    );
}
