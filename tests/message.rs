use game_relay::message::{
    deserialize_message, serialize_message, Connected, DecodeFailure, Message, MessageContent,
    MessageError, Register, RegisterSuccess,
};

fn reserialize(msg: Message) {
    let json = serialize_message(clone_message(&msg)).unwrap();
    let target = deserialize_message(&json).unwrap();

    assert_eq!(target, msg);
}

fn clone_content(c: &MessageContent) -> MessageContent {
    MessageContent { content: c.content.clone() }
}

fn clone_message(m: &Message) -> Message {
    match m {
        Message::Connected(_) => Message::Connected(Connected {}),
        Message::RegisterSuccess(r) => Message::RegisterSuccess(RegisterSuccess { id: r.id }),
        Message::Register(r) => Message::Register(r.clone()),
        Message::Action(c) => Message::Action(clone_content(c)),
        Message::Error(c) => Message::Error(clone_content(c)),
        Message::State(c) => Message::State(clone_content(c)),
        Message::Start(c) => Message::Start(clone_content(c)),
        Message::Stop(c) => Message::Stop(clone_content(c)),
        Message::EngineAction(c) => Message::EngineAction(clone_content(c)),
        Message::EngineState(c) => Message::EngineState(clone_content(c)),
    }
}

fn deserialize_and_validate(msg_struct: Message, msg_json: &str) {
    let result = deserialize_message(msg_json).unwrap();

    assert_eq!(result, msg_struct);
}

fn state_content() -> MessageContent {
    content(&[
        ("game", "42"),
        ("key", r#""k""#),
        ("turn", "0"),
        ("move", "true"),
        ("state", r#"{"a":1}"#),
    ])
}

fn content(fields: &[(&str, &str)]) -> MessageContent {
    MessageContent {
        content: fields.iter().map(|(k, v)| (k.to_string(), v.to_string())).collect(),
    }
}

fn decode_reason(json: &str) -> DecodeFailure {
    match deserialize_message(json) {
        Err(MessageError::Deserialize { reason }) => reason,
        other => panic!("Expected an error when deserializing a json but got {:?}", other),
    }
}

#[test]
fn deserialising_invalid_json_should_return_an_error() {
    let err = deserialize_message("invalid_json");
    match err {
        Err(MessageError::Deserialize { .. }) => (),
        _ => panic!("Expected an error when deserializing a json but got {:?}", err),
    }
}

#[test]
fn deserialising_unknown_message_should_return_an_error() {
    let err = deserialize_message(r#"{"type": "Foo"}"#);
    match err {
        Err(MessageError::Deserialize { .. }) => {}
        _ => panic!("Expected an error when deserializing a json but got {:?}", err),
    }
}

#[test]
fn message_connected_reserialize() {
    reserialize(Message::Connected(Connected {}));
}

#[test]
fn message_connected_deserialize() {
    deserialize_and_validate(Message::Connected(Connected {}), r#"{"type": "Connected"}"#);
}

#[test]
fn message_register_success_reserialize() {
    reserialize(Message::RegisterSuccess(RegisterSuccess { id: 4884 }));
}

#[test]
fn message_register_success_deserialize() {
    deserialize_and_validate(
        Message::RegisterSuccess(RegisterSuccess { id: 4884 }),
        r#"{
            "type": "RegisterSuccess",
            "id": 4884
        }"#,
    );
}

fn register_message() -> Message {
    Message::Register(Register {
        game: "game".to_string(),
        name: "name".to_string(),
        clientType: "clientType".to_string(),
    })
}

#[test]
fn message_register_reserialize() {
    reserialize(register_message());
}

#[test]
fn message_register_deserialize() {
    deserialize_and_validate(
        register_message(),
        r#"{
            "type": "Register",
            "game": "game",
            "name": "name",
            "clientType": "clientType"
        }"#,
    );
}

#[test]
fn message_action_reserialize() {
    reserialize(Message::Error(content(&[("message", r#""You messed up""#)])));
}

#[test]
fn message_message_error_deserialize() {
    let action = r#"{
        "type": "Action",
        "game": 4884,
        "key": "key",
        "action": {"This can be": "anything"},
        "Can even add other fields": "doesn't matter"
    }"#;
    match deserialize_message(action).unwrap() {
        Message::Action(..) => (),
        _ => panic!("deserialise action"),
    }
}

#[test]
fn message_error_reserialize() {
    reserialize(Message::Error(content(&[("message", r#""You messed up""#)])));
}

#[test]
fn message_error_deserialize() {
    let error = r#"{
        "type": "Error",
        "message": "You messed up",
        "other fields": "anything"
    }"#;
    match deserialize_message(error).unwrap() {
        Message::Error(..) => (),
        _ => panic!("deserialise error"),
    }
}

#[test]
fn message_state_reserialize() {
    reserialize(Message::State(state_content()));
}

#[test]
fn message_state_deserialize() {
    let state = r#"{
        "type": "State",
        "game": 4884,
        "key": "value",
        "turn": 3,
        "move": false,
        "state": [1, 2, 3],
        "this": "is ignored"
    }"#;
    match deserialize_message(state).unwrap() {
        Message::State(..) => (),
        _ => panic!("deserialise state"),
    }
}

#[test]
fn every_variant_survives_a_round_trip() {
    let body = || content(&[("action", r#"{"a":[1,2.5,null]}"#), ("game", "1"), ("key", r#""k""#)]);
    reserialize(Message::Connected(Connected {}));
    reserialize(Message::RegisterSuccess(RegisterSuccess { id: -7 }));
    reserialize(Message::RegisterSuccess(RegisterSuccess { id: i32::MIN }));
    reserialize(Message::RegisterSuccess(RegisterSuccess { id: i32::MAX }));
    reserialize(Message::Register(Register {
        clientType: "bot \"quoted\"".to_string(),
        game: "tic\ntac\\toe".to_string(),
        name: "ünïcode ✓".to_string(),
    }));
    reserialize(Message::Action(body()));
    reserialize(Message::Error(content(&[("message", r#""bad move""#)])));
    reserialize(Message::State(state_content()));
    reserialize(Message::Start(body()));
    reserialize(Message::Stop(body()));
    reserialize(Message::EngineAction(body()));
    reserialize(Message::EngineState(body()));
}

#[test]
fn encoding_is_compact_with_type_first() {
    assert_eq!(serialize_message(Message::Connected(Connected {})).unwrap(), r#"{"type":"Connected"}"#);
    assert_eq!(
        serialize_message(Message::RegisterSuccess(RegisterSuccess { id: -12 })).unwrap(),
        r#"{"type":"RegisterSuccess","id":-12}"#
    );
    assert_eq!(
        serialize_message(Message::Register(Register {
            clientType: "a\"b".to_string(),
            game: "g".to_string(),
            name: "n".to_string(),
        }))
        .unwrap(),
        r#"{"type":"Register","clientType":"a\"b","game":"g","name":"n"}"#
    );
    assert_eq!(
        serialize_message(Message::Stop(content(&[("b", "[1, 2]"), ("a", "{}")]))).unwrap(),
        r#"{"type":"Stop","b":[1, 2],"a":{}}"#
    );
}

#[test]
fn forwarded_fields_keep_their_raw_text() {
    let m = deserialize_message(r#"{"type":"State","game":42,"key":"k","turn":0,"move":true,"state":{"a": 1}}"#)
        .unwrap();
    assert_eq!(
        m,
        Message::State(content(&[
            ("game", "42"),
            ("key", r#""k""#),
            ("move", "true"),
            ("state", r#"{"a": 1}"#),
            ("turn", "0"),
        ]))
    );
}

#[test]
fn start_stop_and_engine_tags_decode() {
    assert!(matches!(deserialize_message(r#"{"type":"Start","x":1}"#).unwrap(), Message::Start(_)));
    assert!(matches!(deserialize_message(r#"{"type":"Stop"}"#).unwrap(), Message::Stop(_)));
    assert!(matches!(
        deserialize_message(r#"{"type":"EngineAction"}"#).unwrap(),
        Message::EngineAction(_)
    ));
    assert!(matches!(
        deserialize_message(r#"{"type":"EngineState"}"#).unwrap(),
        Message::EngineState(_)
    ));
}

#[test]
fn each_decode_failure_has_its_reason() {
    assert_eq!(decode_reason("invalid_json"), DecodeFailure::NotAnObject);
    assert_eq!(decode_reason("[1,2]"), DecodeFailure::NotAnObject);
    assert_eq!(decode_reason(""), DecodeFailure::NotAnObject);
    assert_eq!(decode_reason(r#"{"nonsense":"x"}"#), DecodeFailure::MissingType);
    assert_eq!(decode_reason(r#"{"type":3}"#), DecodeFailure::InvalidField);
    assert_eq!(decode_reason(r#"{"type":"Foo"}"#), DecodeFailure::UnknownType);
    assert_eq!(decode_reason(r#"{"type":"connected"}"#), DecodeFailure::UnknownType);
    assert_eq!(decode_reason(r#"{"type":"RegisterSuccess"}"#), DecodeFailure::MissingField);
    assert_eq!(decode_reason(r#"{"type":"RegisterSuccess","id":"7"}"#), DecodeFailure::InvalidField);
    assert_eq!(decode_reason(r#"{"type":"RegisterSuccess","id":1.5}"#), DecodeFailure::InvalidField);
    assert_eq!(
        decode_reason(r#"{"type":"RegisterSuccess","id":4294967296}"#),
        DecodeFailure::InvalidField
    );
    assert_eq!(decode_reason(r#"{"type":"Register","game":"g","name":"n"}"#), DecodeFailure::MissingField);
    assert_eq!(decode_reason(r#"{"type":"State"}"#), DecodeFailure::MissingField);
    assert_eq!(decode_reason(r#"{"type":"Error"}"#), DecodeFailure::MissingField);
    assert_eq!(decode_reason(r#"{"type":"Action","game":1,"key":"k"}"#), DecodeFailure::MissingField);
    assert_eq!(decode_reason(r#"{"type":"Action","game":"1","key":"k","action":0}"#), DecodeFailure::InvalidField);
    assert_eq!(decode_reason(r#"{"type":"Error","message":7}"#), DecodeFailure::InvalidField);
    assert_eq!(
        decode_reason(r#"{"type":"State","game":1,"key":"k","turn":0,"move":1,"state":{}}"#),
        DecodeFailure::InvalidField
    );
    assert_eq!(
        decode_reason(r#"{"type":"State","game":1,"key":"k","turn":0.5,"move":true,"state":{}}"#),
        DecodeFailure::InvalidField
    );
    assert_eq!(
        decode_reason(r#"{"type":"Register","clientType":1,"game":"g","name":"n"}"#),
        DecodeFailure::InvalidField
    );
}

#[test]
fn escaped_strings_decode_to_their_value() {
    let m = deserialize_message(r#"{"type":"Register","clientType":"ab","game":"x\"y","name":""}"#)
        .unwrap();
    assert_eq!(
        m,
        Message::Register(Register {
            clientType: "ab".to_string(),
            game: "x\"y".to_string(),
            name: String::new(),
        })
    );
    assert!(matches!(
        deserialize_message(r#"{"type":"Connected"}"#).unwrap(),
        Message::Connected(_)
    ));
}

#[test]
fn content_in_any_order_survives_a_round_trip() {
    // The fields of a State in the order the protocol lists them, which is not
    // name order: decoding hands them back in name order, and equality of
    // contents does not depend on order.
    let m = Message::State(state_content());
    let text = serialize_message(clone_message(&m)).unwrap();
    assert_eq!(text, r#"{"type":"State","game":42,"key":"k","turn":0,"move":true,"state":{"a":1}}"#);
    assert_eq!(deserialize_message(&text).unwrap(), m);
    let a = MessageContent { content: vec![("x".to_string(), "1".to_string()), ("y".to_string(), "2".to_string())] };
    let b = MessageContent { content: vec![("y".to_string(), "2".to_string()), ("x".to_string(), "1".to_string())] };
    let c = MessageContent { content: vec![("y".to_string(), "2".to_string()), ("x".to_string(), "3".to_string())] };
    assert_eq!(a, b);
    assert_ne!(a, c);
}
