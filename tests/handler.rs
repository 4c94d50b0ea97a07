use game_relay::handler::{
    ClientConfig, Dispatch, HandleError, HandleErrorKind, Handler, MessageHandler, Outputs, Response,
};
use game_relay::message::{deserialize_message, serialize_message, Connected, Message, Register, RegisterSuccess};

fn default_client_config() -> ClientConfig {
    ClientConfig {
        clientType: "bot".to_string(),
        game: "test_game".to_string(),
        name: "test_bot".to_string(),
    }
}

struct HandleResult {
    channel_response: String,
    response: Response,
}

fn handle_message_and_get_results(msg_json: String, target_output_channel: Outputs) -> HandleResult {
    let mut handler = MessageHandler::new(default_client_config());

    let (sender, receiver) = crossbeam_channel::bounded(1);
    handler.add_output_channel(target_output_channel, sender);

    let msg_obj = deserialize_message(&msg_json).unwrap();
    let response = handler.handle(msg_json, msg_obj).unwrap();

    let channel_response = receiver.recv().unwrap();

    HandleResult { channel_response, response }
}

fn handle_message_as_proxy_and_expect_empty_response(input_msg_string: String, target_output_channel: Outputs) {
    let result = handle_message_and_get_results(input_msg_string.clone(), target_output_channel);
    assert_eq!(result.channel_response, input_msg_string);
    assert!(matches!(result.response, Response::Empty));
}

#[allow(non_snake_case)]
#[test]
fn handle_msg_register_success_receive_SetID_response() {
    let msg_reg_suc = Message::RegisterSuccess(RegisterSuccess { id: 1 });

    let handler = MessageHandler::new(default_client_config());
    let response = handler.handle("".to_string(), msg_reg_suc).unwrap();

    let ok = match response {
        Response::SetID(1) => true,
        _ => false,
    };
    assert_eq!(ok, true);
}

#[test]
fn handle_msg_connected_get_empty_response_and_send_register() {
    let message_json = r#"{"type": "Connected"}"#.to_string();
    let response_message = Message::Register(Register {
        clientType: default_client_config().clientType,
        game: default_client_config().game,
        name: default_client_config().name,
    });
    let expected_channel_response = serialize_message(response_message).unwrap();

    let result = handle_message_and_get_results(message_json, Outputs::Server);
    assert_eq!(result.channel_response, expected_channel_response);
    assert!(matches!(result.response, Response::Empty));
}

#[test]
fn handle_error_as_proxy() {
    handle_message_as_proxy_and_expect_empty_response(
        r#"{"type": "Error", "message": "You messed up"}"#.to_string(),
        Outputs::Bot,
    );
}

#[test]
fn handle_state_as_proxy() {
    handle_message_as_proxy_and_expect_empty_response(
        r#"{"type": "State", "game": 1, "key": "k", "turn": 0, "move": true, "state": {}}"#.to_string(),
        Outputs::Bot,
    );
}

#[test]
fn handle_action_as_proxy() {
    handle_message_as_proxy_and_expect_empty_response(
        r#"{"type": "Action", "game": 1, "key": "k", "action": {}}"#.to_string(),
        Outputs::Server,
    );
}

#[test]
fn trigger_unknown_error_by_handling_register_message() {
    let register_msg = Register {
        clientType: "x".to_string(),
        game: "y".to_string(),
        name: "z".to_string(),
    };
    let msg_json = serialize_message(Message::Register(register_msg.clone())).unwrap();

    let handler = MessageHandler::new(default_client_config());

    let response = handler.handle(msg_json, Message::Register(register_msg.clone()));

    let returned_err = response.err().unwrap();
    let expected_err = HandleError::unknown(Message::Register(register_msg));

    assert_eq!(returned_err.msg, expected_err.msg)
}

#[test]
fn trigger_undefined_output_error_by_not_adding_output_channel() {
    let msg_json = serialize_message(Message::Connected(Connected {})).unwrap();

    let handler = MessageHandler::new(default_client_config());

    let response = handler.handle(msg_json, Message::Connected(Connected {}));

    let returned_err = response.err().unwrap();
    let expected_err = HandleError::undefined_output(&Outputs::Server);

    assert_eq!(returned_err.msg, expected_err.msg)
}

#[test]
fn trigger_send_error_by_closing_receiver_channel() {
    let msg_json = serialize_message(Message::Connected(Connected {})).unwrap();

    let mut handler = MessageHandler::new(default_client_config());

    // The receiver is dropped at once, which closes the channel.
    let (sender, _) = crossbeam_channel::bounded(0);
    handler.add_output_channel(Outputs::Server, sender);

    let response = handler.handle(msg_json, Message::Connected(Connected {}));

    let returned_err = response.err().unwrap();
    let expected_err = HandleError::send("sending on a disconnected channel".to_string());

    assert_eq!(returned_err.msg, expected_err.msg)
}

#[test]
fn connected_is_answered_with_the_configured_register() {
    let (sender, receiver) = crossbeam_channel::bounded(1);
    let mut handler = MessageHandler::new(ClientConfig {
        clientType: "T".to_string(),
        game: "G".to_string(),
        name: "N".to_string(),
    });
    handler.add_output_channel(Outputs::Server, sender);
    let json = r#"{"type":"Connected"}"#.to_string();
    let msg = deserialize_message(&json).unwrap();
    assert!(matches!(handler.handle(json, msg), Ok(Response::Empty)));
    assert_eq!(
        receiver.try_recv().unwrap(),
        r#"{"type":"Register","clientType":"T","game":"G","name":"N"}"#
    );
}

#[test]
fn register_success_sends_nothing_and_assigns_the_id() {
    let (server_sender, server_receiver) = crossbeam_channel::bounded(1);
    let (bot_sender, bot_receiver) = crossbeam_channel::bounded(1);
    let mut handler = MessageHandler::new(default_client_config());
    handler.add_output_channel(Outputs::Server, server_sender);
    handler.add_output_channel(Outputs::Bot, bot_sender);
    let json = r#"{"type":"RegisterSuccess","id":7}"#.to_string();
    let msg = deserialize_message(&json).unwrap();
    assert!(matches!(handler.handle(json, msg), Ok(Response::SetID(7))));
    assert!(server_receiver.try_recv().is_err());
    assert!(bot_receiver.try_recv().is_err());
}

#[test]
fn unrouted_variants_are_refused() {
    let handler = MessageHandler::new(default_client_config());
    for (json, tag) in [
        (r#"{"type":"Start"}"#, "Start"),
        (r#"{"type":"Stop"}"#, "Stop"),
        (r#"{"type":"EngineAction"}"#, "EngineAction"),
        (r#"{"type":"EngineState"}"#, "EngineState"),
        (
            r#"{"type":"Register","clientType":"a","game":"b","name":"c"}"#,
            r#"Register(Register { clientType: "a", game: "b", name: "c" })"#,
        ),
    ] {
        let msg = deserialize_message(json).unwrap();
        let err = handler.handle(json.to_string(), msg).err().unwrap();
        assert_eq!(err.kind(), HandleErrorKind::UnknownMessageType);
        assert_eq!(err.message(), &format!("unknown message type: {}", tag));
    }
}

#[test]
fn error_texts_name_their_cause() {
    assert_eq!(HandleError::undefined_output(&Outputs::Bot).msg, "no output defined for Bot");
    assert_eq!(HandleError::undefined_output(&Outputs::Server).msg, "no output defined for Server");
    let e = HandleError::serialize("register");
    assert_eq!(e.msg, "unmarshal register message");
    assert_eq!(e.kind, HandleErrorKind::Serialize);
    let e = HandleError::send("gone".to_string());
    assert_eq!(e.msg, "send message: gone");
    assert_eq!(e.kind, HandleErrorKind::SendFailed);
}

#[test]
fn a_later_registration_replaces_the_earlier() {
    let (first_sender, first_receiver) = crossbeam_channel::bounded(1);
    let (second_sender, second_receiver) = crossbeam_channel::bounded(1);
    let mut handler = MessageHandler::new(default_client_config());
    handler.add_output_channel(Outputs::Bot, first_sender);
    handler.add_output_channel(Outputs::Bot, second_sender);
    let json = r#"{"type":"Error","message":"m"}"#.to_string();
    let msg = deserialize_message(&json).unwrap();
    assert!(matches!(handler.handle(json.clone(), msg), Ok(Response::Empty)));
    assert_eq!(second_receiver.try_recv().unwrap(), json);
    assert!(first_receiver.try_recv().is_err());
}

#[test]
fn forwarding_to_an_unregistered_bot_fails() {
    let handler = MessageHandler::new(default_client_config());
    let json = r#"{"type":"State","game":1,"key":"k","turn":0,"move":false,"state":null}"#.to_string();
    let msg = deserialize_message(&json).unwrap();
    let err = handler.handle(json, msg).err().unwrap();
    assert_eq!(err.kind(), HandleErrorKind::UndefinedOutput);
    assert_eq!(err.message(), "no output defined for Bot");
}

#[test]
fn dispatch_decides_without_sending() {
    let handler = MessageHandler::new(default_client_config());
    let json = r#"{"type":"Action","game":1,"key":"k","action":{}}"#.to_string();
    let msg = deserialize_message(&json).unwrap();
    match handler.dispatch(json.clone(), msg) {
        Ok(Dispatch::Send(Outputs::Server, text)) => assert_eq!(text, json),
        _ => panic!("Action goes to the server"),
    }
    match handler.dispatch(String::new(), Message::RegisterSuccess(RegisterSuccess { id: 3 })) {
        Ok(Dispatch::SetId(3)) => (),
        _ => panic!("RegisterSuccess sets the id"),
    }
}

#[test]
fn the_trait_reaches_the_same_handler() {
    let mut handler = MessageHandler::new(default_client_config());
    let (sender, receiver) = crossbeam_channel::bounded(1);
    Handler::add_output_channel(&mut handler, Outputs::Bot, sender);
    let json = r#"{"type":"Error","message":"m"}"#.to_string();
    let msg = deserialize_message(&json).unwrap();
    assert!(matches!(Handler::handle(&handler, json.clone(), msg), Ok(Response::Empty)));
    assert_eq!(receiver.try_recv().unwrap(), json);
}

#[test]
fn unknown_errors_show_the_message() {
    let register = Message::Register(Register {
        clientType: "x".to_string(),
        game: "y\"q".to_string(),
        name: "z".to_string(),
    });
    assert_eq!(
        HandleError::unknown(register).msg,
        r#"unknown message type: Register(Register { clientType: "x", game: "y\"q", name: "z" })"#
    );
    assert_eq!(
        HandleError::unknown(Message::RegisterSuccess(RegisterSuccess { id: -42 })).msg,
        "unknown message type: RegisterSuccess(RegisterSuccess { id: -42 })"
    );
    assert_eq!(
        HandleError::unknown(Message::Connected(Connected {})).msg,
        "unknown message type: Connected(Connected)"
    );
}
