//! The routing table: what the relay does with each decoded message.
//!
//! `Connected` is answered with a `Register` built from the relay's identity,
//! `RegisterSuccess` hands its id back to the caller, `Error` and `State` go
//! on to the bot and `Action` to the server, as the text that arrived. Every
//! other variant is refused.
use vstd::prelude::*;
use vstd::string::*;
use crate::channel::send_error_text;
use crate::json::{decimal, decimal_text};
use crate::message::{
    encode_text, serialize_message, tag_of, tag_text, Message, MessageView, Register,
};

verus! {

/// The two sides that the relay writes to.
#[derive(Debug, Clone, Copy, PartialEq, Eq, Hash, Structural)]
pub enum Outputs {
    Server,
    Bot,
}

/// What a handled message hands back to the caller.
#[derive(Debug, Clone, Copy, PartialEq, Eq, Structural)]
pub enum Response {
    /// The server assigned this id to the relay.
    SetID(i32),
    /// The message was dealt with; nothing for the caller.
    Empty,
}

/// The classes of handling failure.
#[derive(Debug, Clone, Copy, PartialEq, Eq, Structural)]
pub enum HandleErrorKind {
    /// The variant has no routing rule.
    UnknownMessageType,
    /// No channel is registered for the route the message needs.
    UndefinedOutput,
    /// The reply could not be written as text.
    Serialize,
    /// The registered channel refused the message: its receiver is gone.
    SendFailed,
}

#[derive(Debug)]
pub struct HandleError {
    pub kind: HandleErrorKind,
    pub msg: String,
}

pub open spec fn output_name(o: Outputs) -> Seq<char> {
    match o {
        Outputs::Server => "Server"@,
        Outputs::Bot => "Bot"@,
    }
}

/// What `{:?}` writes for a string: the string quoted, with Rust's escapes.
pub uninterp spec fn debug_quoted(s: Seq<char>) -> Seq<char>;

/// Relies on the `Debug` impl of `str`: the quoted, escaped string. The
/// result depends on `s` alone.
#[verifier::external_body]
fn debug_str(s: &str) -> (r: String)
    ensures
        r@ == debug_quoted(s@),
{
    format!("{:?}", s)
}

/// How a message is shown in an error: the `{:?}` form of the fixed-body
/// variants, and the tag of the others, whose fields are raw wire text.
pub open spec fn message_text(m: MessageView) -> Seq<char> {
    match m {
        MessageView::Connected => "Connected(Connected)"@,
        MessageView::RegisterSuccess { id } => "RegisterSuccess(RegisterSuccess { id: "@ + decimal(
            id as int,
        ) + " })"@,
        MessageView::Register { client_type, game, name } => "Register(Register { clientType: "@
            + debug_quoted(client_type) + ", game: "@ + debug_quoted(game) + ", name: "@
            + debug_quoted(name) + " })"@,
        _ => tag_of(m),
    }
}

pub open spec fn unknown_text(m: MessageView) -> Seq<char> {
    "unknown message type: "@ + message_text(m)
}

pub open spec fn undefined_output_text(o: Outputs) -> Seq<char> {
    "no output defined for "@ + output_name(o)
}

pub open spec fn serialize_text(msg_type: Seq<char>) -> Seq<char> {
    "unmarshal "@ + msg_type + " message"@
}

pub open spec fn send_text(reason: Seq<char>) -> Seq<char> {
    "send message: "@ + reason
}

impl HandleError {
    /// The message's variant has no routing rule.
    pub fn unknown(message: Message) -> (r: HandleError)
        ensures
            r.kind == HandleErrorKind::UnknownMessageType,
            r.msg@ == unknown_text(message@),
    {
        let shown = match &message {
            Message::Connected(_) => String::from_str("Connected(Connected)"),
            Message::RegisterSuccess(r) => String::from_str(
                "RegisterSuccess(RegisterSuccess { id: ",
            ).concat(decimal_text(r.id).as_str()).concat(" })"),
            Message::Register(r) => String::from_str("Register(Register { clientType: ").concat(
                debug_str(r.clientType.as_str()).as_str(),
            ).concat(", game: ").concat(debug_str(r.game.as_str()).as_str()).concat(
                ", name: ",
            ).concat(debug_str(r.name.as_str()).as_str()).concat(" })"),
            _ => tag_text(&message),
        };
        let msg = String::from_str("unknown message type: ").concat(shown.as_str());
        HandleError { kind: HandleErrorKind::UnknownMessageType, msg }
    }

    /// No channel is registered for `output`.
    pub fn undefined_output(output: &Outputs) -> (r: HandleError)
        ensures
            r.kind == HandleErrorKind::UndefinedOutput,
            r.msg@ == undefined_output_text(*output),
    {
        let name = match output {
            Outputs::Server => "Server",
            Outputs::Bot => "Bot",
        };
        let msg = String::from_str("no output defined for ").concat(name);
        HandleError { kind: HandleErrorKind::UndefinedOutput, msg }
    }

    /// A `msg_type` message could not be written as text.
    pub fn serialize(msg_type: &str) -> (r: HandleError)
        ensures
            r.kind == HandleErrorKind::Serialize,
            r.msg@ == serialize_text(msg_type@),
    {
        let msg = String::from_str("unmarshal ").concat(msg_type).concat(" message");
        HandleError { kind: HandleErrorKind::Serialize, msg }
    }

    /// A send failed for the reason given.
    pub fn send(msg: String) -> (r: HandleError)
        ensures
            r.kind == HandleErrorKind::SendFailed,
            r.msg@ == send_text(msg@),
    {
        let msg = String::from_str("send message: ").concat(msg.as_str());
        HandleError { kind: HandleErrorKind::SendFailed, msg }
    }

    pub fn kind(&self) -> (r: HandleErrorKind)
        ensures
            r == self.kind,
    {
        self.kind
    }

    /// The error's description.
    pub fn message(&self) -> (r: &String)
        ensures
            r@ == self.msg@,
    {
        &self.msg
    }
}

/// The identity that the relay registers with: its client type, the game it
/// plays and its name.
#[allow(non_snake_case)]
pub struct ClientConfig {
    pub clientType: String,
    pub game: String,
    pub name: String,
}

impl ClientConfig {
    /// The `Register` message that announces this identity.
    pub open spec fn register_view(&self) -> MessageView {
        MessageView::Register {
            client_type: self.clientType@,
            game: self.game@,
            name: self.name@,
        }
    }
}

/// What the routing table decides for one message.
pub enum Decision {
    /// Send this text on this route.
    Send(Outputs, Seq<char>),
    /// Hand the id back; send nothing.
    SetId(i32),
    /// The variant has no routing rule.
    Refuse,
}

/// The routing table. `json` is the text the message arrived as; forwarded
/// messages go on as that text, so fields the relay does not know survive.
pub open spec fn decide(identity: MessageView, json: Seq<char>, m: MessageView) -> Decision {
    match m {
        MessageView::Connected => Decision::Send(Outputs::Server, encode_text(identity)),
        MessageView::RegisterSuccess { id } => Decision::SetId(id),
        MessageView::Error { .. } => Decision::Send(Outputs::Bot, json),
        MessageView::State { .. } => Decision::Send(Outputs::Bot, json),
        MessageView::Action { .. } => Decision::Send(Outputs::Server, json),
        _ => Decision::Refuse,
    }
}

/// A decision of the routing table, with the text to send.
pub enum Dispatch {
    Send(Outputs, String),
    SetId(i32),
}

/// Handles decoded messages: answers, forwards or absorbs each one.
pub trait Handler {
    fn handle(&self, json: String, msg_type: Message) -> Result<Response, HandleError>;

    fn add_output_channel(&mut self, output_type: Outputs, channel: crossbeam_channel::Sender<String>);
}

/// The relay's handler: its identity and one channel per route at most.
pub struct MessageHandler {
    pub client_config: ClientConfig,
    pub server: Option<crossbeam_channel::Sender<String>>,
    pub bot: Option<crossbeam_channel::Sender<String>>,
}

impl MessageHandler {
    /// The channel registered for a route.
    pub open spec fn output(&self, o: Outputs) -> Option<crossbeam_channel::Sender<String>> {
        match o {
            Outputs::Server => self.server,
            Outputs::Bot => self.bot,
        }
    }

    /// A handler with this identity and no channel registered.
    pub fn new(client_config: ClientConfig) -> (r: MessageHandler)
        ensures
            r.client_config == client_config,
            r.output(Outputs::Server) is None,
            r.output(Outputs::Bot) is None,
    {
        MessageHandler { client_config, server: None, bot: None }
    }

    /// Registers `channel` for `output_type`, replacing any channel before it.
    pub fn add_output_channel(
        &mut self,
        output_type: Outputs,
        channel: crossbeam_channel::Sender<String>,
    )
        ensures
            final(self).client_config == old(self).client_config,
            final(self).output(output_type) == Some(channel),
            forall|o: Outputs| o != output_type ==> final(self).output(o) == old(self).output(o),
    {
        match output_type {
            Outputs::Server => self.server = Some(channel),
            Outputs::Bot => self.bot = Some(channel),
        }
    }

    /// The text of the `Register` message that answers `Connected`.
    fn register_text(&self) -> (r: Result<String, HandleError>)
        ensures
            r matches Ok(t) && t@ == encode_text(self.client_config.register_view()),
    {
        let register = Register {
            clientType: self.client_config.clientType.clone(),
            game: self.client_config.game.clone(),
            name: self.client_config.name.clone(),
        };
        match serialize_message(Message::Register(register)) {
            Ok(t) => Ok(t),
            Err(_) => Err(HandleError::serialize("register")),
        }
    }

    /// Decides what to do with a message, without doing it.
    pub fn dispatch(&self, json: String, msg_type: Message) -> (r: Result<Dispatch, HandleError>)
        ensures
            match decide(self.client_config.register_view(), json@, msg_type@) {
                Decision::Send(o, t) => r matches Ok(Dispatch::Send(p, u)) && p == o && u@ == t,
                Decision::SetId(id) => r matches Ok(Dispatch::SetId(i)) && i == id,
                Decision::Refuse => r matches Err(e) && e.kind == HandleErrorKind::UnknownMessageType
                    && e.msg@ == unknown_text(msg_type@),
            },
    {
        match msg_type {
            Message::Connected(_) => match self.register_text() {
                Ok(t) => Ok(Dispatch::Send(Outputs::Server, t)),
                Err(e) => Err(e),
            },
            Message::RegisterSuccess(rs) => Ok(Dispatch::SetId(rs.id)),
            Message::Error(_) => Ok(Dispatch::Send(Outputs::Bot, json)),
            Message::State(_) => Ok(Dispatch::Send(Outputs::Bot, json)),
            Message::Action(_) => Ok(Dispatch::Send(Outputs::Server, json)),
            _ => Err(HandleError::unknown(msg_type)),
        }
    }

    /// Sends `m` on the channel registered for `output`.
    pub fn send(&self, m: String, output: &Outputs) -> (r: Result<Response, HandleError>)
        ensures
            self.output(*output) is None ==> (r matches Err(e) && e.kind
                == HandleErrorKind::UndefinedOutput && e.msg@ == undefined_output_text(*output)),
            self.output(*output) is Some ==> r == Ok::<Response, HandleError>(Response::Empty) || (
            r matches Err(e) && e.kind == HandleErrorKind::SendFailed && e.msg@ == send_text(
                "sending on a disconnected channel"@,
            )),
    {
        let chan = match output {
            Outputs::Server => &self.server,
            Outputs::Bot => &self.bot,
        };
        match chan {
            None => Err(HandleError::undefined_output(output)),
            Some(c) => match c.send(m) {
                Ok(()) => Ok(Response::Empty),
                Err(e) => Err(HandleError::send(send_error_text(&e))),
            },
        }
    }

    /// What handling `m`, received as `json`, may return: the routing
    /// table's decision, carried out on the channel registered for its route.
    /// Whether a send goes through depends on the receiver.
    pub open spec fn handles(
        &self,
        json: Seq<char>,
        m: MessageView,
        r: Result<Response, HandleError>,
    ) -> bool {
        match decide(self.client_config.register_view(), json, m) {
            Decision::SetId(id) => r == Ok::<Response, HandleError>(Response::SetID(id)),
            Decision::Refuse => r matches Err(e) && e.kind == HandleErrorKind::UnknownMessageType
                && e.msg@ == unknown_text(m),
            Decision::Send(o, _) => if self.output(o) is None {
                r matches Err(e) && e.kind == HandleErrorKind::UndefinedOutput && e.msg@
                    == undefined_output_text(o)
            } else {
                r == Ok::<Response, HandleError>(Response::Empty) || (r matches Err(e) && e.kind
                    == HandleErrorKind::SendFailed && e.msg@ == send_text(
                    "sending on a disconnected channel"@,
                ))
            },
        }
    }

    /// Handles one message: does what the routing table decides for it.
    pub fn handle(&self, json: String, msg_type: Message) -> (r: Result<Response, HandleError>)
        ensures
            self.handles(json@, msg_type@, r),
    {
        match self.dispatch(json, msg_type) {
            Ok(Dispatch::SetId(id)) => Ok(Response::SetID(id)),
            Ok(Dispatch::Send(output, text)) => self.send(text, &output),
            Err(e) => Err(e),
        }
    }
}

impl Handler for MessageHandler {
    fn handle(&self, json: String, msg_type: Message) -> Result<Response, HandleError> {
        MessageHandler::handle(self, json, msg_type)
    }

    fn add_output_channel(&mut self, output_type: Outputs, channel: crossbeam_channel::Sender<String>) {
        MessageHandler::add_output_channel(self, output_type, channel)
    }
}

} // verus!
