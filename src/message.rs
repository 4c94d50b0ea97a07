//! The protocol's messages and the codec between them and wire text.
//!
//! A message travels as one JSON object whose string field `type` names the
//! variant. `Connected`, `RegisterSuccess` and `Register` have a fixed body;
//! the other variants carry their fields uninterpreted, each as the raw JSON
//! text of its value, so that nothing a peer adds is lost. `Action`, `Error`
//! and `State` must still hold the fields the protocol requires of them, with
//! values of the right kind. JSON does not order an object's fields, so
//! neither does equality of message contents.
use vstd::prelude::*;
use vstd::string::*;
use crate::json::{
    decimal, fields_view, int_text, json_i32_value, json_object_fields, json_quoted,
    json_string_value, json_i64_value, object_text, parse_object, parse_string, parse_i32,
    parse_i64, quote, write_object, FieldsView,
};

verus! {

/// Why a wire text is not a message.
#[derive(Debug, Clone, Copy, PartialEq, Eq, Structural)]
pub enum DecodeFailure {
    /// The text is not one JSON object.
    NotAnObject,
    /// The object has no `type` field.
    MissingType,
    /// `type` names no variant of the protocol.
    UnknownType,
    /// A field that the variant needs is absent.
    MissingField,
    /// A field holds a value of the wrong kind.
    InvalidField,
}

#[derive(Debug)]
pub enum MessageError {
    Deserialize { reason: DecodeFailure },
    Serialize { source: serde_json::Error },
}

#[derive(Debug, PartialEq)]
pub struct Connected {}

#[derive(Debug, PartialEq)]
pub struct RegisterSuccess {
    pub id: i32,
}

#[allow(non_snake_case)]
#[derive(Debug, PartialEq, Clone)]
pub struct Register {
    pub clientType: String,
    pub game: String,
    pub name: String,
}

/// The fields of a forwarded message other than `type`: each name with the
/// raw JSON text of its value. Two contents are equal when they hold the same
/// fields, in whatever order.
#[derive(Debug)]
pub struct MessageContent {
    pub content: Vec<(String, String)>,
}

/// Does `b` hold every field of `a`?
fn holds_all(a: &Vec<(String, String)>, b: &Vec<(String, String)>) -> (r: bool)
    ensures
        r == fields_view(a@).to_set().subset_of(fields_view(b@).to_set()),
{
    let ghost av = fields_view(a@);
    let ghost bv = fields_view(b@);
    let mut i: usize = 0;
    while i < a.len()
        invariant
            i <= a.len(),
            av == fields_view(a@),
            bv == fields_view(b@),
            forall|k: int| 0 <= k < i ==> bv.to_set().contains(#[trigger] av[k]),
        decreases a.len() - i,
    {
        let mut j: usize = 0;
        let mut found = false;
        while j < b.len() && !found
            invariant
                i < a.len(),
                j <= b.len(),
                av == fields_view(a@),
                bv == fields_view(b@),
                found ==> bv.to_set().contains(av[i as int]),
                !found ==> forall|k: int| 0 <= k < j ==> bv[k] != av[i as int],
            decreases b.len() - j + (if found { 0int } else { 1int }),
        {
            if a[i].0 == b[j].0 && a[i].1 == b[j].1 {
                assert(bv[j as int] == av[i as int]);
                found = true;
            } else {
                j = j + 1;
            }
        }
        if !found {
            assert(!bv.to_set().contains(av[i as int]));
            assert(av.to_set().contains(av[i as int]));
            return false;
        }
        i = i + 1;
    }
    assert forall|x: (Seq<char>, Seq<char>)| av.to_set().contains(x) implies bv.to_set().contains(x) by {
        let k = choose|k: int| 0 <= k < av.len() && av[k] == x;
    }
    true
}

impl PartialEq for MessageContent {
    fn eq(&self, other: &MessageContent) -> (r: bool) {
        let covered = holds_all(&self.content, &other.content);
        let covering = holds_all(&other.content, &self.content);
        proof {
            let a = fields_view(self.content@).to_set();
            let b = fields_view(other.content@).to_set();
            if covered && covering {
                assert(a =~= b);
            }
        }
        covered && covering
    }
}

impl vstd::std_specs::cmp::PartialEqSpecImpl for MessageContent {
    open spec fn obeys_eq_spec() -> bool {
        true
    }

    open spec fn eq_spec(&self, other: &MessageContent) -> bool {
        fields_view(self.content@).to_set() == fields_view(other.content@).to_set()
    }
}

#[derive(Debug, PartialEq)]
pub enum Message {
    Connected(Connected),
    RegisterSuccess(RegisterSuccess),
    Register(Register),
    Action(MessageContent),
    Error(MessageContent),
    State(MessageContent),
    Start(MessageContent),
    Stop(MessageContent),
    EngineAction(MessageContent),
    EngineState(MessageContent),
}

/// A message as a mathematical value.
pub enum MessageView {
    Connected,
    RegisterSuccess { id: i32 },
    Register { client_type: Seq<char>, game: Seq<char>, name: Seq<char> },
    Action { content: FieldsView },
    Error { content: FieldsView },
    State { content: FieldsView },
    Start { content: FieldsView },
    Stop { content: FieldsView },
    EngineAction { content: FieldsView },
    EngineState { content: FieldsView },
}

impl View for Message {
    type V = MessageView;

    open spec fn view(&self) -> MessageView {
        match self {
            Message::Connected(_) => MessageView::Connected,
            Message::RegisterSuccess(r) => MessageView::RegisterSuccess { id: r.id },
            Message::Register(r) => MessageView::Register {
                client_type: r.clientType@,
                game: r.game@,
                name: r.name@,
            },
            Message::Action(c) => MessageView::Action { content: fields_view(c.content@) },
            Message::Error(c) => MessageView::Error { content: fields_view(c.content@) },
            Message::State(c) => MessageView::State { content: fields_view(c.content@) },
            Message::Start(c) => MessageView::Start { content: fields_view(c.content@) },
            Message::Stop(c) => MessageView::Stop { content: fields_view(c.content@) },
            Message::EngineAction(c) => MessageView::EngineAction {
                content: fields_view(c.content@),
            },
            Message::EngineState(c) => MessageView::EngineState {
                content: fields_view(c.content@),
            },
        }
    }
}

/// The value of the `type` field that names each variant.
pub open spec fn tag_of(m: MessageView) -> Seq<char> {
    match m {
        MessageView::Connected => "Connected"@,
        MessageView::RegisterSuccess { .. } => "RegisterSuccess"@,
        MessageView::Register { .. } => "Register"@,
        MessageView::Action { .. } => "Action"@,
        MessageView::Error { .. } => "Error"@,
        MessageView::State { .. } => "State"@,
        MessageView::Start { .. } => "Start"@,
        MessageView::Stop { .. } => "Stop"@,
        MessageView::EngineAction { .. } => "EngineAction"@,
        MessageView::EngineState { .. } => "EngineState"@,
    }
}

/// The uninterpreted fields of a forwarded variant; empty for the others.
pub open spec fn content_of(m: MessageView) -> FieldsView {
    match m {
        MessageView::Action { content } => content,
        MessageView::Error { content } => content,
        MessageView::State { content } => content,
        MessageView::Start { content } => content,
        MessageView::Stop { content } => content,
        MessageView::EngineAction { content } => content,
        MessageView::EngineState { content } => content,
        _ => Seq::empty(),
    }
}

/// No two fields share a name.
pub open spec fn distinct_names(fields: FieldsView) -> bool {
    forall|i: int, j: int| 0 <= i < j < fields.len() ==> fields[i].0 != fields[j].0
}

/// Two messages are the same up to the order of their uninterpreted fields,
/// which JSON does not fix.
pub open spec fn same_message(a: MessageView, b: MessageView) -> bool {
    &&& tag_of(a) == tag_of(b)
    &&& content_of(a).to_set() == content_of(b).to_set()
    &&& (a is Connected || a is RegisterSuccess || a is Register) ==> a == b
}

/// Two decodings agree: the same failure, or the same message up to the
/// order of its uninterpreted fields.
pub open spec fn same_decoding(
    a: Result<MessageView, DecodeFailure>,
    b: Result<MessageView, DecodeFailure>,
) -> bool {
    match (a, b) {
        (Ok(x), Ok(y)) => same_message(x, y),
        (Err(e), Err(f)) => e == f,
        _ => false,
    }
}

/// The message can travel: it carries no field of its own named `type`, which
/// would clash with the tag on the wire, and its body has the fields that its
/// variant requires.
pub open spec fn well_formed(m: MessageView) -> bool {
    &&& distinct_names(content_of(m))
    &&& forall|i: int| 0 <= i < content_of(m).len() ==> content_of(m)[i].0 != "type"@
    &&& body_failure(tag_of(m), content_of(m)) is None
}

/// The value of the first field with this name.
pub open spec fn find_field(fields: FieldsView, name: Seq<char>) -> Option<Seq<char>>
    decreases fields.len(),
{
    if fields.len() == 0 {
        None
    } else if fields[0].0 == name {
        Some(fields[0].1)
    } else {
        find_field(fields.drop_first(), name)
    }
}

/// The fields whose name is not `name`, in their order.
pub open spec fn without_field(fields: FieldsView, name: Seq<char>) -> FieldsView
    decreases fields.len(),
{
    if fields.len() == 0 {
        fields
    } else if fields.last().0 == name {
        without_field(fields.drop_last(), name)
    } else {
        without_field(fields.drop_last(), name).push(fields.last())
    }
}

/// The string held by a named field.
pub open spec fn string_field(fields: FieldsView, name: Seq<char>) -> Result<Seq<char>, DecodeFailure> {
    match find_field(fields, name) {
        None => Err(DecodeFailure::MissingField),
        Some(raw) => match json_string_value(raw) {
            None => Err(DecodeFailure::InvalidField),
            Some(s) => Ok(s),
        },
    }
}

/// The kind of value a required field holds.
#[derive(Debug, Clone, Copy, PartialEq, Eq, Structural)]
pub enum FieldKind {
    Integer,
    Text,
    Boolean,
    /// Any JSON value, kept uninterpreted.
    Value,
}

/// Is `raw` the text of a JSON value of this kind?
pub open spec fn has_kind(raw: Seq<char>, kind: FieldKind) -> bool {
    match kind {
        FieldKind::Integer => json_i64_value(raw) is Some,
        FieldKind::Text => json_string_value(raw) is Some,
        FieldKind::Boolean => raw == "true"@ || raw == "false"@,
        FieldKind::Value => true,
    }
}

/// What is wrong with a required field, if anything.
pub open spec fn field_failure(fields: FieldsView, name: Seq<char>, kind: FieldKind) -> Option<DecodeFailure> {
    match find_field(fields, name) {
        None => Some(DecodeFailure::MissingField),
        Some(raw) => if has_kind(raw, kind) {
            None
        } else {
            Some(DecodeFailure::InvalidField)
        },
    }
}

/// The first failure in a list of field checks.
pub open spec fn first_failure(checks: Seq<Option<DecodeFailure>>) -> Option<DecodeFailure>
    decreases checks.len(),
{
    if checks.len() == 0 {
        None
    } else if checks[0] is Some {
        checks[0]
    } else {
        first_failure(checks.drop_first())
    }
}

/// What is wrong with the body of a forwarded message: `Action` needs an
/// integer `game`, a string `key` and an `action`; `Error` a string
/// `message`; `State` an integer `game`, a string `key`, an integer `turn`, a
/// boolean `move` and a `state`. The other variants need nothing.
pub open spec fn body_failure(tag: Seq<char>, fields: FieldsView) -> Option<DecodeFailure> {
    if tag == "Action"@ {
        first_failure(seq![
            field_failure(fields, "game"@, FieldKind::Integer),
            field_failure(fields, "key"@, FieldKind::Text),
            field_failure(fields, "action"@, FieldKind::Value),
        ])
    } else if tag == "Error"@ {
        first_failure(seq![field_failure(fields, "message"@, FieldKind::Text)])
    } else if tag == "State"@ {
        first_failure(seq![
            field_failure(fields, "game"@, FieldKind::Integer),
            field_failure(fields, "key"@, FieldKind::Text),
            field_failure(fields, "turn"@, FieldKind::Integer),
            field_failure(fields, "move"@, FieldKind::Boolean),
            field_failure(fields, "state"@, FieldKind::Value),
        ])
    } else {
        None
    }
}

/// The message that a tag and the object's fields make.
pub open spec fn decode_tagged(tag: Seq<char>, fields: FieldsView) -> Result<MessageView, DecodeFailure> {
    let content = without_field(fields, "type"@);
    if tag == "Connected"@ {
        Ok(MessageView::Connected)
    } else if tag == "RegisterSuccess"@ {
        match find_field(fields, "id"@) {
            None => Err(DecodeFailure::MissingField),
            Some(raw) => match json_i32_value(raw) {
                None => Err(DecodeFailure::InvalidField),
                Some(id) => Ok(MessageView::RegisterSuccess { id }),
            },
        }
    } else if tag == "Register"@ {
        match string_field(fields, "clientType"@) {
            Err(e) => Err(e),
            Ok(client_type) => match string_field(fields, "game"@) {
                Err(e) => Err(e),
                Ok(game) => match string_field(fields, "name"@) {
                    Err(e) => Err(e),
                    Ok(name) => Ok(MessageView::Register { client_type, game, name }),
                },
            },
        }
    } else if body_failure(tag, fields) is Some {
        Err(body_failure(tag, fields)->0)
    } else if tag == "Action"@ {
        Ok(MessageView::Action { content })
    } else if tag == "Error"@ {
        Ok(MessageView::Error { content })
    } else if tag == "State"@ {
        Ok(MessageView::State { content })
    } else if tag == "Start"@ {
        Ok(MessageView::Start { content })
    } else if tag == "Stop"@ {
        Ok(MessageView::Stop { content })
    } else if tag == "EngineAction"@ {
        Ok(MessageView::EngineAction { content })
    } else if tag == "EngineState"@ {
        Ok(MessageView::EngineState { content })
    } else {
        Err(DecodeFailure::UnknownType)
    }
}

/// The message that the fields of a JSON object make.
pub open spec fn decode_fields(fields: FieldsView) -> Result<MessageView, DecodeFailure> {
    match find_field(fields, "type"@) {
        None => Err(DecodeFailure::MissingType),
        Some(raw) => match json_string_value(raw) {
            None => Err(DecodeFailure::InvalidField),
            Some(tag) => decode_tagged(tag, fields),
        },
    }
}

/// The message that a wire text holds.
pub open spec fn decode_text(text: Seq<char>) -> Result<MessageView, DecodeFailure> {
    match json_object_fields(text) {
        None => Err(DecodeFailure::NotAnObject),
        Some(fields) => decode_fields(fields),
    }
}

/// The fields that stand for a message on the wire: `type` first, then its body.
pub open spec fn message_fields(m: MessageView) -> FieldsView {
    seq![("type"@, json_quoted(tag_of(m)))] + match m {
        MessageView::Connected => Seq::empty(),
        MessageView::RegisterSuccess { id } => seq![("id"@, decimal(id as int))],
        MessageView::Register { client_type, game, name } => seq![
            ("clientType"@, json_quoted(client_type)),
            ("game"@, json_quoted(game)),
            ("name"@, json_quoted(name)),
        ],
        _ => content_of(m),
    }
}

/// The wire text of a message.
pub open spec fn encode_text(m: MessageView) -> Seq<char> {
    object_text(message_fields(m))
}

/// A field lookup that skips leading fields of another name.
proof fn lemma_find_field_skip(fields: FieldsView, name: Seq<char>, i: int)
    requires
        0 <= i <= fields.len(),
        forall|j: int| 0 <= j < i ==> fields[j].0 != name,
    ensures
        find_field(fields, name) == find_field(fields.subrange(i, fields.len() as int), name),
    decreases i,
{
    if i > 0 {
        lemma_find_field_skip(fields, name, i - 1);
        let rest = fields.subrange(i - 1, fields.len() as int);
        assert(rest.len() > 0 && rest[0] == fields[i - 1]);
        assert(rest.drop_first() =~= fields.subrange(i, fields.len() as int));
    } else {
        assert(fields.subrange(0, fields.len() as int) =~= fields);
    }
}

/// Finds the first field with this name.
fn field_index(fields: &Vec<(String, String)>, name: &String) -> (r: Option<usize>)
    ensures
        match r {
            None => find_field(fields_view(fields@), name@) is None,
            Some(i) => i < fields@.len() && find_field(fields_view(fields@), name@) == Some(
                fields@[i as int].1@,
            ),
        },
{
    let ghost view = fields_view(fields@);
    let mut i: usize = 0;
    while i < fields.len()
        invariant
            i <= fields.len(),
            view == fields_view(fields@),
            forall|j: int| 0 <= j < i ==> view[j].0 != name@,
        decreases fields.len() - i,
    {
        if fields[i].0 == *name {
            proof {
                lemma_find_field_skip(view, name@, i as int);
            }
            return Some(i);
        }
        i = i + 1;
    }
    proof {
        lemma_find_field_skip(view, name@, i as int);
    }
    None
}

/// Copies the fields whose name is not `name`.
fn fields_without(fields: &Vec<(String, String)>, name: &String) -> (r: Vec<(String, String)>)
    ensures
        fields_view(r@) == without_field(fields_view(fields@), name@),
{
    let ghost view = fields_view(fields@);
    let mut kept: Vec<(String, String)> = Vec::new();
    let mut i: usize = 0;
    while i < fields.len()
        invariant
            i <= fields.len(),
            view == fields_view(fields@),
            fields_view(kept@) == without_field(view.take(i as int), name@),
        decreases fields.len() - i,
    {
        proof {
            assert(view.take(i as int + 1).drop_last() =~= view.take(i as int));
        }
        if fields[i].0 != *name {
            let entry = (fields[i].0.clone(), fields[i].1.clone());
            kept.push(entry);
            proof {
                assert(fields_view(kept@) =~= without_field(view.take(i as int), name@).push(
                    view[i as int],
                ));
            }
        }
        i = i + 1;
    }
    proof {
        assert(view.take(fields.len() as int) =~= view);
    }
    kept
}

/// Reads the string held by a named field.
fn read_string_field(fields: &Vec<(String, String)>, name: &str) -> (r: Result<String, DecodeFailure>)
    ensures
        match string_field(fields_view(fields@), name@) {
            Ok(s) => r matches Ok(t) && t@ == s,
            Err(e) => r == Err::<String, DecodeFailure>(e),
        },
{
    let key = String::from_str(name);
    match field_index(fields, &key) {
        None => Err(DecodeFailure::MissingField),
        Some(i) => match parse_string(fields[i].1.as_str()) {
            None => Err(DecodeFailure::InvalidField),
            Some(s) => Ok(s),
        },
    }
}

/// Is `tag` the text of this literal?
fn tag_is(tag: &String, literal: &str) -> (r: bool)
    ensures
        r == (tag@ == literal@),
{
    *tag == String::from_str(literal)
}

/// Checks a required field.
fn check_field(fields: &Vec<(String, String)>, name: &str, kind: FieldKind) -> (r: Option<DecodeFailure>)
    ensures
        r == field_failure(fields_view(fields@), name@, kind),
{
    let key = String::from_str(name);
    match field_index(fields, &key) {
        None => Some(DecodeFailure::MissingField),
        Some(i) => {
            let raw = &fields[i].1;
            let ok = match kind {
                FieldKind::Integer => parse_i64(raw.as_str()).is_some(),
                FieldKind::Text => parse_string(raw.as_str()).is_some(),
                FieldKind::Boolean => tag_is(raw, "true") || tag_is(raw, "false"),
                FieldKind::Value => true,
            };
            if ok {
                None
            } else {
                Some(DecodeFailure::InvalidField)
            }
        },
    }
}

/// Checks the required fields of a forwarded message's body.
fn check_body(tag: &String, fields: &Vec<(String, String)>) -> (r: Option<DecodeFailure>)
    ensures
        r == body_failure(tag@, fields_view(fields@)),
{
    proof {
        reveal_with_fuel(first_failure, 6);
    }
    let checks: Vec<(&str, FieldKind)> = if tag_is(tag, "Action") {
        vec![("game", FieldKind::Integer), ("key", FieldKind::Text), ("action", FieldKind::Value)]
    } else if tag_is(tag, "Error") {
        vec![("message", FieldKind::Text)]
    } else if tag_is(tag, "State") {
        vec![
            ("game", FieldKind::Integer),
            ("key", FieldKind::Text),
            ("turn", FieldKind::Integer),
            ("move", FieldKind::Boolean),
            ("state", FieldKind::Value),
        ]
    } else {
        return None;
    };
    let ghost all = checks@.map_values(
        |c: (&str, FieldKind)| field_failure(fields_view(fields@), c.0@, c.1),
    );
    assert(first_failure(all) == body_failure(tag@, fields_view(fields@))) by {
        assert(all =~= seq![
            field_failure(fields_view(fields@), checks@[0].0@, checks@[0].1),
        ] + all.drop_first());
    }
    let mut i: usize = 0;
    while i < checks.len()
        invariant
            i <= checks.len(),
            all == checks@.map_values(
                |c: (&str, FieldKind)| field_failure(fields_view(fields@), c.0@, c.1),
            ),
            first_failure(all) == first_failure(all.skip(i as int)),
            first_failure(all) == body_failure(tag@, fields_view(fields@)),
        decreases checks.len() - i,
    {
        let failure = check_field(fields, checks[i].0, checks[i].1);
        assert(all.skip(i as int)[0] == failure);
        assert(all.skip(i as int).drop_first() =~= all.skip(i as int + 1));
        if failure.is_some() {
            assert(first_failure(all.skip(i as int)) == failure);
            return failure;
        }
        i = i + 1;
    }
    assert(all.skip(i as int) =~= Seq::<Option<DecodeFailure>>::empty());
    None
}

/// Builds the message named by `tag` from the object's fields.
fn decode_body(tag: &String, fields: &Vec<(String, String)>) -> (r: Result<Message, DecodeFailure>)
    ensures
        match decode_tagged(tag@, fields_view(fields@)) {
            Ok(v) => r matches Ok(m) && m@ == v,
            Err(e) => r matches Err(f) && f == e,
        },
{
    if tag_is(tag, "Connected") {
        return Ok(Message::Connected(Connected {}));
    }
    if tag_is(tag, "RegisterSuccess") {
        let key = String::from_str("id");
        return match field_index(fields, &key) {
            None => Err(DecodeFailure::MissingField),
            Some(i) => match parse_i32(fields[i].1.as_str()) {
                None => Err(DecodeFailure::InvalidField),
                Some(id) => Ok(Message::RegisterSuccess(RegisterSuccess { id })),
            },
        };
    }
    if tag_is(tag, "Register") {
        let client_type = match read_string_field(fields, "clientType") {
            Ok(s) => s,
            Err(e) => return Err(e),
        };
        let game = match read_string_field(fields, "game") {
            Ok(s) => s,
            Err(e) => return Err(e),
        };
        let name = match read_string_field(fields, "name") {
            Ok(s) => s,
            Err(e) => return Err(e),
        };
        return Ok(Message::Register(Register { clientType: client_type, game, name }));
    }
    match check_body(tag, fields) {
        Some(e) => return Err(e),
        None => {},
    }
    let type_key = String::from_str("type");
    let content = MessageContent { content: fields_without(fields, &type_key) };
    if tag_is(tag, "Action") {
        Ok(Message::Action(content))
    } else if tag_is(tag, "Error") {
        Ok(Message::Error(content))
    } else if tag_is(tag, "State") {
        Ok(Message::State(content))
    } else if tag_is(tag, "Start") {
        Ok(Message::Start(content))
    } else if tag_is(tag, "Stop") {
        Ok(Message::Stop(content))
    } else if tag_is(tag, "EngineAction") {
        Ok(Message::EngineAction(content))
    } else if tag_is(tag, "EngineState") {
        Ok(Message::EngineState(content))
    } else {
        Err(DecodeFailure::UnknownType)
    }
}

/// Builds a message from the fields of a JSON object, each value as its raw
/// JSON text.
pub fn message_from_fields(fields: &Vec<(String, String)>) -> (r: Result<Message, MessageError>)
    ensures
        match decode_fields(fields_view(fields@)) {
            Ok(v) => r matches Ok(m) && m@ == v,
            Err(e) => r matches Err(MessageError::Deserialize { reason }) && reason == e,
        },
{
    let type_key = String::from_str("type");
    let tag = match field_index(fields, &type_key) {
        None => return Err(MessageError::Deserialize { reason: DecodeFailure::MissingType }),
        Some(i) => match parse_string(fields[i].1.as_str()) {
            None => return Err(MessageError::Deserialize { reason: DecodeFailure::InvalidField }),
            Some(t) => t,
        },
    };
    match decode_body(&tag, fields) {
        Ok(m) => Ok(m),
        Err(reason) => Err(MessageError::Deserialize { reason }),
    }
}

/// Reads a message from its wire text.
pub fn deserialize_message(json: &str) -> (r: Result<Message, MessageError>)
    ensures
        match decode_text(json@) {
            Ok(v) => r matches Ok(m) && m@ == v,
            Err(e) => r matches Err(MessageError::Deserialize { reason }) && reason == e,
        },
{
    match parse_object(json) {
        Err(_) => Err(MessageError::Deserialize { reason: DecodeFailure::NotAnObject }),
        Ok(fields) => message_from_fields(&fields),
    }
}

/// The tag of a message, as text.
pub(crate) fn tag_text(m: &Message) -> (r: String)
    ensures
        r@ == tag_of(m@),
{
    match m {
        Message::Connected(_) => String::from_str("Connected"),
        Message::RegisterSuccess(_) => String::from_str("RegisterSuccess"),
        Message::Register(_) => String::from_str("Register"),
        Message::Action(_) => String::from_str("Action"),
        Message::Error(_) => String::from_str("Error"),
        Message::State(_) => String::from_str("State"),
        Message::Start(_) => String::from_str("Start"),
        Message::Stop(_) => String::from_str("Stop"),
        Message::EngineAction(_) => String::from_str("EngineAction"),
        Message::EngineState(_) => String::from_str("EngineState"),
    }
}

/// Dropping a leading field named `name` from fields that hold no other
/// field of that name leaves the rest as it was.
proof fn lemma_without_leading(first: (Seq<char>, Seq<char>), rest: FieldsView, name: Seq<char>)
    requires
        first.0 == name,
        forall|i: int| 0 <= i < rest.len() ==> rest[i].0 != name,
    ensures
        without_field(seq![first] + rest, name) == rest,
    decreases rest.len(),
{
    let all = seq![first] + rest;
    if rest.len() == 0 {
        let empty = Seq::<(Seq<char>, Seq<char>)>::empty();
        assert(all.last() == first);
        assert(all.drop_last() =~= empty);
        assert(without_field(empty, name) == empty);
        assert(without_field(all, name) == without_field(all.drop_last(), name));
        assert(rest =~= empty);
    } else {
        assert(all.last() == rest.last());
        assert(rest.last().0 != name);
        assert(all.drop_last() =~= seq![first] + rest.drop_last());
        lemma_without_leading(first, rest.drop_last(), name);
        assert(rest.drop_last().push(rest.last()) =~= rest);
        assert(without_field(all, name) == without_field(all.drop_last(), name).push(all.last()));
    }
}

/// The tags and the field names that the codec writes are distinct texts.
proof fn lemma_wire_names_distinct()
    ensures
        "Connected"@ != "RegisterSuccess"@,
        "Connected"@ != "Register"@,
        "Connected"@ != "Action"@,
        "Connected"@ != "Error"@,
        "Connected"@ != "State"@,
        "Connected"@ != "Start"@,
        "Connected"@ != "Stop"@,
        "Connected"@ != "EngineAction"@,
        "Connected"@ != "EngineState"@,
        "RegisterSuccess"@ != "Register"@,
        "RegisterSuccess"@ != "Action"@,
        "RegisterSuccess"@ != "Error"@,
        "RegisterSuccess"@ != "State"@,
        "RegisterSuccess"@ != "Start"@,
        "RegisterSuccess"@ != "Stop"@,
        "RegisterSuccess"@ != "EngineAction"@,
        "RegisterSuccess"@ != "EngineState"@,
        "Register"@ != "Action"@,
        "Register"@ != "Error"@,
        "Register"@ != "State"@,
        "Register"@ != "Start"@,
        "Register"@ != "Stop"@,
        "Register"@ != "EngineAction"@,
        "Register"@ != "EngineState"@,
        "Action"@ != "Error"@,
        "Action"@ != "State"@,
        "Action"@ != "Start"@,
        "Action"@ != "Stop"@,
        "Action"@ != "EngineAction"@,
        "Action"@ != "EngineState"@,
        "Error"@ != "State"@,
        "Error"@ != "Start"@,
        "Error"@ != "Stop"@,
        "Error"@ != "EngineAction"@,
        "Error"@ != "EngineState"@,
        "State"@ != "Start"@,
        "State"@ != "Stop"@,
        "State"@ != "EngineAction"@,
        "State"@ != "EngineState"@,
        "Start"@ != "Stop"@,
        "Start"@ != "EngineAction"@,
        "Start"@ != "EngineState"@,
        "Stop"@ != "EngineAction"@,
        "Stop"@ != "EngineState"@,
        "EngineAction"@ != "EngineState"@,
        "type"@ != "id"@,
        "type"@ != "state"@,
        "type"@ != "move"@,
        "type"@ != "turn"@,
        "type"@ != "key"@,
        "type"@ != "message"@,
        "type"@ != "action"@,
        "type"@ != "clientType"@,
        "type"@ != "game"@,
        "type"@ != "name"@,
        "id"@ != "clientType"@,
        "id"@ != "game"@,
        "id"@ != "name"@,
        "clientType"@ != "game"@,
        "clientType"@ != "name"@,
        "game"@ != "name"@,
{
    reveal_strlit("Connected");
    reveal_strlit("RegisterSuccess");
    reveal_strlit("Register");
    reveal_strlit("Action");
    reveal_strlit("Error");
    reveal_strlit("State");
    reveal_strlit("Start");
    reveal_strlit("Stop");
    reveal_strlit("EngineAction");
    reveal_strlit("EngineState");
    reveal_strlit("type");
    reveal_strlit("id");
    reveal_strlit("action");
    reveal_strlit("message");
    reveal_strlit("key");
    reveal_strlit("turn");
    reveal_strlit("move");
    reveal_strlit("state");
    assert("turn"@.len() == 4 && "move"@.len() == 4 && "key"@.len() == 3);
    assert("state"@.len() == 5 && "action"@.len() == 6 && "message"@.len() == 7);
    assert("turn"@[1] == 'u' && "move"@[0] == 'm');
    reveal_strlit("clientType");
    reveal_strlit("game");
    reveal_strlit("name");
    assert("Connected"@.len() == 9);
    assert("RegisterSuccess"@.len() == 15);
    assert("Register"@.len() == 8);
    assert("Action"@.len() == 6);
    assert("Error"@.len() == 5);
    assert("State"@.len() == 5);
    assert("Start"@.len() == 5);
    assert("Stop"@.len() == 4);
    assert("EngineAction"@.len() == 12);
    assert("EngineState"@.len() == 11);
    assert("type"@.len() == 4);
    assert("id"@.len() == 2);
    assert("clientType"@.len() == 10);
    assert("game"@.len() == 4);
    assert("name"@.len() == 4);
    assert("Error"@[0] == 'E' && "State"@[0] == 'S' && "Start"@[0] == 'S');
    assert("State"@[3] == 't' && "Start"@[3] == 'r');
    assert("type"@[0] == 't' && "game"@[0] == 'g');
    assert("type"@[0] == 't' && "name"@[0] == 'n');
    assert("game"@[0] == 'g' && "name"@[0] == 'n');
}

/// The fields that stand for a message decode back to it, given that
/// serde_json reads back the literals that it wrote for them.
proof fn lemma_decode_message_fields(m: MessageView)
    requires
        well_formed(m),
        json_string_value(json_quoted(tag_of(m))) == Some(tag_of(m)),
        m matches MessageView::RegisterSuccess { id } ==> json_i32_value(decimal(id as int))
            == Some(id),
        m matches MessageView::Register { client_type, game, name } ==> json_string_value(
            json_quoted(client_type),
        ) == Some(client_type) && json_string_value(json_quoted(game)) == Some(game)
            && json_string_value(json_quoted(name)) == Some(name),
    ensures
        decode_fields(message_fields(m)) == Ok::<MessageView, DecodeFailure>(m),
{
    lemma_wire_names_distinct();
    reveal_with_fuel(find_field, 4);
    let fv = message_fields(m);
    assert(fv[0] == ("type"@, json_quoted(tag_of(m))));
    assert(find_field(fv, "type"@) == Some(json_quoted(tag_of(m))));
    assert(json_string_value(json_quoted(tag_of(m))) == Some(tag_of(m)));
    match m {
        MessageView::Connected => {},
        MessageView::RegisterSuccess { id } => {
            assert(fv.len() == 2 && fv[1] == ("id"@, decimal(id as int)));
            assert(fv.drop_first()[0] == fv[1]);
            assert(find_field(fv, "id"@) == Some(decimal(id as int)));
        },
        MessageView::Register { client_type, game, name } => {
            assert(string_field(fv, "clientType"@) == Ok::<Seq<char>, DecodeFailure>(
                client_type,
            ));
            assert(string_field(fv, "game"@) == Ok::<Seq<char>, DecodeFailure>(game));
            assert(string_field(fv, "name"@) == Ok::<Seq<char>, DecodeFailure>(name));
        },
        _ => {
            let content = content_of(m);
            assert(fv =~= seq![fv[0]] + content);
            assert(fv.drop_first() =~= content);
            lemma_without_leading(fv[0], content, "type"@);
            assert(body_failure(tag_of(m), fv) == body_failure(tag_of(m), content));
        },
    }
    assert(decode_tagged(tag_of(m), fv) == Ok::<MessageView, DecodeFailure>(m));
    assert(decode_fields(fv) == Ok::<MessageView, DecodeFailure>(m));
}

/// A field found by name is one of the fields.
proof fn lemma_find_field_member(fields: FieldsView, name: Seq<char>)
    requires
        find_field(fields, name) is Some,
    ensures
        fields.to_set().contains((name, find_field(fields, name)->0)),
    decreases fields.len(),
{
    if fields[0].0 != name {
        lemma_find_field_member(fields.drop_first(), name);
        let p = (name, find_field(fields, name)->0);
        let k = choose|k: int| 0 <= k < fields.drop_first().len() && fields.drop_first()[k] == p;
        assert(fields[k + 1] == p);
    } else {
        assert(fields[0] == (name, find_field(fields, name)->0));
    }
}

/// Where names are distinct, a field is found by its name.
proof fn lemma_find_member(fields: FieldsView, name: Seq<char>, value: Seq<char>)
    requires
        distinct_names(fields),
        fields.to_set().contains((name, value)),
    ensures
        find_field(fields, name) == Some(value),
    decreases fields.len(),
{
    let k = choose|k: int| 0 <= k < fields.len() && fields[k] == (name, value);
    if k > 0 {
        let rest = fields.drop_first();
        assert(fields[0].0 != fields[k].0);
        assert(rest[k - 1] == (name, value));
        assert(rest.to_set().contains((name, value)));
        lemma_find_member(rest, name, value);
    }
}

/// Where names are distinct, a lookup depends on the set of fields alone.
proof fn lemma_find_order_free(g: FieldsView, h: FieldsView, name: Seq<char>)
    requires
        distinct_names(g),
        distinct_names(h),
        g.to_set() == h.to_set(),
    ensures
        find_field(g, name) == find_field(h, name),
{
    if find_field(g, name) is Some {
        lemma_find_field_member(g, name);
        lemma_find_member(h, name, find_field(g, name)->0);
    } else if find_field(h, name) is Some {
        lemma_find_field_member(h, name);
        lemma_find_member(g, name, find_field(h, name)->0);
    }
}

/// The fields left after dropping a name are those of other names.
proof fn lemma_without_set(fields: FieldsView, name: Seq<char>)
    ensures
        without_field(fields, name).to_set() == fields.to_set().filter(
            |p: (Seq<char>, Seq<char>)| p.0 != name,
        ),
    decreases fields.len(),
{
    let keep = |p: (Seq<char>, Seq<char>)| p.0 != name;
    if fields.len() == 0 {
        assert(fields.to_set().filter(keep) =~= Set::empty());
        assert(without_field(fields, name).to_set() =~= Set::empty());
    } else {
        let front = fields.drop_last();
        lemma_without_set(front, name);
        assert(fields =~= front.push(fields.last()));
        assert(fields.to_set() =~= front.to_set().insert(fields.last())) by {
            front.lemma_push_to_set_commute(fields.last());
        }
        if fields.last().0 != name {
            without_field(front, name).lemma_push_to_set_commute(fields.last());
        }
        assert(without_field(fields, name).to_set() =~= fields.to_set().filter(keep));
    }
}

/// Decoding does not depend on the order of fields with distinct names.
proof fn lemma_decode_order_free(g: FieldsView, h: FieldsView)
    requires
        distinct_names(g),
        distinct_names(h),
        g.to_set() == h.to_set(),
    ensures
        same_decoding(decode_fields(g), decode_fields(h)),
{
    lemma_wire_names_distinct();
    assert forall|n: Seq<char>| find_field(g, n) == find_field(h, n) by {
        lemma_find_order_free(g, h, n);
    }
    lemma_without_set(g, "type"@);
    lemma_without_set(h, "type"@);
    assert(without_field(g, "type"@).to_set() == without_field(h, "type"@).to_set());
    match find_field(g, "type"@) {
        None => {},
        Some(raw) => match json_string_value(raw) {
            None => {},
            Some(tag) => {
                assert(body_failure(tag, g) == body_failure(tag, h));
                assert(string_field(g, "clientType"@) == string_field(h, "clientType"@));
                assert(string_field(g, "game"@) == string_field(h, "game"@));
                assert(string_field(g, "name"@) == string_field(h, "name"@));
            },
        },
    }
}

/// The fields that stand for a well-formed message have distinct names.
proof fn lemma_message_fields_distinct(m: MessageView)
    requires
        well_formed(m),
    ensures
        distinct_names(message_fields(m)),
{
    lemma_wire_names_distinct();
    let fv = message_fields(m);
    assert forall|i: int, j: int| 0 <= i < j < fv.len() implies fv[i].0 != fv[j].0 by {
        if i == 0 {
            if !(m is Connected || m is RegisterSuccess || m is Register) {
                assert(fv[j] == content_of(m)[j - 1]);
            }
        } else if !(m is Connected || m is RegisterSuccess || m is Register) {
            assert(fv[i] == content_of(m)[i - 1]);
            assert(fv[j] == content_of(m)[j - 1]);
        }
    }
}

/// Writes a message as the fields of a JSON object: `type` first, then its body.
/// The fields written decode back to the same message.
pub fn message_to_fields(message: Message) -> (r: Result<Vec<(String, String)>, MessageError>)
    ensures
        r is Ok,
        r matches Ok(f) ==> fields_view(f@) == message_fields(message@),
        r matches Ok(f) ==> (well_formed(message@) ==> decode_fields(fields_view(f@)) == Ok::<
            MessageView,
            DecodeFailure,
        >(message@)),
        well_formed(message@) ==> forall|g: FieldsView|
            #![trigger decode_fields(g)]
            distinct_names(g) && g.to_set() == message_fields(message@).to_set() ==> same_decoding(
                decode_fields(g),
                Ok(message@),
            ),
{
    let ghost m = message@;
    let tag = tag_text(&message);
    let quoted_tag = match quote(tag.as_str()) {
        Ok(t) => t,
        Err(e) => return Err(MessageError::Serialize { source: e }),
    };
    let mut fields: Vec<(String, String)> = Vec::new();
    fields.push((String::from_str("type"), quoted_tag));
    match message {
        Message::Connected(_) => {},
        Message::RegisterSuccess(r) => {
            let id = match int_text(r.id) {
                Ok(t) => t,
                Err(e) => return Err(MessageError::Serialize { source: e }),
            };
            fields.push((String::from_str("id"), id));
        },
        Message::Register(r) => {
            let client_type = match quote(r.clientType.as_str()) {
                Ok(t) => t,
                Err(e) => return Err(MessageError::Serialize { source: e }),
            };
            let game = match quote(r.game.as_str()) {
                Ok(t) => t,
                Err(e) => return Err(MessageError::Serialize { source: e }),
            };
            let name = match quote(r.name.as_str()) {
                Ok(t) => t,
                Err(e) => return Err(MessageError::Serialize { source: e }),
            };
            fields.push((String::from_str("clientType"), client_type));
            fields.push((String::from_str("game"), game));
            fields.push((String::from_str("name"), name));
        },
        Message::Action(mut c) | Message::Error(mut c) | Message::State(mut c) | Message::Start(
            mut c,
        ) | Message::Stop(mut c) | Message::EngineAction(mut c) | Message::EngineState(mut c) => {
            fields.append(&mut c.content);
        },
    }
    proof {
        assert(fields_view(fields@) =~= message_fields(m));
        if well_formed(m) {
            lemma_decode_message_fields(m);
            lemma_message_fields_distinct(m);
            assert forall|g: FieldsView|
                #![trigger decode_fields(g)]
                distinct_names(g) && g.to_set() == message_fields(m).to_set() implies same_decoding(
                    decode_fields(g),
                    Ok(m),
                ) by {
                lemma_decode_order_free(g, message_fields(m));
            }
        }
    }
    Ok(fields)
}

/// Writes a message as wire text: one compact JSON object, `type` first.
pub fn serialize_message(message: Message) -> (r: Result<String, MessageError>)
    ensures
        r is Ok,
        r matches Ok(t) ==> t@ == encode_text(message@),
        well_formed(message@) ==> decode_fields(message_fields(message@)) == Ok::<
            MessageView,
            DecodeFailure,
        >(message@),
        well_formed(message@) ==> forall|g: FieldsView|
            #![trigger decode_fields(g)]
            distinct_names(g) && g.to_set() == message_fields(message@).to_set() ==> same_decoding(
                decode_fields(g),
                Ok(message@),
            ),
{
    let fields = match message_to_fields(message) {
        Ok(f) => f,
        Err(e) => return Err(e),
    };
    match write_object(&fields) {
        Ok(t) => Ok(t),
        Err(e) => Err(MessageError::Serialize { source: e }),
    }
}

} // verus!
