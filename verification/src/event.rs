//! Events of the chat core, as the client receives them.

use vstd::prelude::*;
use crate::json::{json_string, json_str};
use crate::text::{dec_digits, signed_dec_digits, push_decimal, push_signed_decimal, push_str};

verus! {

/// An event of the chat core, with the values the client is told.
#[derive(Debug)]
pub enum EventType {
    Info(String),
    SmtpConnected(String),
    ImapConnected(String),
    SmtpMessageSent(String),
    ImapMessageDeleted(String),
    ImapMessageMoved(String),
    NewBlobFile(String),
    DeletedBlobFile(String),
    Warning(String),
    Error(String),
    ErrorNetwork(String),
    ErrorSelfNotInGroup(String),
    /// the path of the written file, when it is valid UTF-8
    ImexFileWritten(Option<String>),
    MsgsNoticed(u32),
    ChatModified(u32),
    ImexProgress(u64),
    MsgsChanged { chat_id: u32, msg_id: u32 },
    IncomingMsg { chat_id: u32, msg_id: u32 },
    MsgDelivered { chat_id: u32, msg_id: u32 },
    MsgFailed { chat_id: u32, msg_id: u32 },
    MsgRead { chat_id: u32, msg_id: u32 },
    ChatEphemeralTimerModified { chat_id: u32, timer: u32 },
    SecurejoinInviterProgress { contact_id: u32, progress: u64 },
    SecurejoinJoinerProgress { contact_id: u32, progress: u64 },
    ContactsChanged(Option<u32>),
    LocationChanged(Option<u32>),
    ConfigureProgress { progress: u64, comment: Option<String> },
}

/// An event: its kind with its values, and the numeric id of its kind.
#[derive(Debug)]
pub struct Event {
    pub type_id: i32,
    pub typ: EventType,
}

/// A field of an event as JSON: null, a string or a number.
pub enum JsonField {
    Null,
    Str(Seq<char>),
    Num(nat),
}

/// The JSON text of a field.
pub open spec fn field_text(f: JsonField) -> Seq<char> {
    match f {
        JsonField::Null => "null"@,
        JsonField::Str(s) => json_str(s),
        JsonField::Num(n) => dec_digits(n),
    }
}

pub open spec fn opt_str_field(o: Option<String>) -> JsonField {
    match o {
        Some(s) => JsonField::Str(s@),
        None => JsonField::Null,
    }
}

pub open spec fn opt_num_field(o: Option<u32>) -> JsonField {
    match o {
        Some(n) => JsonField::Num(n as nat),
        None => JsonField::Null,
    }
}

/// The two fields the client is told of an event: a text event gives its
/// text and null; a chat event its chat id and null; a message event its chat
/// and message ids; a progress event its number and null (or its comment).
pub open spec fn event_fields(typ: EventType) -> (JsonField, JsonField) {
    match typ {
        EventType::Info(t) => (JsonField::Str(t@), JsonField::Null),
        EventType::SmtpConnected(t) => (JsonField::Str(t@), JsonField::Null),
        EventType::ImapConnected(t) => (JsonField::Str(t@), JsonField::Null),
        EventType::SmtpMessageSent(t) => (JsonField::Str(t@), JsonField::Null),
        EventType::ImapMessageDeleted(t) => (JsonField::Str(t@), JsonField::Null),
        EventType::ImapMessageMoved(t) => (JsonField::Str(t@), JsonField::Null),
        EventType::NewBlobFile(t) => (JsonField::Str(t@), JsonField::Null),
        EventType::DeletedBlobFile(t) => (JsonField::Str(t@), JsonField::Null),
        EventType::Warning(t) => (JsonField::Str(t@), JsonField::Null),
        EventType::Error(t) => (JsonField::Str(t@), JsonField::Null),
        EventType::ErrorNetwork(t) => (JsonField::Str(t@), JsonField::Null),
        EventType::ErrorSelfNotInGroup(t) => (JsonField::Str(t@), JsonField::Null),
        EventType::ImexFileWritten(p) => (opt_str_field(p), JsonField::Null),
        EventType::MsgsNoticed(c) => (JsonField::Num(c as nat), JsonField::Null),
        EventType::ChatModified(c) => (JsonField::Num(c as nat), JsonField::Null),
        EventType::ImexProgress(p) => (JsonField::Num(p as nat), JsonField::Null),
        EventType::MsgsChanged { chat_id, msg_id } => (
            JsonField::Num(chat_id as nat),
            JsonField::Num(msg_id as nat),
        ),
        EventType::IncomingMsg { chat_id, msg_id } => (
            JsonField::Num(chat_id as nat),
            JsonField::Num(msg_id as nat),
        ),
        EventType::MsgDelivered { chat_id, msg_id } => (
            JsonField::Num(chat_id as nat),
            JsonField::Num(msg_id as nat),
        ),
        EventType::MsgFailed { chat_id, msg_id } => (
            JsonField::Num(chat_id as nat),
            JsonField::Num(msg_id as nat),
        ),
        EventType::MsgRead { chat_id, msg_id } => (
            JsonField::Num(chat_id as nat),
            JsonField::Num(msg_id as nat),
        ),
        EventType::ChatEphemeralTimerModified { chat_id, timer } => (
            JsonField::Num(chat_id as nat),
            JsonField::Num(timer as nat),
        ),
        EventType::SecurejoinInviterProgress { contact_id, progress } => (
            JsonField::Num(contact_id as nat),
            JsonField::Num(progress as nat),
        ),
        EventType::SecurejoinJoinerProgress { contact_id, progress } => (
            JsonField::Num(contact_id as nat),
            JsonField::Num(progress as nat),
        ),
        EventType::ContactsChanged(c) => (opt_num_field(c), JsonField::Null),
        EventType::LocationChanged(c) => (opt_num_field(c), JsonField::Null),
        EventType::ConfigureProgress { progress, comment } => (
            JsonField::Num(progress as nat),
            opt_str_field(comment),
        ),
    }
}

/// The JSON object of an event, keys in sorted order:
/// `{"event":true,"field1":…,"field2":…,"id":[<kind id>]}`.
pub open spec fn event_text(event: Event) -> Seq<char> {
    let (f1, f2) = event_fields(event.typ);
    "{\"event\":true,\"field1\":"@ + field_text(f1) + ",\"field2\":"@ + field_text(f2)
        + ",\"id\":["@ + signed_dec_digits(event.type_id as int) + "]}"@
}

/// A text event gives its text as the first field and null as the second.
pub proof fn law_text_events(typ: EventType)
    ensures
        typ matches EventType::Info(t) ==> event_fields(typ) == (JsonField::Str(t@), JsonField::Null),
        typ matches EventType::SmtpConnected(t) ==> event_fields(typ) == (JsonField::Str(t@), JsonField::Null),
        typ matches EventType::ImapConnected(t) ==> event_fields(typ) == (JsonField::Str(t@), JsonField::Null),
        typ matches EventType::SmtpMessageSent(t) ==> event_fields(typ) == (JsonField::Str(t@), JsonField::Null),
        typ matches EventType::ImapMessageDeleted(t) ==> event_fields(typ) == (JsonField::Str(t@), JsonField::Null),
        typ matches EventType::ImapMessageMoved(t) ==> event_fields(typ) == (JsonField::Str(t@), JsonField::Null),
        typ matches EventType::NewBlobFile(t) ==> event_fields(typ) == (JsonField::Str(t@), JsonField::Null),
        typ matches EventType::DeletedBlobFile(t) ==> event_fields(typ) == (JsonField::Str(t@), JsonField::Null),
        typ matches EventType::Warning(t) ==> event_fields(typ) == (JsonField::Str(t@), JsonField::Null),
        typ matches EventType::Error(t) ==> event_fields(typ) == (JsonField::Str(t@), JsonField::Null),
        typ matches EventType::ErrorNetwork(t) ==> event_fields(typ) == (JsonField::Str(t@), JsonField::Null),
        typ matches EventType::ErrorSelfNotInGroup(t) ==> event_fields(typ) == (JsonField::Str(t@), JsonField::Null),
{
}

/// A message event gives its chat id as the first field and its message id
/// as the second.
pub proof fn law_message_events(typ: EventType)
    ensures
        typ matches EventType::MsgsChanged { chat_id, msg_id } ==> event_fields(typ) == (
            JsonField::Num(chat_id as nat),
            JsonField::Num(msg_id as nat),
        ),
        typ matches EventType::IncomingMsg { chat_id, msg_id } ==> event_fields(typ) == (
            JsonField::Num(chat_id as nat),
            JsonField::Num(msg_id as nat),
        ),
        typ matches EventType::MsgDelivered { chat_id, msg_id } ==> event_fields(typ) == (
            JsonField::Num(chat_id as nat),
            JsonField::Num(msg_id as nat),
        ),
        typ matches EventType::MsgFailed { chat_id, msg_id } ==> event_fields(typ) == (
            JsonField::Num(chat_id as nat),
            JsonField::Num(msg_id as nat),
        ),
        typ matches EventType::MsgRead { chat_id, msg_id } ==> event_fields(typ) == (
            JsonField::Num(chat_id as nat),
            JsonField::Num(msg_id as nat),
        ),
{
}

/// The other events: a chat event gives its chat id and null; an export
/// gives the file's path (null when it is not valid UTF-8) and null; a
/// progress gives its number and null, or, for configuration, its comment; a
/// timer change its chat id and timer; a secure-join progress its contact id
/// and progress; a contact or location change the contact id or null.
pub proof fn law_other_events(typ: EventType)
    ensures
        typ matches EventType::MsgsNoticed(c) ==> event_fields(typ) == (JsonField::Num(c as nat), JsonField::Null),
        typ matches EventType::ChatModified(c) ==> event_fields(typ) == (JsonField::Num(c as nat), JsonField::Null),
        typ matches EventType::ImexProgress(p) ==> event_fields(typ) == (JsonField::Num(p as nat), JsonField::Null),
        typ matches EventType::ImexFileWritten(Some(p)) ==> event_fields(typ) == (JsonField::Str(p@), JsonField::Null),
        typ matches EventType::ImexFileWritten(None) ==> event_fields(typ) == (JsonField::Null, JsonField::Null),
        typ matches EventType::ChatEphemeralTimerModified { chat_id, timer } ==> event_fields(typ) == (
            JsonField::Num(chat_id as nat),
            JsonField::Num(timer as nat),
        ),
        typ matches EventType::SecurejoinInviterProgress { contact_id, progress } ==> event_fields(typ) == (
            JsonField::Num(contact_id as nat),
            JsonField::Num(progress as nat),
        ),
        typ matches EventType::SecurejoinJoinerProgress { contact_id, progress } ==> event_fields(typ) == (
            JsonField::Num(contact_id as nat),
            JsonField::Num(progress as nat),
        ),
        typ matches EventType::ContactsChanged(Some(c)) ==> event_fields(typ) == (JsonField::Num(c as nat), JsonField::Null),
        typ matches EventType::ContactsChanged(None) ==> event_fields(typ) == (JsonField::Null, JsonField::Null),
        typ matches EventType::LocationChanged(Some(c)) ==> event_fields(typ) == (JsonField::Num(c as nat), JsonField::Null),
        typ matches EventType::LocationChanged(None) ==> event_fields(typ) == (JsonField::Null, JsonField::Null),
        typ matches EventType::ConfigureProgress { progress, comment: Some(c) } ==> event_fields(typ) == (
            JsonField::Num(progress as nat),
            JsonField::Str(c@),
        ),
        typ matches EventType::ConfigureProgress { progress, comment: None } ==> event_fields(typ) == (
            JsonField::Num(progress as nat),
            JsonField::Null,
        ),
{
}

/// The JSON of a field: null is `null`, a number its decimal notation, a
/// string its JSON string literal.
pub proof fn law_field_text(s: Seq<char>, n: nat)
    ensures
        field_text(JsonField::Null) == "null"@,
        field_text(JsonField::Num(n)) == dec_digits(n),
        field_text(JsonField::Str(s)) == json_str(s),
{
}

/// The object of an event holds `"event":true`, its first field under
/// `field1`, its second under `field2`, and its kind's id in a one-element
/// array under `id`, keys in sorted order; a negative id gets a minus sign.
pub proof fn law_event_object(event: Event)
    ensures
        event_text(event) == "{\"event\":true,\"field1\":"@ + field_text(event_fields(event.typ).0)
            + ",\"field2\":"@ + field_text(event_fields(event.typ).1) + ",\"id\":["@ + (if event.type_id
            < 0 {
            seq!['-'] + dec_digits((-event.type_id) as nat)
        } else {
            dec_digits(event.type_id as nat)
        }) + "]}"@,
{
}

/// A field of an event, as the client is told it.
enum FieldValue<'a> {
    Null,
    Str(&'a str),
    Num(u64),
}

spec fn field_value_view(f: FieldValue) -> JsonField {
    match f {
        FieldValue::Null => JsonField::Null,
        FieldValue::Str(s) => JsonField::Str(s@),
        FieldValue::Num(n) => JsonField::Num(n as nat),
    }
}

fn opt_str_value<'a>(o: &'a Option<String>) -> (res: FieldValue<'a>)
    ensures
        field_value_view(res) == opt_str_field(*o),
{
    match o {
        Some(s) => FieldValue::Str(s.as_str()),
        None => FieldValue::Null,
    }
}

fn opt_num_value<'a>(o: Option<u32>) -> (res: FieldValue<'a>)
    ensures
        field_value_view(res) == opt_num_field(o),
{
    match o {
        Some(n) => FieldValue::Num(n as u64),
        None => FieldValue::Null,
    }
}

fn push_field(s: &mut String, f: FieldValue)
    ensures
        final(s)@ == old(s)@ + field_text(field_value_view(f)),
{
    match f {
        FieldValue::Null => push_str(s, "null"),
        FieldValue::Str(t) => {
            match json_string(t) {
                Ok(j) => push_str(s, j.as_str()),
                Err(_) => {},
            }
        },
        FieldValue::Num(n) => push_decimal(s, n),
    }
}

fn fields_of<'a>(typ: &'a EventType) -> (res: (FieldValue<'a>, FieldValue<'a>))
    ensures
        (field_value_view(res.0), field_value_view(res.1)) == event_fields(*typ),
{
    match typ {
        EventType::Info(t) => (FieldValue::Str(t.as_str()), FieldValue::Null),
        EventType::SmtpConnected(t) => (FieldValue::Str(t.as_str()), FieldValue::Null),
        EventType::ImapConnected(t) => (FieldValue::Str(t.as_str()), FieldValue::Null),
        EventType::SmtpMessageSent(t) => (FieldValue::Str(t.as_str()), FieldValue::Null),
        EventType::ImapMessageDeleted(t) => (FieldValue::Str(t.as_str()), FieldValue::Null),
        EventType::ImapMessageMoved(t) => (FieldValue::Str(t.as_str()), FieldValue::Null),
        EventType::NewBlobFile(t) => (FieldValue::Str(t.as_str()), FieldValue::Null),
        EventType::DeletedBlobFile(t) => (FieldValue::Str(t.as_str()), FieldValue::Null),
        EventType::Warning(t) => (FieldValue::Str(t.as_str()), FieldValue::Null),
        EventType::Error(t) => (FieldValue::Str(t.as_str()), FieldValue::Null),
        EventType::ErrorNetwork(t) => (FieldValue::Str(t.as_str()), FieldValue::Null),
        EventType::ErrorSelfNotInGroup(t) => (FieldValue::Str(t.as_str()), FieldValue::Null),
        EventType::ImexFileWritten(p) => (opt_str_value(p), FieldValue::Null),
        EventType::MsgsNoticed(c) => (FieldValue::Num(*c as u64), FieldValue::Null),
        EventType::ChatModified(c) => (FieldValue::Num(*c as u64), FieldValue::Null),
        EventType::ImexProgress(p) => (FieldValue::Num(*p), FieldValue::Null),
        EventType::MsgsChanged { chat_id, msg_id } => (
            FieldValue::Num(*chat_id as u64),
            FieldValue::Num(*msg_id as u64),
        ),
        EventType::IncomingMsg { chat_id, msg_id } => (
            FieldValue::Num(*chat_id as u64),
            FieldValue::Num(*msg_id as u64),
        ),
        EventType::MsgDelivered { chat_id, msg_id } => (
            FieldValue::Num(*chat_id as u64),
            FieldValue::Num(*msg_id as u64),
        ),
        EventType::MsgFailed { chat_id, msg_id } => (
            FieldValue::Num(*chat_id as u64),
            FieldValue::Num(*msg_id as u64),
        ),
        EventType::MsgRead { chat_id, msg_id } => (
            FieldValue::Num(*chat_id as u64),
            FieldValue::Num(*msg_id as u64),
        ),
        EventType::ChatEphemeralTimerModified { chat_id, timer } => (
            FieldValue::Num(*chat_id as u64),
            FieldValue::Num(*timer as u64),
        ),
        EventType::SecurejoinInviterProgress { contact_id, progress } => (
            FieldValue::Num(*contact_id as u64),
            FieldValue::Num(*progress),
        ),
        EventType::SecurejoinJoinerProgress { contact_id, progress } => (
            FieldValue::Num(*contact_id as u64),
            FieldValue::Num(*progress),
        ),
        EventType::ContactsChanged(c) => (opt_num_value(*c), FieldValue::Null),
        EventType::LocationChanged(c) => (opt_num_value(*c), FieldValue::Null),
        EventType::ConfigureProgress { progress, comment } => (
            FieldValue::Num(*progress),
            opt_str_value(comment),
        ),
    }
}

/// The JSON object the client receives for an event.
pub fn event_to_json(event: Event) -> (res: String)
    ensures
        res@ == event_text(event),
{
    let (f1, f2) = fields_of(&event.typ);
    let mut s = String::new();
    push_str(&mut s, "{\"event\":true,\"field1\":");
    push_field(&mut s, f1);
    push_str(&mut s, ",\"field2\":");
    push_field(&mut s, f2);
    push_str(&mut s, ",\"id\":[");
    push_signed_decimal(&mut s, event.type_id as i64);
    push_str(&mut s, "]}");
    s
}

} // verus!
