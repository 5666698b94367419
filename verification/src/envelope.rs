//! What the server sends to a connected client.
//!
//! Every message is one of three kinds, told apart on the wire by its
//! `msg_type`. Each kind carries only its own fields.

use vstd::prelude::*;
use vstd::string::StringExecFns;
use crate::event::{SocketMessagePayload, SocketMessagePayloadView};

verus! {

/// A message for the client of a session.
#[derive(Debug, PartialEq, Eq)]
pub enum ServerMessage {
    /// A message was posted in a channel the client can see.
    NewMessage(SocketMessagePayload),
    /// The guild with this identifier changed; the client should read it again.
    GuildDataUpdate { guild_id: String },
    /// The client's own list of guilds changed; the client should read it again.
    UserGuildDataUpdate,
}

/// What a [`ServerMessage`] stands for in contracts.
pub enum ServerMessageView {
    NewMessage(SocketMessagePayloadView),
    GuildDataUpdate { guild_id: Seq<char> },
    UserGuildDataUpdate,
}

impl ServerMessageView {
    /// The `msg_type` that tells the kinds apart on the wire.
    pub open spec fn msg_type(self) -> Seq<char> {
        match self {
            ServerMessageView::NewMessage(payload) => payload.msg_type,
            ServerMessageView::GuildDataUpdate { .. } => "guild_data_update"@,
            ServerMessageView::UserGuildDataUpdate => "user_guild_data_update"@,
        }
    }
}

impl View for ServerMessage {
    type V = ServerMessageView;

    open spec fn view(&self) -> ServerMessageView {
        match *self {
            ServerMessage::NewMessage(payload) => ServerMessageView::NewMessage(payload@),
            ServerMessage::GuildDataUpdate { guild_id } => ServerMessageView::GuildDataUpdate {
                guild_id: guild_id@,
            },
            ServerMessage::UserGuildDataUpdate => ServerMessageView::UserGuildDataUpdate,
        }
    }
}

impl Clone for ServerMessage {
    fn clone(&self) -> (r: Self)
        ensures
            r@ == self@,
    {
        match self {
            ServerMessage::NewMessage(payload) => ServerMessage::NewMessage(payload.clone()),
            ServerMessage::GuildDataUpdate { guild_id } => ServerMessage::GuildDataUpdate {
                guild_id: guild_id.clone(),
            },
            ServerMessage::UserGuildDataUpdate => ServerMessage::UserGuildDataUpdate,
        }
    }
}

/// The kinds of message, as a client tells them apart.
#[derive(Debug, Clone, Copy, PartialEq, Eq, Structural)]
pub enum MessageKind {
    NewMessage,
    GuildDataUpdate,
    UserGuildDataUpdate,
}

impl MessageKind {
    /// The `msg_type` of the messages of this kind.
    pub open spec fn name(self) -> Seq<char> {
        match self {
            MessageKind::NewMessage => "new_message"@,
            MessageKind::GuildDataUpdate => "guild_data_update"@,
            MessageKind::UserGuildDataUpdate => "user_guild_data_update"@,
        }
    }
}

/// The kind of message that a `msg_type` names, if it names one.
pub open spec fn kind_named(msg_type: Seq<char>) -> Option<MessageKind> {
    if msg_type == "new_message"@ {
        Some(MessageKind::NewMessage)
    } else if msg_type == "guild_data_update"@ {
        Some(MessageKind::GuildDataUpdate)
    } else if msg_type == "user_guild_data_update"@ {
        Some(MessageKind::UserGuildDataUpdate)
    } else {
        None
    }
}

/// The kind of message that a `msg_type` names, if it names one.
pub fn kind_of(msg_type: &str) -> (r: Option<MessageKind>)
    ensures
        r == kind_named(msg_type@),
{
    let given = msg_type.to_owned();
    if given == "new_message".to_owned() {
        Some(MessageKind::NewMessage)
    } else if given == "guild_data_update".to_owned() {
        Some(MessageKind::GuildDataUpdate)
    } else if given == "user_guild_data_update".to_owned() {
        Some(MessageKind::UserGuildDataUpdate)
    } else {
        None
    }
}

/// Every kind is told by its own `msg_type`: no two kinds share one.
pub proof fn lemma_kinds_are_told_apart(kind: MessageKind)
    ensures
        kind_named(kind.name()) == Some(kind),
{
    reveal_strlit("new_message");
    reveal_strlit("guild_data_update");
    reveal_strlit("user_guild_data_update");
    assert("new_message"@.len() == 11);
    assert("guild_data_update"@.len() == 17);
    assert("user_guild_data_update"@.len() == 22);
}

/// The JSON text of a string: the string between double quotes, with the
/// characters that JSON does not allow in a string escaped.
pub uninterp spec fn json_string(s: Seq<char>) -> Seq<char>;

/// Declares `serde_json::Error`, what the serializer reports when it fails.
/// Nothing is known of what is inside one.
#[verifier::external_type_specification]
#[verifier::external_body]
pub struct ExJsonError(serde_json::Error);

/// Calls `serde_json::to_string` on a string. The call succeeds, and the
/// text it returns is the JSON text of the string. The serializer fails only
/// where the value refuses to be serialized, where a map has a key that is no
/// string, or where its writer fails; a string is written as it is, and the
/// writer is a vector of bytes, which takes whatever is written to it.
#[verifier::external_body]
fn quote(s: &str) -> (r: Result<String, serde_json::Error>)
    ensures
        r is Ok,
        r matches Ok(text) ==> text@ == json_string(s@),
{
    serde_json::to_string(s)
}

/// An outgoing message could not be turned into text. Only that one message
/// is lost. The messages of this module hold nothing but strings, which the
/// serializer always takes, so that none of them is ever lost this way.
#[derive(Debug)]
pub struct SerializationError {
    /// What the serializer reported.
    pub cause: serde_json::Error,
}

/// The text of a `guild_data_update` message whose guild identifier has the
/// JSON text `guild_id`.
pub open spec fn guild_data_update_frame(guild_id: Seq<char>) -> Seq<char> {
    "{\"guild_id\":"@ + guild_id + ",\"msg_type\":\"guild_data_update\"}"@
}

/// The text of a `user_guild_data_update` message.
pub open spec fn user_guild_data_update_frame() -> Seq<char> {
    "{\"msg_type\":\"user_guild_data_update\"}"@
}

/// The fields of a posted message, each as JSON text.
pub struct QuotedMessage {
    pub author_id: String,
    pub author_username: String,
    pub channel_id: String,
    pub content: String,
    pub created_at: String,
    pub id: String,
    pub msg_type: String,
}

/// What a [`QuotedMessage`] stands for in contracts.
pub struct QuotedMessageView {
    pub author_id: Seq<char>,
    pub author_username: Seq<char>,
    pub channel_id: Seq<char>,
    pub content: Seq<char>,
    pub created_at: Seq<char>,
    pub id: Seq<char>,
    pub msg_type: Seq<char>,
}

impl View for QuotedMessage {
    type V = QuotedMessageView;

    open spec fn view(&self) -> QuotedMessageView {
        QuotedMessageView {
            author_id: self.author_id@,
            author_username: self.author_username@,
            channel_id: self.channel_id@,
            content: self.content@,
            created_at: self.created_at@,
            id: self.id@,
            msg_type: self.msg_type@,
        }
    }
}

/// The text of a message that carries a posted message: one JSON object with
/// the author as an object of its own, the keys in alphabetical order.
pub open spec fn new_message_frame(q: QuotedMessageView) -> Seq<char> {
    "{\"author\":{\"id\":"@ + q.author_id + ",\"username\":"@ + q.author_username
        + "},\"channel_id\":"@ + q.channel_id + ",\"content\":"@ + q.content
        + ",\"created_at\":"@ + q.created_at + ",\"id\":"@ + q.id + ",\"msg_type\":"@
        + q.msg_type + "}"@
}

/// The fields of a posted message, each as JSON text.
pub open spec fn quoted(payload: SocketMessagePayloadView) -> QuotedMessageView {
    QuotedMessageView {
        author_id: json_string(payload.author.id),
        author_username: json_string(payload.author.username),
        channel_id: json_string(payload.channel_id),
        content: json_string(payload.content),
        created_at: json_string(payload.created_at),
        id: json_string(payload.id),
        msg_type: json_string(payload.msg_type),
    }
}

impl ServerMessageView {
    /// The message as it goes over the wire: one JSON object.
    pub open spec fn json(self) -> Seq<char> {
        match self {
            ServerMessageView::NewMessage(payload) => new_message_frame(quoted(payload)),
            ServerMessageView::GuildDataUpdate { guild_id } => guild_data_update_frame(
                json_string(guild_id),
            ),
            ServerMessageView::UserGuildDataUpdate => user_guild_data_update_frame(),
        }
    }
}

/// Writes a `guild_data_update` message around the JSON text of its guild
/// identifier.
pub fn guild_data_update_text(guild_id: &str) -> (r: String)
    ensures
        r@ == guild_data_update_frame(guild_id@),
{
    let mut text = "{\"guild_id\":".to_owned();
    text.append(guild_id);
    text.append(",\"msg_type\":\"guild_data_update\"}");
    text
}

/// Writes a `user_guild_data_update` message.
pub fn user_guild_data_update_text() -> (r: String)
    ensures
        r@ == user_guild_data_update_frame(),
{
    "{\"msg_type\":\"user_guild_data_update\"}".to_owned()
}

/// Writes the message that carries a posted message around the JSON texts of
/// its fields.
pub fn new_message_text(q: &QuotedMessage) -> (r: String)
    ensures
        r@ == new_message_frame(q@),
{
    let mut text = "{\"author\":{\"id\":".to_owned();
    text.append(q.author_id.as_str());
    text.append(",\"username\":");
    text.append(q.author_username.as_str());
    text.append("},\"channel_id\":");
    text.append(q.channel_id.as_str());
    text.append(",\"content\":");
    text.append(q.content.as_str());
    text.append(",\"created_at\":");
    text.append(q.created_at.as_str());
    text.append(",\"id\":");
    text.append(q.id.as_str());
    text.append(",\"msg_type\":");
    text.append(q.msg_type.as_str());
    text.append("}");
    text
}

/// The fields of a posted message, each turned into JSON text. Every field is
/// a string, so every field has its text.
fn quote_payload(payload: &SocketMessagePayload) -> (r: Result<QuotedMessage, SerializationError>)
    ensures
        r is Ok,
        r matches Ok(q) ==> q@ == quoted(payload@),
{
    let author_id = match quote(payload.author.id.as_str()) {
        Ok(text) => text,
        Err(cause) => { return Err(SerializationError { cause }); },
    };
    let author_username = match quote(payload.author.username.as_str()) {
        Ok(text) => text,
        Err(cause) => { return Err(SerializationError { cause }); },
    };
    let channel_id = match quote(payload.channel_id.as_str()) {
        Ok(text) => text,
        Err(cause) => { return Err(SerializationError { cause }); },
    };
    let content = match quote(payload.content.as_str()) {
        Ok(text) => text,
        Err(cause) => { return Err(SerializationError { cause }); },
    };
    let created_at = match quote(payload.created_at.as_str()) {
        Ok(text) => text,
        Err(cause) => { return Err(SerializationError { cause }); },
    };
    let id = match quote(payload.id.as_str()) {
        Ok(text) => text,
        Err(cause) => { return Err(SerializationError { cause }); },
    };
    let msg_type = match quote(payload.msg_type.as_str()) {
        Ok(text) => text,
        Err(cause) => { return Err(SerializationError { cause }); },
    };
    Ok(QuotedMessage { author_id, author_username, channel_id, content, created_at, id, msg_type })
}

impl ServerMessage {
    /// The `msg_type` that tells the kinds apart on the wire.
    pub fn msg_type(&self) -> (r: String)
        ensures
            r@ == self@.msg_type(),
    {
        match self {
            ServerMessage::NewMessage(payload) => payload.msg_type.clone(),
            ServerMessage::GuildDataUpdate { .. } => "guild_data_update".to_owned(),
            ServerMessage::UserGuildDataUpdate => "user_guild_data_update".to_owned(),
        }
    }

    /// The message as text for the wire: the object made of its fields, each
    /// of which goes through the JSON serializer. Every message has its text.
    pub fn encode(&self) -> (r: Result<String, SerializationError>)
        ensures
            r is Ok,
            r matches Ok(text) ==> text@ == self@.json(),
    {
        match self {
            ServerMessage::NewMessage(payload) => match quote_payload(payload) {
                Ok(q) => Ok(new_message_text(&q)),
                Err(error) => Err(error),
            },
            ServerMessage::GuildDataUpdate { guild_id } => match quote(guild_id.as_str()) {
                Ok(text) => Ok(guild_data_update_text(text.as_str())),
                Err(cause) => Err(SerializationError { cause }),
            },
            ServerMessage::UserGuildDataUpdate => Ok(user_guild_data_update_text()),
        }
    }
}

} // verus!
