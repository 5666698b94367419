//! What travels over the bus: one event for every committed change.

use vstd::prelude::*;
use crate::model::{User, UserView};

verus! {

/// The body of a posted message as clients receive it.
#[derive(Debug, PartialEq, Eq)]
pub struct SocketMessagePayload {
    pub msg_type: String,
    pub content: String,
    pub author: User,
    pub channel_id: String,
    pub created_at: String,
    pub id: String,
}

/// What a [`SocketMessagePayload`] stands for in contracts.
pub struct SocketMessagePayloadView {
    pub msg_type: Seq<char>,
    pub content: Seq<char>,
    pub author: UserView,
    pub channel_id: Seq<char>,
    pub created_at: Seq<char>,
    pub id: Seq<char>,
}

impl View for SocketMessagePayload {
    type V = SocketMessagePayloadView;

    open spec fn view(&self) -> SocketMessagePayloadView {
        SocketMessagePayloadView {
            msg_type: self.msg_type@,
            content: self.content@,
            author: self.author@,
            channel_id: self.channel_id@,
            created_at: self.created_at@,
            id: self.id@,
        }
    }
}

impl Clone for SocketMessagePayload {
    fn clone(&self) -> (r: Self)
        ensures
            r@ == self@,
    {
        SocketMessagePayload {
            msg_type: self.msg_type.clone(),
            content: self.content.clone(),
            author: self.author.clone(),
            channel_id: self.channel_id.clone(),
            created_at: self.created_at.clone(),
            id: self.id.clone(),
        }
    }
}

/// An event on the bus.
#[derive(Debug, PartialEq, Eq)]
pub enum SocketMessageType {
    /// A message was posted; the second field is the channel it was posted in.
    NewMessage(SocketMessagePayload, String),
    /// The topology of the guild with this identifier changed.
    GuildDataUpdate(String),
    /// The memberships of the user with this identifier changed.
    UserGuildDataUpdate(String),
}

/// What a [`SocketMessageType`] stands for in contracts.
pub enum SocketMessageTypeView {
    NewMessage(SocketMessagePayloadView, Seq<char>),
    GuildDataUpdate(Seq<char>),
    UserGuildDataUpdate(Seq<char>),
}

impl View for SocketMessageType {
    type V = SocketMessageTypeView;

    open spec fn view(&self) -> SocketMessageTypeView {
        match *self {
            SocketMessageType::NewMessage(payload, channel_id) => SocketMessageTypeView::NewMessage(
                payload@,
                channel_id@,
            ),
            SocketMessageType::GuildDataUpdate(guild_id) => SocketMessageTypeView::GuildDataUpdate(
                guild_id@,
            ),
            SocketMessageType::UserGuildDataUpdate(user_id) => {
                SocketMessageTypeView::UserGuildDataUpdate(user_id@)
            },
        }
    }
}

impl Clone for SocketMessageType {
    fn clone(&self) -> (r: Self)
        ensures
            r@ == self@,
    {
        match self {
            SocketMessageType::NewMessage(payload, channel_id) => SocketMessageType::NewMessage(
                payload.clone(),
                channel_id.clone(),
            ),
            SocketMessageType::GuildDataUpdate(guild_id) => SocketMessageType::GuildDataUpdate(
                guild_id.clone(),
            ),
            SocketMessageType::UserGuildDataUpdate(user_id) => {
                SocketMessageType::UserGuildDataUpdate(user_id.clone())
            },
        }
    }
}

/// The unit the bus carries: one event.
#[derive(Debug, PartialEq, Eq)]
pub struct SocketPayload {
    pub message: SocketMessageType,
}

impl View for SocketPayload {
    type V = SocketMessageTypeView;

    open spec fn view(&self) -> SocketMessageTypeView {
        self.message@
    }
}

impl Clone for SocketPayload {
    fn clone(&self) -> (r: Self)
        ensures
            r@ == self@,
    {
        SocketPayload { message: self.message.clone() }
    }
}

} // verus!
