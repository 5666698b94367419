//! What the request handlers decide.
//!
//! A handler reads the store, decides, writes, and publishes. The reads and
//! writes happen outside this library; this module holds the decisions: who
//! may do what, what a refused request is answered with, and which event a
//! committed change puts on the bus.

use vstd::prelude::*;
use crate::event::{
    SocketMessagePayload, SocketMessagePayloadView, SocketMessageType, SocketMessageTypeView,
    SocketPayload,
};
use crate::model::{
    guild_ids_of, membership_views, Channel, ChannelView, Guild, GuildView, Membership,
    MembershipView, Message, MessageView,
};
use crate::persistence::PersistenceError;

verus! {

/// The body of a registration or login request.
#[derive(Debug, PartialEq, Eq)]
pub struct AuthPayload {
    pub username: String,
    pub password: String,
}

/// The body of a request that posts a message.
#[derive(Debug, PartialEq, Eq)]
pub struct MessagePayload {
    pub content: String,
}

/// The body of a request that creates a guild or a channel.
#[derive(Debug, PartialEq, Eq)]
pub struct ItemCreatePayload {
    pub name: String,
}

/// The body of a request that joins a guild by invite.
#[derive(Debug, PartialEq, Eq)]
pub struct InvitePayload {
    pub code: String,
}

/// Why a request is refused.
#[derive(Debug, Clone, Copy, PartialEq, Eq, Structural)]
pub enum Rejection {
    /// The request carries no valid credential.
    Unauthorized,
    /// The user named by the credential is not in the store.
    UserNotFound,
    /// No account has the given name.
    AccountNotFound,
    /// The channel is not in the store, or its messages cannot be read.
    ChannelNotFound,
    /// The guild is not in the store.
    GuildNotFound,
    /// The user has not joined the guild of the channel.
    NotAMember,
    /// Only the owner may delete a guild.
    NotTheOwner,
    /// Only the owner may add channels to a guild.
    NoManagementPermission,
    /// The password does not belong to the account.
    IncorrectPassword,
    /// The message could not be stored.
    MessageSendingFailed,
    /// A write to the store failed.
    Internal,
}

impl Rejection {
    /// The HTTP status a refused request is answered with.
    pub open spec fn status_code(self) -> u16 {
        match self {
            Rejection::Unauthorized => 401,
            Rejection::UserNotFound => 404,
            Rejection::AccountNotFound => 404,
            Rejection::ChannelNotFound => 404,
            Rejection::GuildNotFound => 404,
            Rejection::NotAMember => 403,
            Rejection::NotTheOwner => 403,
            Rejection::NoManagementPermission => 403,
            Rejection::IncorrectPassword => 403,
            Rejection::MessageSendingFailed => 404,
            Rejection::Internal => 500,
        }
    }

    /// The text of the `error` field in the answer; a request without a valid
    /// credential is answered without a body.
    pub open spec fn error_text(self) -> Option<Seq<char>> {
        match self {
            Rejection::Unauthorized => None,
            Rejection::UserNotFound => Some("User not found."@),
            Rejection::AccountNotFound => Some("User not found"@),
            Rejection::ChannelNotFound => Some("Channel not found."@),
            Rejection::GuildNotFound => Some("Guild not found."@),
            Rejection::NotAMember => Some("User is not a member of the guild."@),
            Rejection::NotTheOwner => Some("You are not the owner of this guild."@),
            Rejection::NoManagementPermission => Some(
                "You do not have management permissions in the specified guild."@,
            ),
            Rejection::IncorrectPassword => Some("Incorrect password"@),
            Rejection::MessageSendingFailed => Some("Message sending failed"@),
            Rejection::Internal => Some("An error occured."@),
        }
    }

    /// The HTTP status a refused request is answered with.
    pub fn status(&self) -> (r: u16)
        ensures
            r == self.status_code(),
    {
        match self {
            Rejection::Unauthorized => 401,
            Rejection::UserNotFound => 404,
            Rejection::AccountNotFound => 404,
            Rejection::ChannelNotFound => 404,
            Rejection::GuildNotFound => 404,
            Rejection::NotAMember => 403,
            Rejection::NotTheOwner => 403,
            Rejection::NoManagementPermission => 403,
            Rejection::IncorrectPassword => 403,
            Rejection::MessageSendingFailed => 404,
            Rejection::Internal => 500,
        }
    }

    /// The text of the `error` field in the answer, if the answer has a body.
    pub fn message(&self) -> (r: Option<String>)
        ensures
            r is Some == self.error_text() is Some,
            r matches Some(text) ==> text@ == self.error_text()->0,
    {
        match self {
            Rejection::Unauthorized => None,
            Rejection::UserNotFound => Some("User not found.".to_owned()),
            Rejection::AccountNotFound => Some("User not found".to_owned()),
            Rejection::ChannelNotFound => Some("Channel not found.".to_owned()),
            Rejection::GuildNotFound => Some("Guild not found.".to_owned()),
            Rejection::NotAMember => Some("User is not a member of the guild.".to_owned()),
            Rejection::NotTheOwner => Some("You are not the owner of this guild.".to_owned()),
            Rejection::NoManagementPermission => Some(
                "You do not have management permissions in the specified guild.".to_owned(),
            ),
            Rejection::IncorrectPassword => Some("Incorrect password".to_owned()),
            Rejection::MessageSendingFailed => Some("Message sending failed".to_owned()),
            Rejection::Internal => Some("An error occured.".to_owned()),
        }
    }
}

/// A write to the store that a handler makes.
#[derive(Debug, Clone, Copy, PartialEq, Eq, Structural)]
pub enum Write {
    /// A new account.
    User,
    /// A new guild.
    Guild,
    /// The removal of a guild with all that belongs to it.
    GuildDeletion,
    /// A new membership, of the creator of a guild or of a user who joins one.
    Membership,
    /// A new channel.
    Channel,
    /// A new invite.
    Invite,
    /// A new message.
    Message,
}

impl Write {
    /// What a request is refused with when this write fails. A message that
    /// cannot be stored has an answer of its own; every other failed write is
    /// an error of the server.
    pub open spec fn refusal(self) -> Rejection {
        match self {
            Write::Message => Rejection::MessageSendingFailed,
            _ => Rejection::Internal,
        }
    }
}

/// What a request is refused with when a write to the store fails.
pub fn write_refusal(write: Write) -> (r: Rejection)
    ensures
        r == write.refusal(),
{
    match write {
        Write::Message => Rejection::MessageSendingFailed,
        _ => Rejection::Internal,
    }
}

/// A read of the store that a handler makes.
#[derive(Debug, Clone, Copy, PartialEq, Eq, Structural)]
pub enum Read {
    /// The user that a credential names.
    User,
    /// The account with a given name.
    Account,
    /// The guilds that a user has joined.
    UserGuilds,
    /// A channel.
    Channel,
    /// The messages of a channel.
    Messages,
    /// A guild.
    Guild,
    /// The invite with a given code.
    Invite,
}

impl Read {
    /// What a request is refused with when this read fails: that what was
    /// looked for is not there. A user's guilds are missed as the account is,
    /// and the messages of a channel as the channel is. An invite that cannot
    /// be read is an error of the server.
    pub open spec fn refusal(self) -> Rejection {
        match self {
            Read::User => Rejection::UserNotFound,
            Read::Account => Rejection::AccountNotFound,
            Read::UserGuilds => Rejection::AccountNotFound,
            Read::Channel => Rejection::ChannelNotFound,
            Read::Messages => Rejection::ChannelNotFound,
            Read::Guild => Rejection::GuildNotFound,
            Read::Invite => Rejection::Internal,
        }
    }
}

/// What a request is refused with when a read of the store fails.
pub fn read_refusal(read: Read) -> (r: Rejection)
    ensures
        r == read.refusal(),
{
    match read {
        Read::User => Rejection::UserNotFound,
        Read::Account => Rejection::AccountNotFound,
        Read::UserGuilds => Rejection::AccountNotFound,
        Read::Channel => Rejection::ChannelNotFound,
        Read::Messages => Rejection::ChannelNotFound,
        Read::Guild => Rejection::GuildNotFound,
        Read::Invite => Rejection::Internal,
    }
}

/// Whether one of `memberships` is in the guild `guild_id`.
pub fn is_member_of(memberships: &Vec<Membership>, guild_id: &String) -> (r: bool)
    ensures
        r == guild_ids_of(membership_views(memberships@)).contains(guild_id@),
{
    let ghost ids = guild_ids_of(membership_views(memberships@));
    let mut k: usize = 0;
    while k < memberships.len()
        invariant
            k <= memberships.len(),
            ids == guild_ids_of(membership_views(memberships@)),
            forall|j: int| 0 <= j < k ==> ids[j] != guild_id@,
        decreases memberships.len() - k,
    {
        if memberships[k].guild_id == *guild_id {
            assert(ids[k as int] == guild_id@);
            return true;
        }
        k = k + 1;
    }
    false
}

/// Whether a user may read or post in a channel, as a function of what the
/// store answered about the user's memberships and about the channel.
pub open spec fn channel_access_of(
    memberships: Result<Seq<MembershipView>, PersistenceError>,
    channel: Result<ChannelView, PersistenceError>,
) -> Result<(), Rejection> {
    match (memberships, channel) {
        (Err(_), _) => Err(Rejection::UserNotFound),
        (Ok(_), Err(_)) => Err(Rejection::ChannelNotFound),
        (Ok(ms), Ok(c)) => if guild_ids_of(ms).contains(c.guild_id) {
            Ok(())
        } else {
            Err(Rejection::NotAMember)
        },
    }
}

/// The view of what the store answered about a user's memberships.
pub open spec fn memberships_lookup_view(
    lookup: Result<Vec<Membership>, PersistenceError>,
) -> Result<Seq<MembershipView>, PersistenceError> {
    match lookup {
        Ok(ms) => Ok(membership_views(ms@)),
        Err(e) => Err(e),
    }
}

/// The view of what the store answered about a channel.
pub open spec fn channel_lookup_view(lookup: Result<Channel, PersistenceError>) -> Result<
    ChannelView,
    PersistenceError,
> {
    match lookup {
        Ok(c) => Ok(c@),
        Err(e) => Err(e),
    }
}

/// The view of what the store answered about a guild.
pub open spec fn guild_lookup_view(lookup: Result<Guild, PersistenceError>) -> Result<
    GuildView,
    PersistenceError,
> {
    match lookup {
        Ok(g) => Ok(g@),
        Err(e) => Err(e),
    }
}

/// Decides whether a user may read or post in a channel. A user who is not in
/// the store is refused first, then a channel that is not, then a user who
/// has not joined the channel's guild.
pub fn channel_access(
    memberships: &Result<Vec<Membership>, PersistenceError>,
    channel: &Result<Channel, PersistenceError>,
) -> (r: Result<(), Rejection>)
    ensures
        r == channel_access_of(memberships_lookup_view(*memberships), channel_lookup_view(*channel)),
{
    match memberships {
        Err(_) => Err(Rejection::UserNotFound),
        Ok(ms) => match channel {
            Err(_) => Err(Rejection::ChannelNotFound),
            Ok(c) => if is_member_of(ms, &c.guild_id) {
                Ok(())
            } else {
                Err(Rejection::NotAMember)
            },
        },
    }
}

/// Whether a user may do what only the owner of a guild may, as a function of
/// what the store answered about the guild; `refusal` is what a user who is
/// not the owner is refused with.
pub open spec fn owner_access_of(
    guild: Result<GuildView, PersistenceError>,
    user_id: Seq<char>,
    refusal: Rejection,
) -> Result<(), Rejection> {
    match guild {
        Err(_) => Err(Rejection::GuildNotFound),
        Ok(g) => if g.owner_id == user_id {
            Ok(())
        } else {
            Err(refusal)
        },
    }
}

fn owner_access(guild: &Result<Guild, PersistenceError>, user_id: &String, refusal: Rejection) -> (r:
    Result<(), Rejection>)
    ensures
        r == owner_access_of(guild_lookup_view(*guild), user_id@, refusal),
{
    match guild {
        Err(_) => Err(Rejection::GuildNotFound),
        Ok(g) => if g.owner_id == *user_id {
            Ok(())
        } else {
            Err(refusal)
        },
    }
}

/// Decides whether a user may delete a guild: the guild must be in the store
/// and the user must own it.
pub fn guild_deletion(guild: &Result<Guild, PersistenceError>, user_id: &String) -> (r: Result<
    (),
    Rejection,
>)
    ensures
        r == owner_access_of(guild_lookup_view(*guild), user_id@, Rejection::NotTheOwner),
{
    owner_access(guild, user_id, Rejection::NotTheOwner)
}

/// Decides whether a user may add a channel to a guild: the guild must be in
/// the store and the user must own it.
pub fn channel_creation(guild: &Result<Guild, PersistenceError>, user_id: &String) -> (r: Result<
    (),
    Rejection,
>)
    ensures
        r == owner_access_of(
            guild_lookup_view(*guild),
            user_id@,
            Rejection::NoManagementPermission,
        ),
{
    owner_access(guild, user_id, Rejection::NoManagementPermission)
}

/// A change that a handler has committed to the store.
#[derive(Debug, PartialEq, Eq)]
pub enum Mutation {
    /// A message was stored.
    MessagePosted { message: Message },
    /// A guild was created; its creator owns it and is its first member.
    GuildCreated { guild_id: String, owner_id: String },
    /// A guild was deleted by its owner; it is gone for all its members.
    GuildDeleted { guild_id: String, owner_id: String },
    /// A channel was added to a guild.
    ChannelCreated { guild_id: String, channel_id: String },
    /// A user joined a guild by invite; the user has one membership more.
    MemberJoined { guild_id: String, user_id: String },
}

/// What a [`Mutation`] stands for in contracts.
pub enum MutationView {
    MessagePosted { message: MessageView },
    GuildCreated { guild_id: Seq<char>, owner_id: Seq<char> },
    GuildDeleted { guild_id: Seq<char>, owner_id: Seq<char> },
    ChannelCreated { guild_id: Seq<char>, channel_id: Seq<char> },
    MemberJoined { guild_id: Seq<char>, user_id: Seq<char> },
}

impl View for Mutation {
    type V = MutationView;

    open spec fn view(&self) -> MutationView {
        match *self {
            Mutation::MessagePosted { message } => MutationView::MessagePosted { message: message@ },
            Mutation::GuildCreated { guild_id, owner_id } => MutationView::GuildCreated {
                guild_id: guild_id@,
                owner_id: owner_id@,
            },
            Mutation::GuildDeleted { guild_id, owner_id } => MutationView::GuildDeleted {
                guild_id: guild_id@,
                owner_id: owner_id@,
            },
            Mutation::ChannelCreated { guild_id, channel_id } => MutationView::ChannelCreated {
                guild_id: guild_id@,
                channel_id: channel_id@,
            },
            Mutation::MemberJoined { guild_id, user_id } => MutationView::MemberJoined {
                guild_id: guild_id@,
                user_id: user_id@,
            },
        }
    }
}

/// A stored message as clients receive it.
pub open spec fn payload_of(message: MessageView) -> SocketMessagePayloadView {
    SocketMessagePayloadView {
        msg_type: "new_message"@,
        content: message.content,
        author: message.author,
        channel_id: message.channel_id,
        created_at: message.created_at,
        id: message.id,
    }
}

impl MutationView {
    /// The one event that the change puts on the bus: the one that reaches
    /// every session whose snapshot the change has made stale. A posted
    /// message is announced with its channel. A guild that is created or
    /// joined changes the memberships of one user, its creator or its new
    /// member, whose sessions do not hold the guild yet. A guild that gains a
    /// channel or is deleted changes for all who have joined it.
    pub open spec fn event(self) -> SocketMessageTypeView {
        match self {
            MutationView::MessagePosted { message } => SocketMessageTypeView::NewMessage(
                payload_of(message),
                message.channel_id,
            ),
            MutationView::GuildCreated { owner_id, .. } => {
                SocketMessageTypeView::UserGuildDataUpdate(owner_id)
            },
            MutationView::GuildDeleted { guild_id, .. } => SocketMessageTypeView::GuildDataUpdate(
                guild_id,
            ),
            MutationView::ChannelCreated { guild_id, .. } => SocketMessageTypeView::GuildDataUpdate(
                guild_id,
            ),
            MutationView::MemberJoined { user_id, .. } => {
                SocketMessageTypeView::UserGuildDataUpdate(user_id)
            },
        }
    }
}

/// A stored message as clients receive it.
pub fn new_message_payload(message: Message) -> (r: SocketMessagePayload)
    ensures
        r@ == payload_of(message@),
{
    SocketMessagePayload {
        msg_type: "new_message".to_owned(),
        content: message.content,
        author: message.author,
        channel_id: message.channel_id,
        created_at: message.created_at,
        id: message.id,
    }
}

/// The one event that a committed change puts on the bus.
pub fn event_for(mutation: Mutation) -> (r: SocketPayload)
    ensures
        r@ == mutation@.event(),
{
    let message = match mutation {
        Mutation::MessagePosted { message } => {
            let channel_id = message.channel_id.clone();
            SocketMessageType::NewMessage(new_message_payload(message), channel_id)
        },
        Mutation::GuildCreated { guild_id: _, owner_id } => SocketMessageType::UserGuildDataUpdate(
            owner_id,
        ),
        Mutation::GuildDeleted { guild_id, owner_id: _ } => SocketMessageType::GuildDataUpdate(
            guild_id,
        ),
        Mutation::ChannelCreated { guild_id, channel_id: _ } => SocketMessageType::GuildDataUpdate(
            guild_id,
        ),
        Mutation::MemberJoined { guild_id: _, user_id } => SocketMessageType::UserGuildDataUpdate(
            user_id,
        ),
    };
    SocketPayload { message }
}

} // verus!
