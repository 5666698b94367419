//! The records the service works with: users, channels and guilds.
//!
//! Identifiers are opaque strings. Two identifiers name the same thing exactly
//! when their character sequences are equal, so every contract compares
//! identifiers through their views.

use vstd::prelude::*;

verus! {

/// An account: identity only.
#[derive(Debug, PartialEq, Eq)]
pub struct User {
    pub id: String,
    pub username: String,
}

/// What a [`User`] stands for in contracts.
pub struct UserView {
    pub id: Seq<char>,
    pub username: Seq<char>,
}

impl View for User {
    type V = UserView;

    open spec fn view(&self) -> UserView {
        UserView { id: self.id@, username: self.username@ }
    }
}

impl Clone for User {
    fn clone(&self) -> (r: Self)
        ensures
            r@ == self@,
    {
        User { id: self.id.clone(), username: self.username.clone() }
    }
}

/// A channel of a guild.
#[derive(Debug, PartialEq, Eq)]
pub struct Channel {
    pub id: String,
    pub guild_id: String,
    pub name: String,
}

/// What a [`Channel`] stands for in contracts.
pub struct ChannelView {
    pub id: Seq<char>,
    pub guild_id: Seq<char>,
    pub name: Seq<char>,
}

impl View for Channel {
    type V = ChannelView;

    open spec fn view(&self) -> ChannelView {
        ChannelView { id: self.id@, guild_id: self.guild_id@, name: self.name@ }
    }
}

impl Clone for Channel {
    fn clone(&self) -> (r: Self)
        ensures
            r@ == self@,
    {
        Channel { id: self.id.clone(), guild_id: self.guild_id.clone(), name: self.name.clone() }
    }
}

/// A guild together with its channels, in the order the store keeps them.
#[derive(Debug, PartialEq, Eq)]
pub struct Guild {
    pub id: String,
    pub name: String,
    pub owner_id: String,
    pub channels: Vec<Channel>,
}

/// What a [`Guild`] stands for in contracts.
pub struct GuildView {
    pub id: Seq<char>,
    pub name: Seq<char>,
    pub owner_id: Seq<char>,
    pub channels: Seq<ChannelView>,
}

impl GuildView {
    /// Whether one of the guild's channels has the identifier `channel_id`.
    pub open spec fn has_channel(self, channel_id: Seq<char>) -> bool {
        exists|k: int| 0 <= k < self.channels.len() && #[trigger] self.channels[k].id == channel_id
    }
}

/// The views of a list of channels, in order.
pub open spec fn channel_views(channels: Seq<Channel>) -> Seq<ChannelView> {
    Seq::new(channels.len(), |k: int| channels[k]@)
}

/// The views of a list of guilds, in order.
pub open spec fn guild_views(guilds: Seq<Guild>) -> Seq<GuildView> {
    Seq::new(guilds.len(), |k: int| guilds[k]@)
}

/// The views of a list of identifiers, in order.
pub open spec fn id_views(ids: Seq<String>) -> Seq<Seq<char>> {
    Seq::new(ids.len(), |k: int| ids[k]@)
}

impl View for Guild {
    type V = GuildView;

    open spec fn view(&self) -> GuildView {
        GuildView {
            id: self.id@,
            name: self.name@,
            owner_id: self.owner_id@,
            channels: channel_views(self.channels@),
        }
    }
}

/// A copy of a list of channels.
pub fn clone_channels(channels: &Vec<Channel>) -> (r: Vec<Channel>)
    ensures
        channel_views(r@) == channel_views(channels@),
{
    let mut out: Vec<Channel> = Vec::new();
    let mut k: usize = 0;
    while k < channels.len()
        invariant
            k <= channels.len(),
            out.len() == k,
            forall|j: int| 0 <= j < k ==> out[j]@ == channels[j]@,
        decreases channels.len() - k,
    {
        out.push(channels[k].clone());
        k = k + 1;
    }
    assert(channel_views(out@) =~= channel_views(channels@));
    out
}

/// A copy of a list of identifiers.
pub fn clone_ids(ids: &Vec<String>) -> (r: Vec<String>)
    ensures
        id_views(r@) == id_views(ids@),
{
    let mut out: Vec<String> = Vec::new();
    let mut k: usize = 0;
    while k < ids.len()
        invariant
            k <= ids.len(),
            out.len() == k,
            forall|j: int| 0 <= j < k ==> out[j]@ == ids[j]@,
        decreases ids.len() - k,
    {
        out.push(ids[k].clone());
        k = k + 1;
    }
    assert(id_views(out@) =~= id_views(ids@));
    out
}

impl Clone for Guild {
    fn clone(&self) -> (r: Self)
        ensures
            r@ == self@,
    {
        Guild {
            id: self.id.clone(),
            name: self.name.clone(),
            owner_id: self.owner_id.clone(),
            channels: clone_channels(&self.channels),
        }
    }
}

/// That a user has joined a guild.
#[derive(Debug, PartialEq, Eq)]
pub struct Membership {
    pub user_id: String,
    pub guild_id: String,
}

/// What a [`Membership`] stands for in contracts.
pub struct MembershipView {
    pub user_id: Seq<char>,
    pub guild_id: Seq<char>,
}

impl View for Membership {
    type V = MembershipView;

    open spec fn view(&self) -> MembershipView {
        MembershipView { user_id: self.user_id@, guild_id: self.guild_id@ }
    }
}

impl Clone for Membership {
    fn clone(&self) -> (r: Self)
        ensures
            r@ == self@,
    {
        Membership { user_id: self.user_id.clone(), guild_id: self.guild_id.clone() }
    }
}

/// The views of a list of memberships, in order.
pub open spec fn membership_views(memberships: Seq<Membership>) -> Seq<MembershipView> {
    Seq::new(memberships.len(), |k: int| memberships[k]@)
}

/// The guilds that a list of memberships names, in order.
pub open spec fn guild_ids_of(memberships: Seq<MembershipView>) -> Seq<Seq<char>> {
    Seq::new(memberships.len(), |k: int| memberships[k].guild_id)
}

/// The identifiers of the guilds that `memberships` names, in order.
pub fn membership_guild_ids(memberships: &Vec<Membership>) -> (r: Vec<String>)
    ensures
        id_views(r@) == guild_ids_of(membership_views(memberships@)),
{
    let mut out: Vec<String> = Vec::new();
    let mut k: usize = 0;
    while k < memberships.len()
        invariant
            k <= memberships.len(),
            out.len() == k,
            forall|j: int| 0 <= j < k ==> out[j]@ == memberships[j].guild_id@,
        decreases memberships.len() - k,
    {
        out.push(memberships[k].guild_id.clone());
        k = k + 1;
    }
    assert(id_views(out@) =~= guild_ids_of(membership_views(memberships@)));
    out
}

/// A message posted in a channel. `created_at` is the time of posting as an
/// RFC 3339 text.
#[derive(Debug, PartialEq, Eq)]
pub struct Message {
    pub id: String,
    pub channel_id: String,
    pub author: User,
    pub content: String,
    pub created_at: String,
}

/// What a [`Message`] stands for in contracts.
pub struct MessageView {
    pub id: Seq<char>,
    pub channel_id: Seq<char>,
    pub author: UserView,
    pub content: Seq<char>,
    pub created_at: Seq<char>,
}

impl View for Message {
    type V = MessageView;

    open spec fn view(&self) -> MessageView {
        MessageView {
            id: self.id@,
            channel_id: self.channel_id@,
            author: self.author@,
            content: self.content@,
            created_at: self.created_at@,
        }
    }
}

impl Clone for Message {
    fn clone(&self) -> (r: Self)
        ensures
            r@ == self@,
    {
        Message {
            id: self.id.clone(),
            channel_id: self.channel_id.clone(),
            author: self.author.clone(),
            content: self.content.clone(),
            created_at: self.created_at.clone(),
        }
    }
}

/// Whether `id` occurs in `ids`.
pub fn contains_id(ids: &Vec<String>, id: &String) -> (r: bool)
    ensures
        r == id_views(ids@).contains(id@),
{
    let mut k: usize = 0;
    while k < ids.len()
        invariant
            k <= ids.len(),
            forall|j: int| 0 <= j < k ==> ids[j]@ != id@,
        decreases ids.len() - k,
    {
        if ids[k] == *id {
            assert(id_views(ids@)[k as int] == id@);
            return true;
        }
        k = k + 1;
    }
    false
}

} // verus!
