//! What a session asks of the store, and what the store answers.
//!
//! The store itself lives outside this library. A session names the read it
//! needs with a [`FetchRequest`]; whoever drives the session performs the read
//! and hands back a [`FetchReply`].

use vstd::prelude::*;
use crate::model::{guild_views, id_views, Guild, GuildView};

verus! {

/// Why a read of the store failed.
#[derive(Debug, Clone, Copy, PartialEq, Eq, Structural)]
pub enum PersistenceError {
    /// The record asked for does not exist.
    NotFound,
    /// The store could not be reached or answered with an error.
    Io,
}

/// A read of the store that a session needs.
#[derive(Debug, PartialEq, Eq)]
pub enum FetchRequest {
    /// The guilds with these identifiers, each with its channels.
    Topology { guild_ids: Vec<String> },
    /// The memberships of this user, and the guilds they name with their channels.
    Everything { user_id: String },
}

/// What a [`FetchRequest`] stands for in contracts.
pub enum FetchRequestView {
    Topology { guild_ids: Seq<Seq<char>> },
    Everything { user_id: Seq<char> },
}

impl View for FetchRequest {
    type V = FetchRequestView;

    open spec fn view(&self) -> FetchRequestView {
        match *self {
            FetchRequest::Topology { guild_ids } => FetchRequestView::Topology {
                guild_ids: id_views(guild_ids@),
            },
            FetchRequest::Everything { user_id } => FetchRequestView::Everything {
                user_id: user_id@,
            },
        }
    }
}

/// The store's answer to a [`FetchRequest`].
#[derive(Debug, PartialEq, Eq)]
pub enum FetchReply {
    /// The answer to [`FetchRequest::Topology`].
    Topology { guilds: Vec<Guild> },
    /// The answer to [`FetchRequest::Everything`].
    Everything { memberships: Vec<String>, guilds: Vec<Guild> },
    /// The read failed.
    Failed(PersistenceError),
}

/// What a [`FetchReply`] stands for in contracts.
pub enum FetchReplyView {
    Topology { guilds: Seq<GuildView> },
    Everything { memberships: Seq<Seq<char>>, guilds: Seq<GuildView> },
    Failed(PersistenceError),
}

impl View for FetchReply {
    type V = FetchReplyView;

    open spec fn view(&self) -> FetchReplyView {
        match *self {
            FetchReply::Topology { guilds } => FetchReplyView::Topology {
                guilds: guild_views(guilds@),
            },
            FetchReply::Everything { memberships, guilds } => FetchReplyView::Everything {
                memberships: id_views(memberships@),
                guilds: guild_views(guilds@),
            },
            FetchReply::Failed(error) => FetchReplyView::Failed(error),
        }
    }
}

} // verus!
