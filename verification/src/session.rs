//! One session per connection: a state machine over bus events.
//!
//! A session never waits and never reads the store itself. Whoever drives it
//! hands it one [`SessionInput`] at a time and carries out the
//! [`SessionAction`] it answers with: a read of the store, whose reply comes
//! back as the next input; a message for the client; or the end of the
//! connection. The session goes from [`Phase::Bootstrapping`] to
//! [`Phase::Active`] to [`Phase::Closed`] and never back.

use vstd::prelude::*;
use crate::envelope::{ServerMessage, ServerMessageView};
use crate::event::{SocketMessageType, SocketMessageTypeView, SocketPayload};
use crate::model::clone_ids;
use crate::persistence::{FetchReply, FetchReplyView, FetchRequest, FetchRequestView};
use crate::snapshot::{snapshot_of, Snapshot, SnapshotView};

verus! {

/// Where a session is in its life.
#[derive(Debug, Clone, Copy, PartialEq, Eq, Structural)]
pub enum Phase {
    /// The first read of the store is under way; nothing is forwarded yet.
    Bootstrapping,
    /// The session filters bus events against its snapshot.
    Active,
    /// The connection is gone. Nothing is processed any more.
    Closed,
}

/// The refresh whose reply an active session is waiting for.
#[derive(Debug, PartialEq, Eq)]
pub enum Awaited {
    /// The topology, because the guild `guild_id` changed.
    Topology { guild_id: String },
    /// Memberships and topology, because the user's memberships changed.
    Memberships,
    /// Memberships and topology, because the bus reported lost events.
    Resync,
}

/// What an [`Awaited`] stands for in contracts.
pub enum AwaitedView {
    Topology { guild_id: Seq<char> },
    Memberships,
    Resync,
}

impl View for Awaited {
    type V = AwaitedView;

    open spec fn view(&self) -> AwaitedView {
        match *self {
            Awaited::Topology { guild_id } => AwaitedView::Topology { guild_id: guild_id@ },
            Awaited::Memberships => AwaitedView::Memberships,
            Awaited::Resync => AwaitedView::Resync,
        }
    }
}

/// The view of an optional awaited refresh.
pub open spec fn awaited_view(awaited: Option<Awaited>) -> Option<AwaitedView> {
    match awaited {
        Some(a) => Some(a@),
        None => None,
    }
}

/// What happened outside, as the driver of a session reports it.
#[derive(Debug, PartialEq, Eq)]
pub enum SessionInput {
    /// The store answered the read the session last asked for.
    Fetched(FetchReply),
    /// The bus delivered an event.
    Event(SocketPayload),
    /// The bus reported that this subscriber fell behind and lost events.
    Lagged,
    /// The client disconnected, or the connection failed.
    Disconnected,
}

/// What a [`SessionInput`] stands for in contracts.
pub enum SessionInputView {
    Fetched(FetchReplyView),
    Event(SocketMessageTypeView),
    Lagged,
    Disconnected,
}

impl View for SessionInput {
    type V = SessionInputView;

    open spec fn view(&self) -> SessionInputView {
        match *self {
            SessionInput::Fetched(reply) => SessionInputView::Fetched(reply@),
            SessionInput::Event(payload) => SessionInputView::Event(payload@),
            SessionInput::Lagged => SessionInputView::Lagged,
            SessionInput::Disconnected => SessionInputView::Disconnected,
        }
    }
}

/// What the driver of a session is to do next.
#[derive(Debug, PartialEq, Eq)]
pub enum SessionAction {
    /// Nothing: wait for the next input.
    Idle,
    /// Read the store and report the answer as [`SessionInput::Fetched`].
    Fetch(FetchRequest),
    /// Subscribe to the bus; from now on report its events.
    Subscribe,
    /// Send this message to the client.
    Send(ServerMessage),
    /// Unsubscribe from the bus and end the connection.
    Close,
}

/// What a [`SessionAction`] stands for in contracts.
pub enum SessionActionView {
    Idle,
    Fetch(FetchRequestView),
    Subscribe,
    Send(ServerMessageView),
    Close,
}

impl View for SessionAction {
    type V = SessionActionView;

    open spec fn view(&self) -> SessionActionView {
        match *self {
            SessionAction::Idle => SessionActionView::Idle,
            SessionAction::Fetch(request) => SessionActionView::Fetch(request@),
            SessionAction::Subscribe => SessionActionView::Subscribe,
            SessionAction::Send(message) => SessionActionView::Send(message@),
            SessionAction::Close => SessionActionView::Close,
        }
    }
}

/// What a [`Session`] stands for in contracts.
pub struct SessionView {
    /// The user the connection belongs to.
    pub user_id: Seq<char>,
    pub phase: Phase,
    pub snapshot: SnapshotView,
    /// The refresh under way, if any.
    pub awaited: Option<AwaitedView>,
}

impl SessionView {
    /// The session of `user_id` before its first read of the store.
    pub open spec fn opened(user_id: Seq<char>) -> SessionView {
        SessionView {
            user_id,
            phase: Phase::Bootstrapping,
            snapshot: SnapshotView::empty(),
            awaited: None,
        }
    }

    /// This session after its connection has gone: the snapshot is released.
    pub open spec fn closed(self) -> SessionView {
        SessionView {
            user_id: self.user_id,
            phase: Phase::Closed,
            snapshot: SnapshotView::empty(),
            awaited: None,
        }
    }

    /// This session with `snapshot` in place of its own and no refresh under way.
    pub open spec fn refreshed(self, snapshot: SnapshotView) -> SessionView {
        SessionView { user_id: self.user_id, phase: Phase::Active, snapshot, awaited: None }
    }

    /// This session, waiting for the reply to a refresh.
    pub open spec fn awaiting(self, awaited: AwaitedView) -> SessionView {
        SessionView {
            user_id: self.user_id,
            phase: self.phase,
            snapshot: self.snapshot,
            awaited: Some(awaited),
        }
    }

    /// This session with no refresh under way.
    pub open spec fn settled(self) -> SessionView {
        SessionView {
            user_id: self.user_id,
            phase: self.phase,
            snapshot: self.snapshot,
            awaited: None,
        }
    }

    /// The read that refreshes memberships and topology.
    pub open spec fn fetch_everything(self) -> SessionActionView {
        SessionActionView::Fetch(FetchRequestView::Everything { user_id: self.user_id })
    }

    /// The read that refreshes the topology of the guilds already joined.
    pub open spec fn fetch_topology(self) -> SessionActionView {
        SessionActionView::Fetch(
            FetchRequestView::Topology { guild_ids: self.snapshot.memberships },
        )
    }

    /// What a bootstrapping session does with `input`. The one reply that
    /// starts it is the answer to the first read; a failed read, any other
    /// reply and a disconnect end it; nothing else can concern it yet.
    pub open spec fn step_bootstrapping(self, input: SessionInputView) -> (
        SessionView,
        SessionActionView,
    ) {
        match input {
            SessionInputView::Fetched(FetchReplyView::Everything { memberships, guilds }) => (
                self.refreshed(snapshot_of(memberships, guilds)),
                SessionActionView::Subscribe,
            ),
            SessionInputView::Fetched(_) => (self.closed(), SessionActionView::Close),
            SessionInputView::Disconnected => (self.closed(), SessionActionView::Close),
            SessionInputView::Event(_) => (self, SessionActionView::Idle),
            SessionInputView::Lagged => (self, SessionActionView::Idle),
        }
    }

    /// What an active session does with an event from the bus.
    pub open spec fn step_event(self, event: SocketMessageTypeView) -> (
        SessionView,
        SessionActionView,
    ) {
        match event {
            SocketMessageTypeView::NewMessage(payload, channel_id) => {
                if self.snapshot.has_channel(channel_id) {
                    (self, SessionActionView::Send(ServerMessageView::NewMessage(payload)))
                } else {
                    (self, SessionActionView::Idle)
                }
            },
            SocketMessageTypeView::GuildDataUpdate(guild_id) => {
                if self.snapshot.is_member(guild_id) {
                    (self.awaiting(AwaitedView::Topology { guild_id }), self.fetch_topology())
                } else {
                    (self, SessionActionView::Idle)
                }
            },
            SocketMessageTypeView::UserGuildDataUpdate(user_id) => {
                if user_id == self.user_id {
                    (self.awaiting(AwaitedView::Memberships), self.fetch_everything())
                } else {
                    (self, SessionActionView::Idle)
                }
            },
        }
    }

    /// What an active session does with a reply from the store. The reply to
    /// the refresh under way replaces the snapshot as a whole and is followed
    /// by the notice the refresh was started for. A failed read leaves the
    /// snapshot as it was and ends the refresh. A reply that answers no
    /// refresh under way is ignored.
    pub open spec fn step_fetched(self, reply: FetchReplyView) -> (SessionView, SessionActionView) {
        match (self.awaited, reply) {
            (Some(AwaitedView::Topology { guild_id }), FetchReplyView::Topology { guilds }) => (
                self.refreshed(snapshot_of(self.snapshot.memberships, guilds)),
                SessionActionView::Send(ServerMessageView::GuildDataUpdate { guild_id }),
            ),
            (
                Some(AwaitedView::Memberships),
                FetchReplyView::Everything { memberships, guilds },
            ) => (
                self.refreshed(snapshot_of(memberships, guilds)),
                SessionActionView::Send(ServerMessageView::UserGuildDataUpdate),
            ),
            (Some(AwaitedView::Resync), FetchReplyView::Everything { memberships, guilds }) => (
                self.refreshed(snapshot_of(memberships, guilds)),
                SessionActionView::Idle,
            ),
            (_, FetchReplyView::Failed(_)) => (self.settled(), SessionActionView::Idle),
            _ => (self, SessionActionView::Idle),
        }
    }

    /// What an active session does with `input`.
    pub open spec fn step_active(self, input: SessionInputView) -> (SessionView, SessionActionView) {
        match input {
            SessionInputView::Disconnected => (self.closed(), SessionActionView::Close),
            SessionInputView::Lagged => (
                self.awaiting(AwaitedView::Resync),
                self.fetch_everything(),
            ),
            SessionInputView::Event(event) => self.step_event(event),
            SessionInputView::Fetched(reply) => self.step_fetched(reply),
        }
    }

    /// The session after `input`, and what its driver is to do.
    pub open spec fn step(self, input: SessionInputView) -> (SessionView, SessionActionView) {
        match self.phase {
            Phase::Bootstrapping => self.step_bootstrapping(input),
            Phase::Active => self.step_active(input),
            Phase::Closed => (self, SessionActionView::Idle),
        }
    }

    /// What every session that can arise satisfies: its snapshot is well
    /// formed; it holds a snapshot and waits for a refresh only while active;
    /// and a topology refresh is under way only for a guild the user has
    /// joined.
    pub open spec fn wf(self) -> bool {
        &&& self.snapshot.wf()
        &&& self.phase != Phase::Active ==> self.snapshot == SnapshotView::empty()
        &&& self.phase != Phase::Active ==> self.awaited is None
        &&& self.awaited matches Some(AwaitedView::Topology { guild_id })
            ==> self.snapshot.is_member(guild_id)
    }

    /// The place of the session's phase in the order in which phases follow
    /// one another.
    pub open spec fn phase_rank(self) -> nat {
        match self.phase {
            Phase::Bootstrapping => 0,
            Phase::Active => 1,
            Phase::Closed => 2,
        }
    }

    /// The session after it has taken `inputs` one after the other.
    pub open spec fn run(self, inputs: Seq<SessionInputView>) -> SessionView
        decreases inputs.len(),
    {
        if inputs.len() == 0 {
            self
        } else {
            self.run(inputs.drop_last()).step(inputs.last()).0
        }
    }
}

/// The server side of one connection.
pub struct Session {
    user_id: String,
    phase: Phase,
    snapshot: Snapshot,
    awaited: Option<Awaited>,
}

impl View for Session {
    type V = SessionView;

    closed spec fn view(&self) -> SessionView {
        SessionView {
            user_id: self.user_id@,
            phase: self.phase,
            snapshot: self.snapshot@,
            awaited: awaited_view(self.awaited),
        }
    }
}

impl Session {
    /// Starts the session of an authenticated user. The session is
    /// bootstrapping; its first action is the read of the user's memberships
    /// and topology.
    pub fn open(user_id: String) -> (r: (Session, SessionAction))
        ensures
            r.0@ == SessionView::opened(user_id@),
            r.1@ == r.0@.fetch_everything(),
    {
        let request = FetchRequest::Everything { user_id: user_id.clone() };
        let session = Session {
            user_id,
            phase: Phase::Bootstrapping,
            snapshot: Snapshot::empty(),
            awaited: None,
        };
        (session, SessionAction::Fetch(request))
    }

    /// Where the session is in its life.
    pub fn phase(&self) -> (r: Phase)
        ensures
            r == self@.phase,
    {
        self.phase
    }

    /// The user the connection belongs to.
    pub fn user_id(&self) -> (r: &String)
        ensures
            r@ == self@.user_id,
    {
        &self.user_id
    }

    /// The session's current snapshot.
    pub fn snapshot(&self) -> (r: &Snapshot)
        ensures
            r@ == self@.snapshot,
    {
        &self.snapshot
    }

    /// Whether the session is waiting for the reply to a refresh.
    pub fn is_refreshing(&self) -> (r: bool)
        ensures
            r == self@.awaited is Some,
    {
        self.awaited.is_some()
    }

    /// The session with its connection gone.
    fn close(self) -> (r: (Session, SessionAction))
        ensures
            r.0@ == self@.closed(),
            r.1@ == SessionActionView::Close,
    {
        let session = Session {
            user_id: self.user_id,
            phase: Phase::Closed,
            snapshot: Snapshot::empty(),
            awaited: None,
        };
        (session, SessionAction::Close)
    }

    /// The session with a new snapshot and no refresh under way.
    fn refresh(self, snapshot: Snapshot, action: SessionAction) -> (r: (Session, SessionAction))
        ensures
            r.0@ == self@.refreshed(snapshot@),
            r.1@ == action@,
    {
        let session = Session {
            user_id: self.user_id,
            phase: Phase::Active,
            snapshot,
            awaited: None,
        };
        (session, action)
    }

    fn step_bootstrapping(self, input: SessionInput) -> (r: (Session, SessionAction))
        ensures
            (r.0@, r.1@) == self@.step_bootstrapping(input@),
    {
        match input {
            SessionInput::Fetched(FetchReply::Everything { memberships, guilds }) => {
                let snapshot = Snapshot::build(memberships, guilds);
                self.refresh(snapshot, SessionAction::Subscribe)
            },
            SessionInput::Fetched(_) => self.close(),
            SessionInput::Disconnected => self.close(),
            SessionInput::Event(_) => (self, SessionAction::Idle),
            SessionInput::Lagged => (self, SessionAction::Idle),
        }
    }

    fn step_event(self, event: SocketMessageType) -> (r: (Session, SessionAction))
        ensures
            (r.0@, r.1@) == self@.step_event(event@),
    {
        match event {
            SocketMessageType::NewMessage(payload, channel_id) => {
                if self.snapshot.has_channel(&channel_id) {
                    (self, SessionAction::Send(ServerMessage::NewMessage(payload)))
                } else {
                    (self, SessionAction::Idle)
                }
            },
            SocketMessageType::GuildDataUpdate(guild_id) => {
                if self.snapshot.is_member(&guild_id) {
                    let request = FetchRequest::Topology {
                        guild_ids: clone_ids(self.snapshot.memberships()),
                    };
                    let session = Session {
                        user_id: self.user_id,
                        phase: self.phase,
                        snapshot: self.snapshot,
                        awaited: Some(Awaited::Topology { guild_id }),
                    };
                    (session, SessionAction::Fetch(request))
                } else {
                    (self, SessionAction::Idle)
                }
            },
            SocketMessageType::UserGuildDataUpdate(user_id) => {
                if user_id == self.user_id {
                    let request = FetchRequest::Everything { user_id: self.user_id.clone() };
                    let session = Session {
                        user_id: self.user_id,
                        phase: self.phase,
                        snapshot: self.snapshot,
                        awaited: Some(Awaited::Memberships),
                    };
                    (session, SessionAction::Fetch(request))
                } else {
                    (self, SessionAction::Idle)
                }
            },
        }
    }

    fn step_fetched(self, reply: FetchReply) -> (r: (Session, SessionAction))
        ensures
            (r.0@, r.1@) == self@.step_fetched(reply@),
    {
        let Session { user_id, phase, snapshot, awaited } = self;
        match (awaited, reply) {
            (Some(Awaited::Topology { guild_id }), FetchReply::Topology { guilds }) => {
                let memberships = clone_ids(snapshot.memberships());
                let fresh = Snapshot::build(memberships, guilds);
                let session = Session { user_id, phase: Phase::Active, snapshot: fresh, awaited: None };
                (session, SessionAction::Send(ServerMessage::GuildDataUpdate { guild_id }))
            },
            (Some(Awaited::Memberships), FetchReply::Everything { memberships, guilds }) => {
                let fresh = Snapshot::build(memberships, guilds);
                let session = Session { user_id, phase: Phase::Active, snapshot: fresh, awaited: None };
                (session, SessionAction::Send(ServerMessage::UserGuildDataUpdate))
            },
            (Some(Awaited::Resync), FetchReply::Everything { memberships, guilds }) => {
                let fresh = Snapshot::build(memberships, guilds);
                let session = Session { user_id, phase: Phase::Active, snapshot: fresh, awaited: None };
                (session, SessionAction::Idle)
            },
            (_, FetchReply::Failed(_)) => {
                let session = Session { user_id, phase, snapshot, awaited: None };
                (session, SessionAction::Idle)
            },
            (awaited, _) => {
                let session = Session { user_id, phase, snapshot, awaited };
                (session, SessionAction::Idle)
            },
        }
    }

    /// Takes one input and answers with the session after it and the action
    /// its driver is to carry out.
    pub fn step(self, input: SessionInput) -> (r: (Session, SessionAction))
        ensures
            (r.0@, r.1@) == self@.step(input@),
    {
        match self.phase {
            Phase::Bootstrapping => self.step_bootstrapping(input),
            Phase::Active => match input {
                SessionInput::Disconnected => self.close(),
                SessionInput::Lagged => {
                    let request = FetchRequest::Everything { user_id: self.user_id.clone() };
                    let session = Session {
                        user_id: self.user_id,
                        phase: self.phase,
                        snapshot: self.snapshot,
                        awaited: Some(Awaited::Resync),
                    };
                    (session, SessionAction::Fetch(request))
                },
                SessionInput::Event(payload) => self.step_event(payload.message),
                SessionInput::Fetched(reply) => self.step_fetched(reply),
            },
            Phase::Closed => (self, SessionAction::Idle),
        }
    }
}

} // verus!
