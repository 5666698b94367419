//! What holds of every session, whatever it is fed.
//!
//! The proof functions of this module are stated over the model of a session,
//! [`SessionView::step`], which [`Session::step`](crate::session::Session::step)
//! follows input by input.

use vstd::prelude::*;
use crate::envelope::ServerMessageView;
use crate::event::{SocketMessagePayloadView, SocketMessageTypeView};
use crate::handlers::{payload_of, MutationView};
use crate::model::{GuildView, MessageView};
use crate::persistence::{FetchReplyView, PersistenceError};
use crate::session::{AwaitedView, Phase, SessionActionView, SessionInputView, SessionView};
use crate::snapshot::{
    channel_index_of, lemma_joined, lemma_owner_of, lemma_snapshot_channels, lemma_snapshot_of_wf,
    lemma_snapshot_topology, owner_of, snapshot_of, topology_of, SnapshotView,
};

verus! {

/// A session starts out well formed.
pub proof fn lemma_opened_is_wf(user_id: Seq<char>)
    ensures
        SessionView::opened(user_id).wf(),
{
    assert(SnapshotView::empty().channel_index =~= channel_index_of(SnapshotView::empty().guilds));
}

/// A well-formed session stays well formed, whatever input it takes. So every
/// session reached from [`SessionView::opened`] is well formed.
pub proof fn lemma_step_preserves_wf(s: SessionView, input: SessionInputView)
    requires
        s.wf(),
    ensures
        s.step(input).0.wf(),
{
    lemma_opened_is_wf(s.user_id);
    match input {
        SessionInputView::Fetched(FetchReplyView::Everything { memberships, guilds }) => {
            lemma_snapshot_of_wf(memberships, guilds);
        },
        SessionInputView::Fetched(FetchReplyView::Topology { guilds }) => {
            lemma_snapshot_of_wf(s.snapshot.memberships, guilds);
        },
        _ => {},
    }
}

/// The phases follow one another in one direction only: a session never goes
/// back to an earlier phase, and it never changes user.
pub proof fn lemma_phase_never_goes_back(s: SessionView, input: SessionInputView)
    ensures
        s.phase_rank() <= s.step(input).0.phase_rank(),
        s.step(input).0.user_id == s.user_id,
{
}

/// A closed session is at its end: it ignores every input and asks for nothing.
pub proof fn lemma_closed_is_terminal(s: SessionView, input: SessionInputView)
    requires
        s.phase == Phase::Closed,
    ensures
        s.step(input) == (s, SessionActionView::Idle),
{
}

/// Whatever a session is fed from the moment it is opened, it is well formed,
/// it is still the session of the same user, and its phase is no earlier than
/// it was before the last input.
pub proof fn lemma_every_session_is_wf(user_id: Seq<char>, inputs: Seq<SessionInputView>)
    ensures
        SessionView::opened(user_id).run(inputs).wf(),
        SessionView::opened(user_id).run(inputs).user_id == user_id,
        inputs.len() > 0 ==> SessionView::opened(user_id).run(inputs.drop_last()).phase_rank()
            <= SessionView::opened(user_id).run(inputs).phase_rank(),
    decreases inputs.len(),
{
    let opened = SessionView::opened(user_id);
    if inputs.len() == 0 {
        lemma_opened_is_wf(user_id);
    } else {
        lemma_every_session_is_wf(user_id, inputs.drop_last());
        lemma_step_preserves_wf(opened.run(inputs.drop_last()), inputs.last());
        lemma_phase_never_goes_back(opened.run(inputs.drop_last()), inputs.last());
    }
}

/// Once closed, always closed: whatever a closed session is fed, it stays
/// exactly as it is.
pub proof fn lemma_closed_stays_closed(s: SessionView, inputs: Seq<SessionInputView>)
    requires
        s.phase == Phase::Closed,
    ensures
        s.run(inputs) == s,
    decreases inputs.len(),
{
    if inputs.len() > 0 {
        lemma_closed_stays_closed(s, inputs.drop_last());
        lemma_closed_is_terminal(s, inputs.last());
    }
}

/// A disconnect ends every session that has not ended yet: the snapshot is
/// released and the driver is told to close.
pub proof fn lemma_disconnect_closes(s: SessionView)
    requires
        s.phase != Phase::Closed,
    ensures
        s.step(SessionInputView::Disconnected) == (s.closed(), SessionActionView::Close),
        s.closed().snapshot == SnapshotView::empty(),
{
}

/// A posted message reaches the client of an active session exactly when its
/// channel belongs to a guild of the session's snapshot, and then it is sent
/// once, as it was published, and the guild is one the user has joined. In
/// every other case nothing is sent. The session itself is left as it was.
pub proof fn lemma_new_message_delivery(
    s: SessionView,
    payload: SocketMessagePayloadView,
    channel_id: Seq<char>,
)
    requires
        s.wf(),
    ensures
        ({
            let visible = s.phase == Phase::Active && exists|i: int|
                0 <= i < s.snapshot.guilds.len() && (#[trigger] s.snapshot.guilds[i]).has_channel(
                    channel_id,
                );
            let (after, action) = s.step(
                SessionInputView::Event(SocketMessageTypeView::NewMessage(payload, channel_id)),
            );
            &&& after == s
            &&& visible ==> action == SessionActionView::Send(
                ServerMessageView::NewMessage(payload),
            )
            &&& visible ==> s.snapshot.is_member(s.snapshot.channel_index[channel_id])
            &&& !visible ==> action == SessionActionView::Idle
        }),
{
    lemma_owner_of(s.snapshot.guilds, channel_id);
    if s.phase == Phase::Active && s.snapshot.has_channel(channel_id) {
        let g = owner_of(s.snapshot.guilds, channel_id)->0;
        let i = choose|i: int|
            0 <= i < s.snapshot.guilds.len() && (#[trigger] s.snapshot.guilds[i]).has_channel(
                channel_id,
            ) && s.snapshot.guilds[i].id == g;
        assert(s.snapshot.memberships.contains(s.snapshot.guilds[i].id));
    }
}

/// Nothing leaks: whatever a well-formed session sends refers to what its
/// snapshot holds. A forwarded message was published in a channel that the
/// snapshot maps to a joined guild, and a notice about a guild names a guild
/// that the user has joined.
pub proof fn lemma_nothing_leaks(s: SessionView, input: SessionInputView)
    requires
        s.wf(),
    ensures
        s.step(input).1 matches SessionActionView::Send(ServerMessageView::NewMessage(payload))
            ==> exists|channel_id: Seq<char>|
            input == SessionInputView::Event(
                SocketMessageTypeView::NewMessage(payload, channel_id),
            ) && #[trigger] s.snapshot.has_channel(channel_id) && s.snapshot.is_member(
                s.snapshot.channel_index[channel_id],
            ),
        s.step(input).1 matches SessionActionView::Send(
            ServerMessageView::GuildDataUpdate { guild_id },
        ) ==> s.step(input).0.snapshot.is_member(guild_id),
        s.step(input).1 is Send ==> s.phase == Phase::Active,
{
    if let SessionInputView::Event(SocketMessageTypeView::NewMessage(payload, channel_id)) = input {
        lemma_new_message_delivery(s, payload, channel_id);
        lemma_owner_of(s.snapshot.guilds, channel_id);
        if s.phase == Phase::Active && s.snapshot.has_channel(channel_id) {
            assert(s.snapshot.has_channel(channel_id) && s.snapshot.is_member(
                s.snapshot.channel_index[channel_id],
            ));
        }
    }
}

/// A change of a guild that the user has joined makes an active session read
/// the topology of the joined guilds again. Once the store has answered, the
/// snapshot is the one built from the answer, so what it holds for the guild
/// is what was read; the memberships are as before; and the client is told
/// that the guild changed. A change of any other guild is ignored: the
/// session stays as it is and nothing is sent.
pub proof fn lemma_guild_update(s: SessionView, guild_id: Seq<char>, fetched: Seq<GuildView>)
    requires
        s.wf(),
        s.phase == Phase::Active,
    ensures
        ({
            let (asked, request) = s.step(
                SessionInputView::Event(SocketMessageTypeView::GuildDataUpdate(guild_id)),
            );
            let (after, notice) = asked.step(
                SessionInputView::Fetched(FetchReplyView::Topology { guilds: fetched }),
            );
            &&& !s.snapshot.is_member(guild_id) ==> asked == s && request
                == SessionActionView::Idle
            &&& s.snapshot.is_member(guild_id) ==> {
                &&& request == s.fetch_topology()
                &&& asked.snapshot == s.snapshot
                &&& after.phase == Phase::Active
                &&& after.awaited is None
                &&& after.snapshot == snapshot_of(s.snapshot.memberships, fetched)
                &&& after.snapshot.memberships == s.snapshot.memberships
                &&& topology_of(after.snapshot.guilds, guild_id) == topology_of(fetched, guild_id)
                &&& notice == SessionActionView::Send(
                    ServerMessageView::GuildDataUpdate { guild_id },
                )
            }
        }),
{
    if s.snapshot.is_member(guild_id) {
        lemma_snapshot_topology(s.snapshot.memberships, fetched, guild_id);
    }
}

/// A change of the session's own user's memberships makes an active session
/// read memberships and topology again. Once the store has answered, the
/// index holds exactly the channels of the fetched guilds that the user has
/// joined, and no others, and the client is told that its guilds changed. A
/// change of another user's memberships is ignored.
pub proof fn lemma_membership_update(
    s: SessionView,
    user_id: Seq<char>,
    memberships: Seq<Seq<char>>,
    fetched: Seq<GuildView>,
)
    requires
        s.wf(),
        s.phase == Phase::Active,
    ensures
        ({
            let (asked, request) = s.step(
                SessionInputView::Event(SocketMessageTypeView::UserGuildDataUpdate(user_id)),
            );
            let (after, notice) = asked.step(
                SessionInputView::Fetched(
                    FetchReplyView::Everything { memberships, guilds: fetched },
                ),
            );
            &&& user_id != s.user_id ==> asked == s && request == SessionActionView::Idle
            &&& user_id == s.user_id ==> {
                &&& request == s.fetch_everything()
                &&& asked.snapshot == s.snapshot
                &&& after.phase == Phase::Active
                &&& after.awaited is None
                &&& after.snapshot == snapshot_of(memberships, fetched)
                &&& forall|channel_id: Seq<char>| #[trigger]
                    after.snapshot.has_channel(channel_id) <==> exists|j: int|
                        0 <= j < fetched.len() && memberships.contains((#[trigger] fetched[j]).id)
                            && fetched[j].has_channel(channel_id)
                &&& notice == SessionActionView::Send(ServerMessageView::UserGuildDataUpdate)
            }
        }),
{
    assert forall|channel_id: Seq<char>| #[trigger]
        snapshot_of(memberships, fetched).has_channel(channel_id) <==> exists|j: int|
            0 <= j < fetched.len() && memberships.contains((#[trigger] fetched[j]).id)
                && fetched[j].has_channel(channel_id) by {
        lemma_snapshot_channels(memberships, fetched, channel_id);
    }
}

/// After the bus has reported lost events, an active session reads
/// memberships and topology again, once: it asks for one read, the answer
/// replaces the snapshot as a whole, nothing is sent to the client, and no
/// refresh is left under way, so that a further answer changes nothing. From
/// then on messages are filtered against the new snapshot.
pub proof fn lemma_lag_resync(
    s: SessionView,
    memberships: Seq<Seq<char>>,
    fetched: Seq<GuildView>,
    later: FetchReplyView,
    payload: SocketMessagePayloadView,
    channel_id: Seq<char>,
)
    requires
        s.wf(),
        s.phase == Phase::Active,
    ensures
        ({
            let (asked, request) = s.step(SessionInputView::Lagged);
            let (after, action) = asked.step(
                SessionInputView::Fetched(
                    FetchReplyView::Everything { memberships, guilds: fetched },
                ),
            );
            let (_, forwarded) = after.step(
                SessionInputView::Event(SocketMessageTypeView::NewMessage(payload, channel_id)),
            );
            &&& request == s.fetch_everything()
            &&& asked == s.awaiting(AwaitedView::Resync)
            &&& action == SessionActionView::Idle
            &&& after == s.refreshed(snapshot_of(memberships, fetched))
            &&& after.step(SessionInputView::Fetched(later)) == (after, SessionActionView::Idle)
            &&& forwarded is Send <==> snapshot_of(memberships, fetched).has_channel(channel_id)
        }),
{
}

/// A failed read during a refresh costs nothing but freshness: the snapshot
/// stays as it was, nothing is sent, the session stays active, and the next
/// event that calls for a refresh starts one again.
pub proof fn lemma_failed_refresh_keeps_snapshot(s: SessionView, error: PersistenceError)
    requires
        s.phase == Phase::Active,
    ensures
        ({
            let (after, action) = s.step(
                SessionInputView::Fetched(FetchReplyView::Failed(error)),
            );
            &&& after == s.settled()
            &&& after.snapshot == s.snapshot
            &&& after.phase == Phase::Active
            &&& action == SessionActionView::Idle
        }),
{
}

/// Bootstrapping ends in one of two ways. The answer to the first read makes
/// the session active with the snapshot built from it, and the driver is told
/// to subscribe to the bus. A failed read is fatal: the session is closed.
pub proof fn lemma_bootstrap(
    user_id: Seq<char>,
    memberships: Seq<Seq<char>>,
    fetched: Seq<GuildView>,
    error: PersistenceError,
)
    ensures
        ({
            let s = SessionView::opened(user_id);
            &&& s.step(
                SessionInputView::Fetched(
                    FetchReplyView::Everything { memberships, guilds: fetched },
                ),
            ) == (s.refreshed(snapshot_of(memberships, fetched)), SessionActionView::Subscribe)
            &&& s.step(SessionInputView::Fetched(FetchReplyView::Failed(error))) == (
                s.closed(),
                SessionActionView::Close,
            )
        }),
{
}

/// A message that a handler has stored reaches the client of every active
/// session whose snapshot holds the channel it was posted in, as a
/// `new_message` with the channel, the identifier and the author of the
/// stored message. Every other session stays silent.
pub proof fn lemma_posted_message_delivery(s: SessionView, message: MessageView)
    requires
        s.wf(),
        s.phase == Phase::Active,
    ensures
        ({
            let (after, action) = s.step(
                SessionInputView::Event(MutationView::MessagePosted { message }.event()),
            );
            let sent = payload_of(message);
            &&& after == s
            &&& s.snapshot.has_channel(message.channel_id) ==> action == SessionActionView::Send(
                ServerMessageView::NewMessage(sent),
            )
            &&& !s.snapshot.has_channel(message.channel_id) ==> action == SessionActionView::Idle
            &&& sent.msg_type == "new_message"@
            &&& sent.channel_id == message.channel_id
            &&& sent.id == message.id
            &&& sent.author == message.author
        }),
{
}

/// A channel added to a guild that the user has joined is in the index once
/// the session has read the topology again, mapped to that guild, provided
/// the store then lists the channel under that guild and under no other.
pub proof fn lemma_created_channel_is_indexed(
    s: SessionView,
    guild_id: Seq<char>,
    channel_id: Seq<char>,
    fetched: Seq<GuildView>,
)
    requires
        s.wf(),
        s.phase == Phase::Active,
        s.snapshot.is_member(guild_id),
        exists|j: int|
            0 <= j < fetched.len() && (#[trigger] fetched[j]).id == guild_id
                && fetched[j].has_channel(channel_id),
        forall|j: int|
            0 <= j < fetched.len() && (#[trigger] fetched[j]).has_channel(channel_id)
                ==> fetched[j].id == guild_id,
    ensures
        ({
            let (asked, request) = s.step(
                SessionInputView::Event(
                    MutationView::ChannelCreated { guild_id, channel_id }.event(),
                ),
            );
            let (after, notice) = asked.step(
                SessionInputView::Fetched(FetchReplyView::Topology { guilds: fetched }),
            );
            &&& request == s.fetch_topology()
            &&& notice == SessionActionView::Send(
                ServerMessageView::GuildDataUpdate { guild_id },
            )
            &&& after.snapshot.has_channel(channel_id)
            &&& after.snapshot.channel_index[channel_id] == guild_id
        }),
{
    let memberships = s.snapshot.memberships;
    let kept = crate::snapshot::joined(memberships, fetched);
    lemma_snapshot_channels(memberships, fetched, channel_id);
    lemma_joined(memberships, fetched);
    lemma_owner_of(kept, channel_id);
    let j = choose|j: int|
        0 <= j < fetched.len() && (#[trigger] fetched[j]).id == guild_id && fetched[j].has_channel(
            channel_id,
        );
    assert(memberships.contains(fetched[j].id) && fetched[j].has_channel(channel_id));
    assert(owner_of(kept, channel_id) is Some);
    let i = choose|i: int|
        0 <= i < kept.len() && (#[trigger] kept[i]).has_channel(channel_id) && kept[i].id
            == owner_of(kept, channel_id)->0;
    assert(fetched.contains(kept[i]));
    let k = choose|k: int| 0 <= k < fetched.len() && fetched[k] == kept[i];
    assert(fetched[k].has_channel(channel_id));
}

/// Once a user has left every guild, a session that has read the memberships
/// again holds no channel at all, so no posted message is forwarded any more,
/// whatever topology the store still answered with.
pub proof fn lemma_no_membership_no_delivery(
    s: SessionView,
    fetched: Seq<GuildView>,
    message: MessageView,
)
    requires
        s.wf(),
        s.phase == Phase::Active,
    ensures
        ({
            let (asked, _) = s.step(
                SessionInputView::Event(SocketMessageTypeView::UserGuildDataUpdate(s.user_id)),
            );
            let (after, _) = asked.step(
                SessionInputView::Fetched(
                    FetchReplyView::Everything { memberships: Seq::empty(), guilds: fetched },
                ),
            );
            let (_, action) = after.step(
                SessionInputView::Event(MutationView::MessagePosted { message }.event()),
            );
            &&& after.snapshot.guilds.len() == 0
            &&& forall|channel_id: Seq<char>| !after.snapshot.has_channel(channel_id)
            &&& action == SessionActionView::Idle
        }),
{
    let nothing = Seq::<Seq<char>>::empty();
    lemma_joined(nothing, fetched);
    let kept = crate::snapshot::joined(nothing, fetched);
    if kept.len() > 0 {
        assert(nothing.contains(kept[0].id));
    }
    assert forall|channel_id: Seq<char>| !snapshot_of(nothing, fetched).has_channel(
        channel_id,
    ) by {
        lemma_snapshot_channels(nothing, fetched, channel_id);
    }
}

/// A deleted guild reaches every session that holds it. An active session of
/// any user who has joined the guild, its owner or not, reads the topology
/// again; a session of a user who has not joined it stays as it is. Once the
/// store, where the guild is no more, has answered, the snapshot holds
/// nothing of the guild, and the client is told that the guild changed.
pub proof fn lemma_deleted_guild_reaches_members(
    s: SessionView,
    guild_id: Seq<char>,
    owner_id: Seq<char>,
    fetched: Seq<GuildView>,
)
    requires
        s.wf(),
        s.phase == Phase::Active,
        forall|j: int| 0 <= j < fetched.len() ==> (#[trigger] fetched[j]).id != guild_id,
    ensures
        ({
            let (asked, request) = s.step(
                SessionInputView::Event(MutationView::GuildDeleted { guild_id, owner_id }.event()),
            );
            let (after, notice) = asked.step(
                SessionInputView::Fetched(FetchReplyView::Topology { guilds: fetched }),
            );
            &&& !s.snapshot.is_member(guild_id) ==> asked == s && request
                == SessionActionView::Idle
            &&& s.snapshot.is_member(guild_id) ==> {
                &&& request == s.fetch_topology()
                &&& notice == SessionActionView::Send(
                    ServerMessageView::GuildDataUpdate { guild_id },
                )
                &&& forall|i: int|
                    0 <= i < after.snapshot.guilds.len() ==> (#[trigger] after.snapshot.guilds[i]).id
                        != guild_id
            }
        }),
{
    if s.snapshot.is_member(guild_id) {
        let kept = crate::snapshot::joined(s.snapshot.memberships, fetched);
        lemma_joined(s.snapshot.memberships, fetched);
        assert forall|i: int| 0 <= i < kept.len() implies (#[trigger] kept[i]).id != guild_id by {
            assert(fetched.contains(kept[i]));
            let j = choose|j: int| 0 <= j < fetched.len() && fetched[j] == kept[i];
            assert(fetched[j].id != guild_id);
        }
    }
}

/// A user who joins a guild is told in the user's own sessions, which do not
/// hold the guild yet. An active session of the new member reads memberships
/// and topology again; the sessions of all other users stay as they are. Once
/// the store has answered with the new membership, the snapshot has the guild
/// among its memberships and holds every channel that the store lists under
/// it, and the client is told that its guilds changed.
pub proof fn lemma_joined_member_is_refreshed(
    s: SessionView,
    guild_id: Seq<char>,
    user_id: Seq<char>,
    memberships: Seq<Seq<char>>,
    fetched: Seq<GuildView>,
)
    requires
        s.wf(),
        s.phase == Phase::Active,
        memberships.contains(guild_id),
    ensures
        ({
            let (asked, request) = s.step(
                SessionInputView::Event(MutationView::MemberJoined { guild_id, user_id }.event()),
            );
            let (after, notice) = asked.step(
                SessionInputView::Fetched(
                    FetchReplyView::Everything { memberships, guilds: fetched },
                ),
            );
            &&& user_id != s.user_id ==> asked == s && request == SessionActionView::Idle
            &&& user_id == s.user_id ==> {
                &&& request == s.fetch_everything()
                &&& notice == SessionActionView::Send(ServerMessageView::UserGuildDataUpdate)
                &&& after.snapshot.is_member(guild_id)
                &&& forall|j: int, channel_id: Seq<char>|
                    0 <= j < fetched.len() && fetched[j].id == guild_id
                        && #[trigger] fetched[j].has_channel(channel_id)
                        ==> after.snapshot.has_channel(channel_id)
            }
        }),
{
    assert forall|j: int, channel_id: Seq<char>|
        0 <= j < fetched.len() && fetched[j].id == guild_id && #[trigger] fetched[j].has_channel(
            channel_id,
        ) implies snapshot_of(memberships, fetched).has_channel(channel_id) by {
        lemma_snapshot_channels(memberships, fetched, channel_id);
    }
}

} // verus!
