//! A session's private cache of what its user can see.
//!
//! A snapshot holds the guilds the user has joined, the topology of those
//! guilds, and an index from channel to guild that is derived from the
//! topology. It is only ever built as a whole, never patched.

use vstd::prelude::*;
use vstd::hash_map::StringHashMap;
use crate::model::{contains_id, guild_views, id_views, Guild, GuildView};

verus! {

/// What a [`Snapshot`] stands for in contracts.
pub struct SnapshotView {
    /// The identifiers of the guilds the user has joined, as fetched.
    pub memberships: Seq<Seq<char>>,
    /// The topology: the joined guilds with their channels.
    pub guilds: Seq<GuildView>,
    /// For every channel of the topology, the guild it belongs to.
    pub channel_index: Map<Seq<char>, Seq<char>>,
}

/// The guilds of `fetched` whose identifier is among `memberships`, in order.
pub open spec fn joined(memberships: Seq<Seq<char>>, fetched: Seq<GuildView>) -> Seq<GuildView> {
    fetched.filter(|g: GuildView| memberships.contains(g.id))
}

/// The guild that `channel_id` belongs to: the identifier of the last guild of
/// `guilds` that lists a channel with that identifier, if there is one.
pub open spec fn owner_of(guilds: Seq<GuildView>, channel_id: Seq<char>) -> Option<Seq<char>>
    decreases guilds.len(),
{
    if guilds.len() == 0 {
        None
    } else if guilds.last().has_channel(channel_id) {
        Some(guilds.last().id)
    } else {
        owner_of(guilds.drop_last(), channel_id)
    }
}

/// The index derived from a topology: every channel mapped to its guild.
pub open spec fn channel_index_of(guilds: Seq<GuildView>) -> Map<Seq<char>, Seq<char>> {
    Map::new(
        |c: Seq<char>| owner_of(guilds, c) is Some,
        |c: Seq<char>| owner_of(guilds, c)->0,
    )
}

/// The snapshot that a fetch of `memberships` and `fetched` gives: guilds the
/// user has not joined are left out, and the index is derived from the rest.
pub open spec fn snapshot_of(memberships: Seq<Seq<char>>, fetched: Seq<GuildView>) -> SnapshotView {
    let guilds = joined(memberships, fetched);
    SnapshotView { memberships, guilds, channel_index: channel_index_of(guilds) }
}

/// The part of a topology that concerns one guild: the entries of `guilds`
/// with the identifier `guild_id`, in order.
pub open spec fn topology_of(guilds: Seq<GuildView>, guild_id: Seq<char>) -> Seq<GuildView> {
    guilds.filter(|g: GuildView| g.id == guild_id)
}

impl SnapshotView {
    /// The snapshot with nothing in it.
    pub open spec fn empty() -> SnapshotView {
        SnapshotView { memberships: Seq::empty(), guilds: Seq::empty(), channel_index: Map::empty() }
    }

    /// Every guild of the topology is a joined one, and the index is the one
    /// derived from the topology.
    pub open spec fn wf(self) -> bool {
        &&& forall|i: int|
            0 <= i < self.guilds.len() ==> self.memberships.contains(#[trigger] self.guilds[i].id)
        &&& self.channel_index == channel_index_of(self.guilds)
    }

    /// Whether the user has joined the guild `guild_id`.
    pub open spec fn is_member(self, guild_id: Seq<char>) -> bool {
        self.memberships.contains(guild_id)
    }

    /// Whether the channel `channel_id` is visible to the user.
    pub open spec fn has_channel(self, channel_id: Seq<char>) -> bool {
        self.channel_index.contains_key(channel_id)
    }
}

/// The index while the channels of `guild` are being added to `done`: the
/// first `count` channels of `guild` map to it, everything else as in `done`.
spec fn index_with(
    done: Map<Seq<char>, Seq<char>>,
    guild: GuildView,
    count: int,
) -> Map<Seq<char>, Seq<char>> {
    Map::new(
        |c: Seq<char>| done.contains_key(c) || listed_before(guild, count, c),
        |c: Seq<char>| if listed_before(guild, count, c) { guild.id } else { done[c] },
    )
}

/// Whether one of the first `count` channels of `guild` has the identifier `channel_id`.
spec fn listed_before(guild: GuildView, count: int, channel_id: Seq<char>) -> bool {
    exists|k: int|
        0 <= k < count && k < guild.channels.len() && #[trigger] guild.channels[k].id == channel_id
}

/// The view of an index whose values are still strings.
spec fn index_view(index: Map<Seq<char>, String>) -> Map<Seq<char>, Seq<char>> {
    index.map_values(|g: String| g@)
}

/// Adding all channels of the guild that follows the first `i` extends the
/// index of the first `i` guilds to the index of the first `i + 1`.
proof fn lemma_index_step(guilds: Seq<GuildView>, i: int)
    requires
        0 <= i < guilds.len(),
    ensures
        index_with(channel_index_of(guilds.take(i)), guilds[i], guilds[i].channels.len() as int)
            == channel_index_of(guilds.take(i + 1)),
{
    let before = guilds.take(i);
    let after = guilds.take(i + 1);
    let guild = guilds[i];
    assert(after.drop_last() == before);
    assert(after.last() == guild);
    let whole = index_with(channel_index_of(before), guild, guild.channels.len() as int);
    assert forall|c: Seq<char>| listed_before(guild, guild.channels.len() as int, c)
        == guild.has_channel(c) by {
        if guild.has_channel(c) {
            let k = choose|k: int|
                0 <= k < guild.channels.len() && #[trigger] guild.channels[k].id == c;
            assert(0 <= k < guild.channels.len() && guild.channels[k].id == c);
        }
    }
    assert(whole =~= channel_index_of(after));
}

/// Adding the channel that follows the first `count` channels of `guild`
/// extends the index by that channel.
proof fn lemma_index_next(done: Map<Seq<char>, Seq<char>>, guild: GuildView, count: int)
    requires
        0 <= count < guild.channels.len(),
    ensures
        index_with(done, guild, count).insert(guild.channels[count].id, guild.id) == index_with(
            done,
            guild,
            count + 1,
        ),
{
    let added = guild.channels[count].id;
    assert forall|c: Seq<char>| listed_before(guild, count + 1, c) == (c == added || listed_before(
        guild,
        count,
        c,
    )) by {
        if listed_before(guild, count + 1, c) {
            let k = choose|k: int|
                0 <= k < count + 1 && k < guild.channels.len() && #[trigger] guild.channels[k].id
                    == c;
            if k < count {
                assert(guild.channels[k].id == c);
            }
        }
        if listed_before(guild, count, c) {
            let k = choose|k: int|
                0 <= k < count && k < guild.channels.len() && #[trigger] guild.channels[k].id == c;
            assert(guild.channels[k].id == c);
        }
        if c == added {
            assert(guild.channels[count].id == c);
        }
    }
    assert(index_with(done, guild, count).insert(added, guild.id) =~= index_with(
        done,
        guild,
        count + 1,
    ));
}

/// A session's cache of its user's memberships and topology.
pub struct Snapshot {
    memberships: Vec<String>,
    guilds: Vec<Guild>,
    channel_index: StringHashMap<String>,
}

impl View for Snapshot {
    type V = SnapshotView;

    closed spec fn view(&self) -> SnapshotView {
        SnapshotView {
            memberships: id_views(self.memberships@),
            guilds: guild_views(self.guilds@),
            channel_index: index_view(self.channel_index@),
        }
    }
}

/// The guilds of `fetched` that the user has joined, in order. The guilds are
/// moved, not copied: the list is turned round once, so that they can be taken
/// off its end in the order in which they were fetched.
fn keep_joined(memberships: &Vec<String>, fetched: Vec<Guild>) -> (kept: Vec<Guild>)
    ensures
        guild_views(kept@) == joined(id_views(memberships@), guild_views(fetched@)),
{
    let ghost source = guild_views(fetched@);
    let ghost member = |g: GuildView| id_views(memberships@).contains(g.id);
    let mut kept: Vec<Guild> = Vec::new();
    let mut rest = fetched;
    let mut reversed: Vec<Guild> = Vec::new();
    while rest.len() > 0
        invariant
            rest.len() + reversed.len() == source.len(),
            forall|j: int| 0 <= j < rest.len() ==> rest[j]@ == source[j],
            forall|j: int|
                0 <= j < reversed.len() ==> reversed[j]@ == source[source.len() - 1 - j],
        decreases rest.len(),
    {
        let last = rest.pop().unwrap();
        reversed.push(last);
    }
    proof {
        assert(source.take(0).filter(member) =~= Seq::<GuildView>::empty()) by {
            reveal(Seq::filter);
        }
    }
    while reversed.len() > 0
        invariant
            reversed.len() <= source.len(),
            forall|j: int|
                0 <= j < reversed.len() ==> reversed[j]@ == source[source.len() - 1 - j],
            member == |g: GuildView| id_views(memberships@).contains(g.id),
            guild_views(kept@) == source.take(source.len() - reversed.len()).filter(member),
        decreases reversed.len(),
    {
        let ghost done = source.len() - reversed.len();
        let guild = reversed.pop().unwrap();
        assert(guild@ == source[done]);
        proof {
            assert(source.take(done + 1) =~= source.take(done).push(source[done]));
            source.take(done).lemma_filter_push(source[done], member);
        }
        let ghost before = guild_views(kept@);
        if contains_id(memberships, &guild.id) {
            kept.push(guild);
            assert(guild_views(kept@) =~= before.push(source[done]));
        }
    }
    assert(source.take(source.len() as int) =~= source);
    kept
}

impl Snapshot {
    /// A snapshot with no memberships and no guilds.
    pub fn empty() -> (r: Snapshot)
        ensures
            r@ == SnapshotView::empty(),
    {
        let r = Snapshot {
            memberships: Vec::new(),
            guilds: Vec::new(),
            channel_index: StringHashMap::new(),
        };
        assert(r@.memberships =~= Seq::<Seq<char>>::empty());
        assert(r@.guilds =~= Seq::<GuildView>::empty());
        assert(r@.channel_index =~= Map::<Seq<char>, Seq<char>>::empty());
        r
    }

    /// Builds the snapshot for a user who has joined `memberships`, from the
    /// topology `fetched` for those guilds. Guilds of `fetched` that the user
    /// has not joined are left out; the channel index is derived anew.
    pub fn build(memberships: Vec<String>, fetched: Vec<Guild>) -> (r: Snapshot)
        ensures
            r@ == snapshot_of(id_views(memberships@), guild_views(fetched@)),
    {
        let guilds = keep_joined(&memberships, fetched);
        let ghost all = guild_views(guilds@);
        let mut index: StringHashMap<String> = StringHashMap::new();
        let mut i: usize = 0;
        assert(index_view(index@) =~= channel_index_of(all.take(0)));
        while i < guilds.len()
            invariant
                i <= guilds.len(),
                all == guild_views(guilds@),
                index_view(index@) == channel_index_of(all.take(i as int)),
            decreases guilds.len() - i,
        {
            let guild = &guilds[i];
            let ghost done = channel_index_of(all.take(i as int));
            let mut k: usize = 0;
            assert(index_view(index@) =~= index_with(done, guild@, 0));
            while k < guild.channels.len()
                invariant
                    k <= guild.channels.len(),
                    index_view(index@) == index_with(done, guild@, k as int),
                decreases guild.channels.len() - k,
            {
                let ghost before = index@;
                index.insert(guild.channels[k].id.clone(), guild.id.clone());
                proof {
                    lemma_index_view_insert(before, guild.channels[k as int].id@, guild.id);
                    lemma_index_next(done, guild@, k as int);
                }
                k = k + 1;
            }
            proof {
                assert(guild@ == all[i as int]);
                lemma_index_step(all, i as int);
            }
            i = i + 1;
        }
        assert(all.take(guilds.len() as int) =~= all);
        Snapshot { memberships, guilds, channel_index: index }
    }

    /// Whether the user has joined the guild `guild_id`.
    pub fn is_member(&self, guild_id: &String) -> (r: bool)
        ensures
            r == self@.is_member(guild_id@),
    {
        contains_id(&self.memberships, guild_id)
    }

    /// Whether the channel `channel_id` is visible to the user.
    pub fn has_channel(&self, channel_id: &String) -> (r: bool)
        ensures
            r == self@.has_channel(channel_id@),
    {
        self.channel_index.contains_key(channel_id.as_str())
    }

    /// The guild that the channel `channel_id` belongs to, if the channel is
    /// visible to the user.
    pub fn guild_of_channel(&self, channel_id: &String) -> (r: Option<String>)
        ensures
            r is Some == self@.has_channel(channel_id@),
            r matches Some(g) ==> g@ == self@.channel_index[channel_id@],
    {
        match self.channel_index.get(channel_id.as_str()) {
            Some(guild_id) => Some(guild_id.clone()),
            None => None,
        }
    }

    /// The identifiers of the guilds the user has joined.
    pub fn memberships(&self) -> (r: &Vec<String>)
        ensures
            id_views(r@) == self@.memberships,
    {
        &self.memberships
    }

    /// The topology: the joined guilds with their channels.
    pub fn guilds(&self) -> (r: &Vec<Guild>)
        ensures
            guild_views(r@) == self@.guilds,
    {
        &self.guilds
    }

    /// The number of channels visible to the user.
    pub fn channel_count(&self) -> (r: usize)
        ensures
            r == self@.channel_index.len(),
    {
        broadcast use vstd::hash_map::group_hash_map_axioms;
        proof {
            lemma_index_view_len(self.channel_index@);
        }
        self.channel_index.len()
    }
}

/// A channel has an owner exactly when some guild lists it, and its owner is
/// a guild that lists it.
pub proof fn lemma_owner_of(guilds: Seq<GuildView>, channel_id: Seq<char>)
    ensures
        owner_of(guilds, channel_id) is Some <==> exists|i: int|
            0 <= i < guilds.len() && (#[trigger] guilds[i]).has_channel(channel_id),
        owner_of(guilds, channel_id) matches Some(g) ==> exists|i: int|
            0 <= i < guilds.len() && (#[trigger] guilds[i]).has_channel(channel_id) && guilds[i].id
                == g,
    decreases guilds.len(),
{
    if guilds.len() > 0 {
        let rest = guilds.drop_last();
        lemma_owner_of(rest, channel_id);
        if guilds.last().has_channel(channel_id) {
            assert(guilds[guilds.len() - 1].has_channel(channel_id));
        } else {
            if owner_of(rest, channel_id) is Some {
                let i = choose|i: int|
                    0 <= i < rest.len() && (#[trigger] rest[i]).has_channel(channel_id) && rest[i].id
                        == owner_of(rest, channel_id)->0;
                assert(guilds[i].has_channel(channel_id));
            }
            if exists|i: int|
                0 <= i < guilds.len() && (#[trigger] guilds[i]).has_channel(channel_id) {
                let i = choose|i: int|
                    0 <= i < guilds.len() && (#[trigger] guilds[i]).has_channel(channel_id);
                assert(rest[i].has_channel(channel_id));
            }
        }
    }
}

/// What a fetch keeps: every guild kept is a fetched one that the user has
/// joined, and every fetched guild that the user has joined is kept.
pub proof fn lemma_joined(memberships: Seq<Seq<char>>, fetched: Seq<GuildView>)
    ensures
        forall|i: int|
            0 <= i < joined(memberships, fetched).len() ==> memberships.contains(
                (#[trigger] joined(memberships, fetched)[i]).id,
            ) && fetched.contains(joined(memberships, fetched)[i]),
        forall|j: int|
            0 <= j < fetched.len() && memberships.contains(fetched[j].id) ==> joined(
                memberships,
                fetched,
            ).contains(#[trigger] fetched[j]),
{
    let member = |g: GuildView| memberships.contains(g.id);
    let kept = fetched.filter(member);
    assert forall|i: int| 0 <= i < kept.len() implies memberships.contains((#[trigger] kept[i]).id)
        && fetched.contains(kept[i]) by {
        fetched.lemma_filter_pred(member, i);
        assert(kept.contains(kept[i]));
        fetched.lemma_filter_contains_rev(member, kept[i]);
    }
    assert forall|j: int|
        0 <= j < fetched.len() && memberships.contains(fetched[j].id) implies kept.contains(
        #[trigger] fetched[j],
    ) by {
        fetched.lemma_filter_contains(member, j);
    }
}

/// A snapshot built from a fetch is well formed.
pub proof fn lemma_snapshot_of_wf(memberships: Seq<Seq<char>>, fetched: Seq<GuildView>)
    ensures
        snapshot_of(memberships, fetched).wf(),
{
    lemma_joined(memberships, fetched);
}

/// The index of a snapshot built from a fetch holds exactly the channels of
/// the fetched guilds that the user has joined, each mapped to a joined guild.
pub proof fn lemma_snapshot_channels(
    memberships: Seq<Seq<char>>,
    fetched: Seq<GuildView>,
    channel_id: Seq<char>,
)
    ensures
        snapshot_of(memberships, fetched).has_channel(channel_id) <==> exists|j: int|
            0 <= j < fetched.len() && memberships.contains((#[trigger] fetched[j]).id)
                && fetched[j].has_channel(channel_id),
        snapshot_of(memberships, fetched).has_channel(channel_id) ==> memberships.contains(
            snapshot_of(memberships, fetched).channel_index[channel_id],
        ),
{
    let kept = joined(memberships, fetched);
    lemma_joined(memberships, fetched);
    lemma_owner_of(kept, channel_id);
    if owner_of(kept, channel_id) is Some {
        let i = choose|i: int|
            0 <= i < kept.len() && (#[trigger] kept[i]).has_channel(channel_id) && kept[i].id
                == owner_of(kept, channel_id)->0;
        assert(fetched.contains(kept[i]));
        let j = choose|j: int| 0 <= j < fetched.len() && fetched[j] == kept[i];
        assert(memberships.contains(fetched[j].id) && fetched[j].has_channel(channel_id));
    }
    if exists|j: int|
        0 <= j < fetched.len() && memberships.contains((#[trigger] fetched[j]).id)
            && fetched[j].has_channel(channel_id) {
        let j = choose|j: int|
            0 <= j < fetched.len() && memberships.contains((#[trigger] fetched[j]).id)
                && fetched[j].has_channel(channel_id);
        assert(kept.contains(fetched[j]));
        let i = choose|i: int| 0 <= i < kept.len() && kept[i] == fetched[j];
        assert(kept[i].has_channel(channel_id));
    }
}

/// For a guild that the user has joined, a snapshot built from a fetch holds
/// the topology exactly as it was fetched.
pub proof fn lemma_snapshot_topology(
    memberships: Seq<Seq<char>>,
    fetched: Seq<GuildView>,
    guild_id: Seq<char>,
)
    requires
        memberships.contains(guild_id),
    ensures
        topology_of(snapshot_of(memberships, fetched).guilds, guild_id) == topology_of(
            fetched,
            guild_id,
        ),
    decreases fetched.len(),
{
    let member = |g: GuildView| memberships.contains(g.id);
    let this = |g: GuildView| g.id == guild_id;
    reveal(Seq::filter);
    if fetched.len() > 0 {
        let rest = fetched.drop_last();
        let last = fetched.last();
        lemma_snapshot_topology(memberships, rest, guild_id);
        assert(rest.push(last) =~= fetched);
        rest.lemma_filter_push(last, member);
        rest.lemma_filter_push(last, this);
        if member(last) {
            rest.filter(member).lemma_filter_push(last, this);
        }
    }
}

/// Taking views of the values commutes with adding an entry.
proof fn lemma_index_view_insert(index: Map<Seq<char>, String>, key: Seq<char>, value: String)
    ensures
        index_view(index.insert(key, value)) == index_view(index).insert(key, value@),
{
    assert(index_view(index.insert(key, value)) =~= index_view(index).insert(key, value@));
}

/// Taking views of the values keeps the keys of an index, and their number.
proof fn lemma_index_view_len(index: Map<Seq<char>, String>)
    ensures
        index_view(index).dom() == index.dom(),
        index_view(index).len() == index.len(),
{
    assert(index_view(index).dom() =~= index.dom());
}

} // verus!
