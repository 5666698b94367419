use rustcord::envelope::ServerMessage;
use rustcord::event::{SocketMessagePayload, SocketMessageType, SocketPayload};
use rustcord::model::{Channel, Guild, User};
use rustcord::persistence::{FetchReply, FetchRequest, PersistenceError};
use rustcord::session::{Phase, Session, SessionAction, SessionInput};

fn channel(id: &str, guild_id: &str) -> Channel {
    Channel { id: id.to_owned(), guild_id: guild_id.to_owned(), name: format!("#{}", id) }
}

fn guild(id: &str, owner: &str, channels: &[&str]) -> Guild {
    Guild {
        id: id.to_owned(),
        name: format!("guild {}", id),
        owner_id: owner.to_owned(),
        channels: channels.iter().map(|c| channel(c, id)).collect(),
    }
}

fn message(id: &str, channel_id: &str, author: &str) -> SocketMessagePayload {
    SocketMessagePayload {
        msg_type: "new_message".to_owned(),
        content: "hello".to_owned(),
        author: User { id: author.to_owned(), username: format!("user {}", author) },
        channel_id: channel_id.to_owned(),
        created_at: "2022-03-01T12:00:00+00:00".to_owned(),
        id: id.to_owned(),
    }
}

fn new_message(id: &str, channel_id: &str, author: &str) -> SessionInput {
    SessionInput::Event(SocketPayload {
        message: SocketMessageType::NewMessage(message(id, channel_id, author), channel_id.to_owned()),
    })
}

fn guild_changed(guild_id: &str) -> SessionInput {
    SessionInput::Event(SocketPayload {
        message: SocketMessageType::GuildDataUpdate(guild_id.to_owned()),
    })
}

fn memberships_changed(user_id: &str) -> SessionInput {
    SessionInput::Event(SocketPayload {
        message: SocketMessageType::UserGuildDataUpdate(user_id.to_owned()),
    })
}

fn everything(memberships: &[&str], guilds: Vec<Guild>) -> SessionInput {
    SessionInput::Fetched(FetchReply::Everything {
        memberships: memberships.iter().map(|m| (*m).to_owned()).collect(),
        guilds,
    })
}

fn active(user: &str, memberships: &[&str], guilds: Vec<Guild>) -> Session {
    let (session, first) = Session::open(user.to_owned());
    assert_eq!(first, SessionAction::Fetch(FetchRequest::Everything { user_id: user.to_owned() }));
    let (session, action) = session.step(everything(memberships, guilds));
    assert_eq!(action, SessionAction::Subscribe);
    assert_eq!(session.phase(), Phase::Active);
    session
}

#[test]
fn open_starts_bootstrapping_and_asks_for_everything() {
    let (session, action) = Session::open("a".to_owned());
    assert_eq!(session.phase(), Phase::Bootstrapping);
    assert_eq!(session.user_id(), "a");
    assert!(!session.is_refreshing());
    assert_eq!(session.snapshot().channel_count(), 0);
    assert_eq!(action, SessionAction::Fetch(FetchRequest::Everything { user_id: "a".to_owned() }));
}

#[test]
fn bootstrap_builds_the_snapshot_and_subscribes() {
    let session = active("a", &["g1"], vec![guild("g1", "a", &["c1", "c2"])]);
    let snapshot = session.snapshot();
    assert_eq!(snapshot.memberships(), &vec!["g1".to_owned()]);
    assert_eq!(snapshot.guilds(), &vec![guild("g1", "a", &["c1", "c2"])]);
    assert_eq!(snapshot.channel_count(), 2);
    assert_eq!(snapshot.guild_of_channel(&"c1".to_owned()), Some("g1".to_owned()));
    assert_eq!(snapshot.guild_of_channel(&"c2".to_owned()), Some("g1".to_owned()));
    assert_eq!(snapshot.guild_of_channel(&"c3".to_owned()), None);
}

#[test]
fn bootstrap_failure_is_fatal() {
    let (session, _) = Session::open("a".to_owned());
    let (session, action) =
        session.step(SessionInput::Fetched(FetchReply::Failed(PersistenceError::Io)));
    assert_eq!(action, SessionAction::Close);
    assert_eq!(session.phase(), Phase::Closed);

    let (session, _) = Session::open("a".to_owned());
    let (session, action) =
        session.step(SessionInput::Fetched(FetchReply::Failed(PersistenceError::NotFound)));
    assert_eq!(action, SessionAction::Close);
    assert_eq!(session.phase(), Phase::Closed);
}

#[test]
fn bootstrapping_session_ignores_the_bus() {
    let (session, _) = Session::open("a".to_owned());
    let (session, action) = session.step(new_message("m1", "c1", "a"));
    assert_eq!(action, SessionAction::Idle);
    let (session, action) = session.step(SessionInput::Lagged);
    assert_eq!(action, SessionAction::Idle);
    assert_eq!(session.phase(), Phase::Bootstrapping);
}

#[test]
fn message_in_a_visible_channel_is_forwarded_to_members_only() {
    let session_a = active("a", &["g1"], vec![guild("g1", "a", &["c1"])]);
    let session_b = active("b", &["g2"], vec![guild("g2", "b", &["c9"])]);

    let (session_a, action) = session_a.step(new_message("m1", "c1", "a"));
    match action {
        SessionAction::Send(ServerMessage::NewMessage(payload)) => {
            assert_eq!(payload.msg_type, "new_message");
            assert_eq!(payload.channel_id, "c1");
            assert_eq!(payload.id, "m1");
            assert_eq!(payload.author, User { id: "a".to_owned(), username: "user a".to_owned() });
        },
        other => panic!("expected a forwarded message, got {:?}", other),
    }
    assert_eq!(session_a.phase(), Phase::Active);
    assert!(!session_a.is_refreshing());

    let (session_b, action) = session_b.step(new_message("m1", "c1", "a"));
    assert_eq!(action, SessionAction::Idle);
    assert_eq!(session_b.phase(), Phase::Active);
}

#[test]
fn new_channel_reaches_the_index_after_the_guild_update() {
    let session = active("a", &["g1"], vec![guild("g1", "owner", &["c1"])]);
    assert_eq!(session.snapshot().guild_of_channel(&"c2".to_owned()), None);

    let (session, action) = session.step(guild_changed("g1"));
    assert_eq!(
        action,
        SessionAction::Fetch(FetchRequest::Topology { guild_ids: vec!["g1".to_owned()] })
    );
    assert!(session.is_refreshing());

    let (session, action) = session.step(SessionInput::Fetched(FetchReply::Topology {
        guilds: vec![guild("g1", "owner", &["c1", "c2"])],
    }));
    assert_eq!(
        action,
        SessionAction::Send(ServerMessage::GuildDataUpdate { guild_id: "g1".to_owned() })
    );
    assert!(!session.is_refreshing());
    assert_eq!(session.snapshot().guild_of_channel(&"c2".to_owned()), Some("g1".to_owned()));
    assert_eq!(session.snapshot().guilds(), &vec![guild("g1", "owner", &["c1", "c2"])]);
    assert_eq!(session.snapshot().memberships(), &vec!["g1".to_owned()]);
}

#[test]
fn update_of_a_foreign_guild_is_ignored() {
    let session = active("a", &["g1"], vec![guild("g1", "owner", &["c1"])]);
    let (session, action) = session.step(guild_changed("g2"));
    assert_eq!(action, SessionAction::Idle);
    assert!(!session.is_refreshing());
    assert_eq!(session.snapshot().guilds(), &vec![guild("g1", "owner", &["c1"])]);
    let (session, action) = session.step(guild_changed("g2"));
    assert_eq!(action, SessionAction::Idle);
    assert_eq!(session.snapshot().channel_count(), 1);
}

#[test]
fn removal_from_all_guilds_stops_delivery_after_the_resync() {
    let session = active("a", &["g1"], vec![guild("g1", "owner", &["c1"])]);
    let (session, action) = session.step(new_message("m1", "c1", "x"));
    assert!(matches!(action, SessionAction::Send(ServerMessage::NewMessage(_))));

    let (session, action) = session.step(memberships_changed("a"));
    assert_eq!(action, SessionAction::Fetch(FetchRequest::Everything { user_id: "a".to_owned() }));
    let (session, action) = session.step(everything(&[], vec![]));
    assert_eq!(action, SessionAction::Send(ServerMessage::UserGuildDataUpdate));
    assert_eq!(session.snapshot().channel_count(), 0);
    assert!(session.snapshot().memberships().is_empty());

    let (session, action) = session.step(new_message("m2", "c1", "x"));
    assert_eq!(action, SessionAction::Idle);
    assert_eq!(session.phase(), Phase::Active);
}

#[test]
fn membership_update_of_another_user_is_ignored() {
    let session = active("a", &["g1"], vec![guild("g1", "owner", &["c1"])]);
    let (session, action) = session.step(memberships_changed("b"));
    assert_eq!(action, SessionAction::Idle);
    assert!(!session.is_refreshing());
    assert_eq!(session.snapshot().channel_count(), 1);
}

#[test]
fn membership_update_indexes_exactly_the_joined_guilds() {
    let session = active("a", &["g1"], vec![guild("g1", "owner", &["c1"])]);
    let (session, _) = session.step(memberships_changed("a"));
    let (session, action) = session.step(everything(
        &["g2", "g3"],
        vec![guild("g2", "o", &["c2", "c3"]), guild("g9", "o", &["c9"]), guild("g3", "o", &["c4"])],
    ));
    assert_eq!(action, SessionAction::Send(ServerMessage::UserGuildDataUpdate));
    let snapshot = session.snapshot();
    assert_eq!(snapshot.memberships(), &vec!["g2".to_owned(), "g3".to_owned()]);
    assert_eq!(
        snapshot.guilds(),
        &vec![guild("g2", "o", &["c2", "c3"]), guild("g3", "o", &["c4"])]
    );
    assert_eq!(snapshot.channel_count(), 3);
    assert_eq!(snapshot.guild_of_channel(&"c1".to_owned()), None);
    assert_eq!(snapshot.guild_of_channel(&"c2".to_owned()), Some("g2".to_owned()));
    assert_eq!(snapshot.guild_of_channel(&"c3".to_owned()), Some("g2".to_owned()));
    assert_eq!(snapshot.guild_of_channel(&"c4".to_owned()), Some("g3".to_owned()));
    assert_eq!(snapshot.guild_of_channel(&"c9".to_owned()), None);
    assert!(snapshot.is_member(&"g2".to_owned()));
    assert!(!snapshot.is_member(&"g9".to_owned()));
    assert!(!snapshot.is_member(&"g1".to_owned()));
}

#[test]
fn lag_triggers_one_full_resync_without_a_notice() {
    let session = active("a", &["g1"], vec![guild("g1", "owner", &["c1"])]);
    let (session, action) = session.step(SessionInput::Lagged);
    assert_eq!(action, SessionAction::Fetch(FetchRequest::Everything { user_id: "a".to_owned() }));
    assert!(session.is_refreshing());

    let (session, action) =
        session.step(everything(&["g1", "g2"], vec![guild("g1", "owner", &["c1"]), guild("g2", "o", &["c2"])]));
    assert_eq!(action, SessionAction::Idle);
    assert!(!session.is_refreshing());
    assert_eq!(session.snapshot().channel_count(), 2);

    let (session, action) = session.step(everything(&[], vec![]));
    assert_eq!(action, SessionAction::Idle);
    assert_eq!(session.snapshot().channel_count(), 2);

    let (_, action) = session.step(new_message("m1", "c2", "x"));
    assert!(matches!(action, SessionAction::Send(ServerMessage::NewMessage(_))));
}

#[test]
fn failed_refresh_keeps_the_previous_snapshot() {
    let session = active("a", &["g1"], vec![guild("g1", "owner", &["c1"])]);
    let (session, _) = session.step(guild_changed("g1"));
    let (session, action) =
        session.step(SessionInput::Fetched(FetchReply::Failed(PersistenceError::Io)));
    assert_eq!(action, SessionAction::Idle);
    assert_eq!(session.phase(), Phase::Active);
    assert!(!session.is_refreshing());
    assert_eq!(session.snapshot().guilds(), &vec![guild("g1", "owner", &["c1"])]);

    let (session, action) = session.step(guild_changed("g1"));
    assert_eq!(
        action,
        SessionAction::Fetch(FetchRequest::Topology { guild_ids: vec!["g1".to_owned()] })
    );
    let (session, action) = session.step(SessionInput::Fetched(FetchReply::Topology {
        guilds: vec![guild("g1", "owner", &["c1", "c2"])],
    }));
    assert_eq!(
        action,
        SessionAction::Send(ServerMessage::GuildDataUpdate { guild_id: "g1".to_owned() })
    );
    assert_eq!(session.snapshot().channel_count(), 2);
}

#[test]
fn reply_of_the_wrong_kind_is_ignored() {
    let session = active("a", &["g1"], vec![guild("g1", "owner", &["c1"])]);
    let (session, _) = session.step(guild_changed("g1"));
    let (session, action) = session.step(everything(&[], vec![]));
    assert_eq!(action, SessionAction::Idle);
    assert!(session.is_refreshing());
    assert_eq!(session.snapshot().channel_count(), 1);
}

#[test]
fn disconnect_closes_and_releases_the_snapshot() {
    let session = active("a", &["g1"], vec![guild("g1", "owner", &["c1"])]);
    let (session, action) = session.step(SessionInput::Disconnected);
    assert_eq!(action, SessionAction::Close);
    assert_eq!(session.phase(), Phase::Closed);
    assert_eq!(session.snapshot().channel_count(), 0);
    assert!(session.snapshot().guilds().is_empty());

    let (session, action) = session.step(new_message("m1", "c1", "x"));
    assert_eq!(action, SessionAction::Idle);
    let (session, action) = session.step(SessionInput::Lagged);
    assert_eq!(action, SessionAction::Idle);
    let (session, action) = session.step(everything(&["g1"], vec![guild("g1", "o", &["c1"])]));
    assert_eq!(action, SessionAction::Idle);
    assert_eq!(session.phase(), Phase::Closed);
    assert_eq!(session.snapshot().channel_count(), 0);
}

#[test]
fn channel_listed_by_two_guilds_belongs_to_the_later_one() {
    let session = active(
        "a",
        &["g1", "g2"],
        vec![guild("g1", "o", &["c1", "shared"]), guild("g2", "o", &["shared"])],
    );
    assert_eq!(session.snapshot().guild_of_channel(&"shared".to_owned()), Some("g2".to_owned()));
    assert_eq!(session.snapshot().channel_count(), 2);
}
