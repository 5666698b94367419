use rustcord::bus::{input_of, Bus, BusSignal};
use rustcord::envelope::ServerMessage;
use rustcord::event::{SocketMessagePayload, SocketMessageType, SocketPayload};
use rustcord::handlers::Mutation;
use rustcord::model::{Channel, Guild, Message, User};
use rustcord::persistence::{FetchReply, FetchRequest};
use rustcord::session::{Session, SessionAction, SessionInput};
use serde_json::Value;

fn guild_changed(guild_id: &str) -> SocketPayload {
    SocketPayload { message: SocketMessageType::GuildDataUpdate(guild_id.to_owned()) }
}

fn guild(id: &str, owner: &str, channels: &[&str]) -> Guild {
    Guild {
        id: id.to_owned(),
        name: id.to_uppercase(),
        owner_id: owner.to_owned(),
        channels: channels
            .iter()
            .map(|c| Channel { id: (*c).to_owned(), guild_id: id.to_owned(), name: (*c).to_owned() })
            .collect(),
    }
}

fn connect(bus: &Bus, user: &str, memberships: &[&str], guilds: Vec<Guild>) -> (Session, rustcord::bus::Subscription) {
    let (session, _) = Session::open(user.to_owned());
    let (session, action) = session.step(SessionInput::Fetched(FetchReply::Everything {
        memberships: memberships.iter().map(|m| (*m).to_owned()).collect(),
        guilds,
    }));
    assert_eq!(action, SessionAction::Subscribe);
    (session, bus.subscribe())
}

#[test]
fn bus_needs_a_capacity_it_can_hold() {
    assert!(Bus::new(0).is_none());
    assert!(Bus::new(usize::MAX).is_none());
    assert!(Bus::new(usize::MAX / 2 + 1).is_none());
    assert!(Bus::new(1).is_some());
    assert!(Bus::new(100).is_some());
}

#[test]
fn publishing_without_subscribers_is_not_an_error() {
    let bus = Bus::new(4).unwrap();
    bus.publish(guild_changed("g1"));
    bus.publish(guild_changed("g2"));
    let mut late = bus.subscribe();
    assert_eq!(late.poll(), None);
}

#[test]
fn subscribers_see_what_is_published_after_they_subscribed_in_order() {
    let bus = Bus::new(8).unwrap();
    bus.publish(guild_changed("before"));
    let mut first = bus.subscribe();
    bus.publish(guild_changed("g1"));
    let mut second = bus.subscribe();
    bus.publish(guild_changed("g2"));

    assert_eq!(first.poll(), Some(SessionInput::Event(guild_changed("g1"))));
    assert_eq!(first.poll(), Some(SessionInput::Event(guild_changed("g2"))));
    assert_eq!(first.poll(), None);
    assert_eq!(second.poll(), Some(SessionInput::Event(guild_changed("g2"))));
    assert_eq!(second.poll(), None);
}

#[test]
fn slow_subscriber_is_told_that_it_lagged() {
    let bus = Bus::new(2).unwrap();
    let mut slow = bus.subscribe();
    for n in 0..5 {
        bus.publish(guild_changed(&format!("g{}", n)));
    }
    assert_eq!(slow.poll(), Some(SessionInput::Lagged));
    assert_eq!(slow.poll(), Some(SessionInput::Event(guild_changed("g3"))));
    assert_eq!(slow.poll(), Some(SessionInput::Event(guild_changed("g4"))));
    assert_eq!(slow.poll(), None);
}

#[test]
fn bus_keeps_the_next_power_of_two_of_events() {
    for (asked, kept) in [(1usize, 1usize), (2, 2), (3, 4), (5, 8), (100, 128)] {
        let bus = Bus::new(asked).unwrap();
        let mut exact = bus.subscribe();
        for n in 0..kept {
            bus.publish(guild_changed(&format!("g{}", n)));
        }
        assert_eq!(exact.poll(), Some(SessionInput::Event(guild_changed("g0"))));

        let mut late = bus.subscribe();
        for n in 0..kept + 1 {
            bus.publish(guild_changed(&format!("h{}", n)));
        }
        assert_eq!(late.poll(), Some(SessionInput::Lagged));
        assert_eq!(late.poll(), Some(SessionInput::Event(guild_changed("h1"))));
    }
}

#[test]
fn deleted_guild_reaches_every_member_and_nobody_else() {
    let bus = Bus::new(16).unwrap();
    let (owner, mut bus_owner) = connect(&bus, "o", &["g1"], vec![guild("g1", "o", &["c1"])]);
    let (member, mut bus_member) = connect(&bus, "m", &["g1"], vec![guild("g1", "o", &["c1"])]);
    let (stranger, mut bus_stranger) =
        connect(&bus, "s", &["g2"], vec![guild("g2", "s", &["c2"])]);

    bus.publish_mutation(Mutation::GuildDeleted {
        guild_id: "g1".to_owned(),
        owner_id: "o".to_owned(),
    });

    for (session, subscription) in [(owner, &mut bus_owner), (member, &mut bus_member)] {
        let (session, action) = session.step(subscription.poll().unwrap());
        assert_eq!(
            action,
            SessionAction::Fetch(FetchRequest::Topology { guild_ids: vec!["g1".to_owned()] })
        );
        let (session, action) =
            session.step(SessionInput::Fetched(FetchReply::Topology { guilds: vec![] }));
        assert_eq!(
            action,
            SessionAction::Send(ServerMessage::GuildDataUpdate { guild_id: "g1".to_owned() })
        );
        assert!(session.snapshot().guilds().is_empty());
        assert_eq!(session.snapshot().channel_count(), 0);
        assert!(!session.snapshot().has_channel(&"c1".to_owned()));
    }

    let (stranger, action) = stranger.step(bus_stranger.poll().unwrap());
    assert_eq!(action, SessionAction::Idle);
    assert_eq!(stranger.snapshot().channel_count(), 1);
}

#[test]
fn new_member_gains_the_guild_in_its_own_session() {
    let bus = Bus::new(16).unwrap();
    let (joiner, mut bus_joiner) = connect(&bus, "j", &[], vec![]);
    let (member, mut bus_member) = connect(&bus, "m", &["g1"], vec![guild("g1", "o", &["c1"])]);

    bus.publish_mutation(Mutation::MemberJoined {
        guild_id: "g1".to_owned(),
        user_id: "j".to_owned(),
    });

    let (joiner, action) = joiner.step(bus_joiner.poll().unwrap());
    assert_eq!(action, SessionAction::Fetch(FetchRequest::Everything { user_id: "j".to_owned() }));
    let (joiner, action) = joiner.step(SessionInput::Fetched(FetchReply::Everything {
        memberships: vec!["g1".to_owned()],
        guilds: vec![guild("g1", "o", &["c1"])],
    }));
    assert_eq!(action, SessionAction::Send(ServerMessage::UserGuildDataUpdate));
    assert!(joiner.snapshot().is_member(&"g1".to_owned()));
    assert_eq!(joiner.snapshot().guild_of_channel(&"c1".to_owned()), Some("g1".to_owned()));

    let (member, action) = member.step(bus_member.poll().unwrap());
    assert_eq!(action, SessionAction::Idle);
    assert_eq!(member.snapshot().channel_count(), 1);
}

#[test]
fn subscriber_of_a_dropped_bus_is_disconnected() {
    let bus = Bus::new(2).unwrap();
    let mut subscription = bus.subscribe();
    bus.publish(guild_changed("g1"));
    drop(bus);
    assert_eq!(subscription.poll(), Some(SessionInput::Event(guild_changed("g1"))));
    assert_eq!(subscription.poll(), Some(SessionInput::Disconnected));
}

#[test]
fn signals_become_session_inputs() {
    assert_eq!(
        input_of(BusSignal::Event(guild_changed("g1"))),
        Some(SessionInput::Event(guild_changed("g1")))
    );
    assert_eq!(input_of(BusSignal::Lagged(1)), Some(SessionInput::Lagged));
    assert_eq!(input_of(BusSignal::Lagged(u64::MAX)), Some(SessionInput::Lagged));
    assert_eq!(input_of(BusSignal::Closed), Some(SessionInput::Disconnected));
    assert_eq!(input_of(BusSignal::Empty), None);
}

#[test]
fn posted_message_reaches_the_member_and_not_the_stranger() {
    let bus = Bus::new(16).unwrap();
    let (session_a, mut bus_a) = connect(&bus, "a", &["g1"], vec![guild("g1", "a", &["c1"])]);
    let (session_b, mut bus_b) = connect(&bus, "b", &["g2"], vec![guild("g2", "b", &["c2"])]);

    bus.publish_mutation(Mutation::MessagePosted {
        message: Message {
            id: "m1".to_owned(),
            channel_id: "c1".to_owned(),
            author: User { id: "a".to_owned(), username: "ann".to_owned() },
            content: "hello".to_owned(),
            created_at: "2022-03-01T12:00:00+00:00".to_owned(),
        },
    });

    let (_, action) = session_a.step(bus_a.poll().unwrap());
    let sent = match action {
        SessionAction::Send(message) => message,
        other => panic!("expected a message for the client, got {:?}", other),
    };
    let json: Value = serde_json::from_str(&sent.encode().unwrap()).unwrap();
    assert_eq!(json["msg_type"], Value::String("new_message".to_owned()));
    assert_eq!(json["channel_id"], Value::String("c1".to_owned()));
    assert_eq!(json["id"], Value::String("m1".to_owned()));
    assert_eq!(json["author"]["id"], Value::String("a".to_owned()));
    assert_eq!(json["author"]["username"], Value::String("ann".to_owned()));
    assert_eq!(json["content"], Value::String("hello".to_owned()));
    assert_eq!(json["created_at"], Value::String("2022-03-01T12:00:00+00:00".to_owned()));
    assert_eq!(bus_a.poll(), None);

    let (_, action) = session_b.step(bus_b.poll().unwrap());
    assert_eq!(action, SessionAction::Idle);
    assert_eq!(bus_b.poll(), None);
}

#[test]
fn created_channel_is_announced_and_indexed() {
    let bus = Bus::new(16).unwrap();
    let (session, mut subscription) =
        connect(&bus, "a", &["g1"], vec![guild("g1", "owner", &["c1"])]);

    bus.publish_mutation(Mutation::ChannelCreated {
        guild_id: "g1".to_owned(),
        channel_id: "c2".to_owned(),
    });

    let (session, action) = session.step(subscription.poll().unwrap());
    assert_eq!(
        action,
        SessionAction::Fetch(FetchRequest::Topology { guild_ids: vec!["g1".to_owned()] })
    );
    let (session, action) = session.step(SessionInput::Fetched(FetchReply::Topology {
        guilds: vec![guild("g1", "owner", &["c1", "c2"])],
    }));
    let notice = match action {
        SessionAction::Send(message) => message,
        other => panic!("expected a notice for the client, got {:?}", other),
    };
    assert_eq!(notice, ServerMessage::GuildDataUpdate { guild_id: "g1".to_owned() });
    assert_eq!(
        notice.encode().unwrap(),
        "{\"guild_id\":\"g1\",\"msg_type\":\"guild_data_update\"}"
    );
    assert_eq!(session.snapshot().guild_of_channel(&"c2".to_owned()), Some("g1".to_owned()));
}

#[test]
fn lagging_session_resyncs_and_goes_on_filtering() {
    let bus = Bus::new(1).unwrap();
    let (session, mut subscription) =
        connect(&bus, "a", &["g1"], vec![guild("g1", "owner", &["c1"])]);
    bus.publish(guild_changed("g1"));
    bus.publish(guild_changed("g1"));
    bus.publish(SocketPayload {
        message: SocketMessageType::NewMessage(
            SocketMessagePayload {
                msg_type: "new_message".to_owned(),
                content: "late".to_owned(),
                author: User { id: "x".to_owned(), username: "xe".to_owned() },
                channel_id: "c2".to_owned(),
                created_at: "2022-03-01T12:00:00+00:00".to_owned(),
                id: "m9".to_owned(),
            },
            "c2".to_owned(),
        ),
    });

    let input = subscription.poll().unwrap();
    assert_eq!(input, SessionInput::Lagged);
    let (session, action) = session.step(input);
    assert_eq!(action, SessionAction::Fetch(FetchRequest::Everything { user_id: "a".to_owned() }));
    let (session, action) = session.step(SessionInput::Fetched(FetchReply::Everything {
        memberships: vec!["g1".to_owned()],
        guilds: vec![guild("g1", "owner", &["c1", "c2"])],
    }));
    assert_eq!(action, SessionAction::Idle);

    let (_, action) = session.step(subscription.poll().unwrap());
    assert!(matches!(action, SessionAction::Send(ServerMessage::NewMessage(_))));
}
