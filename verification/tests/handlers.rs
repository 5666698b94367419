use rustcord::event::{SocketMessagePayload, SocketMessageType, SocketPayload};
use rustcord::handlers::{
    channel_access, channel_creation, event_for, guild_deletion, is_member_of,
    new_message_payload, read_refusal, write_refusal, AuthPayload, InvitePayload,
    ItemCreatePayload, MessagePayload, Mutation, Read, Rejection, Write,
};
use rustcord::model::{Channel, Guild, Membership, Message, User};
use rustcord::persistence::PersistenceError;

fn membership(user: &str, guild: &str) -> Membership {
    Membership { user_id: user.to_owned(), guild_id: guild.to_owned() }
}

fn channel(id: &str, guild: &str) -> Channel {
    Channel { id: id.to_owned(), guild_id: guild.to_owned(), name: "general".to_owned() }
}

fn guild(id: &str, owner: &str) -> Guild {
    Guild { id: id.to_owned(), name: "g".to_owned(), owner_id: owner.to_owned(), channels: vec![] }
}

fn stored_message() -> Message {
    Message {
        id: "m1".to_owned(),
        channel_id: "c1".to_owned(),
        author: User { id: "a".to_owned(), username: "ann".to_owned() },
        content: "hello".to_owned(),
        created_at: "2022-03-01T12:00:00+00:00".to_owned(),
    }
}

#[test]
fn rejections_have_their_status_and_text() {
    let table: Vec<(Rejection, u16, Option<&str>)> = vec![
        (Rejection::Unauthorized, 401, None),
        (Rejection::UserNotFound, 404, Some("User not found.")),
        (Rejection::AccountNotFound, 404, Some("User not found")),
        (Rejection::ChannelNotFound, 404, Some("Channel not found.")),
        (Rejection::GuildNotFound, 404, Some("Guild not found.")),
        (Rejection::NotAMember, 403, Some("User is not a member of the guild.")),
        (Rejection::NotTheOwner, 403, Some("You are not the owner of this guild.")),
        (
            Rejection::NoManagementPermission,
            403,
            Some("You do not have management permissions in the specified guild."),
        ),
        (Rejection::IncorrectPassword, 403, Some("Incorrect password")),
        (Rejection::MessageSendingFailed, 404, Some("Message sending failed")),
        (Rejection::Internal, 500, Some("An error occured.")),
    ];
    for (rejection, status, text) in table {
        assert_eq!(rejection.status(), status);
        assert_eq!(rejection.message(), text.map(|t| t.to_owned()));
    }
}

#[test]
fn membership_is_looked_up_by_guild() {
    let memberships = vec![membership("a", "g1"), membership("a", "g2")];
    assert!(is_member_of(&memberships, &"g1".to_owned()));
    assert!(is_member_of(&memberships, &"g2".to_owned()));
    assert!(!is_member_of(&memberships, &"g3".to_owned()));
    assert!(!is_member_of(&memberships, &"a".to_owned()));
    assert!(!is_member_of(&vec![], &"g1".to_owned()));
}

#[test]
fn channel_access_checks_user_then_channel_then_membership() {
    let member = Ok(vec![membership("a", "g1")]);
    let stranger = Ok(vec![membership("a", "g2")]);
    let nobody: Result<Vec<Membership>, PersistenceError> = Err(PersistenceError::NotFound);
    let here = Ok(channel("c1", "g1"));
    let nowhere: Result<Channel, PersistenceError> = Err(PersistenceError::Io);

    assert_eq!(channel_access(&member, &here), Ok(()));
    assert_eq!(channel_access(&stranger, &here), Err(Rejection::NotAMember));
    assert_eq!(channel_access(&Ok(vec![]), &here), Err(Rejection::NotAMember));
    assert_eq!(channel_access(&member, &nowhere), Err(Rejection::ChannelNotFound));
    assert_eq!(channel_access(&nobody, &here), Err(Rejection::UserNotFound));
    assert_eq!(channel_access(&nobody, &nowhere), Err(Rejection::UserNotFound));
}

#[test]
fn only_the_owner_deletes_a_guild() {
    let found = Ok(guild("g1", "owner"));
    let missing: Result<Guild, PersistenceError> = Err(PersistenceError::NotFound);
    assert_eq!(guild_deletion(&found, &"owner".to_owned()), Ok(()));
    assert_eq!(guild_deletion(&found, &"other".to_owned()), Err(Rejection::NotTheOwner));
    assert_eq!(guild_deletion(&missing, &"owner".to_owned()), Err(Rejection::GuildNotFound));
}

#[test]
fn only_the_owner_adds_channels() {
    let found = Ok(guild("g1", "owner"));
    let missing: Result<Guild, PersistenceError> = Err(PersistenceError::Io);
    assert_eq!(channel_creation(&found, &"owner".to_owned()), Ok(()));
    assert_eq!(
        channel_creation(&found, &"other".to_owned()),
        Err(Rejection::NoManagementPermission)
    );
    assert_eq!(channel_creation(&missing, &"owner".to_owned()), Err(Rejection::GuildNotFound));
}

#[test]
fn posted_message_becomes_a_new_message_payload() {
    assert_eq!(
        new_message_payload(stored_message()),
        SocketMessagePayload {
            msg_type: "new_message".to_owned(),
            content: "hello".to_owned(),
            author: User { id: "a".to_owned(), username: "ann".to_owned() },
            channel_id: "c1".to_owned(),
            created_at: "2022-03-01T12:00:00+00:00".to_owned(),
            id: "m1".to_owned(),
        }
    );
}

#[test]
fn every_mutation_has_its_one_event() {
    assert_eq!(
        event_for(Mutation::MessagePosted { message: stored_message() }),
        SocketPayload {
            message: SocketMessageType::NewMessage(
                new_message_payload(stored_message()),
                "c1".to_owned()
            )
        }
    );
    assert_eq!(
        event_for(Mutation::GuildCreated { guild_id: "g1".to_owned(), owner_id: "a".to_owned() }),
        SocketPayload { message: SocketMessageType::UserGuildDataUpdate("a".to_owned()) }
    );
    assert_eq!(
        event_for(Mutation::GuildDeleted { guild_id: "g1".to_owned(), owner_id: "a".to_owned() }),
        SocketPayload { message: SocketMessageType::GuildDataUpdate("g1".to_owned()) }
    );
    assert_eq!(
        event_for(Mutation::ChannelCreated {
            guild_id: "g1".to_owned(),
            channel_id: "c2".to_owned()
        }),
        SocketPayload { message: SocketMessageType::GuildDataUpdate("g1".to_owned()) }
    );
    assert_eq!(
        event_for(Mutation::MemberJoined { guild_id: "g1".to_owned(), user_id: "b".to_owned() }),
        SocketPayload { message: SocketMessageType::UserGuildDataUpdate("b".to_owned()) }
    );
}

#[test]
fn failed_writes_are_errors_of_the_server_but_for_a_message() {
    assert_eq!(write_refusal(Write::Message), Rejection::MessageSendingFailed);
    for write in [
        Write::User,
        Write::Guild,
        Write::GuildDeletion,
        Write::Membership,
        Write::Channel,
        Write::Invite,
    ] {
        assert_eq!(write_refusal(write), Rejection::Internal);
    }
}

#[test]
fn failed_reads_say_what_was_not_found() {
    assert_eq!(read_refusal(Read::User), Rejection::UserNotFound);
    assert_eq!(read_refusal(Read::Account), Rejection::AccountNotFound);
    assert_eq!(read_refusal(Read::UserGuilds), Rejection::AccountNotFound);
    assert_eq!(read_refusal(Read::Channel), Rejection::ChannelNotFound);
    assert_eq!(read_refusal(Read::Messages), Rejection::ChannelNotFound);
    assert_eq!(read_refusal(Read::Guild), Rejection::GuildNotFound);
    assert_eq!(read_refusal(Read::Invite), Rejection::Internal);
}

#[test]
fn request_bodies_hold_their_fields() {
    let auth = AuthPayload { username: "ann".to_owned(), password: "secret".to_owned() };
    assert_eq!(auth.username, "ann");
    assert_eq!(auth.password, "secret");
    assert_eq!(MessagePayload { content: "hi".to_owned() }.content, "hi");
    assert_eq!(ItemCreatePayload { name: "general".to_owned() }.name, "general");
    assert_eq!(InvitePayload { code: "abc".to_owned() }.code, "abc");
}

#[test]
fn events_clone_equal() {
    let event = event_for(Mutation::MessagePosted { message: stored_message() });
    assert_eq!(event.clone(), event);
    let notice = SocketPayload { message: SocketMessageType::GuildDataUpdate("g".to_owned()) };
    assert_eq!(notice.clone(), notice);
    let update = SocketPayload { message: SocketMessageType::UserGuildDataUpdate("u".to_owned()) };
    assert_eq!(update.clone(), update);
}
