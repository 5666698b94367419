//! The messages of a channel in the order in which they were posted.
//!
//! A client keeps the messages of the channels it shows, and shows them by
//! time of posting. Messages posted at the same instant stay in the order in
//! which they arrived.

use vstd::prelude::*;
use crate::model::{Message, MessageView};

verus! {

/// The instant that an RFC 3339 text names, as seconds since the Unix epoch
/// and nanoseconds since that second; nothing for a text that names none.
pub uninterp spec fn instant_of(text: Seq<char>) -> Option<(int, int)>;

/// Calls `chrono::DateTime::parse_from_rfc3339` and, on what it parsed,
/// `timestamp` and `timestamp_subsec_nanos`. A text that parses names the
/// instant so given. Two parsed times compare as these pairs do: by the
/// second, then by the nanoseconds.
#[verifier::external_body]
fn parse_rfc3339(text: &str) -> (r: Option<(i64, u32)>)
    ensures
        r is Some <==> instant_of(text@) is Some,
        r matches Some(t) ==> instant_of(text@) == Some((t.0 as int, t.1 as int)),
{
    let parsed = chrono::DateTime::parse_from_rfc3339(text).ok()?;
    Some((parsed.timestamp(), parsed.timestamp_subsec_nanos()))
}

/// The views of a list of messages, in order.
pub open spec fn message_views(messages: Seq<Message>) -> Seq<MessageView> {
    Seq::new(messages.len(), |k: int| messages[k]@)
}

/// When a message was posted, if its time can be read.
pub open spec fn posted_at(message: MessageView) -> (int, int) {
    instant_of(message.created_at)->0
}

/// Whether the instant `a` is later than the instant `b`.
pub open spec fn later(a: (int, int), b: (int, int)) -> bool {
    a.0 > b.0 || (a.0 == b.0 && a.1 > b.1)
}

/// Where a message goes in a list: behind the last message of the list that
/// was not posted later than it.
pub open spec fn place_of(messages: Seq<MessageView>, message: MessageView) -> int
    decreases messages.len(),
{
    if messages.len() > 0 && later(posted_at(messages.last()), posted_at(message)) {
        place_of(messages.drop_last(), message)
    } else {
        messages.len() as int
    }
}

/// The messages by time of posting: each one, in the order of arrival, is put
/// in its place among those before it.
pub open spec fn ordered(messages: Seq<MessageView>) -> Seq<MessageView>
    decreases messages.len(),
{
    if messages.len() == 0 {
        messages
    } else {
        let before = ordered(messages.drop_last());
        before.insert(place_of(before, messages.last()), messages.last())
    }
}

/// Whether the time of every message can be read.
pub open spec fn all_timed(messages: Seq<MessageView>) -> bool {
    forall|i: int| 0 <= i < messages.len() ==> instant_of(#[trigger] messages[i].created_at) is Some
}

/// Whether no message stands before one that was posted earlier.
pub open spec fn in_order(messages: Seq<MessageView>) -> bool {
    forall|i: int, j: int|
        0 <= i < j < messages.len() ==> !later(
            posted_at(#[trigger] messages[i]),
            posted_at(#[trigger] messages[j]),
        )
}

/// The place of a message lies in the list; all that follows it was posted
/// later, and what stands just before it was not.
pub proof fn lemma_place_of(messages: Seq<MessageView>, message: MessageView)
    ensures
        0 <= place_of(messages, message) <= messages.len(),
        forall|k: int|
            place_of(messages, message) <= k < messages.len() ==> later(
                posted_at(#[trigger] messages[k]),
                posted_at(message),
            ),
        place_of(messages, message) > 0 ==> !later(
            posted_at(messages[place_of(messages, message) - 1]),
            posted_at(message),
        ),
    decreases messages.len(),
{
    if messages.len() > 0 && later(posted_at(messages.last()), posted_at(message)) {
        let rest = messages.drop_last();
        lemma_place_of(rest, message);
        assert forall|k: int| place_of(messages, message) <= k < messages.len() implies later(
            posted_at(#[trigger] messages[k]),
            posted_at(message),
        ) by {
            if k < rest.len() {
                assert(rest[k] == messages[k]);
            }
        }
        if place_of(messages, message) > 0 {
            assert(rest[place_of(messages, message) - 1] == messages[place_of(messages, message)
                - 1]);
        }
    }
}

/// The ordered messages are in order: none stands before one that was posted
/// earlier.
pub proof fn lemma_ordered_is_in_order(messages: Seq<MessageView>)
    ensures
        in_order(ordered(messages)),
    decreases messages.len(),
{
    if messages.len() > 0 {
        let before = ordered(messages.drop_last());
        let message = messages.last();
        let p = place_of(before, message);
        lemma_ordered_is_in_order(messages.drop_last());
        lemma_place_of(before, message);
        let after = before.insert(p, message);
        assert forall|i: int, j: int| 0 <= i < j < after.len() implies !later(
            posted_at(#[trigger] after[i]),
            posted_at(#[trigger] after[j]),
        ) by {
            if j < p {
                assert(after[i] == before[i] && after[j] == before[j]);
            } else if j == p {
                assert(after[i] == before[i]);
                if i < p - 1 {
                    assert(!later(posted_at(before[i]), posted_at(before[p - 1])));
                }
            } else if i < p {
                assert(after[i] == before[i] && after[j] == before[j - 1]);
            } else if i == p {
                assert(after[j] == before[j - 1]);
            } else {
                assert(after[i] == before[i - 1] && after[j] == before[j - 1]);
            }
        }
    }
}

/// The ordered messages are the given messages: each as often as it was
/// given, none added and none lost.
pub proof fn lemma_ordered_keeps_all(messages: Seq<MessageView>)
    ensures
        ordered(messages).to_multiset() == messages.to_multiset(),
        ordered(messages).len() == messages.len(),
    decreases messages.len(),
{
    if messages.len() > 0 {
        let rest = messages.drop_last();
        let before = ordered(rest);
        let message = messages.last();
        lemma_ordered_keeps_all(rest);
        lemma_place_of(before, message);
        vstd::seq_lib::to_multiset_insert(before, place_of(before, message), message);
        vstd::seq_lib::to_multiset_build(rest, message);
        assert(rest.push(message) =~= messages);
    }
}

/// A list that is in order already stays as it is.
pub proof fn lemma_ordered_of_in_order(messages: Seq<MessageView>)
    requires
        in_order(messages),
    ensures
        ordered(messages) == messages,
    decreases messages.len(),
{
    if messages.len() > 0 {
        let rest = messages.drop_last();
        let message = messages.last();
        assert forall|i: int, j: int| 0 <= i < j < rest.len() implies !later(
            posted_at(#[trigger] rest[i]),
            posted_at(#[trigger] rest[j]),
        ) by {
            assert(rest[i] == messages[i] && rest[j] == messages[j]);
        }
        lemma_ordered_of_in_order(rest);
        if rest.len() > 0 {
            assert(rest.last() == messages[rest.len() - 1]);
            assert(message == messages[messages.len() - 1]);
        }
        assert(rest.insert(rest.len() as int, message) =~= messages);
    }
}

/// The messages by time of posting, those posted at the same instant in the
/// order given; `None` when the time of one of them cannot be read.
pub fn order_by_time(messages: &Vec<Message>) -> (r: Option<Vec<Message>>)
    ensures
        r is Some <==> all_timed(message_views(messages@)),
        r matches Some(sorted) ==> message_views(sorted@) == ordered(message_views(messages@)),
{
    let ghost given = message_views(messages@);
    let mut sorted: Vec<Message> = Vec::new();
    let mut times: Vec<(i64, u32)> = Vec::new();
    let mut i: usize = 0;
    assert(message_views(sorted@) =~= ordered(given.take(0)));
    while i < messages.len()
        invariant
            i <= messages.len(),
            given == message_views(messages@),
            all_timed(given.take(i as int)),
            times.len() == sorted.len(),
            sorted.len() == i,
            message_views(sorted@) == ordered(given.take(i as int)),
            forall|k: int|
                0 <= k < sorted.len() ==> posted_at(#[trigger] sorted[k]@) == (
                    times[k].0 as int,
                    times[k].1 as int,
                ),
        decreases messages.len() - i,
    {
        let message = messages[i].clone();
        let time = match parse_rfc3339(message.created_at.as_str()) {
            Some(time) => time,
            None => {
                assert(instant_of(given[i as int].created_at) is None);
                return None;
            },
        };
        let ghost before = message_views(sorted@);
        let mut place: usize = sorted.len();
        assert(before.take(place as int) =~= before);
        while place > 0 && (times[place - 1].0 > time.0 || (times[place - 1].0 == time.0
            && times[place - 1].1 > time.1))
            invariant
                place <= sorted.len(),
                times.len() == sorted.len(),
                before == message_views(sorted@),
                posted_at(message@) == (time.0 as int, time.1 as int),
                place_of(before, message@) == place_of(before.take(place as int), message@),
                forall|k: int|
                    0 <= k < sorted.len() ==> posted_at(#[trigger] sorted[k]@) == (
                        times[k].0 as int,
                        times[k].1 as int,
                    ),
            decreases place,
        {
            proof {
                let shown = before.take(place as int);
                assert(shown.last() == sorted[place - 1]@);
                assert(shown.drop_last() =~= before.take(place - 1));
            }
            place = place - 1;
        }
        proof {
            let shown = before.take(place as int);
            if place > 0 {
                assert(shown.last() == sorted[place - 1]@);
            }
            assert(place_of(shown, message@) == place);
            assert(given.take(i + 1).drop_last() =~= given.take(i as int));
            assert(given.take(i + 1).last() == message@);
            assert(all_timed(given.take(i + 1))) by {
                assert forall|k: int| 0 <= k < i + 1 implies instant_of(
                    #[trigger] given.take(i + 1)[k].created_at,
                ) is Some by {
                    if k < i {
                        assert(given.take(i as int)[k] == given.take(i + 1)[k]);
                    }
                }
            }
        }
        sorted.insert(place, message);
        times.insert(place, time);
        assert(message_views(sorted@) =~= before.insert(place as int, given[i as int]));
        i = i + 1;
    }
    assert(given.take(messages.len() as int) =~= given);
    Some(sorted)
}

} // verus!
