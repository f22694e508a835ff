//! The messages that a server keeps for its clients, and how they are taken out.

use vstd::prelude::*;

use vstd::multiset::Multiset;

use crate::rest_api::{views, AsJson};
use crate::rest_api::send::Message;
use crate::rest_api::types::Sender;
use crate::text::owned;
use crate::time::timestamp;

verus! {

/// A message kept for its receiver.
#[derive(Debug, Clone, PartialEq, Eq, Hash)]
pub struct InboxRecord {
    pub sender: Sender,
    pub channel: String,
    pub message: Message,
    pub received_at: u64,
}

impl View for InboxRecord {
    type V = (<Sender as View>::V, Seq<char>, <Message as View>::V, u64);

    open spec fn view(&self) -> Self::V {
        (self.sender@, self.channel@, self.message@, self.received_at)
    }
}

/// The messages taken by a poll of `channel` taking at most `limit`, and the
/// messages left: records of the channel are taken oldest first until `limit` of
/// them are taken; every other record stays, in order.
pub open spec fn poll_split(
    records: Seq<<InboxRecord as View>::V>,
    channel: Seq<char>,
    limit: nat,
) -> (Seq<<InboxRecord as View>::V>, Seq<<InboxRecord as View>::V>)
    decreases records.len(),
{
    if records.len() == 0 {
        (Seq::empty(), Seq::empty())
    } else if limit == 0 {
        (Seq::empty(), records)
    } else if records[0].1 == channel {
        let rest = poll_split(records.drop_first(), channel, (limit - 1) as nat);
        (seq![records[0]] + rest.0, rest.1)
    } else {
        let rest = poll_split(records.drop_first(), channel, limit);
        (rest.0, seq![records[0]] + rest.1)
    }
}

/// A poll takes at most `limit` records, all of `channel`; every record is either
/// taken or left; and when fewer than `limit` are taken, no record of `channel` is left.
pub proof fn lemma_poll_split(records: Seq<<InboxRecord as View>::V>, channel: Seq<char>, limit: nat)
    ensures
        poll_split(records, channel, limit).0.len() <= limit,
        poll_split(records, channel, limit).0.len() + poll_split(records, channel, limit).1.len()
            == records.len(),
        forall|i: int|
            0 <= i < poll_split(records, channel, limit).0.len() ==> (#[trigger] poll_split(
                records,
                channel,
                limit,
            ).0[i]).1 == channel,
        poll_split(records, channel, limit).0.len() < limit ==> forall|i: int|
            0 <= i < poll_split(records, channel, limit).1.len() ==> (#[trigger] poll_split(
                records,
                channel,
                limit,
            ).1[i]).1 != channel,
    decreases records.len(),
{
    if records.len() > 0 && limit > 0 {
        if records[0].1 == channel {
            lemma_poll_split(records.drop_first(), channel, (limit - 1) as nat);
            let rest = poll_split(records.drop_first(), channel, (limit - 1) as nat);
            assert forall|i: int| 0 <= i < poll_split(records, channel, limit).0.len() implies (
            #[trigger] poll_split(records, channel, limit).0[i]).1 == channel by {
                if i > 0 {
                    assert(poll_split(records, channel, limit).0[i] == rest.0[i - 1]);
                }
            }
        } else {
            lemma_poll_split(records.drop_first(), channel, limit);
            let rest = poll_split(records.drop_first(), channel, limit);
            assert forall|i: int|
                0 <= i < poll_split(records, channel, limit).1.len() && poll_split(
                    records,
                    channel,
                    limit,
                ).0.len() < limit implies (#[trigger] poll_split(records, channel, limit).1[i]).1
                != channel by {
                if i > 0 {
                    assert(poll_split(records, channel, limit).1[i] == rest.1[i - 1]);
                }
            }
        }
    }
}

/// A poll loses no record and makes none up: the records taken and the records
/// left are, together, the records there were.
pub proof fn lemma_poll_split_keeps_all(records: Seq<<InboxRecord as View>::V>, channel: Seq<char>, limit: nat)
    ensures
        poll_split(records, channel, limit).0.to_multiset().add(
            poll_split(records, channel, limit).1.to_multiset(),
        ) == records.to_multiset(),
    decreases records.len(),
{
    broadcast use vstd::multiset::group_multiset_axioms;
    broadcast use vstd::seq_lib::group_to_multiset_ensures;
    broadcast use vstd::multiset::lemma_multiset_empty_len;

    if records.len() == 0 {
        assert(records.to_multiset() =~= Multiset::empty());
        assert(Seq::<<InboxRecord as View>::V>::empty().to_multiset() =~= Multiset::empty());
        assert(Multiset::<<InboxRecord as View>::V>::empty().add(Multiset::empty()) =~= Multiset::empty());
    } else if limit == 0 {
        assert(Seq::<<InboxRecord as View>::V>::empty().to_multiset() =~= Multiset::empty());
        assert(Multiset::<<InboxRecord as View>::V>::empty().add(records.to_multiset()) =~= records.to_multiset());
    } else {
        let head = seq![records[0]];
        let rest = records.drop_first();
        assert(records =~= head + rest);
        vstd::seq_lib::lemma_multiset_commutative(head, rest);
        if records[0].1 == channel {
            let sub = poll_split(rest, channel, (limit - 1) as nat);
            lemma_poll_split_keeps_all(rest, channel, (limit - 1) as nat);
            vstd::seq_lib::lemma_multiset_commutative(head, sub.0);
            assert(head.to_multiset().add(sub.0.to_multiset()).add(sub.1.to_multiset()) =~= head.to_multiset().add(sub.0.to_multiset().add(sub.1.to_multiset())));
        } else {
            let sub = poll_split(rest, channel, limit);
            lemma_poll_split_keeps_all(rest, channel, limit);
            vstd::seq_lib::lemma_multiset_commutative(head, sub.1);
            assert(sub.0.to_multiset().add(head.to_multiset().add(sub.1.to_multiset())) =~= head.to_multiset().add(sub.0.to_multiset().add(sub.1.to_multiset())));
        }
    }
}

/// The outcome of a poll: the messages taken, how many stay, and the inbox left.
pub struct PollOutcome {
    pub messages: Vec<InboxRecord>,
    pub remaining: usize,
    pub inbox: Vec<InboxRecord>,
}

/// Append a message received now to an inbox.
pub fn add_message(inbox: &mut Vec<InboxRecord>, sender: Sender, channel: &str, message: Message)
    ensures
        final(inbox)@.len() == old(inbox)@.len() + 1,
        final(inbox)@.take(old(inbox)@.len() as int) == old(inbox)@,
        final(inbox)@.last().sender@ == sender@,
        final(inbox)@.last().channel@ == channel@,
        final(inbox)@.last().message@ == message@,
{
    let record = InboxRecord { sender, channel: owned(channel), message, received_at: timestamp() };
    inbox.push(record);
    proof {
        assert(final(inbox)@.take(old(inbox)@.len() as int) =~= old(inbox)@);
    }
}

/// Take the messages of `channel` out of an inbox, at most `limit` of them (all of
/// them when no limit is given), oldest first.
pub fn poll_messages(inbox: Vec<InboxRecord>, channel: &str, limit: Option<usize>) -> (outcome: PollOutcome)
    ensures
        (views(outcome.messages@), views(outcome.inbox@)) == poll_split(
            views(inbox@),
            channel@,
            match limit {
                Some(l) => l as nat,
                None => inbox@.len(),
            },
        ),
        outcome.remaining == outcome.inbox@.len(),
{
    let mut left: usize = match limit {
        Some(l) => l,
        None => inbox.len(),
    };
    let ghost all = views(inbox@);
    let ghost total: nat = left as nat;
    let mut messages: Vec<InboxRecord> = Vec::new();
    let mut kept: Vec<InboxRecord> = Vec::new();
    let mut rest = inbox;
    let ghost n: nat = all.len();
    proof {
        assert(views(messages@) =~= Seq::empty());
        assert(views(kept@) =~= Seq::empty());
        assert(all.skip(0) =~= all);
    }
    while rest.len() > 0
        invariant
            rest@.len() <= n,
            all.len() == n,
            views(rest@) == all.skip(n - rest@.len()),
            poll_split(all, channel@, total) == (
                views(messages@) + poll_split(all.skip(n - rest@.len()), channel@, left as nat).0,
                views(kept@) + poll_split(all.skip(n - rest@.len()), channel@, left as nat).1,
            ),
        decreases rest@.len(),
    {
        let ghost before = views(rest@);
        let ghost i: int = n - rest@.len();
        let record = rest.remove(0);
        proof {
            assert(views(rest@) =~= before.drop_first());
            assert(before[0] == record@);
            assert(all.skip(i)[0] == record@);
            assert(all.skip(i).drop_first() =~= all.skip(i + 1));
        }
        if left > 0 && text_matches(&record.channel, channel) {
            let ghost m = views(messages@);
            messages.push(record);
            left = left - 1;
            proof {
                assert(views(messages@) =~= m.push(messages@.last()@));
                assert(seq![record@] + poll_split(all.skip(i + 1), channel@, left as nat).0 == seq![record@].add(poll_split(all.skip(i + 1), channel@, left as nat).0));
                assert(m + (seq![messages@.last()@] + poll_split(all.skip(i + 1), channel@, left as nat).0) =~= m.push(messages@.last()@) + poll_split(all.skip(i + 1), channel@, left as nat).0);
            }
        } else {
            let ghost k = views(kept@);
            kept.push(record);
            proof {
                assert(views(kept@) =~= k.push(kept@.last()@));
                assert(k + (seq![kept@.last()@] + poll_split(all.skip(i + 1), channel@, left as nat).1) =~= k.push(kept@.last()@) + poll_split(all.skip(i + 1), channel@, left as nat).1);
            }
        }
    }
    proof {
        assert(all.skip(n as int) =~= Seq::empty());
        assert(views(messages@) + Seq::<<InboxRecord as View>::V>::empty() =~= views(messages@));
        assert(views(kept@) + Seq::<<InboxRecord as View>::V>::empty() =~= views(kept@));
    }
    let remaining = kept.len();
    PollOutcome { messages, remaining, inbox: kept }
}

/// Whether a record's channel is `channel`.
fn text_matches(record_channel: &String, channel: &str) -> (same: bool)
    ensures
        same == (record_channel@ == channel@),
{
    crate::text::text_eq(record_channel.as_str(), channel)
}

} // verus!
