//! The messages of a chat.

use vstd::prelude::*;

verus! {

/// An entry of a chat's message list: a message, or a marker between
/// messages (such as a day marker).
#[derive(Clone, Copy, Debug, PartialEq, Eq, Structural)]
pub enum ChatItem {
    Message { msg_id: u32 },
    Marker,
}

/// The ids of the messages among the entries, in order.
pub open spec fn message_ids(items: Seq<ChatItem>) -> Seq<u32>
    decreases items.len(),
{
    if items.len() == 0 {
        Seq::empty()
    } else {
        let rest = message_ids(items.drop_last());
        match items.last() {
            ChatItem::Message { msg_id } => rest.push(msg_id),
            ChatItem::Marker => rest,
        }
    }
}

/// The id of the last entry, when that entry is a message.
pub open spec fn last_message_id(items: Seq<ChatItem>) -> Option<u32> {
    if items.len() == 0 {
        None
    } else {
        match items.last() {
            ChatItem::Message { msg_id } => Some(msg_id),
            ChatItem::Marker => None,
        }
    }
}

/// The ids of the messages of a chat, in the order of its message list,
/// leaving out the markers.
pub fn get_chat_message_ids(items: &Vec<ChatItem>) -> (res: Vec<u32>)
    ensures
        res@ == message_ids(items@),
{
    let mut res: Vec<u32> = Vec::new();
    let mut i: usize = 0;
    while i < items.len()
        invariant
            i <= items.len(),
            res@ == message_ids(items@.take(i as int)),
        decreases items.len() - i,
    {
        assert(items@.take(i + 1).drop_last() == items@.take(i as int));
        match items[i] {
            ChatItem::Message { msg_id } => res.push(msg_id),
            ChatItem::Marker => {},
        }
        i = i + 1;
    }
    assert(items@.take(items.len() as int) == items@);
    res
}

/// The id of the last entry of a chat's message list, when that entry is a
/// message.
pub fn get_last_message_id(items: &Vec<ChatItem>) -> (res: Option<u32>)
    ensures
        res == last_message_id(items@),
{
    if items.len() == 0 {
        None
    } else {
        match items[items.len() - 1] {
            ChatItem::Message { msg_id } => Some(msg_id),
            ChatItem::Marker => None,
        }
    }
}

/// The number of message entries among the entries.
pub open spec fn count_messages(items: Seq<ChatItem>) -> nat
    decreases items.len(),
{
    if items.len() == 0 {
        0
    } else {
        count_messages(items.drop_last()) + if items.last() is Message { 1nat } else { 0nat }
    }
}

/// Listing message ids keeps every message entry, in order, and only those:
/// a message at the end adds its id at the end, a marker adds nothing, no
/// entries give no ids, and the ids of two lists put together are the ids
/// of the first followed by those of the second.
pub proof fn law_message_ids_keep_every_message(s: Seq<ChatItem>, t: Seq<ChatItem>, m: u32)
    ensures
        message_ids(Seq::<ChatItem>::empty()) == Seq::<u32>::empty(),
        message_ids(s.push(ChatItem::Message { msg_id: m })) == message_ids(s).push(m),
        message_ids(s.push(ChatItem::Marker)) == message_ids(s),
        message_ids(s + t) == message_ids(s) + message_ids(t),
        message_ids(s).len() == count_messages(s),
{
    assert(s.push(ChatItem::Message { msg_id: m }).drop_last() == s);
    assert(s.push(ChatItem::Marker).drop_last() == s);
    lemma_message_ids_concat(s, t);
    lemma_message_ids_len(s);
}

proof fn lemma_message_ids_concat(s: Seq<ChatItem>, t: Seq<ChatItem>)
    ensures
        message_ids(s + t) == message_ids(s) + message_ids(t),
    decreases t.len(),
{
    if t.len() == 0 {
        assert(s + t == s);
    } else {
        lemma_message_ids_concat(s, t.drop_last());
        assert((s + t).drop_last() == s + t.drop_last());
        assert((s + t).last() == t.last());
    }
}

proof fn lemma_message_ids_len(s: Seq<ChatItem>)
    ensures
        message_ids(s).len() == count_messages(s),
    decreases s.len(),
{
    if s.len() > 0 {
        lemma_message_ids_len(s.drop_last());
    }
}

/// The last message id is that of the last entry when it is a message, and
/// there is none when the list is empty or ends with a marker.
pub proof fn law_last_message_id(s: Seq<ChatItem>, m: u32)
    ensures
        last_message_id(Seq::<ChatItem>::empty()) is None,
        last_message_id(s.push(ChatItem::Message { msg_id: m })) == Some(m),
        last_message_id(s.push(ChatItem::Marker)) is None,
{
}

} // verus!
