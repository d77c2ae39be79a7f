//! What the client is told about one chat.

use vstd::prelude::*;
use crate::account::util::{color_int_to_hex, color_hex_text};

verus! {

/// The contact id that stands for the account's own user.
pub const DC_CONTACT_ID_SELF: u32 = 1;

/// Where a chat is shown in the chat list.
#[derive(Clone, Copy, Debug, PartialEq, Eq, Structural)]
pub enum ChatVisibility {
    Normal,
    Archived,
    Pinned,
}

/// The kind of a chat.
#[derive(Clone, Copy, Debug, PartialEq, Eq, Structural)]
pub enum Chattype {
    Undefined,
    Single,
    Group,
    Mailinglist,
}

/// A chat id, with what the id alone says about the chat: whether it is the
/// link to the archive or the dead drop of messages from unknown senders.
#[derive(Clone, Copy, Debug, PartialEq, Eq, Structural)]
pub struct ChatIdInfo {
    pub id: u32,
    pub is_archived_link: bool,
    pub is_deaddrop: bool,
}

/// What a chat, loaded from the database, says of itself.
#[derive(Debug)]
pub struct ChatFacts {
    pub name: String,
    pub visibility: ChatVisibility,
    pub is_protected: bool,
    pub chat_type: Chattype,
    pub is_promoted: bool,
    pub is_self_talk: bool,
    pub is_device_talk: bool,
    pub is_sending_locations: bool,
    pub is_muted: bool,
}

/// `ChatFacts` with the name as a sequence of characters.
pub struct ChatFactsView {
    pub name: Seq<char>,
    pub visibility: ChatVisibility,
    pub is_protected: bool,
    pub chat_type: Chattype,
    pub is_promoted: bool,
    pub is_self_talk: bool,
    pub is_device_talk: bool,
    pub is_sending_locations: bool,
    pub is_muted: bool,
}

impl View for ChatFacts {
    type V = ChatFactsView;

    open spec fn view(&self) -> ChatFactsView {
        ChatFactsView {
            name: self.name@,
            visibility: self.visibility,
            is_protected: self.is_protected,
            chat_type: self.chat_type,
            is_promoted: self.is_promoted,
            is_self_talk: self.is_self_talk,
            is_device_talk: self.is_device_talk,
            is_sending_locations: self.is_sending_locations,
            is_muted: self.is_muted,
        }
    }
}

/// An optional text as an optional sequence of characters.
pub open spec fn opt_view(o: Option<String>) -> Option<Seq<char>> {
    match o {
        Some(s) => Some(s@),
        None => None,
    }
}

/// The profile image of a chat, as the chat core reports it: none, a path
/// that is not valid UTF-8, or a path.
pub open spec fn image_view(img: Option<Option<String>>) -> Option<Option<Seq<char>>> {
    match img {
        None => None,
        Some(p) => Some(opt_view(p)),
    }
}

/// The path the client is given for a profile image: none without an image,
/// `invalid/path` for a path that is not valid UTF-8.
pub open spec fn avatar_path_text(img: Option<Option<Seq<char>>>) -> Option<Seq<char>> {
    match img {
        None => None,
        Some(None) => Some("invalid/path"@),
        Some(Some(p)) => Some(p),
    }
}

/// The path the client is given for a profile image.
pub fn avatar_path(img: &Option<Option<String>>) -> (res: Option<String>)
    ensures
        opt_view(res) == avatar_path_text(image_view(*img)),
{
    match img {
        None => None,
        Some(None) => Some("invalid/path".to_owned()),
        Some(Some(p)) => Some(p.clone()),
    }
}

/// Whether the account's own user is among the contacts.
pub fn contains_self(contacts: &Vec<u32>) -> (res: bool)
    ensures
        res == contacts@.contains(DC_CONTACT_ID_SELF),
{
    let mut i: usize = 0;
    while i < contacts.len()
        invariant
            i <= contacts.len(),
            forall|j: int| 0 <= j < i ==> contacts@[j] != DC_CONTACT_ID_SELF,
        decreases contacts.len() - i,
    {
        if contacts[i] == DC_CONTACT_ID_SELF {
            return true;
        }
        i = i + 1;
    }
    false
}

/// Everything the client is told about one chat.
#[derive(Debug)]
pub struct FullChat {
    pub id: u32,
    pub name: String,
    pub is_protected: bool,
    pub profile_image: Option<String>,
    pub archived: bool,
    pub chat_type: Chattype,
    /// new chat but no initial message sent
    pub is_unpromoted: bool,
    pub contact_ids: Vec<u32>,
    pub color: String,
    pub fresh_message_counter: usize,
    pub is_group: bool,
    pub is_deaddrop: bool,
    pub is_self_talk: bool,
    pub is_device_chat: bool,
    pub is_self_in_group: bool,
}

/// Assembles what the client is told about a chat from what the chat core
/// reported: the chat itself, its profile image, its contacts, its colour
/// and its number of fresh messages.
pub fn get_full_chat_by_id(
    chat_id: ChatIdInfo,
    chat: ChatFacts,
    profile_image: Option<Option<String>>,
    contact_ids: Vec<u32>,
    color: u32,
    fresh_message_counter: usize,
) -> (res: FullChat)
    requires
        color + 0x1000000 <= u32::MAX,
    ensures
        res.id == chat_id.id,
        res.name@ == chat.name@,
        res.is_protected == chat.is_protected,
        opt_view(res.profile_image) == avatar_path_text(image_view(profile_image)),
        res.archived == (chat.visibility == ChatVisibility::Archived),
        res.chat_type == chat.chat_type,
        res.is_unpromoted == !chat.is_promoted,
        res.contact_ids@ == contact_ids@,
        res.color@ == color_hex_text(color),
        res.fresh_message_counter == fresh_message_counter,
        res.is_group == (chat.chat_type == Chattype::Group),
        res.is_deaddrop == chat_id.is_deaddrop,
        res.is_self_talk == chat.is_self_talk,
        res.is_device_chat == chat.is_device_talk,
        res.is_self_in_group == contact_ids@.contains(DC_CONTACT_ID_SELF),
{
    let avatar = avatar_path(&profile_image);
    let self_in_group = contains_self(&contact_ids);
    let color_text = color_int_to_hex(color);
    FullChat {
        id: chat_id.id,
        name: chat.name,
        is_protected: chat.is_protected,
        profile_image: avatar,
        archived: chat.visibility == ChatVisibility::Archived,
        chat_type: chat.chat_type,
        is_unpromoted: !chat.is_promoted,
        contact_ids,
        color: color_text,
        fresh_message_counter,
        is_group: chat.chat_type == Chattype::Group,
        is_deaddrop: chat_id.is_deaddrop,
        is_self_talk: chat.is_self_talk,
        is_device_chat: chat.is_device_talk,
        is_self_in_group: self_in_group,
    }
}

} // verus!
