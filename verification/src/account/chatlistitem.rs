//! The chat list entries the client shows, and the order in which the facts
//! behind one entry are fetched from the chat core.
//!
//! Fetching an entry alternates questions to the chat core with decisions:
//! which message to summarise, whether the chat is the dead drop, whether a
//! load failed. `ChatListItemFetch::next_step` makes those decisions; its
//! caller answers each question it asks and calls it again, until it gives
//! the finished entry.

use vstd::prelude::*;
use crate::account::chat::{
    ChatIdInfo, ChatFacts, ChatFactsView, ChatVisibility, Chattype, DC_CONTACT_ID_SELF,
    avatar_path, avatar_path_text, image_view, opt_view, contains_self,
};
use crate::account::message::{ChatItem, last_message_id, get_last_message_id};
use crate::account::util::{color_int_to_hex, color_hex_text};
use crate::error::{ErrorInstance, ErrorType, error_debug_text, kind_name};
use crate::text::debug_str;
use std::collections::HashMap;

verus! {

/// An error value as kind and message.
pub type ErrView = (ErrorType, Seq<char>);

/// The summary of a chat's last message, as the chat core gives it.
#[derive(Debug)]
pub struct SummaryFacts {
    pub text1: Option<String>,
    pub text2: Option<String>,
    pub state: i64,
}

pub struct SummaryView {
    pub text1: Option<Seq<char>>,
    pub text2: Option<Seq<char>>,
    pub state: i64,
}

impl View for SummaryFacts {
    type V = SummaryView;

    open spec fn view(&self) -> SummaryView {
        SummaryView { text1: opt_view(self.text1), text2: opt_view(self.text2), state: self.state }
    }
}

/// What a message, loaded from the database, gives an entry: its time (in
/// seconds) and its sender.
#[derive(Clone, Copy, Debug, PartialEq, Eq, Structural)]
pub struct MessageFacts {
    pub timestamp: i64,
    pub from_id: u32,
}

/// What a contact, loaded from the database, gives an entry.
#[derive(Debug)]
pub struct ContactFacts {
    pub display_name: String,
    pub addr: String,
    pub id: u32,
}

pub struct ContactView {
    pub display_name: Seq<char>,
    pub addr: Seq<char>,
    pub id: u32,
}

impl View for ContactFacts {
    type V = ContactView;

    open spec fn view(&self) -> ContactView {
        ContactView { display_name: self.display_name@, addr: self.addr@, id: self.id }
    }
}

/// The facts of a chat that cannot fail to load: its contacts, its number of
/// fresh messages and its colour.
#[derive(Debug)]
pub struct ChatDetails {
    pub contacts: Vec<u32>,
    pub fresh_message_count: usize,
    pub color: u32,
}

pub struct ChatDetailsView {
    pub contacts: Seq<u32>,
    pub fresh_message_count: usize,
    pub color: u32,
}

impl View for ChatDetails {
    type V = ChatDetailsView;

    open spec fn view(&self) -> ChatDetailsView {
        ChatDetailsView {
            contacts: self.contacts@,
            fresh_message_count: self.fresh_message_count,
            color: self.color,
        }
    }
}

/// One entry of the chat list as the client receives it.
#[derive(Debug)]
#[allow(inconsistent_fields)]
pub enum ChatListItemFetchResult {
    ChatListItem {
        id: u32,
        name: String,
        avatar_path: Option<String>,
        color: String,
        last_updated: Option<i64>,
        summary_text1: String,
        summary_text2: String,
        summary_status: i64,
        is_protected: bool,
        is_group: bool,
        fresh_message_counter: usize,
        is_self_talk: bool,
        is_device_talk: bool,
        is_sending_location: bool,
        is_self_in_group: bool,
        is_archived: bool,
        is_pinned: bool,
        is_muted: bool,
    },
    DeadDrop {
        last_updated: i64,
        sender_name: String,
        sender_address: String,
        sender_contact_id: u32,
        message_id: u32,
        summary_text1: String,
        summary_text2: String,
    },
    ArchiveLink,
    Error { id: u32, error: String },
}

/// `ChatListItemFetchResult` with texts as sequences of characters.
#[allow(inconsistent_fields)]
pub enum ChatListItemView {
    ChatListItem {
        id: u32,
        name: Seq<char>,
        avatar_path: Option<Seq<char>>,
        color: Seq<char>,
        last_updated: Option<i64>,
        summary_text1: Seq<char>,
        summary_text2: Seq<char>,
        summary_status: i64,
        is_protected: bool,
        is_group: bool,
        fresh_message_counter: usize,
        is_self_talk: bool,
        is_device_talk: bool,
        is_sending_location: bool,
        is_self_in_group: bool,
        is_archived: bool,
        is_pinned: bool,
        is_muted: bool,
    },
    DeadDrop {
        last_updated: i64,
        sender_name: Seq<char>,
        sender_address: Seq<char>,
        sender_contact_id: u32,
        message_id: u32,
        summary_text1: Seq<char>,
        summary_text2: Seq<char>,
    },
    ArchiveLink,
    Error { id: u32, error: Seq<char> },
}

impl View for ChatListItemFetchResult {
    type V = ChatListItemView;

    open spec fn view(&self) -> ChatListItemView {
        match self {
            ChatListItemFetchResult::ChatListItem {
                id,
                name,
                avatar_path,
                color,
                last_updated,
                summary_text1,
                summary_text2,
                summary_status,
                is_protected,
                is_group,
                fresh_message_counter,
                is_self_talk,
                is_device_talk,
                is_sending_location,
                is_self_in_group,
                is_archived,
                is_pinned,
                is_muted,
            } => ChatListItemView::ChatListItem {
                id: *id,
                name: name@,
                avatar_path: opt_view(*avatar_path),
                color: color@,
                last_updated: *last_updated,
                summary_text1: summary_text1@,
                summary_text2: summary_text2@,
                summary_status: *summary_status,
                is_protected: *is_protected,
                is_group: *is_group,
                fresh_message_counter: *fresh_message_counter,
                is_self_talk: *is_self_talk,
                is_device_talk: *is_device_talk,
                is_sending_location: *is_sending_location,
                is_self_in_group: *is_self_in_group,
                is_archived: *is_archived,
                is_pinned: *is_pinned,
                is_muted: *is_muted,
            },
            ChatListItemFetchResult::DeadDrop {
                last_updated,
                sender_name,
                sender_address,
                sender_contact_id,
                message_id,
                summary_text1,
                summary_text2,
            } => ChatListItemView::DeadDrop {
                last_updated: *last_updated,
                sender_name: sender_name@,
                sender_address: sender_address@,
                sender_contact_id: *sender_contact_id,
                message_id: *message_id,
                summary_text1: summary_text1@,
                summary_text2: summary_text2@,
            },
            ChatListItemFetchResult::ArchiveLink => ChatListItemView::ArchiveLink,
            ChatListItemFetchResult::Error { id, error } => ChatListItemView::Error {
                id: *id,
                error: error@,
            },
        }
    }
}

/// A text, or the empty text.
pub open spec fn text_or_empty(o: Option<Seq<char>>) -> Seq<char> {
    match o {
        Some(t) => t,
        None => Seq::empty(),
    }
}

/// A time in seconds, in milliseconds.
pub open spec fn millis(timestamp: i64) -> i64 {
    (timestamp * 1000) as i64
}

/// A time in seconds whose value in milliseconds fits in `i64`.
pub open spec fn millis_fit(timestamp: i64) -> bool {
    i64::MIN <= timestamp * 1000 <= i64::MAX
}

/// The message whose summary an entry shows: the last message, or message 0
/// when the chat does not end with a message.
pub open spec fn summary_msg_id(items: Seq<ChatItem>) -> u32 {
    match last_message_id(items) {
        Some(m) => m,
        None => 0,
    }
}

/// The error of a dead drop that does not end with a message.
pub open spec fn deaddrop_error() -> ErrView {
    (ErrorType::Generic, "couldn't fetch last chat message on deadrop"@)
}

/// The entry of the dead drop.
pub open spec fn dead_drop_item(
    summary: SummaryView,
    message_id: u32,
    message: MessageFacts,
    contact: ContactView,
) -> ChatListItemView {
    ChatListItemView::DeadDrop {
        last_updated: millis(message.timestamp),
        sender_name: contact.display_name,
        sender_address: contact.addr,
        sender_contact_id: contact.id,
        message_id,
        summary_text1: text_or_empty(summary.text1),
        summary_text2: text_or_empty(summary.text2),
    }
}

/// The entry of an ordinary chat.
pub open spec fn list_item(
    chat_id: ChatIdInfo,
    chat: ChatFactsView,
    summary: SummaryView,
    profile_image: Option<Option<Seq<char>>>,
    last_updated: Option<i64>,
    details: ChatDetailsView,
) -> ChatListItemView {
    ChatListItemView::ChatListItem {
        id: chat_id.id,
        name: chat.name,
        avatar_path: avatar_path_text(profile_image),
        color: color_hex_text(details.color),
        last_updated,
        summary_text1: text_or_empty(summary.text1),
        summary_text2: text_or_empty(summary.text2),
        summary_status: summary.state,
        is_protected: chat.is_protected,
        is_group: chat.chat_type == Chattype::Group,
        fresh_message_counter: details.fresh_message_count,
        is_self_talk: chat.is_self_talk,
        is_device_talk: chat.is_device_talk,
        is_sending_location: chat.is_sending_locations,
        is_self_in_group: details.contacts.contains(DC_CONTACT_ID_SELF),
        is_archived: chat.visibility == ChatVisibility::Archived,
        is_pinned: chat.visibility == ChatVisibility::Pinned,
        is_muted: chat.is_muted,
    }
}

/// The answers the chat core gives, for one chat, to every question that
/// fetching its entry can ask: its message list; the chat; the summary of
/// the message that `summary_msg_id` picks; the chat's last message; the
/// sender of that message; the profile image; the details.
pub struct ChatWorld {
    pub messages: Seq<ChatItem>,
    pub chat: Result<ChatFactsView, ErrView>,
    pub summary: SummaryView,
    pub last_message: Result<MessageFacts, ErrView>,
    pub contact: Result<ContactView, ErrView>,
    pub profile_image: Option<Option<Seq<char>>>,
    pub details: ChatDetailsView,
}

/// The answers on which fetching does not panic: a time that fits in
/// milliseconds, a colour that can be shown.
pub open spec fn world_in_range(w: ChatWorld) -> bool {
    &&& (w.last_message matches Ok(m) ==> millis_fit(m.timestamp))
    &&& w.details.color + 0x1000000 <= u32::MAX
}

/// The entry of a chat (or the error instead of it), given what the chat
/// core answers: the archive link has an entry of its own; otherwise the
/// chat must load; the dead drop is shown by its last message and that
/// message's sender, both of which must load; any other chat is shown with
/// its summary, its profile image, the time of its last message (which must
/// load when there is one) and its details.
pub open spec fn fetch_outcome(chat_id: ChatIdInfo, w: ChatWorld) -> Result<ChatListItemView, ErrView> {
    if chat_id.is_archived_link {
        Ok(ChatListItemView::ArchiveLink)
    } else {
        match w.chat {
            Err(e) => Err(e),
            Ok(chat) => if chat_id.is_deaddrop {
                match last_message_id(w.messages) {
                    None => Err(deaddrop_error()),
                    Some(mid) => match w.last_message {
                        Err(e) => Err(e),
                        Ok(m) => match w.contact {
                            Err(e) => Err(e),
                            Ok(c) => Ok(dead_drop_item(w.summary, mid, m, c)),
                        },
                    },
                }
            } else {
                match last_message_id(w.messages) {
                    None => Ok(
                        list_item(chat_id, chat, w.summary, w.profile_image, None, w.details),
                    ),
                    Some(_) => match w.last_message {
                        Err(e) => Err(e),
                        Ok(m) => Ok(
                            list_item(
                                chat_id,
                                chat,
                                w.summary,
                                w.profile_image,
                                Some(millis(m.timestamp)),
                                w.details,
                            ),
                        ),
                    },
                }
            },
        }
    }
}

/// What has been learnt so far while fetching the entry of one chat: each
/// question to the chat core, once answered, holds its answer.
#[derive(Debug)]
pub struct ChatListItemFetch {
    pub chat_id: ChatIdInfo,
    /// the chat's message list
    pub messages: Option<Vec<ChatItem>>,
    /// the chat, or the error of loading it
    pub chat: Option<Result<ChatFacts, ErrorInstance>>,
    /// the summary of the message that `summary_msg_id` picks
    pub summary: Option<SummaryFacts>,
    /// the chat's last message, or the error of loading it
    pub last_message: Option<Result<MessageFacts, ErrorInstance>>,
    /// the sender of the last message, or the error of loading it
    pub contact: Option<Result<ContactFacts, ErrorInstance>>,
    /// the chat's profile image
    pub profile_image: Option<Option<Option<String>>>,
    pub details: Option<ChatDetails>,
}

/// `ChatListItemFetch` as values.
pub struct FetchView {
    pub chat_id: ChatIdInfo,
    pub messages: Option<Seq<ChatItem>>,
    pub chat: Option<Result<ChatFactsView, ErrView>>,
    pub summary: Option<SummaryView>,
    pub last_message: Option<Result<MessageFacts, ErrView>>,
    pub contact: Option<Result<ContactView, ErrView>>,
    pub profile_image: Option<Option<Option<Seq<char>>>>,
    pub details: Option<ChatDetailsView>,
}

pub open spec fn loaded_chat_view(r: Option<Result<ChatFacts, ErrorInstance>>) -> Option<
    Result<ChatFactsView, ErrView>,
> {
    match r {
        None => None,
        Some(Ok(c)) => Some(Ok(c@)),
        Some(Err(e)) => Some(Err(e@)),
    }
}

pub open spec fn loaded_message_view(r: Option<Result<MessageFacts, ErrorInstance>>) -> Option<
    Result<MessageFacts, ErrView>,
> {
    match r {
        None => None,
        Some(Ok(m)) => Some(Ok(m)),
        Some(Err(e)) => Some(Err(e@)),
    }
}

pub open spec fn loaded_contact_view(r: Option<Result<ContactFacts, ErrorInstance>>) -> Option<
    Result<ContactView, ErrView>,
> {
    match r {
        None => None,
        Some(Ok(c)) => Some(Ok(c@)),
        Some(Err(e)) => Some(Err(e@)),
    }
}

impl View for ChatListItemFetch {
    type V = FetchView;

    open spec fn view(&self) -> FetchView {
        FetchView {
            chat_id: self.chat_id,
            messages: match self.messages {
                Some(v) => Some(v@),
                None => None,
            },
            chat: loaded_chat_view(self.chat),
            summary: match self.summary {
                Some(s) => Some(s@),
                None => None,
            },
            last_message: loaded_message_view(self.last_message),
            contact: loaded_contact_view(self.contact),
            profile_image: match self.profile_image {
                Some(img) => Some(image_view(img)),
                None => None,
            },
            details: match self.details {
                Some(d) => Some(d@),
                None => None,
            },
        }
    }
}

/// What to do next while fetching an entry: ask the chat core one question,
/// or stop with the entry (or the error instead of it).
#[derive(Debug)]
pub enum FetchStep {
    /// load the chat's message list
    LoadMessages,
    /// load the chat
    LoadChat,
    /// load the summary of the given message of the chat
    LoadSummary { msg_id: u32 },
    /// load the given message
    LoadMessage { msg_id: u32 },
    /// load the given contact
    LoadContact { contact_id: u32 },
    /// load the chat's profile image
    LoadProfileImage,
    /// load the chat's contacts, number of fresh messages and colour
    LoadDetails,
    Done(Result<ChatListItemFetchResult, ErrorInstance>),
}

/// `FetchStep` as values.
pub enum FetchStepView {
    LoadMessages,
    LoadChat,
    LoadSummary { msg_id: u32 },
    LoadMessage { msg_id: u32 },
    LoadContact { contact_id: u32 },
    LoadProfileImage,
    LoadDetails,
    Done(Result<ChatListItemView, ErrView>),
}

impl View for FetchStep {
    type V = FetchStepView;

    open spec fn view(&self) -> FetchStepView {
        match self {
            FetchStep::LoadMessages => FetchStepView::LoadMessages,
            FetchStep::LoadChat => FetchStepView::LoadChat,
            FetchStep::LoadSummary { msg_id } => FetchStepView::LoadSummary { msg_id: *msg_id },
            FetchStep::LoadMessage { msg_id } => FetchStepView::LoadMessage { msg_id: *msg_id },
            FetchStep::LoadContact { contact_id } => FetchStepView::LoadContact {
                contact_id: *contact_id,
            },
            FetchStep::LoadProfileImage => FetchStepView::LoadProfileImage,
            FetchStep::LoadDetails => FetchStepView::LoadDetails,
            FetchStep::Done(Ok(item)) => FetchStepView::Done(Ok(item@)),
            FetchStep::Done(Err(e)) => FetchStepView::Done(Err(e@)),
        }
    }
}

/// The answers held on which deciding does not panic.
pub open spec fn fetch_in_range(v: FetchView) -> bool {
    &&& (v.last_message matches Some(Ok(m)) ==> millis_fit(m.timestamp))
    &&& (v.details matches Some(d) ==> d.color + 0x1000000 <= u32::MAX)
}

/// The step that follows the details of an ordinary chat.
pub open spec fn details_step(
    v: FetchView,
    chat: ChatFactsView,
    summary: SummaryView,
    profile_image: Option<Option<Seq<char>>>,
    last_updated: Option<i64>,
) -> FetchStepView {
    match v.details {
        None => FetchStepView::LoadDetails,
        Some(d) => FetchStepView::Done(
            Ok(list_item(v.chat_id, chat, summary, profile_image, last_updated, d)),
        ),
    }
}

/// The step that follows the summary of the dead drop.
pub open spec fn dead_drop_step(v: FetchView, items: Seq<ChatItem>, summary: SummaryView) -> FetchStepView {
    match last_message_id(items) {
        None => FetchStepView::Done(Err(deaddrop_error())),
        Some(mid) => match v.last_message {
            None => FetchStepView::LoadMessage { msg_id: mid },
            Some(Err(e)) => FetchStepView::Done(Err(e)),
            Some(Ok(m)) => match v.contact {
                None => FetchStepView::LoadContact { contact_id: m.from_id },
                Some(Err(e)) => FetchStepView::Done(Err(e)),
                Some(Ok(c)) => FetchStepView::Done(Ok(dead_drop_item(summary, mid, m, c))),
            },
        },
    }
}

/// The step that follows the summary of an ordinary chat.
pub open spec fn list_item_step(
    v: FetchView,
    items: Seq<ChatItem>,
    chat: ChatFactsView,
    summary: SummaryView,
) -> FetchStepView {
    match v.profile_image {
        None => FetchStepView::LoadProfileImage,
        Some(img) => match last_message_id(items) {
            None => details_step(v, chat, summary, img, None),
            Some(mid) => match v.last_message {
                None => FetchStepView::LoadMessage { msg_id: mid },
                Some(Err(e)) => FetchStepView::Done(Err(e)),
                Some(Ok(m)) => details_step(v, chat, summary, img, Some(millis(m.timestamp))),
            },
        },
    }
}

/// The next step of a fetch: the archive link needs nothing; every other
/// chat needs its message list, then the chat (whose load may fail), then the
/// summary of its last message (message 0 when there is none); then the dead
/// drop needs its last message and that message's sender, and any other chat
/// its profile image, its last message when it has one, and its details.
pub open spec fn spec_next_step(v: FetchView) -> FetchStepView {
    if v.chat_id.is_archived_link {
        FetchStepView::Done(Ok(ChatListItemView::ArchiveLink))
    } else {
        match v.messages {
            None => FetchStepView::LoadMessages,
            Some(items) => match v.chat {
                None => FetchStepView::LoadChat,
                Some(Err(e)) => FetchStepView::Done(Err(e)),
                Some(Ok(chat)) => match v.summary {
                    None => FetchStepView::LoadSummary { msg_id: summary_msg_id(items) },
                    Some(summary) => if v.chat_id.is_deaddrop {
                        dead_drop_step(v, items, summary)
                    } else {
                        list_item_step(v, items, chat, summary)
                    },
                },
            },
        }
    }
}

fn text_or_empty_string(o: &Option<String>) -> (res: String)
    ensures
        res@ == text_or_empty(opt_view(*o)),
{
    match o {
        Some(t) => t.clone(),
        None => String::new(),
    }
}

impl ChatListItemFetch {
    /// A fetch of the entry of the given chat, before any question is asked.
    pub fn new(chat_id: ChatIdInfo) -> (res: ChatListItemFetch)
        ensures
            res@ == initial_fetch(chat_id),
    {
        ChatListItemFetch {
            chat_id,
            messages: None,
            chat: None,
            summary: None,
            last_message: None,
            contact: None,
            profile_image: None,
            details: None,
        }
    }

    fn details_step(
        &self,
        chat: &ChatFacts,
        summary: &SummaryFacts,
        profile_image: &Option<Option<String>>,
        last_updated: Option<i64>,
    ) -> (res: FetchStep)
        requires
            fetch_in_range(self@),
        ensures
            res@ == details_step(self@, chat@, summary@, image_view(*profile_image), last_updated),
    {
        match &self.details {
            None => FetchStep::LoadDetails,
            Some(d) => {
                let item = ChatListItemFetchResult::ChatListItem {
                    id: self.chat_id.id,
                    name: chat.name.clone(),
                    avatar_path: avatar_path(profile_image),
                    color: color_int_to_hex(d.color),
                    last_updated,
                    summary_text1: text_or_empty_string(&summary.text1),
                    summary_text2: text_or_empty_string(&summary.text2),
                    summary_status: summary.state,
                    is_protected: chat.is_protected,
                    is_group: chat.chat_type == Chattype::Group,
                    fresh_message_counter: d.fresh_message_count,
                    is_self_talk: chat.is_self_talk,
                    is_device_talk: chat.is_device_talk,
                    is_sending_location: chat.is_sending_locations,
                    is_self_in_group: contains_self(&d.contacts),
                    is_archived: chat.visibility == ChatVisibility::Archived,
                    is_pinned: chat.visibility == ChatVisibility::Pinned,
                    is_muted: chat.is_muted,
                };
                FetchStep::Done(Ok(item))
            },
        }
    }

    fn dead_drop_step(&self, items: &Vec<ChatItem>, summary: &SummaryFacts) -> (res: FetchStep)
        requires
            fetch_in_range(self@),
        ensures
            res@ == dead_drop_step(self@, items@, summary@),
    {
        match get_last_message_id(items) {
            None => FetchStep::Done(
                Err(ErrorInstance::generic("couldn't fetch last chat message on deadrop")),
            ),
            Some(mid) => match &self.last_message {
                None => FetchStep::LoadMessage { msg_id: mid },
                Some(Err(e)) => FetchStep::Done(Err(e.duplicate())),
                Some(Ok(m)) => match &self.contact {
                    None => FetchStep::LoadContact { contact_id: m.from_id },
                    Some(Err(e)) => FetchStep::Done(Err(e.duplicate())),
                    Some(Ok(c)) => FetchStep::Done(
                        Ok(
                            ChatListItemFetchResult::DeadDrop {
                                last_updated: m.timestamp * 1000,
                                sender_name: c.display_name.clone(),
                                sender_address: c.addr.clone(),
                                sender_contact_id: c.id,
                                message_id: mid,
                                summary_text1: text_or_empty_string(&summary.text1),
                                summary_text2: text_or_empty_string(&summary.text2),
                            },
                        ),
                    ),
                },
            },
        }
    }

    fn list_item_step(&self, items: &Vec<ChatItem>, chat: &ChatFacts, summary: &SummaryFacts) -> (res:
        FetchStep)
        requires
            fetch_in_range(self@),
        ensures
            res@ == list_item_step(self@, items@, chat@, summary@),
    {
        match &self.profile_image {
            None => FetchStep::LoadProfileImage,
            Some(img) => match get_last_message_id(items) {
                None => self.details_step(chat, summary, img, None),
                Some(mid) => match &self.last_message {
                    None => FetchStep::LoadMessage { msg_id: mid },
                    Some(Err(e)) => FetchStep::Done(Err(e.duplicate())),
                    Some(Ok(m)) => self.details_step(chat, summary, img, Some(m.timestamp * 1000)),
                },
            },
        }
    }

    /// Decides what fetching the entry needs next, from the answers held so
    /// far: the next question for the chat core, or the finished entry.
    pub fn next_step(&self) -> (res: FetchStep)
        requires
            fetch_in_range(self@),
        ensures
            res@ == spec_next_step(self@),
    {
        if self.chat_id.is_archived_link {
            return FetchStep::Done(Ok(ChatListItemFetchResult::ArchiveLink));
        }
        let items = match &self.messages {
            None => return FetchStep::LoadMessages,
            Some(items) => items,
        };
        let chat = match &self.chat {
            None => return FetchStep::LoadChat,
            Some(Err(e)) => return FetchStep::Done(Err(e.duplicate())),
            Some(Ok(c)) => c,
        };
        let summary = match &self.summary {
            None => {
                let msg_id: u32 = match get_last_message_id(items) {
                    Some(m) => m,
                    None => 0,
                };
                return FetchStep::LoadSummary { msg_id };
            },
            Some(s) => s,
        };
        if self.chat_id.is_deaddrop {
            self.dead_drop_step(items, summary)
        } else {
            self.list_item_step(items, chat, summary)
        }
    }
}

/// A fetch before any question is asked.
pub open spec fn initial_fetch(chat_id: ChatIdInfo) -> FetchView {
    FetchView {
        chat_id,
        messages: None,
        chat: None,
        summary: None,
        last_message: None,
        contact: None,
        profile_image: None,
        details: None,
    }
}

/// The fetch after the question that `spec_next_step` asks is answered from
/// the given chat state.
pub open spec fn answer_from(v: FetchView, w: ChatWorld) -> FetchView {
    match spec_next_step(v) {
        FetchStepView::LoadMessages => FetchView { messages: Some(w.messages), ..v },
        FetchStepView::LoadChat => FetchView { chat: Some(w.chat), ..v },
        FetchStepView::LoadSummary { .. } => FetchView { summary: Some(w.summary), ..v },
        FetchStepView::LoadMessage { .. } => FetchView { last_message: Some(w.last_message), ..v },
        FetchStepView::LoadContact { .. } => FetchView { contact: Some(w.contact), ..v },
        FetchStepView::LoadProfileImage => FetchView { profile_image: Some(w.profile_image), ..v },
        FetchStepView::LoadDetails => FetchView { details: Some(w.details), ..v },
        FetchStepView::Done(_) => v,
    }
}

/// The step reached after at most `n` questions, each answered from the
/// given chat state.
pub open spec fn run_fetch(v: FetchView, w: ChatWorld, n: nat) -> FetchStepView
    decreases n,
{
    if n == 0 || spec_next_step(v) is Done {
        spec_next_step(v)
    } else {
        run_fetch(answer_from(v, w), w, (n - 1) as nat)
    }
}

/// Fetching an entry, with every question answered from the same chat
/// state, ends after at most seven questions with `fetch_outcome` of that
/// state: the entry the chat state describes, or the first error met.
pub proof fn law_fetch_ends_in_outcome(chat_id: ChatIdInfo, w: ChatWorld)
    ensures
        run_fetch(initial_fetch(chat_id), w, 7) == FetchStepView::Done(fetch_outcome(chat_id, w)),
{
    reveal_with_fuel(run_fetch, 8);
}

/// The entry of an ordinary chat carries the chat's own facts, each in the
/// field that names it: its id and name, its profile image path, its colour,
/// its summary texts (empty when missing) and state, each of its flags, its
/// number of fresh messages, whether the own user is among its contacts,
/// and, exactly when the chat has a last message, that message's time in
/// milliseconds. Such an entry is given only once all these facts are known.
pub proof fn law_list_entry_carries_chat_facts(v: FetchView)
    ensures
        match (spec_next_step(v), v.chat, v.summary, v.profile_image, v.details, v.messages) {
            (
                FetchStepView::Done(Ok(ChatListItemView::ChatListItem {
                    id,
                    name,
                    avatar_path,
                    color,
                    last_updated,
                    summary_text1,
                    summary_text2,
                    summary_status,
                    is_protected,
                    is_group,
                    fresh_message_counter,
                    is_self_talk,
                    is_device_talk,
                    is_sending_location,
                    is_self_in_group,
                    is_archived,
                    is_pinned,
                    is_muted,
                })),
                Some(Ok(c)),
                Some(s),
                Some(img),
                Some(d),
                Some(items),
            ) => {
                let chat_id = v.chat_id;
                &&& id == chat_id.id
                &&& name == c.name
                &&& avatar_path == (match img {
                    None => None,
                    Some(None) => Some("invalid/path"@),
                    Some(Some(p)) => Some(p),
                })
                &&& color == color_hex_text(d.color)
                &&& summary_text1 == (match s.text1 { Some(t) => t, None => Seq::<char>::empty() })
                &&& summary_text2 == (match s.text2 { Some(t) => t, None => Seq::<char>::empty() })
                &&& summary_status == s.state
                &&& is_protected == c.is_protected
                &&& is_group == (c.chat_type == Chattype::Group)
                &&& fresh_message_counter == d.fresh_message_count
                &&& is_self_talk == c.is_self_talk
                &&& is_device_talk == c.is_device_talk
                &&& is_sending_location == c.is_sending_locations
                &&& is_self_in_group == d.contacts.contains(DC_CONTACT_ID_SELF)
                &&& is_archived == (c.visibility == ChatVisibility::Archived)
                &&& is_pinned == (c.visibility == ChatVisibility::Pinned)
                &&& is_muted == c.is_muted
                &&& !chat_id.is_archived_link
                &&& !chat_id.is_deaddrop
                &&& (last_updated is None <==> last_message_id(items) is None)
                &&& (last_updated matches Some(t) ==> (v.last_message matches Some(Ok(m)) && t == (
                    m.timestamp * 1000) as i64))
            },
            (FetchStepView::Done(Ok(ChatListItemView::ChatListItem { .. })), _, _, _, _, _) => false,
            _ => true,
        },
{
}

/// The entry that `fetch_outcome` gives an ordinary chat carries the chat's
/// own facts, each in the field that names it.
pub proof fn law_outcome_carries_chat_facts(chat_id: ChatIdInfo, w: ChatWorld)
    ensures
        match (fetch_outcome(chat_id, w), w.chat) {
            (Ok(ChatListItemView::ChatListItem {
                    id,
                    name,
                    avatar_path,
                    color,
                    last_updated,
                    summary_text1,
                    summary_text2,
                    summary_status,
                    is_protected,
                    is_group,
                    fresh_message_counter,
                    is_self_talk,
                    is_device_talk,
                    is_sending_location,
                    is_self_in_group,
                    is_archived,
                    is_pinned,
                    is_muted,
                }), Ok(c)) => {
                let s = w.summary;
                let img = w.profile_image;
                let d = w.details;
                &&& id == chat_id.id
                &&& name == c.name
                &&& avatar_path == (match img {
                    None => None,
                    Some(None) => Some("invalid/path"@),
                    Some(Some(p)) => Some(p),
                })
                &&& color == color_hex_text(d.color)
                &&& summary_text1 == (match s.text1 { Some(t) => t, None => Seq::<char>::empty() })
                &&& summary_text2 == (match s.text2 { Some(t) => t, None => Seq::<char>::empty() })
                &&& summary_status == s.state
                &&& is_protected == c.is_protected
                &&& is_group == (c.chat_type == Chattype::Group)
                &&& fresh_message_counter == d.fresh_message_count
                &&& is_self_talk == c.is_self_talk
                &&& is_device_talk == c.is_device_talk
                &&& is_sending_location == c.is_sending_locations
                &&& is_self_in_group == d.contacts.contains(DC_CONTACT_ID_SELF)
                &&& is_archived == (c.visibility == ChatVisibility::Archived)
                &&& is_pinned == (c.visibility == ChatVisibility::Pinned)
                &&& is_muted == c.is_muted
                &&& !chat_id.is_archived_link
                &&& !chat_id.is_deaddrop
                &&& (last_updated is None <==> last_message_id(w.messages) is None)
                &&& (last_updated matches Some(t) ==> (w.last_message matches Ok(m) && t == (
                    m.timestamp * 1000) as i64))
            },
            _ => true,
        },
{
}

/// The entry of the dead drop is its last message: that message's id, its
/// time in milliseconds, and its sender's name, address and id, with the
/// summary texts (empty when missing). It is given only for the dead drop and
/// once all these facts are known.
pub proof fn law_dead_drop_entry(v: FetchView)
    ensures
        match (spec_next_step(v), v.summary, v.messages, v.last_message, v.contact) {
            (
                FetchStepView::Done(Ok(ChatListItemView::DeadDrop {
                    last_updated,
                    sender_name,
                    sender_address,
                    sender_contact_id,
                    message_id,
                    summary_text1,
                    summary_text2,
                })),
                Some(s),
                Some(items),
                Some(Ok(m)),
                Some(Ok(ct)),
            ) => {
                &&& v.chat_id.is_deaddrop
                &&& !v.chat_id.is_archived_link
                &&& last_message_id(items) == Some(message_id)
                &&& last_updated == (m.timestamp * 1000) as i64
                &&& sender_name == ct.display_name
                &&& sender_address == ct.addr
                &&& sender_contact_id == ct.id
                &&& summary_text1 == (match s.text1 { Some(t) => t, None => Seq::<char>::empty() })
                &&& summary_text2 == (match s.text2 { Some(t) => t, None => Seq::<char>::empty() })
            },
            (FetchStepView::Done(Ok(ChatListItemView::DeadDrop { .. })), _, _, _, _) => false,
            _ => true,
        },
{
}

/// Each question is asked once, about the right thing: the summary of the
/// chat's last message (message 0 when it has none), the last message
/// itself, and the sender of that message; and the archive link alone needs
/// no question.
pub proof fn law_fetch_questions(v: FetchView)
    ensures
        v.chat_id.is_archived_link ==> spec_next_step(v) == FetchStepView::Done(
            Ok(ChatListItemView::ArchiveLink),
        ),
        match spec_next_step(v) {
            FetchStepView::LoadMessages => v.messages is None,
            FetchStepView::LoadChat => v.chat is None && v.messages is Some,
            FetchStepView::LoadSummary { msg_id } => v.summary is None && match v.messages {
                Some(items) => match last_message_id(items) {
                    Some(m) => msg_id == m,
                    None => msg_id == 0,
                },
                None => false,
            },
            FetchStepView::LoadMessage { msg_id } => v.last_message is None && match v.messages {
                Some(items) => last_message_id(items) == Some(msg_id),
                None => false,
            },
            FetchStepView::LoadContact { contact_id } => v.contact is None && v.chat_id.is_deaddrop
                && match v.last_message {
                Some(Ok(m)) => m.from_id == contact_id,
                _ => false,
            },
            FetchStepView::LoadProfileImage => v.profile_image is None && !v.chat_id.is_deaddrop,
            FetchStepView::LoadDetails => v.details is None && !v.chat_id.is_deaddrop,
            FetchStepView::Done(_) => true,
        },
{
}

/// A failed load ends the fetch with that very error.
pub proof fn law_fetch_errors_pass_through(v: FetchView)
    ensures
        !v.chat_id.is_archived_link && v.messages is Some ==> (v.chat matches Some(Err(e))
            ==> spec_next_step(v) == FetchStepView::Done(Err(e))),
        match (v.messages, v.chat, v.summary, v.last_message, v.contact) {
            (Some(items), Some(Ok(_)), Some(_), Some(Err(e)), _) => !v.chat_id.is_archived_link
                && last_message_id(items) is Some && (v.chat_id.is_deaddrop
                || v.profile_image is Some) ==> spec_next_step(v) == FetchStepView::Done(Err(e)),
            (Some(items), Some(Ok(_)), Some(_), Some(Ok(_)), Some(Err(e))) =>
                !v.chat_id.is_archived_link && v.chat_id.is_deaddrop && last_message_id(items) is Some
                ==> spec_next_step(v) == FetchStepView::Done(Err(e)),
            _ => true,
        },
{
}

/// The outcome of fetching one entry, as values.
pub open spec fn fetch_result_view(r: Result<ChatListItemFetchResult, ErrorInstance>) -> Result<
    ChatListItemView,
    ErrView,
> {
    match r {
        Ok(item) => Ok(item@),
        Err(e) => Err(e@),
    }
}

/// The entry given for a chat: the fetched entry, or, when the fetch failed,
/// an `Error` entry with the chat's id and the error's debug text.
pub open spec fn entry_or_error(chat_id: u32, r: Result<ChatListItemView, ErrView>) -> ChatListItemView {
    match r {
        Ok(item) => item,
        Err(e) => ChatListItemView::Error { id: chat_id, error: error_debug_text(e) },
    }
}

/// The entries of the chats with the given ids, from the outcomes of
/// fetching them (`fetched[i]` for `chat_ids[i]`), keyed by position in the
/// request (not by chat id). A failed fetch gives an `Error` entry.
pub fn get_chat_list_items_by_ids(
    chat_ids: &Vec<u32>,
    fetched: Vec<Result<ChatListItemFetchResult, ErrorInstance>>,
) -> (res: HashMap<u32, ChatListItemFetchResult>)
    requires
        fetched.len() == chat_ids.len(),
        chat_ids.len() <= u32::MAX + 1,
    ensures
        forall|k: u32| #[trigger] res@.contains_key(k) <==> k < chat_ids.len(),
        forall|k: u32|
            k < chat_ids.len() ==> #[trigger] res@[k]@ == entry_or_error(
                chat_ids@[k as int],
                fetch_result_view(fetched@[k as int]),
            ),
{
    broadcast use vstd::std_specs::hash::group_hash_axioms;

    let ghost all = fetched@;
    let n: usize = chat_ids.len();
    let mut rest = fetched;
    let mut result: HashMap<u32, ChatListItemFetchResult> = HashMap::new();
    let mut i: usize = n;
    while i > 0
        invariant
            n == chat_ids.len(),
            n == all.len(),
            n <= u32::MAX + 1,
            i <= n,
            rest@ == all.take(i as int),
            forall|k: u32| #[trigger] result@.contains_key(k) <==> i <= k < n,
            forall|k: u32|
                i <= k < n ==> #[trigger] result@[k]@ == entry_or_error(
                    chat_ids@[k as int],
                    fetch_result_view(all[k as int]),
                ),
        decreases i,
    {
        let r = rest.pop().unwrap();
        i = i - 1;
        assert(all.take(i + 1).drop_last() == all.take(i as int));
        let key: u32 = i as u32;
        let entry = match r {
            Ok(item) => item,
            Err(e) => ChatListItemFetchResult::Error { id: chat_ids[i], error: e.debug_text() },
        };
        result.insert(key, entry);
    }
    result
}

/// The entry given for a chat is the fetched entry itself; when the fetch
/// failed, it is an `Error` entry with that chat's id and the error's debug
/// text, `ErrorInstance { kind: <kind>, message: <message as a debug
/// string> }`.
pub proof fn law_entry_or_error(chat_id: u32, r: Result<ChatListItemView, ErrView>)
    ensures
        r matches Ok(item) ==> entry_or_error(chat_id, r) == item,
        r matches Err(e) ==> entry_or_error(chat_id, r) == (ChatListItemView::Error {
            id: chat_id,
            error: "ErrorInstance { kind: "@ + kind_name(e.0) + ", message: "@ + debug_str(e.1)
                + " }"@,
        }),
{
}

} // verus!
