use delta_command_api::account::account::{
    account_command, account_response, get_next_event, trigger_error, AccountCommand,
};
use delta_command_api::account::chat::{
    avatar_path, contains_self, get_full_chat_by_id, ChatFacts, ChatIdInfo, ChatVisibility,
    Chattype,
};
use delta_command_api::account::chatlistitem::{
    get_chat_list_items_by_ids, ChatDetails, ChatListItemFetch, ChatListItemFetchResult,
    ContactFacts, FetchStep, MessageFacts, SummaryFacts,
};
use delta_command_api::account::message::{get_chat_message_ids, get_last_message_id, ChatItem};
use delta_command_api::account::util::color_int_to_hex;
use delta_command_api::commands::Command;
use delta_command_api::connection::{route_command, Route};
use delta_command_api::error::{ErrorInstance, ErrorType};

#[test]
fn colors() {
    assert_eq!(color_int_to_hex(0), "#000000");
    assert_eq!(color_int_to_hex(0x00ab12), "#00ab12");
    assert_eq!(color_int_to_hex(0xffffff), "#ffffff");
    assert_eq!(color_int_to_hex(0x1000000), "#000000");
    assert_eq!(color_int_to_hex(0x12345678), "#3345678");
    assert_eq!(color_int_to_hex(0xfeffffff), "#fffffff");
}

#[test]
fn account_command_table() {
    assert_eq!(account_command(21), Some(AccountCommand::Info));
    assert_eq!(account_command(40), Some(AccountCommand::GetChatListIds));
    assert_eq!(account_command(41), Some(AccountCommand::GetChatListItemsByIds));
    assert_eq!(account_command(45), Some(AccountCommand::GetChatMessageIds));
    assert_eq!(account_command(46), Some(AccountCommand::GetFullChatById));
    assert_eq!(account_command(500), Some(AccountCommand::TriggerError));
    assert_eq!(account_command(22), None);
    assert_eq!(account_command(1), None);
}

#[test]
fn trigger_error_fails() {
    let e = trigger_error().unwrap_err();
    assert_eq!(e.kind, ErrorType::Generic);
    assert_eq!(e.message, "This function is meant to test the error behaviour");
    let cmd = Command { command_id: 500, invocation_id: 2 };
    assert_eq!(
        account_response(cmd, Some(Err(e))).unwrap(),
        "{\"kind\":\"Generic\",\"message\":\"This function is meant to test the error behaviour\",\"invocation_id\":2}"
    );
}

#[test]
fn account_responses() {
    let cmd = Command { command_id: 45, invocation_id: 6 };
    assert_eq!(
        account_response(cmd, Some(Ok("[10,11]".to_string()))).unwrap(),
        "{\"result\":[10,11],\"invocation_id\":6}"
    );
    let cmd = Command { command_id: 77, invocation_id: 6 };
    assert_eq!(
        account_response(cmd, None).unwrap(),
        "{\"kind\":\"CommandNotFound\",\"message\":\"command with the id 77 not found\",\"invocation_id\":6}"
    );
}

#[test]
fn event_queue_is_first_in_first_out() {
    let mut q = vec!["a".to_string(), "b".to_string()];
    assert_eq!(get_next_event(&mut q), Some("a".to_string()));
    assert_eq!(get_next_event(&mut q), Some("b".to_string()));
    assert_eq!(get_next_event(&mut q), None);
    assert!(q.is_empty());
}

#[test]
fn message_ids() {
    let items = vec![
        ChatItem::Marker,
        ChatItem::Message { msg_id: 10 },
        ChatItem::Marker,
        ChatItem::Message { msg_id: 12 },
    ];
    assert_eq!(get_chat_message_ids(&items), vec![10, 12]);
    assert_eq!(get_last_message_id(&items), Some(12));
    assert_eq!(get_chat_message_ids(&vec![]), Vec::<u32>::new());
    assert_eq!(get_last_message_id(&vec![ChatItem::Message { msg_id: 3 }, ChatItem::Marker]), None);
}

fn chat_facts(visibility: ChatVisibility, chat_type: Chattype) -> ChatFacts {
    ChatFacts {
        name: "Friends".to_string(),
        visibility,
        is_protected: true,
        chat_type,
        is_promoted: false,
        is_self_talk: false,
        is_device_talk: false,
        is_sending_locations: true,
        is_muted: false,
    }
}

#[test]
fn full_chat() {
    let id = ChatIdInfo { id: 12, is_archived_link: false, is_deaddrop: false };
    let f = get_full_chat_by_id(
        id,
        chat_facts(ChatVisibility::Archived, Chattype::Group),
        Some(None),
        vec![5, 1],
        0x112233,
        4,
    );
    assert_eq!(f.id, 12);
    assert_eq!(f.name, "Friends");
    assert!(f.is_protected);
    assert_eq!(f.profile_image, Some("invalid/path".to_string()));
    assert!(f.archived);
    assert_eq!(f.chat_type, Chattype::Group);
    assert!(f.is_unpromoted);
    assert_eq!(f.contact_ids, vec![5, 1]);
    assert_eq!(f.color, "#112233");
    assert_eq!(f.fresh_message_counter, 4);
    assert!(f.is_group);
    assert!(!f.is_deaddrop);
    assert!(f.is_self_in_group);
    assert_eq!(avatar_path(&None), None);
    assert_eq!(avatar_path(&Some(Some("/a.png".to_string()))), Some("/a.png".to_string()));
    assert!(!contains_self(&vec![2, 3]));
}

fn error(message: &str) -> ErrorInstance {
    ErrorInstance::new(ErrorType::DeltaChatError, message.to_string())
}

/// Runs a fetch, answering each question from the given values, and returns
/// the questions asked and the outcome.
fn run(
    chat_id: ChatIdInfo,
    messages: Vec<ChatItem>,
    chat: fn() -> Result<ChatFacts, ErrorInstance>,
    last_message: Result<MessageFacts, ErrorInstance>,
    contact: fn() -> Result<ContactFacts, ErrorInstance>,
) -> (Vec<String>, Result<ChatListItemFetchResult, ErrorInstance>) {
    let mut fetch = ChatListItemFetch::new(chat_id);
    let mut asked = Vec::new();
    loop {
        match fetch.next_step() {
            FetchStep::LoadMessages => {
                asked.push("messages".to_string());
                fetch.messages = Some(messages.clone());
            }
            FetchStep::LoadChat => {
                asked.push("chat".to_string());
                fetch.chat = Some(chat());
            }
            FetchStep::LoadSummary { msg_id } => {
                asked.push(format!("summary {}", msg_id));
                fetch.summary = Some(SummaryFacts {
                    text1: Some("Alice".to_string()),
                    text2: None,
                    state: 26,
                });
            }
            FetchStep::LoadMessage { msg_id } => {
                asked.push(format!("message {}", msg_id));
                fetch.last_message = Some(match &last_message {
                    Ok(m) => Ok(*m),
                    Err(e) => Err(e.duplicate()),
                });
            }
            FetchStep::LoadContact { contact_id } => {
                asked.push(format!("contact {}", contact_id));
                fetch.contact = Some(contact());
            }
            FetchStep::LoadProfileImage => {
                asked.push("image".to_string());
                fetch.profile_image = Some(Some(Some("/img.png".to_string())));
            }
            FetchStep::LoadDetails => {
                asked.push("details".to_string());
                fetch.details = Some(ChatDetails {
                    contacts: vec![1, 9],
                    fresh_message_count: 3,
                    color: 0xaabbcc,
                });
            }
            FetchStep::Done(r) => return (asked, r),
        }
    }
}

fn ok_chat() -> Result<ChatFacts, ErrorInstance> {
    Ok(chat_facts(ChatVisibility::Pinned, Chattype::Single))
}

fn failed_chat() -> Result<ChatFacts, ErrorInstance> {
    Err(error("no such chat"))
}

fn ok_contact() -> Result<ContactFacts, ErrorInstance> {
    Ok(ContactFacts { display_name: "Bob".to_string(), addr: "bob@example.org".to_string(), id: 77 })
}

fn failed_contact() -> Result<ContactFacts, ErrorInstance> {
    Err(error("no such contact"))
}

#[test]
fn fetch_archive_link_asks_nothing() {
    let id = ChatIdInfo { id: 6, is_archived_link: true, is_deaddrop: false };
    let (asked, r) = run(id, vec![], ok_chat, Ok(MessageFacts { timestamp: 1, from_id: 2 }), ok_contact);
    assert!(asked.is_empty());
    assert!(matches!(r, Ok(ChatListItemFetchResult::ArchiveLink)));
}

#[test]
fn fetch_ordinary_chat() {
    let id = ChatIdInfo { id: 12, is_archived_link: false, is_deaddrop: false };
    let (asked, r) = run(
        id,
        vec![ChatItem::Message { msg_id: 5 }, ChatItem::Message { msg_id: 8 }],
        ok_chat,
        Ok(MessageFacts { timestamp: 1600000000, from_id: 2 }),
        ok_contact,
    );
    assert_eq!(asked, vec!["messages", "chat", "summary 8", "image", "message 8", "details"]);
    match r.unwrap() {
        ChatListItemFetchResult::ChatListItem {
            id,
            name,
            avatar_path,
            color,
            last_updated,
            summary_text1,
            summary_text2,
            summary_status,
            is_protected,
            is_group,
            fresh_message_counter,
            is_self_in_group,
            is_archived,
            is_pinned,
            is_sending_location,
            ..
        } => {
            assert_eq!(id, 12);
            assert_eq!(name, "Friends");
            assert_eq!(avatar_path, Some("/img.png".to_string()));
            assert_eq!(color, "#aabbcc");
            assert_eq!(last_updated, Some(1600000000000));
            assert_eq!(summary_text1, "Alice");
            assert_eq!(summary_text2, "");
            assert_eq!(summary_status, 26);
            assert!(is_protected);
            assert!(!is_group);
            assert_eq!(fresh_message_counter, 3);
            assert!(is_self_in_group);
            assert!(!is_archived);
            assert!(is_pinned);
            assert!(is_sending_location);
        }
        other => panic!("unexpected {:?}", other),
    }
}

#[test]
fn fetch_chat_without_messages_summarises_message_zero() {
    let id = ChatIdInfo { id: 12, is_archived_link: false, is_deaddrop: false };
    let (asked, r) = run(id, vec![ChatItem::Marker], ok_chat, Err(error("unused")), ok_contact);
    assert_eq!(asked, vec!["messages", "chat", "summary 0", "image", "details"]);
    match r.unwrap() {
        ChatListItemFetchResult::ChatListItem { last_updated, .. } => assert_eq!(last_updated, None),
        other => panic!("unexpected {:?}", other),
    }
}

#[test]
fn fetch_stops_at_first_error() {
    let id = ChatIdInfo { id: 12, is_archived_link: false, is_deaddrop: false };
    let (asked, r) = run(id, vec![], failed_chat, Err(error("unused")), ok_contact);
    assert_eq!(asked, vec!["messages", "chat"]);
    assert_eq!(r.unwrap_err().message, "no such chat");

    let (asked, r) = run(
        id,
        vec![ChatItem::Message { msg_id: 3 }],
        ok_chat,
        Err(error("no such message")),
        ok_contact,
    );
    assert_eq!(asked, vec!["messages", "chat", "summary 3", "image", "message 3"]);
    assert_eq!(r.unwrap_err().message, "no such message");
}

#[test]
fn fetch_dead_drop() {
    let id = ChatIdInfo { id: 1, is_archived_link: false, is_deaddrop: true };
    let (asked, r) = run(
        id,
        vec![ChatItem::Message { msg_id: 40 }],
        ok_chat,
        Ok(MessageFacts { timestamp: -3, from_id: 77 }),
        ok_contact,
    );
    assert_eq!(asked, vec!["messages", "chat", "summary 40", "message 40", "contact 77"]);
    match r.unwrap() {
        ChatListItemFetchResult::DeadDrop {
            last_updated,
            sender_name,
            sender_address,
            sender_contact_id,
            message_id,
            summary_text1,
            summary_text2,
        } => {
            assert_eq!(last_updated, -3000);
            assert_eq!(sender_name, "Bob");
            assert_eq!(sender_address, "bob@example.org");
            assert_eq!(sender_contact_id, 77);
            assert_eq!(message_id, 40);
            assert_eq!(summary_text1, "Alice");
            assert_eq!(summary_text2, "");
        }
        other => panic!("unexpected {:?}", other),
    }

    let (asked, r) = run(id, vec![], ok_chat, Err(error("unused")), ok_contact);
    assert_eq!(asked, vec!["messages", "chat", "summary 0"]);
    let e = r.unwrap_err();
    assert_eq!(e.kind, ErrorType::Generic);
    assert_eq!(e.message, "couldn't fetch last chat message on deadrop");

    let (_, r) = run(
        id,
        vec![ChatItem::Message { msg_id: 40 }],
        ok_chat,
        Ok(MessageFacts { timestamp: 5, from_id: 77 }),
        failed_contact,
    );
    assert_eq!(r.unwrap_err().message, "no such contact");
}

#[test]
fn items_by_ids_are_keyed_by_position() {
    let fetched = vec![
        Ok(ChatListItemFetchResult::ArchiveLink),
        Err(ErrorInstance::new(ErrorType::Generic, "gone".to_string())),
    ];
    let m = get_chat_list_items_by_ids(&vec![6, 33], fetched);
    assert_eq!(m.len(), 2);
    assert!(matches!(m.get(&0), Some(ChatListItemFetchResult::ArchiveLink)));
    match m.get(&1) {
        Some(ChatListItemFetchResult::Error { id, error }) => {
            assert_eq!(*id, 33);
            assert_eq!(error, "ErrorInstance { kind: Generic, message: \"gone\" }");
        }
        other => panic!("unexpected {:?}", other),
    }
    assert!(get_chat_list_items_by_ids(&vec![], vec![]).is_empty());
}

#[test]
fn routes() {
    let c = |id| Some(Command { command_id: id, invocation_id: 4 });
    assert!(matches!(route_command(c(0), false), Route::Basic));
    assert!(matches!(route_command(c(19), true), Route::Basic));
    assert!(matches!(route_command(c(20), false), Route::OpenAccount));
    assert!(matches!(route_command(c(41), true), Route::Account));
    match route_command(c(20), true) {
        Route::Reject(r) => {
            assert_eq!(r.kind, ErrorType::Generic);
            assert_eq!(r.message, "This connection has already a context opened");
            assert_eq!(r.invocation_id, 4);
        }
        other => panic!("unexpected {:?}", other),
    }
    match route_command(c(21), false) {
        Route::Reject(r) => {
            assert_eq!(r.kind, ErrorType::NoContext);
            assert_eq!(r.invocation_id, 4);
            assert_eq!(
                r.to_json().unwrap(),
                "{\"kind\":\"NoContext\",\"message\":\"This connection doesn't have a context set: you need to login first\",\"invocation_id\":4}"
            );
        }
        other => panic!("unexpected {:?}", other),
    }
    match route_command(None, true) {
        Route::Reject(r) => {
            assert_eq!(r.kind, ErrorType::CommandIdMissing);
            assert_eq!(r.invocation_id, 0);
        }
        other => panic!("unexpected {:?}", other),
    }
}
