use presage_bridge::content::{Content, ContentBody, DataMessage, Metadata, Quote, Reaction, Thread};
use presage_bridge::normalize::{format_data_message, lookup_needed, normalize, reaction_target};
use presage_bridge::receive::{normalize_all, Incoming};

fn data(body: Option<&str>) -> DataMessage {
    DataMessage { body: body.map(|b| b.to_string()), quote: None, reaction: None }
}

fn unit(ts: u64, body: ContentBody) -> Content {
    Content { metadata: Metadata { sender: "alice".to_string(), timestamp: ts }, body }
}

fn contact(id: &str) -> Option<Thread> {
    Some(Thread::Contact(id.to_string()))
}

fn reaction(ts: u64, emoji: &str) -> DataMessage {
    DataMessage {
        body: None,
        quote: None,
        reaction: Some(Reaction { target_sent_timestamp: Some(ts), emoji: Some(emoji.to_string()) }),
    }
}

#[test]
fn reaction_resolves_target_body() {
    let dm = reaction(1000, "👍");
    assert_eq!(reaction_target(&dm), Some(1000));
    let target = Some(unit(1000, ContentBody::DataMessage(data(Some("hi")))));
    let text = format_data_message(&dm, &target);
    assert_eq!(text, Some("Reacted with 👍 to message: \"hi\"".to_string()));
}

#[test]
fn reaction_without_target_is_dropped() {
    let dm = reaction(1000, "👍");
    assert_eq!(format_data_message(&dm, &None), None);
    let bodiless = Some(unit(1000, ContentBody::DataMessage(data(None))));
    assert_eq!(format_data_message(&dm, &bodiless), None);
    let c = unit(2000, ContentBody::DataMessage(dm));
    assert!(normalize(1, &c, &contact("bob"), &None, &None).is_none());
}

#[test]
fn quote_is_answered() {
    let dm = DataMessage {
        body: Some("yes".to_string()),
        quote: Some(Quote { text: Some("hello".to_string()) }),
        reaction: None,
    };
    assert_eq!(reaction_target(&dm), None);
    assert_eq!(format_data_message(&dm, &None), Some("Answer to message \"hello\": yes".to_string()));
}

#[test]
fn plain_and_empty_data_messages() {
    assert_eq!(format_data_message(&data(Some("plain")), &None), Some("plain".to_string()));
    assert_eq!(format_data_message(&data(None), &None), Some("Empty data message".to_string()));
}

#[test]
fn received_from_contact() {
    let c = unit(42, ContentBody::DataMessage(data(Some("hey"))));
    let r = normalize(7, &c, &contact("bob"), &None, &None).unwrap();
    assert_eq!(r.account, 7);
    assert_eq!(r.timestamp, 42);
    assert_eq!(r.sent, 0);
    assert_eq!(r.who, Some("bob".to_string()));
    assert_eq!(r.group, None);
    assert_eq!(r.body, Some("hey".to_string()));
    assert!(r.qrcode.is_none() && r.uuid.is_none() && r.tx_ptr.is_none());
}

#[test]
fn sent_to_contact() {
    let c = unit(43, ContentBody::SynchronizeMessage(Some(data(Some("out")))));
    let r = normalize(7, &c, &contact("carol"), &None, &None).unwrap();
    assert_eq!(r.sent, 1);
    assert_eq!(r.who, Some("carol".to_string()));
    assert_eq!(r.group, None);
    assert_eq!(r.body, Some("out".to_string()));
}

#[test]
fn group_messages_carry_hex_key() {
    let thread = Some(Thread::Group(vec![0x01, 0xab, 0xff]));
    let c = unit(44, ContentBody::DataMessage(data(Some("all"))));
    let r = normalize(7, &c, &thread, &None, &None).unwrap();
    assert_eq!(r.who, Some("alice".to_string()));
    assert_eq!(r.group, Some("01abff".to_string()));
    assert_eq!(r.sent, 0);
    let s = unit(45, ContentBody::SynchronizeMessage(Some(data(Some("me")))));
    let r = normalize(7, &s, &thread, &None, &None).unwrap();
    assert_eq!(r.who, None);
    assert_eq!(r.group, Some("01abff".to_string()));
    assert_eq!(r.sent, 1);
}

#[test]
fn null_and_call_messages() {
    let r = normalize(1, &unit(5, ContentBody::NullMessage), &contact("d"), &None, &None).unwrap();
    assert_eq!(r.body, Some("Null message (for example deleted)".to_string()));
    let r = normalize(1, &unit(6, ContentBody::CallMessage), &contact("d"), &None, &None).unwrap();
    assert_eq!(r.body, Some("is calling!".to_string()));
    assert_eq!(r.sent, 0);
}

#[test]
fn unrecognized_units_and_missing_thread_are_dropped() {
    assert!(normalize(1, &unit(5, ContentBody::TypingMessage), &contact("d"), &None, &None).is_none());
    assert!(normalize(1, &unit(5, ContentBody::Other), &contact("d"), &None, &None).is_none());
    assert!(normalize(1, &unit(5, ContentBody::SynchronizeMessage(None)), &contact("d"), &None, &None).is_none());
    assert!(normalize(1, &unit(5, ContentBody::NullMessage), &None, &None, &None).is_none());
}

#[test]
fn lookup_only_for_reactions() {
    assert_eq!(lookup_needed(&unit(1, ContentBody::DataMessage(reaction(9, "x")))), Some(9));
    assert_eq!(lookup_needed(&unit(1, ContentBody::SynchronizeMessage(Some(reaction(8, "x"))))), Some(8));
    assert_eq!(lookup_needed(&unit(1, ContentBody::DataMessage(data(Some("a"))))), None);
    assert_eq!(lookup_needed(&unit(1, ContentBody::CallMessage)), None);
}

fn incoming(ts: u64, body: ContentBody) -> Incoming {
    Incoming { content: unit(ts, body), thread: contact("bob"), display: None, target: None }
}

#[test]
fn batch_keeps_delivery_order() {
    let units = vec![
        incoming(1, ContentBody::DataMessage(data(Some("a")))),
        incoming(2, ContentBody::TypingMessage),
        incoming(3, ContentBody::DataMessage(data(Some("b")))),
        incoming(4, ContentBody::CallMessage),
    ];
    let out = normalize_all(9, &units);
    let stamps: Vec<u64> = out.iter().map(|r| r.timestamp).collect();
    assert_eq!(stamps, vec![1, 3, 4]);
    assert_eq!(out[1].body, Some("b".to_string()));
}

#[test]
fn batch_of_unrecognized_units_emits_nothing() {
    let units = vec![
        incoming(1, ContentBody::TypingMessage),
        incoming(2, ContentBody::Other),
        incoming(3, ContentBody::TypingMessage),
    ];
    assert_eq!(normalize_all(9, &units).len(), 0);
    assert_eq!(normalize_all(9, &Vec::new()).len(), 0);
}

#[test]
fn display_names_are_used_when_known() {
    let c = unit(50, ContentBody::DataMessage(data(Some("hi"))));
    let r = normalize(2, &c, &contact("u-9"), &Some("Bob".to_string()), &None).unwrap();
    assert_eq!(r.who, Some("Bob: u-9".to_string()));
    let r = normalize(2, &c, &contact("u-9"), &Some(String::new()), &None).unwrap();
    assert_eq!(r.who, Some("u-9".to_string()));
    let group = Some(Thread::Group(vec![0x10]));
    let r = normalize(2, &c, &group, &Some("Friends".to_string()), &None).unwrap();
    assert_eq!(r.group, Some("Friends".to_string()));
    assert_eq!(r.who, Some("alice".to_string()));
    let r = normalize(2, &c, &group, &None, &None).unwrap();
    assert_eq!(r.group, Some("10".to_string()));
}
