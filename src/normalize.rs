use vstd::prelude::*;
use crate::content::{Content, ContentBody, DataMessage, Thread};
use crate::record::{Presage, opt_text, marshaled};

verus! {

/// The lowercase hexadecimal digit of a value below 16.
pub open spec fn hex_digit(n: u8) -> char {
    "0123456789abcdef"@[n as int]
}

/// Two lowercase hexadecimal digits per byte, high half first.
pub open spec fn hex_text(b: Seq<u8>) -> Seq<char>
    decreases b.len(),
{
    if b.len() == 0 {
        Seq::empty()
    } else {
        hex_text(b.drop_last()) + seq![hex_digit(b.last() / 16), hex_digit(b.last() % 16)]
    }
}

/// Relies on hex::encode: each byte becomes two lowercase hexadecimal digits,
/// the high half first, in the order of the bytes.
#[verifier::external_body]
fn hex_encode(b: &Vec<u8>) -> (r: String)
    ensures
        r@ == hex_text(b@),
{
    hex::encode(b)
}

pub open spec fn answer_text(quoted: Seq<char>, body: Seq<char>) -> Seq<char> {
    "Answer to message \""@ + quoted + "\": "@ + body
}

pub open spec fn reaction_text(emoji: Seq<char>, body: Seq<char>) -> Seq<char> {
    "Reacted with "@ + emoji + " to message: \""@ + body + "\""@
}

/// The quoted text and body of a data message that answers another one.
pub open spec fn answer_parts(dm: DataMessage) -> Option<(Seq<char>, Seq<char>)> {
    match (dm.quote, dm.body) {
        (Some(q), Some(b)) => match q.text {
            Some(t) => Some((t@, b@)),
            None => None,
        },
        _ => None,
    }
}

/// The target timestamp and emoji of a reaction, when the data message is read
/// as one (an answer takes precedence).
pub open spec fn reaction_parts(dm: DataMessage) -> Option<(u64, Seq<char>)> {
    if answer_parts(dm) is Some {
        None
    } else {
        match dm.reaction {
            Some(r) => match (r.target_sent_timestamp, r.emoji) {
                (Some(t), Some(e)) => Some((t, e@)),
                _ => None,
            },
            None => None,
        }
    }
}

/// The body of a stored message, where it is a data message that has one.
pub open spec fn stored_body(m: Option<Content>) -> Option<Seq<char>> {
    match m {
        Some(c) => match c.body {
            ContentBody::DataMessage(dm) => match dm.body {
                Some(b) => Some(b@),
                None => None,
            },
            _ => None,
        },
        None => None,
    }
}

/// The text a data message normalizes to, given the message that a reaction
/// targets as looked up in the conversation (`None` when the lookup failed or
/// found nothing). `None` means the unit is dropped.
pub open spec fn data_text(dm: DataMessage, target: Option<Content>) -> Option<Seq<char>> {
    if let Some((q, b)) = answer_parts(dm) {
        Some(answer_text(q, b))
    } else if let Some((_t, e)) = reaction_parts(dm) {
        match stored_body(target) {
            Some(b) => Some(reaction_text(e, b)),
            None => None,
        }
    } else {
        match dm.body {
            Some(b) => Some(b@),
            None => Some("Empty data message"@),
        }
    }
}

/// The data message wrapped by a content unit, and whether this account sent it.
pub open spec fn carried_data(c: Content) -> Option<(DataMessage, bool)> {
    match c.body {
        ContentBody::DataMessage(dm) => Some((dm, false)),
        ContentBody::SynchronizeMessage(Some(dm)) => Some((dm, true)),
        _ => None,
    }
}

/// The timestamp of the message that must be looked up in the conversation
/// before the unit can be normalized.
pub open spec fn lookup_of(c: Content) -> Option<u64> {
    match carried_data(c) {
        Some((dm, _s)) => match reaction_parts(dm) {
            Some((t, _e)) => Some(t),
            None => None,
        },
        None => None,
    }
}

/// Direction and body of the message a content unit normalizes to.
pub open spec fn outcome(c: Content, target: Option<Content>) -> Option<(bool, Seq<char>)> {
    match c.body {
        ContentBody::NullMessage => Some((false, "Null message (for example deleted)"@)),
        ContentBody::CallMessage => Some((false, "is calling!"@)),
        _ => match carried_data(c) {
            Some((dm, sent)) => match data_text(dm, target) {
                Some(t) => Some((sent, t)),
                None => None,
            },
            None => None,
        },
    }
}

/// A contact's identity, preceded by its display name where one is known.
pub open spec fn contact_label(id: Seq<char>, name: Option<String>) -> Seq<char> {
    match name {
        Some(n) => if n@.len() > 0 { n@ + ": "@ + id } else { id },
        None => id,
    }
}

/// The sender (or recipient) of a message in `thread`. `display` is the display
/// name that the session holds for the thread, if any.
pub open spec fn who_of(c: Content, thread: Thread, display: Option<String>, sent: bool) -> Seq<char> {
    match thread {
        Thread::Contact(id) => contact_label(id@, display),
        Thread::Group(_k) => if sent { Seq::empty() } else { c.metadata.sender@ },
    }
}

/// The group field of a message in `thread`: the group's title where the
/// session knows it, else the hex-encoded group key.
pub open spec fn group_of(thread: Thread, display: Option<String>) -> Seq<char> {
    match thread {
        Thread::Contact(_id) => Seq::empty(),
        Thread::Group(k) => match display {
            Some(t) => t@,
            None => hex_text(k@),
        },
    }
}

/// Whether a content unit yields a message event.
pub open spec fn emits(c: Content, thread: Option<Thread>, target: Option<Content>) -> bool {
    thread is Some && outcome(c, target) is Some
}

/// `r` is the message event for content unit `c` of `account`.
pub open spec fn is_message_for(
    r: Presage,
    account: u64,
    c: Content,
    thread: Thread,
    display: Option<String>,
    target: Option<Content>,
) -> bool {
    let (sent, body) = outcome(c, target).unwrap();
    &&& r.account == account
    &&& r.tx_ptr is None
    &&& r.qrcode is None
    &&& r.uuid is None
    &&& r.timestamp == c.metadata.timestamp
    &&& r.sent == (if sent { 1u64 } else { 0u64 })
    &&& opt_text(r.who) == marshaled(who_of(c, thread, display, sent))
    &&& opt_text(r.group) == marshaled(group_of(thread, display))
    &&& opt_text(r.body) == Some(body)
}

/// Whether `dm` answers another message, as `answer_parts` reads it.
fn is_answer(dm: &DataMessage) -> (r: bool)
    ensures
        r == answer_parts(*dm) is Some,
{
    match &dm.quote {
        Some(q) => q.text.is_some() && dm.body.is_some(),
        None => false,
    }
}

/// The timestamp of the message that a reaction in `dm` targets.
pub fn reaction_target(dm: &DataMessage) -> (r: Option<u64>)
    ensures
        r == (match reaction_parts(*dm) {
            Some((t, _e)) => Some(t),
            None => None::<u64>,
        }),
{
    if is_answer(dm) {
        return None;
    }
    match &dm.reaction {
        Some(rc) => match (&rc.target_sent_timestamp, &rc.emoji) {
            (Some(t), Some(_e)) => Some(*t),
            _ => None,
        },
        None => None,
    }
}

/// The timestamp of the message that must be looked up in the conversation
/// before `content` can be normalized, if any.
pub fn lookup_needed(content: &Content) -> (r: Option<u64>)
    ensures
        r == lookup_of(*content),
{
    match &content.body {
        ContentBody::DataMessage(dm) => reaction_target(dm),
        ContentBody::SynchronizeMessage(Some(dm)) => reaction_target(dm),
        _ => None,
    }
}

/// The body of a stored message, where it is a data message that has one.
fn body_of_stored(m: &Option<Content>) -> (r: Option<&String>)
    ensures
        match r {
            Some(b) => stored_body(*m) == Some(b@),
            None => stored_body(*m) is None,
        },
{
    match m {
        Some(c) => match &c.body {
            ContentBody::DataMessage(dm) => match &dm.body {
                Some(b) => Some(b),
                None => None,
            },
            _ => None,
        },
        None => None,
    }
}

/// The text that a data message normalizes to. `target` is the message that a
/// reaction targets, as the conversation lookup returned it; `None` is returned
/// where the unit is dropped.
pub fn format_data_message(dm: &DataMessage, target: &Option<Content>) -> (r: Option<String>)
    ensures
        opt_text(r) == data_text(*dm, *target),
{
    if let Some(q) = &dm.quote {
        if let Some(t) = &q.text {
            if let Some(b) = &dm.body {
                let mut s = String::from_str("Answer to message \"");
                s.append(t.as_str());
                s.append("\": ");
                s.append(b.as_str());
                return Some(s);
            }
        }
    }
    if let Some(rc) = &dm.reaction {
        if let Some(_t) = &rc.target_sent_timestamp {
            if let Some(e) = &rc.emoji {
                return match body_of_stored(target) {
                    Some(b) => {
                        let mut s = String::from_str("Reacted with ");
                        s.append(e.as_str());
                        s.append(" to message: \"");
                        s.append(b.as_str());
                        s.append("\"");
                        Some(s)
                    },
                    None => None,
                };
            }
        }
    }
    match &dm.body {
        Some(b) => Some(b.clone()),
        None => Some(String::from_str("Empty data message")),
    }
}

/// A contact's identity, preceded by its display name where one is known.
fn label_contact(id: &String, name: &Option<String>) -> (r: String)
    ensures
        r@ == contact_label(id@, *name),
{
    match name {
        Some(n) => {
            if n.as_str().is_empty() {
                id.clone()
            } else {
                let mut s = n.clone();
                s.append(": ");
                s.append(id.as_str());
                s
            }
        },
        None => id.clone(),
    }
}

/// Normalizes one incoming content unit into at most one message event.
///
/// `thread` is the conversation key derived from the unit (`None` when it could
/// not be derived), `display` the contact's name or the group's title as the
/// session holds it (`None` when the lookup failed or found nothing), and
/// `target` the message found by looking up `lookup_needed` in that conversation.
pub fn normalize(
    account: u64,
    content: &Content,
    thread: &Option<Thread>,
    display: &Option<String>,
    target: &Option<Content>,
) -> (r: Option<Presage>)
    ensures
        r is Some <==> emits(*content, *thread, *target),
        r is Some ==> is_message_for(r.unwrap(), account, *content, thread.unwrap(), *display, *target),
{
    let th = match thread {
        Some(t) => t,
        None => return None,
    };
    let (sent, body) = match &content.body {
        ContentBody::NullMessage => (false, String::from_str("Null message (for example deleted)")),
        ContentBody::DataMessage(dm) => match format_data_message(dm, target) {
            Some(b) => (false, b),
            None => return None,
        },
        ContentBody::SynchronizeMessage(Some(dm)) => match format_data_message(dm, target) {
            Some(b) => (true, b),
            None => return None,
        },
        ContentBody::CallMessage => (false, String::from_str("is calling!")),
        _ => return None,
    };
    let (who, group) = match th {
        Thread::Contact(id) => (label_contact(id, display), String::new()),
        Thread::Group(k) => {
            let who = if sent {
                String::new()
            } else {
                content.metadata.sender.clone()
            };
            let group = match display {
                Some(t) => t.clone(),
                None => hex_encode(k),
            };
            (who, group)
        },
    };
    Some(Presage::message(account, content.metadata.timestamp, sent, who, group, body))
}

} // verus!
