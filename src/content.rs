use vstd::prelude::*;

verus! {

/// A conversation key: a direct thread with a contact, or a group thread.
pub enum Thread {
    /// The contact's identity.
    Contact(String),
    /// The group's key bytes.
    Group(Vec<u8>),
}

/// The quoted part of a data message.
pub struct Quote {
    pub text: Option<String>,
}

/// A reaction carried by a data message.
pub struct Reaction {
    pub target_sent_timestamp: Option<u64>,
    pub emoji: Option<String>,
}

/// A data message, with the fields that the normalizer reads.
pub struct DataMessage {
    pub body: Option<String>,
    pub quote: Option<Quote>,
    pub reaction: Option<Reaction>,
}

/// What kind of content a unit carries.
pub enum ContentBody {
    /// A null or deletion marker.
    NullMessage,
    /// A data message received from someone.
    DataMessage(DataMessage),
    /// A synchronized message; `Some` when it wraps a data message that this
    /// account sent from another device.
    SynchronizeMessage(Option<DataMessage>),
    /// Call signaling.
    CallMessage,
    /// A typing indicator.
    TypingMessage,
    /// Any other kind (receipts, stories, ...).
    Other,
}

/// Delivery metadata of a content unit.
pub struct Metadata {
    /// The sender's identity.
    pub sender: String,
    /// Protocol time of the unit.
    pub timestamp: u64,
}

/// One incoming content unit.
pub struct Content {
    pub metadata: Metadata,
    pub body: ContentBody,
}

} // verus!
