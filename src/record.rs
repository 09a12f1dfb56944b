use vstd::prelude::*;

verus! {

/// The flat record handed to the host callback, one per event.
///
/// Handles and tokens are opaque integers. A string field that does not apply to
/// the event is `None`, the null pointer of the host's side.
pub struct Presage {
    /// The host's account token, echoed unchanged.
    pub account: u64,
    /// The command-sender handle; set only on a channel-ready event.
    pub tx_ptr: Option<u64>,
    /// The provisioning URL; set only on a link-QR-ready event.
    pub qrcode: Option<String>,
    /// The resolved identity; set only on an identity-resolved event.
    pub uuid: Option<String>,
    /// Protocol time of a message.
    pub timestamp: u64,
    /// 1 for a message this account sent, 0 otherwise.
    pub sent: u64,
    /// Sender (or recipient) of a message, `None` when empty.
    pub who: Option<String>,
    /// Group of a message, `None` for a direct conversation.
    pub group: Option<String>,
    /// Text of a message.
    pub body: Option<String>,
}

/// The view of an optional string field.
pub open spec fn opt_text(o: Option<String>) -> Option<Seq<char>> {
    match o {
        Some(s) => Some(s@),
        None => None,
    }
}

/// A record carrying nothing but the account token.
pub open spec fn is_blank(r: Presage, account: u64) -> bool {
    &&& r.account == account
    &&& r.tx_ptr.is_none()
    &&& r.qrcode.is_none()
    &&& r.uuid.is_none()
    &&& r.timestamp == 0
    &&& r.sent == 0
    &&& r.who.is_none()
    &&& r.group.is_none()
    &&& r.body.is_none()
}

/// The text of a marshaled string field: an empty string is not transferred.
pub open spec fn marshaled(s: Seq<char>) -> Option<Seq<char>> {
    if s.len() == 0 {
        None
    } else {
        Some(s)
    }
}

/// Moves a string into a record field, leaving out an empty one.
fn marshal(s: String) -> (r: Option<String>)
    ensures
        opt_text(r) == marshaled(s@),
{
    if s.as_str().is_empty() {
        None
    } else {
        Some(s)
    }
}

impl Presage {
    /// A record for `account` with every other field empty.
    pub fn from_account(account: u64) -> (r: Presage)
        ensures
            is_blank(r, account),
    {
        Presage {
            account: account,
            tx_ptr: None,
            qrcode: None,
            uuid: None,
            timestamp: 0,
            sent: 0,
            who: None,
            group: None,
            body: None,
        }
    }

    /// The channel-ready event: carries the command-sender handle.
    pub fn channel_ready(account: u64, tx: u64) -> (r: Presage)
        ensures
            r.tx_ptr == Some(tx),
            is_blank(Presage { tx_ptr: None, ..r }, account),
    {
        let mut r = Presage::from_account(account);
        r.tx_ptr = Some(tx);
        r
    }

    /// The link-QR-ready event: carries the provisioning URL.
    pub fn qr_ready(account: u64, url: String) -> (r: Presage)
        ensures
            opt_text(r.qrcode) == Some(url@),
            is_blank(Presage { qrcode: None, ..r }, account),
    {
        let mut r = Presage::from_account(account);
        r.qrcode = Some(url);
        r
    }

    /// The identity-resolved event. An empty identity is carried as it is: it
    /// tells the host that the identity could not be determined.
    pub fn identity_resolved(account: u64, uuid: String) -> (r: Presage)
        ensures
            opt_text(r.uuid) == Some(uuid@),
            is_blank(Presage { uuid: None, ..r }, account),
    {
        let mut r = Presage::from_account(account);
        r.uuid = Some(uuid);
        r
    }

    /// A message event. Empty `who` and `group` are left out; the body is
    /// always transferred.
    pub fn message(account: u64, timestamp: u64, sent: bool, who: String, group: String, body: String) -> (r: Presage)
        ensures
            r.account == account,
            r.tx_ptr.is_none(),
            r.qrcode.is_none(),
            r.uuid.is_none(),
            r.timestamp == timestamp,
            r.sent == (if sent { 1u64 } else { 0u64 }),
            opt_text(r.who) == marshaled(who@),
            opt_text(r.group) == marshaled(group@),
            opt_text(r.body) == Some(body@),
    {
        let mut r = Presage::from_account(account);
        r.timestamp = timestamp;
        r.sent = if sent { 1 } else { 0 };
        r.who = marshal(who);
        r.group = marshal(group);
        r.body = Some(body);
        r
    }
}

} // verus!
