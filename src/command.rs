use vstd::prelude::*;
use crate::record::{Presage, is_blank, opt_text};

verus! {

/// The service environment a device links against.
#[derive(PartialEq, Eq, Structural, Clone, Copy, Debug)]
pub enum Servers {
    Staging,
    Production,
}

/// A command that the host enqueues for a session.
pub enum Cmd {
    /// Link this client as a secondary device under `device_name`.
    LinkDevice { servers: Servers, device_name: String },
    /// Report the session's own identity.
    Whoami,
    /// Receive incoming messages until the live sequence ends.
    Receive,
}

/// `r` is the identity-resolved event for `account` carrying `id`.
pub open spec fn is_identity_event(r: Presage, account: u64, id: Seq<char>) -> bool {
    opt_text(r.uuid) == Some(id) && is_blank(Presage { uuid: None, ..r }, account)
}

/// The event a whoami command ends with. `identity` is what the session
/// reported, `None` where loading the session or the identity lookup failed;
/// a failure is reported as an empty identity.
pub fn whoami_outcome(account: u64, identity: Option<String>) -> (r: Presage)
    ensures
        is_identity_event(r, account, match identity {
            Some(id) => id@,
            None => Seq::empty(),
        }),
{
    let id = match identity {
        Some(id) => id,
        None => String::new(),
    };
    Presage::identity_resolved(account, id)
}

/// The event a link command ends with, once linking has completed. `identity`
/// is the new session's identity, `None` where linking failed; a failure yields
/// no event.
pub fn link_outcome(account: u64, identity: Option<String>) -> (r: Option<Presage>)
    ensures
        r is Some <==> identity is Some,
        r is Some ==> is_identity_event(r.unwrap(), account, identity.unwrap()@),
{
    match identity {
        Some(id) => Some(Presage::identity_resolved(account, id)),
        None => None,
    }
}

} // verus!
