use vstd::prelude::*;
use crate::content::{Content, ContentBody, Thread};
use crate::normalize::{emits, is_message_for, normalize, outcome};
use crate::record::Presage;

verus! {

/// One unit of the live message sequence, with what the session resolved for
/// it: its conversation key, the display name of that conversation, and the
/// message that a reaction in it targets.
pub struct Incoming {
    pub content: Content,
    pub thread: Option<Thread>,
    pub display: Option<String>,
    pub target: Option<Content>,
}

pub open spec fn unit_emits(u: Incoming) -> bool {
    emits(u.content, u.thread, u.target)
}

/// The positions, in delivery order, of the units that yield a message event.
pub open spec fn emitting(us: Seq<Incoming>) -> Seq<int>
    decreases us.len(),
{
    if us.len() == 0 {
        Seq::empty()
    } else {
        let p = emitting(us.drop_last());
        if unit_emits(us.last()) {
            p.push(us.len() - 1)
        } else {
            p
        }
    }
}

/// `rs` are the events for the units `us`, one per emitting unit, in order.
pub open spec fn events_for(rs: Seq<Presage>, account: u64, us: Seq<Incoming>) -> bool {
    let e = emitting(us);
    &&& rs.len() == e.len()
    &&& forall|k: int|
        0 <= k < rs.len() ==> #[trigger] is_message_for(
            rs[k],
            account,
            us[e[k]].content,
            us[e[k]].thread.unwrap(),
            us[e[k]].display,
            us[e[k]].target,
        )
}

/// Every emitting position is a unit of `us` that emits, and positions
/// strictly increase: events keep the delivery order of their units.
pub proof fn lemma_emission_order(us: Seq<Incoming>)
    ensures
        forall|k: int| 0 <= k < emitting(us).len() ==> 0 <= #[trigger] emitting(us)[k] < us.len()
            && unit_emits(us[emitting(us)[k]]),
        forall|i: int, j: int|
            0 <= i < j < emitting(us).len() ==> #[trigger] emitting(us)[i] < #[trigger] emitting(us)[j],
    decreases us.len(),
{
    if us.len() > 0 {
        let dl = us.drop_last();
        let p = emitting(dl);
        lemma_emission_order(dl);
        assert forall|k: int| 0 <= k < p.len() implies us[p[k]] == #[trigger] dl[p[k]] by {}
        if unit_emits(us.last()) {
            assert(emitting(us) == p.push(us.len() - 1));
        } else {
            assert(emitting(us) == p);
        }
    }
}

/// A batch of typing indicators and other unrecognized units yields no event.
pub proof fn lemma_unrecognized_units_are_silent(us: Seq<Incoming>)
    requires
        forall|i: int| 0 <= i < us.len() ==> match #[trigger] us[i].content.body {
            ContentBody::TypingMessage | ContentBody::Other => true,
            _ => false,
        },
    ensures
        emitting(us).len() == 0,
    decreases us.len(),
{
    if us.len() > 0 {
        let last = us.last();
        assert(us[us.len() - 1].content.body == last.content.body);
        assert(outcome(last.content, last.target) is None);
        assert forall|i: int| 0 <= i < us.drop_last().len() implies match #[trigger] us.drop_last()[i].content.body {
            ContentBody::TypingMessage | ContentBody::Other => true,
            _ => false,
        } by {
            assert(us.drop_last()[i] == us[i]);
        }
        lemma_unrecognized_units_are_silent(us.drop_last());
    }
}

/// Normalizes the units delivered by the live message sequence, in delivery
/// order, and returns the message events to hand to the host.
pub fn normalize_all(account: u64, units: &Vec<Incoming>) -> (r: Vec<Presage>)
    ensures
        events_for(r@, account, units@),
{
    let mut out: Vec<Presage> = Vec::new();
    let mut i: usize = 0;
    while i < units.len()
        invariant
            i <= units@.len(),
            events_for(out@, account, units@.take(i as int)),
        decreases units@.len() - i,
    {
        let u = &units[i];
        let r = normalize(account, &u.content, &u.thread, &u.display, &u.target);
        let ghost before = out@;
        let ghost prev = units@.take(i as int);
        let ghost next = units@.take(i + 1);
        proof {
            assert(next.drop_last() =~= prev);
            assert(next.last() == units@[i as int]);
            lemma_emission_order(prev);
        }
        match r {
            Some(m) => {
                out.push(m);
                proof {
                    assert(emitting(next) == emitting(prev).push(i as int));
                    assert forall|k: int| 0 <= k < out@.len() implies #[trigger] is_message_for(
                        out@[k],
                        account,
                        next[emitting(next)[k]].content,
                        next[emitting(next)[k]].thread.unwrap(),
                        next[emitting(next)[k]].display,
                        next[emitting(next)[k]].target,
                    ) by {
                        if k < before.len() {
                            assert(out@[k] == before[k]);
                            assert(emitting(next)[k] == emitting(prev)[k]);
                            assert(next[emitting(prev)[k]] == prev[emitting(prev)[k]]);
                        } else {
                            assert(emitting(next)[k] == i as int);
                        }
                    }
                }
            },
            None => {
                proof {
                    assert(emitting(next) == emitting(prev));
                    assert forall|k: int| 0 <= k < out@.len() implies #[trigger] is_message_for(
                        out@[k],
                        account,
                        next[emitting(next)[k]].content,
                        next[emitting(next)[k]].thread.unwrap(),
                        next[emitting(next)[k]].display,
                        next[emitting(next)[k]].target,
                    ) by {
                        assert(next[emitting(prev)[k]] == prev[emitting(prev)[k]]);
                    }
                }
            },
        }
        i += 1;
    }
    proof {
        assert(units@.take(units@.len() as int) =~= units@);
    }
    out
}

} // verus!
