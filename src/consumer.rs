use vstd::prelude::*;
use crate::command::Cmd;

verus! {

/// Where a session's consumer loop stands.
#[derive(PartialEq, Eq, Structural, Clone, Copy, Debug)]
pub enum Phase {
    /// The store is being opened; no command is taken yet.
    Opening,
    /// Waiting for the next command.
    Idle,
    /// Executing one command.
    Busy,
    /// The loop has ended.
    Stopped,
}

/// What happened outside the consumer.
pub enum Event {
    /// Opening the store finished, successfully or not.
    StoreOpened(bool),
    /// The command channel delivered the next command.
    CommandArrived(Cmd),
    /// The command channel was closed.
    ChannelClosed,
    /// The command in flight has run to completion.
    CommandDone,
}

/// What the consumer loop does next.
pub enum Action {
    /// Hand the host the command-sender handle, then wait for a command.
    AnnounceChannel,
    /// Execute this command against the store.
    Execute(Cmd),
    /// Wait for the next command.
    AwaitCommand,
    /// End the loop.
    Stop,
}

/// Whether `e` can happen in phase `p`.
pub open spec fn accepts(p: Phase, e: Event) -> bool {
    match (p, e) {
        (Phase::Opening, Event::StoreOpened(_)) => true,
        (Phase::Idle, Event::CommandArrived(_)) => true,
        (Phase::Idle, Event::ChannelClosed) => true,
        (Phase::Busy, Event::CommandDone) => true,
        _ => false,
    }
}

pub open spec fn next_phase(p: Phase, e: Event) -> Phase {
    match e {
        Event::StoreOpened(ok) => if ok { Phase::Idle } else { Phase::Stopped },
        Event::CommandArrived(_) => Phase::Busy,
        Event::ChannelClosed => Phase::Stopped,
        Event::CommandDone => Phase::Idle,
    }
}

pub open spec fn action_of(e: Event) -> Action {
    match e {
        Event::StoreOpened(ok) => if ok { Action::AnnounceChannel } else { Action::Stop },
        Event::CommandArrived(c) => Action::Execute(c),
        Event::ChannelClosed => Action::Stop,
        Event::CommandDone => Action::AwaitCommand,
    }
}

/// The consumer loop of one session: it takes commands one at a time, in the
/// order the channel delivers them, and only once the store is open.
pub struct Consumer {
    pub phase: Phase,
}

impl Consumer {
    /// A consumer whose store is being opened.
    pub fn new() -> (r: Consumer)
        ensures
            r.phase == Phase::Opening,
    {
        Consumer { phase: Phase::Opening }
    }

    /// Whether `e` can happen now.
    pub fn accepts(&self, e: &Event) -> (r: bool)
        ensures
            r == accepts(self.phase, *e),
    {
        match (self.phase, e) {
            (Phase::Opening, Event::StoreOpened(_)) => true,
            (Phase::Idle, Event::CommandArrived(_)) => true,
            (Phase::Idle, Event::ChannelClosed) => true,
            (Phase::Busy, Event::CommandDone) => true,
            _ => false,
        }
    }

    /// Takes in an event and says what to do next.
    pub fn step(&mut self, e: Event) -> (r: Action)
        requires
            accepts(old(self).phase, e),
        ensures
            final(self).phase == next_phase(old(self).phase, e),
            r == action_of(e),
    {
        match e {
            Event::StoreOpened(ok) => {
                if ok {
                    self.phase = Phase::Idle;
                    Action::AnnounceChannel
                } else {
                    self.phase = Phase::Stopped;
                    Action::Stop
                }
            },
            Event::CommandArrived(c) => {
                self.phase = Phase::Busy;
                Action::Execute(c)
            },
            Event::ChannelClosed => {
                self.phase = Phase::Stopped;
                Action::Stop
            },
            Event::CommandDone => {
                self.phase = Phase::Idle;
                Action::AwaitCommand
            },
        }
    }
}

/// The phase after the events `evs`, starting from a new consumer.
pub open spec fn phase_after(evs: Seq<Event>) -> Phase
    decreases evs.len(),
{
    if evs.len() == 0 {
        Phase::Opening
    } else {
        next_phase(phase_after(evs.drop_last()), evs.last())
    }
}

/// Every event of `evs` is accepted in the phase it meets.
pub open spec fn possible(evs: Seq<Event>) -> bool
    decreases evs.len(),
{
    evs.len() == 0 || (possible(evs.drop_last()) && accepts(phase_after(evs.drop_last()), evs.last()))
}

/// The commands delivered by the channel, in order.
pub open spec fn arrived(evs: Seq<Event>) -> Seq<Cmd>
    decreases evs.len(),
{
    if evs.len() == 0 {
        Seq::empty()
    } else {
        match evs.last() {
            Event::CommandArrived(c) => arrived(evs.drop_last()).push(c),
            _ => arrived(evs.drop_last()),
        }
    }
}

/// The commands that the consumer set to execute, in order.
pub open spec fn executed(evs: Seq<Event>) -> Seq<Cmd>
    decreases evs.len(),
{
    if evs.len() == 0 {
        Seq::empty()
    } else {
        match action_of(evs.last()) {
            Action::Execute(c) => executed(evs.drop_last()).push(c),
            _ => executed(evs.drop_last()),
        }
    }
}

/// How many commands ran to completion.
pub open spec fn completed(evs: Seq<Event>) -> nat
    decreases evs.len(),
{
    if evs.len() == 0 {
        0
    } else {
        match evs.last() {
            Event::CommandDone => completed(evs.drop_last()) + 1,
            _ => completed(evs.drop_last()),
        }
    }
}

/// Commands of one session never overlap: after any possible run of events,
/// the commands started exceed those completed by at most one, and by one
/// exactly while the consumer is busy.
pub proof fn lemma_one_command_at_a_time(evs: Seq<Event>)
    requires
        possible(evs),
    ensures
        completed(evs) <= executed(evs).len() <= completed(evs) + 1,
        (phase_after(evs) == Phase::Busy) <==> executed(evs).len() == completed(evs) + 1,
    decreases evs.len(),
{
    if evs.len() > 0 {
        lemma_one_command_at_a_time(evs.drop_last());
    }
}

/// No command is lost, duplicated or reordered: the consumer executes exactly
/// the commands that the channel delivered, in delivery order.
pub proof fn lemma_commands_kept_in_order(evs: Seq<Event>)
    ensures
        executed(evs) == arrived(evs),
    decreases evs.len(),
{
    if evs.len() > 0 {
        lemma_commands_kept_in_order(evs.drop_last());
    }
}

/// No command is executed before the store has been opened successfully.
pub proof fn lemma_no_command_before_store(evs: Seq<Event>)
    requires
        possible(evs),
        forall|i: int| 0 <= i < evs.len() ==> #[trigger] evs[i] != Event::StoreOpened(true),
    ensures
        executed(evs).len() == 0,
        phase_after(evs) == Phase::Opening || phase_after(evs) == Phase::Stopped,
    decreases evs.len(),
{
    if evs.len() > 0 {
        let dl = evs.drop_last();
        assert forall|i: int| 0 <= i < dl.len() implies #[trigger] dl[i] != Event::StoreOpened(true) by {
            assert(dl[i] == evs[i]);
        }
        assert(evs[evs.len() - 1] == evs.last());
        lemma_no_command_before_store(dl);
    }
}

} // verus!
