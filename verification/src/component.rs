//! What every component has in common: an update that answers one message
//! at a time, and the commands through which it asks for everything that
//! reaches beyond its own state.

use crate::api::request::Request;
use crate::channel::{ChannelView, Transmitter};
use vstd::prelude::*;

verus! {

/// What an update asks of the runtime. The runtime carries the commands out
/// in the order in which they stand, after the update has returned.
#[derive(Debug)]
pub enum Command<I, O> {
    /// Send a message on the output channel, to the view.
    Send(O),
    /// Deliver a message to the component itself, as its next input.
    Later(I),
    /// Ask the backend. The answer comes back as an input of the component.
    Call(Request),
    /// Set the hash of the location.
    SetHash(String),
    /// Set the title of the document.
    SetTitle(String),
}

/// What is left of a command for whoever talks to the browser and the
/// backend.
#[derive(Debug)]
pub enum Errand {
    /// Ask the backend.
    Call(Request),
    /// Set the hash of the location.
    SetHash(String),
    /// Set the title of the document.
    SetTitle(String),
}

/// What the runtime does with one command.
pub enum Step<I, O> {
    /// It sends the message on the output channel.
    Send(O),
    /// It queues the message as an input of the component.
    Later(I),
    /// It hands the errand on.
    Leave(Errand),
}

/// What the runtime does with `command`.
pub open spec fn step_of<I, O>(command: Command<I, O>) -> Step<I, O> {
    match command {
        Command::Send(msg) => Step::Send(msg),
        Command::Later(msg) => Step::Later(msg),
        Command::Call(request) => Step::Leave(Errand::Call(request)),
        Command::SetHash(hash) => Step::Leave(Errand::SetHash(hash)),
        Command::SetTitle(title) => Step::Leave(Errand::SetTitle(title)),
    }
}

/// The messages that `commands` sends to the view, in order.
pub open spec fn sends<I, O>(commands: Seq<Command<I, O>>) -> Seq<O>
    decreases commands.len(),
{
    if commands.len() == 0 {
        Seq::<O>::empty()
    } else {
        match commands.last() {
            Command::Send(msg) => sends(commands.drop_last()).push(msg),
            _ => sends(commands.drop_last()),
        }
    }
}

/// The messages that `commands` has delivered to the component itself, in
/// order.
pub open spec fn laters<I, O>(commands: Seq<Command<I, O>>) -> Seq<I>
    decreases commands.len(),
{
    if commands.len() == 0 {
        Seq::<I>::empty()
    } else {
        match commands.last() {
            Command::Later(msg) => laters(commands.drop_last()).push(msg),
            _ => laters(commands.drop_last()),
        }
    }
}

/// The errands that `commands` leaves, in order.
pub open spec fn errands<I, O>(commands: Seq<Command<I, O>>) -> Seq<Errand>
    decreases commands.len(),
{
    if commands.len() == 0 {
        Seq::<Errand>::empty()
    } else {
        match step_of(commands.last()) {
            Step::Leave(errand) => errands(commands.drop_last()).push(errand),
            _ => errands(commands.drop_last()),
        }
    }
}

/// The channel after `msgs` were sent on it, one after the other.
pub open spec fn sent_all<O>(channel: ChannelView<O>, msgs: Seq<O>) -> ChannelView<O>
    decreases msgs.len(),
{
    if msgs.len() == 0 {
        channel
    } else {
        sent_all(channel, msgs.drop_last()).sent_to(msgs.last())
    }
}

/// The two channels of a component: the output channel, to which its view
/// listens, and the queue of the messages that wait to be its next inputs.
pub struct Gizmo<I, O> {
    /// The output channel.
    pub tx: Transmitter<O>,
    /// The inputs that wait, the next one first.
    pub inbox: Vec<I>,
}

impl<I, O> Gizmo<I, O> {
    /// Channels on which nothing was sent and nothing waits.
    pub fn new() -> (gizmo: Gizmo<I, O>)
        ensures
            gizmo.tx@.wf(),
            gizmo.tx@.receivers() == 0,
            gizmo.tx@.sent.len() == 0,
            gizmo.inbox@.len() == 0,
    {
        Gizmo { tx: Transmitter::new(), inbox: Vec::new() }
    }

    /// Queues an input that has arrived from outside: an event of the
    /// browser, or the outcome of what the component had asked for. It waits
    /// behind all that waits already.
    pub fn post(&mut self, msg: I)
        ensures
            final(self).tx == old(self).tx,
            final(self).inbox@ == old(self).inbox@.push(msg),
    {
        self.inbox.push(msg);
    }

    /// Carries out the commands of one update, in order: what is sent
    /// reaches every live receiver of the output channel before the next
    /// command is looked at, what is for later waits behind all that waits
    /// already, and the errands are returned.
    pub fn carry_out(&mut self, commands: Vec<Command<I, O>>) -> (left: Vec<Errand>)
        requires
            old(self).tx@.wf(),
        ensures
            final(self).tx@.wf(),
            final(self).tx@ == sent_all(old(self).tx@, sends(commands@)),
            final(self).inbox@ == old(self).inbox@ + laters(commands@),
            left@ == errands(commands@),
    {
        let mut left: Vec<Errand> = Vec::new();
        let ghost all = commands@;
        assert(all.take(0) =~= Seq::<Command<I, O>>::empty());
        assert(self.inbox@ + Seq::<I>::empty() =~= self.inbox@);
        for command in it: commands
            invariant
                it.seq() == all,
                self.tx@.wf(),
                self.tx@ == sent_all(old(self).tx@, sends(all.take(it.index() as int))),
                self.inbox@ == old(self).inbox@ + laters(all.take(it.index() as int)),
                left@ == errands(all.take(it.index() as int)),
        {
            proof {
                let k = it.index() as int;
                assert(all.take(k + 1).drop_last() =~= all.take(k));
                assert(all.take(k + 1).last() == command);
            }
            match command {
                Command::Send(msg) => {
                    let _ = self.tx.send(msg);
                    proof {
                        let sent = sends(all.take(it.index() as int));
                        assert(sent.push(msg).drop_last() =~= sent);
                        assert(sent.push(msg).last() == msg);
                    }
                },
                Command::Later(msg) => {
                    self.inbox.push(msg);
                    assert(self.inbox@ =~= old(self).inbox@ + laters(
                        all.take(it.index() as int),
                    ).push(msg));
                },
                Command::Call(request) => {
                    left.push(Errand::Call(request));
                },
                Command::SetHash(hash) => {
                    left.push(Errand::SetHash(hash));
                },
                Command::SetTitle(title) => {
                    left.push(Errand::SetTitle(title));
                },
            }
        }
        assert(all.take(all.len() as int) =~= all);
        left
    }

    /// Takes the input that has waited longest, if one waits.
    pub fn next(&mut self) -> (msg: Option<I>)
        ensures
            final(self).tx == old(self).tx,
            match msg {
                Some(first) => old(self).inbox@.len() > 0 && first == old(self).inbox@[0]
                    && final(self).inbox@ == old(self).inbox@.subrange(
                    1,
                    old(self).inbox@.len() as int,
                ),
                None => old(self).inbox@.len() == 0 && final(self).inbox@.len() == 0,
            },
    {
        if self.inbox.len() > 0 {
            Some(self.inbox.remove(0))
        } else {
            None
        }
    }
}

/// What was sent on a channel is observed in the order of sending: a live
/// receiver has observed, behind all it had observed before, every message
/// of `msgs`, in order.
pub proof fn lemma_sent_in_order<O>(channel: ChannelView<O>, msgs: Seq<O>, k: int)
    requires
        channel.wf(),
        channel.is_live(k),
    ensures
        sent_all(channel, msgs).wf(),
        sent_all(channel, msgs).is_live(k),
        sent_all(channel, msgs).receivers() == channel.receivers(),
        sent_all(channel, msgs).observed(k) == channel.observed(k) + msgs,
    decreases msgs.len(),
{
    if msgs.len() == 0 {
        assert(channel.observed(k) + msgs =~= channel.observed(k));
    } else {
        let before = sent_all(channel, msgs.drop_last());
        lemma_sent_in_order(channel, msgs.drop_last(), k);
        crate::channel::lemma_send_reaches_live(before, msgs.last(), k);
        assert(channel.observed(k) + msgs =~= (channel.observed(k) + msgs.drop_last()).push(
            msgs.last(),
        ));
    }
}

} // verus!
