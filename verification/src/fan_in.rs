//! Fan-in: several inbound channels merged into one point of consumption.
//!
//! Each selection looks at every channel, starting just behind the channel that was served
//! last, and takes the head of the first one that has a message. The other channels are not
//! touched. The merged stream ends only when every channel is closed and drained.

use std::collections::VecDeque;
use vstd::prelude::*;
use crate::fan_in_laws::{lemma_queued_after_take, lemma_run_then};

verus! {

/// The mathematical value of one channel: the messages that wait in it, oldest first, and
/// whether all of its senders are gone.
pub struct ChannelView<T> {
    pub queue: Seq<T>,
    pub closed: bool,
}

/// The mathematical value of a selector: its channels, and the channel at which the next
/// selection starts to look.
pub struct FanInView<T> {
    pub channels: Seq<ChannelView<T>>,
    pub cursor: int,
}

/// What one selection gives.
#[derive(Debug, PartialEq, Eq)]
pub enum Selected<T> {
    /// The head of one channel, which has left that channel.
    Message { channel: usize, message: T },
    /// No message waits, but a channel is still open: more may come.
    Idle,
    /// Every channel is closed and empty: nothing will ever come.
    Finished,
}

/// What a look at the far side of a channel gave.
#[derive(Debug, PartialEq, Eq)]
pub enum Polled<T> {
    /// The next message of the channel.
    Message(T),
    /// Nothing for now, but a sender is still there.
    Empty,
    /// Nothing, and no sender is left.
    Closed,
}

impl<T> FanInView<T> {
    /// A selector over `channels` channels, all of them open and empty.
    pub open spec fn fresh(channels: nat) -> FanInView<T> {
        FanInView {
            channels: Seq::new(
                channels,
                |i: int| ChannelView { queue: Seq::empty(), closed: false },
            ),
            cursor: 0,
        }
    }

    /// The number of channels.
    pub open spec fn len(self) -> int {
        self.channels.len() as int
    }

    /// Whether channel `i` has a message.
    pub open spec fn ready(self, i: int) -> bool {
        0 <= i < self.len() && self.channels[i].queue.len() > 0
    }

    /// The channel at which the next selection starts to look.
    pub open spec fn start(self) -> int {
        if 0 <= self.cursor < self.len() {
            self.cursor
        } else {
            0
        }
    }

    /// The channel that a selection looks at after `k` others, going round from the start.
    pub open spec fn at(self, k: int) -> int {
        if self.start() + k >= self.len() {
            self.start() + k - self.len()
        } else {
            self.start() + k
        }
    }

    /// How many channels a selection looks at before it reaches channel `i`.
    pub open spec fn distance(self, i: int) -> int {
        if i >= self.start() {
            i - self.start()
        } else {
            i + self.len() - self.start()
        }
    }

    /// The first channel with a message among those that a selection looks at after `k`
    /// others.
    pub open spec fn scan(self, k: int) -> Option<int>
        decreases self.len() - k,
    {
        if k < 0 || k >= self.len() {
            None
        } else if self.ready(self.at(k)) {
            Some(self.at(k))
        } else {
            self.scan(k + 1)
        }
    }

    /// The channel that the next selection serves, if any has a message.
    pub open spec fn choice(self) -> Option<int> {
        self.scan(0)
    }

    /// Whether every channel is closed.
    pub open spec fn all_closed(self) -> bool {
        forall|i: int| 0 <= i < self.len() ==> (#[trigger] self.channels[i]).closed
    }

    /// The selector after the head of channel `c` was taken: that channel has lost its head,
    /// and the next selection starts behind it.
    pub open spec fn take_from(self, c: int) -> FanInView<T> {
        FanInView {
            channels: self.channels.update(
                c,
                ChannelView {
                    queue: self.channels[c].queue.drop_first(),
                    closed: self.channels[c].closed,
                },
            ),
            cursor: if c + 1 >= self.len() {
                0
            } else {
                c + 1
            },
        }
    }

    /// One selection: the selector afterwards, and what was selected.
    pub open spec fn select(self) -> (FanInView<T>, Selected<T>) {
        match self.choice() {
            Some(c) => (
                self.take_from(c),
                Selected::Message { channel: c as usize, message: self.channels[c].queue[0] },
            ),
            None => (
                self,
                if self.all_closed() {
                    Selected::Finished
                } else {
                    Selected::Idle
                },
            ),
        }
    }

    /// Whether channel `i` takes a message: it exists and is open.
    pub open spec fn accepts(self, i: int) -> bool {
        0 <= i < self.len() && !self.channels[i].closed
    }

    /// The selector after `message` was offered to channel `i`: it joins the end of the
    /// queue if the channel takes it, and nothing changes if not.
    pub open spec fn offer(self, i: int, message: T) -> FanInView<T> {
        if self.accepts(i) {
            FanInView {
                channels: self.channels.update(
                    i,
                    ChannelView { queue: self.channels[i].queue.push(message), closed: false },
                ),
                cursor: self.cursor,
            }
        } else {
            self
        }
    }

    /// The selector after channel `i` was closed: what waits in it stays.
    pub open spec fn close(self, i: int) -> FanInView<T> {
        if 0 <= i < self.len() {
            FanInView {
                channels: self.channels.update(
                    i,
                    ChannelView { queue: self.channels[i].queue, closed: true },
                ),
                cursor: self.cursor,
            }
        } else {
            self
        }
    }

    /// Whether the selector asks for the next message of channel `i`: the channel is open
    /// and nothing waits in it. A channel is never asked for a second message while its
    /// first still waits, so its senders keep the bound of their own queue.
    pub open spec fn wants(self, i: int) -> bool {
        self.accepts(i) && self.channels[i].queue.len() == 0
    }

    /// The selector after it took in what a look at the far side of channel `i` gave.
    pub open spec fn take_in(self, i: int, polled: Polled<T>) -> FanInView<T> {
        match polled {
            Polled::Message(message) => self.offer(i, message),
            Polled::Empty => self,
            Polled::Closed => self.close(i),
        }
    }
}

/// One thing that happens to a selector.
pub enum Op<T> {
    /// A sender offers a message to a channel.
    Offer { channel: int, message: T },
    /// The last sender of a channel goes away.
    Close { channel: int },
    /// The consumer selects.
    Select,
}

/// What a sequence of operations leaves: the selector, the messages that selections gave,
/// each with its channel and in the order in which they came out, and the messages that
/// channels took in, each with its channel and in the order in which they went in.
pub struct Run<T> {
    pub state: FanInView<T>,
    pub emitted: Seq<(int, T)>,
    pub accepted: Seq<(int, T)>,
}

impl<T> FanInView<T> {
    /// The outcome of one operation.
    pub open spec fn perform(self, op: Op<T>) -> Run<T> {
        match op {
            Op::Offer { channel, message } => Run {
                state: self.offer(channel, message),
                emitted: Seq::empty(),
                accepted: if self.accepts(channel) {
                    seq![(channel, message)]
                } else {
                    Seq::empty()
                },
            },
            Op::Close { channel } => Run {
                state: self.close(channel),
                emitted: Seq::empty(),
                accepted: Seq::empty(),
            },
            Op::Select => match self.choice() {
                Some(c) => Run {
                    state: self.take_from(c),
                    emitted: seq![(c, self.channels[c].queue[0])],
                    accepted: Seq::empty(),
                },
                None => Run { state: self, emitted: Seq::empty(), accepted: Seq::empty() },
            },
        }
    }

    /// The outcome of a sequence of operations, performed in order.
    pub open spec fn run(self, ops: Seq<Op<T>>) -> Run<T>
        decreases ops.len(),
    {
        if ops.len() == 0 {
            Run { state: self, emitted: Seq::empty(), accepted: Seq::empty() }
        } else {
            let first = self.perform(ops[0]);
            let rest = first.state.run(ops.drop_first());
            Run {
                state: rest.state,
                emitted: first.emitted + rest.emitted,
                accepted: first.accepted + rest.accepted,
            }
        }
    }

    /// The number of messages that wait in all channels together.
    pub open spec fn queued(self) -> nat {
        queued_in(self.channels)
    }
}

/// The number of messages that wait in the given channels together.
pub open spec fn queued_in<T>(channels: Seq<ChannelView<T>>) -> nat
    decreases channels.len(),
{
    if channels.len() == 0 {
        0
    } else {
        queued_in(channels.drop_last()) + channels.last().queue.len()
    }
}

/// The messages of channel `i` in a log, in the order of the log.
pub open spec fn from_channel<T>(log: Seq<(int, T)>, i: int) -> Seq<T>
    decreases log.len(),
{
    if log.len() == 0 {
        Seq::empty()
    } else if log[0].0 == i {
        seq![log[0].1] + from_channel(log.drop_first(), i)
    } else {
        from_channel(log.drop_first(), i)
    }
}

/// The messages of a log without their channels.
pub open spec fn messages_of<T>(log: Seq<(int, T)>) -> Seq<T> {
    Seq::new(log.len(), |k: int| log[k].1)
}

/// The number of selections among the operations.
pub open spec fn selections<T>(ops: Seq<Op<T>>) -> nat
    decreases ops.len(),
{
    if ops.len() == 0 {
        0
    } else if ops[0] is Select {
        1 + selections(ops.drop_first())
    } else {
        selections(ops.drop_first())
    }
}

/// `count` selections in a row.
pub open spec fn selecting<T>(count: nat) -> Seq<Op<T>> {
    Seq::new(count, |k: int| Op::Select)
}

/// What draining a selector gave.
#[derive(Debug, PartialEq, Eq)]
pub struct Drained<T> {
    /// The messages, in the order in which they were selected.
    pub messages: Vec<T>,
    /// Whether every channel is closed and empty, so that nothing will ever come.
    pub finished: bool,
}

/// The receiving half of a bounded channel of `tokio`.
#[verifier::external_type_specification]
#[verifier::external_body]
#[verifier::reject_recursive_types(T)]
pub struct ExReceiver<T>(tokio::sync::mpsc::Receiver<T>);

/// Calls `tokio::sync::mpsc::Receiver::try_recv`, which does not wait, and says what it
/// gave: a message, nothing for now, or nothing ever again. Nothing is claimed of the
/// outcome, which depends on what the senders have done.
#[verifier::external_body]
fn try_receive<T>(receiver: &mut tokio::sync::mpsc::Receiver<T>) -> Polled<T> {
    match receiver.try_recv() {
        Ok(message) => Polled::Message(message),
        Err(tokio::sync::mpsc::error::TryRecvError::Empty) => Polled::Empty,
        Err(tokio::sync::mpsc::error::TryRecvError::Disconnected) => Polled::Closed,
    }
}

/// The receiving end of one channel.
struct Inbox<T> {
    queue: VecDeque<T>,
    closed: bool,
}

/// A selector over a fixed set of channels.
pub struct FanIn<T> {
    inboxes: Vec<Inbox<T>>,
    cursor: usize,
}

impl<T> View for FanIn<T> {
    type V = FanInView<T>;

    closed spec fn view(&self) -> FanInView<T> {
        FanInView {
            channels: Seq::new(
                self.inboxes.len() as nat,
                |i: int| ChannelView { queue: self.inboxes[i].queue@, closed: self.inboxes[i].closed },
            ),
            cursor: self.cursor as int,
        }
    }
}

/// What scanning from offset `k` finds: a channel with a message that no channel with a
/// message precedes, or nothing when no channel from there on has one.
pub proof fn lemma_scan<T>(view: FanInView<T>, k: int)
    requires
        0 <= k <= view.len(),
    ensures
        match view.scan(k) {
            Some(c) => {
                &&& view.ready(c)
                &&& k <= view.distance(c) < view.len()
                &&& forall|j: int| k <= j < view.distance(c) ==> !view.ready(#[trigger] view.at(j))
            },
            None => forall|j: int| k <= j < view.len() ==> !view.ready(#[trigger] view.at(j)),
        },
    decreases view.len() - k,
{
    if k < view.len() && !view.ready(view.at(k)) {
        lemma_scan(view, k + 1);
    }
}

/// A selection serves a channel exactly when some channel has a message, and it serves the
/// one nearest to the start.
pub proof fn lemma_choice<T>(view: FanInView<T>)
    ensures
        view.choice() is None <==> forall|i: int| !view.ready(i),
        view.choice() matches Some(c) ==> {
            &&& view.ready(c)
            &&& forall|i: int| view.ready(i) ==> view.distance(c) <= view.distance(i)
        },
{
    lemma_scan(view, 0);
    assert forall|i: int| view.ready(i) implies view.choice() matches Some(c) && view.distance(c)
        <= view.distance(i) by {
        assert(view.at(view.distance(i)) == i);
    }
}

impl<T> FanIn<T> {
    /// A selector over `channels` channels, all of them open and empty.
    pub fn new(channels: usize) -> (fan_in: FanIn<T>)
        ensures
            fan_in@ == FanInView::<T>::fresh(channels as nat),
    {
        let mut inboxes: Vec<Inbox<T>> = Vec::new();
        let mut i: usize = 0;
        while i < channels
            invariant
                i <= channels,
                inboxes.len() == i,
                forall|j: int|
                    0 <= j < i ==> (#[trigger] inboxes[j]).queue@ == Seq::<T>::empty()
                        && !inboxes[j].closed,
            decreases channels - i,
        {
            inboxes.push(Inbox { queue: VecDeque::new(), closed: false });
            i = i + 1;
        }
        let fan_in = FanIn { inboxes, cursor: 0 };
        assert(fan_in@.channels =~= FanInView::<T>::fresh(channels as nat).channels);
        fan_in
    }

    /// The number of channels.
    pub fn channels(&self) -> (n: usize)
        ensures
            n == self@.len(),
    {
        self.inboxes.len()
    }

    /// Whether channel `channel` exists and is open.
    pub fn is_open(&self, channel: usize) -> (open: bool)
        ensures
            open == self@.accepts(channel as int),
    {
        channel < self.inboxes.len() && !self.inboxes[channel].closed
    }

    /// Whether the selector asks for the next message of channel `channel`.
    pub fn wants(&self, channel: usize) -> (wanted: bool)
        ensures
            wanted == self@.wants(channel as int),
    {
        channel < self.inboxes.len() && !self.inboxes[channel].closed
            && self.inboxes[channel].queue.len() == 0
    }

    /// Puts `message` at the end of channel `channel`. A channel that is closed, or that does
    /// not exist, takes nothing: the message comes back.
    pub fn offer(&mut self, channel: usize, message: T) -> (refused: Option<T>)
        ensures
            final(self)@ == old(self)@.offer(channel as int, message),
            refused == if old(self)@.accepts(channel as int) {
                None
            } else {
                Some(message)
            },
    {
        if channel < self.inboxes.len() && !self.inboxes[channel].closed {
            self.inboxes[channel].queue.push_back(message);
            assert(self@.channels =~= old(self)@.offer(channel as int, message).channels);
            None
        } else {
            Some(message)
        }
    }

    /// Closes channel `channel`: its senders are gone. What waits in it stays to be selected.
    pub fn close(&mut self, channel: usize)
        ensures
            final(self)@ == old(self)@.close(channel as int),
    {
        if channel < self.inboxes.len() {
            self.inboxes[channel].closed = true;
            assert(self@.channels =~= old(self)@.close(channel as int).channels);
        }
    }

    /// Takes in what a look at the far side of channel `channel` gave: a message joins the
    /// channel, the news that no sender is left closes it. A message for a channel that
    /// takes none comes back.
    pub fn take_in(&mut self, channel: usize, polled: Polled<T>) -> (refused: Option<T>)
        ensures
            final(self)@ == old(self)@.take_in(channel as int, polled),
            refused == match polled {
                Polled::Message(message) => if old(self)@.accepts(channel as int) {
                    None
                } else {
                    Some(message)
                },
                _ => None,
            },
    {
        match polled {
            Polled::Message(message) => self.offer(channel, message),
            Polled::Empty => None,
            Polled::Closed => {
                self.close(channel);
                None
            },
        }
    }

    /// Looks for the next message of channel `channel` on its receiver, if the selector asks
    /// for one, and takes in what the look gave. The look does not wait. What it gives is up
    /// to the senders, so the selector afterwards is the selector that took in one of the
    /// three things that a look can give.
    pub fn pull(&mut self, channel: usize, receiver: &mut tokio::sync::mpsc::Receiver<T>)
        ensures
            !old(self)@.wants(channel as int) ==> final(self)@ == old(self)@,
            old(self)@.wants(channel as int) ==> exists|polled: Polled<T>|
                final(self)@ == #[trigger] old(self)@.take_in(channel as int, polled),
    {
        if self.wants(channel) {
            let polled = try_receive(receiver);
            let _ = self.take_in(channel, polled);
        }
    }

    /// Selects: takes the head of the first channel, from the start round, that has a
    /// message. No other channel changes. Without a message anywhere, says whether one may
    /// still come.
    pub fn select(&mut self) -> (selected: Selected<T>)
        ensures
            (final(self)@, selected) == old(self)@.select(),
    {
        let n: usize = self.inboxes.len();
        let mut index: usize = if self.cursor < n { self.cursor } else { 0 };
        let mut looked: usize = 0;
        let mut open: bool = false;
        proof {
            lemma_scan(self@, 0);
        }
        while looked < n
            invariant
                *self == *old(self),
                n == self@.len(),
                looked <= n,
                looked < n ==> index == self@.at(looked as int),
                self@.scan(looked as int) == self@.choice(),
                open <==> exists|j: int| 0 <= j < looked && !self@.channels[self@.at(j)].closed,
            decreases n - looked,
        {
            if self.inboxes[index].queue.len() > 0 {
                let message = self.inboxes[index].queue.pop_front().unwrap();
                self.cursor = if index + 1 >= n { 0 } else { index + 1 };
                assert(self@.channels =~= old(self)@.take_from(index as int).channels);
                return Selected::Message { channel: index, message };
            }
            if !self.inboxes[index].closed {
                open = true;
            }
            looked = looked + 1;
            index = if index + 1 >= n { 0 } else { index + 1 };
        }
        proof {
            let view = self@;
            if !open {
                assert forall|i: int| 0 <= i < view.len() implies (
                #[trigger] view.channels[i]).closed by {
                    assert(view.at(view.distance(i)) == i);
                }
            }
        }
        if open {
            Selected::Idle
        } else {
            Selected::Finished
        }
    }

    /// Selects until no message waits, and says whether the merged stream has ended. The
    /// messages come out as that many selections in a row give them.
    pub fn drain(&mut self) -> (drained: Drained<T>)
        ensures
            final(self)@ == old(self)@.run(selecting(drained.messages@.len())).state,
            drained.messages@ == messages_of(
                old(self)@.run(selecting(drained.messages@.len())).emitted,
            ),
            final(self)@.choice() is None,
            drained.finished == final(self)@.all_closed(),
    {
        let mut messages: Vec<T> = Vec::new();
        let mut finished: bool = false;
        let ghost mut log: Seq<(int, T)> = Seq::empty();
        loop
            invariant_except_break
                old(self)@.run(selecting(messages@.len())).state == self@,
                old(self)@.run(selecting(messages@.len())).emitted == log,
                messages@ == messages_of(log),
            ensures
                old(self)@.run(selecting(messages@.len())).state == self@,
                old(self)@.run(selecting(messages@.len())).emitted == log,
                messages@ == messages_of(log),
                self@.choice() is None,
                finished == self@.all_closed(),
            decreases self@.queued(),
        {
            let ghost before = self@;
            let ghost count = messages@.len();
            match self.select() {
                Selected::Message { channel, message } => {
                    proof {
                        lemma_scan(before, 0);
                        lemma_queued_after_take(before.channels, channel as int);
                        lemma_run_then(old(self)@, selecting(count), Op::Select);
                        assert(selecting::<T>(count).push(Op::Select) =~= selecting(count + 1));
                        log = log.push((channel as int, message));
                    }
                    messages.push(message);
                },
                Selected::Idle => {
                    finished = false;
                    break ;
                },
                Selected::Finished => {
                    finished = true;
                    break ;
                },
            }
        }
        Drained { messages, finished }
    }
}

} // verus!
