//! What holds of every run of a selector: nothing is lost, nothing comes twice or out of its
//! channel's order, and no channel with a message waits longer than one round.

use vstd::prelude::*;
use crate::fan_in::{
    from_channel, lemma_choice, queued_in, selecting, selections, ChannelView, FanInView, Op, Run,
    Selected,
};

verus! {

/// The messages of channel `i` in a log that starts with one entry.
pub proof fn lemma_from_channel_first<T>(channel: int, message: T, rest: Seq<(int, T)>, i: int)
    ensures
        from_channel(seq![(channel, message)] + rest, i) == if channel == i {
            seq![message] + from_channel(rest, i)
        } else {
            from_channel(rest, i)
        },
{
    let log = seq![(channel, message)] + rest;
    assert(log.drop_first() =~= rest);
}

/// A run neither adds nor removes a channel.
pub proof fn lemma_run_keeps_channels<T>(view: FanInView<T>, ops: Seq<Op<T>>)
    ensures
        view.run(ops).state.len() == view.len(),
    decreases ops.len(),
{
    if ops.len() > 0 {
        let first = view.perform(ops[0]);
        if ops[0] is Select {
            lemma_choice(view);
        }
        lemma_run_keeps_channels(first.state, ops.drop_first());
    }
}

/// No loss, no duplicate, no reordering within a channel: after any run, what selections
/// gave from a channel, followed by what still waits in it, is what waited in it at the
/// start, followed by what it took in.
pub proof fn law_no_loss<T>(view: FanInView<T>, ops: Seq<Op<T>>, i: int)
    requires
        0 <= i < view.len(),
    ensures
        view.run(ops).state.len() == view.len(),
        from_channel(view.run(ops).emitted, i) + view.run(ops).state.channels[i].queue
            == view.channels[i].queue + from_channel(view.run(ops).accepted, i),
    decreases ops.len(),
{
    lemma_run_keeps_channels(view, ops);
    if ops.len() > 0 {
        let first = view.perform(ops[0]);
        let rest = first.state.run(ops.drop_first());
        lemma_choice(view);
        law_no_loss(first.state, ops.drop_first(), i);
        match ops[0] {
            Op::Offer { channel, message } => {
                if view.accepts(channel) {
                    lemma_from_channel_first(channel, message, rest.accepted, i);
                }
            },
            Op::Close { channel } => {},
            Op::Select => {
                if let Some(c) = view.choice() {
                    lemma_from_channel_first(c, view.channels[c].queue[0], rest.emitted, i);
                    if c == i {
                        let queue = view.channels[i].queue;
                        let taken = from_channel(rest.accepted, i);
                        assert(seq![queue[0]] + (queue.drop_first() + taken) =~= queue + taken);
                    }
                }
            },
        }
    }
}

/// Every message that a run gives comes from one of the selector's channels.
pub proof fn law_emitted_from_channels<T>(view: FanInView<T>, ops: Seq<Op<T>>, k: int)
    requires
        0 <= k < view.run(ops).emitted.len(),
    ensures
        0 <= view.run(ops).emitted[k].0 < view.len(),
    decreases ops.len(),
{
    if ops.len() > 0 {
        let first = view.perform(ops[0]);
        lemma_choice(view);
        if k >= first.emitted.len() {
            law_emitted_from_channels(first.state, ops.drop_first(), k - first.emitted.len());
        }
    }
}

/// The merged stream ends only when everything was delivered: if a selection after a run
/// says `Finished`, every channel is closed and empty, and the run gave, channel by channel,
/// exactly what waited at the start followed by what was taken in, in that order.
pub proof fn law_finished_after_all<T>(view: FanInView<T>, ops: Seq<Op<T>>, i: int)
    requires
        0 <= i < view.len(),
        view.run(ops).state.select().1 is Finished,
    ensures
        view.run(ops).state.channels[i].closed,
        view.run(ops).state.channels[i].queue.len() == 0,
        from_channel(view.run(ops).emitted, i) == view.channels[i].queue + from_channel(
            view.run(ops).accepted,
            i,
        ),
{
    let end = view.run(ops).state;
    law_no_loss(view, ops, i);
    lemma_choice(end);
    assert(!end.ready(i));
}

/// Whether a log is an interleaving of the given feeds: every entry comes from one of the
/// channels, and the entries of each channel are its feed, each message once and in order.
pub open spec fn interleaves<T>(log: Seq<(int, T)>, feeds: Seq<Seq<T>>) -> bool {
    &&& forall|k: int| 0 <= k < log.len() ==> 0 <= (#[trigger] log[k]).0 < feeds.len()
    &&& forall|i: int| 0 <= i < feeds.len() ==> from_channel(log, i) == #[trigger] feeds[i]
}

/// What each of `channels` channels took in, according to a log of what was taken in.
pub open spec fn feeds_of<T>(accepted: Seq<(int, T)>, channels: nat) -> Seq<Seq<T>> {
    Seq::new(channels, |i: int| from_channel(accepted, i))
}

/// Fan-in without loss: when a selector that started with open and empty channels says
/// `Finished`, all that it gave until then is an interleaving of what its channels took in.
pub proof fn law_finished_run_interleaves<T>(channels: nat, ops: Seq<Op<T>>)
    requires
        FanInView::<T>::fresh(channels).run(ops).state.select().1 is Finished,
    ensures
        interleaves(
            FanInView::<T>::fresh(channels).run(ops).emitted,
            feeds_of(FanInView::<T>::fresh(channels).run(ops).accepted, channels),
        ),
{
    let view = FanInView::<T>::fresh(channels);
    let outcome = view.run(ops);
    let feeds = feeds_of(outcome.accepted, channels);
    assert forall|k: int| 0 <= k < outcome.emitted.len() implies 0 <= (
    #[trigger] outcome.emitted[k]).0 < feeds.len() by {
        law_emitted_from_channels(view, ops, k);
    }
    assert forall|i: int| 0 <= i < feeds.len() implies from_channel(outcome.emitted, i)
        == #[trigger] feeds[i] by {
        law_finished_after_all(view, ops, i);
    }
}

/// Selections alone put nothing into a channel.
pub proof fn lemma_selecting_accepts_nothing<T>(view: FanInView<T>, count: nat)
    ensures
        view.run(selecting(count)).accepted == Seq::<(int, T)>::empty(),
    decreases count,
{
    let ops = selecting::<T>(count);
    if count > 0 {
        assert(ops.drop_first() =~= selecting::<T>((count - 1) as nat));
        lemma_selecting_accepts_nothing(view.perform(ops[0]).state, (count - 1) as nat);
    }
}

/// Draining to the end loses nothing: when selections in a row end with `Finished`, they
/// gave from each channel exactly what waited in it, in its order.
pub proof fn law_drained_to_the_end<T>(view: FanInView<T>, count: nat, i: int)
    requires
        0 <= i < view.len(),
        view.run(selecting(count)).state.select().1 is Finished,
    ensures
        from_channel(view.run(selecting(count)).emitted, i) == view.channels[i].queue,
{
    law_finished_after_all(view, selecting(count), i);
    lemma_selecting_accepts_nothing(view, count);
}

/// A quiet channel is no obstacle: when one channel alone has a message, the selection
/// serves it, wherever the round starts.
pub proof fn law_only_ready_channel_is_served<T>(view: FanInView<T>, b: int)
    requires
        view.ready(b),
        forall|i: int| i != b ==> !view.ready(i),
    ensures
        view.choice() == Some(b),
        view.select() == (
            view.take_from(b),
            Selected::Message { channel: b as usize, message: view.channels[b].queue[0] },
        ),
{
    lemma_choice(view);
}

/// No starvation: a channel with a message is served before the consumer has selected more
/// often than there are channels before it in the round, whatever is offered or closed
/// meanwhile. The first message that selections give from it is its head.
pub proof fn law_served_in_turn<T>(view: FanInView<T>, ops: Seq<Op<T>>, b: int)
    requires
        view.ready(b),
        selections(ops) > view.distance(b),
    ensures
        from_channel(view.run(ops).emitted, b).len() > 0,
        from_channel(view.run(ops).emitted, b)[0] == view.channels[b].queue[0],
    decreases ops.len(),
{
    let first = view.perform(ops[0]);
    let rest = first.state.run(ops.drop_first());
    lemma_choice(view);
    match ops[0] {
        Op::Offer { channel, message } => {
            law_served_in_turn(first.state, ops.drop_first(), b);
        },
        Op::Close { channel } => {
            law_served_in_turn(first.state, ops.drop_first(), b);
        },
        Op::Select => {
            let c = view.choice()->Some_0;
            lemma_from_channel_first(c, view.channels[c].queue[0], rest.emitted, b);
            if c != b {
                law_served_in_turn(first.state, ops.drop_first(), b);
            }
        },
    }
}

/// A channel with a message is served within one round: before the consumer has selected as
/// often as there are channels.
pub proof fn law_served_within_a_round<T>(view: FanInView<T>, ops: Seq<Op<T>>, b: int)
    requires
        view.ready(b),
        selections(ops) >= view.len(),
    ensures
        from_channel(view.run(ops).emitted, b).len() > 0,
        from_channel(view.run(ops).emitted, b)[0] == view.channels[b].queue[0],
{
    law_served_in_turn(view, ops, b);
}

/// A run with one more operation at its end is the run, then that operation.
pub proof fn lemma_run_then<T>(view: FanInView<T>, ops: Seq<Op<T>>, op: Op<T>)
    ensures
        view.run(ops.push(op)) == (Run {
            state: view.run(ops).state.perform(op).state,
            emitted: view.run(ops).emitted + view.run(ops).state.perform(op).emitted,
            accepted: view.run(ops).accepted + view.run(ops).state.perform(op).accepted,
        }),
    decreases ops.len(),
{
    let all = ops.push(op);
    if ops.len() == 0 {
        assert(all.drop_first() =~= ops);
        let last = view.perform(op);
        assert(last.state.run(ops).state == last.state);
    } else {
        let first = view.perform(ops[0]);
        assert(all.drop_first() =~= ops.drop_first().push(op));
        lemma_run_then(first.state, ops.drop_first(), op);
        let middle = first.state.run(ops.drop_first());
        let last = middle.state.perform(op);
        assert(first.emitted + (middle.emitted + last.emitted) =~= (first.emitted
            + middle.emitted) + last.emitted);
        assert(first.accepted + (middle.accepted + last.accepted) =~= (first.accepted
            + middle.accepted) + last.accepted);
    }
}

/// Shortening one queue by its head leaves one message fewer waiting.
pub proof fn lemma_queued_after_take<T>(channels: Seq<ChannelView<T>>, c: int)
    requires
        0 <= c < channels.len(),
        channels[c].queue.len() > 0,
    ensures
        queued_in(
            channels.update(
                c,
                ChannelView { queue: channels[c].queue.drop_first(), closed: channels[c].closed },
            ),
        ) + 1 == queued_in(channels),
    decreases channels.len(),
{
    let shorter = ChannelView { queue: channels[c].queue.drop_first(), closed: channels[c].closed };
    let after = channels.update(c, shorter);
    if c == channels.len() - 1 {
        assert(after.drop_last() =~= channels.drop_last());
    } else {
        assert(after.drop_last() =~= channels.drop_last().update(c, shorter));
        lemma_queued_after_take(channels.drop_last(), c);
    }
}

} // verus!
