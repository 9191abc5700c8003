//! What holds of the bridge over whole runs of events.
use crate::bridge::{BridgeState, Effect, Event, Phase};
use crate::connection::{delivered, LinkState};
use crate::pair::{in_range, ControlPair};
use crate::wire::{lemma_wire_format_len, wire_format};
use vstd::prelude::*;

verus! {

/// The state after a run of events, and what the caller was asked to do
/// after each of them.
pub open spec fn run(start: BridgeState, events: Seq<Event>) -> (BridgeState, Seq<Effect>)
    decreases events.len(),
{
    if events.len() == 0 {
        (start, Seq::empty())
    } else {
        let (before, effects) = run(start, events.drop_last());
        let (after, effect) = before.next(events.last());
        (after, effects.push(effect))
    }
}

/// How many outcomes the bridge may still ask for before it falls idle.
pub open spec fn pending(phase: Phase) -> nat {
    match phase {
        Phase::Idle => 0,
        Phase::Reconnecting => 1,
        Phase::Writing { .. } => 2,
        Phase::Connecting { .. } => 3,
    }
}

/// Whether `event` reports the outcome of something the bridge asked for.
pub open spec fn is_outcome(event: Event) -> bool {
    event is ConnectFinished || event is WriteFinished
}

/// No event leads out of the well-formed states.
pub proof fn lemma_next_preserves_wf(s: BridgeState, event: Event)
    requires
        s.wf(),
    ensures
        s.next(event).0.wf(),
{
}

/// No run of events leads out of the well-formed states, and every event of
/// the run is answered.
pub proof fn lemma_run_preserves_wf(s: BridgeState, events: Seq<Event>)
    requires
        s.wf(),
    ensures
        run(s, events).0.wf(),
        run(s, events).1.len() == events.len(),
    decreases events.len(),
{
    if events.len() > 0 {
        lemma_run_preserves_wf(s, events.drop_last());
        lemma_next_preserves_wf(run(s, events.drop_last()).0, events.last());
    }
}

/// The bridge hands control back to the host exactly when it awaits nothing.
pub proof fn lemma_continue_means_idle(s: BridgeState, event: Event)
    ensures
        s.next(event).1 is Continue <==> s.next(event).0.phase is Idle,
{
}

/// Every outcome brings the bridge closer to handing control back, and an
/// idle bridge stays idle until the next block or start-up.
pub proof fn lemma_outcomes_make_progress(s: BridgeState, event: Event)
    requires
        is_outcome(event),
    ensures
        s.phase is Idle ==> s.next(event).0.phase is Idle,
        s.phase !is Idle ==> pending(s.next(event).0.phase) < pending(s.phase),
{
}

/// A block, or a start-up, is over after at most three outcomes: the bridge
/// never asks for more than three connects and writes before it hands
/// control back.
pub proof fn lemma_block_settles(
    s: BridgeState,
    start: Event,
    first: Event,
    second: Event,
    third: Event,
)
    requires
        is_outcome(first),
        is_outcome(second),
        is_outcome(third),
    ensures
        run(s, seq![start, first, second, third]).0.phase is Idle,
        run(s, seq![start, first, second, third]).1[3] is Continue,
{
    let events = seq![start, first, second, third];
    let e3 = events.drop_last();
    let e2 = e3.drop_last();
    let e1 = e2.drop_last();
    let e0 = e1.drop_last();
    assert(e0.len() == 0);
    assert(e1.last() == start && e2.last() == first && e3.last() == second && events.last()
        == third);
    let s1 = s.next(start).0;
    assert(run(s, e0).0 == s);
    assert(run(s, e1).0 == s1);
    let s2 = s1.next(first).0;
    assert(run(s, e2).0 == s2);
    let s3 = s2.next(second).0;
    assert(run(s, e3).0 == s3);
    lemma_outcomes_make_progress(s1, first);
    lemma_outcomes_make_progress(s2, second);
    lemma_outcomes_make_progress(s3, third);
    lemma_continue_means_idle(s3, third);
}

/// A block whose channel or level lies outside its range is ignored: nothing
/// is observed, nothing is asked of the connection, and what is remembered
/// as delivered stays.
pub proof fn lemma_out_of_range_is_ignored(s: BridgeState, channel: i32, value: i32)
    requires
        !in_range(channel as int, value as int),
    ensures
        s.next(Event::Block { channel, value }) == (s.idle(), Effect::Continue),
{
}

/// Whatever the bridge hands out for writing is the wire format of a valid
/// pair, the one whose write it then awaits.
pub proof fn lemma_only_valid_pairs_are_written(s: BridgeState, event: Event)
    requires
        s.wf(),
    ensures
        s.next(event).1 matches Effect::Write(bytes) ==> {
            &&& s.next(event).0.phase matches Phase::Writing { pair }
            &&& pair.is_valid()
            &&& bytes == wire_format(pair)
        },
{
}

/// Over a whole run, nothing but the wire format of valid pairs is handed
/// out for writing.
pub proof fn lemma_runs_write_valid_pairs(s: BridgeState, events: Seq<Event>, i: int)
    requires
        s.wf(),
        0 <= i < events.len(),
    ensures
        run(s, events).1[i] matches Effect::Write(bytes) ==> exists|pair: ControlPair|
            pair.is_valid() && bytes == #[trigger] wire_format(pair),
    decreases events.len(),
{
    let shorter = events.drop_last();
    lemma_run_preserves_wf(s, shorter);
    if i < shorter.len() {
        lemma_runs_write_valid_pairs(s, shorter, i);
    } else {
        let before = run(s, shorter).0;
        lemma_only_valid_pairs_are_written(before, events.last());
        if let Effect::Write(bytes) = before.next(events.last()).1 {
            let pair = before.next(events.last()).0.phase->Writing_pair;
            assert(pair.is_valid() && bytes == wire_format(pair));
        }
    }
}

/// What is remembered as delivered changes only when a write is reported
/// to have taken every byte of the pair that was handed out, and then it
/// becomes that pair. A failed or partial write, a failed connect, a block:
/// none of them touches it.
pub proof fn lemma_commit_only_on_delivery(s: BridgeState, event: Event)
    requires
        s.wf(),
    ensures
        s.next(event).0.last_sent != s.last_sent ==> {
            &&& s.phase matches Phase::Writing { pair }
            &&& event matches Event::WriteFinished { written }
            &&& delivered(s.link, wire_format(pair).len(), written)
            &&& s.next(event).0.last_sent == pair
        },
{
}

/// A bridge that has delivered nothing answers the first valid pair by
/// setting out to send it.
pub proof fn lemma_first_block_is_sent(link: LinkState, channel: i32, value: i32)
    requires
        in_range(channel as int, value as int),
    ensures
        ({
            let s = BridgeState { link, ..BridgeState::initial() };
            s.next(Event::Block { channel, value }) == s.begin_send(
                ControlPair { channel, value },
            )
        }),
        BridgeState::initial().next(Event::Block { channel, value }).1 is Connect,
{
}

/// A block that reads the pair last delivered asks nothing of the
/// connection and changes nothing.
pub proof fn lemma_unchanged_pair_is_silent(s: BridgeState)
    ensures
        s.next(Event::Block { channel: s.last_sent.channel, value: s.last_sent.value }) == (
            s.idle(),
            Effect::Continue,
        ),
{
}

/// However often a block reads the pair last delivered, nothing is ever
/// asked of the connection.
pub proof fn lemma_repeated_unchanged_blocks_are_silent(s: BridgeState, events: Seq<Event>)
    requires
        events.len() > 0,
        forall|i: int|
            0 <= i < events.len() ==> events[i] == (Event::Block {
                channel: s.last_sent.channel,
                value: s.last_sent.value,
            }),
    ensures
        run(s, events).0 == s.idle(),
        run(s, events).1.len() == events.len(),
        forall|i: int| 0 <= i < events.len() ==> run(s, events).1[i] is Continue,
    decreases events.len(),
{
    let shorter = events.drop_last();
    if shorter.len() == 0 {
        lemma_unchanged_pair_is_silent(s);
    } else {
        lemma_repeated_unchanged_blocks_are_silent(s, shorter);
        lemma_unchanged_pair_is_silent(s.idle());
    }
}

/// A block within the ranges is sent exactly when its pair differs from the
/// pair last delivered.
pub proof fn lemma_block_is_sent_iff_changed(s: BridgeState, channel: i32, value: i32)
    requires
        in_range(channel as int, value as int),
    ensures
        ({
            let pair = ControlPair { channel, value };
            let answer = s.next(Event::Block { channel, value });
            &&& pair == s.last_sent ==> answer == (s.idle(), Effect::Continue)
            &&& pair != s.last_sent ==> answer == s.begin_send(pair) && !(answer.1 is Continue)
        }),
{
}

/// Two blocks in a row, the first of which has just been delivered: the
/// second is sent exactly when its pair differs from the first, and is
/// passed over when it is the same.
pub proof fn lemma_change_detection(
    s: BridgeState,
    written: Option<usize>,
    channel: i32,
    value: i32,
)
    requires
        s.wf(),
        s.phase is Writing,
        delivered(s.link, wire_format(s.phase->Writing_pair).len(), written),
        in_range(channel as int, value as int),
    ensures
        ({
            let first = s.phase->Writing_pair;
            let second = ControlPair { channel, value };
            let (after, _) = s.next(Event::WriteFinished { written });
            let (_, effect) = after.next(Event::Block { channel, value });
            &&& after.last_sent == first
            &&& second == first ==> effect is Continue
            &&& second != first ==> effect == Effect::Write(wire_format(second))
        }),
{
}

/// A send that fails on a live connection drops the connection and asks for
/// a fresh connect. What is remembered as delivered stays, so the next block
/// that reads the same pair sets out to send it again: over the fresh
/// connection if the connect succeeded, after a further connect attempt if
/// not. Once a write of it is complete, the pair is remembered as delivered.
pub proof fn lemma_reconnect_on_failure(
    s: BridgeState,
    written: Option<usize>,
    reconnected: bool,
    rewritten: Option<usize>,
)
    requires
        s.wf(),
        s.phase is Writing,
        !delivered(s.link, wire_format(s.phase->Writing_pair).len(), written),
    ensures
        ({
            let pair = s.phase->Writing_pair;
            let (failed, asked) = s.next(Event::WriteFinished { written });
            let (settled, done) = failed.next(Event::ConnectFinished { connected: reconnected });
            let (retrying, retry) = settled.next(
                Event::Block { channel: pair.channel, value: pair.value },
            );
            &&& asked is Connect
            &&& failed.link is Disconnected
            &&& failed.last_sent == s.last_sent
            &&& done is Continue
            &&& settled == (BridgeState {
                last_sent: s.last_sent,
                link: if reconnected {
                    LinkState::Connected
                } else {
                    LinkState::Disconnected
                },
                phase: Phase::Idle,
            })
            &&& reconnected ==> retry == Effect::Write(wire_format(pair))
            &&& !reconnected ==> retry is Connect
            &&& reconnected && delivered(LinkState::Connected, wire_format(pair).len(), rewritten)
                ==> retrying.next(Event::WriteFinished { written: rewritten }) == (
                BridgeState { last_sent: pair, ..settled },
                Effect::Continue,
            )
        }),
{
}

/// The link comes up only when a connect attempt that was asked for
/// succeeds, and goes down only when a write that was asked for fails or
/// takes less than it was given.
pub proof fn lemma_link_transitions(s: BridgeState, event: Event)
    requires
        s.wf(),
    ensures
        s.link is Disconnected && s.next(event).0.link is Connected ==> {
            &&& event == (Event::ConnectFinished { connected: true })
            &&& s.phase is Connecting || s.phase is Reconnecting
        },
        s.link is Connected && s.next(event).0.link is Disconnected ==> {
            &&& s.phase matches Phase::Writing { pair }
            &&& event matches Event::WriteFinished { written }
            &&& !delivered(s.link, wire_format(pair).len(), written)
        },
{
}

/// There is no state the bridge cannot recover from: whatever happened
/// before, a changed pair is delivered by the next block if the connect
/// attempt, where one is needed, succeeds and the write is complete.
pub proof fn lemma_delivery_is_always_possible(s: BridgeState, channel: i32, value: i32)
    requires
        s.wf(),
        in_range(channel as int, value as int),
        s.last_sent != (ControlPair { channel, value }),
    ensures
        ({
            let pair = ControlPair { channel, value };
            let complete = Event::WriteFinished {
                written: Some(wire_format(pair).len() as usize),
            };
            let (begun, first) = s.next(Event::Block { channel, value });
            let (writing, second) = match s.link {
                LinkState::Connected => (begun, first),
                LinkState::Disconnected => begun.next(Event::ConnectFinished { connected: true }),
            };
            &&& s.link is Disconnected ==> first is Connect
            &&& second == Effect::Write(wire_format(pair))
            &&& writing.next(complete) == (
                BridgeState { last_sent: pair, link: LinkState::Connected, phase: Phase::Idle },
                Effect::Continue,
            )
        }),
{
    lemma_wire_format_len(ControlPair { channel, value });
}

} // verus!
