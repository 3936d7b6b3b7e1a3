//! What a watcher does over many cycles: the events that a driver feeds it,
//! the actions that come back, and what they amount to in terms of the polls.

use crate::known::{
    appeared, lemma_appeared_is_difference, lemma_appeared_none, lemma_appeared_once,
};
use crate::model::{
    advance, initial, next, profile_link, ActionView, EventView, Stage, State, POLL_INTERVAL_SECS,
    STREAMS_URL,
};
use vstd::prelude::*;

verus! {

/// The state after the events were fed one by one, and the actions that were
/// answered, in order.
pub open spec fn run(s: State, events: Seq<EventView>) -> (State, Seq<ActionView>)
    decreases events.len(),
{
    if events.len() == 0 {
        (s, Seq::empty())
    } else {
        let (mid, action) = next(s, events[0]);
        let (end, actions) = run(mid, events.drop_first());
        (end, seq![action] + actions)
    }
}

/// One cycle as the driver lived it: what the fetch brought (`None` when it
/// failed), and for each announcement whether it arrived.
pub struct Cycle {
    pub poll: Option<Seq<Seq<char>>>,
    pub delivered: Seq<bool>,
}

/// The polls of a history, one for each cycle.
pub open spec fn polls_of(history: Seq<Cycle>) -> Seq<Option<Seq<Seq<char>>>> {
    history.map_values(|c: Cycle| c.poll)
}

/// The known set after a cycle that started with `known`: the page's set, or
/// `known` itself when the fetch failed.
pub open spec fn known_next(known: Set<Seq<char>>, poll: Option<Seq<Seq<char>>>) -> Set<Seq<char>> {
    match poll {
        Some(names) => names.to_set(),
        None => known,
    }
}

/// The identifiers announced in a cycle that started with `known`: those that
/// appeared on the page, or none when the fetch failed.
pub open spec fn announced(known: Set<Seq<char>>, poll: Option<Seq<Seq<char>>>) -> Seq<Seq<char>> {
    match poll {
        Some(names) => appeared(known, names),
        None => Seq::empty(),
    }
}

/// The known set after these polls, starting from the empty set.
pub open spec fn known_after(polls: Seq<Option<Seq<Seq<char>>>>) -> Set<Seq<char>>
    decreases polls.len(),
{
    if polls.len() == 0 {
        Set::empty()
    } else {
        known_next(known_after(polls.drop_last()), polls.last())
    }
}

/// The identifiers announced in cycle `i` of these polls.
pub open spec fn announced_at(polls: Seq<Option<Seq<Seq<char>>>>, i: int) -> Seq<Seq<char>> {
    announced(known_after(polls.take(i)), polls[i])
}

/// The reports of the announcements of one cycle.
pub open spec fn sent_events(delivered: Seq<bool>) -> Seq<EventView> {
    delivered.map_values(|d: bool| EventView::Sent(d))
}

/// The requests to announce these identifiers on `channel`.
pub open spec fn send_actions(channel: u64, names: Seq<Seq<char>>) -> Seq<ActionView> {
    names.map_values(|n: Seq<char>| ActionView::Send(channel, profile_link(n)))
}

/// The events of one cycle, from the answer to the fetch up to the wake-up
/// that starts the next cycle.
pub open spec fn cycle_events(cycle: Cycle) -> Seq<EventView> {
    let fetched = match cycle.poll {
        Some(names) => EventView::Fetched(names),
        None => EventView::FetchFailed,
    };
    seq![fetched] + sent_events(cycle.delivered) + seq![EventView::Woke]
}

/// The actions of a cycle that announces `names`: one send for each, the
/// sleep, and the next fetch.
pub open spec fn cycle_actions(channel: u64, names: Seq<Seq<char>>) -> Seq<ActionView> {
    send_actions(channel, names) + seq![
        ActionView::Sleep(POLL_INTERVAL_SECS),
        ActionView::Fetch(STREAMS_URL@),
    ]
}

/// The events of a whole history, after the readiness signal.
pub open spec fn history_events(history: Seq<Cycle>) -> Seq<EventView>
    decreases history.len(),
{
    if history.len() == 0 {
        Seq::empty()
    } else {
        history_events(history.drop_last()) + cycle_events(history.last())
    }
}

/// The actions that a history is to draw from a watcher, after the first fetch.
pub open spec fn history_actions(channel: u64, history: Seq<Cycle>) -> Seq<ActionView>
    decreases history.len(),
{
    if history.len() == 0 {
        Seq::empty()
    } else {
        history_actions(channel, history.drop_last()) + cycle_actions(
            channel,
            announced_at(polls_of(history), history.len() - 1),
        )
    }
}

/// A history in which the driver reported each announcement once, and nothing
/// else.
pub open spec fn answered(history: Seq<Cycle>) -> bool {
    forall|i: int|
        0 <= i < history.len() ==> (#[trigger] history[i]).delivered.len() == announced_at(
            polls_of(history),
            i,
        ).len()
}

/// A watcher in the middle of a fetch.
pub open spec fn polling(channel: u64, known: Set<Seq<char>>) -> State {
    State { channel, known, stage: Stage::Polling }
}

/// Feeding two runs of events one after the other is feeding their
/// concatenation.
pub proof fn lemma_run_concat(s: State, first: Seq<EventView>, second: Seq<EventView>)
    ensures
        run(s, first + second) == (
            run(run(s, first).0, second).0,
            run(s, first).1 + run(run(s, first).0, second).1,
        ),
    decreases first.len(),
{
    if first.len() == 0 {
        assert(first + second =~= second);
        assert(run(s, first).1 + run(s, second).1 =~= run(s, second).1);
    } else {
        let (mid, action) = next(s, first[0]);
        assert((first + second).drop_first() =~= first.drop_first() + second);
        assert((first + second)[0] == first[0]);
        lemma_run_concat(mid, first.drop_first(), second);
        let a = run(mid, first.drop_first());
        let b = run(a.0, second);
        assert(seq![action] + (a.1 + b.1) =~= (seq![action] + a.1) + b.1);
    }
}

/// Whether an announcement arrived makes no difference to what follows.
pub proof fn lemma_delivery_is_ignored(s: State, one: bool, other: bool)
    ensures
        next(s, EventView::Sent(one)) == next(s, EventView::Sent(other)),
{
}

/// A readiness signal starts an idle watcher and changes nothing in one that
/// has been started.
pub proof fn lemma_ready_starts_once(s: State)
    ensures
        s.stage is Idle ==> next(s, EventView::Ready) == (
            polling(s.channel, s.known),
            ActionView::Fetch(STREAMS_URL@),
        ),
        !(s.stage is Idle) ==> next(s, EventView::Ready) == (s, ActionView::Wait),
{
}

/// Cycles do not overlap: a fetch is asked for only by a watcher that is idle
/// or asleep, never while a fetch is in flight or announcements are left, and
/// a watcher goes to sleep only when a fetch failed or nothing is left to
/// announce.
pub proof fn lemma_cycles_do_not_overlap(s: State, event: EventView)
    ensures
        next(s, event).1 is Fetch ==> (s.stage is Idle || s.stage is Sleeping) && next(
            s,
            event,
        ).0.stage is Polling,
        next(s, event).1 is Send ==> next(s, event).0.stage is Diffing,
        next(s, event).1 is Sleep ==> next(s, event).0.stage is Sleeping && match s.stage {
            Stage::Polling => event is FetchFailed || (event is Fetched && appeared(
                s.known,
                event->Fetched_0,
            ).len() == 0),
            Stage::Diffing { outbox, .. } => event is Sent && outbox.len() == 0,
            _ => false,
        },
        next(s, event).1 is Wait ==> next(s, event).0 == s,
        next(s, event).0.channel == s.channel,
{
}

/// A failed fetch announces nothing and leaves the known set as it was.
pub proof fn lemma_failed_fetch_keeps_known(s: State)
    requires
        s.stage is Polling,
    ensures
        next(s, EventView::FetchFailed) == (
            State { channel: s.channel, known: s.known, stage: Stage::Sleeping },
            ActionView::Sleep(POLL_INTERVAL_SECS),
        ),
{
}

/// Once a page is fetched, the watcher announces what is left in its outbox,
/// one identifier for each report, and then sleeps with the fresh set as the
/// known one.
proof fn lemma_drain(s: State, delivered: Seq<bool>)
    requires
        s.stage is Diffing,
        delivered.len() == s.stage->outbox.len(),
    ensures
        ({
            let (first, action) = advance(s);
            let (end, actions) = run(first, sent_events(delivered));
            &&& end == (State {
                channel: s.channel,
                known: s.stage->fresh,
                stage: Stage::Sleeping,
            })
            &&& seq![action] + actions == send_actions(s.channel, s.stage->outbox).push(
                ActionView::Sleep(POLL_INTERVAL_SECS),
            )
        }),
    decreases delivered.len(),
{
    let outbox = s.stage->outbox;
    let (first, action) = advance(s);
    let events = sent_events(delivered);
    if delivered.len() == 0 {
        assert(seq![action] + run(first, events).1 =~= send_actions(s.channel, outbox).push(
            ActionView::Sleep(POLL_INTERVAL_SECS),
        ));
    } else {
        assert(events.drop_first() =~= sent_events(delivered.drop_first()));
        assert(next(first, events[0]) == advance(first));
        lemma_drain(first, delivered.drop_first());
        let rest = send_actions(s.channel, outbox.drop_first()).push(
            ActionView::Sleep(POLL_INTERVAL_SECS),
        );
        assert(seq![action] + rest =~= send_actions(s.channel, outbox).push(
            ActionView::Sleep(POLL_INTERVAL_SECS),
        ));
    }
}

/// Feeding a single event is one step.
proof fn lemma_run_one(s: State, event: EventView)
    ensures
        run(s, seq![event]) == (next(s, event).0, seq![next(s, event).1]),
{
    let events = seq![event];
    assert(events.drop_first() =~= Seq::<EventView>::empty());
    assert(run(next(s, event).0, events.drop_first()).1 =~= Seq::<ActionView>::empty());
    assert(seq![next(s, event).1] + Seq::<ActionView>::empty() =~= seq![next(s, event).1]);
}

/// One cycle of a polling watcher. After a successful fetch it announces the
/// identifiers that appeared, each in its turn and whatever becomes of the
/// sends, and the page's set replaces the known one. After a failed fetch it
/// announces nothing and keeps the known set. Either way it sleeps and fetches
/// again.
pub proof fn lemma_cycle(channel: u64, known: Set<Seq<char>>, cycle: Cycle)
    requires
        cycle.delivered.len() == announced(known, cycle.poll).len(),
    ensures
        run(polling(channel, known), cycle_events(cycle)) == (
            polling(channel, known_next(known, cycle.poll)),
            cycle_actions(channel, announced(known, cycle.poll)),
        ),
{
    let s = polling(channel, known);
    let fetched = match cycle.poll {
        Some(names) => EventView::Fetched(names),
        None => EventView::FetchFailed,
    };
    let sents = sent_events(cycle.delivered);
    let sleep = ActionView::Sleep(POLL_INTERVAL_SECS);
    let fetch = ActionView::Fetch(STREAMS_URL@);
    let asleep = State { channel, known: known_next(known, cycle.poll), stage: Stage::Sleeping };
    let sends = send_actions(channel, announced(known, cycle.poll));

    lemma_run_one(s, fetched);
    lemma_run_concat(s, seq![fetched], sents);
    let (first, action) = next(s, fetched);
    let through = run(s, seq![fetched] + sents);
    assert(through.0 == asleep && through.1 == sends.push(sleep)) by {
        match cycle.poll {
            Some(names) => {
                let diffing = State {
                    channel,
                    known,
                    stage: Stage::Diffing { fresh: names.to_set(), outbox: appeared(known, names) },
                };
                lemma_drain(diffing, cycle.delivered);
            },
            None => {
                assert(sents =~= Seq::<EventView>::empty());
                assert(seq![action] + Seq::<ActionView>::empty() =~= sends.push(sleep));
            },
        }
    }
    lemma_run_one(asleep, EventView::Woke);
    lemma_run_concat(s, seq![fetched] + sents, seq![EventView::Woke]);
    assert(sends.push(sleep) + seq![fetch] =~= sends + seq![sleep, fetch]);
}

/// A watcher that was started and then driven through a history has announced,
/// cycle by cycle, exactly the identifiers that appeared since the last
/// successful poll, and knows the set of the last successful poll.
pub proof fn lemma_history(channel: u64, history: Seq<Cycle>)
    requires
        answered(history),
    ensures
        next(initial(channel), EventView::Ready) == (
            polling(channel, Set::empty()),
            ActionView::Fetch(STREAMS_URL@),
        ),
        run(polling(channel, Set::empty()), history_events(history)) == (
            polling(channel, known_after(polls_of(history))),
            history_actions(channel, history),
        ),
    decreases history.len(),
{
    if history.len() > 0 {
        let before = history.drop_last();
        let last = history.last();
        let polls = polls_of(history);
        let n = history.len() - 1;
        assert(polls_of(before) =~= polls.drop_last());
        assert(polls.take(n) =~= polls.drop_last());
        assert(polls[n] == last.poll);
        assert(answered(before)) by {
            assert forall|i: int| 0 <= i < before.len() implies (#[trigger] before[i]).delivered.len()
                == announced_at(polls_of(before), i).len() by {
                assert(before[i] == history[i]);
                assert(polls_of(before).take(i) =~= polls.take(i));
            }
        }
        lemma_history(channel, before);
        assert(history[n].delivered.len() == announced_at(polls, n).len());
        lemma_cycle(channel, known_after(polls_of(before)), last);
        lemma_run_concat(polling(channel, Set::empty()), history_events(before), cycle_events(last));
    }
}

/// The set of poll `j`, or the empty set for `j == -1`, which stands for the
/// time before the first poll.
pub open spec fn set_at(polls: Seq<Option<Seq<Seq<char>>>>, j: int) -> Set<Seq<char>> {
    if 0 <= j < polls.len() && polls[j] is Some {
        polls[j]->0.to_set()
    } else {
        Set::empty()
    }
}

/// Poll `j` is the last one before poll `i` that succeeded; `j == -1` says
/// that none did.
pub open spec fn last_success_before(polls: Seq<Option<Seq<Seq<char>>>>, i: int, j: int) -> bool {
    &&& -1 <= j < i <= polls.len()
    &&& j >= 0 ==> polls[j] is Some
    &&& forall|k: int| j < k < i ==> (#[trigger] polls[k]) is None
}

/// Failed polls are skipped: when poll `i` is made, the known set is the set of
/// the last poll that succeeded, and empty when none did.
pub proof fn lemma_known_is_last_success(polls: Seq<Option<Seq<Seq<char>>>>, i: int, j: int)
    requires
        last_success_before(polls, i, j),
    ensures
        known_after(polls.take(i)) == set_at(polls, j),
    decreases i,
{
    let upto = polls.take(i);
    if i > 0 {
        assert(upto.last() == polls[i - 1]);
        assert(upto.drop_last() =~= polls.take(i - 1));
        if j < i - 1 {
            lemma_known_is_last_success(polls, i - 1, j);
        }
    }
}

/// The identifiers announced at a successful poll are, as a set, that poll's
/// set without the set of the last successful poll before it, and none of
/// them is announced twice.
pub proof fn lemma_announced_is_difference(polls: Seq<Option<Seq<Seq<char>>>>, i: int, j: int)
    requires
        0 <= i < polls.len(),
        polls[i] is Some,
        last_success_before(polls, i, j),
    ensures
        announced_at(polls, i).to_set() == set_at(polls, i).difference(set_at(polls, j)),
        announced_at(polls, i).no_duplicates(),
{
    lemma_known_is_last_success(polls, i, j);
    lemma_appeared_is_difference(set_at(polls, j), polls[i]->0);
    lemma_appeared_once(set_at(polls, j), polls[i]->0);
}

/// A poll that shows the same set as the last successful one announces
/// nothing.
pub proof fn lemma_same_set_is_silent(polls: Seq<Option<Seq<Seq<char>>>>, i: int, j: int)
    requires
        0 <= i < polls.len(),
        polls[i] is Some,
        last_success_before(polls, i, j),
        set_at(polls, i) == set_at(polls, j),
    ensures
        announced_at(polls, i).len() == 0,
{
    lemma_known_is_last_success(polls, i, j);
    lemma_appeared_none(set_at(polls, j), polls[i]->0);
}

/// A failed poll announces nothing and leaves the known set exactly as it
/// was, so that the next poll is diffed against the same set.
pub proof fn lemma_failure_changes_nothing(polls: Seq<Option<Seq<Seq<char>>>>, i: int)
    requires
        0 <= i < polls.len(),
        polls[i] is None,
    ensures
        announced_at(polls, i).len() == 0,
        known_after(polls.take(i + 1)) == known_after(polls.take(i)),
        i + 1 < polls.len() ==> announced_at(polls, i + 1) == announced(
            known_after(polls.take(i)),
            polls[i + 1],
        ),
{
    let upto = polls.take(i + 1);
    assert(upto.last() == polls[i]);
    assert(upto.drop_last() =~= polls.take(i));
}

} // verus!
