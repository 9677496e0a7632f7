//! The queue in which the engine collects events between two dispatch rounds.
use vstd::prelude::*;

use crate::events::{event_level, EngineEvent};

verus! {

/// Whether the priority levels of `s` never increase from front to back.
pub open spec fn levels_descending<V, F, R>(s: Seq<EngineEvent<V, F, R>>) -> bool {
    forall|i: int, j: int| 0 <= i < j < s.len() ==> event_level(s[i]) >= event_level(s[j])
}

/// Whether `after` is `before` with `e` put in at the place that keeps the
/// levels descending, behind every event of a strictly higher level and in
/// front of every other event.
pub open spec fn queued_at<V, F, R>(
    before: Seq<EngineEvent<V, F, R>>,
    e: EngineEvent<V, F, R>,
    after: Seq<EngineEvent<V, F, R>>,
    p: int,
) -> bool {
    &&& 0 <= p <= before.len()
    &&& after == before.insert(p, e)
    &&& forall|i: int| 0 <= i < p ==> event_level(before[i]) > event_level(e)
    &&& forall|i: int| p <= i < before.len() ==> event_level(before[i]) <= event_level(e)
}

/// The events waiting for dispatch.
///
/// The abstract view is the sequence of waiting events ordered from the
/// front to the back; the event at the back is the next to leave.  The levels
/// descend from front to back, so the next to leave always has the lowest
/// level, and among events of one level the one that came first leaves first.
pub struct EventQueue<V, F, R> {
    items: Vec<EngineEvent<V, F, R>>,
}

impl<V, F, R> View for EventQueue<V, F, R> {
    type V = Seq<EngineEvent<V, F, R>>;

    closed spec fn view(&self) -> Seq<EngineEvent<V, F, R>> {
        self.items@
    }
}

impl<V, F, R> EventQueue<V, F, R> {
    /// The queue keeps its events with descending levels.
    pub open spec fn wf(&self) -> bool {
        levels_descending(self@)
    }
}

impl<V: Copy, F: Copy, R> EventQueue<V, F, R> {
    /// An empty queue.
    pub fn new() -> (q: Self)
        ensures
            q.wf(),
            q@ == Seq::<EngineEvent<V, F, R>>::empty(),
    {
        EventQueue { items: Vec::new() }
    }

    /// The number of waiting events.
    pub fn len(&self) -> (r: usize)
        ensures
            r == self@.len(),
    {
        self.items.len()
    }

    /// Whether no event is waiting.
    pub fn is_empty(&self) -> (r: bool)
        ensures
            r == (self@.len() == 0),
    {
        self.items.len() == 0
    }

    /// Adds an event: it goes behind every waiting event of a strictly higher
    /// level and in front of all others, so it leaves after every waiting
    /// event of the same or a lower level.
    pub fn push(&mut self, e: EngineEvent<V, F, R>)
        requires
            old(self).wf(),
        ensures
            final(self).wf(),
            exists|p: int| queued_at(old(self)@, e, final(self)@, p),
    {
        let n = self.items.len();
        let mut p: usize = 0;
        while p < n && e.priority().level() < self.items[p].priority().level()
            invariant
                n == self.items.len(),
                self.items@ == old(self).items@,
                p <= n,
                forall|i: int| 0 <= i < p ==> event_level(self.items@[i]) > event_level(e),
            decreases n - p,
        {
            p = p + 1;
        }
        proof {
            if p < n {
                assert(event_level(self.items@[p as int]) <= event_level(e));
            }
        }
        self.items.insert(p, e);
        proof {
            let s = old(self).items@;
            let t = self.items@;
            assert forall|i: int, j: int| 0 <= i < j < t.len() implies event_level(t[i])
                >= event_level(t[j]) by {
                if j < p {
                } else if j == p {
                } else if i < p {
                    assert(t[j] == s[j - 1]);
                } else if i == p {
                    assert(t[j] == s[j - 1]);
                } else {
                    assert(t[i] == s[i - 1]);
                    assert(t[j] == s[j - 1]);
                }
            }
            assert(queued_at(s, e, t, p as int));
            assert(s == old(self)@ && t == self@);
        }
    }

    /// Takes out the event at the back, which has the lowest level of all
    /// waiting events; `None` when the queue is empty.
    pub fn pop(&mut self) -> (r: Option<EngineEvent<V, F, R>>)
        requires
            old(self).wf(),
        ensures
            final(self).wf(),
            old(self)@.len() == 0 ==> r is None && final(self)@ == old(self)@,
            old(self)@.len() > 0 ==> r == Some(old(self)@.last()) && final(self)@
                == old(self)@.drop_last(),
            r matches Some(e) ==> forall|i: int|
                0 <= i < old(self)@.len() ==> event_level(e) <= event_level(#[trigger] old(self)@[i]),
    {
        self.items.pop()
    }

    /// Takes out every waiting event, in the order in which the engine
    /// dispatches them: the order of successive `pop`s, so the levels never
    /// decrease along the result.
    pub fn drain(&mut self) -> (r: Vec<EngineEvent<V, F, R>>)
        requires
            old(self).wf(),
        ensures
            final(self).wf(),
            final(self)@ == Seq::<EngineEvent<V, F, R>>::empty(),
            r@ == old(self)@.reverse(),
            levels_ascending(r@),
    {
        let mut out: Vec<EngineEvent<V, F, R>> = Vec::new();
        let ghost all = self@;
        while self.items.len() > 0
            invariant
                self.wf(),
                levels_descending(all),
                self@ == all.take(self@.len() as int),
                self@.len() <= all.len(),
                out@ == all.skip(self@.len() as int).reverse(),
            decreases self@.len(),
        {
            let ghost k: int = self@.len() as int;
            let e = self.pop();
            match e {
                Some(e) => {
                    out.push(e);
                    assert(self@ =~= all.take(k - 1));
                    assert(out@ =~= all.skip(k - 1).reverse()) by {
                        assert(all.skip(k - 1) =~= seq![all[k - 1]] + all.skip(k));
                    }
                },
                None => {},
            }
        }
        assert(all.skip(0) =~= all);
        proof {
            descending_reversed_is_ascending(all);
        }
        out
    }
}

/// Whether the priority levels of `s` never decrease from front to back.
pub open spec fn levels_ascending<V, F, R>(s: Seq<EngineEvent<V, F, R>>) -> bool {
    forall|i: int, j: int| 0 <= i < j < s.len() ==> event_level(s[i]) <= event_level(s[j])
}

/// Reversing a sequence whose levels descend gives one whose levels ascend.
pub proof fn descending_reversed_is_ascending<V, F, R>(s: Seq<EngineEvent<V, F, R>>)
    requires
        levels_descending(s),
    ensures
        levels_ascending(s.reverse()),
{
    assert forall|i: int, j: int| 0 <= i < j < s.reverse().len() implies event_level(
        s.reverse()[i],
    ) <= event_level(s.reverse()[j]) by {
        assert(s.reverse()[i] == s[s.len() - 1 - i]);
        assert(s.reverse()[j] == s[s.len() - 1 - j]);
    }
}

/// Law: two successive `pop`s from a well-formed queue hand out events whose
/// levels do not decrease.
pub proof fn successive_pops_ascend<V, F, R>(
    q0: Seq<EngineEvent<V, F, R>>,
    e1: EngineEvent<V, F, R>,
    q1: Seq<EngineEvent<V, F, R>>,
    e2: EngineEvent<V, F, R>,
)
    requires
        levels_descending(q0),
        q0.len() > 0,
        e1 == q0.last(),
        q1 == q0.drop_last(),
        q1.len() > 0,
        e2 == q1.last(),
    ensures
        event_level(e1) <= event_level(e2),
{
    assert(e2 == q0[q0.len() - 2]);
}

/// Law: `push` adds exactly the pushed event to what waits in the queue.
pub proof fn push_adds_exactly_the_event<V, F, R>(
    before: Seq<EngineEvent<V, F, R>>,
    e: EngineEvent<V, F, R>,
    after: Seq<EngineEvent<V, F, R>>,
    p: int,
)
    requires
        queued_at(before, e, after, p),
    ensures
        after.to_multiset() == before.to_multiset().insert(e),
{
    vstd::seq_lib::to_multiset_insert(before, p, e);
}

/// Law: among events of one priority, the one pushed first leaves first.
/// After `e` is pushed, every waiting event of the same level stands behind
/// it (at a larger index, so it is popped earlier), and every waiting event of
/// a strictly higher level stands in front of it (it is popped later).
pub proof fn equal_levels_leave_in_arrival_order<V, F, R>(
    before: Seq<EngineEvent<V, F, R>>,
    e: EngineEvent<V, F, R>,
    after: Seq<EngineEvent<V, F, R>>,
    p: int,
)
    requires
        queued_at(before, e, after, p),
    ensures
        after[p] == e,
        forall|i: int|
            0 <= i < before.len() && event_level(before[i]) == event_level(e) ==> i + 1 > p
                && after[i + 1] == before[i],
        forall|i: int|
            0 <= i < before.len() && event_level(before[i]) > event_level(e) ==> i < p && after[i]
                == before[i],
{
    assert forall|i: int|
        0 <= i < before.len() && event_level(before[i]) == event_level(e) implies i + 1 > p
        && after[i + 1] == before[i] by {
        if i < p {
            assert(event_level(before[i]) > event_level(e));
        }
    }
    assert forall|i: int|
        0 <= i < before.len() && event_level(before[i]) > event_level(e) implies i < p && after[i]
        == before[i] by {
        if i >= p {
            assert(event_level(before[i]) <= event_level(e));
        }
    }
}

} // verus!

verus! {

/// Putting an event in at its place keeps the levels descending.
pub proof fn queued_at_keeps_levels_descending<V, F, R>(
    before: Seq<EngineEvent<V, F, R>>,
    e: EngineEvent<V, F, R>,
    after: Seq<EngineEvent<V, F, R>>,
    p: int,
)
    requires
        levels_descending(before),
        queued_at(before, e, after, p),
    ensures
        levels_descending(after),
{
    assert forall|i: int, j: int| 0 <= i < j < after.len() implies event_level(after[i])
        >= event_level(after[j]) by {
        if j < p {
            assert(after[i] == before[i] && after[j] == before[j]);
        } else if j == p {
            assert(after[i] == before[i]);
        } else if i < p {
            assert(after[i] == before[i] && after[j] == before[j - 1]);
        } else if i == p {
            assert(after[j] == before[j - 1]);
        } else {
            assert(after[i] == before[i - 1] && after[j] == before[j - 1]);
        }
    }
}

/// Whether `states` is the run of queue contents when `events` are pushed,
/// one after the other, into an empty queue: `states[0]` is empty and
/// `states[i + 1]` is what `push(events[i])` makes of `states[i]`.
pub open spec fn push_run<V, F, R>(
    events: Seq<EngineEvent<V, F, R>>,
    states: Seq<Seq<EngineEvent<V, F, R>>>,
) -> bool {
    &&& states.len() == events.len() + 1
    &&& states[0] == Seq::<EngineEvent<V, F, R>>::empty()
    &&& forall|i: int|
        #![trigger states[i]]
        0 <= i < events.len() ==> exists|p: int| #[trigger]
            queued_at(states[i], events[i], states[i + 1], p)
}

/// Law: one round of the engine.  Pushing any events into an empty queue and
/// then draining it dispatches every pushed event exactly once (the drained
/// sequence has the same multiset as the pushed one) and in ascending order
/// of level: every `Low` event before every `Medium` one before every `High`
/// one.  The drained sequence is the reverse of the queue's last state, as
/// `drain` ensures.
pub proof fn round_dispatches_each_event_once_in_level_order<V, F, R>(
    events: Seq<EngineEvent<V, F, R>>,
    states: Seq<Seq<EngineEvent<V, F, R>>>,
)
    requires
        push_run(events, states),
    ensures
        levels_descending(states.last()),
        states.last().reverse().to_multiset() == events.to_multiset(),
        levels_ascending(states.last().reverse()),
{
    round_prefix(events, states, events.len() as int);
    states.last().lemma_reverse_to_multiset();
    assert(events.take(events.len() as int) == events);
    descending_reversed_is_ascending(states.last());
}

proof fn round_prefix<V, F, R>(
    events: Seq<EngineEvent<V, F, R>>,
    states: Seq<Seq<EngineEvent<V, F, R>>>,
    k: int,
)
    requires
        push_run(events, states),
        0 <= k <= events.len(),
    ensures
        levels_descending(states[k]),
        states[k].to_multiset() == events.take(k).to_multiset(),
    decreases k,
{
    broadcast use vstd::seq_lib::to_multiset_build;

    if k == 0 {
        assert(events.take(0) =~= Seq::<EngineEvent<V, F, R>>::empty());
        assert(states[0].to_multiset() =~= events.take(0).to_multiset()) by {
            broadcast use vstd::seq_lib::to_multiset_len;
            broadcast use vstd::multiset::group_multiset_axioms;
        }
    } else {
        round_prefix(events, states, k - 1);
        let p = choose|p: int| #[trigger] queued_at(states[k - 1], events[k - 1], states[k], p);
        queued_at_keeps_levels_descending(states[k - 1], events[k - 1], states[k], p);
        push_adds_exactly_the_event(states[k - 1], events[k - 1], states[k], p);
        assert(events.take(k) =~= events.take(k - 1).push(events[k - 1]));
    }
}

} // verus!
