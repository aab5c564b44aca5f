//! Event bus for pub/sub messaging.
//!
//! The bus delivers each published event to its subscribers through
//! bounded channels, drops the subscribers whose channels are closed or
//! full, and keeps a ring buffer of the most recent events for history
//! queries.

use std::collections::VecDeque;

use tokio::sync::mpsc::{Receiver, Sender};
use vstd::prelude::*;

use crate::events::types::{Event, EventType, EventView};

verus! {

/// The sending half of a bounded channel of tokio.
#[verifier::external_type_specification]
#[verifier::external_body]
#[verifier::reject_recursive_types(T)]
pub struct ExSender<T>(Sender<T>);

/// The receiving half of a bounded channel of tokio.
#[verifier::external_type_specification]
#[verifier::external_body]
#[verifier::reject_recursive_types(T)]
pub struct ExReceiver<T>(Receiver<T>);

/// The largest buffer a tokio channel accepts.
pub open spec fn max_channel_buffer() -> nat {
    (usize::MAX / 8) as nat
}

/// `tokio::sync::mpsc::channel`: a bounded channel with room for `buffer`
/// events. Tokio panics on a buffer of 0 or of more than `usize::MAX >> 3`.
#[verifier::external_body]
fn event_channel(buffer: usize) -> (r: (Sender<Event>, Receiver<Event>))
    requires
        0 < buffer <= max_channel_buffer(),
{
    tokio::sync::mpsc::channel(buffer)
}

/// `Sender::try_send` of tokio: queues the event without waiting, and says
/// whether it was queued. Whether it is depends on the receiver (gone, or
/// its buffer full), so nothing is promised of the answer.
#[verifier::external_body]
fn try_deliver(tx: &Sender<Event>, event: Event) -> (r: bool) {
    tx.try_send(event).is_ok()
}

/// The items of `s` whose flag in `keep` is set, in order.
pub open spec fn kept<T>(s: Seq<T>, keep: Seq<bool>) -> Seq<T>
    decreases s.len(),
{
    if s.len() == 0 {
        Seq::empty()
    } else {
        let rest = kept(s.drop_last(), keep);
        if keep[s.len() - 1] { rest.push(s.last()) } else { rest }
    }
}

/// Keeping every item keeps the sequence: when every delivery succeeds,
/// every subscriber stays.
pub proof fn lemma_kept_all<T>(s: Seq<T>, keep: Seq<bool>)
    requires
        keep.len() >= s.len(),
        forall|i: int| 0 <= i < s.len() ==> keep[i],
    ensures
        kept(s, keep) == s,
    decreases s.len(),
{
    if s.len() > 0 {
        lemma_kept_all(s.drop_last(), keep);
        assert(s.drop_last().push(s.last()) =~= s);
    }
}

/// Only the flags of the items present matter.
proof fn lemma_kept_prefix<T>(s: Seq<T>, a: Seq<bool>, b: Seq<bool>)
    requires
        a.len() >= s.len(),
        b.len() >= s.len(),
        forall|i: int| 0 <= i < s.len() ==> a[i] == b[i],
    ensures
        kept(s, a) == kept(s, b),
    decreases s.len(),
{
    if s.len() > 0 {
        lemma_kept_prefix(s.drop_last(), a, b);
    }
}

/// How many of the first `n` flags are set.
pub open spec fn flags_set(keep: Seq<bool>, n: int) -> nat
    decreases n,
{
    if n <= 0 {
        0
    } else {
        flags_set(keep, n - 1) + if keep[n - 1] { 1nat } else { 0nat }
    }
}

/// Keeping items by their flags keeps each flagged item, in order, and
/// nothing else: item `i` with its flag set is at the place given by the
/// flags set before it, and there are as many items as flags set.
pub proof fn lemma_kept_exactly_flagged<T>(s: Seq<T>, keep: Seq<bool>)
    requires
        keep.len() >= s.len(),
    ensures
        kept(s, keep).len() == flags_set(keep, s.len() as int),
        forall|i: int| 0 <= i < s.len() && keep[i] ==> #[trigger] kept(s, keep)[flags_set(keep, i) as int] == s[i],
    decreases s.len(),
{
    if s.len() > 0 {
        let n: int = s.len() - 1;
        let s1 = s.drop_last();
        lemma_kept_exactly_flagged(s1, keep);
        assert forall|i: int| 0 <= i < s.len() && keep[i] implies #[trigger] kept(s, keep)[flags_set(keep, i) as int] == s[i] by {
            if i < n {
                assert(s1[i] == s[i]);
                lemma_flags_set_monotone(keep, i + 1, n);
                assert(kept(s1, keep)[flags_set(keep, i) as int] == s1[i]);
            }
        }
    }
}

/// Counting flags over more of them counts no fewer.
proof fn lemma_flags_set_monotone(keep: Seq<bool>, a: int, b: int)
    requires
        0 <= a <= b,
    ensures
        flags_set(keep, a) <= flags_set(keep, b),
    decreases b - a,
{
    if a < b {
        lemma_flags_set_monotone(keep, a, b - 1);
    }
}

/// Dropping items twice drops items once: what survives two filterings
/// survives one.
proof fn lemma_kept_kept<T>(s: Seq<T>, a: Seq<bool>, b: Seq<bool>) -> (c: Seq<bool>)
    requires
        a.len() >= s.len(),
        b.len() >= kept(s, a).len(),
    ensures
        c.len() == s.len(),
        kept(kept(s, a), b) == kept(s, c),
    decreases s.len(),
{
    if s.len() == 0 {
        Seq::empty()
    } else {
        let n: int = s.len() - 1;
        let s1 = s.drop_last();
        let k = kept(s1, a);
        if a[n] {
            assert(kept(s, a) == k.push(s.last()));
            assert(k.push(s.last()).drop_last() =~= k);
            let c1 = lemma_kept_kept(s1, a, b);
            let c = c1.push(b[k.len() as int]);
            lemma_kept_prefix(s1, c1, c);
            c
        } else {
            let c1 = lemma_kept_kept(s1, a, b);
            let c = c1.push(false);
            lemma_kept_prefix(s1, c1, c);
            c
        }
    }
}

/// The events handed to the subscribers when one is published: the same
/// event, once for each of `count` subscribers.
pub fn delivery_plan(event: &Event, count: usize) -> (r: Vec<Event>)
    ensures
        r@.len() == count,
        forall|i: int| 0 <= i < count ==> #[trigger] r@[i]@ == event@,
{
    let mut out: Vec<Event> = Vec::new();
    let mut i: usize = 0;
    while i < count
        invariant
            i <= count,
            out@.len() == i,
            forall|j: int| 0 <= j < i ==> #[trigger] out@[j]@ == event@,
        decreases count - i,
    {
        out.push(event.duplicate());
        i = i + 1;
    }
    out
}

/// The subscribers that stay after a publication: exactly those whose
/// delivery succeeded, in order.
pub fn retain_delivered(subscribers: Vec<Sender<Event>>, delivered: &Vec<bool>) -> (r: Vec<Sender<Event>>)
    requires
        delivered@.len() == subscribers@.len(),
    ensures
        r@ == kept(subscribers@, delivered@),
{
    let ghost all = subscribers@;
    let n = subscribers.len();
    let mut pending = subscribers;
    let mut out: Vec<Sender<Event>> = Vec::new();
    let mut i: usize = 0;
    while i < n
        invariant
            all.len() == n,
            delivered@.len() == n,
            i <= n,
            pending@ == all.skip(i as int),
            out@ == kept(all.take(i as int), delivered@),
        decreases n - i,
    {
        let tx = pending.remove(0);
        proof {
            assert(tx == all[i as int]);
            assert(pending@ =~= all.skip(i + 1));
            let t1 = all.take(i + 1);
            assert(t1.drop_last() =~= all.take(i as int));
            assert(t1.last() == tx);
        }
        if delivered[i] {
            out.push(tx);
        }
        i = i + 1;
    }
    proof {
        assert(all.take(n as int) =~= all);
    }
    out
}

/// The most events the history holds: the limit the bus was made with, or
/// one when that limit is zero.
pub open spec fn history_cap(max: nat) -> nat {
    if max == 0 { 1 } else { max }
}

/// Abstract values of a sequence of events.
pub open spec fn event_views(s: Seq<Event>) -> Seq<EventView> {
    s.map_values(|e: Event| e@)
}

/// The history after publishing `e`: the oldest event leaves when the
/// history already holds `max` events (or more), then `e` joins at the end.
pub open spec fn history_after_publish(h: Seq<EventView>, e: EventView, max: nat) -> Seq<EventView> {
    let kept = if h.len() >= max && h.len() > 0 { h.drop_first() } else { h };
    kept.push(e)
}

/// The history after publishing each of `es` in turn.
pub open spec fn history_after_all(h: Seq<EventView>, es: Seq<EventView>, max: nat) -> Seq<EventView>
    decreases es.len(),
{
    if es.len() == 0 {
        h
    } else {
        history_after_publish(history_after_all(h, es.drop_last(), max), es.last(), max)
    }
}

/// The history newest first, cut to `limit` events when one is given.
pub open spec fn newest_first(h: Seq<EventView>, limit: Option<usize>) -> Seq<EventView> {
    match limit {
        Some(n) => if n < h.len() { h.reverse().take(n as int) } else { h.reverse() },
        None => h.reverse(),
    }
}

/// Event bus for daemon events: its subscribers, its history and its
/// delivery settings.
pub struct EventBus {
    /// Active subscribers, in the order they subscribed.
    subscribers: Vec<Sender<Event>>,
    /// Event history, oldest first.
    history: VecDeque<Event>,
    /// Maximum history size.
    max_history: usize,
    /// Channel buffer size for new subscribers.
    buffer_size: usize,
}

impl EventBus {
    /// The history never holds more events than the bus keeps.
    #[verifier::type_invariant]
    spec fn history_within_cap(self) -> bool {
        self.history@.len() <= history_cap(self.max_history as nat)
    }

    /// The active subscribers, in the order they subscribed.
    pub closed spec fn subscribers(&self) -> Seq<Sender<Event>> {
        self.subscribers@
    }

    /// The history, oldest first.
    pub closed spec fn history_view(&self) -> Seq<EventView> {
        event_views(self.history@)
    }

    /// The maximum history size the bus was made with.
    pub closed spec fn max_history_spec(&self) -> nat {
        self.max_history as nat
    }

    /// The subscriber buffer size the bus was made with.
    pub closed spec fn buffer_size_spec(&self) -> nat {
        self.buffer_size as nat
    }

    /// Creates a new event bus.
    pub fn new(buffer_size: usize, max_history: usize) -> (r: Self)
        ensures
            r.subscribers().len() == 0,
            r.history_view() == Seq::<EventView>::empty(),
            r.max_history_spec() == max_history,
            r.buffer_size_spec() == buffer_size,
    {
        let r = EventBus {
            subscribers: Vec::new(),
            history: VecDeque::with_capacity(max_history),
            max_history,
            buffer_size,
        };
        assert(r.history_view() =~= Seq::<EventView>::empty());
        r
    }

    /// Channel buffer size for new subscribers.
    pub fn buffer_size(&self) -> (r: usize)
        ensures
            r == self.buffer_size_spec(),
    {
        self.buffer_size
    }

    /// Publishes an event: it joins the history, the oldest event leaving
    /// when the history is full, and goes to every subscriber, in order;
    /// subscribers whose channel is closed or full are dropped, the others
    /// stay in order. Which deliveries succeed is up to the channels, so
    /// what is stated here of the subscribers is that some of them stay, in
    /// order; `retain_delivered` states which.
    pub fn publish(&mut self, event: Event)
        ensures
            final(self).history_view() == history_after_publish(old(self).history_view(), event@, old(self).max_history_spec()),
            final(self).history_view().len() <= history_cap(final(self).max_history_spec()),
            exists|keep: Seq<bool>| keep.len() == old(self).subscribers().len()
                && final(self).subscribers() == kept(old(self).subscribers(), keep),
            final(self).max_history_spec() == old(self).max_history_spec(),
            final(self).buffer_size_spec() == old(self).buffer_size_spec(),
    {
        proof {
            use_type_invariant(&*self);
            lemma_history_bounded(self.history_view(), event@, self.max_history as nat);
        }
        let ghost h = self.history_view();
        let mut history: VecDeque<Event> = VecDeque::new();
        std::mem::swap(&mut history, &mut self.history);
        if history.len() >= self.max_history && history.len() > 0 {
            let _ = history.pop_front();
        }
        let ghost mid = event_views(history@);
        assert(mid =~= (if h.len() >= self.max_history && h.len() > 0 { h.drop_first() } else { h }));
        history.push_back(event.duplicate());
        assert(event_views(history@) =~= mid.push(event@));
        self.history = history;

        let mut pending: Vec<Sender<Event>> = Vec::new();
        std::mem::swap(&mut pending, &mut self.subscribers);
        let ghost all = pending@;
        let n = pending.len();
        let mut plan = delivery_plan(&event, n);
        let mut delivered: Vec<bool> = Vec::new();
        let mut i: usize = 0;
        while i < n
            invariant
                n == pending@.len(),
                pending@ == all,
                i <= n,
                delivered@.len() == i,
                plan@.len() == n - i,
            decreases n - i,
        {
            let e = plan.remove(0);
            let ok = try_deliver(&pending[i], e);
            delivered.push(ok);
            i = i + 1;
        }
        self.subscribers = retain_delivered(pending, &delivered);
        assert(delivered@.len() == old(self).subscribers().len()
            && self.subscribers() == kept(old(self).subscribers(), delivered@));
    }

    /// Publishes events one after another, in order.
    pub fn publish_all(&mut self, events: Vec<Event>)
        ensures
            final(self).history_view() == history_after_all(old(self).history_view(), event_views(events@), old(self).max_history_spec()),
            final(self).history_view().len() <= history_cap(final(self).max_history_spec()),
            exists|keep: Seq<bool>| keep.len() == old(self).subscribers().len()
                && final(self).subscribers() == kept(old(self).subscribers(), keep),
            final(self).max_history_spec() == old(self).max_history_spec(),
            final(self).buffer_size_spec() == old(self).buffer_size_spec(),
    {
        proof { use_type_invariant(&*self); }
        let ghost h0 = self.history_view();
        let ghost s0 = self.subscribers();
        let ghost all = event_views(events@);
        let mut keep_all: Ghost<Seq<bool>> = Ghost(Seq::new(s0.len(), |i: int| true));
        proof {
            assert forall|i: int| 0 <= i <= s0.len() implies kept(s0.take(i), keep_all@) == s0.take(i) by {
                lemma_kept_all(s0.take(i), keep_all@);
            }
            assert(s0.take(s0.len() as int) =~= s0);
            assert(all.take(0) =~= Seq::<EventView>::empty());
        }
        let mut i: usize = 0;
        while i < events.len()
            invariant
                i <= events@.len(),
                all == event_views(events@),
                self.history_view() == history_after_all(h0, all.take(i as int), self.max_history_spec()),
                self.history_view().len() <= history_cap(self.max_history_spec()),
                self.max_history_spec() == old(self).max_history_spec(),
                self.buffer_size_spec() == old(self).buffer_size_spec(),
                s0 == old(self).subscribers(),
                h0 == old(self).history_view(),
                keep_all@.len() == s0.len(),
                self.subscribers() == kept(s0, keep_all@),
            decreases events.len() - i,
        {
            let ghost before = self.subscribers();
            self.publish(events[i].duplicate());
            proof {
                let b = choose|keep: Seq<bool>| keep.len() == before.len() && self.subscribers() == kept(before, keep);
                let c = lemma_kept_kept(s0, keep_all@, b);
                keep_all@ = c;
                assert(all.take(i + 1).drop_last() =~= all.take(i as int));
                assert(all.take(i + 1).last() == events@[i as int]@);
            }
            i = i + 1;
        }
        proof {
            assert(all.take(events@.len() as int) =~= all);
        }
    }

    /// Gets event history, newest first, cut to `limit` events if given.
    pub fn history(&self, limit: Option<usize>) -> (r: Vec<Event>)
        ensures
            event_views(r@) == newest_first(self.history_view(), limit),
    {
        let n = self.history.len();
        let count = match limit {
            Some(l) => if l < n { l } else { n },
            None => n,
        };
        let ghost h = self.history_view();
        let mut out: Vec<Event> = Vec::new();
        let mut i: usize = 0;
        while i < count
            invariant
                n == self.history@.len(),
                h == self.history_view(),
                count <= n,
                i <= count,
                out@.len() == i,
                forall|j: int| 0 <= j < i ==> #[trigger] out@[j]@ == h[n - 1 - j],
            decreases count - i,
        {
            let e = self.history[n - 1 - i].duplicate();
            out.push(e);
            i = i + 1;
        }
        assert(event_views(out@) =~= newest_first(h, limit));
        out
    }

    /// Number of events in the history.
    pub fn history_len(&self) -> (r: usize)
        ensures
            r == self.history_view().len(),
            r <= history_cap(self.max_history_spec()),
    {
        proof { use_type_invariant(self); }
        self.history.len()
    }

    /// Subscribes to all events: a new channel with the bus's buffer size,
    /// whose sending half joins the subscribers. Tokio refuses a buffer of
    /// 0, so a bus made with one has no subscribers.
    pub fn subscribe(&mut self) -> (r: Receiver<Event>)
        requires
            0 < old(self).buffer_size_spec() <= max_channel_buffer(),
        ensures
            final(self).subscribers().len() == old(self).subscribers().len() + 1,
            final(self).subscribers().take(old(self).subscribers().len() as int) == old(self).subscribers(),
            final(self).history_view() == old(self).history_view(),
            final(self).max_history_spec() == old(self).max_history_spec(),
            final(self).buffer_size_spec() == old(self).buffer_size_spec(),
    {
        let (tx, rx) = event_channel(self.buffer_size);
        proof { use_type_invariant(&*self); }
        let ghost before = self.subscribers@;
        let mut subscribers: Vec<Sender<Event>> = Vec::new();
        std::mem::swap(&mut subscribers, &mut self.subscribers);
        subscribers.push(tx);
        self.subscribers = subscribers;
        assert(self.subscribers@.take(before.len() as int) =~= before);
        rx
    }

    /// The number of active subscribers.
    pub fn subscriber_count(&self) -> (r: usize)
        ensures
            r == self.subscribers().len(),
    {
        self.subscribers.len()
    }

    /// Clears all event history.
    pub fn clear_history(&mut self)
        ensures
            final(self).history_view() == Seq::<EventView>::empty(),
            final(self).subscribers() == old(self).subscribers(),
            final(self).max_history_spec() == old(self).max_history_spec(),
            final(self).buffer_size_spec() == old(self).buffer_size_spec(),
    {
        self.history = VecDeque::new();
        assert(self.history_view() =~= Seq::<EventView>::empty());
    }
}

/// Whether a subscriber filtering on `filter` receives an event of type `t`.
pub fn filter_accepts(filter: &Vec<EventType>, t: EventType) -> (r: bool)
    ensures
        r == filter@.contains(t),
{
    let mut i: usize = 0;
    while i < filter.len()
        invariant
            i <= filter.len(),
            forall|j: int| 0 <= j < i ==> filter@[j] != t,
        decreases filter.len() - i,
    {
        if filter[i] == t {
            return true;
        }
        i = i + 1;
    }
    false
}

/// The history never holds more events than the bus keeps (one, when the
/// bus was made to keep none): publishing preserves the bound.
pub proof fn lemma_history_bounded(h: Seq<EventView>, e: EventView, max: nat)
    requires
        h.len() <= if max == 0 { 1 } else { max },
    ensures
        history_after_publish(h, e, max).len() <= if max == 0 { 1 } else { max },
        history_after_publish(h, e, max).last() == e,
{
}

/// Publishing keeps every event that was not the oldest of a full history,
/// in order, and adds the new one at the end.
pub proof fn lemma_publish_keeps_recent(h: Seq<EventView>, e: EventView, max: nat)
    ensures
        h.len() < max ==> history_after_publish(h, e, max) == h.push(e),
        h.len() >= max && h.len() > 0 ==> history_after_publish(h, e, max) == h.drop_first().push(e),
{
}

/// The last `m` items of `s` (all of them when there are no more than `m`).
pub open spec fn last_n(s: Seq<EventView>, m: nat) -> Seq<EventView> {
    if s.len() <= m { s } else { s.skip(s.len() - m) }
}

/// The history is a ring buffer: after publishing events in turn on a bus
/// that keeps at least one, it holds the last `max` of the events it held
/// and the events published, oldest first.
pub proof fn lemma_history_keeps_last(h: Seq<EventView>, es: Seq<EventView>, max: nat)
    requires
        max >= 1,
        h.len() <= max,
    ensures
        history_after_all(h, es, max) == last_n(h + es, max),
    decreases es.len(),
{
    if es.len() > 0 {
        let es1 = es.drop_last();
        let e = es.last();
        lemma_history_keeps_last(h, es1, max);
        let whole1 = h + es1;
        let whole = h + es;
        assert(whole =~= whole1.push(e));
        if whole1.len() < max {
            assert(last_n(whole1, max) == whole1);
        } else {
            let prev = whole1.skip(whole1.len() - max);
            assert(prev.len() == max);
            assert(prev.drop_first().push(e) =~= whole.skip(whole.len() - max));
        }
    } else {
        assert(h + es =~= h);
    }
}

/// Publishing events one after another on a bus with an empty history,
/// no more of them than the bus keeps, leaves exactly those events in the
/// history; the history query gives them newest first, cut to the limit.
pub proof fn lemma_history_of_published(es: Seq<EventView>, max: nat, limit: usize)
    requires
        es.len() <= max,
    ensures
        history_after_all(Seq::empty(), es, max) == es,
        newest_first(history_after_all(Seq::empty(), es, max), None) == es.reverse(),
        newest_first(history_after_all(Seq::empty(), es, max), Some(limit))
            == es.reverse().take(if limit < es.len() { limit as int } else { es.len() as int }),
{
    if max >= 1 {
        lemma_history_keeps_last(Seq::empty(), es, max);
        assert(Seq::<EventView>::empty() + es =~= es);
    } else {
        assert(es =~= Seq::<EventView>::empty());
    }
    assert(es.reverse().take(es.len() as int) =~= es.reverse());
}

/// However many events are published, the history never holds more than
/// the bus keeps (one, when the bus was made to keep none).
pub proof fn lemma_history_bounded_all(h: Seq<EventView>, es: Seq<EventView>, max: nat)
    requires
        h.len() <= if max == 0 { 1 } else { max },
    ensures
        history_after_all(h, es, max).len() <= if max == 0 { 1 } else { max },
    decreases es.len(),
{
    if es.len() > 0 {
        lemma_history_bounded_all(h, es.drop_last(), max);
        lemma_history_bounded(history_after_all(h, es.drop_last(), max), es.last(), max);
    }
}

} // verus!
