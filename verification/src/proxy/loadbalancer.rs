//! Load balancing strategies for routing requests to service instances.

use vstd::prelude::*;

verus! {

/// Load balancing strategy.
#[derive(Debug, Clone, Copy, PartialEq, Eq, Structural)]
pub enum Strategy {
    /// Round-robin distribution across instances.
    RoundRobin,
    /// Send all requests to the first available instance.
    FirstAvailable,
    /// Pseudo-random selection among available instances, derived from the
    /// request counter so that it is repeatable.
    Random,
}

impl Default for Strategy {
    fn default() -> (r: Self)
        ensures
            r == Strategy::RoundRobin,
    {
        Strategy::RoundRobin
    }
}

/// The instance chosen out of `count` by `strategy` when the request
/// counter stands at `counter`; `None` when there are no instances.
pub open spec fn selection(strategy: Strategy, counter: usize, count: usize) -> Option<usize> {
    if count == 0 {
        None
    } else {
        match strategy {
            Strategy::RoundRobin => Some((counter % count) as usize),
            Strategy::FirstAvailable => Some(0),
            Strategy::Random => Some((vstd::wrapping::usize_specs::wrapping_add(
                vstd::wrapping::usize_specs::wrapping_mul(counter, 1103515245),
                12345,
            ) % count) as usize),
        }
    }
}

/// The request counter after a selection: round-robin and random selections
/// advance it by one, wrapping around at the top of `usize`.
pub open spec fn counter_after(strategy: Strategy, counter: usize, count: usize) -> usize {
    if count == 0 || strategy == Strategy::FirstAvailable {
        counter
    } else {
        vstd::wrapping::usize_specs::wrapping_add(counter, 1)
    }
}

/// The request counter after selections out of each of `counts` in turn.
pub open spec fn counter_after_all(strategy: Strategy, counter: usize, counts: Seq<usize>) -> usize
    decreases counts.len(),
{
    if counts.len() == 0 {
        counter
    } else {
        counter_after(strategy, counter_after_all(strategy, counter, counts.drop_last()), counts.last())
    }
}

/// The instances chosen by selections out of each of `counts` in turn.
pub open spec fn selections(strategy: Strategy, counter: usize, counts: Seq<usize>) -> Seq<Option<usize>> {
    Seq::new(counts.len(), |i: int| selection(strategy, counter_after_all(strategy, counter, counts.take(i)), counts[i]))
}

/// How many of the counts are not zero.
pub open spec fn positive_count(counts: Seq<usize>) -> nat
    decreases counts.len(),
{
    if counts.len() == 0 {
        0
    } else {
        positive_count(counts.drop_last()) + if counts.last() > 0 { 1nat } else { 0nat }
    }
}

/// Load balancer for distributing requests across instances.
#[derive(Debug)]
pub struct LoadBalancer {
    strategy: Strategy,
    counter: usize,
}

/// One selection out of `count` instances: the balancer `before` answers
/// `r` and becomes `after`, keeping its strategy.
pub open spec fn select_step(before: LoadBalancer, count: usize, r: Option<usize>, after: LoadBalancer) -> bool {
    &&& r == selection(before.strategy_spec(), before.counter(), count)
    &&& r matches Some(i) ==> i < count
    &&& after.strategy_spec() == before.strategy_spec()
    &&& after.counter() == counter_after(before.strategy_spec(), before.counter(), count)
}

impl LoadBalancer {
    /// The strategy.
    pub closed spec fn strategy_spec(&self) -> Strategy {
        self.strategy
    }

    /// The request counter.
    pub closed spec fn counter(&self) -> usize {
        self.counter
    }

    /// Creates a new load balancer with the given strategy.
    pub fn new(strategy: Strategy) -> (r: Self)
        ensures
            r.strategy_spec() == strategy,
            r.counter() == 0,
    {
        LoadBalancer { strategy, counter: 0 }
    }

    /// Creates a new round-robin load balancer.
    pub fn round_robin() -> (r: Self)
        ensures
            r.strategy_spec() == Strategy::RoundRobin,
            r.counter() == 0,
    {
        LoadBalancer::new(Strategy::RoundRobin)
    }

    /// Selects an instance index out of `instance_count` instances, or
    /// `None` if there are none.
    pub fn select(&mut self, instance_count: usize) -> (r: Option<usize>)
        ensures
            select_step(*old(self), instance_count, r, *final(self)),
    {
        if instance_count == 0 {
            return None;
        }
        match self.strategy {
            Strategy::RoundRobin => {
                let idx = self.counter;
                self.counter = self.counter.wrapping_add(1);
                Some(idx % instance_count)
            },
            Strategy::FirstAvailable => Some(0),
            Strategy::Random => {
                let idx = self.counter;
                self.counter = self.counter.wrapping_add(1);
                Some(idx.wrapping_mul(1103515245).wrapping_add(12345) % instance_count)
            },
        }
    }

    /// Returns the current strategy.
    pub fn strategy(&self) -> (r: Strategy)
        ensures
            r == self.strategy_spec(),
    {
        self.strategy
    }
}

impl Default for LoadBalancer {
    fn default() -> (r: Self)
        ensures
            r.strategy_spec() == Strategy::RoundRobin,
            r.counter() == 0,
    {
        LoadBalancer::round_robin()
    }
}

/// Round-robin selections take the instances in turn: the selection after
/// instance `i` is instance `i + 1`, wrapping to 0 after the last one (as
/// long as the counter does not wrap around the top of `usize`).
pub proof fn lemma_round_robin_in_turn(counter: usize, count: usize)
    requires
        count > 0,
        counter < usize::MAX,
    ensures
        selection(Strategy::RoundRobin, counter_after(Strategy::RoundRobin, counter, count), count)
            == Some(((counter % count + 1) % count as int) as usize),
{
    assert((counter + 1) % (count as int) == ((counter % count) + 1) % (count as int)) by (nonlinear_arith)
        requires count > 0, counter >= 0;
}

/// Every strategy picks an instance that exists, and picks none exactly
/// when there are no instances.
pub proof fn lemma_selection_in_range(strategy: Strategy, counter: usize, count: usize)
    ensures
        selection(strategy, counter, count) is None <==> count == 0,
        selection(strategy, counter, count) matches Some(i) ==> i < count,
{
}

/// First-available selection always picks the first instance and leaves
/// the counter alone.
pub proof fn lemma_first_available_fixed(counter: usize, count: usize)
    requires
        count > 0,
    ensures
        selection(Strategy::FirstAvailable, counter, count) == Some(0usize),
        counter_after(Strategy::FirstAvailable, counter, count) == counter,
{
}

/// Any run of selections keeps the strategy the balancer was made with,
/// leaves the counter where the selections, taken in turn, leave it, and
/// answers what those selections choose.
pub proof fn lemma_selections_in_turn(states: Seq<LoadBalancer>, counts: Seq<usize>, results: Seq<Option<usize>>)
    requires
        states.len() == counts.len() + 1,
        results.len() == counts.len(),
        forall|i: int| 0 <= i < counts.len() ==> #[trigger] select_step(states[i], counts[i], results[i], states[i + 1]),
    ensures
        states.last().strategy_spec() == states[0].strategy_spec(),
        states.last().counter() == counter_after_all(states[0].strategy_spec(), states[0].counter(), counts),
        results == selections(states[0].strategy_spec(), states[0].counter(), counts),
    decreases counts.len(),
{
    let st = states[0].strategy_spec();
    let c0 = states[0].counter();
    if counts.len() == 0 {
        assert(results =~= selections(st, c0, counts));
    } else {
        let n: int = counts.len() - 1;
        let states1 = states.drop_last();
        let counts1 = counts.drop_last();
        let results1 = results.drop_last();
        assert forall|i: int| 0 <= i < counts1.len() implies #[trigger] select_step(states1[i], counts1[i], results1[i], states1[i + 1]) by {
            assert(select_step(states[i], counts[i], results[i], states[i + 1]));
        }
        lemma_selections_in_turn(states1, counts1, results1);
        assert(select_step(states[n], counts[n], results[n], states[n + 1]));
        assert(counts.take(n) =~= counts1);
        assert forall|i: int| 0 <= i < counts1.len() implies #[trigger] counts.take(i) == counts1.take(i) by {
            assert(counts.take(i) =~= counts1.take(i));
        }
        let sel = selections(st, c0, counts);
        let sel1 = selections(st, c0, counts1);
        assert(states1.last() == states[n]);
        assert forall|i: int| 0 <= i < counts.len() implies results[i] == #[trigger] sel[i] by {
            if i < n {
                assert(results1[i] == sel1[i]);
                assert(counts.take(i) == counts1.take(i));
            }
        }
        assert(results =~= sel);
    }
}

/// Round robin from a fresh balancer takes the instances in turn: each
/// selection out of no instances answers `None` and does not count; each
/// other selection answers the number of counted selections before it,
/// modulo its instance count (as long as the counter cannot wrap around).
pub proof fn lemma_round_robin_from_start(counts: Seq<usize>)
    requires
        positive_count(counts) < usize::MAX,
    ensures
        counter_after_all(Strategy::RoundRobin, 0, counts) == positive_count(counts),
        forall|i: int| 0 <= i < counts.len() ==> #[trigger] selections(Strategy::RoundRobin, 0, counts)[i] == if counts[i] == 0 {
            None
        } else {
            Some((positive_count(counts.take(i)) % (counts[i] as nat)) as usize)
        },
    decreases counts.len(),
{
    lemma_counter_counts_positive(Strategy::RoundRobin, counts);
    assert forall|i: int| 0 <= i < counts.len() implies #[trigger] selections(Strategy::RoundRobin, 0, counts)[i] == if counts[i] == 0 {
        None
    } else {
        Some((positive_count(counts.take(i)) % (counts[i] as nat)) as usize)
    } by {
        lemma_positive_count_prefix(counts, i);
        lemma_counter_counts_positive(Strategy::RoundRobin, counts.take(i));
    }
}

/// A prefix counts no more positive entries than the whole.
proof fn lemma_positive_count_prefix(counts: Seq<usize>, i: int)
    requires
        0 <= i <= counts.len(),
    ensures
        positive_count(counts.take(i)) <= positive_count(counts),
    decreases counts.len(),
{
    if i < counts.len() {
        lemma_positive_count_prefix(counts.drop_last(), i);
        assert(counts.drop_last().take(i) =~= counts.take(i));
    } else {
        assert(counts.take(i) =~= counts);
    }
}

/// Round robin and random selections from zero count the selections out
/// of at least one instance.
proof fn lemma_counter_counts_positive(strategy: Strategy, counts: Seq<usize>)
    requires
        strategy != Strategy::FirstAvailable,
        positive_count(counts) < usize::MAX,
    ensures
        counter_after_all(strategy, 0, counts) == positive_count(counts),
    decreases counts.len(),
{
    if counts.len() > 0 {
        lemma_counter_counts_positive(strategy, counts.drop_last());
        let c = counter_after_all(strategy, 0, counts.drop_last());
        assert(vstd::wrapping::usize_specs::wrapping_add(c, 1) == c + 1) by {
            assert(c + 1 <= usize::MAX);
        }
    }
}

/// Every selection out of at least one instance by round robin or random
/// moves the request counter on by one (wrapping at the top of `usize`);
/// a selection out of no instances, or by first available, leaves it.
pub proof fn lemma_selection_advances_counter(before: LoadBalancer, count: usize, r: Option<usize>, after: LoadBalancer)
    requires
        select_step(before, count, r, after),
    ensures
        count > 0 && before.strategy_spec() != Strategy::FirstAvailable ==>
            after.counter() == (if before.counter() == usize::MAX { 0 } else { (before.counter() + 1) as usize }),
        count == 0 || before.strategy_spec() == Strategy::FirstAvailable ==> after.counter() == before.counter(),
{
    if count > 0 && before.strategy_spec() != Strategy::FirstAvailable {
        let c = before.counter();
        if c == usize::MAX {
            assert(vstd::wrapping::usize_specs::wrapping_add(c, 1) == 0);
        } else {
            assert(vstd::wrapping::usize_specs::wrapping_add(c, 1) == c + 1);
        }
    }
}

/// Random selection from a fresh balancer draws from successive counter
/// values: the k-th selection out of at least one instance (counting from
/// 0, not counting selections out of none) is the random pick at counter
/// k, so successive picks move across the instances (as long as the
/// counter cannot wrap around).
pub proof fn lemma_random_from_start(counts: Seq<usize>)
    requires
        positive_count(counts) < usize::MAX,
    ensures
        counter_after_all(Strategy::Random, 0, counts) == positive_count(counts),
        forall|i: int| 0 <= i < counts.len() ==> #[trigger] selections(Strategy::Random, 0, counts)[i]
            == selection(Strategy::Random, positive_count(counts.take(i)) as usize, counts[i]),
{
    lemma_counter_counts_positive(Strategy::Random, counts);
    assert forall|i: int| 0 <= i < counts.len() implies #[trigger] selections(Strategy::Random, 0, counts)[i]
        == selection(Strategy::Random, positive_count(counts.take(i)) as usize, counts[i]) by {
        lemma_positive_count_prefix(counts, i);
        lemma_counter_counts_positive(Strategy::Random, counts.take(i));
    }
}

/// Round robin rotates over a run of calls on a fresh balancer: the k-th
/// call out of `n > 0` instances (counting from 0, and not counting calls
/// out of no instances) answers `Some(k % n)`; a call out of no instances
/// answers `None` and leaves the counter as it was; the strategy never
/// changes (as long as the counter cannot wrap around).
pub proof fn lemma_round_robin_rotates(states: Seq<LoadBalancer>, counts: Seq<usize>, results: Seq<Option<usize>>)
    requires
        states.len() == counts.len() + 1,
        results.len() == counts.len(),
        states[0].strategy_spec() == Strategy::RoundRobin,
        states[0].counter() == 0,
        positive_count(counts) < usize::MAX,
        forall|i: int| 0 <= i < counts.len() ==> #[trigger] select_step(states[i], counts[i], results[i], states[i + 1]),
    ensures
        forall|i: int| 0 <= i < counts.len() ==> #[trigger] results[i] == if counts[i] == 0 {
            None
        } else {
            Some((positive_count(counts.take(i)) % (counts[i] as nat)) as usize)
        },
        forall|i: int| 0 <= i < counts.len() && counts[i] == 0 ==> #[trigger] states[i + 1].counter() == states[i].counter(),
        forall|i: int| 0 <= i < states.len() ==> #[trigger] states[i].strategy_spec() == Strategy::RoundRobin,
{
    lemma_selections_in_turn(states, counts, results);
    lemma_round_robin_from_start(counts);
    assert forall|i: int| 0 <= i < counts.len() implies #[trigger] results[i] == if counts[i] == 0 {
        None
    } else {
        Some((positive_count(counts.take(i)) % (counts[i] as nat)) as usize)
    } by {
        assert(results[i] == selections(Strategy::RoundRobin, 0, counts)[i]);
    }
    assert forall|i: int| 0 <= i < counts.len() && counts[i] == 0 implies #[trigger] states[i + 1].counter() == states[i].counter() by {
        assert(select_step(states[i], counts[i], results[i], states[i + 1]));
    }
    assert forall|i: int| 0 <= i < states.len() implies #[trigger] states[i].strategy_spec() == Strategy::RoundRobin by {
        if i > 0 {
            let pre = states.take(i + 1);
            let cs = counts.take(i);
            let rs = results.take(i);
            assert forall|j: int| 0 <= j < cs.len() implies #[trigger] select_step(pre[j], cs[j], rs[j], pre[j + 1]) by {
                assert(select_step(states[j], counts[j], results[j], states[j + 1]));
            }
            lemma_selections_in_turn(pre, cs, rs);
            assert(pre.last() == states[i]);
        }
    }
}

/// Selecting first available always answers the first instance, or `None`
/// when there are none, whatever the counter.
pub proof fn lemma_first_available_always_first(counter: usize, counts: Seq<usize>)
    ensures
        forall|i: int| 0 <= i < counts.len() ==> #[trigger] selections(Strategy::FirstAvailable, counter, counts)[i]
            == if counts[i] == 0 { None } else { Some(0usize) },
{
}

} // verus!
