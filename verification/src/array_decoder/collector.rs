//! The reordering stage: block results arrive in any order and leave in the
//! order of their indices.

use std::collections::BTreeMap;
use vstd::prelude::*;

use crate::array_decoder::DecodeError;

verus! {

broadcast use vstd::std_specs::btree::group_btree_axioms;

/// What the collector knows, as plain mathematics.
pub struct CollectorState<T> {
    /// The index of the block whose result leaves next.
    pub next: nat,
    /// The results that arrived before their turn, by index.
    pub held: Map<usize, Result<T, DecodeError>>,
    /// Whether an error has left: nothing leaves after it.
    pub stopped: bool,
}

/// A state together with what left on the way to it.
pub struct Drained<T> {
    /// The state after the results have left.
    pub state: CollectorState<T>,
    /// The results that left, in the order in which they left.
    pub out: Seq<Result<T, DecodeError>>,
}

/// Lets leave what can: as long as the result of the next index is held it
/// leaves, and an error that leaves stops the collector.
pub open spec fn drain<T>(next: nat, held: Map<usize, Result<T, DecodeError>>) -> Drained<T>
    decreases usize::MAX - next,
{
    if next < usize::MAX && held.contains_key(next as usize) {
        let r = held[next as usize];
        let rest = held.remove(next as usize);
        if r.is_ok() {
            let d = drain(next + 1, rest);
            Drained { state: d.state, out: seq![r] + d.out }
        } else {
            Drained { state: CollectorState { next, held: rest, stopped: true }, out: seq![r] }
        }
    } else {
        Drained { state: CollectorState { next, held, stopped: false }, out: Seq::empty() }
    }
}

/// The arrival of the result `r` of block `idx`: it joins the results held,
/// and what can leave leaves. A stopped collector takes nothing in.
pub open spec fn arrive<T>(st: CollectorState<T>, idx: usize, r: Result<T, DecodeError>) -> Drained<
    T,
> {
    if st.stopped {
        Drained { state: st, out: Seq::empty() }
    } else {
        drain(st.next, st.held.insert(idx, r))
    }
}

/// Puts the results of blocks back into the order of their indices.
pub struct Collector<T> {
    next: usize,
    holding: BTreeMap<usize, Result<T, DecodeError>>,
    stopped: bool,
}

impl<T> View for Collector<T> {
    type V = CollectorState<T>;

    closed spec fn view(&self) -> CollectorState<T> {
        CollectorState { next: self.next as nat, held: self.holding@, stopped: self.stopped }
    }
}

impl<T> Collector<T> {
    /// No index held is the largest number of the machine.
    pub closed spec fn wf(&self) -> bool {
        forall|k: usize| self.holding@.contains_key(k) ==> k < usize::MAX
    }

    /// A collector that awaits block 0 and holds nothing.
    pub fn new() -> (r: Collector<T>)
        ensures
            r.wf(),
            r@ == (CollectorState::<T> { next: 0, held: Map::empty(), stopped: false }),
    {
        Collector { next: 0, holding: BTreeMap::new(), stopped: false }
    }

    /// Takes in the result `r` of block `idx` and gives back what leaves on
    /// its arrival, in order.
    pub fn accept(&mut self, idx: usize, r: Result<T, DecodeError>) -> (out: Vec<
        Result<T, DecodeError>,
    >)
        requires
            old(self).wf(),
            idx < usize::MAX,
        ensures
            final(self).wf(),
            final(self)@ == arrive(old(self)@, idx, r).state,
            out@ == arrive(old(self)@, idx, r).out,
    {
        let mut out: Vec<Result<T, DecodeError>> = Vec::new();
        if self.stopped {
            return out;
        }
        self.holding.insert(idx, r);
        let ghost goal = arrive(old(self)@, idx, r);
        let mut open: bool = true;
        proof {
            assert(out@ + drain(self.next as nat, self.holding@).out =~= goal.out);
        }
        while open
            invariant
                forall|k: usize| self.holding@.contains_key(k) ==> k < usize::MAX,
                open ==> !self.stopped,
                open ==> goal.state == drain(self.next as nat, self.holding@).state,
                open ==> goal.out == out@ + drain(self.next as nat, self.holding@).out,
                !open ==> goal.state == self@,
                !open ==> goal.out == out@,
            decreases usize::MAX - self.next, if open { 1int } else { 0int },
        {
            let ghost held = self.holding@;
            let ghost before = out@;
            match self.holding.remove(&self.next) {
                Some(Ok(v)) => {
                    out.push(Ok(v));
                    proof {
                        let d = drain(self.next as nat + 1, self.holding@);
                        assert(before + (seq![Ok::<T, DecodeError>(v)] + d.out) =~= out@ + d.out);
                    }
                    self.next = self.next + 1;
                },
                Some(Err(e)) => {
                    out.push(Err(e));
                    self.stopped = true;
                    open = false;
                    proof {
                        assert(before + seq![Err::<T, DecodeError>(e)] =~= out@);
                    }
                },
                None => {
                    open = false;
                    proof {
                        assert(self.holding@ =~= held);
                        assert(before + Seq::<Result<T, DecodeError>>::empty() =~= out@);
                    }
                },
            }
        }
        out
    }

    /// The verdict once no more results can arrive. Results that still wait
    /// wait for a block that never came: that is an error of the pipeline,
    /// which names the index awaited. After an error has left nothing else is
    /// reported.
    pub fn finish(&self) -> (r: Result<(), DecodeError>)
        ensures
            r == if !self@.stopped && self@.held.len() > 0 {
                Err::<(), DecodeError>(DecodeError::Gap { expected: self@.next as usize })
            } else {
                Ok::<(), DecodeError>(())
            },
    {
        if !self.stopped && self.holding.len() > 0 {
            Err(DecodeError::Gap { expected: self.next })
        } else {
            Ok(())
        }
    }
}

/// The results that arrive, each with the index of its block, one after the
/// other into a collector in the state `st`: the state it ends in and all
/// that left.
pub open spec fn run<T>(st: CollectorState<T>, arrivals: Seq<(usize, Result<T, DecodeError>)>) -> Drained<
    T,
>
    decreases arrivals.len(),
{
    if arrivals.len() == 0 {
        Drained { state: st, out: Seq::empty() }
    } else {
        let d = run(st, arrivals.drop_last());
        let a = arrive(d.state, arrivals.last().0, arrivals.last().1);
        Drained { state: a.state, out: d.out + a.out }
    }
}

/// The state of a collector that has seen nothing.
pub open spec fn initial<T>() -> CollectorState<T> {
    CollectorState { next: 0, held: Map::empty(), stopped: false }
}

/// The indices among the first `m` arrivals.
pub open spec fn arrived<T>(arrivals: Seq<(usize, Result<T, DecodeError>)>, m: int) -> Set<usize> {
    Set::new(|k: usize| exists|j: int| 0 <= j < m && (#[trigger] arrivals[j]).0 == k)
}

/// The arrivals are the results `res` of the blocks `0..res.len()`, each
/// once, in any order.
pub open spec fn delivers<T>(
    arrivals: Seq<(usize, Result<T, DecodeError>)>,
    res: Seq<Result<T, DecodeError>>,
) -> bool {
    &&& arrivals.len() == res.len()
    &&& res.len() < usize::MAX
    &&& forall|j: int|
        0 <= j < arrivals.len() ==> (#[trigger] arrivals[j]).0 < res.len() && arrivals[j].1
            == res[arrivals[j].0 as int]
    &&& forall|i: int, j: int|
        0 <= i < j < arrivals.len() ==> (#[trigger] arrivals[i]).0 != (#[trigger] arrivals[j]).0
    &&& forall|k: usize| k < res.len() ==> #[trigger] arrived(arrivals, arrivals.len() as int).contains(k)
}

/// In `res` the first error stands at `e`; `e` is the length where there is
/// none.
pub open spec fn first_error_at<T>(res: Seq<Result<T, DecodeError>>, e: int) -> bool {
    &&& 0 <= e <= res.len()
    &&& forall|i: int| 0 <= i < e ==> (#[trigger] res[i]).is_ok()
    &&& e < res.len() ==> res[e].is_err()
}

proof fn lemma_drain<T>(
    next: nat,
    held: Map<usize, Result<T, DecodeError>>,
    res: Seq<Result<T, DecodeError>>,
    e: int,
)
    requires
        first_error_at(res, e),
        next <= e,
        res.len() < usize::MAX,
        forall|k: usize| #[trigger]
            held.contains_key(k) ==> k < res.len() && held[k] == res[k as int],
    ensures
        ({
            let d = drain(next, held);
            if d.state.stopped {
                &&& e < res.len()
                &&& d.out == res.subrange(next as int, e + 1)
            } else {
                &&& next <= d.state.next <= e
                &&& d.out == res.subrange(next as int, d.state.next as int)
                &&& !held.contains_key(d.state.next as usize)
                &&& forall|k: usize| next <= k < d.state.next ==> #[trigger] held.contains_key(k)
                &&& forall|k: usize| #[trigger]
                    d.state.held.contains_key(k) <==> held.contains_key(k) && !(next <= k
                        < d.state.next)
                &&& forall|k: usize| #[trigger]
                    d.state.held.contains_key(k) ==> d.state.held[k] == held[k]
            }
        }),
    decreases e - next,
{
    let d = drain(next, held);
    if next < usize::MAX && held.contains_key(next as usize) {
        let r = held[next as usize];
        let rest = held.remove(next as usize);
        assert(r == res[next as int]);
        if r.is_ok() {
            assert(next < e);
            lemma_drain(next + 1, rest, res, e);
            let d2 = drain(next + 1, rest);
            if d.state.stopped {
                assert(seq![r] + res.subrange(next as int + 1, e + 1) =~= res.subrange(
                    next as int,
                    e + 1,
                ));
            } else {
                assert(seq![r] + res.subrange(next as int + 1, d2.state.next as int)
                    =~= res.subrange(next as int, d2.state.next as int));
                assert forall|k: usize| next <= k < d.state.next implies #[trigger]
                    held.contains_key(k) by {
                    if k != next {
                        assert(rest.contains_key(k));
                    }
                }
            }
        } else {
            assert(next == e) by {
                if next < e {
                    assert(res[next as int].is_ok());
                }
            }
            assert(seq![r] =~= res.subrange(next as int, e + 1));
        }
    } else {
        assert(d.out =~= res.subrange(next as int, next as int));
    }
}

/// What holds of the collector after the first `m` arrivals. Once it has
/// stopped, the results up to and with the first error have left. Before
/// that, the results of all blocks below the index awaited have left, each
/// once and in order; the result awaited has not arrived; and the collector
/// holds what has arrived of the blocks behind it, and nothing else.
pub open spec fn in_step<T>(
    arrivals: Seq<(usize, Result<T, DecodeError>)>,
    res: Seq<Result<T, DecodeError>>,
    e: int,
    m: int,
) -> bool {
    let d = run(initial::<T>(), arrivals.subrange(0, m));
    let seen = arrived(arrivals, m);
    if d.state.stopped {
        e < res.len() && d.out == res.subrange(0, e + 1)
    } else {
        &&& d.state.next <= e
        &&& d.out == res.subrange(0, d.state.next as int)
        &&& forall|k: usize| k < d.state.next ==> #[trigger] seen.contains(k)
        &&& !seen.contains(d.state.next as usize)
        &&& forall|k: usize| #[trigger]
            d.state.held.contains_key(k) <==> seen.contains(k) && k > d.state.next
        &&& forall|k: usize| #[trigger]
            d.state.held.contains_key(k) ==> d.state.held[k] == res[k as int]
    }
}

/// At every moment the collector has let leave what it could, in order:
/// `in_step` holds after any number of arrivals.
pub proof fn lemma_run<T>(
    arrivals: Seq<(usize, Result<T, DecodeError>)>,
    res: Seq<Result<T, DecodeError>>,
    e: int,
    m: int,
)
    requires
        delivers(arrivals, res),
        first_error_at(res, e),
        0 <= m <= arrivals.len(),
    ensures
        in_step(arrivals, res, e, m),
    decreases m,
{
    let cur = arrivals.subrange(0, m);
    if m == 0 {
        assert(run(initial::<T>(), cur).out =~= res.subrange(0, 0));
    } else {
        lemma_run(arrivals, res, e, m - 1);
        let pre = arrivals.subrange(0, m - 1);
        assert(cur.drop_last() =~= pre);
        assert(cur.last() == arrivals[m - 1]);
        let d0 = run(initial::<T>(), pre);
        let idx = arrivals[m - 1].0;
        let r = arrivals[m - 1].1;
        let seen0 = arrived(arrivals, m - 1);
        let seen = arrived(arrivals, m);
        let a = arrive(d0.state, idx, r);
        assert(run(initial::<T>(), cur).out == d0.out + a.out);
        assert(run(initial::<T>(), cur).state == a.state);
        assert forall|k: usize| seen.contains(k) <==> seen0.contains(k) || k == idx by {
            if seen0.contains(k) {
                let j = choose|j: int| 0 <= j < m - 1 && (#[trigger] arrivals[j]).0 == k;
                assert(0 <= j < m && arrivals[j].0 == k);
            }
            if seen.contains(k) {
                let j = choose|j: int| 0 <= j < m && (#[trigger] arrivals[j]).0 == k;
                if j < m - 1 {
                    assert(seen0.contains(k));
                }
            }
        }
        assert(!seen0.contains(idx)) by {
            if seen0.contains(idx) {
                let j = choose|j: int| 0 <= j < m - 1 && (#[trigger] arrivals[j]).0 == idx;
                assert(arrivals[j].0 != arrivals[m - 1].0);
            }
        }
        if d0.state.stopped {
            assert(d0.out + a.out =~= d0.out);
        } else {
            let next = d0.state.next;
            let h = d0.state.held.insert(idx, r);
            assert(idx >= next);
            lemma_drain(next, h, res, e);
            let d = drain(next, h);
            if d.state.stopped {
                assert(res.subrange(0, next as int) + res.subrange(next as int, e + 1)
                    =~= res.subrange(0, e + 1));
            } else {
                let n2 = d.state.next;
                assert(res.subrange(0, next as int) + res.subrange(next as int, n2 as int)
                    =~= res.subrange(0, n2 as int));
                assert forall|k: usize| k < n2 implies #[trigger] seen.contains(k) by {
                    if k >= next {
                        assert(h.contains_key(k));
                    }
                }
                assert(!seen.contains(n2 as usize)) by {
                    if seen.contains(n2 as usize) {
                        assert(h.contains_key(n2 as usize));
                    }
                }
                assert forall|k: usize| #[trigger]
                    d.state.held.contains_key(k) <==> seen.contains(k) && k > n2 by {
                    if seen.contains(k) && k > n2 {
                        assert(h.contains_key(k));
                    }
                }
            }
        }
    }
}

/// The order in which results arrive does not show in what leaves. Let the
/// results `res` of the blocks `0..res.len()` arrive in any order, each once:
/// what leaves the collector is `res` in the order of the indices, up to and
/// with its first error. The collector stops exactly where there is an error,
/// and with no error it holds nothing at the end.
pub proof fn lemma_collect_in_order<T>(
    arrivals: Seq<(usize, Result<T, DecodeError>)>,
    res: Seq<Result<T, DecodeError>>,
    e: int,
)
    requires
        delivers(arrivals, res),
        first_error_at(res, e),
    ensures
        run(initial::<T>(), arrivals).out == res.subrange(
            0,
            if e < res.len() {
                e + 1
            } else {
                e
            },
        ),
        run(initial::<T>(), arrivals).state.stopped == (e < res.len()),
        e == res.len() ==> run(initial::<T>(), arrivals).state.held == Map::<
            usize,
            Result<T, DecodeError>,
        >::empty(),
        e == res.len() ==> run(initial::<T>(), arrivals).state.next == res.len(),
{
    let n = arrivals.len() as int;
    lemma_run(arrivals, res, e, n);
    assert(arrivals.subrange(0, n) =~= arrivals);
    let d = run(initial::<T>(), arrivals);
    let seen = arrived(arrivals, n);
    if !d.state.stopped {
        if d.state.next < n {
            assert(seen.contains(d.state.next as usize));
        }
        assert(d.state.next == n);
        assert forall|k: usize| !d.state.held.contains_key(k) by {
            if d.state.held.contains_key(k) {
                assert(seen.contains(k));
                let j = choose|j: int| 0 <= j < n && (#[trigger] arrivals[j]).0 == k;
                assert(k < res.len());
            }
        }
        assert(d.state.held =~= Map::<usize, Result<T, DecodeError>>::empty());
    }
}

} // verus!
