use vstd::prelude::*;
use crate::error::CoreError;
use crate::rings::{spec_pop, spec_push};

verus! {

/// Pushes `vs` in order onto a ring that holds `q` and has room for `cap`
/// elements: the final contents and the result of each push.
pub open spec fn push_run<T>(q: Seq<T>, cap: nat, vs: Seq<T>) -> (Seq<T>, Seq<Result<(), CoreError>>)
    decreases vs.len(),
{
    if vs.len() == 0 {
        (q, Seq::empty())
    } else {
        let (q1, rs) = push_run(q, cap, vs.drop_last());
        let (q2, r) = spec_push(q1, cap, vs.last());
        (q2, rs.push(r))
    }
}

/// Pops `n` times from a ring that holds `q`: the final contents and the
/// result of each pop.
pub open spec fn pop_run<T>(q: Seq<T>, n: nat) -> (Seq<T>, Seq<Result<T, CoreError>>)
    decreases n,
{
    if n == 0 {
        (q, Seq::empty())
    } else {
        let (q1, rs) = pop_run(q, (n - 1) as nat);
        let (q2, r) = spec_pop(q1);
        (q2, rs.push(r))
    }
}

/// Runs a sequence of operations on a ring that holds `q` and has room for
/// `cap` elements, where `Some(v)` pushes `v` and `None` pops: the final
/// contents, the number of pushes that succeeded and the number of pops that
/// succeeded.
pub open spec fn run_ops<T>(q: Seq<T>, cap: nat, ops: Seq<Option<T>>) -> (Seq<T>, nat, nat)
    decreases ops.len(),
{
    if ops.len() == 0 {
        (q, 0, 0)
    } else {
        let (q1, pushed, popped) = run_ops(q, cap, ops.drop_last());
        match ops.last() {
            Some(v) => {
                let (q2, r) = spec_push(q1, cap, v);
                (q2, if r is Ok { pushed + 1 } else { pushed }, popped)
            },
            None => {
                let (q2, r) = spec_pop(q1);
                (q2, pushed, if r is Ok { popped + 1 } else { popped })
            },
        }
    }
}

proof fn lemma_push_run_fits<T>(cap: nat, vs: Seq<T>)
    requires
        vs.len() <= cap,
    ensures
        push_run(Seq::empty(), cap, vs).0 == vs,
        push_run(Seq::empty(), cap, vs).1 == Seq::new(vs.len(), |i: int| Ok::<(), CoreError>(())),
    decreases vs.len(),
{
    if vs.len() > 0 {
        lemma_push_run_fits(cap, vs.drop_last());
        assert(vs.drop_last().push(vs.last()) =~= vs);
        assert(push_run(Seq::empty(), cap, vs).1 =~= Seq::new(vs.len(), |i: int| Ok::<(), CoreError>(())));
    }
}

proof fn lemma_pop_run_prefix<T>(q: Seq<T>, n: nat)
    requires
        n <= q.len(),
    ensures
        pop_run(q, n).0 == q.subrange(n as int, q.len() as int),
        pop_run(q, n).1 == Seq::new(n, |i: int| Ok::<T, CoreError>(q[i])),
    decreases n,
{
    if n == 0 {
        assert(q.subrange(0, q.len() as int) =~= q);
        assert(pop_run(q, n).1 =~= Seq::new(n, |i: int| Ok::<T, CoreError>(q[i])));
    } else {
        lemma_pop_run_prefix(q, (n - 1) as nat);
        assert(q.subrange(n - 1, q.len() as int).drop_first() =~= q.subrange(n as int, q.len() as int));
        assert(pop_run(q, n).1 =~= Seq::new(n, |i: int| Ok::<T, CoreError>(q[i])));
    }
}

/// FIFO order: pushing `vs` (no more than the capacity) onto an empty ring
/// succeeds each time, and popping as many times as were pushed then yields
/// the values of `vs` in the order they were pushed, leaving the ring empty.
pub proof fn lemma_fifo_order<T>(cap: nat, vs: Seq<T>)
    requires
        vs.len() <= cap,
    ensures
        push_run(Seq::empty(), cap, vs).0 == vs,
        forall|i: int| 0 <= i < vs.len() ==> #[trigger] push_run(Seq::empty(), cap, vs).1[i] == Ok::<(), CoreError>(()),
        pop_run(push_run(Seq::empty(), cap, vs).0, vs.len()).0 == Seq::<T>::empty(),
        forall|i: int| 0 <= i < vs.len() ==> #[trigger] pop_run(push_run(Seq::empty(), cap, vs).0, vs.len()).1[i] == Ok::<T, CoreError>(vs[i]),
{
    lemma_push_run_fits(cap, vs);
    lemma_pop_run_prefix(vs, vs.len());
    assert(vs.subrange(vs.len() as int, vs.len() as int) =~= Seq::<T>::empty());
}

/// Full detection: of `capacity + 1` pushes onto an empty ring, the first
/// `capacity` succeed and the last one reports `RingFull`.
pub proof fn lemma_full_detection<T>(cap: nat, vs: Seq<T>)
    requires
        vs.len() == cap + 1,
    ensures
        push_run(Seq::empty(), cap, vs).1.len() == cap + 1,
        forall|i: int| 0 <= i < cap ==> #[trigger] push_run(Seq::empty(), cap, vs).1[i] == Ok::<(), CoreError>(()),
        push_run(Seq::empty(), cap, vs).1[cap as int] == Err::<(), CoreError>(CoreError::RingFull),
{
    lemma_push_run_fits(cap, vs.drop_last());
}

/// Empty detection: a pop reports `RingEmpty` exactly when the ring holds no
/// elements, and then leaves it as it was; in particular a pop after the ring
/// was drained by as many pops as it held elements reports `RingEmpty`.
pub proof fn lemma_empty_detection<T>(q: Seq<T>)
    ensures
        (spec_pop(q).1 == Err::<T, CoreError>(CoreError::RingEmpty)) == (q.len() == 0),
        q.len() == 0 ==> spec_pop(q).0 == q,
        spec_pop(pop_run(q, q.len()).0).1 == Err::<T, CoreError>(CoreError::RingEmpty),
{
    lemma_pop_run_prefix(q, q.len());
}

proof fn lemma_run_ops_len<T>(q: Seq<T>, cap: nat, ops: Seq<Option<T>>)
    ensures
        run_ops(q, cap, ops).0.len() + run_ops(q, cap, ops).2 == q.len() + run_ops(q, cap, ops).1,
    decreases ops.len(),
{
    if ops.len() > 0 {
        lemma_run_ops_len(q, cap, ops.drop_last());
    }
}

/// Length invariant: after any interleaving of pushes and pops on an empty
/// ring, no more pops than pushes have succeeded, and the ring holds as many
/// elements as successful pushes minus successful pops.
pub proof fn lemma_length_invariant<T>(cap: nat, ops: Seq<Option<T>>)
    ensures
        run_ops(Seq::empty(), cap, ops).2 <= run_ops(Seq::empty(), cap, ops).1,
        run_ops(Seq::empty(), cap, ops).0.len() == run_ops(Seq::empty(), cap, ops).1 - run_ops(Seq::empty(), cap, ops).2,
{
    lemma_run_ops_len(Seq::<T>::empty(), cap, ops);
}

/// A ring of capacity one is a one-slot hand-off: a push onto it succeeds, a
/// second push before any pop reports `RingFull`, and a pop returns the first
/// value and empties it.
pub proof fn lemma_single_slot<T>(a: T, b: T)
    ensures
        spec_push(Seq::<T>::empty(), 1, a) == (seq![a], Ok::<(), CoreError>(())),
        spec_push(seq![a], 1, b) == (seq![a], Err::<(), CoreError>(CoreError::RingFull)),
        spec_pop(seq![a]) == (Seq::<T>::empty(), Ok::<T, CoreError>(a)),
{
    assert(Seq::<T>::empty().push(a) =~= seq![a]);
    assert(seq![a].drop_first() =~= Seq::<T>::empty());
}

} // verus!
