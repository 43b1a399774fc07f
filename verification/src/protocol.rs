//! The locking discipline of the swap protocol, proved over whole event
//! sequences.
//!
//! `swap_token` ensures that it transforms the pool state by
//! [`spec_request_step`], and `swap_token_withdraw` by
//! [`spec_finalize_step`].  Any run of the pool is therefore a fold of
//! those two steps over the sequence of entry and finalization events it
//! served, and the lemmas here speak about every such run: the pending
//! lock is held exactly between an accepted request and its
//! finalization, and two requests can only both be accepted with a
//! finalization between them.

use vstd::prelude::*;

use crate::swap::{spec_finalize_step, spec_request_accepted, spec_request_step, PoolState};

verus! {

/// One observable step of the swap protocol: a swap request for a
/// symbol, or the finalization of the swap in flight.
pub ghost enum SwapEvent {
    Request { symbol: Seq<char> },
    Finalize,
}

/// The state transformer of one event.
pub open spec fn apply_event(s: PoolState, e: SwapEvent) -> PoolState {
    match e {
        SwapEvent::Request { symbol } => spec_request_step(s, symbol),
        SwapEvent::Finalize => spec_finalize_step(s),
    }
}

/// The pool state after serving `evs` from `s0`, in order.
pub open spec fn run(s0: PoolState, evs: Seq<SwapEvent>) -> PoolState
    decreases evs.len(),
{
    if evs.len() == 0 {
        s0
    } else {
        apply_event(run(s0, evs.drop_last()), evs.last())
    }
}

/// Whether the event at position `i` is a swap request that the pool
/// accepts: a request for a swap symbol, arriving while no swap is in
/// flight.
pub open spec fn accepted_at(s0: PoolState, evs: Seq<SwapEvent>, i: int) -> bool {
    &&& 0 <= i < evs.len()
    &&& evs[i] matches SwapEvent::Request { symbol } && spec_request_accepted(
        run(s0, evs.take(i)),
        symbol,
    )
}

/// No finalization event strictly between positions `lo` and `hi`.
pub open spec fn no_finalize_in(evs: Seq<SwapEvent>, lo: int, hi: int) -> bool {
    forall|m: int| lo < m < hi ==> !(evs[m] is Finalize)
}

/// The pending lock, characterized over every run that starts idle: it
/// is held after `evs` exactly when some request was accepted and no
/// finalization has followed it.
pub proof fn lemma_pending_characterized(s0: PoolState, evs: Seq<SwapEvent>)
    requires
        !s0.pending,
    ensures
        run(s0, evs).pending <==> exists|i: int|
            accepted_at(s0, evs, i) && no_finalize_in(evs, i, evs.len() as int),
    decreases evs.len(),
{
    if evs.len() == 0 {
        assert(forall|i: int| !accepted_at(s0, evs, i));
    } else {
        let n = evs.len() as int;
        let p = evs.drop_last();
        let last = evs.last();
        lemma_pending_characterized(s0, p);
        assert forall|i: int| 0 <= i <= p.len() implies evs.take(i) == p.take(i) by {
            assert(evs.take(i) =~= p.take(i));
        }
        match last {
            SwapEvent::Finalize => {
                assert(!run(s0, evs).pending);
                assert forall|i: int| accepted_at(s0, evs, i) implies !no_finalize_in(
                    evs,
                    i,
                    n,
                ) by {
                    assert(i < n - 1);
                    assert(evs[n - 1] is Finalize);
                }
            },
            SwapEvent::Request { symbol } => {
                let sp = run(s0, p);
                assert(evs.take(n - 1) == p);
                if spec_request_accepted(sp, symbol) {
                    assert(run(s0, evs).pending);
                    assert(accepted_at(s0, evs, n - 1));
                    assert(no_finalize_in(evs, n - 1, n));
                } else {
                    assert(run(s0, evs).pending == sp.pending);
                    if sp.pending {
                        let i = choose|i: int|
                            accepted_at(s0, p, i) && no_finalize_in(p, i, p.len() as int);
                        assert(accepted_at(s0, evs, i));
                        assert forall|m: int| i < m < n implies !(evs[m] is Finalize) by {
                            if m < n - 1 {
                                assert(evs[m] == p[m]);
                            } else {
                                assert(evs[m] == last);
                            }
                        }
                        assert(accepted_at(s0, evs, i) && no_finalize_in(evs, i, n));
                    } else {
                        assert forall|i: int| accepted_at(s0, evs, i) implies !no_finalize_in(
                            evs,
                            i,
                            n,
                        ) by {
                            if i == n - 1 {
                                assert(spec_request_accepted(run(s0, evs.take(n - 1)), symbol));
                                assert(false);
                            } else {
                                assert(evs[i] == p[i]);
                                assert(accepted_at(s0, p, i));
                                if no_finalize_in(evs, i, n) {
                                    assert forall|m: int| i < m < p.len() implies !(p[m]
                                        is Finalize) by {
                                        assert(p[m] == evs[m]);
                                    }
                                    assert(no_finalize_in(p, i, p.len() as int));
                                    assert(run(s0, p).pending);
                                    assert(false);
                                }
                            }
                        }
                    }
                }
            },
        }
    }
}

/// The pending lock is held for the entire interval between a swap's
/// acceptance and its finalization: after any prefix that extends the
/// acceptance and holds no finalization yet, the lock is still set.
pub proof fn lemma_pending_through_interval(s0: PoolState, evs: Seq<SwapEvent>, i: int, k: int)
    requires
        !s0.pending,
        accepted_at(s0, evs, i),
        i < k <= evs.len(),
        no_finalize_in(evs, i, k),
    ensures
        run(s0, evs.take(k)).pending,
{
    let t = evs.take(k);
    lemma_pending_characterized(s0, t);
    assert(t.take(i) =~= evs.take(i));
    assert(t[i] == evs[i]);
    assert(accepted_at(s0, t, i));
    assert forall|m: int| i < m < t.len() implies !(t[m] is Finalize) by {
        assert(t[m] == evs[m]);
    }
    assert(accepted_at(s0, t, i) && no_finalize_in(t, i, t.len() as int));
}

/// The pending lock is clear whenever every accepted request has been
/// followed by a finalization: the "false at all other times" half of
/// the locking discipline.
pub proof fn lemma_idle_when_settled(s0: PoolState, evs: Seq<SwapEvent>)
    requires
        !s0.pending,
        forall|i: int|
            accepted_at(s0, evs, i) ==> exists|m: int|
                i < m < evs.len() && evs[m] is Finalize,
    ensures
        !run(s0, evs).pending,
{
    lemma_pending_characterized(s0, evs);
    if run(s0, evs).pending {
        let i = choose|i: int|
            accepted_at(s0, evs, i) && no_finalize_in(evs, i, evs.len() as int);
        let m = choose|m: int| i < m < evs.len() && evs[m] is Finalize;
        assert(!(evs[m] is Finalize));
        assert(false);
    }
}

/// Never two swaps in flight at once: two accepted requests always have
/// a finalization strictly between them.
pub proof fn lemma_never_two_in_flight(s0: PoolState, evs: Seq<SwapEvent>, i: int, j: int)
    requires
        !s0.pending,
        accepted_at(s0, evs, i),
        accepted_at(s0, evs, j),
        i < j,
    ensures
        exists|m: int| i < m < j && evs[m] is Finalize,
{
    let t = evs.take(j);
    lemma_pending_characterized(s0, t);
    assert(!run(s0, t).pending);
    assert(t.take(i) =~= evs.take(i));
    assert(t[i] == evs[i]);
    assert(accepted_at(s0, t, i));
    assert(!no_finalize_in(t, i, t.len() as int));
    let m = choose|m: int| i < m < t.len() && t[m] is Finalize;
    assert(t[m] == evs[m]);
    assert(i < m < j && evs[m] is Finalize);
}

} // verus!
