//! A model of every history of the shared event flag, and the laws the
//! latch protocol obeys across whole histories.
//!
//! The model runs an arbitrary sequence of the two operations that touch
//! the flag, in the order their critical sections execute; each step is
//! exactly the transition the corresponding executable operation's contract
//! fixes. A sensor read and its dispatch never appear here: neither has
//! access to the flag.

use vstd::prelude::*;

verus! {

/// One operation on the shared event flag. `Fire` is the interrupt handler
/// latching a motion event (`SharedEventFlag::set`); `Take` is one poll of
/// the sampling loop (`SharedEventFlag::take_if_pending`).
pub enum FlagOp {
    /// The interrupt handler latches a motion event.
    Fire,
    /// The sampling loop consumes the latch.
    Take,
}

/// The flag's pending state after running `ops` from state `pending`,
/// stepping as `set` and `take_if_pending` do: a firing latches, a take
/// clears.
pub open spec fn pending_after(pending: bool, ops: Seq<FlagOp>) -> bool
    decreases ops.len(),
{
    if ops.len() == 0 {
        pending
    } else {
        let next = match ops.first() {
            FlagOp::Fire => true,
            FlagOp::Take => false,
        };
        pending_after(next, ops.drop_first())
    }
}

/// What each `Take` in `ops` returns, in order, when run from state
/// `pending`: each take reports the pending state it found and clears it.
pub open spec fn take_results(pending: bool, ops: Seq<FlagOp>) -> Seq<bool>
    decreases ops.len(),
{
    if ops.len() == 0 {
        Seq::empty()
    } else {
        match ops.first() {
            FlagOp::Fire => take_results(true, ops.drop_first()),
            FlagOp::Take => seq![pending] + take_results(false, ops.drop_first()),
        }
    }
}

/// `n` consecutive interrupt firings.
pub open spec fn fires(n: nat) -> Seq<FlagOp> {
    Seq::new(n, |i: int| FlagOp::Fire)
}

/// `m` consecutive polls of the sampling loop.
pub open spec fn takes(m: nat) -> Seq<FlagOp> {
    Seq::new(m, |i: int| FlagOp::Take)
}

/// A prefix of firings only latches the flag: it produces no take results,
/// and leaves the flag pending as soon as there is at least one firing.
proof fn lemma_fires_prefix(pending: bool, n: nat, tail: Seq<FlagOp>)
    ensures
        take_results(pending, fires(n) + tail) == take_results(pending || n > 0, tail),
        pending_after(pending, fires(n) + tail) == pending_after(pending || n > 0, tail),
    decreases n,
{
    if n == 0 {
        assert(fires(0) + tail =~= tail);
    } else {
        let ops = fires(n) + tail;
        assert(ops.first() == FlagOp::Fire);
        assert(ops.drop_first() =~= fires((n - 1) as nat) + tail);
        lemma_fires_prefix(true, (n - 1) as nat, tail);
    }
}

/// From a consumed flag, polls alone return only `false` and leave the flag
/// consumed: with no new firing there is nothing to observe.
proof fn lemma_takes_from_clear(m: nat)
    ensures
        take_results(false, takes(m)) == Seq::new(m, |i: int| false),
        !pending_after(false, takes(m)),
    decreases m,
{
    if m == 0 {
        assert(take_results(false, takes(0)) =~= Seq::new(0, |i: int| false));
    } else {
        assert(takes(m).first() == FlagOp::Take);
        assert(takes(m).drop_first() =~= takes((m - 1) as nat));
        lemma_takes_from_clear((m - 1) as nat);
        assert(seq![false] + Seq::new((m - 1) as nat, |i: int| false) =~= Seq::new(
            m,
            |i: int| false,
        ));
    }
}

/// Consuming the latch is idempotent: for any history of `n` interrupt firings
/// followed by `m` polls, with at least one of each, exactly the first poll
/// observes an event — the firings, however many, coalesce into one
/// observation, no event is observed twice, and none is lost — and the flag
/// ends consumed.
pub proof fn lemma_idempotent_consumption(n: nat, m: nat)
    requires
        n >= 1,
        m >= 1,
    ensures
        ({
            let results = take_results(false, fires(n) + takes(m));
            &&& results.len() == m
            &&& results[0] == true
            &&& forall|i: int| 1 <= i < m ==> results[i] == false
        }),
        !pending_after(false, fires(n) + takes(m)),
{
    lemma_fires_prefix(false, n, takes(m));
    assert(takes(m).first() == FlagOp::Take);
    assert(takes(m).drop_first() =~= takes((m - 1) as nat));
    lemma_takes_from_clear((m - 1) as nat);
    let results = take_results(false, fires(n) + takes(m));
    assert(results =~= seq![true] + Seq::new((m - 1) as nat, |i: int| false));
    assert forall|i: int| 1 <= i < m implies results[i] == false by {
        assert(results[i] == Seq::new((m - 1) as nat, |i2: int| false)[i - 1]);
    }
}

/// A failed read is isolated: between one poll and the next with no firing in
/// between — in particular when the read the first poll triggered failed,
/// since neither the read nor its dispatch can touch the flag — the second
/// poll observes nothing, whatever the first observed. The loop can only
/// proceed on the next independent motion event.
pub proof fn lemma_failure_isolation(pending: bool)
    ensures
        take_results(pending, seq![FlagOp::Take, FlagOp::Take]) == seq![pending, false],
{
    reveal_with_fuel(take_results, 3);
    let ops = seq![FlagOp::Take, FlagOp::Take];
    assert(ops.first() == FlagOp::Take);
    assert(ops.drop_first() =~= seq![FlagOp::Take]);
    assert(seq![FlagOp::Take].first() == FlagOp::Take);
    assert(seq![FlagOp::Take].drop_first() =~= Seq::<FlagOp>::empty());
    assert(take_results(pending, ops) =~= seq![pending, false]);
}

} // verus!
