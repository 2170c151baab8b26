use crate::api::TxnContextView;
use crate::transaction::{
    complete_spec, discard_spec, drop_taken, drop_takes, finalize_sends, finalize_spec, fresh,
    merge_ok, merge_spec, request_rejected, stamp_spec, with_abort, TxnView,
};
use vstd::prelude::*;

verus! {

/// After a commit or a discard, every further request is refused and no
/// further finalize call is sent.
pub proof fn lemma_finalized_rejects_requests(v: TxnView)
    ensures
        request_rejected(finalize_spec(v)),
        request_rejected(discard_spec(v)),
        !finalize_sends(finalize_spec(v)),
        !finalize_sends(discard_spec(v)),
        finalize_spec(finalize_spec(v)) == finalize_spec(v),
{
}

/// Merging the same context twice changes nothing after the first merge.
pub proof fn lemma_merge_idempotent(v: TxnView, c: TxnContextView)
    requires
        merge_ok(v, c),
    ensures
        merge_ok(merge_spec(v, c), c),
        merge_spec(merge_spec(v, c), c) == merge_spec(v, c),
{
    let m = merge_spec(v, c);
    assert(m.keys.union(c.keys.to_set()) =~= m.keys);
    assert(m.preds.union(c.preds.to_set()) =~= m.preds);
}

/// Two contexts that merge in either order give the same start timestamp,
/// conflict keys and predicates.
pub proof fn lemma_merge_commutes(v: TxnView, c1: TxnContextView, c2: TxnContextView)
    requires
        merge_ok(v, c1),
        merge_ok(merge_spec(v, c1), c2),
        merge_ok(v, c2),
        merge_ok(merge_spec(v, c2), c1),
    ensures
        merge_spec(merge_spec(v, c1), c2).start_ts == merge_spec(merge_spec(v, c2), c1).start_ts,
        merge_spec(merge_spec(v, c1), c2).keys == merge_spec(merge_spec(v, c2), c1).keys,
        merge_spec(merge_spec(v, c1), c2).preds == merge_spec(merge_spec(v, c2), c1).preds,
{
    let m1 = merge_spec(v, c1);
    let m2 = merge_spec(v, c2);
    let a = merge_spec(m1, c2);
    let b = merge_spec(m2, c1);
    assert(a.keys == v.keys.union(c1.keys.to_set()).union(c2.keys.to_set()));
    assert(b.keys == v.keys.union(c2.keys.to_set()).union(c1.keys.to_set()));
    assert(a.preds == v.preds.union(c1.preds.to_set()).union(c2.preds.to_set()));
    assert(b.preds == v.preds.union(c2.preds.to_set()).union(c1.preds.to_set()));
    assert(a.keys =~= b.keys);
    assert(a.preds =~= b.preds);
}

/// Once a nonzero start timestamp is settled, a context with another one is
/// refused and the timestamp stays.
pub proof fn lemma_merge_mismatch(v: TxnView, c1: TxnContextView, c2: TxnContextView)
    requires
        merge_ok(v, c1),
        c1.start_ts != 0,
        c2.start_ts != c1.start_ts,
    ensures
        !merge_ok(merge_spec(v, c1), c2),
        merge_spec(merge_spec(v, c1), c2).start_ts == c1.start_ts,
{
}

/// A start timestamp, once set, never changes, and the conflict keys and
/// predicates only grow, whatever context comes back.
pub proof fn lemma_merge_keeps_start_and_grows(v: TxnView, c: TxnContextView)
    ensures
        v.start_ts != 0 ==> merge_spec(v, c).start_ts == v.start_ts,
        v.keys.subset_of(merge_spec(v, c).keys),
        v.preds.subset_of(merge_spec(v, c).preds),
{
}

/// Requests without mutations leave a transaction unmutated, and an
/// unmutated transaction finishes without any finalize call.
pub proof fn lemma_unmutated_commit_sends_nothing(
    v: TxnView,
    commit_now: bool,
    t: Option<TxnContextView>,
)
    requires
        !v.mutated,
    ensures
        !stamp_spec(v, false).mutated,
        !complete_spec(v, commit_now, t).mutated,
        !finalize_sends(v),
        finalize_spec(v).finished,
{
}

/// A mutating request that commits at once leaves the transaction finished:
/// every further request is refused and nothing is left to finalize.
pub proof fn lemma_commit_now_finishes(v: TxnView, t: Option<TxnContextView>)
    requires
        !request_rejected(v),
    ensures
        stamp_spec(v, true).mutated,
        request_rejected(complete_spec(stamp_spec(v, true), true, t)),
        !finalize_sends(complete_spec(stamp_spec(v, true), true, t)),
{
}

/// A transaction dropped while mutated and unfinished is taken for a
/// background abort, which sends exactly one abort call: afterwards neither
/// it nor the fresh state left behind is taken or finalized again.
pub proof fn lemma_drop_aborts_once(v: TxnView)
    requires
        drop_takes(v),
    ensures
        finalize_sends(drop_taken(v)),
        with_abort(drop_taken(v)).aborted,
        !drop_takes(drop_taken(v)),
        !drop_takes(discard_spec(drop_taken(v))),
        !finalize_sends(discard_spec(drop_taken(v))),
        !drop_takes(fresh()),
        !finalize_sends(fresh()),
{
}

} // verus!
