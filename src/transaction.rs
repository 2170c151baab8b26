use crate::api::{strs, Mutation, Request, TxnContext, TxnContextView};
use crate::error::DgraphError;
use std::collections::HashMap;
use vstd::prelude::*;
use vstd::string::StringExecFns;

verus! {

/// The abstract state of a transaction.
pub struct TxnView {
    pub start_ts: u64,
    pub hash: Seq<char>,
    pub aborted: bool,
    pub keys: Set<Seq<char>>,
    pub preds: Set<Seq<char>>,
    pub finished: bool,
    pub mutated: bool,
    pub dropped: bool,
}

/// The state of a transaction before any round trip.
pub open spec fn fresh() -> TxnView {
    TxnView {
        start_ts: 0,
        hash: Seq::empty(),
        aborted: false,
        keys: Set::empty(),
        preds: Set::empty(),
        finished: false,
        mutated: false,
        dropped: false,
    }
}

/// A request on the transaction is refused exactly when it has finished.
pub open spec fn request_rejected(v: TxnView) -> bool {
    v.finished
}

pub open spec fn finished_message() -> Seq<char> {
    "Transaction already finished"@
}

pub open spec fn mismatch_message() -> Seq<char> {
    "Transaction start_ts mismatch"@
}

/// The state once a request has been stamped for sending.
pub open spec fn stamp_spec(v: TxnView, mutates: bool) -> TxnView {
    TxnView { mutated: v.mutated || mutates, hash: Seq::empty(), ..v }
}

/// A returned context can be merged unless the transaction already has a
/// different start timestamp.
pub open spec fn merge_ok(v: TxnView, c: TxnContextView) -> bool {
    v.start_ts == 0 || v.start_ts == c.start_ts
}

/// The state after merging a returned context: the hash is always adopted;
/// on success the start timestamp is settled and the conflict keys and
/// predicates are added.
pub open spec fn merge_spec(v: TxnView, c: TxnContextView) -> TxnView {
    if merge_ok(v, c) {
        TxnView {
            start_ts: c.start_ts,
            hash: c.hash,
            keys: v.keys.union(c.keys.to_set()),
            preds: v.preds.union(c.preds.to_set()),
            ..v
        }
    } else {
        TxnView { hash: c.hash, ..v }
    }
}

pub open spec fn opt_view(t: Option<TxnContext>) -> Option<TxnContextView> {
    match t {
        Some(c) => Some(c@),
        None => None,
    }
}

/// The state after a request has been answered.
pub open spec fn complete_spec(v: TxnView, commit_now: bool, t: Option<TxnContextView>) -> TxnView {
    let v1 = if commit_now {
        TxnView { finished: true, ..v }
    } else {
        v
    };
    match t {
        Some(c) => merge_spec(v1, c),
        None => v1,
    }
}

pub open spec fn complete_ok(v: TxnView, commit_now: bool, t: Option<TxnContextView>) -> bool {
    match t {
        Some(c) => merge_ok(v, c),
        None => true,
    }
}

/// Whether finalizing sends a finalize call to the server: only a
/// transaction that mutated and has not finished has anything to finalize.
pub open spec fn finalize_sends(v: TxnView) -> bool {
    !v.finished && v.mutated
}

/// The state after finalizing: finished, and the context handed over.
pub open spec fn finalize_spec(v: TxnView) -> TxnView {
    if v.finished {
        v
    } else if !v.mutated {
        TxnView { finished: true, ..v }
    } else {
        TxnView {
            start_ts: 0,
            hash: Seq::empty(),
            aborted: false,
            keys: Set::empty(),
            preds: Set::empty(),
            finished: true,
            ..v
        }
    }
}

/// The finalize call carries the whole accumulated context.
pub open spec fn sent_context(c: TxnContextView, v: TxnView) -> bool {
    &&& c.start_ts == v.start_ts
    &&& c.commit_ts == 0
    &&& c.hash == v.hash
    &&& c.aborted == v.aborted
    &&& c.keys.to_set() == v.keys
    &&& c.keys.no_duplicates()
    &&& c.preds.to_set() == v.preds
    &&& c.preds.no_duplicates()
}

pub open spec fn with_abort(v: TxnView) -> TxnView {
    TxnView { aborted: true, ..v }
}

pub open spec fn discard_spec(v: TxnView) -> TxnView {
    finalize_spec(with_abort(v))
}

/// A transaction left behind mutated and unfinished, and not yet handled,
/// must be aborted in the background.
pub open spec fn drop_takes(v: TxnView) -> bool {
    !v.dropped && !v.finished && v.mutated
}

pub open spec fn drop_taken(v: TxnView) -> TxnView {
    TxnView { dropped: true, ..v }
}

proof fn lemma_to_set_push(s: Seq<Seq<char>>, a: Seq<char>)
    ensures
        s.push(a).to_set() == s.to_set().insert(a),
{
    s.lemma_push_to_set_commute(a);
}

/// Adds `s` to the strings of `v` unless one of them equals it.
fn add_unique(v: &mut Vec<String>, s: String)
    requires
        strs(old(v)@).no_duplicates(),
    ensures
        strs(final(v)@).no_duplicates(),
        strs(final(v)@).to_set() == strs(old(v)@).to_set().insert(s@),
{
    let mut i: usize = 0;
    while i < v.len()
        invariant
            strs(v@).no_duplicates(),
            v@ == old(v)@,
            i <= v@.len(),
            forall|j: int| 0 <= j < i ==> v@[j]@ != s@,
        decreases v@.len() - i,
    {
        if v[i] == s {
            assert(strs(v@)[i as int] == s@);
            assert(strs(v@).to_set() =~= strs(v@).to_set().insert(s@));
            return;
        }
        i = i + 1;
    }
    proof {
        lemma_to_set_push(strs(v@), s@);
        assert(strs(v@.push(s)) =~= strs(v@).push(s@));
    }
    v.push(s);
}

/// Adds every string of `items` to `v`, keeping `v` free of duplicates.
fn add_all(v: &mut Vec<String>, items: &Vec<String>)
    requires
        strs(old(v)@).no_duplicates(),
    ensures
        strs(final(v)@).no_duplicates(),
        strs(final(v)@).to_set() == strs(old(v)@).to_set().union(strs(items@).to_set()),
{
    let mut i: usize = 0;
    while i < items.len()
        invariant
            strs(v@).no_duplicates(),
            i <= items@.len(),
            strs(v@).to_set() == strs(old(v)@).to_set().union(strs(items@).take(i as int).to_set()),
        decreases items@.len() - i,
    {
        proof {
            assert(strs(items@).take(i + 1) =~= strs(items@).take(i as int).push(strs(items@)[i as int]));
            lemma_to_set_push(strs(items@).take(i as int), strs(items@)[i as int]);
        }
        add_unique(v, items[i].clone());
        proof {
            assert(strs(v@).to_set() =~= strs(old(v)@).to_set().union(strs(items@).take(i + 1).to_set()));
        }
        i = i + 1;
    }
    proof {
        assert(strs(items@).take(items@.len() as int) =~= strs(items@));
    }
}

/// The state of a multi-round-trip transaction: the server's context as far
/// as it is known, the conflict keys and predicates touched so far, and the
/// flags that make finalizing happen exactly once. The connection that the
/// transaction owns is held beside it by the caller, which sends what these
/// methods hand out and hands back what the server answered.
#[derive(Debug)]
pub struct Transaction {
    keys: Vec<String>,
    preds: Vec<String>,
    start_ts: u64,
    hash: String,
    aborted: bool,
    finished: bool,
    mutated: bool,
    dropped: bool,
}

impl View for Transaction {
    type V = TxnView;

    closed spec fn view(&self) -> TxnView {
        TxnView {
            start_ts: self.start_ts,
            hash: self.hash@,
            aborted: self.aborted,
            keys: strs(self.keys@).to_set(),
            preds: strs(self.preds@).to_set(),
            finished: self.finished,
            mutated: self.mutated,
            dropped: self.dropped,
        }
    }
}

impl Transaction {
    /// The conflict keys and predicates are held without duplicates.
    pub closed spec fn wf(&self) -> bool {
        &&& self.sets_wf()
        &&& !self.finished ==> !self.aborted
    }

    closed spec fn sets_wf(&self) -> bool {
        strs(self.keys@).no_duplicates() && strs(self.preds@).no_duplicates()
    }

    /// A transaction that the server has not seen yet.
    pub fn new() -> (r: Transaction)
        ensures
            r.wf(),
            r@ == fresh(),
    {
        let r = Transaction {
            keys: Vec::new(),
            preds: Vec::new(),
            start_ts: 0,
            hash: String::new(),
            aborted: false,
            finished: false,
            mutated: false,
            dropped: false,
        };
        assert(strs(r.keys@).to_set() =~= Set::empty());
        assert(strs(r.preds@).to_set() =~= Set::empty());
        r
    }

    pub fn is_finished(&self) -> (r: bool)
        ensures
            r == self@.finished,
    {
        self.finished
    }

    pub fn is_mutated(&self) -> (r: bool)
        ensures
            r == self@.mutated,
    {
        self.mutated
    }

    pub fn start_ts(&self) -> (r: u64)
        ensures
            r == self@.start_ts,
    {
        self.start_ts
    }

    /// The request of a query with variables inside the transaction.
    pub fn query_request(query: String, vars: HashMap<String, String>) -> (r: Request)
        ensures
            r.query == query,
            r.vars == vars,
            r.mutations@.len() == 0,
            r.start_ts == 0,
            r.hash@.len() == 0,
            !r.commit_now,
            !r.read_only,
            !r.best_effort,
    {
        Request::build(query, vars, Vec::new(), false, false, false)
    }

    /// The request of an upsert inside the transaction; a plain mutation is
    /// an upsert with an empty query.
    pub fn upsert_request(query: String, vars: HashMap<String, String>, mutations: Vec<Mutation>) -> (r:
        Request)
        ensures
            r.query == query,
            r.vars == vars,
            r.mutations == mutations,
            r.start_ts == 0,
            r.hash@.len() == 0,
            !r.commit_now,
            !r.read_only,
            !r.best_effort,
    {
        Request::build(query, vars, mutations, false, false, false)
    }

    /// Stamps a request with the transaction's start timestamp and hash,
    /// handing the stored hash over. Refused once the transaction finished.
    pub fn begin_request(&mut self, req: Request) -> (r: Result<Request, DgraphError>)
        requires
            old(self).wf(),
        ensures
            final(self).wf(),
            r.is_err() == request_rejected(old(self)@),
            r matches Err(e) ==> e.is_transaction(finished_message()) && final(self)@ == old(self)@,
            r matches Ok(out) ==> {
                &&& out.query == req.query
                &&& out.vars == req.vars
                &&& out.mutations == req.mutations
                &&& out.commit_now == req.commit_now
                &&& out.read_only == req.read_only
                &&& out.best_effort == req.best_effort
                &&& out.start_ts == old(self)@.start_ts
                &&& out.hash@ == old(self)@.hash
                &&& final(self)@ == stamp_spec(old(self)@, req.mutations@.len() > 0)
            },
    {
        if self.finished {
            return Err(DgraphError::Transaction(String::from_str("Transaction already finished")));
        }
        if req.mutations.len() > 0 {
            self.mutated = true;
        }
        let mut req = req;
        req.start_ts = self.start_ts;
        let mut h = String::new();
        std::mem::swap(&mut h, &mut self.hash);
        req.hash = h;
        Ok(req)
    }

    /// Merges a context that the server handed back.
    pub fn merge_context(&mut self, ctx: TxnContext) -> (r: Result<(), DgraphError>)
        requires
            old(self).wf(),
        ensures
            final(self).wf(),
            final(self)@ == merge_spec(old(self)@, ctx@),
            r.is_ok() == merge_ok(old(self)@, ctx@),
            r matches Err(e) ==> e.is_transaction(mismatch_message()),
    {
        self.hash = ctx.hash;
        if self.start_ts == 0 {
            self.start_ts = ctx.start_ts;
        }
        if self.start_ts != ctx.start_ts {
            return Err(DgraphError::Transaction(String::from_str("Transaction start_ts mismatch")));
        }
        add_all(&mut self.keys, &ctx.keys);
        add_all(&mut self.preds, &ctx.preds);
        Ok(())
    }

    /// Records the answer to a stamped request: a request that asked to
    /// commit at once finishes the transaction, and a returned context is
    /// merged.
    pub fn complete_request(&mut self, commit_now: bool, txn: Option<TxnContext>) -> (r: Result<(), DgraphError>)
        requires
            old(self).wf(),
        ensures
            final(self).wf(),
            final(self)@ == complete_spec(old(self)@, commit_now, opt_view(txn)),
            r.is_ok() == complete_ok(old(self)@, commit_now, opt_view(txn)),
            r matches Err(e) ==> e.is_transaction(mismatch_message()),
    {
        if commit_now {
            self.finished = true;
        }
        match txn {
            Some(ctx) => self.merge_context(ctx),
            None => Ok(()),
        }
    }

    /// Finalizes once: hands out the context to commit or abort, or nothing
    /// where the transaction already finished or never mutated.
    fn commit_or_abort(&mut self) -> (r: Option<TxnContext>)
        requires
            old(self).sets_wf(),
        ensures
            final(self).wf(),
            final(self)@ == finalize_spec(old(self)@),
            r.is_some() == finalize_sends(old(self)@),
            r matches Some(c) ==> sent_context(c@, old(self)@),
    {
        if self.finished {
            return None;
        }
        self.finished = true;
        if !self.mutated {
            return None;
        }
        let mut keys: Vec<String> = Vec::new();
        std::mem::swap(&mut keys, &mut self.keys);
        let mut preds: Vec<String> = Vec::new();
        std::mem::swap(&mut preds, &mut self.preds);
        let mut hash = String::new();
        std::mem::swap(&mut hash, &mut self.hash);
        let ctx = TxnContext {
            start_ts: self.start_ts,
            commit_ts: 0,
            aborted: self.aborted,
            keys,
            preds,
            hash,
        };
        self.start_ts = 0;
        self.aborted = false;
        assert(strs(self.keys@).to_set() =~= Set::empty());
        assert(strs(self.preds@).to_set() =~= Set::empty());
        Some(ctx)
    }

    /// Commits: refused once finished; otherwise hands out the context for
    /// the one commit call, or nothing where the transaction never mutated.
    pub fn commit(&mut self) -> (r: Result<Option<TxnContext>, DgraphError>)
        requires
            old(self).wf(),
        ensures
            final(self).wf(),
            r.is_err() == request_rejected(old(self)@),
            r matches Err(e) ==> e.is_transaction(finished_message()) && final(self)@ == old(self)@,
            r matches Ok(o) ==> {
                &&& final(self)@ == finalize_spec(old(self)@)
                &&& o.is_some() == finalize_sends(old(self)@)
                &&& o matches Some(c) ==> sent_context(c@, old(self)@) && !c.aborted
            },
    {
        if self.finished {
            return Err(DgraphError::Transaction(String::from_str("Transaction already finished")));
        }
        Ok(self.commit_or_abort())
    }

    /// Discards: marks the context aborted and finalizes, handing out the
    /// context for the one abort call where there is anything to abort.
    pub fn discard(&mut self) -> (r: Option<TxnContext>)
        requires
            old(self).wf(),
        ensures
            final(self).wf(),
            final(self)@ == discard_spec(old(self)@),
            r.is_some() == finalize_sends(old(self)@),
            r matches Some(c) ==> sent_context(c@, with_abort(old(self)@)) && c.aborted,
    {
        self.aborted = true;
        self.commit_or_abort()
    }

    /// Called as the transaction goes out of scope: where it mutated, has
    /// not finished and was not handled yet, its state moves out, marked
    /// handled, for a background abort; this one is left fresh.
    pub fn take_for_drop(&mut self) -> (r: Option<Transaction>)
        requires
            old(self).wf(),
        ensures
            final(self).wf(),
            r.is_some() == drop_takes(old(self)@),
            r matches Some(t) ==> t.wf() && t@ == drop_taken(old(self)@) && final(self)@ == fresh(),
            r.is_none() ==> final(self)@ == old(self)@,
    {
        if !self.dropped && !self.finished && self.mutated {
            let mut this = Transaction::new();
            std::mem::swap(&mut this, self);
            this.dropped = true;
            Some(this)
        } else {
            None
        }
    }
}

} // verus!
