use std::collections::HashMap;
use vstd::prelude::*;
use vstd::string::{StrSliceExecFns, StringExecFns};
use vstd::utf8::{decode_utf8, encode_utf8, valid_utf8};

verus! {

/// The strings of a sequence, as character sequences.
pub open spec fn strs(v: Seq<String>) -> Seq<Seq<char>> {
    v.map_values(|s: String| s@)
}

/// The text of a byte string read as UTF-8, each invalid sequence replaced
/// by U+FFFD. It depends on the bytes alone.
pub uninterp spec fn utf8_lossy(b: Seq<u8>) -> Seq<char>;

/// Relies on `String::from_utf8_lossy`: the bytes read as UTF-8, with the
/// invalid sequences replaced; valid UTF-8 comes back as its text.
#[verifier::external_body]
fn lossy_text(b: &Vec<u8>) -> (r: String)
    ensures
        r@ == utf8_lossy(b@),
        valid_utf8(b@) ==> r@ == decode_utf8(b@),
{
    String::from_utf8_lossy(b).into_owned()
}

pub open spec fn bool_text(b: bool) -> Seq<char> {
    if b {
        "true"@
    } else {
        "false"@
    }
}

/// One triple of a mutation, passed through untouched.
#[derive(Debug, Clone)]
pub struct NQuad {
    pub subject: String,
    pub predicate: String,
    pub object_id: String,
    pub object_value: String,
}

pub open spec fn nquad_text(q: NQuad) -> Seq<char> {
    q.subject@ + " "@ + q.predicate@ + " "@ + q.object_id@ + " "@ + q.object_value@
}

/// The triples, separated by a comma and a space.
pub open spec fn nquads_text(s: Seq<NQuad>) -> Seq<char>
    decreases s.len(),
{
    if s.len() == 0 {
        Seq::empty()
    } else if s.len() == 1 {
        nquad_text(s[0])
    } else {
        nquads_text(s.drop_last()) + ", "@ + nquad_text(s.last())
    }
}

pub open spec fn nquad_list_text(s: Seq<NQuad>) -> Seq<char> {
    "["@ + nquads_text(s) + "]"@
}

fn nquad_list_string(v: &Vec<NQuad>) -> (r: String)
    ensures
        r@ == nquad_list_text(v@),
{
    let mut s = String::from_str("[");
    let mut i: usize = 0;
    while i < v.len()
        invariant
            i <= v@.len(),
            s@ == "["@ + nquads_text(v@.take(i as int)),
        decreases v@.len() - i,
    {
        let ghost before = s@;
        if i > 0 {
            s.append(", ");
        }
        let q = &v[i];
        s.append(q.subject.as_str());
        s.append(" ");
        s.append(q.predicate.as_str());
        s.append(" ");
        s.append(q.object_id.as_str());
        s.append(" ");
        s.append(q.object_value.as_str());
        proof {
            let t = v@.take(i + 1);
            assert(t.drop_last() =~= v@.take(i as int));
            assert(t.last() == v@[i as int]);
            if i == 0 {
                assert(nquads_text(v@.take(0)) =~= Seq::<char>::empty());
            }
            assert(s@ =~= "["@ + nquads_text(t));
        }
        i = i + 1;
    }
    proof {
        assert(v@.take(v@.len() as int) =~= v@);
    }
    s.append("]");
    s
}

/// One mutation of a request; its content is passed through untouched.
#[derive(Debug, Clone)]
pub struct Mutation {
    pub set_json: Vec<u8>,
    pub delete_json: Vec<u8>,
    pub set_nquads: Vec<u8>,
    pub del_nquads: Vec<u8>,
    pub set: Vec<NQuad>,
    pub del: Vec<NQuad>,
    pub cond: String,
    pub commit_now: bool,
}

impl Mutation {
    pub fn new() -> (r: Mutation)
        ensures
            r.set_json@.len() == 0,
            r.delete_json@.len() == 0,
            r.set_nquads@.len() == 0,
            r.del_nquads@.len() == 0,
            r.set@.len() == 0,
            r.del@.len() == 0,
            r.cond@.len() == 0,
            !r.commit_now,
    {
        Mutation {
            set_json: Vec::new(),
            delete_json: Vec::new(),
            set_nquads: Vec::new(),
            del_nquads: Vec::new(),
            set: Vec::new(),
            del: Vec::new(),
            cond: String::new(),
            commit_now: false,
        }
    }

    /// Sets the triples to add, as the UTF-8 bytes of `set`.
    pub fn set_set_nquads(&mut self, set: String)
        ensures
            final(self).set_nquads@ == encode_utf8(set@),
            final(self).set_json == old(self).set_json,
            final(self).delete_json == old(self).delete_json,
            final(self).del_nquads == old(self).del_nquads,
            final(self).set == old(self).set,
            final(self).del == old(self).del,
            final(self).cond == old(self).cond,
            final(self).commit_now == old(self).commit_now,
    {
        self.set_nquads = set.as_str().as_bytes_vec();
    }

    /// Sets the triples to delete, as the UTF-8 bytes of `del`.
    pub fn set_delete_nquads(&mut self, del: String)
        ensures
            final(self).del_nquads@ == encode_utf8(del@),
            final(self).set_json == old(self).set_json,
            final(self).delete_json == old(self).delete_json,
            final(self).set_nquads == old(self).set_nquads,
            final(self).set == old(self).set,
            final(self).del == old(self).del,
            final(self).cond == old(self).cond,
            final(self).commit_now == old(self).commit_now,
    {
        self.del_nquads = del.as_str().as_bytes_vec();
    }

    /// Sets the condition under which the mutation applies.
    pub fn set_cond(&mut self, cond: String)
        ensures
            final(self).cond == cond,
            final(self).set_json == old(self).set_json,
            final(self).delete_json == old(self).delete_json,
            final(self).set_nquads == old(self).set_nquads,
            final(self).del_nquads == old(self).del_nquads,
            final(self).set == old(self).set,
            final(self).del == old(self).del,
            final(self).commit_now == old(self).commit_now,
    {
        self.cond = cond;
    }
}

impl Mutation {
    /// The readable text of a mutation: one line per field, the byte
    /// payloads read as UTF-8.
    pub open spec fn text(&self) -> Seq<char> {
        "Mutation {\n"@ + "  set_json: "@ + utf8_lossy(self.set_json@) + "\n"@ + "  delete_json: "@
            + utf8_lossy(self.delete_json@) + "\n"@ + "  set_nquads: "@ + utf8_lossy(
            self.set_nquads@,
        ) + "\n"@ + "  del_nquads: "@ + utf8_lossy(self.del_nquads@) + "\n"@ + "  set: "@ + nquad_list_text(self.set@) + "\n"@ + "  del: "@ + nquad_list_text(
            self.del@,
        ) + "\n"@ + "  cond: "@
            + self.cond@ + "\n"@ + "  commit_now: "@ + bool_text(self.commit_now) + "\n"@ + "}\n"@
    }

    pub fn to_display_string(&self) -> (r: String)
        ensures
            r@ == self.text(),
    {
        let mut s = String::from_str("Mutation {\n");
        s.append("  set_json: ");
        s.append(lossy_text(&self.set_json).as_str());
        s.append("\n");
        s.append("  delete_json: ");
        s.append(lossy_text(&self.delete_json).as_str());
        s.append("\n");
        s.append("  set_nquads: ");
        s.append(lossy_text(&self.set_nquads).as_str());
        s.append("\n");
        s.append("  del_nquads: ");
        s.append(lossy_text(&self.del_nquads).as_str());
        s.append("\n");
        s.append("  set: ");
        s.append(nquad_list_string(&self.set).as_str());
        s.append("\n");
        s.append("  del: ");
        s.append(nquad_list_string(&self.del).as_str());
        s.append("\n");
        s.append("  cond: ");
        s.append(self.cond.as_str());
        s.append("\n");
        s.append("  commit_now: ");
        if self.commit_now {
            s.append("true");
        } else {
            s.append("false");
        }
        s.append("\n");
        s.append("}\n");
        s
    }
}

/// The transaction context that the server hands back and that a
/// finalize call carries.
#[derive(Debug, Clone)]
pub struct TxnContext {
    pub start_ts: u64,
    pub commit_ts: u64,
    pub aborted: bool,
    pub keys: Vec<String>,
    pub preds: Vec<String>,
    pub hash: String,
}

/// A context as plain values: the keys and predicates as character sequences.
pub struct TxnContextView {
    pub start_ts: u64,
    pub commit_ts: u64,
    pub aborted: bool,
    pub keys: Seq<Seq<char>>,
    pub preds: Seq<Seq<char>>,
    pub hash: Seq<char>,
}

impl View for TxnContext {
    type V = TxnContextView;

    open spec fn view(&self) -> TxnContextView {
        TxnContextView {
            start_ts: self.start_ts,
            commit_ts: self.commit_ts,
            aborted: self.aborted,
            keys: strs(self.keys@),
            preds: strs(self.preds@),
            hash: self.hash@,
        }
    }
}

impl TxnContext {
    /// A context as the server would hand it back after a round trip.
    pub fn new(start_ts: u64, keys: Vec<String>, preds: Vec<String>, hash: String) -> (r:
        TxnContext)
        ensures
            r.start_ts == start_ts,
            r.commit_ts == 0,
            !r.aborted,
            r.keys == keys,
            r.preds == preds,
            r.hash == hash,
    {
        TxnContext { start_ts, commit_ts: 0, aborted: false, keys, preds, hash }
    }
}

/// One round trip's request.
#[derive(Debug, Clone)]
pub struct Request {
    pub query: String,
    pub vars: HashMap<String, String>,
    pub mutations: Vec<Mutation>,
    pub start_ts: u64,
    pub hash: String,
    pub commit_now: bool,
    pub read_only: bool,
    pub best_effort: bool,
}

impl Request {
    /// A request with no transaction stamp yet (`start_ts` 0, empty hash).
    pub fn build(
        query: String,
        vars: HashMap<String, String>,
        mutations: Vec<Mutation>,
        commit_now: bool,
        read_only: bool,
        best_effort: bool,
    ) -> (r: Request)
        ensures
            r.query == query,
            r.vars == vars,
            r.mutations == mutations,
            r.start_ts == 0,
            r.hash@.len() == 0,
            r.commit_now == commit_now,
            r.read_only == read_only,
            r.best_effort == best_effort,
    {
        Request {
            query,
            vars,
            mutations,
            start_ts: 0,
            hash: String::new(),
            commit_now,
            read_only,
            best_effort,
        }
    }
}

/// Server-side timings of a request, in nanoseconds.
#[derive(Debug, Clone, Copy)]
pub struct Latency {
    pub parsing_ns: u64,
    pub processing_ns: u64,
    pub encoding_ns: u64,
    pub assign_timestamp_ns: u64,
    pub total_ns: u64,
}

/// Server-side counters of a request.
#[derive(Debug, Clone)]
pub struct Metrics {
    pub num_uids: HashMap<String, u64>,
}

/// What the server answers to a request.
#[derive(Debug, Clone)]
pub struct Response {
    pub json: Vec<u8>,
    pub txn: Option<TxnContext>,
    pub latency: Option<Latency>,
    pub metrics: Option<Metrics>,
}

} // verus!
