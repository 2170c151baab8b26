use dgraph_txn::{DgraphError, Mutation, Request, Transaction, TxnContext};
use std::collections::HashMap;

fn strings(v: &[&str]) -> Vec<String> {
    v.iter().map(|s| s.to_string()).collect()
}

fn mutation_request() -> Request {
    Transaction::upsert_request(String::new(), HashMap::new(), vec![Mutation::new()])
}

fn query_request() -> Request {
    Transaction::query_request("{ q(func: uid(0x1)) { uid } }".to_string(), HashMap::new())
}

fn finished_error() -> DgraphError {
    DgraphError::Transaction("Transaction already finished".to_string())
}

fn mismatch_error() -> DgraphError {
    DgraphError::Transaction("Transaction start_ts mismatch".to_string())
}

#[test]
fn keys_accumulate_into_commit() {
    let mut txn = Transaction::new();
    let sent = txn.begin_request(mutation_request()).unwrap();
    assert_eq!(sent.start_ts, 0);
    assert!(!sent.commit_now);
    let ctx = TxnContext::new(7, strings(&["a"]), strings(&["p"]), "h1".to_string());
    txn.complete_request(false, Some(ctx)).unwrap();
    assert_eq!(txn.start_ts(), 7);

    let sent = txn.begin_request(mutation_request()).unwrap();
    assert_eq!(sent.start_ts, 7);
    assert_eq!(sent.hash, "h1");
    let ctx = TxnContext::new(7, strings(&["b"]), strings(&["p"]), "h2".to_string());
    txn.complete_request(false, Some(ctx)).unwrap();

    let ctx = txn.commit().unwrap().unwrap();
    assert_eq!(ctx.start_ts, 7);
    assert_eq!(ctx.keys, strings(&["a", "b"]));
    assert_eq!(ctx.preds, strings(&["p"]));
    assert_eq!(ctx.hash, "h2");
    assert!(!ctx.aborted);
    assert!(txn.is_finished());
}

#[test]
fn start_ts_mismatch_is_refused() {
    let mut txn = Transaction::new();
    txn.begin_request(mutation_request()).unwrap();
    let ctx = TxnContext::new(5, strings(&["a"]), vec![], String::new());
    txn.complete_request(false, Some(ctx)).unwrap();
    txn.begin_request(mutation_request()).unwrap();
    let ctx = TxnContext::new(6, strings(&["b"]), vec![], String::new());
    assert_eq!(txn.complete_request(false, Some(ctx)), Err(mismatch_error()));
    assert_eq!(txn.start_ts(), 5);
    let ctx = txn.commit().unwrap().unwrap();
    assert_eq!(ctx.start_ts, 5);
    assert_eq!(ctx.keys, strings(&["a"]));
}

#[test]
fn merging_twice_changes_nothing() {
    let mut txn = Transaction::new();
    txn.begin_request(mutation_request()).unwrap();
    let ctx = TxnContext::new(3, strings(&["k1", "k2"]), strings(&["p"]), "h".to_string());
    txn.merge_context(ctx.clone()).unwrap();
    txn.merge_context(ctx).unwrap();
    let sent = txn.commit().unwrap().unwrap();
    assert_eq!(sent.start_ts, 3);
    assert_eq!(sent.keys, strings(&["k1", "k2"]));
    assert_eq!(sent.preds, strings(&["p"]));
}

#[test]
fn merge_adopts_hash_even_on_mismatch() {
    let mut txn = Transaction::new();
    txn.merge_context(TxnContext::new(4, vec![], vec![], "h1".to_string())).unwrap();
    let r = txn.merge_context(TxnContext::new(9, strings(&["x"]), vec![], "h2".to_string()));
    assert_eq!(r, Err(mismatch_error()));
    let sent = txn.begin_request(query_request()).unwrap();
    assert_eq!(sent.hash, "h2");
    assert_eq!(sent.start_ts, 4);
}

#[test]
fn finished_after_commit_refuses_requests() {
    let mut txn = Transaction::new();
    txn.begin_request(mutation_request()).unwrap();
    txn.complete_request(false, Some(TxnContext::new(2, vec![], vec![], String::new())))
        .unwrap();
    assert!(txn.commit().unwrap().is_some());
    assert_eq!(txn.begin_request(query_request()).unwrap_err(), finished_error());
    assert_eq!(txn.commit().unwrap_err(), finished_error());
    assert!(txn.discard().is_none());
}

#[test]
fn finished_after_discard_refuses_requests() {
    let mut txn = Transaction::new();
    txn.begin_request(mutation_request()).unwrap();
    txn.complete_request(false, Some(TxnContext::new(2, strings(&["k"]), vec![], String::new())))
        .unwrap();
    let ctx = txn.discard().unwrap();
    assert!(ctx.aborted);
    assert_eq!(ctx.start_ts, 2);
    assert_eq!(ctx.keys, strings(&["k"]));
    assert_eq!(txn.begin_request(mutation_request()).unwrap_err(), finished_error());
    assert!(txn.discard().is_none());
}

#[test]
fn unmutated_commit_sends_nothing() {
    let mut txn = Transaction::new();
    txn.begin_request(query_request()).unwrap();
    txn.complete_request(false, Some(TxnContext::new(8, vec![], vec![], String::new())))
        .unwrap();
    assert!(!txn.is_mutated());
    assert!(matches!(txn.commit(), Ok(None)));
    assert!(txn.is_finished());
}

#[test]
fn unmutated_discard_sends_nothing() {
    let mut txn = Transaction::new();
    assert!(txn.discard().is_none());
    assert!(txn.is_finished());
}

#[test]
fn commit_now_finishes_at_once() {
    let mut txn = Transaction::new();
    let mut req = mutation_request();
    req.commit_now = true;
    let sent = txn.begin_request(req).unwrap();
    assert!(sent.commit_now);
    txn.complete_request(true, Some(TxnContext::new(11, strings(&["a"]), vec![], String::new())))
        .unwrap();
    assert!(txn.is_finished());
    assert_eq!(txn.begin_request(query_request()).unwrap_err(), finished_error());
    assert_eq!(txn.commit().unwrap_err(), finished_error());
}

#[test]
fn drop_takes_state_for_one_abort() {
    let mut txn = Transaction::new();
    txn.begin_request(mutation_request()).unwrap();
    txn.complete_request(false, Some(TxnContext::new(5, strings(&["a"]), vec![], String::new())))
        .unwrap();
    let mut taken = txn.take_for_drop().unwrap();
    assert!(!txn.is_mutated());
    assert!(txn.take_for_drop().is_none());
    assert!(taken.take_for_drop().is_none());
    let ctx = taken.discard().unwrap();
    assert!(ctx.aborted);
    assert_eq!(ctx.start_ts, 5);
    assert_eq!(ctx.keys, strings(&["a"]));
    assert!(taken.discard().is_none());
    assert!(taken.take_for_drop().is_none());
}

#[test]
fn drop_of_unmutated_or_finished_takes_nothing() {
    let mut txn = Transaction::new();
    assert!(txn.take_for_drop().is_none());
    txn.begin_request(mutation_request()).unwrap();
    txn.commit().unwrap();
    assert!(txn.take_for_drop().is_none());
}

#[test]
fn request_stamp_hands_hash_over() {
    let mut txn = Transaction::new();
    txn.merge_context(TxnContext::new(1, vec![], vec![], "h".to_string())).unwrap();
    assert_eq!(txn.begin_request(query_request()).unwrap().hash, "h");
    assert_eq!(txn.begin_request(query_request()).unwrap().hash, "");
}
