use dgraph_txn::{Client, DgraphConnectionManager, DgraphError, EndpointAddresses, Mutation, NQuad};
use std::collections::HashMap;

#[test]
fn mutation_builders_set_fields() {
    let mut mu = Mutation::new();
    assert!(mu.set_nquads.is_empty() && mu.del_nquads.is_empty() && mu.cond.is_empty());
    mu.set_set_nquads("_:a <name> \"x\" .".to_string());
    mu.set_delete_nquads("<0x1> * * .".to_string());
    mu.set_cond("@if(eq(len(system), 0) AND eq(len(envs), 3))".to_string());
    assert_eq!(mu.set_nquads, b"_:a <name> \"x\" .".to_vec());
    assert_eq!(mu.del_nquads, b"<0x1> * * .".to_vec());
    assert_eq!(mu.cond, "@if(eq(len(system), 0) AND eq(len(envs), 3))");
    assert!(!mu.commit_now);
}

#[test]
fn client_requests_commit_now() {
    let c = Client::new(true, true);
    let r = c.query_request("{ q(func: has(name)) { uid } }".to_string(), HashMap::new());
    assert!(r.commit_now && r.read_only && r.best_effort);
    assert_eq!(r.start_ts, 0);
    let r = c.upsert_request(String::new(), HashMap::new(), vec![Mutation::new()]);
    assert!(r.commit_now && r.read_only && r.best_effort);
    assert_eq!(r.mutations.len(), 1);
    let c = Client::new(true, false);
    let r = c.upsert_request("q".to_string(), HashMap::new(), vec![Mutation::new()]);
    assert!(r.read_only && !r.best_effort);
    let c = Client::new(false, false);
    let r = c.query_request("q".to_string(), HashMap::new());
    assert!(!r.read_only && !r.best_effort);
    let r = c.upsert_request(String::new(), HashMap::new(), vec![]);
    assert!(r.commit_now && !r.read_only && !r.best_effort);
}

#[test]
fn endpoints_resolve_in_order() {
    let addrs = EndpointAddresses::Owned(vec![
        "http://127.0.0.1:9080".to_string(),
        "http://127.0.0.1:9081".to_string(),
    ]);
    let eps = addrs.to_endpoints().unwrap();
    assert_eq!(eps.len(), 2);
    assert_eq!(eps[1].uri().port_u16(), Some(9081));
    let addrs = EndpointAddresses::StaticStr(vec!["http://127.0.0.1:9080"]);
    assert_eq!(addrs.to_endpoints().unwrap().len(), 1);
}

#[test]
fn malformed_endpoint_is_invalid_argument() {
    let addrs = EndpointAddresses::Owned(vec![
        "http://127.0.0.1:9080".to_string(),
        "not a uri".to_string(),
    ]);
    assert_eq!(
        addrs.to_endpoints().unwrap_err(),
        DgraphError::InvalidArgument("not a uri".to_string())
    );
}

#[test]
fn manager_keeps_endpoints() {
    let m = DgraphConnectionManager::new(EndpointAddresses::StaticStr(vec!["http://10.0.0.1:9080"]));
    assert_eq!(m.endpoints().len(), 1);
    assert_eq!(m.endpoints().address(0), "http://10.0.0.1:9080");
}

#[test]
fn mutation_text_lists_fields() {
    let mut mu = Mutation::new();
    mu.set_set_nquads("_:a <n> \"x\" .".to_string());
    mu.set_cond("@if(eq(len(v), 0))".to_string());
    mu.commit_now = true;
    assert_eq!(
        mu.to_display_string(),
        "Mutation {\n  set_json: \n  delete_json: \n  set_nquads: _:a <n> \"x\" .\n  del_nquads: \n  set: []\n  del: []\n  cond: @if(eq(len(v), 0))\n  commit_now: true\n}\n"
    );
}

#[test]
fn mutation_text_replaces_invalid_utf8() {
    let mut mu = Mutation::new();
    mu.set_json = vec![b'o', b'k', 0xff];
    let text = mu.to_display_string();
    assert!(text.contains("  set_json: ok\u{FFFD}\n"));
    assert!(text.ends_with("  commit_now: false\n}\n"));
}

#[test]
fn static_list_resolves() {
    let list: &'static Vec<String> = Box::leak(Box::new(vec!["http://127.0.0.1:9080".to_string()]));
    let addrs = EndpointAddresses::Static(list);
    assert_eq!(addrs.len(), 1);
    assert_eq!(addrs.to_endpoints().unwrap().len(), 1);
}

#[test]
fn empty_endpoint_list_is_transport_error() {
    let addrs = EndpointAddresses::Owned(vec![]);
    assert_eq!(
        addrs.to_endpoints().unwrap_err(),
        DgraphError::Transport("no endpoint to connect to".to_string())
    );
}

#[test]
fn new_mutation_text_has_empty_lists() {
    assert_eq!(
        Mutation::new().to_display_string(),
        "Mutation {\n  set_json: \n  delete_json: \n  set_nquads: \n  del_nquads: \n  set: []\n  del: []\n  cond: \n  commit_now: false\n}\n"
    );
}

#[test]
fn mutation_text_lists_triples() {
    let mut mu = Mutation::new();
    let q = |s: &str, p: &str, o: &str, v: &str| NQuad {
        subject: s.to_string(),
        predicate: p.to_string(),
        object_id: o.to_string(),
        object_value: v.to_string(),
    };
    mu.set = vec![q("_:a", "name", "", "x"), q("_:a", "friend", "0x2", "")];
    mu.del = vec![q("0x1", "*", "*", "")];
    let text = mu.to_display_string();
    assert!(text.contains("\n  set: [_:a name  x, _:a friend 0x2 ]\n"));
    assert!(text.contains("\n  del: [0x1 * * ]\n"));
}
