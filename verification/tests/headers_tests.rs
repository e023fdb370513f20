use thruster_grpc::headers::Headers;

#[test]
fn set_then_get() {
    let mut h = Headers::new();
    h.set("content-type", "application/grpc");
    assert_eq!(h.get("content-type").unwrap().as_str(), "application/grpc");
    assert!(h.get("server").is_none());
}

#[test]
fn last_write_wins() {
    let mut h = Headers::new();
    h.set("grpc-status", "0");
    h.set("grpc-status", "5");
    assert_eq!(h.get("grpc-status").unwrap().as_str(), "5");
    assert_eq!(h.entries().len(), 1);
}

#[test]
fn names_keep_their_case_and_are_exact() {
    let mut h = Headers::new();
    h.set("Server", "Thruster");
    assert_eq!(h.get("Server").unwrap().as_str(), "Thruster");
    assert!(h.get("server").is_none());
    assert_eq!(h.entries()[0].0.as_str(), "Server");
}

#[test]
fn remove_takes_a_name_out() {
    let mut h = Headers::new();
    h.set("a", "1");
    h.set("b", "2");
    h.remove("a");
    assert!(h.get("a").is_none());
    assert_eq!(h.get("b").unwrap().as_str(), "2");
    h.remove("never-there");
    assert_eq!(h.entries().len(), 1);
}

#[test]
fn duplicate_is_equal_pair_by_pair() {
    let mut h = Headers::new();
    h.set("a", "1");
    h.set("b", "2");
    let copy = h.duplicate();
    assert_eq!(copy.entries(), h.entries());
    h.set("a", "changed");
    assert_eq!(copy.get("a").unwrap().as_str(), "1");
}
