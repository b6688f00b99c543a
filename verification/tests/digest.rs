use steward_harness::digest::{
    digest, digest_of_bytes, manifest_digest, manifest_digest_with_binding, runtime_spec_digest,
    same_digest,
};

fn value(text: &str) -> serde_json::Value {
    serde_json::from_str(text).unwrap()
}

#[test]
fn bytes_are_named_by_their_sha256() {
    assert_eq!(
        digest_of_bytes(b"abc"),
        "sha256:ba7816bf8f01cfea414140de5dae2223b00361a396177a9cb410ff61f20015ad"
    );
    assert_eq!(
        runtime_spec_digest(b""),
        "e3b0c44298fc1c149afbf4c8996fb92427ae41e4649b934ca495991b7852b855"
    );
    assert!(same_digest(b"abc", b"abc"));
    assert!(!same_digest(b"abc", b"abd"));
}

#[test]
fn values_are_named_by_what_they_hold() {
    let expected = digest_of_bytes(b"{\"a\":1,\"b\":[true,null]}");
    assert_eq!(
        expected,
        "sha256:1cc69c7fa23616ca2ec3ee70d24390a6225c8832db8a4c814c7e0e7f942f8668"
    );
    assert_eq!(digest(&value("{\"a\":1,\"b\":[true,null]}")), expected);
    assert_eq!(digest(&value(" { \"b\" : [ true, null ], \"a\" : 1 } ")), expected);
    assert_ne!(digest(&value("{\"a\":2,\"b\":[true,null]}")), expected);
}

#[test]
fn a_manifest_is_named_by_all_that_it_says() {
    let spec = value("{\"owner\":\"alice@example.com\"}");
    let task = "00000000-0000-0000-0000-000000000001";
    let operation = "00000000-0000-0000-0000-000000001001";
    let plain = manifest_digest(task, operation, "task-a", &spec, "inert");
    assert_eq!(plain, "sha256:df253faa9091c9a3628bd8eb75c6b085082e3b4b6f5ff92d5df17b75562e0524");
    assert_eq!(
        plain,
        manifest_digest_with_binding(task, operation, "task-a", &spec, "inert", None)
    );
    let bound = manifest_digest_with_binding(
        task,
        operation,
        "task-a",
        &spec,
        "inert",
        Some(&value("{\"image\":\"x\"}")),
    );
    assert_eq!(bound, "sha256:5cb754b1f7ec6af2f3bf17df722460215b464b7fe18ecd7e0f2f54539ff25233");
    assert_ne!(plain, manifest_digest(task, operation, "task-a", &spec, "active"));
}
