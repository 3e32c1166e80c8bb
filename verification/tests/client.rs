use api_client::client::ApiClient;
use std::sync::Arc;

#[test]
fn default_construction_succeeds() {
    let client = ApiClient::default();
    let _ = client.client();
}

#[test]
fn clones_share_one_client() {
    let a = ApiClient::default();
    let b = a.clone();
    assert!(Arc::ptr_eq(a.client(), b.client()));
    assert_eq!(Arc::strong_count(a.client()), 2);
}

#[test]
fn remaining_clone_outlives_the_rest() {
    let a = ApiClient::default();
    let b = a.clone();
    let c = b.clone();
    drop(a);
    drop(c);
    assert_eq!(Arc::strong_count(b.client()), 1);
    let d = b.clone();
    assert!(Arc::ptr_eq(b.client(), d.client()));
}
