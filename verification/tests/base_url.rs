use api_client::base_url::resolve_base_url;

#[test]
fn unset_yields_default() {
    assert_eq!(resolve_base_url(None), "https://cursor.v2.wvw.ink/api");
}

#[test]
fn set_value_returned_verbatim() {
    let r = resolve_base_url(Some("http://localhost:8080".to_string()));
    assert_eq!(r, "http://localhost:8080");
}

#[test]
fn empty_value_accepted() {
    assert_eq!(resolve_base_url(Some(String::new())), "");
}

#[test]
fn repeated_resolution_identical() {
    let a = resolve_base_url(Some("http://a.example".to_string()));
    let b = resolve_base_url(Some("http://a.example".to_string()));
    assert_eq!(a, b);
    let c = resolve_base_url(None);
    let d = resolve_base_url(None);
    assert_eq!(c, d);
}

#[test]
fn changed_value_observed() {
    let first = resolve_base_url(Some("http://one.example".to_string()));
    let second = resolve_base_url(Some("http://two.example".to_string()));
    assert_eq!(first, "http://one.example");
    assert_eq!(second, "http://two.example");
    assert_ne!(first, second);
}
