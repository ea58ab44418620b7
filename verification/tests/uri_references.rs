use ratatoskr_subscriptions::prelude::URIReference;

#[test]
fn as_str_returns_the_raw_string() {
    let u = URIReference::new("https://example.com/a b?q=1");
    assert_eq!(u.as_str(), "https://example.com/a b?q=1");
}

#[test]
fn construction_never_validates() {
    let u = URIReference::from("not a uri");
    assert_eq!(u.as_str(), "not a uri");
    let v = URIReference::from(String::from(""));
    assert_eq!(v.as_str(), "");
}

#[test]
fn default_is_the_empty_reference() {
    let u = URIReference::default();
    assert_eq!(u.as_str(), "");
}

#[test]
fn equality_is_by_raw_string() {
    assert_eq!(
        URIReference::from("https://example.com/%7Ea"),
        URIReference::from("https://example.com/%7Ea")
    );
    // Semantically the same URL, but textually different: not equal.
    assert_ne!(
        URIReference::from("https://example.com/%7Ea"),
        URIReference::from("https://example.com/~a")
    );
}

#[test]
fn to_url_rejects_a_malformed_reference() {
    let u = URIReference::from("not a uri");
    let err = u.to_url().err().expect("parsing must fail");
    assert!(!err.message().is_empty());
}

#[test]
fn to_url_rejects_a_scheme_relative_reference() {
    let u = URIReference::from("//example.com/path");
    assert!(u.to_url().is_err());
}

#[test]
fn to_url_parses_a_valid_absolute_url() {
    let u = URIReference::from("https://example.com/callback");
    let url = u.to_url().expect("parsing must succeed");
    assert_eq!(url.scheme(), "https");
    assert_eq!(url.as_str(), "https://example.com/callback");
}
