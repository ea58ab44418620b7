use ratatoskr_subscriptions::prelude::Sink;
use ratatoskr_subscriptions::prelude::SinkCredentials;
use ratatoskr_subscriptions::prelude::URIReference;
use ratatoskr_subscriptions::prelude::UtcTimestamp;

fn plain(identifier: &str, secret: &str) -> SinkCredentials {
    SinkCredentials::Plain {
        identifier: String::from(identifier),
        secret: String::from(secret),
    }
}

#[test]
fn plain_credentials_expose_only_their_fields() {
    let c = plain("u", "p");
    assert!(c.access_token().is_none());
    assert!(c.access_token_expires_at().is_none());
    assert!(c.access_token_type().is_none());
    assert!(c.refresh_token().is_none());
    assert!(c.refresh_token_endpoint().is_none());
    assert_eq!(c.identifier(), Some("u"));
    assert_eq!(c.secret(), Some("p"));
    assert_eq!(c.ty(), "PLAIN");
}

#[test]
fn access_token_credentials_expose_only_their_fields() {
    let expires = UtcTimestamp::new(1_700_000_000, 250_000_000);
    let c = SinkCredentials::AccessToken {
        token: String::from("t"),
        ty: String::from("Bearer"),
        expires_at: expires,
    };
    assert!(c.refresh_token().is_none());
    assert!(c.refresh_token_endpoint().is_none());
    assert!(c.identifier().is_none());
    assert!(c.secret().is_none());
    assert_eq!(c.access_token(), Some("t"));
    assert_eq!(c.access_token_type(), Some("Bearer"));
    assert_eq!(c.access_token_expires_at(), Some(&expires));
    assert_eq!(c.ty(), "ACCESSTOKEN");
}

#[test]
fn refresh_token_credentials_expose_only_their_fields() {
    let expires = UtcTimestamp::new(1_700_000_000, 0);
    let c = SinkCredentials::RefreshToken {
        access_token: String::from("at"),
        refresh_token: String::from("rt"),
        ty: String::from("Bearer"),
        expires_at: expires,
        refresh_endpoint: URIReference::from("https://auth.example.com/token"),
    };
    assert!(c.identifier().is_none());
    assert!(c.secret().is_none());
    assert_eq!(c.access_token(), Some("at"));
    assert_eq!(c.refresh_token(), Some("rt"));
    assert_eq!(c.access_token_type(), Some("Bearer"));
    assert_eq!(c.access_token_expires_at(), Some(&expires));
    assert_eq!(
        c.refresh_token_endpoint().map(|u| u.as_str()),
        Some("https://auth.example.com/token")
    );
    assert_eq!(c.ty(), "REFRESHTOKEN");
}

#[test]
fn new_sink_has_no_credentials() {
    let s = Sink::new(URIReference::from("https://example.com/events"));
    assert!(s.credentials().is_none());
    assert_eq!(s.sink().as_str(), "https://example.com/events");
}

#[test]
fn with_credentials_attaches_them() {
    let s = Sink::new(URIReference::from("https://example.com/events"))
        .with_credentials(plain("u", "p"));
    assert_eq!(s.sink().as_str(), "https://example.com/events");
    let c = s.credentials().expect("credentials were attached");
    assert_eq!(c.identifier(), Some("u"));
    assert_eq!(c.secret(), Some("p"));
}

#[test]
fn with_credentials_keeps_the_last_value() {
    let c1 = plain("first", "p1");
    let c2 = SinkCredentials::AccessToken {
        token: String::from("second"),
        ty: String::from("Bearer"),
        expires_at: UtcTimestamp::new(0, 0),
    };
    let s = Sink::new(URIReference::from("https://example.com"))
        .with_credentials(c1)
        .with_credentials(c2);
    let c = s.credentials().expect("credentials were attached");
    assert_eq!(c.ty(), "ACCESSTOKEN");
    assert_eq!(c.access_token(), Some("second"));
    assert!(c.identifier().is_none());
}

#[test]
fn timestamps_compare_by_fields() {
    let a = UtcTimestamp::new(10, 5);
    let b = UtcTimestamp::new(10, 5);
    let c = UtcTimestamp::new(10, 6);
    let d = UtcTimestamp::new(-10, 5);
    assert_eq!(a, b);
    assert_ne!(a, c);
    assert_ne!(a, d);
    assert_eq!(a.seconds, 10);
    assert_eq!(a.nanos, 5);
    assert_eq!(d.seconds, -10);
}
