//! Delivery sinks and the credentials used to authenticate against them.

use vstd::prelude::*;

use crate::time::UtcTimestamp;
use crate::types::URIReference;

verus! {

/// The authentication shape used when delivering events to a sink
/// endpoint. Each field is only meaningful within its variant; the
/// accessors return `None` rather than a default when asked for a field
/// their variant does not carry.
///
/// No expiry comparison or refresh logic lives here: the delivery
/// collaborator compares [`SinkCredentials::access_token_expires_at`]
/// against its clock and, once expired, calls the refresh endpoint with
/// the refresh token.
#[derive(Clone, Debug)]
pub enum SinkCredentials {
    /// OAuth2-style bearer-token authentication: the access token, its
    /// grant type, and the absolute instant at which it expires.
    AccessToken { token: String, ty: String, expires_at: UtcTimestamp },
    /// A plain identifier and secret pair.
    Plain { identifier: String, secret: String },
    /// Bearer-token authentication with a refresh mechanism: beside the
    /// access token, its grant type and expiry, the one-time-use refresh
    /// token and the endpoint to call for a new access token.
    RefreshToken {
        access_token: String,
        refresh_token: String,
        ty: String,
        expires_at: UtcTimestamp,
        refresh_endpoint: URIReference,
    },
}

impl SinkCredentials {
    /// The access token, for the two token-bearing variants.
    pub fn access_token(&self) -> (r: Option<&str>)
        ensures
            match *self {
                SinkCredentials::AccessToken { token, .. } => r matches Some(t) && t@ == token@,
                SinkCredentials::RefreshToken { access_token, .. } => (r matches Some(t)
                    && t@ == access_token@),
                SinkCredentials::Plain { .. } => r is None,
            },
    {
        match self {
            SinkCredentials::AccessToken { token, .. } => Some(token.as_str()),
            SinkCredentials::RefreshToken { access_token, .. } => Some(access_token.as_str()),
            _ => None,
        }
    }

    /// The instant at which the access token expires, for the two
    /// token-bearing variants.
    pub fn access_token_expires_at(&self) -> (r: Option<&UtcTimestamp>)
        ensures
            match *self {
                SinkCredentials::AccessToken { expires_at, .. } => (r matches Some(e)
                    && *e == expires_at),
                SinkCredentials::RefreshToken { expires_at, .. } => (r matches Some(e)
                    && *e == expires_at),
                SinkCredentials::Plain { .. } => r is None,
            },
    {
        match self {
            SinkCredentials::AccessToken { expires_at, .. } => Some(expires_at),
            SinkCredentials::RefreshToken { expires_at, .. } => Some(expires_at),
            _ => None,
        }
    }

    /// The OAuth2 grant type of the access token, for the two
    /// token-bearing variants.
    pub fn access_token_type(&self) -> (r: Option<&str>)
        ensures
            match *self {
                SinkCredentials::AccessToken { ty, .. } => r matches Some(t) && t@ == ty@,
                SinkCredentials::RefreshToken { ty, .. } => r matches Some(t) && t@ == ty@,
                SinkCredentials::Plain { .. } => r is None,
            },
    {
        match self {
            SinkCredentials::AccessToken { ty, .. } => Some(ty.as_str()),
            SinkCredentials::RefreshToken { ty, .. } => Some(ty.as_str()),
            _ => None,
        }
    }

    /// The plain identifier, for the plain variant only.
    pub fn identifier(&self) -> (r: Option<&str>)
        ensures
            match *self {
                SinkCredentials::Plain { identifier, .. } => (r matches Some(t)
                    && t@ == identifier@),
                _ => r is None,
            },
    {
        match self {
            SinkCredentials::Plain { identifier, .. } => Some(identifier.as_str()),
            _ => None,
        }
    }

    /// The one-time-use refresh token, for the refresh variant only.
    pub fn refresh_token(&self) -> (r: Option<&str>)
        ensures
            match *self {
                SinkCredentials::RefreshToken { refresh_token, .. } => (r matches Some(t)
                    && t@ == refresh_token@),
                _ => r is None,
            },
    {
        match self {
            SinkCredentials::RefreshToken { refresh_token, .. } => Some(refresh_token.as_str()),
            _ => None,
        }
    }

    /// The endpoint to call for a new access token, for the refresh
    /// variant only.
    pub fn refresh_token_endpoint(&self) -> (r: Option<&URIReference>)
        ensures
            match *self {
                SinkCredentials::RefreshToken { refresh_endpoint, .. } => (r matches Some(e)
                    && *e == refresh_endpoint),
                _ => r is None,
            },
    {
        match self {
            SinkCredentials::RefreshToken { refresh_endpoint, .. } => Some(refresh_endpoint),
            _ => None,
        }
    }

    /// The secret, for the plain variant only.
    pub fn secret(&self) -> (r: Option<&str>)
        ensures
            match *self {
                SinkCredentials::Plain { secret, .. } => r matches Some(t) && t@ == secret@,
                _ => r is None,
            },
    {
        match self {
            SinkCredentials::Plain { secret, .. } => Some(secret.as_str()),
            _ => None,
        }
    }

    /// The fixed discriminator string of this credential kind: one of
    /// `"ACCESSTOKEN"`, `"PLAIN"` and `"REFRESHTOKEN"`.
    pub fn ty(&self) -> (r: &'static str)
        ensures
            match *self {
                SinkCredentials::AccessToken { .. } => r@ == "ACCESSTOKEN"@,
                SinkCredentials::Plain { .. } => r@ == "PLAIN"@,
                SinkCredentials::RefreshToken { .. } => r@ == "REFRESHTOKEN"@,
            },
    {
        match self {
            SinkCredentials::AccessToken { .. } => "ACCESSTOKEN",
            SinkCredentials::Plain { .. } => "PLAIN",
            SinkCredentials::RefreshToken { .. } => "REFRESHTOKEN",
        }
    }
}

/// The address events for the subscriber are delivered to, together with
/// the credentials, if any, to use against that endpoint.
#[derive(Clone, Debug)]
pub struct Sink {
    sink: URIReference,
    credentials: Option<SinkCredentials>,
}

/// The sink produced by attaching credentials `c` to `s`: the target is
/// kept, and `c` replaces whatever credentials `s` carried.
pub closed spec fn spec_with_credentials(s: Sink, c: SinkCredentials) -> Sink {
    Sink { sink: s.sink, credentials: Some(c) }
}

impl Sink {
    /// The delivery target of this sink.
    pub closed spec fn spec_sink(&self) -> URIReference {
        self.sink
    }

    /// The credentials attached to this sink, if any.
    pub closed spec fn spec_credentials(&self) -> Option<SinkCredentials> {
        self.credentials
    }

    /// A sink for the given target, with no credentials attached.
    pub fn new(sink: URIReference) -> (r: Sink)
        ensures
            r.spec_sink() == sink,
            r.spec_credentials() is None,
    {
        Sink { sink, credentials: None }
    }

    /// The URI reference events destined for the subscriber are sent to.
    pub fn sink(&self) -> (r: &URIReference)
        ensures
            *r == self.spec_sink(),
    {
        &self.sink
    }

    /// The credentials attached to this sink, if any.
    pub fn credentials(&self) -> (r: Option<&SinkCredentials>)
        ensures
            match self.spec_credentials() {
                Some(c) => r matches Some(rc) && *rc == c,
                None => r is None,
            },
    {
        self.credentials.as_ref()
    }

    /// Attach credentials, consuming the sink: the returned sink keeps the
    /// target and carries exactly the given credentials, replacing any
    /// attached before.
    pub fn with_credentials(self, credentials: SinkCredentials) -> (r: Sink)
        ensures
            r == spec_with_credentials(self, credentials),
            r.spec_sink() == self.spec_sink(),
            r.spec_credentials() == Some(credentials),
    {
        Sink { sink: self.sink, credentials: Some(credentials) }
    }
}

/// Law: attaching credentials is last-write-wins. Attaching `c1` and then
/// `c2` yields the same sink as attaching `c2` alone, and that sink
/// carries exactly `c2`.
pub proof fn lemma_with_credentials_last_write_wins(s: Sink, c1: SinkCredentials, c2: SinkCredentials)
    ensures
        spec_with_credentials(spec_with_credentials(s, c1), c2) == spec_with_credentials(s, c2),
        spec_with_credentials(spec_with_credentials(s, c1), c2).spec_credentials() == Some(c2),
        spec_with_credentials(spec_with_credentials(s, c1), c2).spec_sink() == s.spec_sink(),
{
}

} // verus!
