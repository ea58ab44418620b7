//! The URI-reference wrapper used as the address of a delivery sink.

use vstd::prelude::*;

verus! {

/// Whether `url::Url::parse` accepts the given string as an absolute URL.
/// The outcome depends on the characters of the string alone.
pub uninterp spec fn url_parse_ok(s: Seq<char>) -> bool;

#[verifier::external_type_specification]
#[verifier::external_body]
pub struct ExUrl(url::Url);

/// The error produced when a [`URIReference`] does not hold a valid
/// absolute URL. Carries the parser's description of the violation.
#[derive(Clone, Debug)]
pub struct UriParseError {
    pub message: String,
}

impl UriParseError {
    /// The parser's description of the grammar violation.
    pub fn message(&self) -> (r: &str)
        ensures
            r@ == self.message@,
    {
        self.message.as_str()
    }
}

/// Relies on url::Url::parse: parsing is a pure function of the input
/// string, succeeding exactly on valid absolute URLs; on failure the
/// parse error's description is returned.
#[verifier::external_body]
fn parse_url(s: &str) -> (r: Result<url::Url, String>)
    ensures
        r is Ok <==> url_parse_ok(s@),
{
    match url::Url::parse(s) {
        Ok(u) => Ok(u),
        Err(e) => Err(format!("{}", e)),
    }
}

/// A raw, unvalidated URI-reference string.
///
/// The string is kept opaque at construction time; validity against the URL
/// grammar is only checked on the explicit conversion to a parsed URL, which
/// is the single fallible operation of this crate. Equality is by the raw
/// string value, not by the parsed form: two references that differ only in
/// formatting (say, percent-encoding) are unequal.
#[derive(Clone, Debug)]
pub struct URIReference(String);

impl View for URIReference {
    type V = Seq<char>;

    closed spec fn view(&self) -> Seq<char> {
        self.0@
    }
}

impl URIReference {
    /// Wrap a raw string as a URI reference. Always succeeds: no
    /// validation happens until [`URIReference::to_url`] is called.
    pub fn new(s: &str) -> (r: URIReference)
        ensures
            r@ == s@,
    {
        URIReference(s.to_owned())
    }

    /// Borrow the raw string the reference was built from. Never fails.
    pub fn as_str(&self) -> (r: &str)
        ensures
            r@ == self@,
    {
        self.0.as_str()
    }

    /// Parse the raw string as an absolute URL. No normalization is done
    /// first; the conversion succeeds exactly when the string is a valid
    /// absolute URL, and otherwise reports the grammar violation.
    pub fn to_url(&self) -> (r: Result<url::Url, UriParseError>)
        ensures
            r is Ok <==> url_parse_ok(self@),
    {
        match parse_url(self.0.as_str()) {
            Ok(u) => Ok(u),
            Err(message) => Err(UriParseError { message }),
        }
    }
}

impl From<&str> for URIReference {
    fn from(s: &str) -> (r: URIReference) {
        URIReference::new(s)
    }
}

// A `String` value with the view of `s` cannot be named in spec code, so
// this conversion pins nothing down; callers in verified code use
// `URIReference::new`, whose contract is exact.
impl vstd::std_specs::convert::FromSpecImpl<&str> for URIReference {
    open spec fn obeys_from_spec() -> bool {
        false
    }

    closed spec fn from_spec(s: &str) -> URIReference {
        arbitrary()
    }
}

impl From<String> for URIReference {
    fn from(s: String) -> (r: URIReference) {
        URIReference(s)
    }
}

impl vstd::std_specs::convert::FromSpecImpl<String> for URIReference {
    open spec fn obeys_from_spec() -> bool {
        true
    }

    closed spec fn from_spec(s: String) -> URIReference {
        URIReference(s)
    }
}

impl PartialEq for URIReference {
    fn eq(&self, other: &URIReference) -> (r: bool) {
        self.0 == other.0
    }
}

impl vstd::std_specs::cmp::PartialEqSpecImpl for URIReference {
    open spec fn obeys_eq_spec() -> bool {
        true
    }

    open spec fn eq_spec(&self, other: &URIReference) -> bool {
        self@ == other@
    }
}

impl Default for URIReference {
    /// The default reference wraps the empty string.
    fn default() -> (r: URIReference)
        ensures
            r@ == Seq::<char>::empty(),
    {
        URIReference(String::new())
    }
}

} // verus!
