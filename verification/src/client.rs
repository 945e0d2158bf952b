//! Session state.
//!
//! A [`Client`] owns one session with the remote server: the base URL that
//! every operation's path is appended to, the Origin header value derived
//! from it, and the current session cookie. The cookie is empty while
//! unauthenticated; it is set only by a successful login and cleared only
//! by logout. A caller that needs concurrent sessions holds independent
//! instances.

use vstd::prelude::*;

use crate::error::Error;

verus! {

/// What the url crate derives from a target text: the serialization of the
/// text parsed as an absolute URL with the fixed `api/v2/` prefix joined
/// on, paired with the ASCII serialization of that URL's origin; absent
/// exactly when the url crate rejects the text or the join fails. Both
/// texts are functions of the input alone — an opaque origin serializes to
/// a fixed word.
pub uninterp spec fn api_base_of(uri: Seq<char>) -> Option<(Seq<char>, Seq<char>)>;

/// Relies on url::Url::parse and Url::join to resolve the API base
/// against the target text, and on Url::as_str and Url::origin with
/// Origin::ascii_serialization for the two texts. Each is a function of
/// the text alone, so the composition is the named result; none of them
/// panics.
#[verifier::external_body]
fn parse_api_base(uri: &str) -> (r: Option<(String, String)>)
    ensures
        r is Some <==> api_base_of(uri@) is Some,
        (r matches Some(p) ==> (api_base_of(uri@) matches Some(q) && p.0@ == q.0 && p.1@
            == q.1)),
{
    match url::Url::parse(uri).and_then(|u| u.join("api/v2/")) {
        Ok(base) => {
            let origin = base.origin().ascii_serialization();
            Some((base.as_str().to_owned(), origin))
        },
        Err(_) => None,
    }
}

/// One session with the remote server.
#[derive(Debug, Clone)]
pub struct Client {
    /// The API root every operation path is appended to.
    pub base_url: String,
    /// The Origin header value derived from the base URL.
    pub origin: String,
    /// The session cookie; empty while unauthenticated. Set only by a
    /// successful login, cleared only by logout.
    pub cookie: String,
}

impl Client {
    /// True once a login has stored a session cookie.
    pub open spec fn is_authenticated(self) -> bool {
        self.cookie@.len() > 0
    }

    /// Open a session against the given base URL.
    ///
    /// Succeeds exactly when the url crate derives an API base from the
    /// text; the session then holds that base and its origin, and starts
    /// unauthenticated with an empty cookie. A rejected text is a URL
    /// error.
    pub fn new(uri: &str) -> (r: Result<Client, Error>)
        ensures
            (r matches Ok(c) ==> (api_base_of(uri@) matches Some(q) && c.base_url@ == q.0
                && c.origin@ == q.1 && c.cookie@ == Seq::<char>::empty()
                && !c.is_authenticated())),
            r is Err <==> api_base_of(uri@) is None,
            r is Err ==> r == Err::<Client, Error>(Error::UrlError),
    {
        match parse_api_base(uri) {
            Some(parts) => {
                let (base_url, origin) = parts;
                Ok(Client { base_url, origin, cookie: String::new() })
            },
            None => Err(Error::UrlError),
        }
    }

    /// The API root this session talks to.
    pub fn base_url(&self) -> (r: &String)
        ensures
            r@ == self.base_url@,
    {
        &self.base_url
    }

    /// The Origin header value for this session.
    pub fn origin(&self) -> (r: &String)
        ensures
            r@ == self.origin@,
    {
        &self.origin
    }

    /// The current session cookie; empty while unauthenticated.
    pub fn cookie(&self) -> (r: &String)
        ensures
            r@ == self.cookie@,
    {
        &self.cookie
    }
}

} // verus!
