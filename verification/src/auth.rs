//! Authentication.
//!
//! Login sends the credentials as a form body. On a 200 answer the
//! `set-cookie` response header, trimmed at the first `;`, becomes the
//! session cookie; a 200 without that header and a header with nothing
//! before the separator are distinguished failures, since they indicate
//! different remote misbehaviour. A 403 means the caller's IP is banned.
//! Logout clears the session cookie unconditionally — also when the remote
//! call itself failed or answered with an unexpected status — and only
//! then judges the status.

use vstd::prelude::*;
use vstd::string::*;

use crate::client::Client;
use crate::error::Error;
use crate::request::{ApiRequest, Arguments, Method};
use crate::response::check_default_status;

verus! {

/// The login form body for the given credentials.
pub open spec fn login_form(username: Seq<char>, password: Seq<char>) -> Seq<char> {
    "username="@ + username + "&password="@ + password
}

/// Build the login request: a form body carrying the credentials.
pub fn login_request(username: &str, password: &str) -> (r: ApiRequest)
    ensures
        r.method == Method::Login,
        (r.arguments matches Some(Arguments::Form(f)) && f@ == login_form(
            username@,
            password@,
        )),
{
    let mut f = "username=".to_owned();
    f.append(username);
    f.append("&password=");
    f.append(password);
    ApiRequest { method: Method::Login, arguments: Some(Arguments::Form(f)) }
}

/// The number of characters before the first `;`, or the whole length
/// when there is none.
pub open spec fn semi_index(h: Seq<char>) -> int
    decreases h.len(),
{
    if h.len() == 0 {
        0
    } else if h[0] == ';' {
        0
    } else {
        1 + semi_index(h.drop_first())
    }
}

/// The cookie a `set-cookie` header value carries: its text up to, and
/// not including, the first `;`.
pub open spec fn cookie_prefix(h: Seq<char>) -> Seq<char> {
    h.subrange(0, semi_index(h))
}

/// A position whose prefix is free of `;` and that sits on a `;` or at
/// the end is where the first `;` search stops.
proof fn lemma_semi_index(h: Seq<char>, i: int)
    requires
        0 <= i <= h.len(),
        forall|k: int| 0 <= k < i ==> h[k] != ';',
        i == h.len() || h[i] == ';',
    ensures
        semi_index(h) == i,
    decreases i,
{
    if i == 0 {
    } else {
        assert(h[0] != ';');
        let t = h.drop_first();
        assert(forall|k: int| 0 <= k < i - 1 ==> t[k] != ';');
        assert(i - 1 == t.len() || t[i - 1] == ';');
        lemma_semi_index(t, i - 1);
    }
}

/// The header text up to the first `;`.
fn cookie_from_header(h: &str) -> (r: String)
    ensures
        r@ == cookie_prefix(h@),
{
    let n = h.unicode_len();
    let mut i: usize = 0;
    while i < n
        invariant
            i <= n,
            n == h@.len(),
            forall|k: int| 0 <= k < i ==> h@[k] != ';',
        decreases n - i,
    {
        if h.get_char(i) == ';' {
            proof {
                lemma_semi_index(h@, i as int);
            }
            return h.substring_char(0, i).to_owned();
        }
        i = i + 1;
    }
    proof {
        lemma_semi_index(h@, n as int);
        assert(h@.subrange(0, n as int) =~= h@);
    }
    h.to_owned()
}

impl Client {
    /// Complete a login round trip.
    ///
    /// On status 200 the `set-cookie` header value, trimmed at the first
    /// `;`, becomes the session cookie; a missing header and an empty
    /// value before the separator are the two distinguished failures, and
    /// leave the session unchanged. Status 403 means the caller's IP is
    /// banned; every other status is a generic wrong-status failure.
    /// Nothing but a successful login alters the session.
    pub fn login_response(&mut self, status: u16, set_cookie: Option<&str>) -> (r: Result<
        (),
        Error,
    >)
        ensures
            final(self).base_url == old(self).base_url,
            final(self).origin == old(self).origin,
            status == 403 ==> (r == Err::<(), Error>(Error::Banned) && *final(self) == *old(self)),
            status != 200 && status != 403 ==> (r == Err::<(), Error>(Error::WrongStatusCode)
                && *final(self) == *old(self)),
            status == 200 ==> match set_cookie {
                Option::None => r == Err::<(), Error>(Error::NoSetCookie) && *final(self) == *old(self),
                Option::Some(h) => if cookie_prefix(h@).len() == 0 {
                    r == Err::<(), Error>(Error::NoSID) && *final(self) == *old(self)
                } else {
                    r == Ok::<(), Error>(()) && final(self).cookie@ == cookie_prefix(h@)
                        && final(self).is_authenticated()
                },
            },
    {
        if status == 200 {
            match set_cookie {
                None => Err(Error::NoSetCookie),
                Some(h) => {
                    let c = cookie_from_header(h);
                    if c.as_str().unicode_len() == 0 {
                        Err(Error::NoSID)
                    } else {
                        self.cookie = c;
                        Ok(())
                    }
                },
            }
        } else if status == 403 {
            Err(Error::Banned)
        } else {
            Err(Error::WrongStatusCode)
        }
    }

    /// Build the logout request; it carries no arguments.
    pub fn logout_request(&self) -> (r: ApiRequest)
        ensures
            r.method == Method::Logout,
            r.arguments is None,
    {
        ApiRequest { method: Method::Logout, arguments: None }
    }

    /// Complete a logout round trip.
    ///
    /// The session cookie is cleared whatever happened: also when the
    /// transport failed before any status was had (`status` is `None`),
    /// and when the remote answered with an unexpected status. Only then
    /// is the status judged by the default policy.
    pub fn logout_response(&mut self, status: Option<u16>) -> (r: Result<(), Error>)
        ensures
            final(self).cookie@.len() == 0,
            !final(self).is_authenticated(),
            final(self).base_url == old(self).base_url,
            final(self).origin == old(self).origin,
            match status {
                Option::None => r == Err::<(), Error>(Error::Nc),
                Option::Some(s) => if s == 200 {
                    r == Ok::<(), Error>(())
                } else {
                    r == Err::<(), Error>(Error::WrongStatusCode)
                },
            },
    {
        self.cookie = String::new();
        match status {
            None => Err(Error::Nc),
            Some(s) => check_default_status(s, ()),
        }
    }
}

} // verus!

