//! Cookies for HTTP responses: construction, attributes, and the exact
//! `Set-Cookie` line they serialize to.
use vstd::prelude::*;
use crate::domain::Domain;
use crate::text::{dec_digits, no_crlf, u64_to_string};

verus! {

/// The `SameSite` attribute of a cookie.
#[derive(Clone, Copy, Debug)]
pub enum SameSite {
    /// Sent with all requests, including cross-site ones; serialized as
    /// `SameSite=None`.
    CrossSite,
    /// Sent with same-site requests and top-level navigations.
    Lax,
    /// Sent with same-site requests only.
    Strict,
}

impl SameSite {
    /// The attribute value this policy serializes to.
    pub open spec fn spec_str(self) -> Seq<char> {
        match self {
            SameSite::CrossSite => "None"@,
            SameSite::Lax => "Lax"@,
            SameSite::Strict => "Strict"@,
        }
    }
}

/// A cookie attached to an HTTP response, serialized as one `Set-Cookie` line.
#[derive(Debug)]
pub struct Cookie {
    /// The name of the cookie.
    pub key: String,
    /// The value of the cookie.
    pub value: String,
    /// The maximum age of the cookie in seconds, if bounded.
    pub max_age: Option<u64>,
    /// The path for which the cookie is valid.
    pub path: String,
    /// The domain for which the cookie is valid.
    pub domain: Domain,
    /// The `SameSite` policy of the cookie.
    pub same_site: SameSite,
    /// Whether the cookie is sent over TLS connections only.
    pub secure: bool,
    /// Whether the cookie is hidden from client-side scripts.
    pub is_http_only: bool,
}

/// The exact `Set-Cookie` line of a cookie, given the rendered expiry date
/// (the date matters only when `max_age` is set).
pub open spec fn spec_cookie_line(c: Cookie, expires: Seq<char>) -> Seq<char> {
    let head = c.key@ + "="@ + c.value@ + "; "@;
    let aged = if c.max_age is Some {
        head + "Max-Age="@ + dec_digits(c.max_age->0 as nat) + "; "@ + "Expires="@ + expires
            + "; "@
    } else {
        head
    };
    let full = aged + "Path="@ + c.path@ + "; "@ + "Domain="@ + c.domain.name@ + "; "@
        + "SameSite="@ + c.same_site.spec_str() + "; "@ + (if c.secure {
        "Secure; "@
    } else {
        Seq::<char>::empty()
    }) + (if c.is_http_only {
        "HttpOnly; "@
    } else {
        Seq::<char>::empty()
    });
    full.drop_last()
}

/// A cookie whose fields are header-safe renders to a header-safe line.
pub proof fn lemma_cookie_line_no_crlf(c: Cookie, d: Seq<char>)
    requires
        c.wf(),
        no_crlf(d),
    ensures
        no_crlf(spec_cookie_line(c, d)),
{
    reveal_strlit("=");
    reveal_strlit("; ");
    reveal_strlit("Max-Age=");
    reveal_strlit("Expires=");
    reveal_strlit("Path=");
    reveal_strlit("Domain=");
    reveal_strlit("SameSite=");
    reveal_strlit("None");
    reveal_strlit("Lax");
    reveal_strlit("Strict");
    reveal_strlit("Secure; ");
    reveal_strlit("HttpOnly; ");
    if c.max_age is Some {
        crate::text::lemma_dec_digits_all_digits(c.max_age->0 as nat);
        crate::text::lemma_digits_no_crlf(dec_digits(c.max_age->0 as nat));
    }
}

impl Cookie {
    /// All text fields are single header-safe lines, so the `Set-Cookie`
    /// line itself stays on one line.
    pub open spec fn wf(self) -> bool {
        no_crlf(self.key@) && no_crlf(self.value@) && no_crlf(self.path@) && no_crlf(
            self.domain.name@,
        )
    }

    /// Creates a cookie with the given name, value and domain; the path
    /// defaults to `/`, the policy to `Lax`, and every flag to off.
    pub fn new(key: &str, value: &str, domain: &Domain) -> (r: Cookie)
        ensures
            r.key@ == key@,
            r.value@ == value@,
            r.max_age is None,
            r.path@ == "/"@,
            r.domain.name@ == domain.name@,
            r.same_site is Lax,
            !r.secure,
            !r.is_http_only,
    {
        Cookie {
            key: String::from_str(key),
            value: String::from_str(value),
            max_age: None,
            path: String::from_str("/"),
            domain: domain.clone(),
            same_site: SameSite::Lax,
            secure: false,
            is_http_only: false,
        }
    }

    /// Sets or clears the maximum age of the cookie.
    pub fn expires(self, max_age: Option<u64>) -> (r: Self)
        ensures
            r == (Cookie { max_age, ..self }),
    {
        Cookie { max_age, ..self }
    }

    /// Marks the cookie as sent over TLS connections only.
    pub fn secure(self) -> (r: Self)
        ensures
            r == (Cookie { secure: true, ..self }),
    {
        Cookie { secure: true, ..self }
    }

    /// Hides the cookie from client-side scripts.
    pub fn http_only(self) -> (r: Self)
        ensures
            r == (Cookie { is_http_only: true, ..self }),
    {
        Cookie { is_http_only: true, ..self }
    }

    /// Sets the path for which the cookie is valid.
    pub fn path(self, path: &str) -> (r: Self)
        ensures
            r.path@ == path@,
            r == (Cookie { path: r.path, ..self }),
    {
        Cookie { path: String::from_str(path), ..self }
    }

    /// Sets the `SameSite` policy of the cookie.
    pub fn same_site(self, same_site: SameSite) -> (r: Self)
        ensures
            r == (Cookie { same_site, ..self }),
    {
        Cookie { same_site, ..self }
    }

    /// The `Set-Cookie` line of this cookie, with the given rendered expiry
    /// date standing in for the `Expires` attribute.
    #[verifier::rlimit(60)]
    pub fn as_string_at(&self, expires: &str) -> (r: String)
        ensures
            r@ == spec_cookie_line(*self, expires@),
            self.wf() && no_crlf(expires@) ==> no_crlf(r@),
    {
        proof {
            if self.wf() && no_crlf(expires@) {
                lemma_cookie_line_no_crlf(*self, expires@);
            }
        }
        proof {
            reveal_strlit("=");
            reveal_strlit("; ");
            reveal_strlit("Max-Age=");
            reveal_strlit("Expires=");
            reveal_strlit("Path=");
            reveal_strlit("Domain=");
            reveal_strlit("SameSite=");
            reveal_strlit("None");
            reveal_strlit("Lax");
            reveal_strlit("Strict");
            reveal_strlit("Secure; ");
            reveal_strlit("HttpOnly; ");
        }
        let mut b = self.key.clone();
        b.append("=");
        b.append(self.value.as_str());
        b.append("; ");
        if let Some(seconds) = self.max_age {
            b.append("Max-Age=");
            let n = u64_to_string(seconds);
            proof {
                crate::text::lemma_dec_digits_all_digits(seconds as nat);
                crate::text::lemma_digits_no_crlf(n@);
            }
            b.append(n.as_str());
            b.append("; ");
            b.append("Expires=");
            b.append(expires);
            b.append("; ");
        }
        b.append("Path=");
        b.append(self.path.as_str());
        b.append("; ");
        b.append("Domain=");
        b.append(self.domain.name.as_str());
        b.append("; ");
        b.append("SameSite=");
        match self.same_site {
            SameSite::CrossSite => b.append("None"),
            SameSite::Lax => b.append("Lax"),
            SameSite::Strict => b.append("Strict"),
        }
        b.append("; ");
        if self.secure {
            b.append("Secure; ");
        }
        if self.is_http_only {
            b.append("HttpOnly; ");
        }
        let len = b.as_str().unicode_len();
        let r = String::from_str(b.as_str().substring_char(0, len - 1));
        proof {
            assert(b@.subrange(0, b@.len() - 1) =~= b@.drop_last());
        }
        r
    }

    /// The `Set-Cookie` line of this cookie.  When a maximum age is set, the
    /// `Expires` attribute renders the wall clock plus that age, so only its
    /// header-safety is stated.
    pub fn as_string(&self) -> (r: String)
        ensures
            self.max_age is None ==> r@ == spec_cookie_line(*self, Seq::<char>::empty()),
            self.max_age is Some ==> exists|d: Seq<char>|
                no_crlf(d) && r@ == spec_cookie_line(*self, d),
            self.wf() ==> no_crlf(r@),
    {
        match self.max_age {
            Some(seconds) => {
                let date = crate::httpdate::http_date_after(seconds);
                self.as_string_at(date.as_str())
            },
            None => {
                proof {
                    reveal_strlit("");
                }
                self.as_string_at("")
            },
        }
    }
}

/// Two cookies carry the same name, value, attributes and domain.
pub open spec fn cookie_like(a: Cookie, b: Cookie) -> bool {
    &&& a.key@ == b.key@
    &&& a.value@ == b.value@
    &&& a.max_age == b.max_age
    &&& a.path@ == b.path@
    &&& a.domain.name@ == b.domain.name@
    &&& a.same_site == b.same_site
    &&& a.secure == b.secure
    &&& a.is_http_only == b.is_http_only
}

impl Clone for Cookie {
    /// Cloning keeps every field's value.
    fn clone(&self) -> (r: Self)
        ensures
            cookie_like(r, *self),
    {
        Cookie {
            key: self.key.clone(),
            value: self.value.clone(),
            max_age: self.max_age,
            path: self.path.clone(),
            domain: self.domain.clone(),
            same_site: self.same_site,
            secure: self.secure,
            is_http_only: self.is_http_only,
        }
    }
}

} // verus!
