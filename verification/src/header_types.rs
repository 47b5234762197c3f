//! Typed values for individual HTTP headers: connection directives, cache
//! control, encodings, content-security policies, frame options and
//! referrer policies.
use vstd::prelude::*;
use crate::text::{dec_digits, join_with, lemma_join_push, lower_seq, str_eq, to_lowercase,
    u64_to_string};

verus! {

/// A directive of the HTTP `Connection` header.
#[derive(Clone, Debug)]
pub enum ConnectionType {
    /// `keep-alive`
    KeepAlive,
    /// `close`
    Close,
    /// `upgrade`
    Upgrade,
    /// Any other token, preserved verbatim.
    Other(String),
}

impl ConnectionType {
    /// The token this directive serializes to.
    pub open spec fn spec_str(self) -> Seq<char> {
        match self {
            ConnectionType::KeepAlive => "keep-alive"@,
            ConnectionType::Close => "close"@,
            ConnectionType::Upgrade => "upgrade"@,
            ConnectionType::Other(t) => t@,
        }
    }

    /// The directive as the token of a `Connection` header.
    pub fn as_str(&self) -> (r: String)
        ensures
            r@ == self.spec_str(),
    {
        match self {
            ConnectionType::KeepAlive => String::from_str("keep-alive"),
            ConnectionType::Close => String::from_str("close"),
            ConnectionType::Upgrade => String::from_str("upgrade"),
            ConnectionType::Other(t) => t.clone(),
        }
    }

    /// Recognizes a `Connection` header value, ignoring ASCII case; an
    /// unknown token is preserved verbatim.
    pub fn from_str(s: &str) -> (r: ConnectionType)
        ensures
            r is KeepAlive <==> lower_seq(s@) == "keep-alive"@,
            r is Close <==> lower_seq(s@) == "close"@,
            r is Upgrade <==> lower_seq(s@) == "upgrade"@,
            r matches ConnectionType::Other(t) ==> t@ == s@,
    {
        proof {
            reveal_strlit("keep-alive");
            reveal_strlit("close");
            reveal_strlit("upgrade");
            assert(("keep-alive"@).len() == 10);
            assert(("close"@).len() == 5);
            assert(("upgrade"@).len() == 7);
        }
        let lower = to_lowercase(s);
        if str_eq(lower.as_str(), "keep-alive") {
            ConnectionType::KeepAlive
        } else if str_eq(lower.as_str(), "close") {
            ConnectionType::Close
        } else if str_eq(lower.as_str(), "upgrade") {
            ConnectionType::Upgrade
        } else {
            ConnectionType::Other(String::from_str(s))
        }
    }

    /// True exactly for the `keep-alive` directive.
    pub fn is_keep_alive(&self) -> (r: bool)
        ensures
            r == (self is KeepAlive),
    {
        match self {
            ConnectionType::KeepAlive => true,
            _ => false,
        }
    }
}

/// A `Cache-Control` directive, or a comma-joined group of them.
#[derive(Debug)]
pub enum CacheControl {
    /// `no-cache`
    NoCache,
    /// `no-store`
    NoStore,
    /// `must-revalidate`
    MustRevalidate,
    /// `public`
    Public,
    /// `private`
    Private,
    /// `max-age=N`
    MaxAge(u64),
    /// `s-maxage=N`
    SMaxAge(u64),
    /// `no-transform`
    NoTransform,
    /// Several directives, serialized comma-separated.
    Multiple(Vec<CacheControl>),
}

impl CacheControl {
    /// The text of one plain directive; a group has no text of its own here.
    pub open spec fn base_str(self) -> Seq<char> {
        match self {
            CacheControl::NoCache => "no-cache"@,
            CacheControl::NoStore => "no-store"@,
            CacheControl::MustRevalidate => "must-revalidate"@,
            CacheControl::Public => "public"@,
            CacheControl::Private => "private"@,
            CacheControl::MaxAge(s) => "max-age="@ + dec_digits(s as nat),
            CacheControl::SMaxAge(s) => "s-maxage="@ + dec_digits(s as nat),
            CacheControl::NoTransform => "no-transform"@,
            CacheControl::Multiple(_) => Seq::<char>::empty(),
        }
    }

    /// The header value this directive serializes to.
    pub open spec fn spec_str(self) -> Seq<char> {
        match self {
            CacheControl::Multiple(ds) => join_with(
                ds@.map_values(|d: CacheControl| d.base_str()),
                ", "@,
            ),
            _ => self.base_str(),
        }
    }

    /// A group holds plain directives only (one level of grouping).
    pub open spec fn wf(self) -> bool {
        match self {
            CacheControl::Multiple(ds) => forall|i: int|
                0 <= i < ds@.len() ==> !(#[trigger] ds@[i] is Multiple),
            _ => true,
        }
    }

    fn base_as_str(&self) -> (r: String)
        requires
            !(self is Multiple),
        ensures
            r@ == self.base_str(),
    {
        match self {
            CacheControl::NoCache => String::from_str("no-cache"),
            CacheControl::NoStore => String::from_str("no-store"),
            CacheControl::MustRevalidate => String::from_str("must-revalidate"),
            CacheControl::Public => String::from_str("public"),
            CacheControl::Private => String::from_str("private"),
            CacheControl::MaxAge(s) => {
                let mut r = String::from_str("max-age=");
                let n = u64_to_string(*s);
                r.append(n.as_str());
                r
            },
            CacheControl::SMaxAge(s) => {
                let mut r = String::from_str("s-maxage=");
                let n = u64_to_string(*s);
                r.append(n.as_str());
                r
            },
            CacheControl::NoTransform => String::from_str("no-transform"),
            CacheControl::Multiple(_) => {
                proof {
                    assert(false);
                }
                String::new()
            },
        }
    }

    /// The directive as a `Cache-Control` header value.
    pub fn as_str(&self) -> (r: String)
        requires
            self.wf(),
        ensures
            r@ == self.spec_str(),
    {
        match self {
            CacheControl::Multiple(ds) => {
                let ghost views = ds@.map_values(|d: CacheControl| d.base_str());
                let mut r = String::new();
                let mut i: usize = 0;
                while i < ds.len()
                    invariant
                        0 <= i <= ds@.len(),
                        views == ds@.map_values(|d: CacheControl| d.base_str()),
                        forall|j: int| 0 <= j < ds@.len() ==> !(#[trigger] ds@[j] is Multiple),
                        r@ == join_with(views.take(i as int), ", "@),
                    decreases ds@.len() - i,
                {
                    if i > 0 {
                        r.append(", ");
                    }
                    let part = ds[i].base_as_str();
                    r.append(part.as_str());
                    proof {
                        assert(views.take(i as int).push(views[i as int]) =~= views.take(i + 1));
                        lemma_join_push(views.take(i as int), views[i as int], ", "@);
                    }
                    i += 1;
                }
                proof {
                    assert(views.take(ds@.len() as int) =~= views);
                }
                r
            },
            _ => self.base_as_str(),
        }
    }
}

/// A `Content-Encoding` token, or a comma-joined group of them.
#[derive(Debug)]
pub enum ContentEncoding {
    /// `gzip`
    Gzip,
    /// `deflate`
    Deflate,
    /// `br`
    Brotli,
    /// `identity`
    Identity,
    /// Several encodings, serialized comma-separated.
    Multiple(Vec<ContentEncoding>),
}

impl ContentEncoding {
    /// The text of one plain token; a group has no text of its own here.
    pub open spec fn base_str(self) -> Seq<char> {
        match self {
            ContentEncoding::Gzip => "gzip"@,
            ContentEncoding::Deflate => "deflate"@,
            ContentEncoding::Brotli => "br"@,
            ContentEncoding::Identity => "identity"@,
            ContentEncoding::Multiple(_) => Seq::<char>::empty(),
        }
    }

    /// The header value this encoding serializes to.
    pub open spec fn spec_str(self) -> Seq<char> {
        match self {
            ContentEncoding::Multiple(es) => join_with(
                es@.map_values(|e: ContentEncoding| e.base_str()),
                ", "@,
            ),
            _ => self.base_str(),
        }
    }

    /// A group holds plain tokens only (one level of grouping).
    pub open spec fn wf(self) -> bool {
        match self {
            ContentEncoding::Multiple(es) => forall|i: int|
                0 <= i < es@.len() ==> !(#[trigger] es@[i] is Multiple),
            _ => true,
        }
    }

    fn base_as_str(&self) -> (r: String)
        requires
            !(self is Multiple),
        ensures
            r@ == self.base_str(),
    {
        match self {
            ContentEncoding::Gzip => String::from_str("gzip"),
            ContentEncoding::Deflate => String::from_str("deflate"),
            ContentEncoding::Brotli => String::from_str("br"),
            ContentEncoding::Identity => String::from_str("identity"),
            ContentEncoding::Multiple(_) => {
                proof {
                    assert(false);
                }
                String::new()
            },
        }
    }

    /// The encoding as a `Content-Encoding` header value.
    pub fn as_str(&self) -> (r: String)
        requires
            self.wf(),
        ensures
            r@ == self.spec_str(),
    {
        match self {
            ContentEncoding::Multiple(es) => {
                let ghost views = es@.map_values(|e: ContentEncoding| e.base_str());
                let mut r = String::new();
                let mut i: usize = 0;
                while i < es.len()
                    invariant
                        0 <= i <= es@.len(),
                        views == es@.map_values(|e: ContentEncoding| e.base_str()),
                        forall|j: int| 0 <= j < es@.len() ==> !(#[trigger] es@[j] is Multiple),
                        r@ == join_with(views.take(i as int), ", "@),
                    decreases es@.len() - i,
                {
                    if i > 0 {
                        r.append(", ");
                    }
                    let part = es[i].base_as_str();
                    r.append(part.as_str());
                    proof {
                        assert(views.take(i as int).push(views[i as int]) =~= views.take(i + 1));
                        lemma_join_push(views.take(i as int), views[i as int], ", "@);
                    }
                    i += 1;
                }
                proof {
                    assert(views.take(es@.len() as int) =~= views);
                }
                r
            },
            _ => self.base_as_str(),
        }
    }
}

/// A `Transfer-Encoding` token, or a comma-joined group of them.
#[derive(Debug)]
pub enum TransferEncoding {
    /// `chunked`
    Chunked,
    /// `compress`
    Compress,
    /// `deflate`
    Deflate,
    /// `gzip`
    Gzip,
    /// Several encodings, serialized comma-separated.
    Multiple(Vec<TransferEncoding>),
}

impl TransferEncoding {
    /// The text of one plain token; a group has no text of its own here.
    pub open spec fn base_str(self) -> Seq<char> {
        match self {
            TransferEncoding::Chunked => "chunked"@,
            TransferEncoding::Compress => "compress"@,
            TransferEncoding::Deflate => "deflate"@,
            TransferEncoding::Gzip => "gzip"@,
            TransferEncoding::Multiple(_) => Seq::<char>::empty(),
        }
    }

    /// The header value this encoding serializes to.
    pub open spec fn spec_str(self) -> Seq<char> {
        match self {
            TransferEncoding::Multiple(es) => join_with(
                es@.map_values(|e: TransferEncoding| e.base_str()),
                ", "@,
            ),
            _ => self.base_str(),
        }
    }

    /// A group holds plain tokens only (one level of grouping).
    pub open spec fn wf(self) -> bool {
        match self {
            TransferEncoding::Multiple(es) => forall|i: int|
                0 <= i < es@.len() ==> !(#[trigger] es@[i] is Multiple),
            _ => true,
        }
    }

    fn base_as_str(&self) -> (r: String)
        requires
            !(self is Multiple),
        ensures
            r@ == self.base_str(),
    {
        match self {
            TransferEncoding::Chunked => String::from_str("chunked"),
            TransferEncoding::Compress => String::from_str("compress"),
            TransferEncoding::Deflate => String::from_str("deflate"),
            TransferEncoding::Gzip => String::from_str("gzip"),
            TransferEncoding::Multiple(_) => {
                proof {
                    assert(false);
                }
                String::new()
            },
        }
    }

    /// The encoding as a `Transfer-Encoding` header value.
    pub fn as_str(&self) -> (r: String)
        requires
            self.wf(),
        ensures
            r@ == self.spec_str(),
    {
        match self {
            TransferEncoding::Multiple(es) => {
                let ghost views = es@.map_values(|e: TransferEncoding| e.base_str());
                let mut r = String::new();
                let mut i: usize = 0;
                while i < es.len()
                    invariant
                        0 <= i <= es@.len(),
                        views == es@.map_values(|e: TransferEncoding| e.base_str()),
                        forall|j: int| 0 <= j < es@.len() ==> !(#[trigger] es@[j] is Multiple),
                        r@ == join_with(views.take(i as int), ", "@),
                    decreases es@.len() - i,
                {
                    if i > 0 {
                        r.append(", ");
                    }
                    let part = es[i].base_as_str();
                    r.append(part.as_str());
                    proof {
                        assert(views.take(i as int).push(views[i as int]) =~= views.take(i + 1));
                        lemma_join_push(views.take(i as int), views[i as int], ", "@);
                    }
                    i += 1;
                }
                proof {
                    assert(views.take(es@.len() as int) =~= views);
                }
                r
            },
            _ => self.base_as_str(),
        }
    }
}

/// One `Content-Security-Policy` directive with its source list.
#[derive(Clone, Debug)]
pub enum CspDirective {
    /// `default-src`
    DefaultSrc(Vec<String>),
    /// `script-src`
    ScriptSrc(Vec<String>),
    /// `style-src`
    StyleSrc(Vec<String>),
    /// `img-src`
    ImgSrc(Vec<String>),
    /// `font-src`
    FontSrc(Vec<String>),
    /// `connect-src`
    ConnectSrc(Vec<String>),
    /// `frame-src`
    FrameSrc(Vec<String>),
    /// `object-src`
    ObjectSrc(Vec<String>),
    /// `media-src`
    MediaSrc(Vec<String>),
    /// Any other directive name with its sources.
    Custom(String, Vec<String>),
}

/// Sources joined with single spaces.
pub open spec fn spec_sources(ss: Seq<String>) -> Seq<char> {
    join_with(ss.map_values(|s: String| s@), " "@)
}

impl CspDirective {
    /// The directive text: its name, a space, and its space-joined sources.
    pub open spec fn spec_str(self) -> Seq<char> {
        match self {
            CspDirective::DefaultSrc(ss) => "default-src "@ + spec_sources(ss@),
            CspDirective::ScriptSrc(ss) => "script-src "@ + spec_sources(ss@),
            CspDirective::StyleSrc(ss) => "style-src "@ + spec_sources(ss@),
            CspDirective::ImgSrc(ss) => "img-src "@ + spec_sources(ss@),
            CspDirective::FontSrc(ss) => "font-src "@ + spec_sources(ss@),
            CspDirective::ConnectSrc(ss) => "connect-src "@ + spec_sources(ss@),
            CspDirective::FrameSrc(ss) => "frame-src "@ + spec_sources(ss@),
            CspDirective::ObjectSrc(ss) => "object-src "@ + spec_sources(ss@),
            CspDirective::MediaSrc(ss) => "media-src "@ + spec_sources(ss@),
            CspDirective::Custom(name, ss) => name@ + " "@ + spec_sources(ss@),
        }
    }

    /// The directive as it appears inside a `Content-Security-Policy` value.
    pub fn as_str(&self) -> (r: String)
        ensures
            r@ == self.spec_str(),
    {
        match self {
            CspDirective::DefaultSrc(ss) => {
                let mut r = String::from_str("default-src ");
                let joined = crate::text::join_strs(ss, " ");
                r.append(joined.as_str());
                r
            },
            CspDirective::ScriptSrc(ss) => {
                let mut r = String::from_str("script-src ");
                let joined = crate::text::join_strs(ss, " ");
                r.append(joined.as_str());
                r
            },
            CspDirective::StyleSrc(ss) => {
                let mut r = String::from_str("style-src ");
                let joined = crate::text::join_strs(ss, " ");
                r.append(joined.as_str());
                r
            },
            CspDirective::ImgSrc(ss) => {
                let mut r = String::from_str("img-src ");
                let joined = crate::text::join_strs(ss, " ");
                r.append(joined.as_str());
                r
            },
            CspDirective::FontSrc(ss) => {
                let mut r = String::from_str("font-src ");
                let joined = crate::text::join_strs(ss, " ");
                r.append(joined.as_str());
                r
            },
            CspDirective::ConnectSrc(ss) => {
                let mut r = String::from_str("connect-src ");
                let joined = crate::text::join_strs(ss, " ");
                r.append(joined.as_str());
                r
            },
            CspDirective::FrameSrc(ss) => {
                let mut r = String::from_str("frame-src ");
                let joined = crate::text::join_strs(ss, " ");
                r.append(joined.as_str());
                r
            },
            CspDirective::ObjectSrc(ss) => {
                let mut r = String::from_str("object-src ");
                let joined = crate::text::join_strs(ss, " ");
                r.append(joined.as_str());
                r
            },
            CspDirective::MediaSrc(ss) => {
                let mut r = String::from_str("media-src ");
                let joined = crate::text::join_strs(ss, " ");
                r.append(joined.as_str());
                r
            },
            CspDirective::Custom(name, ss) => {
                let mut r = name.clone();
                r.append(" ");
                let joined = crate::text::join_strs(ss, " ");
                r.append(joined.as_str());
                r
            },
        }
    }
}

/// Collects `Content-Security-Policy` directives and joins them.
#[derive(Debug)]
pub struct CspBuilder {
    /// The directives gathered so far, in order.
    pub directives: Vec<CspDirective>,
}

impl CspBuilder {
    /// A builder with no directives.
    pub fn new() -> (r: Self)
        ensures
            r.directives@ == Seq::<CspDirective>::empty(),
    {
        CspBuilder { directives: Vec::new() }
    }

    /// Appends one directive.
    pub fn directive(self, directive: CspDirective) -> (r: Self)
        ensures
            r.directives@ == self.directives@.push(directive),
    {
        let mut ds = self.directives;
        ds.push(directive);
        CspBuilder { directives: ds }
    }

    /// The policy value: the directives joined with `; `.
    pub fn build(&self) -> (r: String)
        ensures
            r@ == join_with(
                self.directives@.map_values(|d: CspDirective| d.spec_str()),
                "; "@,
            ),
    {
        let ghost views = self.directives@.map_values(|d: CspDirective| d.spec_str());
        let mut r = String::new();
        let mut i: usize = 0;
        while i < self.directives.len()
            invariant
                0 <= i <= self.directives@.len(),
                views == self.directives@.map_values(|d: CspDirective| d.spec_str()),
                r@ == join_with(views.take(i as int), "; "@),
            decreases self.directives@.len() - i,
        {
            if i > 0 {
                r.append("; ");
            }
            let part = self.directives[i].as_str();
            r.append(part.as_str());
            proof {
                assert(views.take(i as int).push(views[i as int]) =~= views.take(i + 1));
                lemma_join_push(views.take(i as int), views[i as int], "; "@);
            }
            i += 1;
        }
        proof {
            assert(views.take(self.directives@.len() as int) =~= views);
        }
        r
    }
}

/// The `X-Frame-Options` policy.
#[derive(Clone, Debug)]
pub enum FrameOption {
    /// `DENY`
    Deny,
    /// `SAMEORIGIN`
    SameOrigin,
    /// `ALLOW-FROM` with the given origin, serialized as the origin itself.
    AllowFrom(String),
}

impl FrameOption {
    /// The header value this policy serializes to.
    pub open spec fn spec_str(self) -> Seq<char> {
        match self {
            FrameOption::Deny => "DENY"@,
            FrameOption::SameOrigin => "SAMEORIGIN"@,
            FrameOption::AllowFrom(uri) => uri@,
        }
    }

    /// The policy as an `X-Frame-Options` header value.
    pub fn as_str(&self) -> (r: &str)
        ensures
            r@ == self.spec_str(),
    {
        match self {
            FrameOption::Deny => "DENY",
            FrameOption::SameOrigin => "SAMEORIGIN",
            FrameOption::AllowFrom(uri) => uri.as_str(),
        }
    }
}

/// An HTTP request method name, as used in header values.
#[derive(Clone, Copy, Debug)]
pub enum HttpMethod {
    /// `GET`
    Get,
    /// `POST`
    Post,
    /// `PUT`
    Put,
    /// `DELETE`
    Delete,
    /// `PATCH`
    Patch,
    /// `OPTIONS`
    Options,
    /// `HEAD`
    Head,
    /// `CONNECT`
    Connect,
    /// `TRACE`
    Trace,
}

impl HttpMethod {
    /// The upper-case name of the method.
    pub open spec fn spec_str(self) -> Seq<char> {
        match self {
            HttpMethod::Get => "GET"@,
            HttpMethod::Post => "POST"@,
            HttpMethod::Put => "PUT"@,
            HttpMethod::Delete => "DELETE"@,
            HttpMethod::Patch => "PATCH"@,
            HttpMethod::Options => "OPTIONS"@,
            HttpMethod::Head => "HEAD"@,
            HttpMethod::Connect => "CONNECT"@,
            HttpMethod::Trace => "TRACE"@,
        }
    }

    /// The method name as it appears in header values.
    pub fn as_str(&self) -> (r: &'static str)
        ensures
            r@ == self.spec_str(),
    {
        match self {
            HttpMethod::Get => "GET",
            HttpMethod::Post => "POST",
            HttpMethod::Put => "PUT",
            HttpMethod::Delete => "DELETE",
            HttpMethod::Patch => "PATCH",
            HttpMethod::Options => "OPTIONS",
            HttpMethod::Head => "HEAD",
            HttpMethod::Connect => "CONNECT",
            HttpMethod::Trace => "TRACE",
        }
    }
}

/// The `Referrer-Policy` of a response.
#[derive(Clone, Copy, Debug)]
pub enum ReferrerPolicy {
    /// `no-referrer`
    NoReferrer,
    /// `no-referrer-when-downgrade`
    NoReferrerWhenDowngrade,
    /// `origin`
    Origin,
    /// `origin-when-cross-origin`
    OriginWhenCrossOrigin,
    /// `same-origin`
    SameOrigin,
    /// `strict-origin`
    StrictOrigin,
    /// `strict-origin-when-cross-origin`
    StrictOriginWhenCrossOrigin,
    /// `unsafe-url`
    UnsafeUrl,
}

impl ReferrerPolicy {
    /// The header value this policy serializes to.
    pub open spec fn spec_str(self) -> Seq<char> {
        match self {
            ReferrerPolicy::NoReferrer => "no-referrer"@,
            ReferrerPolicy::NoReferrerWhenDowngrade => "no-referrer-when-downgrade"@,
            ReferrerPolicy::Origin => "origin"@,
            ReferrerPolicy::OriginWhenCrossOrigin => "origin-when-cross-origin"@,
            ReferrerPolicy::SameOrigin => "same-origin"@,
            ReferrerPolicy::StrictOrigin => "strict-origin"@,
            ReferrerPolicy::StrictOriginWhenCrossOrigin => "strict-origin-when-cross-origin"@,
            ReferrerPolicy::UnsafeUrl => "unsafe-url"@,
        }
    }

    /// The policy as a `Referrer-Policy` header value.
    pub fn as_str(&self) -> (r: &'static str)
        ensures
            r@ == self.spec_str(),
    {
        match self {
            ReferrerPolicy::NoReferrer => "no-referrer",
            ReferrerPolicy::NoReferrerWhenDowngrade => "no-referrer-when-downgrade",
            ReferrerPolicy::Origin => "origin",
            ReferrerPolicy::OriginWhenCrossOrigin => "origin-when-cross-origin",
            ReferrerPolicy::SameOrigin => "same-origin",
            ReferrerPolicy::StrictOrigin => "strict-origin",
            ReferrerPolicy::StrictOriginWhenCrossOrigin => "strict-origin-when-cross-origin",
            ReferrerPolicy::UnsafeUrl => "unsafe-url",
        }
    }
}

} // verus!
