//! The value object of one preview attempt: a session token, the parts of
//! the target URL, and the two addresses and the routing cookie derived
//! from them.

use vstd::prelude::*;

use vstd::utf8::is_ascii_chars;

use crate::http_method::HTTPMethod;
use crate::text::{decimal, decimal_string, is_lower_hex};

verus! {

/// `url::Url`, carried through as an opaque value.
#[verifier::external_type_specification]
#[verifier::external_body]
pub struct ExUrl(url::Url);

/// The four components of a target URL that a preview request is built from.
pub struct UrlParts {
    /// The scheme, without `://`.
    pub scheme: String,
    /// The host name; `None` where the URL names no domain.
    pub domain: Option<String>,
    pub path: String,
    /// The query without its leading `?`; `None` where the URL has none.
    pub query: Option<String>,
}

/// The target URL names no domain, so no preview request can be built.
#[derive(Debug)]
pub struct MalformedUrlError {}

pub struct RequestPayload {
    pub method: HTTPMethod,
    pub https: u8,
    pub session: String,
    pub protocol: String,
    pub domain: String,
    pub path: String,
    pub query: String,
    pub browser_url: String,
    pub service_url: String,
    pub body: Option<String>,
}

/// What a [`RequestPayload`] holds, as mathematical values.
pub struct PayloadModel {
    pub method: HTTPMethod,
    pub https: u8,
    pub session: Seq<char>,
    pub protocol: Seq<char>,
    pub domain: Seq<char>,
    pub path: Seq<char>,
    pub query: Seq<char>,
    pub browser_url: Seq<char>,
    pub service_url: Seq<char>,
    pub body: Option<Seq<char>>,
}

/// The text of an optional string.
pub open spec fn opt_text(s: Option<String>) -> Option<Seq<char>> {
    match s {
        Some(t) => Some(t@),
        None => None,
    }
}

/// `n` zero characters.
pub open spec fn zeros(n: nat) -> Seq<char> {
    Seq::new(n, |i: int| '0')
}

/// The host every preview is served from: `https://`, thirty-two zeros as
/// the placeholder account, and the preview domain.
pub open spec fn service_host() -> Seq<char> {
    "https://"@ + zeros(32) + ".cloudflareworkers.com"@
}

/// 1 for the scheme `https`, 0 for every other scheme.
pub open spec fn https_flag(scheme: Seq<char>) -> u8 {
    if scheme == "https"@ {
        1
    } else {
        0
    }
}

/// The empty text where there is no query, else `?` followed by the query.
pub open spec fn query_text(query: Option<Seq<char>>) -> Seq<char> {
    match query {
        Some(q) => seq!['?'] + q,
        None => Seq::empty(),
    }
}

/// The name under which the routing cookie is set, with its `=`.
pub open spec fn cookie_name() -> Seq<char> {
    "__ew_fiddle_preview="@
}

/// The cookie's value: script id, session, flag and domain, with nothing
/// between them.
pub open spec fn cookie_value(
    script_id: Seq<char>,
    session: Seq<char>,
    https: u8,
    domain: Seq<char>,
) -> Seq<char> {
    script_id + session + decimal(https as nat) + domain
}

/// A session token: a random identifier written as thirty-two lower-case
/// hexadecimal digits. The thirteenth digit is the identifier's version, 4,
/// and the seventeenth holds its variant, so it is one of `8`, `9`, `a`
/// and `b`.
pub open spec fn is_session_token(s: Seq<char>) -> bool {
    &&& s.len() == 32
    &&& forall|i: int| 0 <= i < s.len() ==> is_lower_hex(#[trigger] s[i])
    &&& s[12] == '4'
    &&& s[16] == '8' || s[16] == '9' || s[16] == 'a' || s[16] == 'b'
}

/// The payload built from a method, the parts of a URL that names `domain`,
/// a session token and a body.
pub open spec fn payload_of(
    method: HTTPMethod,
    scheme: Seq<char>,
    domain: Seq<char>,
    path: Seq<char>,
    query: Option<Seq<char>>,
    session: Seq<char>,
    body: Option<Seq<char>>,
) -> PayloadModel {
    PayloadModel {
        method,
        https: https_flag(scheme),
        session,
        protocol: scheme + "://"@,
        domain,
        path,
        query: query_text(query),
        browser_url: scheme + "://"@ + domain + path + query_text(query),
        service_url: service_host() + path + query_text(query),
        body,
    }
}

/// What holds of every payload that [`RequestPayload::from_parts`] builds,
/// whatever URL and session it was built from.
pub open spec fn well_formed(p: PayloadModel) -> bool {
    exists|scheme: Seq<char>, query: Option<Seq<char>>|
        p == #[trigger] payload_of(p.method, scheme, p.domain, p.path, query, p.session, p.body)
}

impl View for RequestPayload {
    type V = PayloadModel;

    open spec fn view(&self) -> PayloadModel {
        PayloadModel {
            method: self.method,
            https: self.https,
            session: self.session@,
            protocol: self.protocol@,
            domain: self.domain@,
            path: self.path@,
            query: self.query@,
            browser_url: self.browser_url@,
            service_url: self.service_url@,
            body: opt_text(self.body),
        }
    }
}

/// A scheme in the form in which the URL library hands it out: ASCII,
/// lower-case, and without the `:` that follows it in a URL.
pub open spec fn is_scheme_text(s: Seq<char>) -> bool {
    &&& is_ascii_chars(s)
    &&& forall|i: int| 0 <= i < s.len() ==> !('A' <= #[trigger] s[i] <= 'Z') && s[i] != ':'
}

/// The scheme of `url`, as `Url::scheme` gives it.
pub uninterp spec fn url_scheme_text(url: url::Url) -> Seq<char>;

/// The domain of `url`, as `Url::domain` gives it: none where the URL has
/// no host or its host is an address.
pub uninterp spec fn url_domain_text(url: url::Url) -> Option<Seq<char>>;

/// The path of `url`, as `Url::path` gives it.
pub uninterp spec fn url_path_text(url: url::Url) -> Seq<char>;

/// The query of `url`, as `Url::query` gives it: none where the URL has no
/// query.
pub uninterp spec fn url_query_text(url: url::Url) -> Option<Seq<char>>;

/// Whether the components of `url` have the form in which a parsed URL
/// holds them: the scheme lower-case and without `:`, and scheme, domain,
/// path and query in ASCII, with anything else encoded.
pub open spec fn url_encoded(url: url::Url) -> bool {
    &&& is_scheme_text(url_scheme_text(url))
    &&& url_domain_text(url) matches Some(domain) ==> is_ascii_chars(domain)
    &&& is_ascii_chars(url_path_text(url))
    &&& url_query_text(url) matches Some(query) ==> is_ascii_chars(query)
}

/// `Url::scheme`, copied into a `String`. The result depends on the URL
/// alone. As the method documents, it is an ASCII text, lower-case,
/// without the `:` delimiter.
#[verifier::external_body]
fn url_scheme(url: &url::Url) -> (r: String)
    ensures
        r@ == url_scheme_text(*url),
        is_scheme_text(r@),
{
    url.scheme().to_string()
}

/// `Url::domain`, copied into a `String`. The result depends on the URL
/// alone. As the method documents, a domain that is not ASCII comes
/// encoded, so the text is ASCII.
#[verifier::external_body]
fn url_domain(url: &url::Url) -> (r: Option<String>)
    ensures
        opt_text(r) == url_domain_text(*url),
        r matches Some(domain) ==> is_ascii_chars(domain@),
{
    match url.domain() {
        Some(domain) => Some(domain.to_string()),
        None => None,
    }
}

/// `Url::path`, copied into a `String`. The result depends on the URL
/// alone. As the method documents, it is a percent-encoded ASCII text.
#[verifier::external_body]
fn url_path(url: &url::Url) -> (r: String)
    ensures
        r@ == url_path_text(*url),
        is_ascii_chars(r@),
{
    url.path().to_string()
}

/// `Url::query`, copied into a `String`. The result depends on the URL
/// alone. As the method documents, it is a percent-encoded ASCII text.
#[verifier::external_body]
fn url_query(url: &url::Url) -> (r: Option<String>)
    ensures
        opt_text(r) == url_query_text(*url),
        r matches Some(query) ==> is_ascii_chars(query@),
{
    match url.query() {
        Some(query) => Some(query.to_string()),
        None => None,
    }
}

/// `Uuid::new_v4`, rendered by `Uuid::to_simple`: a random identifier as
/// thirty-two lower-case hexadecimal digits, without hyphens, with the
/// version 4 and the variant that `new_v4` sets in it. The call aborts if
/// the operating system cannot supply random bytes.
#[verifier::external_body]
fn new_session() -> (r: String)
    ensures
        is_session_token(r@),
{
    uuid::Uuid::new_v4().to_simple().to_string()
}

impl UrlParts {
    /// Whether the components have the form in which a parsed URL holds
    /// them: the scheme lower-case and without `:`, and scheme, domain,
    /// path and query in ASCII, with anything else encoded.
    pub open spec fn encoded(self) -> bool {
        &&& is_scheme_text(self.scheme@)
        &&& self.domain matches Some(domain) ==> is_ascii_chars(domain@)
        &&& is_ascii_chars(self.path@)
        &&& self.query matches Some(query) ==> is_ascii_chars(query@)
    }

    /// Reads the four components out of a parsed URL. They come in the
    /// form in which a parsed URL holds them.
    fn of(url: &url::Url) -> (parts: UrlParts)
        ensures
            parts.scheme@ == url_scheme_text(*url),
            opt_text(parts.domain) == url_domain_text(*url),
            parts.path@ == url_path_text(*url),
            opt_text(parts.query) == url_query_text(*url),
            parts.encoded(),
            url_encoded(*url),
    {
        UrlParts {
            scheme: url_scheme(url),
            domain: url_domain(url),
            path: url_path(url),
            query: url_query(url),
        }
    }
}

impl RequestPayload {
    /// Builds the payload for `url` with a fresh random session token.
    ///
    /// Fails if and only if `url` names no domain. Otherwise the payload
    /// is the one built from the scheme, domain, path and query of `url`,
    /// which come in the form in which a parsed URL holds them.
    pub fn create(method: HTTPMethod, url: url::Url, body: Option<String>) -> (r: Result<
        RequestPayload,
        MalformedUrlError,
    >)
        ensures
            r is Err <==> url_domain_text(url) is None,
            r matches Ok(p) ==> {
                &&& p@ == payload_of(
                    method,
                    url_scheme_text(url),
                    url_domain_text(url)->0,
                    url_path_text(url),
                    url_query_text(url),
                    p.session@,
                    opt_text(body),
                )
                &&& p.body == body
                &&& is_session_token(p.session@)
                &&& well_formed(p@)
            },
            url_encoded(url),
    {
        let parts = UrlParts::of(&url);
        let session = new_session();
        RequestPayload::from_parts(method, &parts, session, body)
    }

    /// Builds the payload from the components of a URL and a session token.
    ///
    /// Fails if and only if the URL names no domain.
    pub fn from_parts(
        method: HTTPMethod,
        url: &UrlParts,
        session: String,
        body: Option<String>,
    ) -> (r: Result<RequestPayload, MalformedUrlError>)
        ensures
            url.domain is None <==> r is Err,
            r matches Ok(p) ==> {
                &&& p@ == payload_of(
                    method,
                    url.scheme@,
                    url.domain->0@,
                    url.path@,
                    opt_text(url.query),
                    session@,
                    opt_text(body),
                )
                &&& p.session == session
                &&& p.body == body
            },
    {
        let domain = match &url.domain {
            Some(d) => d.clone(),
            None => {
                return Err(MalformedUrlError {  });
            },
        };
        let https_text = String::from_str("https");
        let https: u8 = if url.scheme == https_text {
            1
        } else {
            0
        };
        let mut protocol = url.scheme.clone();
        protocol.append("://");
        let path = url.path.clone();
        let query = match &url.query {
            Some(q) => {
                let mut text = String::from_str("?");
                text.append(q.as_str());
                proof {
                    reveal_strlit("?");
                    assert("?"@ =~= seq!['?']);
                }
                text
            },
            None => String::new(),
        };
        let mut browser_url = protocol.clone();
        browser_url.append(domain.as_str());
        browser_url.append(path.as_str());
        browser_url.append(query.as_str());
        let mut service_url = String::from_str(
            "https://00000000000000000000000000000000.cloudflareworkers.com",
        );
        proof {
            lemma_service_host_text();
        }
        service_url.append(path.as_str());
        service_url.append(query.as_str());
        let p = RequestPayload {
            method,
            https,
            session,
            protocol,
            domain,
            path,
            query,
            browser_url,
            service_url,
            body,
        };
        assert(p@ == payload_of(
            method,
            url.scheme@,
            url.domain->0@,
            url.path@,
            opt_text(url.query),
            session@,
            opt_text(body),
        ));
        Ok(p)
    }

    /// The routing cookie for the script `script_id`: the cookie's name,
    /// then script id, session, flag and domain with nothing between them.
    pub fn cookie(&self, script_id: &String) -> (r: String)
        ensures
            r@ == cookie_name() + cookie_value(script_id@, self.session@, self.https, self.domain@),
    {
        let mut r = String::from_str("__ew_fiddle_preview=");
        r.append(script_id.as_str());
        r.append(self.session.as_str());
        let flag = decimal_string(self.https as u64);
        r.append(flag.as_str());
        r.append(self.domain.as_str());
        assert(r@ =~= cookie_name() + cookie_value(
            script_id@,
            self.session@,
            self.https,
            self.domain@,
        ));
        r
    }
}

/// The literal that the service address starts with is [`service_host`].
proof fn lemma_service_host_text()
    ensures
        "https://00000000000000000000000000000000.cloudflareworkers.com"@ == service_host(),
{
    reveal_strlit("https://00000000000000000000000000000000.cloudflareworkers.com");
    reveal_strlit("https://");
    reveal_strlit(".cloudflareworkers.com");
    assert("https://00000000000000000000000000000000.cloudflareworkers.com"@ =~= service_host());
}

/// The flag is 1 for the scheme `https` and 0 for every other scheme.
pub proof fn lemma_https_flag(scheme: Seq<char>)
    ensures
        scheme == "https"@ ==> https_flag(scheme) == 1,
        scheme != "https"@ ==> https_flag(scheme) == 0,
{
}

/// The service address of every payload begins with `https://`,
/// thirty-two zeros and the preview domain, whatever URL it was built
/// from.
pub proof fn lemma_service_url_begins_with_host(p: PayloadModel)
    requires
        well_formed(p),
    ensures
        service_host().len() == 62,
        forall|i: int| 8 <= i < 40 ==> service_host()[i] == '0',
        p.service_url.len() >= 62,
        p.service_url.take(62) == service_host(),
        p.service_url == service_host() + p.path + p.query,
{
    reveal_strlit("https://");
    reveal_strlit(".cloudflareworkers.com");
    assert(p.service_url.take(62) =~= service_host());
}

/// The cookie's value is the script id, the session, the flag and the
/// domain, in this order and with nothing between them: its length is the
/// sum of theirs, and each stands at its place.
pub proof fn lemma_cookie_has_no_delimiters(
    script_id: Seq<char>,
    session: Seq<char>,
    https: u8,
    domain: Seq<char>,
)
    ensures
        ({
            let value = cookie_value(script_id, session, https, domain);
            let flag = decimal(https as nat);
            let a = script_id.len() as int;
            let b = a + session.len();
            let c = b + flag.len();
            &&& value.len() == c + domain.len()
            &&& value.subrange(0, a) == script_id
            &&& value.subrange(a, b) == session
            &&& value.subrange(b, c) == flag
            &&& value.subrange(c, value.len() as int) == domain
            &&& https == 0 ==> flag == seq!['0']
            &&& https == 1 ==> flag == seq!['1']
        }),
{
    let value = cookie_value(script_id, session, https, domain);
    let flag = decimal(https as nat);
    let a = script_id.len() as int;
    let b = a + session.len();
    let c = b + flag.len();
    assert(value.subrange(0, a) =~= script_id);
    assert(value.subrange(a, b) =~= session);
    assert(value.subrange(b, c) =~= flag);
    assert(value.subrange(c, value.len() as int) =~= domain);
}

} // verus!
