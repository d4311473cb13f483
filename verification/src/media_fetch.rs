//! Fetching a prompt from a URL, within bounds: which URLs are dialled, which redirects are followed,
//! and how much is read.
use crate::text::{
    ascii_lowered, before_char, chars_of, decimal, decimal_text, joined, lowered, optional_text, owned, spells,
    text_of, trimmed, trimmed_chars, up_to,
};
use vstd::prelude::*;

verus! {

/// Bound on one connect, in milliseconds.
pub const DEFAULT_CONNECT_TIMEOUT_MS: u64 = 2_000;

/// Bound on the wait for response headers, in milliseconds.
pub const DEFAULT_FIRST_BYTE_TIMEOUT_MS: u64 = 5_000;

/// Bound on the whole fetch, in milliseconds.
pub const DEFAULT_TOTAL_TIMEOUT_MS: u64 = 15_000;

/// Bound on the response body, in bytes.
pub const DEFAULT_MAX_BODY_BYTES: usize = 8_388_608;

/// Bound on the redirects that are followed.
pub const DEFAULT_MAX_REDIRECTS: u8 = 3;

/// The bounds of a fetch.
#[derive(Clone, Debug)]
pub struct MediaFetchLimits {
    pub connect_timeout_ms: u64,
    pub first_byte_timeout_ms: u64,
    pub total_timeout_ms: u64,
    pub max_body_bytes: usize,
    pub max_redirects: u8,
    /// The hosts that may be dialled. None means all.
    pub allow_hosts: Vec<String>,
}

impl Default for MediaFetchLimits {
    fn default() -> (limits: Self)
        ensures
            limits.connect_timeout_ms == DEFAULT_CONNECT_TIMEOUT_MS,
            limits.first_byte_timeout_ms == DEFAULT_FIRST_BYTE_TIMEOUT_MS,
            limits.total_timeout_ms == DEFAULT_TOTAL_TIMEOUT_MS,
            limits.max_body_bytes == DEFAULT_MAX_BODY_BYTES,
            limits.max_redirects == DEFAULT_MAX_REDIRECTS,
            limits.allow_hosts@.len() == 0,
    {
        MediaFetchLimits {
            connect_timeout_ms: DEFAULT_CONNECT_TIMEOUT_MS,
            first_byte_timeout_ms: DEFAULT_FIRST_BYTE_TIMEOUT_MS,
            total_timeout_ms: DEFAULT_TOTAL_TIMEOUT_MS,
            max_body_bytes: DEFAULT_MAX_BODY_BYTES,
            max_redirects: DEFAULT_MAX_REDIRECTS,
            allow_hosts: Vec::new(),
        }
    }
}

/// Whether two texts are equal but for the case of ASCII letters.
pub open spec fn same_ignoring_case(a: Seq<char>, b: Seq<char>) -> bool {
    ascii_lowered(a) == ascii_lowered(b)
}

impl MediaFetchLimits {
    /// Whether a host may be dialled: there is no list, or it is on it, whole and whatever the case of
    /// its letters.
    pub open spec fn permits(self, host: Seq<char>) -> bool {
        self.allow_hosts@.len() == 0 || exists|i: int|
            0 <= i < self.allow_hosts@.len() && same_ignoring_case((#[trigger] self.allow_hosts@[i])@, host)
    }

    /// Whether a host may be dialled.
    pub fn permits_host(&self, host: &str) -> (permitted: bool)
        ensures
            permitted == self.permits(host@),
    {
        if self.allow_hosts.len() == 0 {
            return true;
        }
        let wanted = text_of(&lowered(&chars_of(host)));
        let mut i: usize = 0;
        while i < self.allow_hosts.len()
            invariant
                i <= self.allow_hosts@.len(),
                wanted@ == ascii_lowered(host@),
                forall|j: int| 0 <= j < i ==> !same_ignoring_case((#[trigger] self.allow_hosts@[j])@, host@),
            decreases self.allow_hosts@.len() - i,
        {
            let allowed = text_of(&lowered(&chars_of(self.allow_hosts[i].as_str())));
            if allowed == wanted {
                proof {
                    assert(same_ignoring_case(self.allow_hosts@[i as int]@, host@));
                }
                return true;
            }
            proof {
                assert(!same_ignoring_case(self.allow_hosts@[i as int]@, host@));
            }
            i = i + 1;
        }
        false
    }
}

/// What can go wrong with a fetch.
#[derive(Clone, Debug)]
pub enum MediaFetchError {
    InvalidUrl { reason: String },
    UnsupportedScheme { scheme: String },
    HostNotAllowed { host: String },
    NoAddress { host: String },
    ConnectTimeout { host: String, timeout_ms: u64 },
    Connect { host: String, reason: String },
    Tls { host: String, reason: String },
    FirstByteTimeout { host: String, timeout_ms: u64 },
    DeadlineExceeded { timeout_ms: u64 },
    Http { reason: String },
    Status { status: u16 },
    BodyTooLarge { limit: usize },
    TooManyRedirects { limit: u8 },
    BadRedirect { from: String },
}

impl MediaFetchError {
    /// The message of the error.
    pub open spec fn text(self) -> Seq<char> {
        match self {
            MediaFetchError::InvalidUrl { reason } => "media URL is not usable: "@ + reason@,
            MediaFetchError::UnsupportedScheme { scheme } => "unsupported media URL scheme '"@ + scheme@
                + "' (only http and https)"@,
            MediaFetchError::HostNotAllowed { host } => "host '"@ + host@ + "' is not on the media-fetch allow-list"@,
            MediaFetchError::NoAddress { host } => "no address for host '"@ + host@ + "'"@,
            MediaFetchError::ConnectTimeout { host, timeout_ms } => "connect to '"@ + host@ + "' timed out after "@
                + decimal(timeout_ms as nat) + " ms"@,
            MediaFetchError::Connect { host, reason } => "connect to '"@ + host@ + "' failed: "@ + reason@,
            MediaFetchError::Tls { host, reason } => "TLS handshake with '"@ + host@ + "' failed: "@ + reason@,
            MediaFetchError::FirstByteTimeout { host, timeout_ms } => "no response headers from '"@ + host@
                + "' within "@ + decimal(timeout_ms as nat) + " ms"@,
            MediaFetchError::DeadlineExceeded { timeout_ms } => "media fetch exceeded its "@ + decimal(
                timeout_ms as nat,
            ) + " ms deadline"@,
            MediaFetchError::Http { reason } => "HTTP request failed: "@ + reason@,
            MediaFetchError::Status { status } => "server answered HTTP "@ + decimal(status as nat),
            MediaFetchError::BodyTooLarge { limit } => "response body exceeds the "@ + decimal(limit as nat)
                + "-byte cap"@,
            MediaFetchError::TooManyRedirects { limit } => "followed "@ + decimal(limit as nat)
                + " redirects without reaching a body"@,
            MediaFetchError::BadRedirect { from } => "redirect from '"@ + from@
                + "' carried no usable Location header"@,
        }
    }

    /// The message of the error.
    pub fn message(&self) -> (message: String)
        ensures
            message@ == self.text(),
    {
        match self {
            MediaFetchError::InvalidUrl { reason } => joined("media URL is not usable: ", reason.as_str()),
            MediaFetchError::UnsupportedScheme { scheme } => between(
                "unsupported media URL scheme '",
                scheme.as_str(),
                "' (only http and https)",
            ),
            MediaFetchError::HostNotAllowed { host } => between(
                "host '",
                host.as_str(),
                "' is not on the media-fetch allow-list",
            ),
            MediaFetchError::NoAddress { host } => between("no address for host '", host.as_str(), "'"),
            MediaFetchError::ConnectTimeout { host, timeout_ms } => {
                let mut message = between("connect to '", host.as_str(), "' timed out after ");
                message.push_str(decimal_text(*timeout_ms).as_str());
                message.push_str(" ms");
                message
            },
            MediaFetchError::Connect { host, reason } => {
                let mut message = between("connect to '", host.as_str(), "' failed: ");
                message.push_str(reason.as_str());
                message
            },
            MediaFetchError::Tls { host, reason } => {
                let mut message = between("TLS handshake with '", host.as_str(), "' failed: ");
                message.push_str(reason.as_str());
                message
            },
            MediaFetchError::FirstByteTimeout { host, timeout_ms } => {
                let mut message = between("no response headers from '", host.as_str(), "' within ");
                message.push_str(decimal_text(*timeout_ms).as_str());
                message.push_str(" ms");
                message
            },
            MediaFetchError::DeadlineExceeded { timeout_ms } => between(
                "media fetch exceeded its ",
                decimal_text(*timeout_ms).as_str(),
                " ms deadline",
            ),
            MediaFetchError::Http { reason } => joined("HTTP request failed: ", reason.as_str()),
            MediaFetchError::Status { status } => joined(
                "server answered HTTP ",
                decimal_text(*status as u64).as_str(),
            ),
            MediaFetchError::BodyTooLarge { limit } => between(
                "response body exceeds the ",
                decimal_text(*limit as u64).as_str(),
                "-byte cap",
            ),
            MediaFetchError::TooManyRedirects { limit } => between(
                "followed ",
                decimal_text(*limit as u64).as_str(),
                " redirects without reaching a body",
            ),
            MediaFetchError::BadRedirect { from } => between(
                "redirect from '",
                from.as_str(),
                "' carried no usable Location header",
            ),
        }
    }
}

/// Three texts in a row.
fn between(before: &str, middle: &str, after: &str) -> (text: String)
    ensures
        text@ == before@ + middle@ + after@,
{
    let mut text = joined(before, middle);
    text.push_str(after);
    text
}

/// The parts of a URL that a fetch reads.
#[derive(Clone, Debug)]
pub struct UriParts {
    pub scheme: Option<String>,
    pub host: Option<String>,
    pub authority: Option<String>,
    pub port: Option<u16>,
    pub path_and_query: Option<String>,
    /// The whole URL.
    pub text: String,
}

/// The content of a [`UriParts`].
pub struct UriView {
    pub scheme: Option<Seq<char>>,
    pub host: Option<Seq<char>>,
    pub authority: Option<Seq<char>>,
    pub port: Option<u16>,
    pub path_and_query: Option<Seq<char>>,
    pub text: Seq<char>,
}

impl View for UriParts {
    type V = UriView;

    open spec fn view(&self) -> UriView {
        UriView {
            scheme: optional_text(self.scheme),
            host: optional_text(self.host),
            authority: optional_text(self.authority),
            port: self.port,
            path_and_query: optional_text(self.path_and_query),
            text: self.text@,
        }
    }
}

/// What a URL parses to: its parts, or the message of the parse error.
pub uninterp spec fn parsed_uri(text: Seq<char>) -> Result<UriView, Seq<char>>;

/// The content of a parse result.
pub open spec fn parse_view(parsed: Result<UriParts, String>) -> Result<UriView, Seq<char>> {
    match parsed {
        Ok(parts) => Ok(parts@),
        Err(error) => Err(error@),
    }
}

/// `hyper::Uri` parses a text, and hands out its scheme, host, authority, port, path with query, and
/// its own text. The outcome depends on the text alone.
#[verifier::external_body]
fn parse_uri(text: &str) -> (parsed: Result<UriParts, String>)
    ensures
        parse_view(parsed) == parsed_uri(text@),
{
    match text.parse::<hyper::Uri>() {
        Ok(uri) => Ok(UriParts {
            scheme: uri.scheme_str().map(str::to_string),
            host: uri.host().map(str::to_string),
            authority: uri.authority().map(|authority| authority.as_str().to_string()),
            port: uri.port_u16(),
            path_and_query: uri.path_and_query().map(|path| path.as_str().to_string()),
            text: uri.to_string(),
        }),
        Err(error) => Err(error.to_string()),
    }
}

/// Whether a text holds a character.
pub open spec fn holds_char(text: Seq<char>, c: char) -> bool {
    exists|i: int| 0 <= i < text.len() && text[i] == c
}

/// The scheme a URL begins with, in small letters, read off the text itself.
pub open spec fn raw_scheme(url: Seq<char>) -> Seq<char> {
    ascii_lowered(up_to(trimmed(url), ':'))
}

/// Check the scheme of a URL before it is parsed, so that another scheme is named as such. Returns the
/// URL without surrounding white space.
pub fn check_scheme(url: &str) -> (checked: Result<String, MediaFetchError>)
    ensures
        !holds_char(trimmed(url@), ':') ==> (checked matches Err(MediaFetchError::InvalidUrl { reason }) && reason@
            == "no scheme"@),
        holds_char(trimmed(url@), ':') && raw_scheme(url@) != "http"@ && raw_scheme(url@) != "https"@ ==> (
        checked matches Err(MediaFetchError::UnsupportedScheme { scheme }) && scheme@ == raw_scheme(url@)),
        holds_char(trimmed(url@), ':') && (raw_scheme(url@) == "http"@ || raw_scheme(url@) == "https"@) ==> (
        checked matches Ok(text) && text@ == trimmed(url@)),
{
    let chars = trimmed_chars(url);
    if !contains_char(&chars, ':') {
        return Err(MediaFetchError::InvalidUrl { reason: owned("no scheme") });
    }
    let scheme = lowered(&before_char(&chars, ':'));
    if !spells(&scheme, "http") && !spells(&scheme, "https") {
        return Err(MediaFetchError::UnsupportedScheme { scheme: text_of(&scheme) });
    }
    Ok(text_of(&chars))
}

/// Whether a list of characters holds one.
fn contains_char(chars: &Vec<char>, c: char) -> (found: bool)
    ensures
        found == holds_char(chars@, c),
{
    let mut i: usize = 0;
    while i < chars.len()
        invariant
            i <= chars@.len(),
            forall|j: int| 0 <= j < i ==> chars@[j] != c,
        decreases chars@.len() - i,
    {
        if chars[i] == c {
            return true;
        }
        i = i + 1;
    }
    false
}

/// Judge a parsed URL: it must have a host, and the host must be permitted.
pub fn judge_uri(parsed: Result<UriParts, String>, limits: &MediaFetchLimits) -> (judged: Result<
    UriParts,
    MediaFetchError,
>)
    ensures
        judged_as(judged, parse_view(parsed), *limits),
        parsed is Ok && judged is Ok ==> judged->Ok_0 == parsed->Ok_0,
{
    match parsed {
        Err(error) => Err(MediaFetchError::InvalidUrl { reason: error }),
        Ok(uri) => {
            let permitted = match &uri.host {
                None => {
                    return Err(MediaFetchError::InvalidUrl { reason: owned("no host") });
                },
                Some(host) => {
                    if !limits.permits_host(host.as_str()) {
                        return Err(MediaFetchError::HostNotAllowed { host: host.clone() });
                    }
                    true
                },
            };
            Ok(uri)
        },
    }
}

/// How a parsed URL is judged.
pub open spec fn judged_as(
    judged: Result<UriParts, MediaFetchError>,
    parsed: Result<UriView, Seq<char>>,
    limits: MediaFetchLimits,
) -> bool {
    match parsed {
        Err(error) => judged matches Err(MediaFetchError::InvalidUrl { reason }) && reason@ == error,
        Ok(uri) => match uri.host {
            None => judged matches Err(MediaFetchError::InvalidUrl { reason }) && reason@ == "no host"@,
            Some(name) => if limits.permits(name) {
                judged matches Ok(parts) && parts@ == uri
            } else {
                judged matches Err(MediaFetchError::HostNotAllowed { host }) && host@ == name
            },
        },
    }
}

/// Validate a URL without dialling anything: its scheme, its host, and the list of permitted hosts.
pub fn validate_media_url(url: &str, limits: &MediaFetchLimits) -> (validated: Result<UriParts, MediaFetchError>)
    ensures
        !holds_char(trimmed(url@), ':') ==> (validated matches Err(MediaFetchError::InvalidUrl { reason }) && reason@
            == "no scheme"@),
        holds_char(trimmed(url@), ':') && raw_scheme(url@) != "http"@ && raw_scheme(url@) != "https"@ ==> (
        validated matches Err(MediaFetchError::UnsupportedScheme { scheme }) && scheme@ == raw_scheme(url@)),
        holds_char(trimmed(url@), ':') && (raw_scheme(url@) == "http"@ || raw_scheme(url@) == "https"@)
            ==> judged_as(validated, parsed_uri(trimmed(url@)), *limits),
{
    match check_scheme(url) {
        Err(error) => Err(error),
        Ok(text) => judge_uri(parse_uri(text.as_str()), limits),
    }
}

/// Whether a character may stand in a scheme (RFC 3986 section 3.1).
pub open spec fn scheme_char(c: char) -> bool {
    'a' <= c <= 'z' || 'A' <= c <= 'Z' || '0' <= c <= '9' || c == '+' || c == '-' || c == '.'
}

/// Whether the first `i` characters of a text are a scheme, and the mark that follows one comes next.
pub open spec fn scheme_ends_at(text: Seq<char>, i: int) -> bool {
    &&& 0 < i && i + 2 < text.len()
    &&& forall|j: int| 0 <= j < i ==> scheme_char(#[trigger] text[j])
    &&& text[i] == ':' && text[i + 1] == '/' && text[i + 2] == '/'
}

/// Whether a text is an absolute URL: it begins with a scheme.
pub open spec fn absolute(text: Seq<char>) -> bool {
    exists|i: int| scheme_ends_at(text, i)
}

/// Where a redirect leads: a location that begins with a slash on the same server, an absolute one as
/// it is, and nowhere otherwise.
pub open spec fn redirect_target(from: UriView, location: Seq<char>) -> Option<Seq<char>> {
    let text = trimmed(location);
    if text.len() == 0 {
        None
    } else if text[0] == '/' {
        let scheme = match from.scheme {
            Some(name) => name,
            None => "http"@,
        };
        match from.authority {
            Some(authority) => Some(scheme + "://"@ + authority + "/"@ + text.skip(1)),
            None => None,
        }
    } else if absolute(text) {
        Some(text)
    } else {
        None
    }
}

/// Where a redirect leads.
pub fn resolve_location(from: &UriParts, location: &str) -> (target: Result<String, MediaFetchError>)
    ensures
        match redirect_target(from@, location@) {
            Some(next) => target matches Ok(url) && url@ == next,
            None => target matches Err(MediaFetchError::BadRedirect { from: source }) && source@ == from@.text,
        },
{
    let chars = trimmed_chars(location);
    if chars.len() == 0 {
        return Err(MediaFetchError::BadRedirect { from: from.text.clone() });
    }
    if chars[0] == '/' {
        if let Some(authority) = &from.authority {
            let mut url = match &from.scheme {
                Some(scheme) => scheme.clone(),
                None => owned("http"),
            };
            url.push_str("://");
            url.push_str(authority.as_str());
            url.push_str("/");
            let mut i: usize = 1;
            let ghost head = url@;
            proof {
                assert(chars@.subrange(1, 1) =~= Seq::empty());
                assert(head + chars@.subrange(1, 1) =~= head);
            }
            while i < chars.len()
                invariant
                    1 <= i <= chars@.len(),
                    url@ =~= head + chars@.subrange(1, i as int),
                decreases chars@.len() - i,
            {
                url.push(chars[i]);
                i = i + 1;
            }
            proof {
                assert(chars@.subrange(1, i as int) =~= chars@.skip(1));
            }
            return Ok(url);
        }
    } else if is_absolute(&chars) {
        return Ok(text_of(&chars));
    }
    Err(MediaFetchError::BadRedirect { from: from.text.clone() })
}

/// Whether a list of characters is an absolute URL.
fn is_absolute(chars: &Vec<char>) -> (found: bool)
    ensures
        found == absolute(chars@),
{
    let total: usize = chars.len();
    let mut i: usize = 0;
    while i < total && is_scheme_char(chars[i])
        invariant
            total == chars@.len(),
            i <= total,
            forall|j: int| 0 <= j < i ==> scheme_char(#[trigger] chars@[j]),
        decreases total - i,
    {
        i = i + 1;
    }
    let marked = i > 0 && total - i > 2 && chars[i] == ':' && chars[i + 1] == '/' && chars[i + 2] == '/';
    proof {
        if marked {
            assert(scheme_ends_at(chars@, i as int));
        }
        assert forall|k: int| scheme_ends_at(chars@, k) implies k == i by {
            if k < i {
                assert(scheme_char(chars@[k]));
            } else if k > i {
                assert(scheme_char(chars@[i as int]));
            }
        }
    }
    marked
}

/// Whether a character may stand in a scheme.
fn is_scheme_char(c: char) -> (found: bool)
    ensures
        found == scheme_char(c),
{
    ('a' <= c && c <= 'z') || ('A' <= c && c <= 'Z') || ('0' <= c && c <= '9') || c == '+' || c == '-' || c == '.'
}

/// One request of a fetch.
#[derive(Clone, Debug)]
pub struct HopRequest {
    pub host: String,
    pub port: u16,
    pub secure: bool,
    /// The value of the host header.
    pub host_header: String,
    /// The path and query.
    pub target: String,
}

/// Whether a URL asks for TLS.
pub open spec fn is_secure(uri: UriView) -> bool {
    uri.scheme == Some("https"@)
}

/// Whether a request is the one a URL with a host makes.
pub open spec fn asks_for(request: HopRequest, uri: UriView) -> bool {
    let name = uri.host->Some_0;
    &&& request.host@ == name
    &&& request.secure == is_secure(uri)
    &&& request.port == (match uri.port {
        Some(port) => port,
        None => if is_secure(uri) {
            443
        } else {
            80
        },
    })
    &&& request.host_header@ == (match uri.port {
        Some(port) => name + ":"@ + decimal(port as nat),
        None => name,
    })
    &&& request.target@ == (match uri.path_and_query {
        Some(path) => path,
        None => "/"@,
    })
}

/// The request a URL makes: TLS for `https`, the port of the URL or that of its scheme, and the whole
/// path and query.
pub fn hop_request(uri: &UriParts) -> (request: Result<HopRequest, MediaFetchError>)
    ensures
        uri@.host is None ==> (request matches Err(MediaFetchError::InvalidUrl { reason }) && reason@ == "no host"@),
        uri@.host is Some ==> request is Ok && asks_for(request->Ok_0, uri@),
{
    let host = match &uri.host {
        None => {
            return Err(MediaFetchError::InvalidUrl { reason: owned("no host") });
        },
        Some(host) => host.clone(),
    };
    let secure = match &uri.scheme {
        Some(scheme) => *scheme == owned("https"),
        None => false,
    };
    let port: u16 = match uri.port {
        Some(port) => port,
        None => if secure {
            443
        } else {
            80
        },
    };
    let mut host_header = host.clone();
    if let Some(port) = uri.port {
        host_header.push_str(":");
        host_header.push_str(decimal_text(port as u64).as_str());
    }
    let target = match &uri.path_and_query {
        Some(path) => path.clone(),
        None => owned("/"),
    };
    Ok(HopRequest { host, port, secure, host_header, target })
}

/// What a response leads to.
#[derive(Clone, Debug)]
pub enum ResponseVerdict {
    /// Follow this location.
    Redirect { location: String },
    /// Read the body.
    ReadBody,
}

/// How the head of a response is judged.
pub open spec fn head_judged(
    verdict: Result<ResponseVerdict, MediaFetchError>,
    status: u16,
    location: Option<String>,
    declared: Option<usize>,
    from: UriView,
    limit: usize,
) -> bool {
    &&& 300 <= status <= 399 && location is Some ==> verdict == Result::<ResponseVerdict, MediaFetchError>::Ok(
        ResponseVerdict::Redirect { location: location->Some_0 },
    )
    &&& 300 <= status <= 399 && location is None ==> (verdict matches Err(MediaFetchError::BadRedirect { from: source })
        && source@ == from.text)
    &&& !(200 <= status <= 399) ==> verdict == Result::<ResponseVerdict, MediaFetchError>::Err(
        MediaFetchError::Status { status },
    )
    &&& 200 <= status <= 299 ==> verdict == (if declared matches Some(length) && length > limit {
        Result::<ResponseVerdict, MediaFetchError>::Err(MediaFetchError::BodyTooLarge { limit })
    } else {
        Result::<ResponseVerdict, MediaFetchError>::Ok(ResponseVerdict::ReadBody)
    })
}

/// Judge the head of a response. `declared` is the content length it declares, where that is a number.
pub fn judge_response(
    status: u16,
    location: Option<String>,
    declared: Option<usize>,
    from: &UriParts,
    limits: &MediaFetchLimits,
) -> (verdict: Result<ResponseVerdict, MediaFetchError>)
    ensures
        head_judged(verdict, status, location, declared, from@, limits.max_body_bytes),
{
    if 300 <= status && status <= 399 {
        return match location {
            Some(location) => Ok(ResponseVerdict::Redirect { location }),
            None => Err(MediaFetchError::BadRedirect { from: from.text.clone() }),
        };
    }
    if status < 200 || status > 299 {
        return Err(MediaFetchError::Status { status });
    }
    if let Some(length) = declared {
        if length > limits.max_body_bytes {
            return Err(MediaFetchError::BodyTooLarge { limit: limits.max_body_bytes });
        }
    }
    Ok(ResponseVerdict::ReadBody)
}

/// A response body under way.
#[derive(Debug)]
pub struct BodyBuffer {
    pub bytes: Vec<u8>,
    pub limit: usize,
}

impl BodyBuffer {
    /// The body never grows past its bound.
    pub open spec fn wf(self) -> bool {
        self.bytes@.len() <= self.limit
    }

    /// An empty body.
    pub fn new(limits: &MediaFetchLimits) -> (body: Self)
        ensures
            body.wf(),
            body.bytes@.len() == 0,
            body.limit == limits.max_body_bytes,
    {
        BodyBuffer { bytes: Vec::new(), limit: limits.max_body_bytes }
    }

    /// Take in a chunk, or refuse it where the body would grow past its bound.
    pub fn push(&mut self, chunk: &[u8]) -> (result: Result<(), MediaFetchError>)
        requires
            old(self).wf(),
        ensures
            final(self).wf(),
            final(self).limit == old(self).limit,
            old(self).bytes@.len() + chunk@.len() <= old(self).limit ==> result is Ok && final(self).bytes@
                == old(self).bytes@ + chunk@,
            old(self).bytes@.len() + chunk@.len() > old(self).limit ==> result == Result::<(), MediaFetchError>::Err(
                MediaFetchError::BodyTooLarge { limit: old(self).limit },
            ) && final(self).bytes@ == old(self).bytes@,
    {
        if chunk.len() > self.limit - self.bytes.len() {
            return Err(MediaFetchError::BodyTooLarge { limit: self.limit });
        }
        let ghost before = self.bytes@;
        let mut i: usize = 0;
        while i < chunk.len()
            invariant
                i <= chunk@.len(),
                self.limit == old(self).limit,
                before == old(self).bytes@,
                before.len() + chunk@.len() <= self.limit,
                self.bytes@ =~= before + chunk@.take(i as int),
            decreases chunk@.len() - i,
        {
            self.bytes.push(chunk[i]);
            i = i + 1;
        }
        proof {
            assert(chunk@.take(i as int) =~= chunk@);
        }
        Ok(())
    }
}

/// A fetch that follows redirects.
#[derive(Debug)]
pub struct FetchChain {
    /// The URL to fetch next.
    pub current: String,
    /// Redirects followed so far.
    pub redirects: u8,
    pub max_redirects: u8,
}

impl FetchChain {
    /// No more redirects were followed than are allowed.
    pub open spec fn wf(self) -> bool {
        self.redirects <= self.max_redirects
    }

    /// Begin with a URL.
    pub fn begin(url: &str, limits: &MediaFetchLimits) -> (chain: Self)
        ensures
            chain.wf(),
            chain.current@ == url@,
            chain.redirects == 0,
            chain.max_redirects == limits.max_redirects,
    {
        FetchChain { current: owned(url), redirects: 0, max_redirects: limits.max_redirects }
    }

    /// The next URL, validated anew: a redirect cannot lead to another scheme or off the list of
    /// permitted hosts.
    pub fn next_hop(&self, limits: &MediaFetchLimits) -> (hop: Result<UriParts, MediaFetchError>)
        ensures
            !holds_char(trimmed(self.current@), ':') ==> (hop matches Err(MediaFetchError::InvalidUrl { reason })
                && reason@ == "no scheme"@),
            holds_char(trimmed(self.current@), ':') && raw_scheme(self.current@) != "http"@ && raw_scheme(self.current@)
                != "https"@ ==> (hop matches Err(MediaFetchError::UnsupportedScheme { scheme }) && scheme@
                == raw_scheme(self.current@)),
            holds_char(trimmed(self.current@), ':') && (raw_scheme(self.current@) == "http"@ || raw_scheme(self.current@)
                == "https"@) ==> judged_as(hop, parsed_uri(trimmed(self.current@)), *limits),
    {
        validate_media_url(self.current.as_str(), limits)
    }

    /// Follow a redirect, unless it leads nowhere or too many were followed.
    pub fn redirected(&mut self, from: &UriParts, location: &str) -> (result: Result<(), MediaFetchError>)
        requires
            old(self).wf(),
        ensures
            final(self).wf(),
            final(self).max_redirects == old(self).max_redirects,
            match redirect_target(from@, location@) {
                None => (result matches Err(MediaFetchError::BadRedirect { from: source }) && source@ == from@.text)
                    && *final(self) == *old(self),
                Some(next) => if old(self).redirects == old(self).max_redirects {
                    result == Result::<(), MediaFetchError>::Err(
                        MediaFetchError::TooManyRedirects { limit: old(self).max_redirects },
                    ) && *final(self) == *old(self)
                } else {
                    result is Ok && final(self).current@ == next && final(self).redirects == old(self).redirects + 1
                },
            },
    {
        match resolve_location(from, location) {
            Err(error) => Err(error),
            Ok(next) => {
                if self.redirects >= self.max_redirects {
                    return Err(MediaFetchError::TooManyRedirects { limit: self.max_redirects });
                }
                self.current = next;
                self.redirects = self.redirects + 1;
                Ok(())
            },
        }
    }
}

/// A fetch never dials a host that is not permitted, whatever a URL or a redirect says.
pub proof fn law_only_permitted_hosts(
    judged: Result<UriParts, MediaFetchError>,
    parsed: Result<UriView, Seq<char>>,
    limits: MediaFetchLimits,
)
    requires
        judged_as(judged, parsed, limits),
        judged is Ok,
    ensures
        judged->Ok_0@.host is Some,
        limits.permits(judged->Ok_0@.host->Some_0),
{
}

/// A permitted host is one of the list, whole: a name that only contains or extends a listed one, and
/// so has another length, is not permitted by it.
pub proof fn law_no_partial_host_match(listed: Seq<char>, host: Seq<char>)
    requires
        listed.len() != host.len(),
    ensures
        !same_ignoring_case(listed, host),
{
    if same_ignoring_case(listed, host) {
        assert(ascii_lowered(listed).len() == ascii_lowered(host).len());
    }
}

/// A host is permitted where there is no list, or where a name on it has the same letters one by one, but for
/// small and capital ones.
pub proof fn law_hosts_are_matched_letter_by_letter(limits: MediaFetchLimits, host: Seq<char>)
    ensures
        limits.permits(host) <==> limits.allow_hosts@.len() == 0 || exists|k: int|
            {
                let listed = (#[trigger] limits.allow_hosts@[k])@;
                &&& 0 <= k < limits.allow_hosts@.len()
                &&& listed.len() == host.len()
                &&& forall|i: int|
                    0 <= i < host.len() ==> #[trigger] listed[i] == host[i] || ('A' <= listed[i] <= 'Z' && host[i] as int
                        == listed[i] as int + 32) || ('A' <= host[i] <= 'Z' && listed[i] as int == host[i] as int + 32)
            },
{
    if limits.permits(host) && limits.allow_hosts@.len() > 0 {
        let k = choose|i: int|
            0 <= i < limits.allow_hosts@.len() && same_ignoring_case((#[trigger] limits.allow_hosts@[i])@, host);
        let listed = limits.allow_hosts@[k]@;
        assert(ascii_lowered(listed).len() == ascii_lowered(host).len());
        assert forall|i: int| 0 <= i < host.len() implies #[trigger] listed[i] == host[i] || ('A' <= listed[i] <= 'Z'
            && host[i] as int == listed[i] as int + 32) || ('A' <= host[i] <= 'Z' && listed[i] as int == host[i] as int
            + 32) by {
            assert(ascii_lowered(listed)[i] == ascii_lowered(host)[i]);
        }
    }
    if exists|k: int|
        {
            let listed = (#[trigger] limits.allow_hosts@[k])@;
            &&& 0 <= k < limits.allow_hosts@.len()
            &&& listed.len() == host.len()
            &&& forall|i: int|
                0 <= i < host.len() ==> #[trigger] listed[i] == host[i] || ('A' <= listed[i] <= 'Z' && host[i] as int
                    == listed[i] as int + 32) || ('A' <= host[i] <= 'Z' && listed[i] as int == host[i] as int + 32)
        } {
        let k = choose|k: int|
            {
                let listed = (#[trigger] limits.allow_hosts@[k])@;
                &&& 0 <= k < limits.allow_hosts@.len()
                &&& listed.len() == host.len()
                &&& forall|i: int|
                    0 <= i < host.len() ==> #[trigger] listed[i] == host[i] || ('A' <= listed[i] <= 'Z' && host[i] as int
                        == listed[i] as int + 32) || ('A' <= host[i] <= 'Z' && listed[i] as int == host[i] as int + 32)
            };
        let listed = limits.allow_hosts@[k]@;
        assert forall|i: int| 0 <= i < host.len() implies ascii_lowered(listed)[i] == ascii_lowered(host)[i] by {
            assert(listed[i] == listed[i]);
        }
        assert(ascii_lowered(listed) =~= ascii_lowered(host));
        assert(same_ignoring_case(limits.allow_hosts@[k]@, host));
    }
}

/// A redirect that names a path stays on the server it came from, under its scheme, or plain HTTP where that is
/// not known; one that names a whole URL leads there and nowhere else; any other is refused.
pub proof fn law_where_redirects_lead(from: UriView, location: Seq<char>)
    ensures
        ({
            let named = trimmed(location);
            let scheme = match from.scheme {
                Some(name) => name,
                None => seq!['h', 't', 't', 'p'],
            };
            &&& named.len() == 0 ==> redirect_target(from, location) is None
            &&& named.len() > 0 && named[0] == '/' ==> match from.authority {
                Some(authority) => redirect_target(from, location) == Some(
                    scheme + seq![':', '/', '/'] + authority + named,
                ),
                None => redirect_target(from, location) is None,
            }
            &&& named.len() > 0 && named[0] != '/' ==> {
                &&& redirect_target(from, location) matches Some(target) ==> target == named
                &&& redirect_target(from, location) is Some <==> exists|i: int|
                    {
                        &&& 0 < i && i + 2 < named.len()
                        &&& #[trigger] named[i] == ':' && named[i + 1] == '/' && named[i + 2] == '/'
                        &&& forall|j: int|
                            0 <= j < i ==> {
                                let c = #[trigger] named[j];
                                ('a' <= c <= 'z') || ('A' <= c <= 'Z') || ('0' <= c <= '9') || c == '+' || c == '-'
                                    || c == '.'
                            }
                    }
            }
        }),
{
    reveal_strlit("http");
    reveal_strlit("://");
    reveal_strlit("/");
    let named = trimmed(location);
    assert("http"@ =~= seq!['h', 't', 't', 'p']);
    if named.len() > 0 && named[0] == '/' {
        if let Some(authority) = from.authority {
            let scheme = match from.scheme {
                Some(name) => name,
                None => seq!['h', 't', 't', 'p'],
            };
            assert(scheme + "://"@ + authority + "/"@ + named.skip(1) =~= scheme + seq![':', '/', '/'] + authority
                + named);
        }
    }
    if named.len() > 0 && named[0] != '/' {
        if absolute(named) {
            let i = choose|i: int| scheme_ends_at(named, i);
            assert(named[i] == ':');
        }
        if exists|i: int|
            {
                &&& 0 < i && i + 2 < named.len()
                &&& #[trigger] named[i] == ':' && named[i + 1] == '/' && named[i + 2] == '/'
                &&& forall|j: int| 0 <= j < i ==> scheme_char(#[trigger] named[j])
            } {
            let i = choose|i: int|
                {
                    &&& 0 < i && i + 2 < named.len()
                    &&& #[trigger] named[i] == ':' && named[i + 1] == '/' && named[i + 2] == '/'
                    &&& forall|j: int| 0 <= j < i ==> scheme_char(#[trigger] named[j])
                };
            assert(scheme_ends_at(named, i));
        }
    }
}

/// A request goes to the host of its URL, with TLS exactly for `https`; to the port the URL names, and then the
/// host header names it too, or else to the one that the scheme is known by; and asks for the whole path.
pub proof fn law_requests_follow_their_url(request: HopRequest, uri: UriView)
    requires
        uri.host is Some,
        asks_for(request, uri),
    ensures
        request.host@ == uri.host->Some_0,
        request.secure <==> uri.scheme == Some(seq!['h', 't', 't', 'p', 's']),
        uri.port matches Some(port) ==> request.port == port && request.host_header@ == uri.host->Some_0.push(':')
            + decimal(port as nat),
        uri.port is None ==> request.host_header@ == uri.host->Some_0,
        uri.port is None && request.secure ==> request.port == 443,
        uri.port is None && !request.secure ==> request.port == 80,
        uri.path_and_query matches Some(path) ==> request.target@ == path,
        uri.path_and_query is None ==> request.target@ == seq!['/'],
{
    reveal_strlit("https");
    reveal_strlit(":");
    reveal_strlit("/");
    assert("https"@ =~= seq!['h', 't', 't', 'p', 's']);
    assert("/"@ =~= seq!['/']);
    if let Some(port) = uri.port {
        assert(uri.host->Some_0 + ":"@ + decimal(port as nat) =~= uri.host->Some_0.push(':') + decimal(port as nat));
    }
}

/// A body is read exactly of a response that succeeded and does not declare more than the bound; a redirect is
/// followed exactly where it says where to; and every other status is the error it is.
pub proof fn law_which_responses_are_read(
    verdict: Result<ResponseVerdict, MediaFetchError>,
    status: u16,
    location: Option<String>,
    declared: Option<usize>,
    from: UriView,
    limit: usize,
)
    requires
        head_judged(verdict, status, location, declared, from, limit),
    ensures
        verdict matches Ok(ResponseVerdict::ReadBody) <==> status / 100 == 2 && (declared matches Some(length) ==> length
            <= limit),
        verdict matches Ok(ResponseVerdict::Redirect { .. }) <==> status / 100 == 3 && location is Some,
        verdict matches Ok(ResponseVerdict::Redirect { location: followed }) ==> location == Some(followed),
        verdict matches Err(MediaFetchError::BodyTooLarge { .. }) <==> status / 100 == 2 && (declared matches Some(
            length,
        ) && length > limit),
        verdict matches Err(MediaFetchError::Status { .. }) <==> status / 100 != 2 && status / 100 != 3,
        verdict matches Err(MediaFetchError::Status { status: told }) ==> told == status,
        verdict matches Err(MediaFetchError::BodyTooLarge { limit: told }) ==> told == limit,
        verdict matches Err(MediaFetchError::BadRedirect { .. }) <==> status / 100 == 3 && location is None,
{
}

/// The scheme that a URL is judged by is what stands before its first colon, in small letters.
pub proof fn law_scheme_comes_before_the_colon(url: Seq<char>, i: int)
    requires
        0 <= i < trimmed(url).len(),
        trimmed(url)[i] == ':',
        forall|j: int| 0 <= j < i ==> (#[trigger] trimmed(url)[j]) != ':',
    ensures
        raw_scheme(url) == ascii_lowered(trimmed(url).take(i)),
        raw_scheme(url).len() == i,
{
    crate::text::law_up_to_stops_at_the_character(trimmed(url), ':');
    let size = up_to(trimmed(url), ':').len() as int;
    if size < i {
        assert(trimmed(url)[size] != ':');
    } else if size > i {
        assert(trimmed(url)[i] != ':');
    }
    assert(up_to(trimmed(url), ':') =~= trimmed(url).take(i));
}

} // verus!
