//! Operational counters, the health and metrics pages, and the control-plane rate limiter.
use crate::text::{
    after_spaces, after_word, before_char, chars_of, decimal, decimal_text, first_word, law_up_to_stops_at_the_character,
    law_word_ends_at_white_space, owned, skip_spaces, spells, up_to, white_space, word_at,
};
use vstd::prelude::*;
use vstd::utf8::encode_utf8;

verus! {

/// The most bytes a client may send before the end of its request line.
pub const MAX_REQUEST_BYTES: usize = 8192;

/// The content type of the metrics page.
pub open spec fn metrics_content_type() -> Seq<char> {
    "text/plain; version=0.0.4"@
}

/// Operational counters. They wrap around at the end of their range.
#[derive(Debug)]
pub struct Metrics {
    offers_total: u64,
    answers_total: u64,
    deletes_total: u64,
    control_errors_total: u64,
    control_rate_limited_total: u64,
}

/// The values of the counters.
pub struct MetricsView {
    pub offers_total: u64,
    pub answers_total: u64,
    pub deletes_total: u64,
    pub control_errors_total: u64,
    pub control_rate_limited_total: u64,
}

impl View for Metrics {
    type V = MetricsView;

    closed spec fn view(&self) -> MetricsView {
        MetricsView {
            offers_total: self.offers_total,
            answers_total: self.answers_total,
            deletes_total: self.deletes_total,
            control_errors_total: self.control_errors_total,
            control_rate_limited_total: self.control_rate_limited_total,
        }
    }
}

/// One series of the metrics page: its description, its kind, and its value.
pub open spec fn series(name: Seq<char>, help: Seq<char>, kind: Seq<char>, value: u64) -> Seq<char> {
    "# HELP "@ + name + seq![' '] + help + seq!['\n'] + "# TYPE "@ + name + seq![' '] + kind + seq!['\n'] + name
        + seq![' '] + decimal(value as nat) + seq!['\n']
}

/// The metrics page.
pub open spec fn metrics_page(counters: MetricsView, sessions: u64, jemalloc_allocated_bytes: u64) -> Seq<char> {
    series("siphon_rtp_sessions"@, "Live calls in the session registry."@, "gauge"@, sessions) + series(
        "siphon_rtp_offers_total"@,
        "Control offer commands accepted."@,
        "counter"@,
        counters.offers_total,
    ) + series(
        "siphon_rtp_answers_total"@,
        "Control answer commands accepted."@,
        "counter"@,
        counters.answers_total,
    ) + series(
        "siphon_rtp_deletes_total"@,
        "Control delete commands accepted."@,
        "counter"@,
        counters.deletes_total,
    ) + series(
        "siphon_rtp_control_errors_total"@,
        "Control commands that returned an error result."@,
        "counter"@,
        counters.control_errors_total,
    ) + series(
        "siphon_rtp_control_rate_limited_total"@,
        "Control commands rejected by the per-connection rate limiter."@,
        "counter"@,
        counters.control_rate_limited_total,
    ) + series(
        "siphon_rtp_jemalloc_allocated_bytes"@,
        "Live bytes allocated, per jemalloc stats.allocated."@,
        "gauge"@,
        jemalloc_allocated_bytes,
    )
}

impl Default for Metrics {
    fn default() -> (metrics: Self)
        ensures
            metrics@ == (MetricsView {
                offers_total: 0,
                answers_total: 0,
                deletes_total: 0,
                control_errors_total: 0,
                control_rate_limited_total: 0,
            }),
    {
        Metrics::new()
    }
}

impl Metrics {
    /// Counters at zero.
    pub fn new() -> (metrics: Self)
        ensures
            metrics@ == (MetricsView {
                offers_total: 0,
                answers_total: 0,
                deletes_total: 0,
                control_errors_total: 0,
                control_rate_limited_total: 0,
            }),
    {
        Metrics {
            offers_total: 0,
            answers_total: 0,
            deletes_total: 0,
            control_errors_total: 0,
            control_rate_limited_total: 0,
        }
    }

    /// Count an accepted offer.
    pub fn record_offer(&mut self)
        ensures
            final(self)@ == (MetricsView { offers_total: old(self)@.offers_total.wrapping_add(1), ..old(self)@ }),
    {
        self.offers_total = self.offers_total.wrapping_add(1);
    }

    /// Count an accepted answer.
    pub fn record_answer(&mut self)
        ensures
            final(self)@ == (MetricsView { answers_total: old(self)@.answers_total.wrapping_add(1), ..old(self)@ }),
    {
        self.answers_total = self.answers_total.wrapping_add(1);
    }

    /// Count an accepted delete.
    pub fn record_delete(&mut self)
        ensures
            final(self)@ == (MetricsView { deletes_total: old(self)@.deletes_total.wrapping_add(1), ..old(self)@ }),
    {
        self.deletes_total = self.deletes_total.wrapping_add(1);
    }

    /// Count a command that failed.
    pub fn record_control_error(&mut self)
        ensures
            final(self)@ == (MetricsView {
                control_errors_total: old(self)@.control_errors_total.wrapping_add(1),
                ..old(self)@
            }),
    {
        self.control_errors_total = self.control_errors_total.wrapping_add(1);
    }

    /// Count a command the rate limiter refused.
    pub fn record_rate_limited(&mut self)
        ensures
            final(self)@ == (MetricsView {
                control_rate_limited_total: old(self)@.control_rate_limited_total.wrapping_add(1),
                ..old(self)@
            }),
    {
        self.control_rate_limited_total = self.control_rate_limited_total.wrapping_add(1);
    }

    /// The metrics page: the counters, the live calls, and the live heap.
    pub fn render(&self, sessions: u64, jemalloc_allocated_bytes: u64) -> (page: String)
        ensures
            page@ == metrics_page(self@, sessions, jemalloc_allocated_bytes),
    {
        let mut page = String::new();
        metric(&mut page, "siphon_rtp_sessions", "Live calls in the session registry.", "gauge", sessions);
        proof {
            let first = series("siphon_rtp_sessions"@, "Live calls in the session registry."@, "gauge"@, sessions);
            assert(page@ =~= first);
        }
        metric(
            &mut page,
            "siphon_rtp_offers_total",
            "Control offer commands accepted.",
            "counter",
            self.offers_total,
        );
        metric(
            &mut page,
            "siphon_rtp_answers_total",
            "Control answer commands accepted.",
            "counter",
            self.answers_total,
        );
        metric(
            &mut page,
            "siphon_rtp_deletes_total",
            "Control delete commands accepted.",
            "counter",
            self.deletes_total,
        );
        metric(
            &mut page,
            "siphon_rtp_control_errors_total",
            "Control commands that returned an error result.",
            "counter",
            self.control_errors_total,
        );
        metric(
            &mut page,
            "siphon_rtp_control_rate_limited_total",
            "Control commands rejected by the per-connection rate limiter.",
            "counter",
            self.control_rate_limited_total,
        );
        metric(
            &mut page,
            "siphon_rtp_jemalloc_allocated_bytes",
            "Live bytes allocated, per jemalloc stats.allocated.",
            "gauge",
            jemalloc_allocated_bytes,
        );
        page
    }
}

/// Append one series to a page.
pub fn metric(output: &mut String, name: &str, help: &str, kind: &str, value: u64)
    ensures
        final(output)@ == old(output)@ + series(name@, help@, kind@, value),
{
    let ghost before = output@;
    output.push_str("# HELP ");
    output.push_str(name);
    output.push(' ');
    output.push_str(help);
    output.push('\n');
    output.push_str("# TYPE ");
    output.push_str(name);
    output.push(' ');
    output.push_str(kind);
    output.push('\n');
    output.push_str(name);
    output.push(' ');
    output.push_str(decimal_text(value).as_str());
    output.push('\n');
    proof {
        assert(output@ =~= before + series(name@, help@, kind@, value));
    }
}

/// What an HTTP request asks for.
#[derive(Clone, Copy, Debug, PartialEq, Eq, Structural)]
pub enum Route {
    /// The metrics page.
    Metrics,
    /// The liveness page.
    Healthz,
    /// The readiness page.
    Readyz,
    /// Anything else.
    NotFound,
}

/// The method of a request line: its first word.
pub open spec fn request_method(line: Seq<char>) -> Seq<char> {
    first_word(after_spaces(line))
}

/// The path of a request line: its second word, up to a query.
pub open spec fn request_path(line: Seq<char>) -> Seq<char> {
    up_to(first_word(after_spaces(after_word(after_spaces(line)))), '?')
}

/// What a request line asks for. Only `GET` is answered.
pub open spec fn route_of(line: Seq<char>) -> Route {
    if request_method(line) != "GET"@ {
        Route::NotFound
    } else if request_path(line) == "/metrics"@ {
        Route::Metrics
    } else if request_path(line) == "/healthz"@ {
        Route::Healthz
    } else if request_path(line) == "/readyz"@ {
        Route::Readyz
    } else {
        Route::NotFound
    }
}

/// What a request line asks for, whatever it holds.
pub fn route_request_line(request_line: &str) -> (route: Route)
    ensures
        route == route_of(request_line@),
{
    let chars = chars_of(request_line);
    proof {
        assert(chars@.skip(0) =~= chars@);
    }
    let start: usize = skip_spaces(&chars, 0);
    let method = word_at(&chars, start);
    if !spells(&method, "GET") {
        return Route::NotFound;
    }
    let total: usize = chars.len();
    let after: usize = start + method.len();
    proof {
        assert(chars@.skip(start as int).skip(method@.len() as int) =~= chars@.skip(after as int));
    }
    let second: usize = skip_spaces(&chars, after);
    let target = word_at(&chars, second);
    let path = before_char(&target, '?');
    if spells(&path, "/metrics") {
        Route::Metrics
    } else if spells(&path, "/healthz") {
        Route::Healthz
    } else if spells(&path, "/readyz") {
        Route::Readyz
    } else {
        Route::NotFound
    }
}

/// An HTTP response that closes the connection.
pub open spec fn response_text(status_line: Seq<char>, content_type: Seq<char>, body: Seq<char>) -> Seq<char> {
    "HTTP/1.1 "@ + status_line + "\r\nContent-Type: "@ + content_type + "\r\nContent-Length: "@ + decimal(
        encode_utf8(body).len(),
    ) + "\r\nConnection: close\r\n\r\n"@ + body
}

/// A complete HTTP response. The content length is that of the body in bytes.
pub fn http_response(status_line: &str, content_type: &str, body: &str) -> (response: String)
    ensures
        response@ == response_text(status_line@, content_type@, body@),
{
    let mut response = owned("HTTP/1.1 ");
    response.push_str(status_line);
    response.push_str("\r\nContent-Type: ");
    response.push_str(content_type);
    response.push_str("\r\nContent-Length: ");
    response.push_str(decimal_text(body.as_bytes().len() as u64).as_str());
    response.push_str("\r\nConnection: close\r\n\r\n");
    response.push_str(body);
    response
}

/// Whether a request line ends at a position.
pub open spec fn line_ends_at(buffer: Seq<u8>, position: int) -> bool {
    0 <= position && position + 1 < buffer.len() && buffer[position] == 13 && buffer[position + 1] == 10
}

/// How far a request has come.
#[derive(Clone, Copy, Debug, PartialEq, Eq, Structural)]
pub enum RequestProgress {
    /// The request line is complete: it has this many bytes.
    Line { length: usize },
    /// Too much was sent without a request line.
    TooLong,
    /// More must be read.
    More,
}

/// How far a request has come, out of what was received so far.
pub fn request_progress(buffer: &[u8]) -> (progress: RequestProgress)
    ensures
        match progress {
            RequestProgress::Line { length } => line_ends_at(buffer@, length as int) && forall|i: int|
                0 <= i < length ==> !line_ends_at(buffer@, i),
            RequestProgress::TooLong => (forall|i: int| !line_ends_at(buffer@, i)) && buffer@.len()
                >= MAX_REQUEST_BYTES,
            RequestProgress::More => (forall|i: int| !line_ends_at(buffer@, i)) && buffer@.len() < MAX_REQUEST_BYTES,
        },
{
    let mut i: usize = 0;
    while i < buffer.len() && i + 1 < buffer.len()
        invariant
            i <= buffer@.len(),
            forall|j: int| 0 <= j < i ==> !line_ends_at(buffer@, j),
        decreases buffer@.len() - i,
    {
        if buffer[i] == 13 && buffer[i + 1] == 10 {
            return RequestProgress::Line { length: i };
        }
        i = i + 1;
    }
    if buffer.len() >= MAX_REQUEST_BYTES {
        RequestProgress::TooLong
    } else {
        RequestProgress::More
    }
}

/// The response to a request.
pub fn respond(metrics: &Metrics, route: Route, sessions: u64, jemalloc_allocated_bytes: u64) -> (response: String)
    ensures
        route is NotFound ==> response@ == response_text("404 Not Found"@, "text/plain"@, "not found\n"@),
        route is Healthz || route is Readyz ==> response@ == response_text("200 OK"@, "text/plain"@, "ok\n"@),
        route is Metrics ==> response@ == response_text(
            "200 OK"@,
            metrics_content_type(),
            metrics_page(metrics@, sessions, jemalloc_allocated_bytes),
        ),
{
    match route {
        Route::Metrics => {
            let page = metrics.render(sessions, jemalloc_allocated_bytes);
            http_response("200 OK", "text/plain; version=0.0.4", page.as_str())
        },
        Route::Healthz => http_response("200 OK", "text/plain", "ok\n"),
        Route::Readyz => http_response("200 OK", "text/plain", "ok\n"),
        Route::NotFound => http_response("404 Not Found", "text/plain", "not found\n"),
    }
}

/// A token bucket. It holds up to `capacity` tokens and gets `capacity` of them back each second. A
/// capacity of zero means no limit.
#[derive(Debug)]
pub struct RateLimiter {
    capacity: u64,
    tokens: u64,
}

/// The state of a [`RateLimiter`].
pub struct RateLimiterView {
    pub capacity: u64,
    pub tokens: u64,
}

impl View for RateLimiter {
    type V = RateLimiterView;

    closed spec fn view(&self) -> RateLimiterView {
        RateLimiterView { capacity: self.capacity, tokens: self.tokens }
    }
}

impl RateLimiterView {
    /// The bucket never overflows.
    pub open spec fn wf(self) -> bool {
        self.tokens <= self.capacity
    }

    /// Whether a request is admitted.
    pub open spec fn admits(self) -> bool {
        self.capacity == 0 || self.tokens > 0
    }

    /// The bucket after a request.
    pub open spec fn after_request(self) -> RateLimiterView {
        if self.capacity != 0 && self.tokens > 0 {
            RateLimiterView { tokens: (self.tokens - 1) as u64, ..self }
        } else {
            self
        }
    }

    /// The bucket after a number of seconds.
    pub open spec fn refilled(self, elapsed_seconds: u64) -> RateLimiterView {
        RateLimiterView {
            tokens: vstd::math::min(self.tokens + self.capacity * elapsed_seconds, self.capacity as int) as u64,
            ..self
        }
    }

    /// The bucket after a number of requests in a row.
    pub open spec fn after_requests(self, count: nat) -> RateLimiterView
        decreases count,
    {
        if count == 0 {
            self
        } else {
            self.after_requests((count - 1) as nat).after_request()
        }
    }
}

impl RateLimiter {
    /// The bucket never overflows.
    pub open spec fn wf(&self) -> bool {
        self@.wf()
    }

    /// A full bucket.
    pub fn new(capacity: u64) -> (limiter: Self)
        ensures
            limiter.wf(),
            limiter@ == (RateLimiterView { capacity, tokens: capacity }),
    {
        RateLimiter { capacity, tokens: capacity }
    }

    /// Whether there is no limit.
    pub fn is_unlimited(&self) -> (unlimited: bool)
        ensures
            unlimited == (self@.capacity == 0),
    {
        self.capacity == 0
    }

    /// Spend a token. Returns whether the request is admitted.
    pub fn try_acquire(&mut self) -> (admitted: bool)
        ensures
            old(self).wf() ==> final(self).wf(),
            admitted == old(self)@.admits(),
            final(self)@ == old(self)@.after_request(),
    {
        if self.is_unlimited() {
            return true;
        }
        if self.tokens == 0 {
            return false;
        }
        self.tokens = self.tokens - 1;
        true
    }

    /// Refill the bucket for a number of seconds.
    pub fn refill(&mut self, elapsed_seconds: u64)
        requires
            old(self).wf(),
        ensures
            final(self).wf(),
            final(self)@ == old(self)@.refilled(elapsed_seconds),
    {
        if self.is_unlimited() {
            proof {
                assert(self@.capacity * elapsed_seconds == 0) by (nonlinear_arith)
                    requires
                        self@.capacity == 0,
                ;
            }
            return;
        }
        proof {
            assert(self.capacity * elapsed_seconds >= 0) by (nonlinear_arith);
        }
        match self.capacity.checked_mul(elapsed_seconds) {
            None => {
                self.tokens = self.capacity;
            },
            Some(added) => {
                let filled: u64 = self.tokens.saturating_add(added);
                self.tokens = if filled < self.capacity {
                    filled
                } else {
                    self.capacity
                };
            },
        }
    }
}

/// A full bucket admits exactly `capacity` requests in a row, and then none.
pub proof fn law_burst_is_capped(capacity: u64, count: nat)
    requires
        capacity > 0,
    ensures
        ({
            let bucket = RateLimiterView { capacity, tokens: capacity }.after_requests(count);
            &&& bucket.admits() == (count < capacity)
            &&& bucket.tokens == (if count < capacity {
                capacity - count
            } else {
                0
            })
            &&& bucket.capacity == capacity
        }),
    decreases count,
{
    if count > 0 {
        law_burst_is_capped(capacity, (count - 1) as nat);
    }
}

/// Without a limit every request is admitted.
pub proof fn law_no_limit_admits_all(tokens: u64, count: nat)
    ensures
        (RateLimiterView { capacity: 0, tokens }).after_requests(count).admits(),
    decreases count,
{
    if count > 0 {
        law_no_limit_admits_all(tokens, (count - 1) as nat);
        assert((RateLimiterView { capacity: 0, tokens }).after_requests(count).capacity == 0) by {
            lemma_capacity_kept(RateLimiterView { capacity: 0, tokens }, count);
        }
    }
}

/// Requests never change the capacity.
proof fn lemma_capacity_kept(bucket: RateLimiterView, count: nat)
    ensures
        bucket.after_requests(count).capacity == bucket.capacity,
    decreases count,
{
    if count > 0 {
        lemma_capacity_kept(bucket, (count - 1) as nat);
    }
}

/// A second or more of refill fills the bucket, and never more than that.
pub proof fn law_refill_is_capped(bucket: RateLimiterView, elapsed_seconds: u64)
    requires
        bucket.wf(),
    ensures
        bucket.refilled(elapsed_seconds).wf(),
        elapsed_seconds >= 1 ==> bucket.refilled(elapsed_seconds).tokens == bucket.capacity,
        elapsed_seconds == 0 ==> bucket.refilled(elapsed_seconds) == bucket,
{
    assert(elapsed_seconds >= 1 ==> bucket.capacity * elapsed_seconds >= bucket.capacity) by (nonlinear_arith);
    assert(elapsed_seconds == 0 ==> bucket.capacity * elapsed_seconds == 0) by (nonlinear_arith);
    assert(bucket.capacity * elapsed_seconds >= 0) by (nonlinear_arith);
}

/// No time refills nothing, and two refills are one of their sum.
pub proof fn law_refills_add_up(bucket: RateLimiterView, first: u64, second: u64)
    requires
        bucket.wf(),
        first + second <= u64::MAX,
    ensures
        bucket.refilled(0) == bucket,
        bucket.refilled(first).refilled(second) == bucket.refilled((first + second) as u64),
        bucket.refilled(first).capacity == bucket.capacity,
        first >= 1 ==> bucket.refilled(first).tokens == bucket.capacity,
{
    let capacity = bucket.capacity as int;
    assert(capacity * 0 == 0);
    assert(0 <= capacity * first && 0 <= capacity * second && capacity * (first + second) == capacity * first + capacity
        * second) by (nonlinear_arith)
        requires
            0 <= capacity,
            0 <= first,
            0 <= second,
    ;
    if first >= 1 {
        assert(capacity * first >= capacity) by (nonlinear_arith)
            requires
                capacity >= 0,
                first >= 1,
        ;
    }
}

/// A request that is admitted spends one token where there is a limit, and one that is refused spends none.
pub proof fn law_admission_spends_one_token(bucket: RateLimiterView)
    ensures
        bucket.admits() <==> bucket.capacity == 0 || bucket.tokens >= 1,
        bucket.capacity > 0 && bucket.admits() ==> bucket.after_request().tokens == bucket.tokens - 1,
        !bucket.admits() || bucket.capacity == 0 ==> bucket.after_request() == bucket,
        bucket.after_request().capacity == bucket.capacity,
{
}

/// Only the three pages are served, each under its own path and only to `GET`; a query does not matter.
pub proof fn law_pages_have_their_paths(line: Seq<char>)
    ensures
        ({
            let get = request_method(line) == "GET"@;
            let path = request_path(line);
            &&& route_of(line) is Metrics <==> get && path == "/metrics"@
            &&& route_of(line) is Healthz <==> get && path == "/healthz"@ && path != "/metrics"@
            &&& route_of(line) is Readyz <==> get && path == "/readyz"@ && path != "/metrics"@ && path != "/healthz"@
        }),
{
}

/// A request line is read word by word: the method is what comes before the first white space, and the path what
/// comes after it, up to the next or to a query.
pub proof fn law_request_line_is_read_by_words(method: Seq<char>, path: Seq<char>, rest: Seq<char>)
    requires
        method.len() > 0,
        path.len() > 0,
        forall|i: int| 0 <= i < method.len() ==> !white_space(#[trigger] method[i]),
        forall|i: int| 0 <= i < path.len() ==> !white_space(#[trigger] path[i]) && path[i] != '?',
        rest.len() > 0 ==> rest[0] == '?' || white_space(rest[0]),
    ensures
        request_method(method + seq![' '] + path + rest) == method,
        request_path(method + seq![' '] + path + rest) == path,
{
    let line = method + seq![' '] + path + rest;
    assert(!white_space(method[0]));
    assert(line[0] == method[0]);
    assert(after_spaces(line) == line);
    lemma_word_is(line, method.len() as int);
    assert(line.take(method.len() as int) =~= method);
    let after = after_word(line);
    assert(after =~= seq![' '] + path + rest);
    assert(after.skip(1) =~= path + rest);
    assert(!white_space(path[0]));
    assert((path + rest)[0] == path[0]);
    assert(after_spaces(path + rest) == path + rest);
    assert(after_spaces(after) == path + rest) by {
        assert(white_space(after[0]));
    }
    law_word_ends_at_white_space(path + rest);
    let word = first_word(path + rest);
    assert(word.len() >= path.len()) by {
        if word.len() < path.len() {
            assert((path + rest)[word.len() as int] == path[word.len() as int]);
        }
    }
    law_up_to_stops_at_the_character(word, '?');
    let cut = up_to(word, '?');
    assert(cut.len() >= path.len()) by {
        if cut.len() < path.len() {
            assert(word[cut.len() as int] == path[cut.len() as int]);
        }
    }
    assert(cut.len() <= path.len()) by {
        if cut.len() > path.len() {
            assert(word[path.len() as int] == rest[0]);
            assert((path + rest)[path.len() as int] == rest[0]);
        }
    }
    assert(cut =~= path);
}

/// A text whose first `size` characters are no white space, and whose next is, has those as its first word.
proof fn lemma_word_is(text: Seq<char>, size: int)
    requires
        0 <= size < text.len(),
        forall|i: int| 0 <= i < size ==> !white_space(#[trigger] text[i]),
        white_space(text[size]),
    ensures
        first_word(text) == text.take(size),
{
    law_word_ends_at_white_space(text);
    let word = first_word(text);
    if word.len() < size {
        assert(!white_space(text[word.len() as int]));
    } else if word.len() > size {
        assert(!white_space(text[size]));
    }
}

/// Whether a page has a line with a name and a number, after other lines.
pub open spec fn shows(page: Seq<char>, name: Seq<char>, value: u64) -> bool {
    exists|before: Seq<char>, after: Seq<char>| #[trigger] shown_between(page, name, value, before, after)
}

/// Whether a line with a name and a number stands between two parts of a page.
pub open spec fn shown_between(
    page: Seq<char>,
    name: Seq<char>,
    value: u64,
    before: Seq<char>,
    after: Seq<char>,
) -> bool {
    page == before + seq!['\n'] + name + seq![' '] + decimal(value as nat) + seq!['\n'] + after
}

/// A series that stands on a page is shown on it.
proof fn lemma_series_is_shown(
    page: Seq<char>,
    head: Seq<char>,
    tail: Seq<char>,
    name: Seq<char>,
    help: Seq<char>,
    kind: Seq<char>,
    value: u64,
)
    requires
        page == head + series(name, help, kind, value) + tail,
    ensures
        shows(page, name, value),
{
    let before = head + "# HELP "@ + name + seq![' '] + help + seq!['\n'] + "# TYPE "@ + name + seq![' '] + kind;
    assert(before + seq!['\n'] + name + seq![' '] + decimal(value as nat) + seq!['\n'] + tail =~= page);
    assert(shown_between(page, name, value, before, tail));
}

/// The page shows each number under its own name.
pub proof fn law_numbers_stand_under_their_names(counters: MetricsView, sessions: u64, allocated: u64)
    ensures
        ({
            let page = metrics_page(counters, sessions, allocated);
            &&& shows(page, "siphon_rtp_sessions"@, sessions)
            &&& shows(page, "siphon_rtp_offers_total"@, counters.offers_total)
            &&& shows(page, "siphon_rtp_answers_total"@, counters.answers_total)
            &&& shows(page, "siphon_rtp_deletes_total"@, counters.deletes_total)
            &&& shows(page, "siphon_rtp_control_errors_total"@, counters.control_errors_total)
            &&& shows(page, "siphon_rtp_control_rate_limited_total"@, counters.control_rate_limited_total)
            &&& shows(page, "siphon_rtp_jemalloc_allocated_bytes"@, allocated)
        }),
{
    let page = metrics_page(counters, sessions, allocated);
    let none = Seq::<char>::empty();
    let s1 = series("siphon_rtp_sessions"@, "Live calls in the session registry."@, "gauge"@, sessions);
    let s2 = series(
        "siphon_rtp_offers_total"@,
        "Control offer commands accepted."@,
        "counter"@,
        counters.offers_total,
    );
    let s3 = series(
        "siphon_rtp_answers_total"@,
        "Control answer commands accepted."@,
        "counter"@,
        counters.answers_total,
    );
    let s4 = series(
        "siphon_rtp_deletes_total"@,
        "Control delete commands accepted."@,
        "counter"@,
        counters.deletes_total,
    );
    let s5 = series(
        "siphon_rtp_control_errors_total"@,
        "Control commands that returned an error result."@,
        "counter"@,
        counters.control_errors_total,
    );
    let s6 = series(
        "siphon_rtp_control_rate_limited_total"@,
        "Control commands rejected by the per-connection rate limiter."@,
        "counter"@,
        counters.control_rate_limited_total,
    );
    let s7 = series(
        "siphon_rtp_jemalloc_allocated_bytes"@,
        "Live bytes allocated, per jemalloc stats.allocated."@,
        "gauge"@,
        allocated,
    );
    assert(page == s1 + s2 + s3 + s4 + s5 + s6 + s7);
    lemma_parts(page, s1, s2, s3, s4, s5, s6, s7);
    lemma_series_is_shown(
        page,
        none,
        s2 + s3 + s4 + s5 + s6 + s7,
        "siphon_rtp_sessions"@,
        "Live calls in the session registry."@,
        "gauge"@,
        sessions,
    );
    lemma_series_is_shown(
        page,
        s1,
        s3 + s4 + s5 + s6 + s7,
        "siphon_rtp_offers_total"@,
        "Control offer commands accepted."@,
        "counter"@,
        counters.offers_total,
    );
    lemma_series_is_shown(
        page,
        s1 + s2,
        s4 + s5 + s6 + s7,
        "siphon_rtp_answers_total"@,
        "Control answer commands accepted."@,
        "counter"@,
        counters.answers_total,
    );
    lemma_series_is_shown(
        page,
        s1 + s2 + s3,
        s5 + s6 + s7,
        "siphon_rtp_deletes_total"@,
        "Control delete commands accepted."@,
        "counter"@,
        counters.deletes_total,
    );
    lemma_series_is_shown(
        page,
        s1 + s2 + s3 + s4,
        s6 + s7,
        "siphon_rtp_control_errors_total"@,
        "Control commands that returned an error result."@,
        "counter"@,
        counters.control_errors_total,
    );
    lemma_series_is_shown(
        page,
        s1 + s2 + s3 + s4 + s5,
        s7,
        "siphon_rtp_control_rate_limited_total"@,
        "Control commands rejected by the per-connection rate limiter."@,
        "counter"@,
        counters.control_rate_limited_total,
    );
    lemma_series_is_shown(
        page,
        s1 + s2 + s3 + s4 + s5 + s6,
        none,
        "siphon_rtp_jemalloc_allocated_bytes"@,
        "Live bytes allocated, per jemalloc stats.allocated."@,
        "gauge"@,
        allocated,
    );
}

/// Seven parts in a row, seen from each of them.
proof fn lemma_parts(
    page: Seq<char>,
    s1: Seq<char>,
    s2: Seq<char>,
    s3: Seq<char>,
    s4: Seq<char>,
    s5: Seq<char>,
    s6: Seq<char>,
    s7: Seq<char>,
)
    requires
        page == s1 + s2 + s3 + s4 + s5 + s6 + s7,
    ensures
        page == Seq::<char>::empty() + s1 + (s2 + s3 + s4 + s5 + s6 + s7),
        page == s1 + s2 + (s3 + s4 + s5 + s6 + s7),
        page == s1 + s2 + s3 + (s4 + s5 + s6 + s7),
        page == s1 + s2 + s3 + s4 + (s5 + s6 + s7),
        page == s1 + s2 + s3 + s4 + s5 + (s6 + s7),
        page == s1 + s2 + s3 + s4 + s5 + s6 + s7,
        page == s1 + s2 + s3 + s4 + s5 + s6 + s7 + Seq::<char>::empty(),
{
    assert(page =~= Seq::<char>::empty() + s1 + (s2 + s3 + s4 + s5 + s6 + s7));
    assert(page =~= s1 + s2 + (s3 + s4 + s5 + s6 + s7));
    assert(page =~= s1 + s2 + s3 + (s4 + s5 + s6 + s7));
    assert(page =~= s1 + s2 + s3 + s4 + (s5 + s6 + s7));
    assert(page =~= s1 + s2 + s3 + s4 + s5 + (s6 + s7));
    assert(page =~= s1 + s2 + s3 + s4 + s5 + s6 + s7 + Seq::<char>::empty());
}

/// Whether a part stands between two others of a text.
pub open spec fn stands_between(text: Seq<char>, part: Seq<char>, before: Seq<char>, after: Seq<char>) -> bool {
    text == before + part + after
}

/// A response ends in its body, after an empty line, and tells beforehand how many bytes that is.
pub proof fn law_response_tells_its_length(status_line: Seq<char>, content_type: Seq<char>, body: Seq<char>)
    ensures
        ({
            let response = response_text(status_line, content_type, body);
            let head = response.len() - body.len();
            let line = "\r\nContent-Length: "@ + decimal(encode_utf8(body).len()) + seq!['\r', '\n'];
            &&& head >= 4
            &&& response.skip(head) == body
            &&& response.subrange(head - 4, head) == seq!['\r', '\n', '\r', '\n']
            &&& exists|before: Seq<char>, after: Seq<char>| #[trigger]
                stands_between(response, line, before, after)
        }),
{
    let response = response_text(status_line, content_type, body);
    let head = response.len() - body.len();
    reveal_strlit("\r\nConnection: close\r\n\r\n");
    reveal_strlit("\r\nContent-Length: ");
    assert(response.skip(head) =~= body);
    assert(response.subrange(head - 4, head) =~= seq!['\r', '\n', '\r', '\n']);
    let before = "HTTP/1.1 "@ + status_line + "\r\nContent-Type: "@ + content_type;
    let after = "\r\nConnection: close\r\n\r\n"@.skip(2) + body;
    assert("\r\nConnection: close\r\n\r\n"@ =~= seq!['\r', '\n'] + "\r\nConnection: close\r\n\r\n"@.skip(2));
    let line = "\r\nContent-Length: "@ + decimal(encode_utf8(body).len()) + seq!['\r', '\n'];
    assert(response =~= before + line + after);
    assert(stands_between(response, line, before, after));
}

/// A request line ends at a carriage return that a line feed follows, and nowhere else.
pub proof fn law_request_line_ends_at_a_line_break(buffer: Seq<u8>, position: int)
    requires
        0 <= position,
        position + 2 <= buffer.len(),
    ensures
        line_ends_at(buffer, position) <==> buffer.subrange(position, position + 2) == seq![13u8, 10u8],
{
    let pair = buffer.subrange(position, position + 2);
    assert(pair[0] == buffer[position] && pair[1] == buffer[position + 1]);
    if line_ends_at(buffer, position) {
        assert(pair =~= seq![13u8, 10u8]);
    }
}

} // verus!
