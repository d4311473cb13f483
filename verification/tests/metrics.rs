//! Metrics rendering, request routing and the control rate limit.
use siphon_rtp_engine::metrics::{
    http_response, metric, request_progress, respond, route_request_line, Metrics, RateLimiter, RequestProgress, Route,
    MAX_REQUEST_BYTES,
};

#[test]
fn renders_all_series_with_help_and_type() {
    let mut metrics = Metrics::new();
    metrics.record_offer();
    metrics.record_offer();
    metrics.record_answer();
    metrics.record_delete();
    metrics.record_control_error();
    metrics.record_rate_limited();
    let body = metrics.render(3, 4096);
    assert!(body.contains("# TYPE siphon_rtp_sessions gauge\nsiphon_rtp_sessions 3\n"));
    assert!(body.contains("# TYPE siphon_rtp_offers_total counter\nsiphon_rtp_offers_total 2\n"));
    assert!(body.contains("siphon_rtp_answers_total 1\n"));
    assert!(body.contains("siphon_rtp_deletes_total 1\n"));
    assert!(body.contains("siphon_rtp_control_errors_total 1\n"));
    assert!(body.contains("siphon_rtp_control_rate_limited_total 1\n"));
    assert!(body.contains(
        "# TYPE siphon_rtp_jemalloc_allocated_bytes gauge\nsiphon_rtp_jemalloc_allocated_bytes 4096\n"
    ));
    assert_eq!(body.matches("# HELP ").count(), 7);
    assert_eq!(body.matches("# TYPE ").count(), 7);
}

#[test]
fn fresh_metrics_render_zeroes() {
    let body = Metrics::new().render(0, 0);
    assert!(body.contains("siphon_rtp_offers_total 0\n"));
    assert!(body.contains("siphon_rtp_sessions 0\n"));
}

#[test]
fn routes_known_paths() {
    assert_eq!(route_request_line("GET /metrics HTTP/1.1"), Route::Metrics);
    assert_eq!(route_request_line("GET /healthz HTTP/1.1"), Route::Healthz);
    assert_eq!(route_request_line("GET /readyz HTTP/1.1"), Route::Readyz);
}

#[test]
fn routes_path_with_query_string() {
    assert_eq!(route_request_line("GET /metrics?foo=bar HTTP/1.0"), Route::Metrics);
}

#[test]
fn unknown_path_is_not_found() {
    assert_eq!(route_request_line("GET /nope HTTP/1.1"), Route::NotFound);
    assert_eq!(route_request_line("GET / HTTP/1.1"), Route::NotFound);
}

#[test]
fn non_get_method_is_not_found() {
    assert_eq!(route_request_line("POST /metrics HTTP/1.1"), Route::NotFound);
    assert_eq!(route_request_line("DELETE /healthz HTTP/1.1"), Route::NotFound);
}

#[test]
fn malformed_request_line_does_not_panic() {
    assert_eq!(route_request_line(""), Route::NotFound);
    assert_eq!(route_request_line("GET"), Route::NotFound);
    assert_eq!(route_request_line("\0\0\0 \t  "), Route::NotFound);
    assert_eq!(route_request_line("🤖 not http"), Route::NotFound);
}

#[test]
fn any_white_space_separates_the_words_of_a_request_line() {
    assert_eq!(route_request_line("\tGET  \u{2003}/readyz\u{a0}HTTP/1.1"), Route::Readyz);
    assert_eq!(route_request_line("GET /healthz"), Route::Healthz);
    assert_eq!(route_request_line("get /healthz"), Route::NotFound);
}

#[test]
fn rate_limiter_allows_under_cap() {
    let mut limiter = RateLimiter::new(3);
    assert!(limiter.try_acquire());
    assert!(limiter.try_acquire());
    assert!(limiter.try_acquire());
}

#[test]
fn rate_limiter_rejects_over_cap() {
    let mut limiter = RateLimiter::new(2);
    assert!(limiter.try_acquire());
    assert!(limiter.try_acquire());
    assert!(!limiter.try_acquire(), "third request over a cap of 2 is rejected");
    assert!(!limiter.try_acquire());
}

#[test]
fn rate_limiter_refills() {
    let mut limiter = RateLimiter::new(2);
    assert!(limiter.try_acquire());
    assert!(limiter.try_acquire());
    assert!(!limiter.try_acquire());
    limiter.refill(1);
    assert!(limiter.try_acquire());
    assert!(limiter.try_acquire());
    assert!(!limiter.try_acquire());
}

#[test]
fn rate_limiter_refill_caps_at_capacity() {
    let mut limiter = RateLimiter::new(2);
    limiter.refill(100);
    assert!(limiter.try_acquire());
    assert!(limiter.try_acquire());
    assert!(!limiter.try_acquire());
}

#[test]
fn rate_limiter_zero_capacity_is_unlimited() {
    let mut limiter = RateLimiter::new(0);
    assert!(limiter.is_unlimited());
    for _ in 0..1000 {
        assert!(limiter.try_acquire());
    }
}

#[test]
fn a_refill_saturates() {
    let mut limiter = RateLimiter::new(u64::MAX);
    assert!(limiter.try_acquire());
    limiter.refill(u64::MAX);
    limiter.refill(0);
    assert!(limiter.try_acquire());
}

#[test]
fn http_response_has_content_length() {
    let response = http_response("200 OK", "text/plain", "ok\n");
    assert!(response.starts_with("HTTP/1.1 200 OK\r\n"));
    assert!(response.contains("Content-Length: 3\r\n"));
    assert!(response.contains("Connection: close\r\n"));
    assert!(response.ends_with("\r\n\r\nok\n"));
}

#[test]
fn the_content_length_counts_bytes() {
    assert!(http_response("200 OK", "text/plain", "µ").contains("Content-Length: 2\r\n"));
}

#[test]
fn a_series_is_three_lines() {
    let mut page = "# before\n".to_string();
    metric(&mut page, "x_total", "Counts x.", "counter", 18_446_744_073_709_551_615);
    assert_eq!(
        page,
        "# before\n# HELP x_total Counts x.\n# TYPE x_total counter\nx_total 18446744073709551615\n"
    );
}

#[test]
fn every_route_has_its_response() {
    let metrics = Metrics::new();
    let ok = "HTTP/1.1 200 OK\r\nContent-Type: text/plain\r\nContent-Length: 3\r\nConnection: close\r\n\r\nok\n";
    assert_eq!(respond(&metrics, Route::Healthz, 1, 2), ok);
    assert_eq!(respond(&metrics, Route::Readyz, 1, 2), ok);
    assert_eq!(
        respond(&metrics, Route::NotFound, 1, 2),
        "HTTP/1.1 404 Not Found\r\nContent-Type: text/plain\r\nContent-Length: 10\r\nConnection: close\r\n\r\nnot found\n"
    );
    let page = respond(&metrics, Route::Metrics, 1, 2);
    assert!(page.contains("Content-Type: text/plain; version=0.0.4\r\n"));
    assert!(page.ends_with(&metrics.render(1, 2)));
}

#[test]
fn a_request_is_read_up_to_its_first_line() {
    assert_eq!(request_progress(b"GET /metrics HT"), RequestProgress::More);
    assert_eq!(request_progress(b"GET / HTTP/1.1\r\nHost: x\r\n"), RequestProgress::Line { length: 14 });
    assert_eq!(request_progress(&vec![b'a'; MAX_REQUEST_BYTES]), RequestProgress::TooLong);
}
