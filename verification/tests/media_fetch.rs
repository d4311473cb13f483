//! Bounded media fetches.
use siphon_rtp_engine::media_fetch::{
    check_scheme, hop_request, judge_response, judge_uri, resolve_location, validate_media_url, BodyBuffer,
    FetchChain, MediaFetchError, MediaFetchLimits, ResponseVerdict, UriParts, DEFAULT_CONNECT_TIMEOUT_MS,
    DEFAULT_FIRST_BYTE_TIMEOUT_MS, DEFAULT_MAX_BODY_BYTES, DEFAULT_MAX_REDIRECTS, DEFAULT_TOTAL_TIMEOUT_MS,
};

fn limits() -> MediaFetchLimits {
    MediaFetchLimits {
        connect_timeout_ms: 300,
        first_byte_timeout_ms: 300,
        total_timeout_ms: 1_500,
        max_body_bytes: 4_096,
        max_redirects: 2,
        allow_hosts: Vec::new(),
    }
}

fn uri(url: &str) -> UriParts {
    validate_media_url(url, &limits()).expect("valid url")
}

#[test]
fn only_http_and_https_are_accepted() {
    for url in [
        "file:///etc/passwd",
        "ftp://example.invalid/p.wav",
        "gopher://example.invalid/p.wav",
        "ws://example.invalid/p.wav",
    ] {
        match validate_media_url(url, &limits()) {
            Err(MediaFetchError::UnsupportedScheme { .. }) => {}
            other => panic!("{url} must be rejected as an unsupported scheme, got {other:?}"),
        }
    }
    assert!(validate_media_url("http://example.invalid/p.wav", &limits()).is_ok());
    assert!(validate_media_url("https://example.invalid/p.wav", &limits()).is_ok());
    assert!(validate_media_url("HTTPS://example.invalid/p.wav", &limits()).is_ok());
}

#[test]
fn a_url_without_a_host_or_scheme_is_rejected() {
    for url in ["/just/a/path.wav", "not a url at all", "http://"] {
        assert!(validate_media_url(url, &limits()).is_err(), "{url} must be rejected");
    }
}

#[test]
fn the_allow_list_is_an_exact_case_insensitive_host_match() {
    let mut restricted = limits();
    restricted.allow_hosts = vec!["prompts.example".to_string()];
    assert!(validate_media_url("http://prompts.example/p.wav", &restricted).is_ok());
    assert!(validate_media_url("http://PROMPTS.EXAMPLE/p.wav", &restricted).is_ok());
    for url in [
        "http://prompts.example.invalid/p.wav",
        "http://evil.invalid/p.wav",
        "http://notprompts.example/p.wav",
    ] {
        match validate_media_url(url, &restricted) {
            Err(MediaFetchError::HostNotAllowed { .. }) => {}
            other => panic!("{url} must be refused by the allow-list, got {other:?}"),
        }
    }
    assert!(limits().permits_host("anything.invalid"));
}

#[test]
fn a_location_header_resolves_absolute_and_origin_relative_forms() {
    let from = uri("http://host.invalid:8080/a/b.wav");
    assert_eq!(
        resolve_location(&from, "https://other.invalid/c.wav").expect("absolute"),
        "https://other.invalid/c.wav"
    );
    assert_eq!(resolve_location(&from, "/c.wav").expect("origin-relative"), "http://host.invalid:8080/c.wav");
    assert!(resolve_location(&from, "").is_err());
    assert!(resolve_location(&from, "   ").is_err());
    assert!(resolve_location(&from, "c.wav").is_err());
    assert_eq!(
        resolve_location(&from, "/c.wav?next=http://x.invalid/").expect("origin-relative"),
        "http://host.invalid:8080/c.wav?next=http://x.invalid/"
    );
    assert!(resolve_location(&from, "c.wav?next=http://x.invalid/").is_err(), "relative, whatever it holds");
    assert!(resolve_location(&from, "://x.invalid/").is_err());
}

#[test]
fn the_defaults_are_the_documented_bounds() {
    let defaults = MediaFetchLimits::default();
    assert_eq!(defaults.connect_timeout_ms, DEFAULT_CONNECT_TIMEOUT_MS);
    assert_eq!(defaults.first_byte_timeout_ms, DEFAULT_FIRST_BYTE_TIMEOUT_MS);
    assert_eq!(defaults.total_timeout_ms, DEFAULT_TOTAL_TIMEOUT_MS);
    assert_eq!(defaults.max_body_bytes, DEFAULT_MAX_BODY_BYTES);
    assert_eq!(defaults.max_redirects, DEFAULT_MAX_REDIRECTS);
    assert!(defaults.allow_hosts.is_empty());
    assert!(defaults.connect_timeout_ms < defaults.total_timeout_ms);
    assert!(defaults.first_byte_timeout_ms < defaults.total_timeout_ms);
}

#[test]
fn every_error_variant_renders_a_message() {
    for error in [
        MediaFetchError::InvalidUrl { reason: "no scheme".into() },
        MediaFetchError::UnsupportedScheme { scheme: "file".into() },
        MediaFetchError::HostNotAllowed { host: "evil.invalid".into() },
        MediaFetchError::NoAddress { host: "nowhere.invalid".into() },
        MediaFetchError::ConnectTimeout { host: "slow.invalid".into(), timeout_ms: 2_000 },
        MediaFetchError::Connect { host: "gone.invalid".into(), reason: "refused".into() },
        MediaFetchError::Tls { host: "bad.invalid".into(), reason: "bad certificate".into() },
        MediaFetchError::FirstByteTimeout { host: "quiet.invalid".into(), timeout_ms: 5_000 },
        MediaFetchError::DeadlineExceeded { timeout_ms: 15_000 },
        MediaFetchError::Http { reason: "connection reset".into() },
        MediaFetchError::Status { status: 404 },
        MediaFetchError::BodyTooLarge { limit: 8_388_608 },
        MediaFetchError::TooManyRedirects { limit: 3 },
        MediaFetchError::BadRedirect { from: "http://host.invalid/".into() },
    ] {
        assert!(!error.message().is_empty());
    }
}

#[test]
fn a_message_names_the_bound() {
    assert_eq!(
        MediaFetchError::TooManyRedirects { limit: 3 }.message(),
        "followed 3 redirects without reaching a body"
    );
    assert!(MediaFetchError::Status { status: 404 }.message().contains("404"));
}

#[test]
fn the_parts_of_a_url_are_read() {
    let parts = uri("  http://user@Host.invalid:8080/a/b.wav?x=1  ");
    assert_eq!(parts.scheme.as_deref(), Some("http"));
    assert_eq!(parts.host.as_deref(), Some("Host.invalid"));
    assert_eq!(parts.authority.as_deref(), Some("user@Host.invalid:8080"));
    assert_eq!(parts.port, Some(8080));
    assert_eq!(parts.path_and_query.as_deref(), Some("/a/b.wav?x=1"));
    assert_eq!(parts.text, "http://user@Host.invalid:8080/a/b.wav?x=1");
}

#[test]
fn the_scheme_is_judged_before_anything_else() {
    assert_eq!(check_scheme(" HTTPS://x ").expect("scheme"), "HTTPS://x");
    assert!(matches!(check_scheme("nowhere"), Err(MediaFetchError::InvalidUrl { reason }) if reason == "no scheme"));
    assert!(matches!(check_scheme("FTP://x"), Err(MediaFetchError::UnsupportedScheme { scheme }) if scheme == "ftp"));
    match judge_uri(Err("bad".to_string()), &limits()) {
        Err(MediaFetchError::InvalidUrl { reason }) => assert_eq!(reason, "bad"),
        other => panic!("an unreadable URL is invalid, got {other:?}"),
    }
}

#[test]
fn a_hop_dials_the_default_port_of_its_scheme() {
    let plain = hop_request(&uri("http://host.invalid/a.wav?b=c")).expect("hop");
    assert_eq!((plain.host.as_str(), plain.port, plain.secure), ("host.invalid", 80, false));
    assert_eq!((plain.host_header.as_str(), plain.target.as_str()), ("host.invalid", "/a.wav?b=c"));
    let secure = hop_request(&uri("https://host.invalid")).expect("hop");
    assert_eq!((secure.port, secure.secure, secure.target.as_str()), (443, true, "/"));
    let given = hop_request(&uri("http://host.invalid:8080/x")).expect("hop");
    assert_eq!((given.port, given.host_header.as_str()), (8080, "host.invalid:8080"));
}

#[test]
fn a_response_is_judged_by_its_status_and_size() {
    let from = uri("http://host.invalid/a");
    let judge = |status: u16, location: Option<&str>, declared: Option<usize>| {
        judge_response(status, location.map(|text| text.to_string()), declared, &from, &limits())
    };
    for status in [301, 302, 303, 307, 308] {
        match judge(status, Some("/b"), None) {
            Ok(ResponseVerdict::Redirect { location }) => assert_eq!(location, "/b"),
            other => panic!("{status} redirects, got {other:?}"),
        }
        assert!(matches!(judge(status, None, None), Err(MediaFetchError::BadRedirect { .. })));
    }
    assert!(matches!(judge(304, None, None), Err(MediaFetchError::BadRedirect { .. })));
    assert!(matches!(judge(404, None, None), Err(MediaFetchError::Status { status: 404 })));
    assert!(matches!(judge(200, None, None), Ok(ResponseVerdict::ReadBody)));
    assert!(matches!(judge(206, None, Some(4_096)), Ok(ResponseVerdict::ReadBody)));
    assert!(matches!(judge(200, None, Some(4_097)), Err(MediaFetchError::BodyTooLarge { limit: 4_096 })));
}

#[test]
fn a_body_stops_at_its_bound() {
    let mut body = BodyBuffer::new(&limits());
    assert!(body.push(&[1; 4_000]).is_ok());
    assert!(body.push(&[2; 96]).is_ok());
    assert!(matches!(body.push(&[3]), Err(MediaFetchError::BodyTooLarge { limit: 4_096 })));
    assert_eq!(body.bytes.len(), 4_096);
    assert_eq!(body.bytes[4_000], 2);
}

#[test]
fn a_fetch_follows_only_so_many_redirects() {
    let mut chain = FetchChain::begin("http://host.invalid/1", &limits());
    for next in ["/2", "/3"] {
        let hop = chain.next_hop(&limits()).expect("hop");
        chain.redirected(&hop, next).expect("within the bound");
    }
    let hop = chain.next_hop(&limits()).expect("hop");
    assert_eq!(hop.text, "http://host.invalid/3");
    assert!(matches!(chain.redirected(&hop, "/4"), Err(MediaFetchError::TooManyRedirects { limit: 2 })));
}

#[test]
fn a_redirect_cannot_leave_the_permitted_hosts() {
    let mut restricted = limits();
    restricted.allow_hosts = vec!["prompts.example".to_string()];
    let mut chain = FetchChain::begin("http://prompts.example/1", &restricted);
    let hop = chain.next_hop(&restricted).expect("hop");
    chain.redirected(&hop, "http://evil.invalid/1").expect("followed");
    assert!(matches!(chain.next_hop(&restricted), Err(MediaFetchError::HostNotAllowed { .. })));
    chain.redirected(&hop, "file:///etc/passwd").expect("followed");
    assert!(matches!(chain.next_hop(&restricted), Err(MediaFetchError::UnsupportedScheme { .. })));
}
