use request_proxy::forward::{
    complete, plan_request, simplify_outcome, ApiError, ApiRequest, ApiResponse, TransportOutcome,
};
use request_proxy::headers::HeaderMap;
use request_proxy::method::{method_name, parse_method, Method};

fn request(url: &str, method: &str, headers: Option<HeaderMap>, body: Option<&str>) -> ApiRequest {
    ApiRequest {
        url: url.to_string(),
        method: method.to_string(),
        headers,
        body: body.map(|b| b.to_string()),
    }
}

fn assert_hex_id(id: &str) {
    assert_eq!(id.len(), 8);
    assert!(id
        .chars()
        .all(|c| ('0'..='9').contains(&c) || ('a'..='f').contains(&c)));
}

#[test]
fn supported_methods_all_verbs() {
    let cases = [
        ("get", Method::Get),
        ("GET", Method::Get),
        ("GeT", Method::Get),
        ("post", Method::Post),
        ("PoSt", Method::Post),
        ("put", Method::Put),
        ("PUT", Method::Put),
        ("delete", Method::Delete),
        ("DELETE", Method::Delete),
        ("patch", Method::Patch),
        ("Patch", Method::Patch),
        ("head", Method::Head),
        ("HEAD", Method::Head),
        ("options", Method::Options),
        ("OPTIONS", Method::Options),
    ];
    for (name, verb) in cases {
        assert_eq!(parse_method(name), Some(verb), "method {}", name);
    }
    assert_eq!(method_name(Method::Get), "GET");
    assert_eq!(method_name(Method::Post), "POST");
    assert_eq!(method_name(Method::Put), "PUT");
    assert_eq!(method_name(Method::Delete), "DELETE");
    assert_eq!(method_name(Method::Patch), "PATCH");
    assert_eq!(method_name(Method::Head), "HEAD");
    assert_eq!(method_name(Method::Options), "OPTIONS");
}

#[test]
fn unrecognized_methods_rejected() {
    for name in ["TRACE", "CONNECT", "", "GETT", "G E T", "get "] {
        assert_eq!(parse_method(name), None, "method {:?}", name);
    }
}

#[test]
fn unsupported_method_fails_without_a_call() {
    let req = request("https://example.test/ping", "TRACE", None, None);
    match plan_request(&req) {
        Ok(_) => panic!("TRACE must be rejected"),
        Err(e) => {
            assert_eq!(e.message, "Unsupported HTTP method: TRACE");
            assert!(e.message.contains("TRACE"));
            assert_eq!(e.status, None);
        }
    }
}

#[test]
fn plan_marks_the_outbound_call() {
    let mut h = HeaderMap::new();
    h.insert("X-Test".to_string(), "1".to_string());
    let req = request("https://example.test/ping", "get", Some(h), Some("ping"));
    let plan = plan_request(&req).expect("get is supported");
    assert_eq!(plan.method, Method::Get);
    assert_eq!(plan.url, "https://example.test/ping");
    assert_eq!(plan.body.as_deref(), Some("ping"));
    assert_hex_id(&plan.correlation_id);
    assert_eq!(
        plan.headers.get(&"X-Proxy".to_string()),
        Some(&"true".to_string())
    );
    assert_eq!(
        plan.headers.get(&"X-Proxy-Request-ID".to_string()),
        Some(&plan.correlation_id)
    );
    assert_eq!(
        plan.headers.get(&"X-Test".to_string()),
        Some(&"1".to_string())
    );
}

#[test]
fn plan_without_headers_still_identifies_itself() {
    let req = request("https://example.test/", "HEAD", None, None);
    let plan = plan_request(&req).expect("head is supported");
    assert_eq!(plan.method, Method::Head);
    assert_eq!(plan.body, None);
    assert_eq!(
        plan.headers.get(&"X-Proxy".to_string()),
        Some(&"true".to_string())
    );
    assert_eq!(
        plan.headers.get(&"X-Proxy-Request-ID".to_string()),
        Some(&plan.correlation_id)
    );
}

#[test]
fn caller_header_wins_over_identification_header() {
    let mut h = HeaderMap::new();
    h.insert("X-Proxy".to_string(), "caller".to_string());
    let req = request("https://example.test/", "post", Some(h), None);
    let plan = plan_request(&req).expect("post is supported");
    assert_eq!(
        plan.headers.get(&"X-Proxy".to_string()),
        Some(&"caller".to_string())
    );
}

#[test]
fn success_echoes_the_body_and_marks_the_response() {
    let req = request("https://example.test/ping", "get", None, None);
    let plan = plan_request(&req).expect("get is supported");
    let outcome = TransportOutcome::Response {
        status: 200,
        headers: vec![("X-Test".to_string(), Some("1".to_string()))],
        body: Ok("pong".to_string()),
    };
    let resp = complete(outcome, plan.correlation_id.clone(), 7).expect("body was read");
    assert_eq!(resp.status, 200);
    assert_eq!(resp.body, "pong");
    assert_eq!(
        resp.headers.get(&"X-Test".to_string()),
        Some(&"1".to_string())
    );
    assert_eq!(
        resp.headers.get(&"X-Proxied".to_string()),
        Some(&"true".to_string())
    );
    let id = resp
        .headers
        .get(&"X-Proxy-Request-ID".to_string())
        .expect("id header present");
    assert_eq!(id, &plan.correlation_id);
    assert_hex_id(id);
    assert_eq!(
        resp.headers.get(&"X-Proxy-Elapsed-Ms".to_string()),
        Some(&"7".to_string())
    );
}

#[test]
fn round_trip_body_is_not_transcoded() {
    let text = "a\u{00e9}\u{2603} {\"k\": [1, 2]}\n";
    let req = request("https://example.test/echo", "PUT", None, Some(text));
    let plan = plan_request(&req).expect("put is supported");
    assert_eq!(plan.body.as_deref(), Some(text));
    let outcome = TransportOutcome::Response {
        status: 200,
        headers: vec![],
        body: Ok(text.to_string()),
    };
    let resp = complete(outcome, plan.correlation_id, 0).expect("body was read");
    assert_eq!(resp.body, text);
}

#[test]
fn concurrent_style_calls_keep_their_own_ids_and_bodies() {
    let bodies = ["one", "two", "three", "four"];
    let plans: Vec<_> = bodies
        .iter()
        .map(|b| {
            let req = request("https://example.test/echo", "post", None, Some(b));
            plan_request(&req).expect("post is supported")
        })
        .collect();
    for (plan, body) in plans.into_iter().zip(bodies) {
        assert_hex_id(&plan.correlation_id);
        let outcome = TransportOutcome::Response {
            status: 200,
            headers: vec![],
            body: Ok(body.to_string()),
        };
        let resp = complete(outcome, plan.correlation_id.clone(), 1).expect("body was read");
        assert_eq!(resp.body, body);
        assert_eq!(
            resp.headers.get(&"X-Proxy-Request-ID".to_string()),
            Some(&plan.correlation_id)
        );
    }
}

#[test]
fn transport_failure_has_no_status_and_a_message() {
    let outcome = TransportOutcome::Failed {
        detail: "dns error for host example.invalid".to_string(),
    };
    match complete(outcome, "abcdef12".to_string(), 3) {
        Ok(_) => panic!("a transport failure must be an error"),
        Err(e) => {
            assert_eq!(e.status, None);
            assert!(!e.message.is_empty());
            assert_eq!(
                e.message,
                "HTTP request failed: dns error for host example.invalid"
            );
        }
    }
}

#[test]
fn body_read_failure_keeps_the_received_status() {
    let outcome = TransportOutcome::Response {
        status: 502,
        headers: vec![("X-Test".to_string(), Some("1".to_string()))],
        body: Err("unexpected end of stream".to_string()),
    };
    match complete(outcome, "abcdef12".to_string(), 3) {
        Ok(_) => panic!("an unreadable body must be an error"),
        Err(e) => {
            assert_eq!(e.status, Some(502));
            assert_eq!(
                e.message,
                "Failed to read response body: unexpected end of stream"
            );
        }
    }
}

#[test]
fn unreadable_header_values_are_dropped() {
    let outcome = TransportOutcome::Response {
        status: 200,
        headers: vec![
            ("X-Good".to_string(), Some("yes".to_string())),
            ("X-Bad".to_string(), None),
        ],
        body: Ok("".to_string()),
    };
    let resp = complete(outcome, "abcdef12".to_string(), 0).expect("body was read");
    assert_eq!(
        resp.headers.get(&"X-Good".to_string()),
        Some(&"yes".to_string())
    );
    assert_eq!(resp.headers.get(&"X-Bad".to_string()), None);
}

#[test]
fn simplify_keeps_the_body_on_success() {
    let resp = ApiResponse {
        status: 200,
        headers: HeaderMap::new(),
        body: "pong".to_string(),
    };
    assert_eq!(simplify_outcome(Ok(resp)), Ok("pong".to_string()));
}

#[test]
fn simplify_keeps_the_message_and_drops_the_status_on_failure() {
    let err = ApiError {
        message: "Failed to read response body: boom".to_string(),
        status: Some(500),
    };
    assert_eq!(
        simplify_outcome(Err(err)),
        Err("Failed to read response body: boom".to_string())
    );
}
