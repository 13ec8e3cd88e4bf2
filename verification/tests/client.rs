use cloudpipe::client::{
    decode, decode_under, decode_value, find_zone, friendly, friendly_error,
    http_failure, pick_record, Answer,
    ApiRequest, CfError, CfResponse, CloudflareApi, DnsRecord, IngressEntry, Method, TokenStatus,
    Tunnel, Zone, ZoneAccount, CF_API_BASE,
};
use cloudpipe::error::{ApiError, CloudflareErrorKind, Error};
use serde_json::Value;

/// Reads an envelope the way a client does: not at all when it is no JSON.
fn envelope<T>(text: &str, read: fn(&Value) -> Option<T>) -> Option<CfResponse<T>> {
    let value: Value = serde_json::from_str(text).ok()?;
    let success = value.get("success")?.as_bool()?;
    let errors = value.get("errors").and_then(|e| e.as_array()).map(|list| {
        list.iter()
            .map(|e| CfError {
                code: e.get("code").and_then(|c| c.as_u64()),
                message: e["message"].as_str().unwrap_or("").to_string(),
            })
            .collect()
    });
    Some(CfResponse {
        success,
        result: value.get("result").and_then(read),
        errors,
    })
}

fn token_status(value: &Value) -> Option<TokenStatus> {
    Some(TokenStatus {
        id: value.get("id")?.as_str()?.to_string(),
        status: value.get("status")?.as_str()?.to_string(),
    })
}

fn no_zones(value: &Value) -> Option<Vec<Zone>> {
    value.as_array().map(|_| Vec::new())
}

fn api() -> CloudflareApi {
    CloudflareApi::with_base("test-token", "http://base")
}

fn body(request: &ApiRequest) -> Value {
    serde_json::from_str(request.body.as_ref().unwrap()).unwrap()
}

#[test]
fn client_get_request_parses_success_envelope() {
    let request = api().verify_token();
    assert_eq!(request.method, Method::Get);
    assert_eq!(request.token, "test-token");
    assert!(request.url.contains("/user/tokens/verify"));
    let text = r#"{"success":true,"result":{"id":"tok","status":"active"}}"#;
    let token = decode(200, text, envelope(text, token_status)).unwrap();
    assert_eq!(token.status, "active");
}

#[test]
fn cloudflare_get_request_parses_success_envelope() {
    let request = api().verify_token();
    assert_eq!(request.method, Method::Get);
    assert_eq!(request.token, "test-token", "missing auth");
    assert!(request.url.contains("/user/tokens/verify"), "bad path");
    let text = r#"{"success":true,"result":{"id":"tok","status":"active"}}"#;
    let token = decode_value(200, text, envelope(text, token_status)).unwrap();
    assert_eq!(token.status, "active");
}

const RATE_LIMITED: &str =
    r#"{"success":false,"result":null,"errors":[{"code":10429,"message":"Rate limited."}]}"#;

#[test]
fn api_error_becomes_classified() {
    match decode(400, RATE_LIMITED, envelope(RATE_LIMITED, no_zones)).unwrap_err() {
        ApiError::Api { kind, .. } => {
            assert_eq!(kind, CloudflareErrorKind::RateLimited);
        }
        other => panic!("wrong error: {other:?}"),
    }
}

#[test]
fn api_error_becomes_friendly_message() {
    let err = decode_value(400, RATE_LIMITED, envelope(RATE_LIMITED, no_zones)).unwrap_err();
    assert!(err.contains("rate limit"), "got: {err}");
}

#[test]
fn client_non_json_response_is_rejected() {
    let text = "gateway error";
    match decode(502, text, envelope(text, no_zones)).unwrap_err() {
        ApiError::NonJson { status, body } => {
            assert_eq!(status, 502);
            assert!(body.contains("gateway"));
        }
        other => panic!("wrong error: {other:?}"),
    }
}

#[test]
fn cloudflare_non_json_response_is_rejected() {
    let text = "gateway error";
    let err = decode_value(502, text, envelope(text, no_zones)).unwrap_err();
    assert_eq!(err, "non-JSON response (HTTP 502 Bad Gateway): gateway error");
}

#[test]
fn long_bodies_are_cut() {
    let text = "x".repeat(600);
    match decode::<Vec<Zone>>(500, &text, None).unwrap_err() {
        ApiError::NonJson { status, body } => {
            assert_eq!(status, 500);
            assert_eq!(body, format!("{}…", "x".repeat(512)));
        }
        other => panic!("wrong error: {other:?}"),
    }
}

#[test]
fn failures_without_errors_name_the_status() {
    let text = format!(r#"{{"success":false,"note":"{}"}}"#, "y".repeat(300));
    let failed = decode(503, &text, envelope(&text, no_zones)).unwrap_err();
    assert_eq!(
        failed,
        ApiError::Api {
            code: None,
            message: format!("HTTP 503 Service Unavailable: {}…", &text[..256]),
            kind: CloudflareErrorKind::Other(0),
        }
    );
    let failed = decode_value(503, &text, envelope(&text, no_zones)).unwrap_err();
    assert_eq!(failed, format!("HTTP 503 Service Unavailable: {text}"));
    let empty: Option<CfResponse<Vec<Zone>>> = Some(CfResponse {
        success: false,
        result: None,
        errors: Some(Vec::new()),
    });
    match decode(799, "", empty).unwrap_err() {
        ApiError::Api { message, .. } => {
            assert_eq!(message, "HTTP 799 <unknown status code>")
        }
        other => panic!("wrong error: {other:?}"),
    }
}

#[test]
fn status_lines_are_put_in_front() {
    assert_eq!(http_failure("418 I'm a teapot", ""), "HTTP 418 I'm a teapot");
    assert_eq!(http_failure("500 X", "body"), "HTTP 500 X: body");
    let none: Option<CfResponse<u8>> = None;
    assert_eq!(
        decode_under(500, "500 X", "body", none),
        Err("non-JSON response (HTTP 500 X): body".to_string())
    );
    let good = Some(CfResponse {
        success: true,
        result: Some(7u8),
        errors: None,
    });
    assert_eq!(decode_under(204, "204 X", "", good), Ok(7));
}

#[test]
fn a_failed_envelope_under_a_good_status_is_refused() {
    let text = r#"{"success":false,"errors":[{"message":"nope"}]}"#;
    assert_eq!(
        decode(200, text, envelope(text, no_zones)).unwrap_err(),
        ApiError::Api {
            code: None,
            message: "nope".to_string(),
            kind: CloudflareErrorKind::Other(0),
        }
    );
    assert_eq!(
        decode_value(200, text, envelope(text, no_zones)).unwrap_err(),
        "Cloudflare API error: nope"
    );
}

#[test]
fn a_success_without_a_value_is_the_default() {
    let text = r#"{"success":true,"result":null}"#;
    assert_eq!(
        decode(200, text, envelope(text, token_status)).unwrap(),
        TokenStatus::default()
    );
    assert_eq!(
        decode_value(200, text, envelope(text, token_status)).unwrap_err(),
        "API response missing 'result' field"
    );
    assert_eq!(Zone::default().account, ZoneAccount::default());
    assert_eq!(Tunnel::default().token, None);
    assert_eq!(DnsRecord::default().id, "");
}

#[test]
fn friendly_error_rate_limit() {
    let msg = friendly_error(Some(10429), "Rate limited.");
    assert!(msg.contains("rate limit"), "got: {msg}");
}

#[test]
fn friendly_error_auth() {
    let msg = friendly_error(Some(10001), "Unable to authenticate request");
    assert!(msg.contains("authentication failed"), "got: {msg}");
    let msg = friendly_error(Some(9109), "bad token");
    assert!(msg.contains("authentication failed"), "got: {msg}");
}

#[test]
fn friendly_error_unknown_code() {
    let msg = friendly_error(Some(1234), "boom");
    assert!(msg.contains("[1234]"), "got: {msg}");
    let msg = friendly_error(None, "boom");
    assert!(msg.contains("boom"), "got: {msg}");
}

#[test]
fn friendly_errors_word_for_word() {
    assert_eq!(
        friendly_error(Some(10429), "m"),
        "Cloudflare API rate limit hit (m). Wait a minute or two and retry — the quota resets automatically."
    );
    assert_eq!(friendly_error(Some(81053), "m"), "DNS record already exists (m).");
    assert_eq!(
        friendly_error(Some(10000), "m"),
        "Cloudflare authentication failed (m). Check that the token is valid and has the required permissions (see README for the exact permissions needed)."
    );
    assert_eq!(friendly_error(Some(1038), "m"), "Invalid API token (m).");
    assert_eq!(friendly_error(Some(7), "m"), "Cloudflare API error [7]: m");
    assert_eq!(friendly_error(None, "m"), "Cloudflare API error: m");
}

#[test]
fn errors_are_shown_in_the_words_of_their_reader() {
    let bare: fn() -> Option<CfResponse<Vec<Zone>>> = || {
        Some(CfResponse {
            success: false,
            result: None,
            errors: None,
        })
    };
    assert_eq!(
        decode_value(503, "busy", bare()).unwrap_err(),
        "HTTP 503 Service Unavailable: busy"
    );
    let typed = Error::Cloudflare(decode(503, "busy", bare()).unwrap_err());
    assert_eq!(
        typed.message(),
        "cloudflare api error: api error: HTTP 503 Service Unavailable: busy"
    );
    assert_eq!(
        Error::Cloudflare(friendly(Some(1038), "m")).message(),
        "cloudflare api error: api error: m"
    );
}

#[test]
fn requests_go_where_they_should() {
    let api = api();
    let cases: Vec<(ApiRequest, Method, &str, Answer)> = vec![
        (api.verify_token(), Method::Get, "/user/tokens/verify", Answer::TokenStatus),
        (api.list_zones(), Method::Get, "/zones?per_page=50", Answer::Zones),
        (
            api.find_tunnel_by_name("acc", "n"),
            Method::Get,
            "/accounts/acc/tunnels?name=n&is_deleted=false",
            Answer::Tunnels,
        ),
        (
            api.list_tunnels("acc", "down"),
            Method::Get,
            "/accounts/acc/tunnels?is_deleted=false&status=down",
            Answer::Tunnels,
        ),
        (
            api.cleanup_connections("acc", "t"),
            Method::Delete,
            "/accounts/acc/tunnels/t/connections",
            Answer::Nothing,
        ),
        (
            api.delete_tunnel("acc", "t"),
            Method::Delete,
            "/accounts/acc/tunnels/t",
            Answer::Nothing,
        ),
        (
            api.tunnel_exists("acc", "t"),
            Method::Get,
            "/accounts/acc/tunnels/t",
            Answer::Tunnel,
        ),
        (
            api.find_dns_record("z", "a.b.c"),
            Method::Get,
            "/zones/z/dns_records?name=a.b.c",
            Answer::Records,
        ),
        (
            api.delete_dns_record("z", "r"),
            Method::Delete,
            "/zones/z/dns_records/r",
            Answer::Nothing,
        ),
        (
            api.list_dns_records("z", "CNAME"),
            Method::Get,
            "/zones/z/dns_records?type=CNAME&per_page=100",
            Answer::Records,
        ),
    ];
    for (request, method, path, answer) in cases {
        assert_eq!(request.method, method);
        assert_eq!(request.url, format!("http://base{path}"));
        assert_eq!(request.token, "test-token");
        assert_eq!(request.body, None);
        assert_eq!(request.answer, answer);
    }
    assert_eq!(CloudflareApi::new("t").base, CF_API_BASE);
    assert_eq!(CF_API_BASE, "https://api.cloudflare.com/client/v4");
}

#[test]
fn bodies_are_json() {
    let request = api().create_tunnel("acc", "my\"app");
    assert_eq!(request.method, Method::Post);
    assert_eq!(request.url, "http://base/accounts/acc/tunnels");
    assert_eq!(
        request.body.as_deref(),
        Some(r#"{"config_src":"cloudflare","name":"my\"app"}"#)
    );

    let request = api().create_dns_record("z", "a.b", "t.cfargotunnel.com");
    assert_eq!(request.method, Method::Post);
    assert_eq!(request.url, "http://base/zones/z/dns_records");
    let sent = body(&request);
    assert_eq!(sent["type"], "CNAME");
    assert_eq!(sent["name"], "a.b");
    assert_eq!(sent["content"], "t.cfargotunnel.com");
    assert_eq!(sent["proxied"], true);
    assert_eq!(sent["ttl"], 1);

    let ingress = vec![
        IngressEntry {
            hostname: Some("a.b".to_string()),
            service: "http://localhost:1".to_string(),
        },
        IngressEntry {
            hostname: None,
            service: "http_status:404".to_string(),
        },
    ];
    let request = api().set_tunnel_ingress("acc", "t", &ingress);
    assert_eq!(request.method, Method::Put);
    assert_eq!(
        request.url,
        "http://base/accounts/acc/cfd_tunnel/t/configurations"
    );
    assert_eq!(
        request.body.as_deref(),
        Some(
            r#"{"config":{"ingress":[{"hostname":"a.b","service":"http://localhost:1"},{"service":"http_status:404"}]}}"#
        )
    );
}

fn zone(name: &str) -> Zone {
    Zone {
        id: format!("id-{name}"),
        name: name.to_string(),
        account: ZoneAccount {
            id: "acc".to_string(),
        },
    }
}

#[test]
fn names_are_matched_exactly() {
    let zones = vec![zone("a.com"), zone("b.com")];
    assert_eq!(find_zone(&zones, "b.com"), Some(zone("b.com")));
    assert_eq!(find_zone(&zones, "B.com"), None);
    let record = |id: &str, name: &str| DnsRecord {
        id: id.to_string(),
        name: name.to_string(),
        content: String::new(),
    };
    let records = vec![record("1", "x.a.com"), record("2", "a.com"), record("3", "a.com")];
    assert_eq!(pick_record(&records, "a.com"), Some(record("2", "a.com")));
    assert_eq!(pick_record(&records, "com"), None);
}
