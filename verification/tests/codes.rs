use cloudpipe::codes::{
    channel_dropped, from_sdk_error, invalid_arg, kind_to_str, other, parse_error_code,
    session_gone, CloudflareApiKind, CloudpipeErrorCode, Status,
};
use cloudpipe::error::{
    classify_error_code, ApiError, CloudflareErrorKind, Error, InstallError,
};

#[test]
fn code_strings_are_stable() {
    assert_eq!(
        CloudpipeErrorCode::MissingCredential.as_str(),
        "MISSING_CREDENTIAL"
    );
    assert_eq!(CloudpipeErrorCode::CloudflareApi.as_str(), "CLOUDFLARE_API");
    assert_eq!(
        CloudpipeErrorCode::CloudflaredBinary.as_str(),
        "CLOUDFLARE_BINARY"
    );
    assert_eq!(
        CloudpipeErrorCode::InvalidSubdomain.as_str(),
        "INVALID_SUBDOMAIN"
    );
    assert_eq!(
        CloudpipeErrorCode::SubdomainInUse.as_str(),
        "SUBDOMAIN_IN_USE"
    );
    assert_eq!(
        CloudpipeErrorCode::AlreadyShutDown.as_str(),
        "ALREADY_SHUT_DOWN"
    );
    assert_eq!(CloudpipeErrorCode::Io.as_str(), "IO");
    assert_eq!(CloudpipeErrorCode::Other.as_str(), "OTHER");
}

#[test]
fn kind_strings_are_stable() {
    assert_eq!(CloudflareApiKind::RateLimited.as_str(), "RATE_LIMITED");
    assert_eq!(CloudflareApiKind::DnsExists.as_str(), "DNS_EXISTS");
    assert_eq!(CloudflareApiKind::AuthFailed.as_str(), "AUTH_FAILED");
    assert_eq!(CloudflareApiKind::InvalidToken.as_str(), "INVALID_TOKEN");
    assert_eq!(CloudflareApiKind::Other.as_str(), "OTHER");
}

#[test]
fn invalid_arg_uses_invalidarg_status() {
    let e = invalid_arg("bad port");
    assert_eq!(e.status, Status::InvalidArg);
    assert_eq!(e.reason, "bad port");
}

#[test]
fn other_wraps_with_other_code_prefix() {
    let e = other("boom");
    assert_eq!(e.status, Status::GenericFailure);
    assert!(e.reason.starts_with("[OTHER] "));
    assert!(e.reason.ends_with("boom"));
}

#[test]
fn parses_simple_code() {
    assert_eq!(
        parse_error_code("[MISSING_CREDENTIAL] need a token"),
        Some("MISSING_CREDENTIAL".to_string())
    );
}

#[test]
fn parses_compound_kind() {
    assert_eq!(
        parse_error_code("[CLOUDFLARE_API:RATE_LIMITED] too many"),
        Some("CLOUDFLARE_API:RATE_LIMITED".to_string())
    );
}

#[test]
fn returns_null_on_plain_message() {
    assert_eq!(parse_error_code("no prefix here"), None);
}

#[test]
fn returns_null_on_malformed_prefix() {
    assert_eq!(parse_error_code("[not closed here"), None);
}

#[test]
fn unknown_code_passes_through() {
    assert_eq!(
        parse_error_code("[FUTURE_CODE] blah"),
        Some("FUTURE_CODE".to_string())
    );
    assert_eq!(
        parse_error_code("[FUTURE_CODE:NEXT_KIND] blah"),
        Some("FUTURE_CODE:NEXT_KIND".to_string())
    );
}

#[test]
fn known_parent_with_unknown_subkind_passes_through() {
    assert_eq!(
        parse_error_code("[CLOUDFLARE_API:RATE_LIMITED_EXTENDED] blah"),
        Some("CLOUDFLARE_API:RATE_LIMITED_EXTENDED".to_string())
    );
}

#[test]
fn odd_prefixes() {
    assert_eq!(parse_error_code(""), None);
    assert_eq!(parse_error_code("[]"), Some(String::new()));
    assert_eq!(parse_error_code("[A]B]"), Some("A".to_string()));
    assert_eq!(parse_error_code(" [A]"), None);
}

#[test]
fn classification_covers_known_codes() {
    assert_eq!(classify_error_code(10429), CloudflareErrorKind::RateLimited);
    assert_eq!(classify_error_code(81053), CloudflareErrorKind::DnsExists);
    assert_eq!(classify_error_code(10001), CloudflareErrorKind::AuthFailed);
    assert_eq!(classify_error_code(9109), CloudflareErrorKind::AuthFailed);
    assert_eq!(classify_error_code(1038), CloudflareErrorKind::InvalidToken);
    assert_eq!(
        classify_error_code(1234),
        CloudflareErrorKind::Other(1234)
    );
}

#[test]
fn kind_code_is_stable() {
    assert_eq!(CloudflareErrorKind::RateLimited.code(), Some(10429));
    assert_eq!(CloudflareErrorKind::DnsExists.code(), Some(81053));
    assert_eq!(CloudflareErrorKind::Other(42).code(), Some(42));
    assert_eq!(CloudflareErrorKind::AuthFailed.code(), None);
}

fn samples() -> Vec<(Error, &'static str, &'static str)> {
    vec![
        (
            Error::MissingCredential("Cloudflare API token"),
            "MISSING_CREDENTIAL",
            "missing credential: Cloudflare API token",
        ),
        (
            Error::Cloudflare(ApiError::Http("down".to_string())),
            "CLOUDFLARE_API",
            "cloudflare api error: http transport: down",
        ),
        (
            Error::Cloudflare(ApiError::NonJson {
                status: 502,
                body: "gateway".to_string(),
            }),
            "CLOUDFLARE_API",
            "cloudflare api error: non-JSON response (HTTP 502): gateway",
        ),
        (
            Error::Cloudflare(ApiError::Api {
                code: Some(10429),
                message: "slow down".to_string(),
                kind: CloudflareErrorKind::RateLimited,
            }),
            "CLOUDFLARE_API:RATE_LIMITED",
            "cloudflare api error: api error: slow down",
        ),
        (
            Error::Cloudflared(InstallError::MissingBinary),
            "CLOUDFLARE_BINARY",
            "cloudflared binary: archive did not contain the cloudflared binary",
        ),
        (
            Error::Cloudflared(InstallError::Download("no route".to_string())),
            "CLOUDFLARE_BINARY",
            "cloudflared binary: download failed: no route",
        ),
        (
            Error::Cloudflared(InstallError::Spawn("denied".to_string())),
            "CLOUDFLARE_BINARY",
            "cloudflared binary: spawn failed: denied",
        ),
        (
            Error::Cloudflared(InstallError::UnsupportedPlatform {
                platform: "plan9".to_string(),
                arch: "mips".to_string(),
            }),
            "CLOUDFLARE_BINARY",
            "cloudflared binary: unsupported platform plan9/mips",
        ),
        (
            Error::InvalidSubdomain("\"x\": short".to_string()),
            "INVALID_SUBDOMAIN",
            "invalid subdomain: \"x\": short",
        ),
        (
            Error::SubdomainInUse("myapp".to_string()),
            "SUBDOMAIN_IN_USE",
            "subdomain already in use: myapp",
        ),
        (
            Error::AlreadyShutDown,
            "ALREADY_SHUT_DOWN",
            "tunnel already shut down",
        ),
        (
            Error::Io("disk full".to_string()),
            "IO",
            "io error: disk full",
        ),
        (
            Error::Join("panic".to_string()),
            "OTHER",
            "background task panicked: panic",
        ),
        (Error::Other("boom".to_string()), "OTHER", "boom"),
    ]
}

#[test]
fn every_error_carries_its_code() {
    for (error, code, message) in samples() {
        let fixed = from_sdk_error(&error);
        assert_eq!(fixed.status, Status::GenericFailure);
        assert_eq!(fixed.reason, format!("[{code}] {message}"));
        assert_eq!(parse_error_code(&fixed.reason), Some(code.to_string()));
        assert_eq!(error.message(), message);
        assert_eq!(error.clone(), error);
    }
}

#[test]
fn kinds_have_their_sub_kinds() {
    assert_eq!(kind_to_str(CloudflareErrorKind::RateLimited), "RATE_LIMITED");
    assert_eq!(kind_to_str(CloudflareErrorKind::DnsExists), "DNS_EXISTS");
    assert_eq!(kind_to_str(CloudflareErrorKind::AuthFailed), "AUTH_FAILED");
    assert_eq!(kind_to_str(CloudflareErrorKind::InvalidToken), "INVALID_TOKEN");
    assert_eq!(kind_to_str(CloudflareErrorKind::Other(7)), "OTHER");
}

#[test]
fn lost_sessions_are_other_errors() {
    assert_eq!(
        channel_dropped().reason,
        "[OTHER] session task dropped the reply channel"
    );
    assert_eq!(session_gone().reason, "[OTHER] session task is gone");
}
