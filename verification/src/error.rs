//! The errors the library reports.

use vstd::prelude::*;
use vstd::string::*;

use crate::text;

verus! {

/// Top-level error type of every fallible call.
#[derive(Debug, PartialEq, Eq)]
pub enum Error {
    /// A required credential (token, account, zone or domain) was missing.
    MissingCredential(&'static str),
    /// The Cloudflare API returned an error.
    Cloudflare(ApiError),
    /// The `cloudflared` binary could not be installed or spawned.
    Cloudflared(InstallError),
    /// Underlying I/O failure (files, processes), as the system describes it.
    Io(String),
    /// The provided subdomain violates the DNS label rules.
    InvalidSubdomain(String),
    /// A healthy tunnel with the same name already exists.
    SubdomainInUse(String),
    /// The tunnel was asked to stop a second time.
    AlreadyShutDown,
    /// The background session task panicked.
    Join(String),
    /// Anything else.
    Other(String),
}

/// Errors originating from the Cloudflare HTTP API.
#[derive(Debug, PartialEq, Eq)]
pub enum ApiError {
    /// Network or transport failure.
    Http(String),
    /// The server responded with a non-JSON body.
    NonJson {
        /// HTTP status code.
        status: u16,
        /// Response body, shortened to a reasonable size.
        body: String,
    },
    /// The server returned a structured Cloudflare API error.
    Api {
        /// Numeric error code from the Cloudflare envelope, when it has one.
        code: Option<u64>,
        /// Human-readable message from Cloudflare.
        message: String,
        /// What the code means.
        kind: CloudflareErrorKind,
    },
}

/// Semantic classification of a Cloudflare API error.
#[derive(Debug, Clone, Copy, PartialEq, Eq, Structural)]
pub enum CloudflareErrorKind {
    /// Rate limit hit (10429). Retry after a backoff.
    RateLimited,
    /// DNS record already exists (81053). The caller should reconcile.
    DnsExists,
    /// Authentication failed (10001, 10000, 9109). Check the token.
    AuthFailed,
    /// The token itself is invalid (1038).
    InvalidToken,
    /// Any other code.
    Other(u64),
}

/// Errors raised while locating, downloading or spawning `cloudflared`.
#[derive(Debug, PartialEq, Eq)]
pub enum InstallError {
    /// The download from every candidate URL failed; this is the last failure.
    Download(String),
    /// The downloaded archive did not contain the expected binary.
    MissingBinary,
    /// There is no release asset for this platform and architecture.
    UnsupportedPlatform {
        /// Operating system name.
        platform: String,
        /// CPU architecture.
        arch: String,
    },
    /// `cloudflared` could not be spawned.
    Spawn(String),
}

impl Clone for Error {
    fn clone(&self) -> (r: Self)
        ensures
            r == *self,
    {
        match self {
            Error::MissingCredential(what) => Error::MissingCredential(*what),
            Error::Cloudflare(e) => Error::Cloudflare(e.clone()),
            Error::Cloudflared(e) => Error::Cloudflared(e.clone()),
            Error::Io(message) => Error::Io(message.clone()),
            Error::InvalidSubdomain(message) => Error::InvalidSubdomain(message.clone()),
            Error::SubdomainInUse(name) => Error::SubdomainInUse(name.clone()),
            Error::AlreadyShutDown => Error::AlreadyShutDown,
            Error::Join(message) => Error::Join(message.clone()),
            Error::Other(message) => Error::Other(message.clone()),
        }
    }
}

impl Clone for ApiError {
    fn clone(&self) -> (r: Self)
        ensures
            r == *self,
    {
        match self {
            ApiError::Http(message) => ApiError::Http(message.clone()),
            ApiError::NonJson { status, body } => ApiError::NonJson {
                status: *status,
                body: body.clone(),
            },
            ApiError::Api { code, message, kind } => ApiError::Api {
                code: *code,
                message: message.clone(),
                kind: *kind,
            },
        }
    }
}

impl Clone for InstallError {
    fn clone(&self) -> (r: Self)
        ensures
            r == *self,
    {
        match self {
            InstallError::Download(message) => InstallError::Download(message.clone()),
            InstallError::MissingBinary => InstallError::MissingBinary,
            InstallError::UnsupportedPlatform { platform, arch } => {
                InstallError::UnsupportedPlatform { platform: platform.clone(), arch: arch.clone() }
            },
            InstallError::Spawn(message) => InstallError::Spawn(message.clone()),
        }
    }
}

impl CloudflareErrorKind {
    /// The one numeric code of this kind, when there is only one.
    pub open spec fn single_code(self) -> Option<u64> {
        match self {
            CloudflareErrorKind::RateLimited => Some(10429),
            CloudflareErrorKind::DnsExists => Some(81053),
            CloudflareErrorKind::AuthFailed => None,
            CloudflareErrorKind::InvalidToken => Some(1038),
            CloudflareErrorKind::Other(code) => Some(code),
        }
    }

    /// The numeric Cloudflare error code, when known.
    pub fn code(&self) -> (r: Option<u64>)
        ensures
            r == self.single_code(),
    {
        match self {
            CloudflareErrorKind::RateLimited => Some(10429),
            CloudflareErrorKind::DnsExists => Some(81053),
            CloudflareErrorKind::AuthFailed => None,
            CloudflareErrorKind::InvalidToken => Some(1038),
            CloudflareErrorKind::Other(code) => Some(*code),
        }
    }
}

/// What a numeric Cloudflare error code means.
pub open spec fn meaning(code: u64) -> CloudflareErrorKind {
    if code == 10429 {
        CloudflareErrorKind::RateLimited
    } else if code == 81053 {
        CloudflareErrorKind::DnsExists
    } else if code == 10001 || code == 10000 || code == 9109 {
        CloudflareErrorKind::AuthFailed
    } else if code == 1038 {
        CloudflareErrorKind::InvalidToken
    } else {
        CloudflareErrorKind::Other(code)
    }
}

/// Translates a numeric Cloudflare error code into its stable meaning.
pub fn classify_error_code(code: u64) -> (r: CloudflareErrorKind)
    ensures
        r == meaning(code),
{
    match code {
        10429 => CloudflareErrorKind::RateLimited,
        81053 => CloudflareErrorKind::DnsExists,
        10001 | 10000 | 9109 => CloudflareErrorKind::AuthFailed,
        1038 => CloudflareErrorKind::InvalidToken,
        other => CloudflareErrorKind::Other(other),
    }
}

/// Classifying a code loses nothing: the meaning gives the code back, unless it
/// is one of the three authentication codes.
pub proof fn meaning_keeps_the_code(code: u64)
    ensures
        meaning(code) == CloudflareErrorKind::AuthFailed <==> code == 10001 || code == 10000
            || code == 9109,
        meaning(code) != CloudflareErrorKind::AuthFailed ==> meaning(code).single_code() == Some(
            code,
        ),
{
}

impl ApiError {
    /// The error for a person to read.
    pub open spec fn described(self) -> Seq<char> {
        match self {
            ApiError::Http(text) => "http transport: "@ + text@,
            ApiError::NonJson { status, body } => "non-JSON response (HTTP "@ + text::decimal(
                status as nat,
            ) + "): "@ + body@,
            ApiError::Api { message, .. } => "api error: "@ + message@,
        }
    }

    /// The error for a person to read.
    pub fn message(&self) -> (r: String)
        ensures
            r@ == self.described(),
    {
        match self {
            ApiError::Http(text) => {
                let mut r = "http transport: ".to_owned();
                r.append(text.as_str());
                r
            },
            ApiError::NonJson { status, body } => {
                let mut r = "non-JSON response (HTTP ".to_owned();
                r.append(text::decimal_text(*status as u64).as_str());
                r.append("): ");
                r.append(body.as_str());
                r
            },
            ApiError::Api { message, .. } => {
                let mut r = "api error: ".to_owned();
                r.append(message.as_str());
                r
            },
        }
    }
}

impl InstallError {
    /// The error for a person to read.
    pub open spec fn described(self) -> Seq<char> {
        match self {
            InstallError::Download(text) => "download failed: "@ + text@,
            InstallError::MissingBinary => "archive did not contain the cloudflared binary"@,
            InstallError::UnsupportedPlatform { platform, arch } => "unsupported platform "@
                + platform@ + "/"@ + arch@,
            InstallError::Spawn(text) => "spawn failed: "@ + text@,
        }
    }

    /// The error for a person to read.
    pub fn message(&self) -> (r: String)
        ensures
            r@ == self.described(),
    {
        match self {
            InstallError::Download(text) => {
                let mut r = "download failed: ".to_owned();
                r.append(text.as_str());
                r
            },
            InstallError::MissingBinary => {
                "archive did not contain the cloudflared binary".to_owned()
            },
            InstallError::UnsupportedPlatform { platform, arch } => {
                let mut r = "unsupported platform ".to_owned();
                r.append(platform.as_str());
                r.append("/");
                r.append(arch.as_str());
                r
            },
            InstallError::Spawn(text) => {
                let mut r = "spawn failed: ".to_owned();
                r.append(text.as_str());
                r
            },
        }
    }
}

impl Error {
    /// The error for a person to read.
    pub open spec fn described(self) -> Seq<char> {
        match self {
            Error::MissingCredential(what) => "missing credential: "@ + what@,
            Error::Cloudflare(e) => "cloudflare api error: "@ + e.described(),
            Error::Cloudflared(e) => "cloudflared binary: "@ + e.described(),
            Error::Io(text) => "io error: "@ + text@,
            Error::InvalidSubdomain(text) => "invalid subdomain: "@ + text@,
            Error::SubdomainInUse(name) => "subdomain already in use: "@ + name@,
            Error::AlreadyShutDown => "tunnel already shut down"@,
            Error::Join(text) => "background task panicked: "@ + text@,
            Error::Other(text) => text@,
        }
    }

    /// The error for a person to read.
    pub fn message(&self) -> (r: String)
        ensures
            r@ == self.described(),
    {
        match self {
            Error::MissingCredential(what) => {
                let mut r = "missing credential: ".to_owned();
                r.append(what);
                r
            },
            Error::Cloudflare(e) => {
                let mut r = "cloudflare api error: ".to_owned();
                r.append(e.message().as_str());
                r
            },
            Error::Cloudflared(e) => {
                let mut r = "cloudflared binary: ".to_owned();
                r.append(e.message().as_str());
                r
            },
            Error::Io(text) => {
                let mut r = "io error: ".to_owned();
                r.append(text.as_str());
                r
            },
            Error::InvalidSubdomain(text) => {
                let mut r = "invalid subdomain: ".to_owned();
                r.append(text.as_str());
                r
            },
            Error::SubdomainInUse(name) => {
                let mut r = "subdomain already in use: ".to_owned();
                r.append(name.as_str());
                r
            },
            Error::AlreadyShutDown => "tunnel already shut down".to_owned(),
            Error::Join(text) => {
                let mut r = "background task panicked: ".to_owned();
                r.append(text.as_str());
                r
            },
            Error::Other(text) => text.clone(),
        }
    }
}

/// Each of the known codes has its own meaning, and no other code has it.
pub proof fn known_codes_have_their_meaning(code: u64)
    ensures
        meaning(code) is RateLimited <==> code == 10429,
        meaning(code) is DnsExists <==> code == 81053,
        meaning(code) is InvalidToken <==> code == 1038,
        meaning(code) is AuthFailed <==> code == 10000 || code == 10001 || code == 9109,
        meaning(code) matches CloudflareErrorKind::Other(n) ==> n == code,
        CloudflareErrorKind::Other(code).single_code() == Some(code),
        CloudflareErrorKind::AuthFailed.single_code() is None,
{
}

/// What an error says ends with what it is about, and an error that is only a
/// text says just that.
pub proof fn descriptions_end_with_the_detail(
    text: String,
    inner: ApiError,
    install: InstallError,
    what: &'static str,
)
    ensures
        Error::Other(text).described() == text@,
        Error::Io(text).described() == "io error: "@ + text@,
        Error::Join(text).described() == "background task panicked: "@ + text@,
        Error::InvalidSubdomain(text).described() == "invalid subdomain: "@ + text@,
        Error::SubdomainInUse(text).described() == "subdomain already in use: "@ + text@,
        Error::MissingCredential(what).described() == "missing credential: "@ + what@,
        Error::Cloudflare(inner).described() == "cloudflare api error: "@ + inner.described(),
        Error::Cloudflared(install).described() == "cloudflared binary: "@ + install.described(),
        Error::AlreadyShutDown.described() == "tunnel already shut down"@,
        InstallError::Download(text).described() == "download failed: "@ + text@,
        InstallError::Spawn(text).described() == "spawn failed: "@ + text@,
        InstallError::MissingBinary.described()
            == "archive did not contain the cloudflared binary"@,
        ApiError::Http(text).described() == "http transport: "@ + text@,
        inner matches ApiError::Api { message, .. } ==> inner.described() == "api error: "@
            + message@,
        inner matches ApiError::NonJson { status, body } ==> inner.described()
            == "non-JSON response (HTTP "@ + text::decimal(status as nat) + "): "@ + body@,
        install matches InstallError::UnsupportedPlatform { platform, arch } ==> install.described()
            == "unsupported platform "@ + platform@ + "/"@ + arch@,
{
}

/// The code of a kind is the one that means it.
pub proof fn codes_mean_their_kind(code: u64, kind: CloudflareErrorKind, r: Option<u64>)
    requires
        call_ensures(classify_error_code, (code,), kind),
        call_ensures(CloudflareErrorKind::code, (&kind,), r),
    ensures
        r == Some(code) || (r is None && (code == 10000 || code == 10001 || code == 9109)),
        kind is AuthFailed <==> r is None,
        kind is RateLimited <==> code == 10429,
        kind is DnsExists <==> code == 81053,
        kind is InvalidToken <==> code == 1038,
{
}

} // verus!
