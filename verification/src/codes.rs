//! Errors as they leave for JavaScript: a status and a message, with a stable
//! `[CODE]` prefix that names the kind of error.

use vstd::prelude::*;
use vstd::string::*;

use crate::error::{ApiError, CloudflareErrorKind, Error};
use crate::text;

verus! {

/// Stable error codes, one for each kind of [`Error`].
#[derive(Debug, Clone, Copy, PartialEq, Eq, Structural)]
pub enum CloudpipeErrorCode {
    /// A required credential was missing.
    MissingCredential,
    /// The Cloudflare API returned an error. Carries a sub-kind.
    CloudflareApi,
    /// The `cloudflared` binary could not be located, downloaded or spawned.
    CloudflaredBinary,
    /// The subdomain violates the DNS label rules.
    InvalidSubdomain,
    /// A healthy tunnel with the same name already exists.
    SubdomainInUse,
    /// A tunnel was stopped twice.
    AlreadyShutDown,
    /// Generic I/O failure.
    Io,
    /// Anything else.
    Other,
}

impl CloudpipeErrorCode {
    /// The code as it is written.
    pub open spec fn name(self) -> Seq<char> {
        match self {
            CloudpipeErrorCode::MissingCredential => "MISSING_CREDENTIAL"@,
            CloudpipeErrorCode::CloudflareApi => "CLOUDFLARE_API"@,
            CloudpipeErrorCode::CloudflaredBinary => "CLOUDFLARE_BINARY"@,
            CloudpipeErrorCode::InvalidSubdomain => "INVALID_SUBDOMAIN"@,
            CloudpipeErrorCode::SubdomainInUse => "SUBDOMAIN_IN_USE"@,
            CloudpipeErrorCode::AlreadyShutDown => "ALREADY_SHUT_DOWN"@,
            CloudpipeErrorCode::Io => "IO"@,
            CloudpipeErrorCode::Other => "OTHER"@,
        }
    }

    /// Stable UPPER_SNAKE_CASE string used in `[CODE]` prefixes.
    pub fn as_str(self) -> (r: &'static str)
        ensures
            r@ == self.name(),
    {
        match self {
            CloudpipeErrorCode::MissingCredential => "MISSING_CREDENTIAL",
            CloudpipeErrorCode::CloudflareApi => "CLOUDFLARE_API",
            CloudpipeErrorCode::CloudflaredBinary => "CLOUDFLARE_BINARY",
            CloudpipeErrorCode::InvalidSubdomain => "INVALID_SUBDOMAIN",
            CloudpipeErrorCode::SubdomainInUse => "SUBDOMAIN_IN_USE",
            CloudpipeErrorCode::AlreadyShutDown => "ALREADY_SHUT_DOWN",
            CloudpipeErrorCode::Io => "IO",
            CloudpipeErrorCode::Other => "OTHER",
        }
    }
}

/// Sub-kinds of [`CloudpipeErrorCode::CloudflareApi`].
#[derive(Debug, Clone, Copy, PartialEq, Eq, Structural)]
pub enum CloudflareApiKind {
    /// Too many requests.
    RateLimited,
    /// The DNS record already exists.
    DnsExists,
    /// Authentication failed.
    AuthFailed,
    /// The token itself is invalid.
    InvalidToken,
    /// Anything else.
    Other,
}

impl CloudflareApiKind {
    /// The sub-kind as it is written.
    pub open spec fn name(self) -> Seq<char> {
        match self {
            CloudflareApiKind::RateLimited => "RATE_LIMITED"@,
            CloudflareApiKind::DnsExists => "DNS_EXISTS"@,
            CloudflareApiKind::AuthFailed => "AUTH_FAILED"@,
            CloudflareApiKind::InvalidToken => "INVALID_TOKEN"@,
            CloudflareApiKind::Other => "OTHER"@,
        }
    }

    /// Stable UPPER_SNAKE_CASE string used after the code.
    pub fn as_str(self) -> (r: &'static str)
        ensures
            r@ == self.name(),
    {
        match self {
            CloudflareApiKind::RateLimited => "RATE_LIMITED",
            CloudflareApiKind::DnsExists => "DNS_EXISTS",
            CloudflareApiKind::AuthFailed => "AUTH_FAILED",
            CloudflareApiKind::InvalidToken => "INVALID_TOKEN",
            CloudflareApiKind::Other => "OTHER",
        }
    }
}

/// How JavaScript is to take an error.
#[derive(Debug, Clone, Copy, PartialEq, Eq, Structural)]
pub enum Status {
    /// An argument was out of range.
    InvalidArg,
    /// Something went wrong.
    GenericFailure,
}

/// An error on its way to JavaScript.
#[derive(Debug, PartialEq, Eq)]
pub struct FixedError {
    /// How to take it.
    pub status: Status,
    /// What happened.
    pub reason: String,
}

/// The sub-kind that stands for a kind of API error.
pub open spec fn api_kind(kind: CloudflareErrorKind) -> CloudflareApiKind {
    match kind {
        CloudflareErrorKind::RateLimited => CloudflareApiKind::RateLimited,
        CloudflareErrorKind::DnsExists => CloudflareApiKind::DnsExists,
        CloudflareErrorKind::AuthFailed => CloudflareApiKind::AuthFailed,
        CloudflareErrorKind::InvalidToken => CloudflareApiKind::InvalidToken,
        CloudflareErrorKind::Other(_) => CloudflareApiKind::Other,
    }
}

/// The code that stands for an error.
pub open spec fn code_of(error: Error) -> CloudpipeErrorCode {
    match error {
        Error::MissingCredential(_) => CloudpipeErrorCode::MissingCredential,
        Error::Cloudflare(_) => CloudpipeErrorCode::CloudflareApi,
        Error::Cloudflared(_) => CloudpipeErrorCode::CloudflaredBinary,
        Error::InvalidSubdomain(_) => CloudpipeErrorCode::InvalidSubdomain,
        Error::SubdomainInUse(_) => CloudpipeErrorCode::SubdomainInUse,
        Error::AlreadyShutDown => CloudpipeErrorCode::AlreadyShutDown,
        Error::Io(_) => CloudpipeErrorCode::Io,
        Error::Join(_) | Error::Other(_) => CloudpipeErrorCode::Other,
    }
}

/// The whole code of an error: the sub-kind follows for a refusal by the API.
pub open spec fn full_code(error: Error) -> Seq<char> {
    match error {
        Error::Cloudflare(ApiError::Api { kind, .. }) => code_of(error).name() + ":"@ + api_kind(
            kind,
        ).name(),
        _ => code_of(error).name(),
    }
}

/// A message under a code.
pub open spec fn coded(code: Seq<char>, message: Seq<char>) -> Seq<char> {
    "["@ + code + "] "@ + message
}

/// The text of a sub-kind.
pub fn kind_to_str(kind: CloudflareErrorKind) -> (r: &'static str)
    ensures
        r@ == api_kind(kind).name(),
{
    match kind {
        CloudflareErrorKind::RateLimited => CloudflareApiKind::RateLimited.as_str(),
        CloudflareErrorKind::DnsExists => CloudflareApiKind::DnsExists.as_str(),
        CloudflareErrorKind::AuthFailed => CloudflareApiKind::AuthFailed.as_str(),
        CloudflareErrorKind::InvalidToken => CloudflareApiKind::InvalidToken.as_str(),
        CloudflareErrorKind::Other(_) => CloudflareApiKind::Other.as_str(),
    }
}

/// An error of the library with its code in front of its message.
pub fn from_sdk_error(err: &Error) -> (r: FixedError)
    ensures
        r.status == Status::GenericFailure,
        r.reason@ == coded(full_code(*err), err.described()),
{
    let code = match err {
        Error::MissingCredential(_) => CloudpipeErrorCode::MissingCredential,
        Error::Cloudflare(_) => CloudpipeErrorCode::CloudflareApi,
        Error::Cloudflared(_) => CloudpipeErrorCode::CloudflaredBinary,
        Error::InvalidSubdomain(_) => CloudpipeErrorCode::InvalidSubdomain,
        Error::SubdomainInUse(_) => CloudpipeErrorCode::SubdomainInUse,
        Error::AlreadyShutDown => CloudpipeErrorCode::AlreadyShutDown,
        Error::Io(_) => CloudpipeErrorCode::Io,
        Error::Join(_) | Error::Other(_) => CloudpipeErrorCode::Other,
    };
    let mut full = code.as_str().to_owned();
    if let Error::Cloudflare(ApiError::Api { kind, .. }) = err {
        full.append(":");
        full.append(kind_to_str(*kind));
    }
    let mut reason = "[".to_owned();
    reason.append(full.as_str());
    reason.append("] ");
    reason.append(err.message().as_str());
    FixedError { status: Status::GenericFailure, reason }
}

/// An error that the library has no kind for.
pub fn other(msg: &str) -> (r: FixedError)
    ensures
        r.status == Status::GenericFailure,
        r.reason@ == coded(CloudpipeErrorCode::Other.name(), msg@),
{
    let mut reason = "[".to_owned();
    reason.append(CloudpipeErrorCode::Other.as_str());
    reason.append("] ");
    reason.append(msg);
    FixedError { status: Status::GenericFailure, reason }
}

/// A value from JavaScript that is out of range. Carries no code.
pub fn invalid_arg(msg: &str) -> (r: FixedError)
    ensures
        r.status == Status::InvalidArg,
        r.reason@ == msg@,
{
    FixedError { status: Status::InvalidArg, reason: msg.to_owned() }
}

/// The session went away before it could answer.
pub fn channel_dropped() -> (r: FixedError)
    ensures
        r.status == Status::GenericFailure,
        r.reason@ == coded(
            CloudpipeErrorCode::Other.name(),
            "session task dropped the reply channel"@,
        ),
{
    other("session task dropped the reply channel")
}

/// The session is no longer there to be asked.
pub fn session_gone() -> (r: FixedError)
    ensures
        r.status == Status::GenericFailure,
        r.reason@ == coded(CloudpipeErrorCode::Other.name(), "session task is gone"@),
{
    other("session task is gone")
}

/// The position of the first `c` in `s`, from `at` on; the length when there
/// is none.
pub open spec fn position(s: Seq<char>, c: char, at: nat) -> nat
    decreases s.len() - at,
{
    if at >= s.len() {
        s.len()
    } else if s[at as int] == c {
        at
    } else {
        position(s, c, at + 1)
    }
}

/// The code in front of a message: what stands between a leading `[` and the
/// first `]`, when both are there.
pub open spec fn code_in(message: Seq<char>) -> Option<Seq<char>> {
    let end = position(message, ']', 0);
    if message.len() > 0 && message[0] == '[' && end < message.len() {
        Some(message.subrange(1, end as int))
    } else {
        None
    }
}

/// Extracts the `[CODE]` prefix from a message. Codes that are not known pass
/// through as they are, with their sub-kind.
pub fn parse_error_code(message: &str) -> (r: Option<String>)
    ensures
        match code_in(message@) {
            Some(code) => r is Some && r->0@ == code,
            None => r is None,
        },
{
    let v = text::chars_of(message);
    if v.len() == 0 || v[0] != '[' {
        return None;
    }
    let mut end: usize = 0;
    while end < v.len() && v[end] != ']'
        invariant
            v@ == message@,
            v@.len() > 0,
            v@[0] == '[',
            end <= v@.len(),
            position(message@, ']', 0) == position(message@, ']', end as nat),
        decreases v@.len() - end,
    {
        end = end + 1;
    }
    if end == v.len() {
        return None;
    }
    Some(text::text_of(&v, 1, end))
}

proof fn position_of_first(s: Seq<char>, c: char, at: nat, first: nat)
    requires
        at <= first < s.len(),
        s[first as int] == c,
        forall|i: int| at <= i < first ==> s[i] != c,
    ensures
        position(s, c, at) == first,
    decreases first - at,
{
    if at < first {
        position_of_first(s, c, at + 1, first);
    }
}

/// A code that is put in front of a message can be taken off again, as long as
/// it holds no closing bracket.
pub proof fn codes_can_be_read_back(code: Seq<char>, message: Seq<char>)
    requires
        !code.contains(']'),
    ensures
        code_in(coded(code, message)) == Some(code),
{
    reveal_strlit("[");
    reveal_strlit("] ");
    let whole = coded(code, message);
    let end = code.len() + 1;
    assert(whole[end as int] == ']');
    assert forall|i: int| 0 <= i < end implies whole[i] != ']' by {
        if i > 0 {
            assert(whole[i] == code[i - 1]);
            assert(code.contains(code[i - 1]));
        }
    }
    position_of_first(whole, ']', 0, end);
    assert(whole.subrange(1, end as int) =~= code);
}

/// Whatever the error, its code can be read off the message that JavaScript
/// gets.
pub proof fn every_error_carries_its_code(error: Error)
    ensures
        code_in(coded(full_code(error), error.described())) == Some(full_code(error)),
{
    reveal_strlit("MISSING_CREDENTIAL");
    reveal_strlit("CLOUDFLARE_API");
    reveal_strlit("CLOUDFLARE_BINARY");
    reveal_strlit("INVALID_SUBDOMAIN");
    reveal_strlit("SUBDOMAIN_IN_USE");
    reveal_strlit("ALREADY_SHUT_DOWN");
    reveal_strlit("IO");
    reveal_strlit("OTHER");
    reveal_strlit("RATE_LIMITED");
    reveal_strlit("DNS_EXISTS");
    reveal_strlit("AUTH_FAILED");
    reveal_strlit("INVALID_TOKEN");
    reveal_strlit(":");
    let code = full_code(error);
    assert(!code.contains(']'));
    codes_can_be_read_back(code, error.described());
}

/// Every error goes by the code of its kind; a refusal by the API also by that of
/// its reason.
pub proof fn errors_go_by_their_kind(error: Error)
    ensures
        ({
            let code = full_code(error);
            &&& error is MissingCredential ==> code == "MISSING_CREDENTIAL"@
            &&& error is Cloudflared ==> code == "CLOUDFLARE_BINARY"@
            &&& error is InvalidSubdomain ==> code == "INVALID_SUBDOMAIN"@
            &&& error is SubdomainInUse ==> code == "SUBDOMAIN_IN_USE"@
            &&& error is AlreadyShutDown ==> code == "ALREADY_SHUT_DOWN"@
            &&& error is Io ==> code == "IO"@
            &&& error is Join || error is Other ==> code == "OTHER"@
            &&& error matches Error::Cloudflare(e) ==> (e !is Api ==> code == "CLOUDFLARE_API"@)
            &&& error matches Error::Cloudflare(ApiError::Api { kind, .. }) ==> {
                &&& kind is RateLimited ==> code == "CLOUDFLARE_API"@ + ":"@ + "RATE_LIMITED"@
                &&& kind is DnsExists ==> code == "CLOUDFLARE_API"@ + ":"@ + "DNS_EXISTS"@
                &&& kind is AuthFailed ==> code == "CLOUDFLARE_API"@ + ":"@ + "AUTH_FAILED"@
                &&& kind is InvalidToken ==> code == "CLOUDFLARE_API"@ + ":"@ + "INVALID_TOKEN"@
                &&& kind is Other ==> code == "CLOUDFLARE_API"@ + ":"@ + "OTHER"@
            }
        }),
        CloudpipeErrorCode::Other.name() == "OTHER"@,
{
}

/// A message keeps its own words behind the code: the code stands between
/// brackets, and a space follows.
pub proof fn coded_messages_keep_their_words(code: Seq<char>, message: Seq<char>)
    ensures
        ({
            let whole = coded(code, message);
            let n = code.len() as int;
            &&& whole.len() == n + 3 + message.len()
            &&& whole[0] == '['
            &&& whole.subrange(1, n + 1) == code
            &&& whole[n + 1] == ']'
            &&& whole[n + 2] == ' '
            &&& whole.skip(n + 3) == message
        }),
{
    reveal_strlit("[");
    reveal_strlit("] ");
    let whole = coded(code, message);
    let n = code.len() as int;
    assert(whole.subrange(1, n + 1) =~= code);
    assert(whole.skip(n + 3) =~= message);
}

proof fn positions_are_first(s: Seq<char>, c: char, at: nat)
    requires
        at <= s.len(),
    ensures
        at <= position(s, c, at) <= s.len(),
        position(s, c, at) < s.len() ==> s[position(s, c, at) as int] == c,
        forall|i: int| at <= i < position(s, c, at) ==> s[i] != c,
    decreases s.len() - at,
{
    if at < s.len() && s[at as int] != c {
        positions_are_first(s, c, at + 1);
    }
}

/// A code that is read off a message stands between the bracket that the message
/// begins with and the first closing one; a message without either has none.
pub proof fn codes_are_read_between_brackets(message: Seq<char>)
    ensures
        code_in(message) matches Some(code) ==> message.len() >= code.len() + 2 && message[0] == '['
            && message[code.len() as int + 1] == ']' && code == message.subrange(
            1,
            code.len() as int + 1,
        ) && !code.contains(']'),
        message.len() > 0 && message[0] == '[' && message.contains(']') ==> code_in(message) is Some,
        message.len() == 0 || message[0] != '[' || !message.contains(']') ==> code_in(message)
            is None,
{
    positions_are_first(message, ']', 0);
    let end = position(message, ']', 0);
    if end < message.len() {
        assert(message.contains(message[end as int]));
    }
    if let Some(code) = code_in(message) {
        assert(code.len() == end - 1);
        assert forall|i: int| 0 <= i < code.len() implies code[i] != ']' by {
            assert(code[i] == message[i + 1]);
        }
    }
}

/// Every error of the library is handed on as a failure, with its code in front
/// and its own words behind.
pub proof fn errors_are_handed_on(error: Error, r: FixedError)
    requires
        call_ensures(from_sdk_error, (&error,), r),
    ensures
        r.status == Status::GenericFailure,
        r.reason@ == "["@ + full_code(error) + "] "@ + error.described(),
        code_in(r.reason@) == Some(full_code(error)),
{
    every_error_carries_its_code(error);
}

/// A value that is out of range is told as such, without a code of the library;
/// what the library has no kind for goes by the code of all the rest.
pub proof fn other_faults_are_told(msg: &str, arg: FixedError, rest: FixedError)
    requires
        call_ensures(invalid_arg, (msg,), arg),
        call_ensures(other, (msg,), rest),
    ensures
        arg.status == Status::InvalidArg,
        arg.reason@ == msg@,
        rest.status == Status::GenericFailure,
        rest.reason@ == "["@ + "OTHER"@ + "] "@ + msg@,
{
}

/// A code that was put in front of a message is read off it, as it is.
pub proof fn codes_are_parsed(error: Error, message: &str, r: Option<String>)
    requires
        message@ == coded(full_code(error), error.described()),
        call_ensures(parse_error_code, (message,), r),
    ensures
        r is Some,
        r->0@ == full_code(error),
{
    every_error_carries_its_code(error);
}

} // verus!
