//! The local service schemes a tunnel can forward to, and the rules for the
//! subdomain it is published under.

use vstd::prelude::*;
use vstd::string::*;

use crate::error::Error;
use crate::text;

verus! {

/// The local service scheme to forward to.
#[derive(Debug, Clone, Copy, PartialEq, Eq, Hash, Structural)]
pub enum Protocol {
    /// `http://localhost:<port>`
    Http,
    /// `https://localhost:<port>`
    Https,
    /// `tcp://localhost:<port>`
    Tcp,
    /// `udp://localhost:<port>`
    Udp,
    /// `ssh://localhost:<port>`
    Ssh,
}

/// Error returned when [`Protocol::parse`] receives an unsupported token.
#[derive(Debug, PartialEq, Eq)]
pub struct InvalidProtocol(pub String);

impl Clone for InvalidProtocol {
    fn clone(&self) -> (r: Self)
        ensures
            r == *self,
    {
        InvalidProtocol(self.0.clone())
    }
}

impl InvalidProtocol {
    /// What is wrong, for a person to read.
    pub fn message(&self) -> (r: String)
        ensures
            r@ == "unknown protocol \""@ + self.0@
                + "\" — supported: http, https, tcp, udp, ssh"@,
    {
        let mut r = "unknown protocol \"".to_owned();
        r.append(self.0.as_str());
        r.append("\" — supported: http, https, tcp, udp, ssh");
        r
    }
}

/// What a tunnel forwards to: `scheme://localhost:port`.
pub open spec fn local_target(scheme: Seq<char>, port: u16) -> Seq<char> {
    scheme + "://localhost:"@ + text::decimal(port as nat)
}

impl Protocol {
    /// The canonical lower-case name.
    pub open spec fn name(self) -> Seq<char> {
        match self {
            Protocol::Http => "http"@,
            Protocol::Https => "https"@,
            Protocol::Tcp => "tcp"@,
            Protocol::Udp => "udp"@,
            Protocol::Ssh => "ssh"@,
        }
    }

    /// Parses a scheme name, in upper or lower case.
    pub fn parse(value: &str) -> (r: Result<Self, InvalidProtocol>)
        ensures
            r matches Ok(p) ==> p.name() == text::lower(value@),
            r matches Err(e) ==> e.0@ == value@ && forall|p: Protocol|
                p.name() != text::lower(value@),
    {
        let token = text::lowercase(value);
        if text::same(token.as_str(), "http") {
            Ok(Protocol::Http)
        } else if text::same(token.as_str(), "https") {
            Ok(Protocol::Https)
        } else if text::same(token.as_str(), "tcp") {
            Ok(Protocol::Tcp)
        } else if text::same(token.as_str(), "udp") {
            Ok(Protocol::Udp)
        } else if text::same(token.as_str(), "ssh") {
            Ok(Protocol::Ssh)
        } else {
            Err(InvalidProtocol(value.to_owned()))
        }
    }

    /// Canonical lower-case name, suitable for display.
    pub fn as_str(self) -> (r: &'static str)
        ensures
            r@ == self.name(),
    {
        match self {
            Protocol::Http => "http",
            Protocol::Https => "https",
            Protocol::Tcp => "tcp",
            Protocol::Udp => "udp",
            Protocol::Ssh => "ssh",
        }
    }

    /// The local service URL this protocol produces for the ingress rules,
    /// e.g. `http://localhost:8080`.
    pub fn local_service(self, port: u16) -> (r: String)
        ensures
            r@ == local_target(self.name(), port),
    {
        local_url(self.as_str(), port)
    }
}

impl std::str::FromStr for Protocol {
    type Err = InvalidProtocol;

    fn from_str(s: &str) -> (r: Result<Self, InvalidProtocol>)
        ensures
            parsed(s@, r),
    {
        Protocol::parse(s)
    }
}

/// The local URL for a scheme name and a port.
pub fn local_url(protocol: &str, port: u16) -> (r: String)
    ensures
        r@ == local_target(protocol@, port),
{
    let mut r = protocol.to_owned();
    r.append("://localhost:");
    r.append(text::decimal_text(port as u64).as_str());
    r
}

/// Distinct protocols have distinct names, and no name holds an upper-case
/// letter.
pub proof fn names_are_distinct(a: Protocol, b: Protocol)
    ensures
        a.name() == b.name() ==> a == b,
        text::lower(a.name()) == a.name(),
{
    reveal_strlit("http");
    reveal_strlit("https");
    reveal_strlit("tcp");
    reveal_strlit("udp");
    reveal_strlit("ssh");
    assert(a.name()[0] == b.name()[0] && a.name().len() == b.name().len() ==> a == b);
    assert(text::lower(a.name()) =~= a.name());
}

/// The outcome of parsing a scheme name: the protocol it names, if any.
pub open spec fn parsed(value: Seq<char>, r: Result<Protocol, InvalidProtocol>) -> bool {
    match r {
        Ok(p) => p.name() == text::lower(value),
        Err(e) => e.0@ == value && forall|p: Protocol| p.name() != text::lower(value),
    }
}

/// Parsing the name of a protocol gives that protocol back.
pub proof fn parse_gives_back_the_name(p: Protocol, r: Result<Protocol, InvalidProtocol>)
    requires
        parsed(p.name(), r),
    ensures
        r == Ok::<Protocol, InvalidProtocol>(p),
{
    names_are_distinct(p, p);
    if let Ok(q) = r {
        names_are_distinct(q, p);
    }
}

/// Letter case does not decide which protocol a text names.
pub proof fn parse_ignores_case(
    a: Seq<char>,
    b: Seq<char>,
    ra: Result<Protocol, InvalidProtocol>,
    rb: Result<Protocol, InvalidProtocol>,
)
    requires
        text::lower(a) == text::lower(b),
        parsed(a, ra),
        parsed(b, rb),
    ensures
        ra is Ok <==> rb is Ok,
        ra is Ok ==> ra->Ok_0 == rb->Ok_0,
{
    if let Ok(p) = ra {
        if let Ok(q) = rb {
            names_are_distinct(p, q);
        }
    }
}

/// A character that a subdomain may hold.
pub open spec fn is_label_char(c: char) -> bool {
    ('a' <= c <= 'z') || ('0' <= c <= '9') || c == '-'
}

/// A text of a length that a subdomain may have.
pub open spec fn has_label_length(s: Seq<char>) -> bool {
    3 <= text::byte_len(s) <= 63
}

/// A usable subdomain: three to sixty-three lower-case letters, digits and
/// dashes, with no dash at either end.
pub open spec fn is_label(s: Seq<char>) -> bool {
    &&& has_label_length(s)
    &&& forall|i: int| 0 <= i < s.len() ==> is_label_char(#[trigger] s[i])
    &&& s[0] != '-'
    &&& s.last() != '-'
}

/// Why a text is no usable subdomain.
pub open spec fn label_fault(s: Seq<char>) -> Seq<char> {
    if has_label_length(s) {
        "use lowercase letters, digits and dashes, not starting/ending with a dash"@
    } else {
        "must be between 3 and 63 characters (got "@ + text::decimal(text::byte_len(s)) + ")"@
    }
}

/// Error returned by [`validate_subdomain`].
#[derive(Debug, PartialEq, Eq)]
pub struct InvalidSubdomain {
    /// The offending value.
    pub value: String,
    /// Human-readable reason.
    pub reason: String,
}

impl Clone for InvalidSubdomain {
    fn clone(&self) -> (r: Self)
        ensures
            r == *self,
    {
        InvalidSubdomain { value: self.value.clone(), reason: self.reason.clone() }
    }
}

impl InvalidSubdomain {
    /// Constructs a new `InvalidSubdomain`.
    pub fn new(value: &str, reason: &str) -> (r: Self)
        ensures
            r.value@ == value@,
            r.reason@ == reason@,
    {
        InvalidSubdomain { value: value.to_owned(), reason: reason.to_owned() }
    }

    /// The offending value and the reason, as an [`Error`] carries them.
    pub open spec fn detail(self) -> Seq<char> {
        "\""@ + self.value@ + "\": "@ + self.reason@
    }

    /// What is wrong, for a person to read.
    pub fn message(&self) -> (r: String)
        ensures
            r@ == "invalid subdomain "@ + self.detail(),
    {
        let mut r = "invalid subdomain ".to_owned();
        let mut detail = "\"".to_owned();
        detail.append(self.value.as_str());
        detail.append("\": ");
        detail.append(self.reason.as_str());
        r.append(detail.as_str());
        r
    }

    /// This fault as the library's error.
    pub fn into_error(self) -> (r: Error)
        ensures
            r matches Error::InvalidSubdomain(text) && text@ == self.detail(),
    {
        let mut detail = "\"".to_owned();
        detail.append(self.value.as_str());
        detail.append("\": ");
        detail.append(self.reason.as_str());
        Error::InvalidSubdomain(detail)
    }
}

/// Validates a DNS label (`a-z`, `0-9`, `-`, not starting or ending with `-`,
/// 3 to 63 characters).
pub fn validate_subdomain(subdomain: &str) -> (r: Result<(), InvalidSubdomain>)
    ensures
        r is Ok <==> is_label(subdomain@),
        r matches Err(e) ==> e.value@ == subdomain@ && e.reason@ == label_fault(subdomain@),
{
    let n: usize = text::bytes_in(subdomain);
    if n < 3 || n > 63 {
        let mut reason = "must be between 3 and 63 characters (got ".to_owned();
        reason.append(text::decimal_text(n as u64).as_str());
        reason.append(")");
        return Err(InvalidSubdomain::new(subdomain, reason.as_str()));
    }
    let v = text::chars_of(subdomain);
    let mut ok = true;
    let mut i: usize = 0;
    while i < v.len()
        invariant
            i <= v@.len(),
            v@ == subdomain@,
            ok <==> forall|j: int| 0 <= j < i ==> is_label_char(#[trigger] v@[j]),
        decreases v@.len() - i,
    {
        let c = v[i];
        if !(('a' <= c && c <= 'z') || ('0' <= c && c <= '9') || c == '-') {
            ok = false;
        }
        i = i + 1;
    }
    assert(v.len() > 0);
    if !ok || v[0] == '-' || v[v.len() - 1] == '-' {
        return Err(
            InvalidSubdomain::new(
                subdomain,
                "use lowercase letters, digits and dashes, not starting/ending with a dash",
            ),
        );
    }
    Ok(())
}

proof fn lemma_narrow(s: Seq<char>)
    requires
        forall|i: int| 0 <= i < s.len() ==> is_label_char(#[trigger] s[i]),
    ensures
        text::byte_len(s) == s.len(),
    decreases s.len(),
{
    if s.len() > 0 {
        assert(is_label_char(s[0]));
        assert forall|i: int| 0 <= i < s.drop_first().len() implies is_label_char(
            #[trigger] s.drop_first()[i],
        ) by {
            assert(is_label_char(s[i + 1]));
        }
        lemma_narrow(s.drop_first());
    }
}

/// A usable subdomain has three to sixty-three characters, and lower-casing
/// leaves it as it is.
pub proof fn labels_are_short_and_lower(s: Seq<char>)
    requires
        is_label(s),
    ensures
        3 <= s.len() <= 63,
        text::lower(s) == s,
{
    lemma_narrow(s);
    assert forall|i: int| 0 <= i < s.len() implies text::lower(s)[i] == s[i] by {
        assert(is_label_char(s[i]));
    }
    assert(text::lower(s) =~= s);
}

/// The four decimal digits of `n`.
pub open spec fn four_digits(n: int) -> Seq<char> {
    seq![
        text::digit(n / 1000 % 10),
        text::digit(n / 100 % 10),
        text::digit(n / 10 % 10),
        text::digit(n % 10),
    ]
}

/// The generated subdomain number `n`, e.g. `user-1234`.
pub open spec fn user_name(n: int) -> Seq<char> {
    "user-"@ + four_digits(n)
}

/// Every generated subdomain is usable.
pub proof fn user_names_are_labels(n: int)
    requires
        0 <= n < 10000,
    ensures
        is_label(user_name(n)),
{
    reveal_strlit("user-");
    let s = user_name(n);
    assert(s.len() == 9);
    assert forall|i: int| 0 <= i < s.len() implies is_label_char(#[trigger] s[i]) by {
        if i >= 5 {
            assert(s[i] == four_digits(n)[i - 5]);
        }
    }
    lemma_narrow(s);
}

/// The subdomain that a random number stands for: its last four decimal digits
/// after `user-`.
pub fn subdomain_from_seed(seed: u32) -> (r: String)
    ensures
        r@ == user_name(seed as int % 10000),
{
    let n: u32 = seed % 10000;
    let mut r = "user-".to_owned();
    r.push(((n / 1000 % 10) as u8 + 48) as char);
    r.push(((n / 100 % 10) as u8 + 48) as char);
    r.push(((n / 10 % 10) as u8 + 48) as char);
    r.push(((n % 10) as u8 + 48) as char);
    assert(r@ =~= user_name(n as int));
    r
}

/// `RandomState::new` draws the keys of its hashers at random; nothing is
/// promised of them.
pub assume_specification[ std::collections::hash_map::RandomState::new ]() -> std::collections::hash_map::RandomState
;

/// `BuildHasher::build_hasher` on a `RandomState` makes a hasher with the keys
/// of that state; nothing is promised of what it computes.
#[verifier::external_body]
fn hasher_of(
    state: &std::collections::hash_map::RandomState,
) -> std::collections::hash_map::DefaultHasher {
    std::hash::BuildHasher::build_hasher(state)
}

/// A random number: the hash of nothing under random keys.
fn random_number() -> u64 {
    let state = std::collections::hash_map::RandomState::new();
    let hasher = hasher_of(&state);
    std::hash::Hasher::finish(&hasher)
}

/// Generates a random subdomain (`user-1234`).
pub fn random_subdomain() -> (r: String)
    ensures
        exists|n: int| 0 <= n < 10000 && r@ == #[trigger] user_name(n),
        is_label(r@),
{
    let seed: u32 = #[verifier::truncate]
    (random_number() as u32);
    let r = subdomain_from_seed(seed);
    proof {
        user_names_are_labels(seed as int % 10000);
    }
    r
}

/// The names of the protocols are the schemes of their URLs.
pub proof fn names_are_schemes(p: Protocol)
    ensures
        p == Protocol::Http <==> p.name() == "http"@,
        p == Protocol::Https <==> p.name() == "https"@,
        p == Protocol::Tcp <==> p.name() == "tcp"@,
        p == Protocol::Udp <==> p.name() == "udp"@,
        p == Protocol::Ssh <==> p.name() == "ssh"@,
{
    names_are_distinct(p, Protocol::Http);
    names_are_distinct(p, Protocol::Https);
    names_are_distinct(p, Protocol::Tcp);
    names_are_distinct(p, Protocol::Udp);
    names_are_distinct(p, Protocol::Ssh);
}

/// A local service is told by its scheme and its port: what stands before
/// `://localhost:` is the scheme, what follows is the port in decimal, and
/// services with different protocols or different ports are different.
pub proof fn services_tell_scheme_and_port(a: Protocol, p: u16, b: Protocol, q: u16)
    ensures
        local_target(a.name(), p) == a.name() + "://localhost:"@ + text::decimal(p as nat),
        local_target(a.name(), p) == local_target(b.name(), q) ==> a == b && p == q,
{
    reveal_strlit("://localhost:");
    reveal_strlit("http");
    reveal_strlit("https");
    reveal_strlit("tcp");
    reveal_strlit("udp");
    reveal_strlit("ssh");
    let x = local_target(a.name(), p);
    let y = local_target(b.name(), q);
    if x == y {
        assert(a.name().len() >= 3 && b.name().len() >= 3);
        assert(x[0] == a.name()[0] && y[0] == b.name()[0]);
        if a != b {
            assert(x[4] != y[4] || x[0] != y[0]);
        }
        let n = a.name().len() + 13;
        assert(x.skip(n as int) =~= text::decimal(p as nat));
        assert(y.skip(n as int) =~= text::decimal(q as nat));
        text::decimals_are_read_back(p as nat, q as nat);
    }
}

/// A text is a usable subdomain exactly if it has three to sixty-three
/// characters, all of them small letters, digits or dashes, and a dash neither
/// first nor last.
pub proof fn labels_are_told_by_their_characters(s: Seq<char>)
    ensures
        is_label(s) <==> {
            &&& 3 <= s.len() <= 63
            &&& forall|i: int|
                0 <= i < s.len() ==> 'a' <= #[trigger] s[i] <= 'z' || '0' <= s[i] <= '9' || s[i]
                    == '-'
            &&& s[0] != '-'
            &&& s[s.len() - 1] != '-'
        },
{
    if is_label(s) {
        labels_are_short_and_lower(s);
        assert forall|i: int| 0 <= i < s.len() implies 'a' <= #[trigger] s[i] <= 'z' || '0' <= s[i]
            <= '9' || s[i] == '-' by {
            assert(is_label_char(s[i]));
        }
    } else if 3 <= s.len() <= 63 && (forall|i: int|
        0 <= i < s.len() ==> 'a' <= #[trigger] s[i] <= 'z' || '0' <= s[i] <= '9' || s[i] == '-') {
        assert forall|i: int| 0 <= i < s.len() implies is_label_char(#[trigger] s[i]) by {}
        lemma_narrow(s);
    }
}

/// A fault in the length goes before one in the characters, and names the
/// length in bytes.
pub proof fn faults_in_length_go_first(s: Seq<char>)
    requires
        !is_label(s),
    ensures
        text::byte_len(s) < 3 || text::byte_len(s) > 63 ==> label_fault(s)
            == "must be between 3 and 63 characters (got "@ + text::decimal(text::byte_len(s))
            + ")"@,
        3 <= text::byte_len(s) <= 63 ==> label_fault(s)
            == "use lowercase letters, digits and dashes, not starting/ending with a dash"@,
{
}

/// A generated subdomain is `user-` and four digits, and the digits are those
/// of its number; so each of the ten thousand numbers has a name of its own.
pub proof fn user_names_are_numbered(n: int, m: int)
    requires
        0 <= n < 10000,
        0 <= m < 10000,
    ensures
        user_name(n).len() == 9,
        user_name(n).take(5) == "user-"@,
        forall|i: int| 5 <= i < 9 ==> '0' <= #[trigger] user_name(n)[i] <= '9',
        text::number(user_name(n).skip(5)) == n,
        user_name(n) == user_name(m) ==> n == m,
{
    reveal_strlit("user-");
    assert(user_name(n).take(5) =~= "user-"@);
    four_digits_are_read_back(n);
    four_digits_are_read_back(m);
    assert(user_name(n).skip(5) =~= four_digits(n));
    assert(user_name(m).skip(5) =~= four_digits(m));
    assert forall|i: int| 5 <= i < 9 implies '0' <= #[trigger] user_name(n)[i] <= '9' by {
        assert(user_name(n)[i] == four_digits(n)[i - 5]);
    }
}

proof fn four_digits_are_read_back(n: int)
    requires
        0 <= n < 10000,
    ensures
        text::number(four_digits(n)) == n,
{
    let s = four_digits(n);
    let a: int = n / 1000 % 10;
    let b: int = n / 100 % 10;
    let c: int = n / 10 % 10;
    let d: int = n % 10;
    let none: Seq<char> = seq![];
    text::digits_count_by_place(none, a);
    let one = none.push((48 + a) as char);
    text::digits_count_by_place(one, b);
    let two = one.push((48 + b) as char);
    text::digits_count_by_place(two, c);
    let three = two.push((48 + c) as char);
    text::digits_count_by_place(three, d);
    assert(three.push((48 + d) as char) =~= s);
    assert(text::number(s) == 1000 * a + 100 * b + 10 * c + d);
}

/// A text is taken as a protocol exactly if it is the name of one, in whatever
/// case; the protocol is the one of that name.
pub proof fn protocols_are_parsed_by_name(value: &str, r: Result<Protocol, InvalidProtocol>)
    requires
        call_ensures(Protocol::parse, (value,), r),
    ensures
        ({
            let name = text::lower(value@);
            &&& r is Ok <==> name == "http"@ || name == "https"@ || name == "tcp"@ || name
                == "udp"@ || name == "ssh"@
            &&& name == "http"@ ==> r == Ok::<Protocol, InvalidProtocol>(Protocol::Http)
            &&& name == "https"@ ==> r == Ok::<Protocol, InvalidProtocol>(Protocol::Https)
            &&& name == "tcp"@ ==> r == Ok::<Protocol, InvalidProtocol>(Protocol::Tcp)
            &&& name == "udp"@ ==> r == Ok::<Protocol, InvalidProtocol>(Protocol::Udp)
            &&& name == "ssh"@ ==> r == Ok::<Protocol, InvalidProtocol>(Protocol::Ssh)
            &&& r is Err ==> r->Err_0.0@ == value@
        }),
{
    assert(Protocol::Http.name() == "http"@);
    assert(Protocol::Https.name() == "https"@);
    assert(Protocol::Tcp.name() == "tcp"@);
    assert(Protocol::Udp.name() == "udp"@);
    assert(Protocol::Ssh.name() == "ssh"@);
    if let Ok(p) = r {
        names_are_distinct(p, Protocol::Http);
        names_are_distinct(p, Protocol::Https);
        names_are_distinct(p, Protocol::Tcp);
        names_are_distinct(p, Protocol::Udp);
        names_are_distinct(p, Protocol::Ssh);
    }
}

/// A subdomain is taken exactly if it is three to sixty-three characters of small
/// letters, digits and dashes, without a dash at either end.
pub proof fn subdomains_are_checked_letter_by_letter(name: &str, r: Result<(), InvalidSubdomain>)
    requires
        call_ensures(validate_subdomain, (name,), r),
    ensures
        r is Ok <==> 3 <= name@.len() && name@.len() <= 63 && name@[0] != '-' && name@.last() != '-'
            && (forall|i: int|
            0 <= i < name@.len() ==> ('a' <= #[trigger] name@[i] && name@[i] <= 'z') || ('0'
                <= name@[i] && name@[i] <= '9') || name@[i] == '-'),
        r is Err ==> r->Err_0.value@ == name@,
{
    let s = name@;
    if r is Ok {
        labels_are_told_by_their_characters(s);
        assert forall|i: int| 0 <= i < s.len() implies ('a' <= #[trigger] s[i] && s[i] <= 'z') || (
        '0' <= s[i] && s[i] <= '9') || s[i] == '-' by {
            assert(is_label_char(s[i]));
        }
    } else if 3 <= s.len() && s.len() <= 63 && s[0] != '-' && s.last() != '-' && (forall|i: int|
        0 <= i < s.len() ==> ('a' <= #[trigger] s[i] && s[i] <= 'z') || ('0' <= s[i] && s[i] <= '9')
            || s[i] == '-') {
        assert forall|i: int| 0 <= i < s.len() implies is_label_char(#[trigger] s[i]) by {}
        lemma_narrow(s);
    }
}

/// The local service is the protocol, `://localhost:` and the port, in decimal.
pub proof fn local_services_are_urls(p: Protocol, port: u16, r: String)
    requires
        call_ensures(Protocol::local_service, (p, port), r),
    ensures
        r@ == p.name() + "://localhost:"@ + text::decimal(port as nat),
{
}

/// The name that a number stands for ends with its last four digits: numbers with
/// the same last four digits share it, and others do not.
pub proof fn seeds_count_by_their_last_digits(a: u32, b: u32, ra: String, rb: String)
    requires
        call_ensures(subdomain_from_seed, (a,), ra),
        call_ensures(subdomain_from_seed, (b,), rb),
    ensures
        ra@ == rb@ <==> a as int % 10000 == b as int % 10000,
        ra@.len() == 9,
{
    reveal_strlit("user-");
    user_names_are_numbered(a as int % 10000, b as int % 10000);
}

/// A subdomain that is refused is named, with the reason, in the error as in the
/// message.
pub proof fn refused_subdomains_are_named(
    fault: InvalidSubdomain,
    said: String,
    error: Error,
)
    requires
        call_ensures(InvalidSubdomain::message, (&fault,), said),
        call_ensures(InvalidSubdomain::into_error, (fault,), error),
    ensures
        said@ == "invalid subdomain "@ + ("\""@ + fault.value@ + "\": "@ + fault.reason@),
        error matches Error::InvalidSubdomain(text) && text@ == "\""@ + fault.value@ + "\": "@
            + fault.reason@,
{
}

/// A name that is made up is `user-` and four digits.
pub proof fn made_up_names_have_four_digits(r: String)
    requires
        call_ensures(random_subdomain, (), r),
    ensures
        r@.len() == 9,
        r@.take(5) == "user-"@,
        forall|i: int| 5 <= i < 9 ==> '0' <= #[trigger] r@[i] <= '9',
{
    reveal_strlit("user-");
    let n = choose|n: int| 0 <= n < 10000 && r@ == #[trigger] user_name(n);
    assert(r@ == user_name(n));
    assert(r@.take(5) =~= "user-"@);
}

/// A text that is no protocol is named, with those that are.
pub proof fn refused_protocols_are_named(fault: InvalidProtocol, r: String)
    requires
        call_ensures(InvalidProtocol::message, (&fault,), r),
    ensures
        r@ == "unknown protocol \""@ + fault.0@
            + "\" — supported: http, https, tcp, udp, ssh"@,
{
}

} // verus!
