//! Text as sequences of characters: the few string operations the rest of the
//! library is built from, each with an exact meaning over `Seq<char>`.

use vstd::prelude::*;
use vstd::string::*;

verus! {

/// `String::push` appends one character.
pub assume_specification[ String::push ](s: &mut String, c: char)
    ensures
        final(s)@ == old(s)@.push(c),
;

/// The decimal digit with value `d`.
pub open spec fn digit(d: int) -> char
    recommends
        0 <= d < 10,
{
    (d + 48) as char
}

/// `n` in decimal, without leading zeros.
pub open spec fn decimal(n: nat) -> Seq<char>
    decreases n,
{
    if n < 10 {
        seq![digit(n as int)]
    } else {
        decimal(n / 10).push(digit((n % 10) as int))
    }
}

/// The ASCII lower-case form of a character; every other character is kept.
pub open spec fn lower_char(c: char) -> char {
    if 'A' <= c <= 'Z' {
        (c as int + 32) as char
    } else {
        c
    }
}

/// `s` with its ASCII letters in lower case.
pub open spec fn lower(s: Seq<char>) -> Seq<char> {
    s.map_values(|c: char| lower_char(c))
}

/// A character whose lower case is written out here: an ASCII character, or
/// U+212A, the Kelvin sign. No other character has a lower case that is all
/// letters, digits and dashes of ASCII.
pub open spec fn is_common(c: char) -> bool {
    c <= '\u{7F}' || c == '\u{212A}'
}

/// All characters of `s` are common ones.
pub open spec fn all_common(s: Seq<char>) -> bool {
    forall|i: int| 0 <= i < s.len() ==> is_common(#[trigger] s[i])
}

/// The lower-case form of a common character: the Kelvin sign becomes a `k`.
pub open spec fn small_char(c: char) -> char {
    if c == '\u{212A}' {
        'k'
    } else {
        lower_char(c)
    }
}

/// The Unicode lower case of a text, as the standard library has it.
pub uninterp spec fn unicode_lower(s: Seq<char>) -> Seq<char>;

/// The Unicode lower case of a text.
pub open spec fn small(s: Seq<char>) -> Seq<char> {
    if all_common(s) {
        s.map_values(|c: char| small_char(c))
    } else {
        unicode_lower(s)
    }
}

/// `part` stands in `s`, starting at position `at`.
pub open spec fn occurs_at(s: Seq<char>, part: Seq<char>, at: int) -> bool {
    0 <= at && at + part.len() <= s.len() && s.subrange(at, at + part.len()) == part
}

/// `part` stands somewhere in `s`.
pub open spec fn has_part(s: Seq<char>, part: Seq<char>) -> bool {
    exists|at: int| #[trigger] occurs_at(s, part, at)
}

/// The characters with the Unicode `White_Space` property.
pub open spec fn is_white(c: char) -> bool {
    let v = c as int;
    ||| 0x9 <= v <= 0xd
    ||| v == 0x20
    ||| v == 0x85
    ||| v == 0xa0
    ||| v == 0x1680
    ||| 0x2000 <= v <= 0x200a
    ||| v == 0x2028
    ||| v == 0x2029
    ||| v == 0x202f
    ||| v == 0x205f
    ||| v == 0x3000
}

/// `s` without its leading white space.
pub open spec fn trim_start(s: Seq<char>) -> Seq<char>
    decreases s.len(),
{
    if s.len() > 0 && is_white(s[0]) {
        trim_start(s.drop_first())
    } else {
        s
    }
}

/// `s` without its trailing white space.
pub open spec fn trim_end(s: Seq<char>) -> Seq<char>
    decreases s.len(),
{
    if s.len() > 0 && is_white(s.last()) {
        trim_end(s.drop_last())
    } else {
        s
    }
}

/// `s` without leading and trailing white space.
pub open spec fn trim(s: Seq<char>) -> Seq<char> {
    trim_end(trim_start(s))
}

/// `s` without its trailing occurrences of `c`.
pub open spec fn trim_end_char(s: Seq<char>, c: char) -> Seq<char>
    decreases s.len(),
{
    if s.len() > 0 && s.last() == c {
        trim_end_char(s.drop_last(), c)
    } else {
        s
    }
}

/// The characters of `s`.
pub fn chars_of(s: &str) -> (v: Vec<char>)
    ensures
        v@ == s@,
{
    let mut v: Vec<char> = Vec::new();
    for c in iter: s.chars()
        invariant
            v@ == iter.seq().take(iter.index()),
            iter.seq() == s@,
    {
        v.push(c);
        assert(v@ == iter.seq().take(iter.index() + 1));
    }
    assert(s@.take(s@.len() as int) == s@);
    v
}

/// The text made of `v[from..to]`.
pub fn text_of(v: &Vec<char>, from: usize, to: usize) -> (s: String)
    requires
        from <= to <= v@.len(),
    ensures
        s@ == v@.subrange(from as int, to as int),
{
    let mut s = String::new();
    let mut i: usize = from;
    while i < to
        invariant
            from <= i <= to <= v@.len(),
            s@ == v@.subrange(from as int, i as int),
        decreases to - i,
    {
        s.push(v[i]);
        assert(v@.subrange(from as int, i + 1) == v@.subrange(from as int, i as int).push(
            v@[i as int],
        ));
        i = i + 1;
    }
    s
}

/// Whether two texts are equal.
pub fn same(a: &str, b: &str) -> (r: bool)
    ensures
        r == (a@ == b@),
{
    let x = chars_of(a);
    let y = chars_of(b);
    if x.len() != y.len() {
        return false;
    }
    let mut i: usize = 0;
    while i < x.len()
        invariant
            i <= x@.len(),
            x@.len() == y@.len(),
            x@.take(i as int) == y@.take(i as int),
            x@ == a@,
            y@ == b@,
        decreases x@.len() - i,
    {
        if x[i] != y[i] {
            assert(a@[i as int] != b@[i as int]);
            return false;
        }
        assert(x@.take(i + 1) == x@.take(i as int).push(x@[i as int]));
        assert(y@.take(i + 1) == y@.take(i as int).push(y@[i as int]));
        i = i + 1;
    }
    assert(x@.take(x@.len() as int) == x@);
    assert(y@.take(y@.len() as int) == y@);
    true
}

/// `n` in decimal.
pub fn decimal_text(n: u64) -> (s: String)
    ensures
        s@ == decimal(n as nat),
    decreases n,
{
    let mut s = if n < 10 {
        String::new()
    } else {
        decimal_text(n / 10)
    };
    let d: u8 = (n % 10) as u8;
    s.push((d + 48) as char);
    assert(n < 10 ==> s@ == seq![digit(n as int)]);
    s
}

/// The ASCII lower-case form of a character.
pub fn lower_of(c: char) -> (r: char)
    ensures
        r == lower_char(c),
{
    if 'A' <= c && c <= 'Z' {
        ((c as u8) + 32) as char
    } else {
        c
    }
}

/// `s` with its ASCII letters in lower case.
pub fn lowercase(s: &str) -> (r: String)
    ensures
        r@ == lower(s@),
{
    let v = chars_of(s);
    let mut r = String::new();
    let mut i: usize = 0;
    while i < v.len()
        invariant
            i <= v@.len(),
            r@ == lower(v@.take(i as int)),
        decreases v@.len() - i,
    {
        r.push(lower_of(v[i]));
        assert(v@.take(i + 1) == v@.take(i as int).push(v@[i as int]));
        assert(lower(v@.take(i + 1)) == lower(v@.take(i as int)).push(lower_char(v@[i as int])));
        i = i + 1;
    }
    assert(v@.take(v@.len() as int) == v@);
    r
}

/// `str::to_lowercase` gives the Unicode lower case of a text, which is a
/// function of the text alone.
#[verifier::external_body]
fn to_unicode_lower(s: &str) -> (r: String)
    ensures
        r@ == unicode_lower(s@),
{
    s.to_lowercase()
}

/// The Unicode lower case of a text.
pub fn small_letters(s: &str) -> (r: String)
    ensures
        r@ == small(s@),
{
    let v = chars_of(s);
    let mut r = String::new();
    let mut i: usize = 0;
    while i < v.len()
        invariant
            i <= v@.len(),
            v@ == s@,
            all_common(v@.take(i as int)),
            r@ == v@.take(i as int).map_values(|c: char| small_char(c)),
        decreases v@.len() - i,
    {
        let c = v[i];
        if c == '\u{212A}' {
            r.push('k');
        } else if c <= '\u{7F}' {
            r.push(lower_of(c));
        } else {
            assert(!is_common(s@[i as int]));
            return to_unicode_lower(s);
        }
        proof {
            let before = v@.take(i as int);
            let after = v@.take(i + 1);
            assert(after == before.push(c));
            assert(after.map_values(|c: char| small_char(c)) == before.map_values(
                |c: char| small_char(c),
            ).push(small_char(c)));
            assert forall|j: int| 0 <= j < after.len() implies is_common(#[trigger] after[j]) by {
                if j < i {
                    assert(is_common(before[j]));
                }
            }
        }
        i = i + 1;
    }
    assert(v@.take(v@.len() as int) == v@);
    r
}

/// Whether `part` stands in `v` at position `at`.
fn occurs(v: &Vec<char>, part: &Vec<char>, at: usize) -> (r: bool)
    requires
        at + part@.len() <= v@.len(),
    ensures
        r == occurs_at(v@, part@, at as int),
{
    let n: usize = v.len();
    let mut i: usize = 0;
    while i < part.len()
        invariant
            i <= part@.len(),
            at + part@.len() <= n == v@.len(),
            forall|j: int| 0 <= j < i ==> v@[at + j] == part@[j],
        decreases part@.len() - i,
    {
        if v[at + i] != part[i] {
            assert(v@.subrange(at as int, at + part@.len())[i as int] != part@[i as int]);
            return false;
        }
        i = i + 1;
    }
    assert(v@.subrange(at as int, at + part@.len()) == part@);
    true
}

/// Whether `part` stands somewhere in `s`.
pub fn contains(s: &str, part: &str) -> (r: bool)
    ensures
        r == has_part(s@, part@),
{
    let v = chars_of(s);
    let p = chars_of(part);
    if p.len() == 0 {
        assert(s@.subrange(0, 0) == part@);
        assert(occurs_at(s@, part@, 0));
        return true;
    }
    if p.len() > v.len() {
        return false;
    }
    let last: usize = v.len() - p.len();
    let mut at: usize = 0;
    while at <= last
        invariant
            at <= last + 1,
            0 < p@.len() <= v@.len(),
            last == v@.len() - p@.len(),
            last < usize::MAX,
            v@ == s@,
            p@ == part@,
            forall|j: int| 0 <= j < at ==> !occurs_at(s@, part@, j),
        decreases last + 1 - at,
    {
        if occurs(&v, &p, at) {
            return true;
        }
        at = at + 1;
    }
    false
}

/// Whether `s` ends with `part`.
pub fn ends_with(s: &str, part: &str) -> (r: bool)
    ensures
        r == part@.is_suffix_of(s@),
{
    let v = chars_of(s);
    let p = chars_of(part);
    p.len() <= v.len() && occurs(&v, &p, v.len() - p.len())
}

/// What stands before `part` at the end of `s`, when `s` ends with it.
pub fn strip_suffix(s: &str, part: &str) -> (r: Option<String>)
    ensures
        r is Some <==> part@.is_suffix_of(s@),
        r matches Some(head) ==> head@ + part@ == s@,
{
    if !ends_with(s, part) {
        return None;
    }
    let v = chars_of(s);
    let n: usize = chars_of(part).len();
    let head = text_of(&v, 0, v.len() - n);
    assert(head@ + part@ == s@);
    Some(head)
}

/// Whether a character is white space.
pub fn is_whitespace(c: char) -> (r: bool)
    ensures
        r == is_white(c),
{
    let v: u32 = c as u32;
    (0x9 <= v && v <= 0xd) || v == 0x20 || v == 0x85 || v == 0xa0 || v == 0x1680 || (0x2000 <= v
        && v <= 0x200a) || v == 0x2028 || v == 0x2029 || v == 0x202f || v == 0x205f || v == 0x3000
}

/// `s` without leading and trailing white space.
pub fn trimmed(s: &str) -> (r: String)
    ensures
        r@ == trim(s@),
{
    let v = chars_of(s);
    let mut from: usize = 0;
    assert(v@.skip(0) == v@);
    while from < v.len() && is_whitespace(v[from])
        invariant
            from <= v@.len(),
            v@ == s@,
            trim_start(v@.skip(from as int)) == trim_start(s@),
        decreases v@.len() - from,
    {
        assert(v@.skip(from as int).drop_first() == v@.skip(from + 1));
        from = from + 1;
    }
    assert(trim_start(s@) == v@.skip(from as int));
    let mut to: usize = v.len();
    assert(v@.subrange(from as int, to as int) == v@.skip(from as int));
    while to > from && is_whitespace(v[to - 1])
        invariant
            from <= to <= v@.len(),
            trim_end(v@.subrange(from as int, to as int)) == trim(s@),
        decreases to,
    {
        assert(v@.subrange(from as int, to as int).drop_last() == v@.subrange(
            from as int,
            to - 1,
        ));
        to = to - 1;
    }
    text_of(&v, from, to)
}

/// `s` without its trailing occurrences of `c`.
pub fn without_trailing(s: &str, c: char) -> (r: String)
    ensures
        r@ == trim_end_char(s@, c),
{
    let v = chars_of(s);
    let mut to: usize = v.len();
    assert(v@.take(to as int) == v@);
    while to > 0 && v[to - 1] == c
        invariant
            to <= v@.len(),
            trim_end_char(v@.take(to as int), c) == trim_end_char(s@, c),
        decreases to,
    {
        assert(v@.take(to as int).drop_last() == v@.take(to - 1));
        to = to - 1;
    }
    assert(v@.subrange(0, to as int) == v@.take(to as int));
    text_of(&v, 0, to)
}

/// The number of bytes that UTF-8 spends on a character.
pub open spec fn width(c: char) -> nat {
    let v = c as int;
    if v < 0x80 {
        1
    } else if v < 0x800 {
        2
    } else if v < 0x10000 {
        3
    } else {
        4
    }
}

/// The number of bytes that UTF-8 spends on `s`.
pub open spec fn byte_len(s: Seq<char>) -> nat
    decreases s.len(),
{
    if s.len() == 0 {
        0
    } else {
        width(s[0]) + byte_len(s.drop_first())
    }
}

/// How many leading characters of `s` fit in `max` bytes.
pub open spec fn fitting(s: Seq<char>, max: nat) -> nat
    decreases s.len(),
{
    if s.len() == 0 || width(s[0]) > max {
        0
    } else {
        1 + fitting(s.drop_first(), (max - width(s[0])) as nat)
    }
}

/// `s` itself when it fits in `max` bytes; otherwise its longest prefix that
/// does, followed by an ellipsis.
pub open spec fn shortened(s: Seq<char>, max: nat) -> Seq<char> {
    if byte_len(s) <= max {
        s
    } else {
        s.take(fitting(s, max) as int).push('\u{2026}')
    }
}

proof fn lemma_width(c: char)
    ensures
        vstd::utf8::encode_scalar(c as u32).len() == width(c),
{
    vstd::utf8::char_is_scalar(c);
}

proof fn lemma_byte_len(s: Seq<char>)
    ensures
        vstd::utf8::encode_utf8(s).len() == byte_len(s),
    decreases s.len(),
{
    if s.len() > 0 {
        lemma_byte_len(s.drop_first());
        lemma_width(s[0]);
    } else {
        assert(vstd::utf8::encode_utf8(s).len() == 0);
    }
}

/// The prefix that `fitting` measures is the longest one within `max` bytes.
pub proof fn fitting_is_longest(s: Seq<char>, max: nat)
    ensures
        fitting(s, max) <= s.len(),
        byte_len(s.take(fitting(s, max) as int)) <= max,
        fitting(s, max) < s.len() ==> byte_len(s.take(fitting(s, max) as int + 1)) > max,
    decreases s.len(),
{
    if s.len() > 0 {
        if width(s[0]) <= max {
            let rest = (max - width(s[0])) as nat;
            let k = fitting(s.drop_first(), rest) as int;
            fitting_is_longest(s.drop_first(), rest);
            assert(s.take(k + 1).drop_first() == s.drop_first().take(k));
            if k < s.drop_first().len() {
                assert(s.take(k + 2).drop_first() == s.drop_first().take(k + 1));
            }
        } else {
            assert(s.take(1)[0] == s[0]);
        }
    }
}

/// The length of `s` in bytes.
pub fn bytes_in(s: &str) -> (n: usize)
    ensures
        n == byte_len(s@),
{
    proof {
        lemma_byte_len(s@);
    }
    s.as_bytes().len()
}

/// The number of bytes that UTF-8 spends on a character.
fn width_of(c: char) -> (n: usize)
    ensures
        n == width(c),
{
    let v: u32 = c as u32;
    if v < 0x80 {
        1
    } else if v < 0x800 {
        2
    } else if v < 0x10000 {
        3
    } else {
        4
    }
}

/// Shortens `s` to at most `max` bytes, marking the cut with an ellipsis.
pub fn truncate(s: &str, max: usize) -> (r: String)
    ensures
        r@ == shortened(s@, max as nat),
{
    if bytes_in(s) <= max {
        return s.to_owned();
    }
    let v = chars_of(s);
    let mut kept: usize = 0;
    let mut left: usize = max;
    assert(v@.skip(0) == v@);
    while kept < v.len() && width_of(v[kept]) <= left
        invariant
            kept <= v@.len(),
            v@ == s@,
            fitting(s@, max as nat) == kept + fitting(v@.skip(kept as int), left as nat),
        decreases v@.len() - kept,
    {
        assert(v@.skip(kept as int).drop_first() == v@.skip(kept + 1));
        left = left - width_of(v[kept]);
        kept = kept + 1;
    }
    let mut r = text_of(&v, 0, kept);
    assert(v@.subrange(0, kept as int) == s@.take(kept as int));
    r.push('\u{2026}');
    r
}

/// A decimal digit character.
pub open spec fn is_digit(c: char) -> bool {
    '0' <= c <= '9'
}

/// The number that a run of digits stands for.
pub open spec fn number(s: Seq<char>) -> nat
    decreases s.len(),
{
    if s.len() == 0 {
        0
    } else {
        number(s.drop_last()) * 10 + (s.last() as int - 48) as nat
    }
}

/// A run of one or more digits.
pub open spec fn all_digits(s: Seq<char>) -> bool {
    s.len() > 0 && forall|i: int| 0 <= i < s.len() ==> is_digit(#[trigger] s[i])
}

/// The digits of a written number: what follows an optional plus sign.
pub open spec fn unsigned_part(s: Seq<char>) -> Seq<char> {
    if s.len() > 0 && s[0] == '+' {
        s.drop_first()
    } else {
        s
    }
}

/// The port number that `s` writes: an optional plus sign and digits only,
/// within the range of a port.
pub open spec fn port_number(s: Seq<char>) -> Option<u16> {
    if all_digits(unsigned_part(s)) && number(unsigned_part(s)) <= 0xffff {
        Some(number(unsigned_part(s)) as u16)
    } else {
        None
    }
}

proof fn lemma_number_grows(s: Seq<char>, n: int)
    requires
        0 <= n <= s.len(),
    ensures
        number(s.take(n)) <= number(s),
    decreases s.len(),
{
    if n < s.len() {
        assert(s.drop_last().take(n) == s.take(n));
        lemma_number_grows(s.drop_last(), n);
    } else {
        assert(s.take(n) == s);
    }
}

/// Reads a port number.
pub fn parse_port(s: &str) -> (r: Option<u16>)
    ensures
        r == port_number(s@),
{
    let v = chars_of(s);
    let from: usize = if v.len() > 0 && v[0] == '+' {
        1
    } else {
        0
    };
    let ghost d = v@.skip(from as int);
    assert(d == unsigned_part(s@));
    if from == v.len() {
        return None;
    }
    let mut value: u32 = 0;
    let mut i: usize = from;
    while i < v.len()
        invariant
            from <= i <= v@.len(),
            d == v@.skip(from as int),
            d == unsigned_part(s@),
            value == number(d.take(i - from)),
            value <= 0xffff,
            forall|j: int| 0 <= j < i - from ==> is_digit(#[trigger] d[j]),
        decreases v@.len() - i,
    {
        let c = v[i];
        assert(d[i - from] == c);
        if !('0' <= c && c <= '9') {
            return None;
        }
        let next: u32 = value * 10 + (c as u32 - 48);
        proof {
            assert(d.take(i + 1 - from).drop_last() == d.take(i - from));
            lemma_number_grows(d, i + 1 - from);
        }
        if next > 0xffff {
            return None;
        }
        value = next;
        i = i + 1;
    }
    assert(d.take(d.len() as int) == d);
    Some(value as u16)
}

proof fn lemma_decimal_is_digits(n: nat)
    ensures
        all_digits(decimal(n)),
        number(decimal(n)) == n,
    decreases n,
{
    reveal_with_fuel(number, 2);
    if n < 10 {
        assert(decimal(n).drop_last() =~= seq![]);
    } else {
        lemma_decimal_is_digits(n / 10);
        assert(decimal(n).drop_last() =~= decimal(n / 10));
        assert forall|i: int| 0 <= i < decimal(n).len() implies is_digit(
            #[trigger] decimal(n)[i],
        ) by {
            if i < decimal(n / 10).len() {
                assert(decimal(n)[i] == decimal(n / 10)[i]);
            }
        }
    }
}

/// A port that is written in decimal is all digits, and is read back as that
/// port.
pub proof fn ports_are_read_back(port: u16)
    ensures
        all_digits(decimal(port as nat)),
        port_number(decimal(port as nat)) == Some(port),
{
    lemma_decimal_is_digits(port as nat);
    assert(is_digit(decimal(port as nat)[0]));
}

/// A number that is written in decimal is all digits, without a leading zero,
/// and is read back as that number; so different numbers are written
/// differently.
pub proof fn decimals_are_read_back(n: nat, m: nat)
    ensures
        decimal(n).len() > 0,
        forall|i: int| 0 <= i < decimal(n).len() ==> '0' <= #[trigger] decimal(n)[i] <= '9',
        decimal(n)[0] == '0' <==> n == 0,
        number(decimal(n)) == n,
        decimal(n) == decimal(m) ==> n == m,
    decreases n,
{
    lemma_decimal_is_digits(n);
    lemma_decimal_is_digits(m);
    assert forall|i: int| 0 <= i < decimal(n).len() implies '0' <= #[trigger] decimal(n)[i]
        <= '9' by {
        assert(is_digit(decimal(n)[i]));
    }
    if n >= 10 {
        decimals_are_read_back(n / 10, 0);
        assert(decimal(n)[0] == decimal(n / 10)[0]);
    }
}

/// One more digit makes a number ten times as large, plus that digit; no digits
/// at all make nothing.
pub proof fn digits_count_by_place(s: Seq<char>, d: int)
    requires
        0 <= d < 10,
    ensures
        number(s.push((48 + d) as char)) == 10 * number(s) + d,
        number(seq![]) == 0,
{
    let c = (48 + d) as char;
    assert(s.push(c).drop_last() =~= s);
    assert(s.push(c).last() == c);
}

/// A text is a port exactly if it is digits, with or without a plus sign in
/// front, that make a number below 65536; then it is the port of that number.
pub proof fn ports_are_what_they_say(digits: Seq<char>)
    requires
        digits.len() > 0,
        forall|i: int| 0 <= i < digits.len() ==> '0' <= #[trigger] digits[i] <= '9',
    ensures
        number(digits) < 65536 ==> port_number(digits) is Some && port_number(digits)->0 == number(
            digits,
        ),
        number(digits) >= 65536 ==> port_number(digits) is None,
        port_number(seq!['+'] + digits) == port_number(digits),
{
    assert((seq!['+'] + digits).drop_first() =~= digits);
    assert(digits[0] != '+');
    assert(all_digits(digits)) by {
        assert forall|i: int| 0 <= i < digits.len() implies is_digit(#[trigger] digits[i]) by {}
    }
}

/// A text that holds anything but digits, behind a plus sign or not, is no
/// port; and neither is one without digits.
pub proof fn other_texts_are_no_ports(s: Seq<char>, i: int)
    requires
        0 <= i < s.len(),
        !('0' <= s[i] <= '9'),
        i > 0 || s[0] != '+',
    ensures
        port_number(s) is None,
        port_number(seq![]) is None,
        port_number(seq!['+']) is None,
{
    let digits = unsigned_part(s);
    if s[0] == '+' {
        assert(digits[i - 1] == s[i]);
        assert(!is_digit(digits[i - 1]));
    } else {
        assert(!is_digit(digits[i]));
    }
    assert(seq!['+'].drop_first() =~= seq![]);
}

/// Lower-casing keeps the length and every character that is not a capital
/// letter of ASCII; a capital becomes the small letter 32 places further on.
/// Doing it twice is doing it once.
pub proof fn capitals_become_small(s: Seq<char>)
    ensures
        lower(s).len() == s.len(),
        forall|i: int|
            0 <= i < s.len() ==> {
                &&& !('A' <= #[trigger] lower(s)[i] <= 'Z')
                &&& 'A' <= s[i] <= 'Z' ==> lower(s)[i] as int == s[i] as int + 32
                &&& !('A' <= s[i] <= 'Z') ==> lower(s)[i] == s[i]
            },
        lower(lower(s)) == lower(s),
{
    assert(lower(lower(s)) =~= lower(s));
}

/// What common characters become in lower case: a capital of ASCII its small
/// letter, the Kelvin sign a `k`, and every other one itself.
pub proof fn common_capitals_become_small(s: Seq<char>)
    requires
        forall|i: int|
            0 <= i < s.len() ==> #[trigger] s[i] <= '\u{7F}' || s[i] == '\u{212A}',
    ensures
        small(s).len() == s.len(),
        forall|i: int|
            0 <= i < s.len() ==> {
                &&& s[i] == '\u{212A}' ==> #[trigger] small(s)[i] == 'k'
                &&& 'A' <= s[i] <= 'Z' ==> small(s)[i] as int == s[i] as int + 32
                &&& s[i] != '\u{212A}' && !('A' <= s[i] <= 'Z') ==> small(s)[i] == s[i]
            },
{
    assert forall|i: int| 0 <= i < s.len() implies is_common(#[trigger] s[i]) by {}
}

/// Blanks, tabs and line ends are white space; no visible character of ASCII is.
pub proof fn visible_characters_are_not_white(c: char)
    ensures
        c == ' ' || c == '\t' || c == '\n' || c == '\r' ==> is_white(c),
        '!' <= c <= '~' ==> !is_white(c),
{
}

proof fn starts_are_white(s: Seq<char>)
    ensures
        ({
            let n = s.len() - trim_start(s).len();
            &&& 0 <= n <= s.len()
            &&& trim_start(s) == s.skip(n)
            &&& forall|i: int| 0 <= i < n ==> is_white(#[trigger] s[i])
            &&& trim_start(s).len() > 0 ==> !is_white(trim_start(s)[0])
        }),
    decreases s.len(),
{
    if s.len() > 0 && is_white(s[0]) {
        let rest = s.drop_first();
        starts_are_white(rest);
        let n = s.len() - trim_start(s).len();
        assert(rest.skip(n - 1) =~= s.skip(n));
        assert forall|i: int| 0 <= i < n implies is_white(#[trigger] s[i]) by {
            if i > 0 {
                assert(is_white(rest[i - 1]));
            }
        }
    } else {
        assert(s.skip(0) =~= s);
    }
}

proof fn ends_are_white(s: Seq<char>)
    ensures
        ({
            let n = trim_end(s).len() as int;
            &&& 0 <= n <= s.len()
            &&& trim_end(s) == s.take(n)
            &&& forall|i: int| n <= i < s.len() ==> is_white(#[trigger] s[i])
            &&& n > 0 ==> !is_white(trim_end(s).last())
        }),
    decreases s.len(),
{
    if s.len() > 0 && is_white(s.last()) {
        let rest = s.drop_last();
        ends_are_white(rest);
        let n = trim_end(s).len() as int;
        assert(rest.take(n) =~= s.take(n));
        assert forall|i: int| n <= i < s.len() implies is_white(#[trigger] s[i]) by {
            if i < rest.len() {
                assert(is_white(rest[i]));
            }
        }
    } else {
        assert(s.take(s.len() as int) =~= s);
    }
}

/// Trimming takes white space off both ends and nothing else: what is left is
/// one piece of the text, with nothing but white space before and after it, and
/// it neither begins nor ends with white space.
pub proof fn trimming_takes_the_ends_off(s: Seq<char>) -> (from: int)
    ensures
        0 <= from <= from + trim(s).len() <= s.len(),
        trim(s) == s.subrange(from, from + trim(s).len()),
        forall|i: int| 0 <= i < from ==> is_white(#[trigger] s[i]),
        forall|i: int| from + trim(s).len() <= i < s.len() ==> is_white(#[trigger] s[i]),
        trim(s).len() > 0 ==> !is_white(trim(s)[0]) && !is_white(trim(s).last()),
{
    starts_are_white(s);
    let middle = trim_start(s);
    ends_are_white(middle);
    let from = s.len() - middle.len();
    assert(trim(s) =~= s.subrange(from, from + trim(s).len()));
    assert forall|i: int| from + trim(s).len() <= i < s.len() implies is_white(
        #[trigger] s[i],
    ) by {
        assert(middle[i - from] == s[i]);
    }
    from
}

/// Taking a character off the end takes off all of its trailing occurrences and
/// nothing else.
pub proof fn trailing_characters_are_taken_off(s: Seq<char>, c: char)
    ensures
        ({
            let n = trim_end_char(s, c).len() as int;
            &&& 0 <= n <= s.len()
            &&& trim_end_char(s, c) == s.take(n)
            &&& forall|i: int| n <= i < s.len() ==> #[trigger] s[i] == c
            &&& n > 0 ==> s[n - 1] != c
        }),
    decreases s.len(),
{
    if s.len() > 0 && s.last() == c {
        let rest = s.drop_last();
        trailing_characters_are_taken_off(rest, c);
        let n = trim_end_char(s, c).len() as int;
        assert(rest.take(n) =~= s.take(n));
        assert forall|i: int| n <= i < s.len() implies #[trigger] s[i] == c by {
            if i < rest.len() {
                assert(rest[i] == c);
            }
        }
    } else {
        assert(s.take(s.len() as int) =~= s);
    }
}

/// A part that is put into a text stands in it, wherever that is.
pub proof fn parts_that_are_put_in_are_there(
    before: Seq<char>,
    part: Seq<char>,
    after: Seq<char>,
)
    ensures
        has_part(before + part + after, part),
{
    let s = before + part + after;
    let at = before.len() as int;
    assert(s.subrange(at, at + part.len()) =~= part);
    assert(occurs_at(s, part, at));
}

/// A part that stands in a text splits it in three.
pub proof fn parts_split_the_text(s: Seq<char>, part: Seq<char>)
    requires
        has_part(s, part),
    ensures
        exists|before: Seq<char>, after: Seq<char>| s == #[trigger] (before + part + after),
{
    let at = choose|at: int| #[trigger] occurs_at(s, part, at);
    let before = s.take(at);
    let after = s.skip(at + part.len());
    assert(s =~= before + part + after);
}

/// The number of bytes is that of the UTF-8 encoding.
pub proof fn bytes_are_those_of_utf8(s: Seq<char>)
    ensures
        byte_len(s) == vstd::utf8::encode_utf8(s).len(),
{
    lemma_byte_len(s);
}

/// A text that is short enough is kept as it is; of a longer one a beginning is
/// kept, the longest that is short enough, and an ellipsis marks the cut.
pub proof fn long_texts_are_cut(s: Seq<char>, max: nat)
    ensures
        byte_len(s) <= max ==> shortened(s, max) == s,
        byte_len(s) > max ==> {
            let kept = shortened(s, max).drop_last();
            let n = kept.len() as int;
            &&& shortened(s, max).last() == '\u{2026}'
            &&& n <= s.len()
            &&& kept == s.take(n)
            &&& byte_len(kept) <= max
            &&& n < s.len() ==> byte_len(s.take(n + 1)) > max
        },
{
    if byte_len(s) > max {
        fitting_is_longest(s, max);
        let kept = shortened(s, max).drop_last();
        assert(kept =~= s.take(fitting(s, max) as int));
    }
}

/// The twenty-five characters of white space, and no others.
pub proof fn white_characters_are_few(c: char)
    ensures
        is_white(c) <==> c == '\u{9}' || c == '\u{A}' || c == '\u{B}' || c == '\u{C}' || c
            == '\u{D}' || c == '\u{20}' || c == '\u{85}' || c == '\u{A0}' || c == '\u{1680}' || c
            == '\u{2000}' || c == '\u{2001}' || c == '\u{2002}' || c == '\u{2003}' || c
            == '\u{2004}' || c == '\u{2005}' || c == '\u{2006}' || c == '\u{2007}' || c
            == '\u{2008}' || c == '\u{2009}' || c == '\u{200A}' || c == '\u{2028}' || c
            == '\u{2029}' || c == '\u{202F}' || c == '\u{205F}' || c == '\u{3000}',
{
}

/// A port is read back from its decimal digits, and whatever is read as a port is
/// written with those digits again, but for zeros and a plus sign in front.
pub proof fn ports_that_are_read_are_ports(s: &str, r: Option<u16>, t: &str, q: Option<u16>)
    requires
        call_ensures(parse_port, (s,), r),
        call_ensures(parse_port, (t,), q),
    ensures
        r matches Some(port) ==> (t@ == decimal(port as nat) ==> q == r),
        t@ == seq!['0'] + s@ && (s@.len() > 0 && s@[0] != '+') ==> q == r,
{
    if let Some(port) = r {
        if t@ == decimal(port as nat) {
            ports_are_read_back(port);
        }
    }
    if t@ == seq!['0'] + s@ && s@.len() > 0 && s@[0] != '+' {
        leading_zeros_count_nothing(s@);
        assert(t@[0] == '0');
        if all_digits(s@) {
            assert forall|i: int| 0 <= i < t@.len() implies is_digit(#[trigger] t@[i]) by {
                if i > 0 {
                    assert(is_digit(s@[i - 1]));
                }
            }
        } else {
            let i = choose|i: int| 0 <= i < s@.len() && !is_digit(#[trigger] s@[i]);
            assert(t@[i + 1] == s@[i]);
            assert(!is_digit(t@[i + 1]));
        }
    }
}

proof fn leading_zeros_count_nothing(s: Seq<char>)
    ensures
        number(seq!['0'] + s) == number(s),
    decreases s.len(),
{
    reveal_with_fuel(number, 2);
    let whole = seq!['0'] + s;
    if s.len() > 0 {
        leading_zeros_count_nothing(s.drop_last());
        assert(whole.drop_last() =~= seq!['0'] + s.drop_last());
        assert(whole.last() == s.last());
    } else {
        assert(whole =~= seq!['0']);
        assert(whole.drop_last() =~= seq![]);
    }
}

/// What the string operations give back, character by character.
pub proof fn operations_do_what_they_say(
    s: &str,
    part: &str,
    low: String,
    has: bool,
    ends: bool,
    head: Option<String>,
    bare: String,
    equal: bool,
)
    requires
        call_ensures(lowercase, (s,), low),
        call_ensures(contains, (s, part), has),
        call_ensures(ends_with, (s, part), ends),
        call_ensures(strip_suffix, (s, part), head),
        call_ensures(trimmed, (s,), bare),
        call_ensures(same, (s, part), equal),
    ensures
        low@.len() == s@.len(),
        forall|i: int|
            0 <= i < s@.len() ==> #[trigger] low@[i] as int == s@[i] as int + (if 'A' <= s@[i]
                && s@[i] <= 'Z' {
                32int
            } else {
                0int
            }),
        has <==> exists|a: Seq<char>, b: Seq<char>| s@ == #[trigger] (a + part@ + b),
        ends <==> exists|a: Seq<char>| s@ == #[trigger] (a + part@),
        head is Some <==> ends,
        head is Some ==> head->0@ + part@ == s@,
        equal <==> s@ == part@,
        bare@.len() > 0 ==> !is_white(bare@[0]) && !is_white(bare@.last()),
        bare@.len() <= s@.len(),
{
    capitals_become_small(s@);
    trimming_takes_the_ends_off(s@);
    if has {
        parts_split_the_text(s@, part@);
    }
    assert forall|a: Seq<char>, b: Seq<char>| s@ == #[trigger] (a + part@ + b) implies has by {
        parts_that_are_put_in_are_there(a, part@, b);
    }
    if ends {
        let a = s@.take(s@.len() - part@.len());
        assert(s@ =~= a + part@);
    }
    assert forall|a: Seq<char>| s@ == #[trigger] (a + part@) implies ends by {
        assert(part@ =~= s@.subrange(s@.len() - part@.len(), s@.len() as int));
    }
}

/// A number is written with the digits that it is read back from.
pub proof fn numbers_are_written_in_decimal(n: u64, r: String)
    requires
        call_ensures(decimal_text, (n,), r),
    ensures
        r@.len() > 0,
        forall|i: int| 0 <= i < r@.len() ==> '0' <= #[trigger] r@[i] <= '9',
        r@[0] == '0' <==> n == 0,
        number(r@) == n,
{
    decimals_are_read_back(n as nat, 0);
}

/// A text that is too long is cut to a beginning of it, and the cut is marked; a
/// text that is short enough is kept. Lower case keeps what is lower case.
pub proof fn cuts_are_marked(s: &str, max: usize, cut: String, low: String)
    requires
        call_ensures(truncate, (s, max), cut),
        call_ensures(small_letters, (s,), low),
    ensures
        byte_len(s@) <= max ==> cut@ == s@,
        byte_len(s@) > max ==> cut@.len() > 0 && cut@.last() == '\u{2026}' && cut@.drop_last()
            == s@.take(cut@.len() - 1) && byte_len(cut@.drop_last()) <= max,
        (forall|i: int| 0 <= i < s@.len() ==> '!' <= #[trigger] s@[i] && s@[i] <= '~' && !('A' <= s@[i]
            && s@[i] <= 'Z')) ==> low@ == s@,
{
    long_texts_are_cut(s@, max as nat);
    if forall|i: int| 0 <= i < s@.len() ==> '!' <= #[trigger] s@[i] && s@[i] <= '~' && !('A' <= s@[i]
        && s@[i] <= 'Z') {
        common_capitals_become_small(s@);
        assert(low@ =~= s@);
    }
}

/// A text with any other character is put in lower case as a whole, as the standard
/// library does it.
pub proof fn other_characters_become_small_as_usual(s: &str, i: int, r: String)
    requires
        call_ensures(small_letters, (s,), r),
        0 <= i < s@.len(),
        s@[i] > '\u{7F}',
        s@[i] != '\u{212A}',
    ensures
        r@ == unicode_lower(s@),
{
    assert(!is_common(s@[i]));
}

} // verus!
