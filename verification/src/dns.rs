use vstd::prelude::*;

use crate::text::{string_from_chars};

verus! {

/// `s` without its trailing dots.
pub open spec fn trim_end_dots(s: Seq<char>) -> Seq<char>
    decreases s.len(),
{
    if s.len() > 0 && s.last() == '.' {
        trim_end_dots(s.drop_last())
    } else {
        s
    }
}

/// ASCII lower case of one character; other characters stay as they are.
pub open spec fn ascii_lower(c: char) -> char {
    if 'A' <= c && c <= 'Z' {
        ((c as u8) + 32) as char
    } else {
        c
    }
}

/// Equality of two strings up to ASCII case.
pub open spec fn eq_ignore_ascii_case(a: Seq<char>, b: Seq<char>) -> bool {
    &&& a.len() == b.len()
    &&& forall|i: int| 0 <= i < a.len() ==> ascii_lower(#[trigger] a[i]) == ascii_lower(b[i])
}

/// Two DNS names are the same when they match up to ASCII case, ignoring
/// trailing dots.
pub open spec fn same_dns_name_spec(a: Seq<char>, b: Seq<char>) -> bool {
    eq_ignore_ascii_case(trim_end_dots(a), trim_end_dots(b))
}

/// The separator between a service prefix and the target of an HTTPS query name.
pub open spec fn https_marker() -> Seq<char> {
    seq!['.', '_', 'h', 't', 't', 'p', 's', '.']
}

/// The first position at or after `from` where `needle` occurs in `hay`.
pub open spec fn find_from(hay: Seq<char>, needle: Seq<char>, from: int) -> Option<int>
    decreases hay.len() + 1 - from,
{
    if from < 0 || from + needle.len() > hay.len() {
        None
    } else if hay.subrange(from, from + needle.len()) == needle {
        Some(from)
    } else {
        find_from(hay, needle, from + 1)
    }
}

/// Splits `_<prefix>._https.<target>` at the first separator; `None` when
/// the name does not start with `_` or holds no separator.
pub open spec fn split_service(s: Seq<char>) -> Option<(Seq<char>, Seq<char>)> {
    if s.len() > 0 && s[0] == '_' {
        let rest = s.drop_first();
        match find_from(rest, https_marker(), 0) {
            Some(i) => Some((rest.take(i), rest.skip(i + 8))),
            None => None,
        }
    } else {
        None
    }
}

/// A query name refers to the server when it is the server's name or an
/// HTTPS service name `_<port>._https.<server>`.
pub open spec fn matches_server_name_spec(query: Seq<char>, server: Seq<char>) -> bool {
    ||| same_dns_name_spec(query, server)
    ||| match split_service(trim_end_dots(query)) {
        Some((_, target)) => same_dns_name_spec(target, server),
        None => false,
    }
}

/// The query name with the server `from` replaced by `to`, as an absolute
/// name with one trailing dot.
pub open spec fn rewrite_https_query_name_spec(query: Seq<char>, from: Seq<char>, to: Seq<char>) -> Seq<char> {
    let q = trim_end_dots(query);
    let f = trim_end_dots(from);
    let t = trim_end_dots(to);
    match split_service(q) {
        Some((prefix, target)) if eq_ignore_ascii_case(target, f) => seq!['_'] + prefix
            + https_marker() + t + seq!['.'],
        _ => if eq_ignore_ascii_case(q, f) {
            t + seq!['.']
        } else {
            q + seq!['.']
        },
    }
}

/// Whether a character is an ASCII digit.
pub open spec fn is_digit(c: char) -> bool {
    '0' <= c && c <= '9'
}

/// The value of a string of decimal digits.
pub open spec fn digits_value(d: Seq<char>) -> int
    decreases d.len(),
{
    if d.len() == 0 {
        0
    } else {
        digits_value(d.drop_last()) * 10 + (d.last() as int - 48)
    }
}

/// What `u16::from_str` accepts: an optional `+`, then at least one decimal
/// digit, of value at most 65535.
pub open spec fn parse_u16_spec(s: Seq<char>) -> Option<u16> {
    let d = unsigned_digits(s);
    if d.len() > 0 && all_digits(d) && digits_value(d) <= 65535 {
        Some(digits_value(d) as u16)
    } else {
        None
    }
}

/// The digits of an unsigned number: the text after an optional `+`.
pub open spec fn unsigned_digits(s: Seq<char>) -> Seq<char> {
    if s.len() > 0 && s[0] == '+' {
        s.drop_first()
    } else {
        s
    }
}

/// Whether every character is an ASCII digit.
pub open spec fn all_digits(d: Seq<char>) -> bool {
    forall|i: int| 0 <= i < d.len() ==> is_digit(#[trigger] d[i])
}

/// The port of an HTTPS service query name `_<port>._https.<target>`.
pub open spec fn parse_https_service_port_spec(query: Seq<char>) -> Option<u16> {
    match split_service(trim_end_dots(query)) {
        Some((prefix, _)) => parse_u16_spec(prefix),
        None => None,
    }
}

/// The characters of a string.
pub fn chars_of(s: &str) -> (r: Vec<char>)
    ensures
        r@ == s@,
{
    let n = s.unicode_len();
    let mut r: Vec<char> = Vec::new();
    let mut i: usize = 0;
    while i < n
        invariant
            n == s@.len(),
            0 <= i <= n,
            r@ == s@.take(i as int),
        decreases n - i,
    {
        r.push(s.get_char(i));
        proof {
            assert(s@.take(i as int).push(s@[i as int]) =~= s@.take(i + 1));
        }
        i = i + 1;
    }
    proof {
        assert(s@.take(n as int) =~= s@);
    }
    r
}

/// `trim_end_dots` keeps a prefix.
proof fn lemma_trim_prefix(s: Seq<char>)
    ensures
        trim_end_dots(s).len() <= s.len(),
        trim_end_dots(s) == s.take(trim_end_dots(s).len() as int),
    decreases s.len(),
{
    if s.len() > 0 && s.last() == '.' {
        lemma_trim_prefix(s.drop_last());
        assert(s.drop_last().take(trim_end_dots(s).len() as int) =~= s.take(
            trim_end_dots(s).len() as int,
        ));
    } else {
        assert(s.take(s.len() as int) =~= s);
    }
}

/// Trimming a prefix that ends where the dots start.
proof fn lemma_trim_at(s: Seq<char>, k: int)
    requires
        0 <= k <= s.len(),
        forall|j: int| k <= j < s.len() ==> s[j] == '.',
        k == 0 || s[k - 1] != '.',
    ensures
        trim_end_dots(s) == s.take(k),
    decreases s.len(),
{
    if s.len() > k {
        assert(s.last() == '.');
        lemma_trim_at(s.drop_last(), k);
        assert(s.drop_last().take(k) =~= s.take(k));
    } else {
        assert(s.take(k) =~= s);
        if s.len() > 0 {
            assert(s.last() == s[k - 1]);
        }
    }
}

/// The characters of `s` without trailing dots.
pub fn trim_end_dots_chars(s: &Vec<char>) -> (r: Vec<char>)
    ensures
        r@ == trim_end_dots(s@),
{
    let mut k = s.len();
    while k > 0 && s[k - 1] == '.'
        invariant
            k <= s@.len(),
            forall|j: int| k <= j < s@.len() ==> s@[j] == '.',
        decreases k,
    {
        k = k - 1;
    }
    proof {
        lemma_trim_at(s@, k as int);
    }
    slice_chars(s, 0, k)
}

/// The characters of `s` between `lo` and `hi`.
pub fn slice_chars(s: &Vec<char>, lo: usize, hi: usize) -> (r: Vec<char>)
    requires
        lo <= hi <= s@.len(),
    ensures
        r@ == s@.subrange(lo as int, hi as int),
{
    let mut r: Vec<char> = Vec::new();
    let mut i = lo;
    while i < hi
        invariant
            lo <= i <= hi,
            hi <= s@.len(),
            r@ == s@.subrange(lo as int, i as int),
        decreases hi - i,
    {
        r.push(s[i]);
        proof {
            assert(s@.subrange(lo as int, i as int).push(s@[i as int]) =~= s@.subrange(
                lo as int,
                i + 1,
            ));
        }
        i = i + 1;
    }
    r
}

fn lower(c: char) -> (r: char)
    ensures
        r == ascii_lower(c),
{
    if 'A' <= c && c <= 'Z' {
        ((c as u8) + 32) as char
    } else {
        c
    }
}

/// ASCII case-insensitive comparison of two character strings.
pub fn chars_eq_ignore_ascii_case(a: &Vec<char>, b: &Vec<char>) -> (r: bool)
    ensures
        r == eq_ignore_ascii_case(a@, b@),
{
    if a.len() != b.len() {
        return false;
    }
    let n = a.len();
    let mut i: usize = 0;
    while i < n
        invariant
            n == a@.len(),
            n == b@.len(),
            0 <= i <= n,
            forall|j: int| 0 <= j < i ==> ascii_lower(#[trigger] a@[j]) == ascii_lower(b@[j]),
        decreases n - i,
    {
        if lower(a[i]) != lower(b[i]) {
            return false;
        }
        i = i + 1;
    }
    true
}

/// Whether two DNS names are the same up to ASCII case and trailing dots.
pub fn same_dns_name(left: &str, right: &str) -> (r: bool)
    ensures
        r == same_dns_name_spec(left@, right@),
{
    let l = chars_of(left);
    let r = chars_of(right);
    same_dns_name_chars(&l, &r)
}

fn same_dns_name_chars(left: &Vec<char>, right: &Vec<char>) -> (r: bool)
    ensures
        r == same_dns_name_spec(left@, right@),
{
    let l = trim_end_dots_chars(left);
    let r = trim_end_dots_chars(right);
    chars_eq_ignore_ascii_case(&l, &r)
}

/// Whether the HTTPS marker occurs in `hay` at position `at`.
fn marker_at(hay: &Vec<char>, at: usize) -> (r: bool)
    requires
        at + 8 <= hay@.len(),
    ensures
        r == (hay@.subrange(at as int, at + 8) == https_marker()),
{
    let n = hay.len();
    assert(at + 8 <= n);
    let r = hay[at] == '.' && hay[at + 1] == '_' && hay[at + 2] == 'h' && hay[at + 3] == 't'
        && hay[at + 4] == 't' && hay[at + 5] == 'p' && hay[at + 6] == 's' && hay[at + 7] == '.';
    proof {
        if r {
            assert(hay@.subrange(at as int, at + 8) =~= https_marker());
        } else {
            if hay@.subrange(at as int, at + 8) == https_marker() {
                assert(hay@.subrange(at as int, at + 8)[0] == https_marker()[0]);
                assert(hay@.subrange(at as int, at + 8)[1] == https_marker()[1]);
                assert(hay@.subrange(at as int, at + 8)[2] == https_marker()[2]);
                assert(hay@.subrange(at as int, at + 8)[3] == https_marker()[3]);
                assert(hay@.subrange(at as int, at + 8)[4] == https_marker()[4]);
                assert(hay@.subrange(at as int, at + 8)[5] == https_marker()[5]);
                assert(hay@.subrange(at as int, at + 8)[6] == https_marker()[6]);
                assert(hay@.subrange(at as int, at + 8)[7] == https_marker()[7]);
            }
        }
    }
    r
}

/// The first position of the HTTPS marker in `hay`.
fn find_marker(hay: &Vec<char>) -> (r: Option<usize>)
    ensures
        r matches Some(i) ==> find_from(hay@, https_marker(), 0) == Some(i as int),
        r is None ==> find_from(hay@, https_marker(), 0) is None,
{
    let n = hay.len();
    let mut i: usize = 0;
    while i < n && n - i >= 8
        invariant
            n == hay@.len(),
            i <= n,
            find_from(hay@, https_marker(), 0) == find_from(hay@, https_marker(), i as int),
        decreases n - i,
    {
        if marker_at(hay, i) {
            return Some(i);
        }
        i = i + 1;
    }
    None
}

/// A found position lies inside the haystack.
proof fn lemma_find_from_bounds(hay: Seq<char>, needle: Seq<char>, from: int)
    ensures
        find_from(hay, needle, from) matches Some(i) ==> from <= i && i + needle.len() <= hay.len()
            && hay.subrange(i, i + needle.len()) == needle,
    decreases hay.len() + 1 - from,
{
    if !(from < 0 || from + needle.len() > hay.len()) && hay.subrange(from, from + needle.len())
        != needle {
        lemma_find_from_bounds(hay, needle, from + 1);
    }
}

/// Splits `_<prefix>._https.<target>` into prefix and target.
pub fn split_service_chars(s: &Vec<char>) -> (r: Option<(Vec<char>, Vec<char>)>)
    ensures
        match split_service(s@) {
            Some((p, t)) => r matches Some(v) && v.0@ == p && v.1@ == t,
            None => r is None,
        },
{
    if s.len() == 0 || s[0] != '_' {
        return None;
    }
    let rest = slice_chars(s, 1, s.len());
    assert(rest@ =~= s@.drop_first());
    match find_marker(&rest) {
        Some(i) => {
            proof {
                lemma_find_from_bounds(rest@, https_marker(), 0);
            }
            let prefix = slice_chars(&rest, 0, i);
            let target = slice_chars(&rest, i + 8, rest.len());
            assert(prefix@ =~= rest@.take(i as int));
            assert(target@ =~= rest@.skip(i + 8));
            Some((prefix, target))
        },
        None => None,
    }
}

/// Whether a query name refers to `server_name`, directly or as an HTTPS
/// service name for it.
pub fn matches_server_name(query_name: &str, server_name: &str) -> (r: bool)
    ensures
        r == matches_server_name_spec(query_name@, server_name@),
{
    let q = chars_of(query_name);
    let server = chars_of(server_name);
    if same_dns_name_chars(&q, &server) {
        return true;
    }
    let trimmed = trim_end_dots_chars(&q);
    match split_service_chars(&trimmed) {
        Some((_, target)) => same_dns_name_chars(&target, &server),
        None => false,
    }
}

/// Appends the characters of `b` to `a`.
fn push_all(a: &mut Vec<char>, b: &Vec<char>)
    ensures
        final(a)@ == old(a)@ + b@,
{
    let n = b.len();
    let mut i: usize = 0;
    let ghost a0 = a@;
    while i < n
        invariant
            n == b@.len(),
            0 <= i <= n,
            a@ == a0 + b@.take(i as int),
        decreases n - i,
    {
        a.push(b[i]);
        proof {
            assert(a0 + b@.take(i as int).push(b@[i as int]) =~= a0 + b@.take(i + 1));
        }
        i = i + 1;
    }
    proof {
        assert(b@.take(n as int) =~= b@);
    }
}

/// Rewrites a query name for the server `from_server` into one for
/// `to_server`, keeping an HTTPS service prefix, as an absolute name.
pub fn rewrite_https_query_name(query_name: &str, from_server: &str, to_server: &str) -> (r: String)
    ensures
        r@ == rewrite_https_query_name_spec(query_name@, from_server@, to_server@),
{
    let q = trim_end_dots_chars(&chars_of(query_name));
    let f = trim_end_dots_chars(&chars_of(from_server));
    let t = trim_end_dots_chars(&chars_of(to_server));
    let mut out: Vec<char> = Vec::new();
    match split_service_chars(&q) {
        Some((prefix, target)) => {
            if chars_eq_ignore_ascii_case(&target, &f) {
                out.push('_');
                push_all(&mut out, &prefix);
                let marker = https_marker_chars();
                push_all(&mut out, &marker);
                push_all(&mut out, &t);
                out.push('.');
                assert(out@ =~= seq!['_'] + prefix@ + https_marker() + t@ + seq!['.']);
                return string_from_chars(out);
            }
        },
        None => {},
    }
    if chars_eq_ignore_ascii_case(&q, &f) {
        push_all(&mut out, &t);
    } else {
        push_all(&mut out, &q);
    }
    out.push('.');
    assert(out@ =~= (if eq_ignore_ascii_case(q@, f@) { t@ } else { q@ }) + seq!['.']);
    string_from_chars(out)
}

fn https_marker_chars() -> (r: Vec<char>)
    ensures
        r@ == https_marker(),
{
    let mut r: Vec<char> = Vec::new();
    r.push('.');
    r.push('_');
    r.push('h');
    r.push('t');
    r.push('t');
    r.push('p');
    r.push('s');
    r.push('.');
    assert(r@ =~= https_marker());
    r
}

/// Parses a port the way `u16::from_str` does.
pub fn parse_u16(s: &Vec<char>) -> (r: Option<u16>)
    ensures
        r == parse_u16_spec(s@),
{
    let start: usize = if s.len() > 0 && s[0] == '+' {
        1
    } else {
        0
    };
    let ghost d = unsigned_digits(s@);
    assert(d =~= s@.skip(start as int));
    if start == s.len() {
        return None;
    }
    let mut value: u32 = 0;
    let mut overflow = false;
    let mut i = start;
    while i < s.len()
        invariant
            start <= i <= s@.len(),
            d == s@.skip(start as int),
            d == unsigned_digits(s@),
            forall|j: int| start <= j < i ==> is_digit(#[trigger] s@[j]),
            !overflow ==> value as int == digits_value(s@.subrange(start as int, i as int)),
            !overflow ==> value <= 65535,
            overflow ==> digits_value(s@.subrange(start as int, i as int)) > 65535,
        decreases s@.len() - i,
    {
        let c = s[i];
        if !('0' <= c && c <= '9') {
            proof {
                let k = i - start;
                assert(d[k] == c);
                assert(!is_digit(d[k]));
                assert(!all_digits(d));
            }
            return None;
        }
        proof {
            let sub = s@.subrange(start as int, i + 1);
            assert(sub.drop_last() =~= s@.subrange(start as int, i as int));
            assert(sub.last() == c);
            lemma_digits_value_nonneg(s@.subrange(start as int, i as int));
        }
        if !overflow {
            let next = value * 10 + ((c as u32) - 48);
            if next > 65535 {
                overflow = true;
            } else {
                value = next;
            }
        }
        i = i + 1;
    }
    proof {
        assert(s@.subrange(start as int, s@.len() as int) =~= d);
        assert forall|j: int| 0 <= j < d.len() implies is_digit(#[trigger] d[j]) by {
            assert(d[j] == s@[start + j]);
        }
        assert(all_digits(d));
    }
    if overflow {
        None
    } else {
        Some(value as u16)
    }
}

proof fn lemma_digits_value_nonneg(d: Seq<char>)
    requires
        forall|i: int| 0 <= i < d.len() ==> is_digit(#[trigger] d[i]),
    ensures
        digits_value(d) >= 0,
    decreases d.len(),
{
    if d.len() > 0 {
        assert forall|i: int| 0 <= i < d.drop_last().len() implies is_digit(
            #[trigger] d.drop_last()[i],
        ) by {
            assert(d.drop_last()[i] == d[i]);
        }
        lemma_digits_value_nonneg(d.drop_last());
        assert(is_digit(d[d.len() - 1]));
    }
}

/// The port of an HTTPS service query name `_<port>._https.<target>`.
pub fn parse_https_service_port(query_name: &str) -> (r: Option<u16>)
    ensures
        r == parse_https_service_port_spec(query_name@),
{
    let q = trim_end_dots_chars(&chars_of(query_name));
    match split_service_chars(&q) {
        Some((prefix, _)) => parse_u16(&prefix),
        None => None,
    }
}


/// How Encrypted Client Hello configuration is supplied for the proxy.
#[derive(Clone, Debug, PartialEq, Eq)]
pub struct EchOptions {
    /// TLS server name that HTTPS records are answered for.
    pub server_name: String,
    /// Name queried upstream for HTTPS records before answers are rewritten.
    pub query_server_name: String,
    /// Fixed ECHConfigList injected into answers; empty to query upstream.
    pub config_list: Vec<u8>,
    /// Whether the tunnel uses HTTP/3.
    pub quic: bool,
}

/// DNS record type of an IPv4 address record.
pub const RECORD_TYPE_A: u16 = 1;

/// DNS record type of an IPv6 address record.
pub const RECORD_TYPE_AAAA: u16 = 28;

/// DNS record type of an HTTPS service binding record.
pub const RECORD_TYPE_HTTPS: u16 = 65;

/// Service parameter key of an IPv4 address hint.
pub const SVC_PARAM_IPV4_HINT: u16 = 4;

/// Service parameter key of an IPv6 address hint.
pub const SVC_PARAM_IPV6_HINT: u16 = 6;

/// An IP address literal: four IPv4 octets or eight IPv6 groups.
#[derive(Clone, Copy, Debug, PartialEq, Eq, Structural)]
pub enum IpLiteral {
    V4(u8, u8, u8, u8),
    V6(u16, u16, u16, u16, u16, u16, u16, u16),
}

/// What happens to a query while the resolver redirects the server name.
#[derive(Clone, Copy, Debug, PartialEq, Eq, Structural)]
pub enum RedirectPlan {
    /// The resolver answers the query as asked.
    PassThrough,
    /// The query is answered locally: with an address record for the
    /// question's name and a time to live of 300 seconds, or with no answer
    /// when the address family does not match the question.
    Synthesize(Option<IpLiteral>),
    /// The resolver is asked for the server address instead, and address
    /// answers for it are renamed back to the server name.
    Forward,
}

/// The redirect decision for a query whose first question is `question`
/// (its name and record type): only A and AAAA questions for the server
/// name are redirected; an IP-literal server address answers them locally.
pub open spec fn redirect_plan_spec(
    question: Option<(Seq<char>, u16)>,
    server_name: Seq<char>,
    server_ip: Option<IpLiteral>,
) -> RedirectPlan {
    match question {
        None => RedirectPlan::PassThrough,
        Some((name, record_type)) => if !(record_type == RECORD_TYPE_A || record_type == RECORD_TYPE_AAAA)
            || !same_dns_name_spec(name, server_name) {
            RedirectPlan::PassThrough
        } else {
            match server_ip {
                Some(ip) => RedirectPlan::Synthesize(
                    if (record_type == RECORD_TYPE_A && ip is V4) || (record_type == RECORD_TYPE_AAAA && ip is V6) {
                        Some(ip)
                    } else {
                        None
                    },
                ),
                None => RedirectPlan::Forward,
            }
        },
    }
}

/// Decides how a query is handled while the server name is redirected to
/// `server_ip` (when the server address is an IP literal) or to the server
/// address otherwise.
pub fn plan_server_redirect(question: Option<(&str, u16)>, server_name: &str, server_ip: Option<IpLiteral>) -> (r: RedirectPlan)
    ensures
        r == redirect_plan_spec(
            match question {
                Some((n, t)) => Some((n@, t)),
                None => None,
            },
            server_name@,
            server_ip,
        ),
{
    match question {
        None => RedirectPlan::PassThrough,
        Some((name, record_type)) => {
            if !(record_type == RECORD_TYPE_A || record_type == RECORD_TYPE_AAAA) || !same_dns_name(name, server_name) {
                return RedirectPlan::PassThrough;
            }
            match server_ip {
                Some(ip) => {
                    let matches = match ip {
                        IpLiteral::V4(..) => record_type == RECORD_TYPE_A,
                        IpLiteral::V6(..) => record_type == RECORD_TYPE_AAAA,
                    };
                    RedirectPlan::Synthesize(if matches { Some(ip) } else { None })
                },
                None => RedirectPlan::Forward,
            }
        },
    }
}

/// Whether an answer to a forwarded query is renamed back to the server
/// name: address records owned by the server address.
pub fn renames_forwarded_answer(is_address: bool, owner: &str, server_address: &str) -> (r: bool)
    ensures
        r == (is_address && same_dns_name_spec(owner@, server_address@)),
{
    is_address && same_dns_name(owner, server_address)
}

/// One service parameter of an injected HTTPS record, in the order the
/// record carries them (by key).
#[derive(Clone, Debug, PartialEq, Eq)]
pub enum SvcParamPlan {
    /// `alpn` with one protocol.
    Alpn(String),
    /// `port`.
    Port(u16),
    /// `ech`: the ECHConfigList bytes.
    EchConfigList(Vec<u8>),
}

/// What happens to a query while ECH configuration is supplied.
#[derive(Clone, Debug, PartialEq, Eq)]
pub enum EchPlan {
    /// The resolver answers the query as asked.
    PassThrough,
    /// The query is answered locally with one HTTPS record of priority 1
    /// and a time to live of 300 seconds, owned by the question's name.
    Inject {
        /// Target name of the record.
        target: String,
        /// Service parameters, ordered by key.
        params: Vec<SvcParamPlan>,
    },
    /// The resolver is asked for `query_name` instead; HTTPS answers for
    /// `from` are renamed back to the server name and lose their IP hints.
    Redirect { query_name: String, from: String },
    /// The resolver answers the query as asked, and HTTPS answers lose their
    /// IP hints.
    Resolve,
}

/// The target of an injected HTTPS record: the target of an HTTPS service
/// name `_<port>._https.<target>`, or the whole name.
pub open spec fn https_target_spec(query: Seq<char>) -> Seq<char> {
    match split_service(query) {
        Some((_, target)) => target,
        None => query,
    }
}

/// The ALPN protocol of the tunnel.
pub open spec fn alpn_for(quic: bool) -> Seq<char> {
    if quic {
        "h3"@
    } else {
        "h2"@
    }
}

/// The view of a service parameter: its key, the protocol identifiers of
/// an `alpn` value, and the wire bytes of any other value.
pub open spec fn svc_param_view(p: SvcParamPlan) -> (u16, Seq<Seq<char>>, Seq<u8>) {
    match p {
        SvcParamPlan::Alpn(a) => (1u16, seq![a@], Seq::empty()),
        SvcParamPlan::Port(port) => (3u16, Seq::empty(), seq![(port / 256) as u8, (port % 256) as u8]),
        SvcParamPlan::EchConfigList(c) => (5u16, Seq::empty(), c@),
    }
}

/// The parameters of an injected HTTPS record, ordered by key: the ALPN
/// of the tunnel, the service port when the query names one, and the
/// ECHConfigList.
pub open spec fn injected_params(query: Seq<char>, quic: bool, config_list: Seq<u8>) -> Seq<(u16, Seq<Seq<char>>, Seq<u8>)> {
    let alpn = seq![(1u16, seq![alpn_for(quic)], Seq::<u8>::empty())];
    let port = match parse_https_service_port_spec(query) {
        Some(p) => seq![(3u16, Seq::<Seq<char>>::empty(), seq![(p / 256) as u8, (p % 256) as u8])],
        None => Seq::empty(),
    };
    alpn + port + seq![(5u16, Seq::<Seq<char>>::empty(), config_list)]
}

/// The name queried upstream for HTTPS records: the configured one, or the
/// server name when none is configured.
pub open spec fn query_server_name_of(options: EchOptions) -> Seq<char> {
    if options.query_server_name@.len() == 0 {
        options.server_name@
    } else {
        options.query_server_name@
    }
}

/// The ECH decision for a query whose first question is `question`: only
/// HTTPS questions for the server name are handled; a fixed ECHConfigList
/// answers them locally, otherwise a different query name is asked for
/// upstream.
pub open spec fn ech_plan_matches(question: Option<(Seq<char>, u16)>, options: EchOptions, r: EchPlan) -> bool {
    match question {
        None => r is PassThrough,
        Some((name, record_type)) => if record_type != RECORD_TYPE_HTTPS || !matches_server_name_spec(
            name,
            options.server_name@,
        ) {
            r is PassThrough
        } else if options.config_list@.len() > 0 {
            r matches EchPlan::Inject { target, params } && target@ == https_target_spec(name)
                && params@.map_values(|p: SvcParamPlan| svc_param_view(p)) == injected_params(
                name,
                options.quic,
                options.config_list@,
            )
        } else if !same_dns_name_spec(query_server_name_of(options), options.server_name@) {
            r matches EchPlan::Redirect { query_name, from } && query_name@ == rewrite_https_query_name_spec(
                name,
                options.server_name@,
                query_server_name_of(options),
            ) && from@ == query_server_name_of(options)
        } else {
            r is Resolve
        },
    }
}

/// The target of an HTTPS query name.
fn https_target(query_name: &str) -> (r: String)
    ensures
        r@ == https_target_spec(query_name@),
{
    let q = chars_of(query_name);
    match split_service_chars(&q) {
        Some((_, target)) => string_from_chars(target),
        None => String::from_str(query_name),
    }
}

fn copy_text(s: &String) -> (r: String)
    ensures
        r@ == s@,
{
    s.clone()
}

/// Decides how a query is handled while ECH configuration is supplied.
pub fn plan_ech(question: Option<(&str, u16)>, options: &EchOptions) -> (r: EchPlan)
    ensures
        ech_plan_matches(
            match question {
                Some((n, t)) => Some((n@, t)),
                None => None,
            },
            *options,
            r,
        ),
{
    let (name, record_type) = match question {
        None => return EchPlan::PassThrough,
        Some(q) => q,
    };
    if record_type != RECORD_TYPE_HTTPS || !matches_server_name(name, options.server_name.as_str()) {
        return EchPlan::PassThrough;
    }
    if options.config_list.len() > 0 {
        let mut params: Vec<SvcParamPlan> = Vec::new();
        let alpn = if options.quic { String::from_str("h3") } else { String::from_str("h2") };
        params.push(SvcParamPlan::Alpn(alpn));
        let port = parse_https_service_port(name);
        match port {
            Some(p) => params.push(SvcParamPlan::Port(p)),
            None => {},
        }
        params.push(SvcParamPlan::EchConfigList(options.config_list.clone()));
        proof {
            assert(params@.map_values(|p: SvcParamPlan| svc_param_view(p)) =~= injected_params(
                name@,
                options.quic,
                options.config_list@,
            ));
        }
        return EchPlan::Inject { target: https_target(name), params };
    }
    let query_server_name = if options.query_server_name.as_str().unicode_len() == 0 {
        copy_text(&options.server_name)
    } else {
        copy_text(&options.query_server_name)
    };
    if !same_dns_name(query_server_name.as_str(), options.server_name.as_str()) {
        let query_name = rewrite_https_query_name(name, options.server_name.as_str(), query_server_name.as_str());
        EchPlan::Redirect { query_name, from: query_server_name }
    } else {
        EchPlan::Resolve
    }
}

/// How an HTTPS answer to a redirected query is renamed: a new owner name
/// when rewriting it from `from` to `to` changes it, and a new target when
/// the target is `from`.
pub open spec fn https_answer_edit_spec(owner: Seq<char>, target: Seq<char>, from: Seq<char>, to: Seq<char>) -> (
    Option<Seq<char>>,
    Option<Seq<char>>,
) {
    let rewritten = rewrite_https_query_name_spec(owner, from, to);
    (
        if !same_dns_name_spec(rewritten, owner) {
            Some(rewritten)
        } else {
            None
        },
        if same_dns_name_spec(target, from) {
            Some(to)
        } else {
            None
        },
    )
}

/// The renaming of one HTTPS answer to a redirected query.
pub fn https_answer_edit(owner: &str, target: &str, from: &str, to: &str) -> (r: (Option<String>, Option<String>))
    ensures
        https_answer_edit_spec(owner@, target@, from@, to@) == (
            match r.0 {
                Some(s) => Some(s@),
                None => None,
            },
            match r.1 {
                Some(s) => Some(s@),
                None => None,
            },
        ),
{
    let rewritten = rewrite_https_query_name(owner, from, to);
    let new_owner = if !same_dns_name(rewritten.as_str(), owner) {
        Some(rewritten)
    } else {
        None
    };
    let new_target = if same_dns_name(target, from) {
        Some(String::from_str(to))
    } else {
        None
    };
    (new_owner, new_target)
}

/// Whether an HTTPS answer keeps a service parameter: every one but the
/// IPv4 and IPv6 address hints.
pub fn keeps_svc_param(key: u16) -> (r: bool)
    ensures
        r == (key != SVC_PARAM_IPV4_HINT && key != SVC_PARAM_IPV6_HINT),
{
    key != SVC_PARAM_IPV4_HINT && key != SVC_PARAM_IPV6_HINT
}
} // verus!

verus! {

/// Being the same DNS name is an equivalence: every name is the same as
/// itself, the relation is symmetric, and it is transitive.
pub proof fn lemma_same_dns_name_equivalence(a: Seq<char>, b: Seq<char>, c: Seq<char>)
    ensures
        same_dns_name_spec(a, a),
        same_dns_name_spec(a, b) ==> same_dns_name_spec(b, a),
        same_dns_name_spec(a, b) && same_dns_name_spec(b, c) ==> same_dns_name_spec(a, c),
{
    let ta = trim_end_dots(a);
    let tb = trim_end_dots(b);
    let tc = trim_end_dots(c);
    if same_dns_name_spec(a, b) && same_dns_name_spec(b, c) {
        assert forall|i: int| 0 <= i < ta.len() implies ascii_lower(#[trigger] ta[i]) == ascii_lower(tc[i]) by {
            assert(ascii_lower(ta[i]) == ascii_lower(tb[i]));
            assert(ascii_lower(tb[i]) == ascii_lower(tc[i]));
        }
    }
    if same_dns_name_spec(a, b) {
        assert forall|i: int| 0 <= i < tb.len() implies ascii_lower(#[trigger] tb[i]) == ascii_lower(ta[i]) by {
            assert(ascii_lower(ta[i]) == ascii_lower(tb[i]));
        }
    }
}


/// A trimmed name does not end in a dot, and trimming it again changes
/// nothing.
proof fn lemma_trim_idempotent(s: Seq<char>)
    ensures
        trim_end_dots(s).len() > 0 ==> trim_end_dots(s).last() != '.',
        trim_end_dots(trim_end_dots(s)) == trim_end_dots(s),
    decreases s.len(),
{
    if s.len() > 0 && s.last() == '.' {
        lemma_trim_idempotent(s.drop_last());
    }
}

/// A trailing dot does not matter to trimming.
proof fn lemma_trim_dot(s: Seq<char>)
    ensures
        trim_end_dots(s + seq!['.']) == trim_end_dots(s),
{
    let t = s + seq!['.'];
    assert(t.last() == '.');
    assert(t.drop_last() =~= s);
}

/// A name that does not end in a dot is its own trimming.
proof fn lemma_trim_plain(s: Seq<char>)
    requires
        s.len() > 0,
        s.last() != '.',
    ensures
        trim_end_dots(s) == s,
{
}

/// Every name agrees with itself up to ASCII case.
proof fn lemma_eq_ignore_case_refl(a: Seq<char>)
    ensures
        eq_ignore_ascii_case(a, a),
{
}

/// Searching two texts that agree up to the end of the first match finds
/// the same first match.
proof fn lemma_find_same_prefix(h1: Seq<char>, h2: Seq<char>, n: Seq<char>, j: int, i: int)
    requires
        find_from(h1, n, j) == Some(i),
        0 <= j <= i,
        i + n.len() <= h1.len(),
        i + n.len() <= h2.len(),
        h1.subrange(0, i + n.len()) == h2.subrange(0, i + n.len()),
    ensures
        find_from(h2, n, j) == Some(i),
    decreases i - j,
{
    lemma_find_from_bounds(h1, n, j);
    assert(h1.subrange(j, j + n.len()) =~= h2.subrange(j, j + n.len())) by {
        assert forall|k: int| 0 <= k < n.len() implies #[trigger] h1.subrange(j, j + n.len())[k] == h2.subrange(
            j,
            j + n.len(),
        )[k] by {
            assert(h1.subrange(j, j + n.len())[k] == h1[j + k]);
            assert(h2.subrange(j, j + n.len())[k] == h2[j + k]);
            assert(h1.subrange(0, i + n.len())[j + k] == h1[j + k]);
            assert(h2.subrange(0, i + n.len())[j + k] == h2[j + k]);
            assert(h1.subrange(0, i + n.len())[j + k] == h2.subrange(0, i + n.len())[j + k]);
        }
    }
    if h1.subrange(j, j + n.len()) != n {
        lemma_find_same_prefix(h1, h2, n, j + 1, i);
    }
}

/// Redirecting an HTTPS query name from server `a` to server `b` and then
/// back from `b` to `a` gives the name that was asked (up to ASCII case
/// and trailing dots): answers to a redirected ECH query are owned by the
/// query name that was asked again. `b` must be a name (not empty or only dots).
pub proof fn lemma_rewrite_round_trip(q: Seq<char>, a: Seq<char>, b: Seq<char>)
    requires
        matches_server_name_spec(q, a),
        trim_end_dots(b).len() > 0,
    ensures
        same_dns_name_spec(
            rewrite_https_query_name_spec(rewrite_https_query_name_spec(q, a, b), b, a),
            q,
        ),
{
    let qt = trim_end_dots(q);
    let at = trim_end_dots(a);
    let bt = trim_end_dots(b);
    let m = https_marker();
    lemma_trim_idempotent(q);
    lemma_trim_idempotent(a);
    lemma_trim_idempotent(b);
    lemma_eq_ignore_case_refl(bt);
    let r1 = rewrite_https_query_name_spec(q, a, b);
    match split_service(qt) {
        Some((p, t)) if eq_ignore_ascii_case(t, at) => {
            let rest = qt.drop_first();
            let i = p.len() as int;
            lemma_find_from_bounds(rest, m, 0);
            assert(rest =~= p + m + t);
            assert(qt =~= seq!['_'] + p + m + t);
            if t.len() == 0 {
                assert(qt.last() == '.');
                assert(false);
            }
            assert(r1 == seq!['_'] + p + m + bt + seq!['.']);
            let x1 = seq!['_'] + p + m + bt;
            assert(r1 =~= x1 + seq!['.']);
            lemma_trim_dot(x1);
            assert(x1.last() == bt.last());
            lemma_trim_plain(x1);
            let rest1 = x1.drop_first();
            assert(rest1 =~= p + m + bt);
            assert(rest.subrange(0, i + 8) =~= rest1.subrange(0, i + 8));
            lemma_find_same_prefix(rest, rest1, m, 0, i);
            assert(rest1.take(i) =~= p);
            assert(rest1.skip(i + 8) =~= bt);
            assert(split_service(x1) == Some((p, bt)));
            let r2 = rewrite_https_query_name_spec(r1, b, a);
            assert(r2 == seq!['_'] + p + m + at + seq!['.']);
            let x2 = seq!['_'] + p + m + at;
            assert(r2 =~= x2 + seq!['.']);
            lemma_trim_dot(x2);
            assert(x2.last() == at.last());
            lemma_trim_plain(x2);
            assert(eq_ignore_ascii_case(x2, qt)) by {
                assert forall|k: int| 0 <= k < x2.len() implies ascii_lower(#[trigger] x2[k]) == ascii_lower(
                    qt[k],
                ) by {
                    if k >= 1 + p.len() + 8 {
                        let k2 = k - (1 + p.len() + 8);
                        assert(x2[k] == at[k2]);
                        assert(qt[k] == t[k2]);
                        assert(ascii_lower(t[k2]) == ascii_lower(at[k2]));
                    }
                }
            }
        },
        _ => {
            assert(same_dns_name_spec(q, a)) by {
                if !same_dns_name_spec(q, a) {
                    match split_service(qt) {
                        Some((p, t)) => {
                            let rest = qt.drop_first();
                            lemma_find_from_bounds(rest, m, 0);
                            assert(rest =~= p + m + t);
                            if t.len() > 0 {
                                assert(t.last() == qt.last());
                                lemma_trim_plain(t);
                            }
                        },
                        None => {},
                    }
                }
            }
            assert(r1 == bt + seq!['.']);
            lemma_trim_dot(bt);
            match split_service(bt) {
                Some((p2, t2)) => {
                    let rest = bt.drop_first();
                    lemma_find_from_bounds(rest, m, 0);
                    assert(t2.len() < bt.len());
                },
                None => {},
            }
            let r2 = rewrite_https_query_name_spec(r1, b, a);
            assert(r2 == at + seq!['.']);
            lemma_trim_dot(at);
            assert(eq_ignore_ascii_case(at, qt)) by {
                assert forall|k: int| 0 <= k < at.len() implies ascii_lower(#[trigger] at[k]) == ascii_lower(
                    qt[k],
                ) by {
                    assert(ascii_lower(qt[k]) == ascii_lower(at[k]));
                }
            }
        },
    }
}

} // verus!

verus! {

/// The length of a DNS message sent over TCP, from its two-byte big-endian
/// prefix.
pub fn tcp_message_length(high: u8, low: u8) -> (r: usize)
    ensures
        r == high as nat * 256 + low as nat,
{
    (high as usize) * 256 + (low as usize)
}

/// A DNS response framed for TCP: its length as two big-endian bytes, then
/// the response; `None` when the response is longer than 65535 bytes.
pub fn tcp_framed(response: &[u8]) -> (r: Option<Vec<u8>>)
    ensures
        response@.len() > 65535 ==> r is None,
        response@.len() <= 65535 ==> (r matches Some(framed) && framed@ == seq![
            (response@.len() / 256) as u8,
            (response@.len() % 256) as u8,
        ] + response@),
{
    let n = response.len();
    if n > 65535 {
        return None;
    }
    let mut framed: Vec<u8> = Vec::new();
    framed.push((n / 256) as u8);
    framed.push((n % 256) as u8);
    let mut i: usize = 0;
    while i < n
        invariant
            n == response@.len(),
            n <= 65535,
            0 <= i <= n,
            framed@ == seq![(n / 256) as u8, (n % 256) as u8] + response@.take(i as int),
        decreases n - i,
    {
        framed.push(response[i]);
        proof {
            assert(response@.take(i as int).push(response@[i as int]) =~= response@.take(i + 1));
        }
        i = i + 1;
    }
    proof {
        assert(response@.take(n as int) =~= response@);
    }
    Some(framed)
}

/// The length prefix of a framed response reads back as its length.
pub proof fn lemma_tcp_frame_length(len: nat)
    requires
        len <= 65535,
    ensures
        ((len / 256) as u8) as nat * 256 + ((len % 256) as u8) as nat == len,
{
}


/// Address queries for the server name are always redirected, A and AAAA
/// alike: with a server address that is no IP literal both are forwarded
/// to it; with an IP literal both are answered locally, with the literal
/// exactly when its family is the one asked for. Any other question, or a
/// question for another name, goes to the resolver unchanged.
pub proof fn lemma_redirect_covers_both_address_families(
    name: Seq<char>,
    server_name: Seq<char>,
    record_type: u16,
    server_ip: Option<IpLiteral>,
)
    ensures
        (record_type == RECORD_TYPE_A || record_type == RECORD_TYPE_AAAA) && same_dns_name_spec(name, server_name)
            ==> {
            let plan = redirect_plan_spec(Some((name, record_type)), server_name, server_ip);
            &&& server_ip is None ==> plan == RedirectPlan::Forward
            &&& server_ip matches Some(ip) ==> plan matches RedirectPlan::Synthesize(answer) && match answer {
                Some(a) => a == ip,
                None => !((record_type == RECORD_TYPE_A && ip is V4) || (record_type == RECORD_TYPE_AAAA && ip is V6)),
            }
            &&& redirect_plan_spec(Some((name, RECORD_TYPE_A)), server_name, server_ip) is Forward
                <==> redirect_plan_spec(Some((name, RECORD_TYPE_AAAA)), server_name, server_ip) is Forward
        },
        !((record_type == RECORD_TYPE_A || record_type == RECORD_TYPE_AAAA) && same_dns_name_spec(name, server_name))
            ==> redirect_plan_spec(Some((name, record_type)), server_name, server_ip) == RedirectPlan::PassThrough,
        redirect_plan_spec(None, server_name, server_ip) == RedirectPlan::PassThrough,
{
}

/// After a query for `q` was redirected from the server name to the query
/// server name, the HTTPS answer owned by the name actually asked upstream
/// is renamed back to the name that was asked: its owner after the edit is
/// the same DNS name as `q`, `_<port>._https` service names included; a
/// target naming the query server name points at the server name again.
pub proof fn lemma_answer_owner_renamed_back(
    q: Seq<char>,
    server_name: Seq<char>,
    query_server_name: Seq<char>,
    target: Seq<char>,
)
    requires
        matches_server_name_spec(q, server_name),
        trim_end_dots(query_server_name).len() > 0,
    ensures
        ({
            let asked = rewrite_https_query_name_spec(q, server_name, query_server_name);
            let owner = match https_answer_edit_spec(asked, target, query_server_name, server_name).0 {
                Some(o) => o,
                None => asked,
            };
            same_dns_name_spec(owner, q)
        }),
        same_dns_name_spec(target, query_server_name) ==> https_answer_edit_spec(
            rewrite_https_query_name_spec(q, server_name, query_server_name),
            target,
            query_server_name,
            server_name,
        ).1 == Some(server_name),
{
    let asked = rewrite_https_query_name_spec(q, server_name, query_server_name);
    let back = rewrite_https_query_name_spec(asked, query_server_name, server_name);
    lemma_rewrite_round_trip(q, server_name, query_server_name);
    lemma_same_dns_name_equivalence(back, asked, q);
    lemma_same_dns_name_equivalence(asked, back, q);
}

} // verus!
