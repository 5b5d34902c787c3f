//! The HTTP client plugin's rules: which URLs a template may fetch, which resolved addresses
//! are refused, and how a response body is read under a size limit.
use vstd::prelude::*;
use crate::text::{append_str, chars_of, str_eq, string_from_chars};

verus! {

broadcast use vstd::string::group_string_axioms;

/// The positions of the dots in `d`, in order.
pub open spec fn dot_positions(d: Seq<char>) -> Seq<int>
    decreases d.len(),
{
    if d.len() == 0 {
        Seq::empty()
    } else {
        let p = dot_positions(d.drop_last());
        if d.last() == '.' {
            p.push(d.len() - 1)
        } else {
            p
        }
    }
}

/// Every domain that `d` lies in, from `d` itself up to its registrable domain (the last two
/// labels): `cdn.blah.discord.com` gives `cdn.blah.discord.com`, `blah.discord.com` and
/// `discord.com`; a domain of one or two labels gives only itself.
pub open spec fn domain_parts_spec(d: Seq<char>) -> Seq<Seq<char>> {
    let p = dot_positions(d);
    let n: nat = if p.len() >= 2 { (p.len() - 1) as nat } else { 0 };
    seq![d] + Seq::new(n, |k: int| d.skip(p[k] + 1))
}

proof fn lemma_dot_positions_bounds(d: Seq<char>)
    ensures
        forall|k: int| 0 <= k < dot_positions(d).len() ==> 0 <= #[trigger] dot_positions(d)[k] < d.len() && d[dot_positions(d)[k]] == '.',
    decreases d.len(),
{
    if d.len() > 0 {
        let prev = d.drop_last();
        lemma_dot_positions_bounds(prev);
        let p = dot_positions(d);
        assert forall|k: int| 0 <= k < p.len() implies 0 <= #[trigger] p[k] < d.len() && d[p[k]] == '.' by {
            if k < dot_positions(prev).len() {
                assert(p[k] == dot_positions(prev)[k]);
                assert(prev[dot_positions(prev)[k]] == d[dot_positions(prev)[k]]);
            }
        }
    }
}

fn dot_positions_of(v: &Vec<char>) -> (r: Vec<usize>)
    ensures
        r@.len() == dot_positions(v@).len(),
        forall|k: int| 0 <= k < r@.len() ==> r@[k] as int == #[trigger] dot_positions(v@)[k],
{
    let mut out: Vec<usize> = Vec::new();
    let mut i: usize = 0;
    while i < v.len()
        invariant
            i <= v.len(),
            out@.len() == dot_positions(v@.take(i as int)).len(),
            forall|k: int| 0 <= k < out@.len() ==> out@[k] as int == #[trigger] dot_positions(v@.take(i as int))[k],
        decreases v.len() - i,
    {
        assert(v@.take(i + 1).drop_last() =~= v@.take(i as int));
        if v[i] == '.' {
            out.push(i);
        }
        i = i + 1;
    }
    assert(v@.take(v.len() as int) =~= v@);
    out
}

fn chars_from(v: &Vec<char>, start: usize) -> (r: String)
    requires
        start <= v.len(),
    ensures
        r@ == v@.skip(start as int),
{
    let mut out: Vec<char> = Vec::new();
    let mut i: usize = start;
    while i < v.len()
        invariant
            start <= i <= v.len(),
            out@ == v@.subrange(start as int, i as int),
        decreases v.len() - i,
    {
        out.push(v[i]);
        assert(v@.subrange(start as int, i as int).push(v@[i as int]) =~= v@.subrange(start as int, i + 1));
        i = i + 1;
    }
    assert(v@.subrange(start as int, v.len() as int) =~= v@.skip(start as int));
    string_from_chars(&out)
}

/// Every domain that `domain` lies in, from itself up to its registrable domain.
pub fn extract_domain_parts(domain: &str) -> (r: Vec<String>)
    ensures
        r@.len() == domain_parts_spec(domain@).len(),
        forall|i: int| 0 <= i < r@.len() ==> #[trigger] r@[i]@ == domain_parts_spec(domain@)[i],
{
    let v = chars_of(domain);
    let dots = dot_positions_of(&v);
    proof {
        lemma_dot_positions_bounds(v@);
    }
    let mut out: Vec<String> = Vec::new();
    out.push(domain.to_string());
    let n: usize = if dots.len() >= 2 { dots.len() - 1 } else { 0 };
    let mut k: usize = 0;
    while k < n
        invariant
            v@ == domain@,
            dots@.len() == dot_positions(domain@).len(),
            forall|j: int| 0 <= j < dots@.len() ==> dots@[j] as int == #[trigger] dot_positions(domain@)[j],
            forall|j: int| 0 <= j < dot_positions(domain@).len() ==> 0 <= #[trigger] dot_positions(domain@)[j] < domain@.len(),
            n == (if dots@.len() >= 2 { dots@.len() - 1 } else { 0 }),
            k <= n,
            out@.len() == k + 1,
            forall|i: int| 0 <= i < out@.len() ==> #[trigger] out@[i]@ == domain_parts_spec(domain@)[i],
        decreases n - k,
    {
        assert(dots@[k as int] as int == dot_positions(domain@)[k as int]);
        assert(dots@[k as int] < v.len());
        let d: usize = dots[k];
        let start: usize = d + 1;
        let part = chars_from(&v, start);
        let ghost before = out@;
        out.push(part);
        proof {
            let p = dot_positions(domain@);
            let nn: nat = if p.len() >= 2 { (p.len() - 1) as nat } else { 0 };
            let f = |j: int| domain@.skip(p[j] + 1);
            assert(domain_parts_spec(domain@) == seq![domain@] + Seq::new(nn, f));
            assert(domain_parts_spec(domain@)[k + 1] == f(k as int));
            assert forall|i: int| 0 <= i < out@.len() implies #[trigger] out@[i]@ == domain_parts_spec(domain@)[i] by {
                if i < before.len() {
                    assert(out@[i] == before[i]);
                }
            }
        }
        k = k + 1;
    }
    out
}

/// The hosts that name this machine.
pub open spec fn is_localhost_spec(host: Seq<char>) -> bool {
    host == "localhost"@ || host == "127.0.0.1"@ || host == "[::1]"@ || host == "::1"@ || host == "0.0.0.0"@
}

/// Whether `host` names this machine.
pub fn is_localhost(host: &str) -> (r: bool)
    ensures
        r == is_localhost_spec(host@),
{
    str_eq(host, "localhost") || str_eq(host, "127.0.0.1") || str_eq(host, "[::1]") || str_eq(host, "::1")
        || str_eq(host, "0.0.0.0")
}

/// The parts of a URL that the rules read.
#[derive(Debug, Clone)]
pub struct UrlParts {
    /// The scheme, such as `https`.
    pub scheme: String,
    /// The host, as text, if the URL has one.
    pub host: Option<String>,
    /// The port written in the URL, if any.
    pub port: Option<u16>,
    /// The host when it is a domain name (not an IP address).
    pub domain: Option<String>,
}

/// What the HTTP client provider allows.
#[derive(Debug, Clone)]
pub struct UrlPolicy {
    /// Whether requests to this machine are allowed.
    pub allow_localhost: bool,
    /// The only domains allowed, when not empty.
    pub domain_whitelist: Vec<String>,
    /// Domains refused, with every domain below them.
    pub domain_blacklist: Vec<String>,
}

/// Why a URL was refused.
#[derive(Debug)]
pub enum UrlError {
    NoHost,
    LocalhostScheme,
    LocalhostNotAllowed,
    SchemeNotAllowed,
    PortNotAllowed,
    NoDomain,
    NotWhitelisted(String),
    Blacklisted(String),
}

/// A refusal in mathematical form.
pub enum UrlErrorView {
    NoHost,
    LocalhostScheme,
    LocalhostNotAllowed,
    SchemeNotAllowed,
    PortNotAllowed,
    NoDomain,
    NotWhitelisted(Seq<char>),
    Blacklisted(Seq<char>),
}

impl View for UrlError {
    type V = UrlErrorView;

    open spec fn view(&self) -> UrlErrorView {
        match self {
            UrlError::NoHost => UrlErrorView::NoHost,
            UrlError::LocalhostScheme => UrlErrorView::LocalhostScheme,
            UrlError::LocalhostNotAllowed => UrlErrorView::LocalhostNotAllowed,
            UrlError::SchemeNotAllowed => UrlErrorView::SchemeNotAllowed,
            UrlError::PortNotAllowed => UrlErrorView::PortNotAllowed,
            UrlError::NoDomain => UrlErrorView::NoDomain,
            UrlError::NotWhitelisted(d) => UrlErrorView::NotWhitelisted(d@),
            UrlError::Blacklisted(d) => UrlErrorView::Blacklisted(d@),
        }
    }
}

/// The message of a URL refusal.
pub open spec fn url_error_text(e: UrlErrorView) -> Seq<char> {
    match e {
        UrlErrorView::NoHost => "URL does not have a valid host"@,
        UrlErrorView::LocalhostScheme => "Localhost requests must use http or https"@,
        UrlErrorView::LocalhostNotAllowed => "Localhost requests are not allowed"@,
        UrlErrorView::SchemeNotAllowed => "Only HTTP/HTTPS requests are allowed"@,
        UrlErrorView::PortNotAllowed => "Ports are not allowed in URLs"@,
        UrlErrorView::NoDomain => "URL does not have a valid domain"@,
        UrlErrorView::NotWhitelisted(d) => "Domain "@ + d + " is not whitelisted"@,
        UrlErrorView::Blacklisted(d) => "Domain "@ + d + " is blacklisted"@,
    }
}

impl UrlError {
    /// The refusal's message.
    pub fn message(&self) -> (r: String)
        ensures
            r@ == url_error_text(self@),
    {
        match self {
            UrlError::NoHost => "URL does not have a valid host".to_string(),
            UrlError::LocalhostScheme => "Localhost requests must use http or https".to_string(),
            UrlError::LocalhostNotAllowed => "Localhost requests are not allowed".to_string(),
            UrlError::SchemeNotAllowed => "Only HTTP/HTTPS requests are allowed".to_string(),
            UrlError::PortNotAllowed => "Ports are not allowed in URLs".to_string(),
            UrlError::NoDomain => "URL does not have a valid domain".to_string(),
            UrlError::NotWhitelisted(d) => {
                let mut s = "Domain ".to_string();
                append_str(&mut s, d.as_str());
                append_str(&mut s, " is not whitelisted");
                s
            },
            UrlError::Blacklisted(d) => {
                let mut s = "Domain ".to_string();
                append_str(&mut s, d.as_str());
                append_str(&mut s, " is blacklisted");
                s
            },
        }
    }
}

/// Whether a scheme is plain or secure HTTP.
pub open spec fn is_http_spec(scheme: Seq<char>) -> bool {
    scheme == "http"@ || scheme == "https"@
}

/// The texts of a list of strings.
pub open spec fn texts(v: Seq<String>) -> Seq<Seq<char>> {
    v.map_values(|s: String| s@)
}

/// The first domain part of `d` that the blacklist holds, if any.
pub open spec fn first_blacklisted(parts: Seq<Seq<char>>, blacklist: Seq<Seq<char>>) -> Option<Seq<char>>
    decreases parts.len(),
{
    if parts.len() == 0 {
        None
    } else if blacklist.contains(parts[0]) {
        Some(parts[0])
    } else {
        first_blacklisted(parts.drop_first(), blacklist)
    }
}

/// The verdict on a URL: a host is needed; a local host passes when local requests are allowed
/// and it uses HTTP, and is refused otherwise; any other URL must use HTTP, name no port, have a
/// domain, be on the whitelist when there is one, and lie in no blacklisted domain.
pub open spec fn check_url_spec(scheme: Seq<char>, host: Option<Seq<char>>, port: Option<u16>, domain: Option<Seq<char>>, allow_localhost: bool, whitelist: Seq<Seq<char>>, blacklist: Seq<Seq<char>>) -> Result<(), UrlErrorView> {
    match host {
        None => Err(UrlErrorView::NoHost),
        Some(h) => if allow_localhost && is_localhost_spec(h) {
            if !is_http_spec(scheme) {
                Err(UrlErrorView::LocalhostScheme)
            } else {
                Ok(())
            }
        } else if is_localhost_spec(h) {
            Err(UrlErrorView::LocalhostNotAllowed)
        } else if !is_http_spec(scheme) {
            Err(UrlErrorView::SchemeNotAllowed)
        } else if port is Some {
            Err(UrlErrorView::PortNotAllowed)
        } else {
            match domain {
                None => Err(UrlErrorView::NoDomain),
                Some(d) => if whitelist.len() > 0 && !whitelist.contains(d) {
                    Err(UrlErrorView::NotWhitelisted(d))
                } else {
                    match first_blacklisted(domain_parts_spec(d), blacklist) {
                        Some(p) => Err(UrlErrorView::Blacklisted(p)),
                        None => Ok(()),
                    }
                },
            }
        },
    }
}

fn list_contains(v: &Vec<String>, s: &str) -> (r: bool)
    ensures
        r == texts(v@).contains(s@),
{
    let mut i: usize = 0;
    while i < v.len()
        invariant
            i <= v.len(),
            forall|j: int| 0 <= j < i ==> v@[j]@ != s@,
        decreases v.len() - i,
    {
        if str_eq(v[i].as_str(), s) {
            assert(texts(v@)[i as int] == s@);
            return true;
        }
        i = i + 1;
    }
    assert(!texts(v@).contains(s@)) by {
        if texts(v@).contains(s@) {
            let j = choose|j: int| 0 <= j < texts(v@).len() && texts(v@)[j] == s@;
            assert(v@[j]@ == s@);
        }
    }
    false
}

proof fn lemma_first_blacklisted_skip(parts: Seq<Seq<char>>, blacklist: Seq<Seq<char>>, i: int)
    requires
        0 <= i <= parts.len(),
        forall|j: int| 0 <= j < i ==> !blacklist.contains(#[trigger] parts[j]),
    ensures
        first_blacklisted(parts, blacklist) == first_blacklisted(parts.skip(i), blacklist),
    decreases i,
{
    if i > 0 {
        assert(!blacklist.contains(parts[0]));
        assert forall|j: int| 0 <= j < i - 1 implies !blacklist.contains(#[trigger] parts.drop_first()[j]) by {
            assert(parts.drop_first()[j] == parts[j + 1]);
        }
        lemma_first_blacklisted_skip(parts.drop_first(), blacklist, i - 1);
        assert(parts.drop_first().skip(i - 1) =~= parts.skip(i));
    } else {
        assert(parts.skip(0) =~= parts);
    }
}

/// Checks a URL against the provider's rules.
pub fn check_url(url: &UrlParts, policy: &UrlPolicy) -> (r: Result<(), UrlError>)
    ensures
        match check_url_spec(url.scheme@, match url.host { Some(h) => Some(h@), None => None::<Seq<char>> }, url.port,
            match url.domain { Some(d) => Some(d@), None => None::<Seq<char>> }, policy.allow_localhost,
            texts(policy.domain_whitelist@), texts(policy.domain_blacklist@)) {
            Ok(()) => r is Ok,
            Err(e) => r matches Err(x) && x@ == e,
        },
{
    let host = match &url.host {
        None => return Err(UrlError::NoHost),
        Some(h) => h,
    };
    let local = is_localhost(host.as_str());
    let http = str_eq(url.scheme.as_str(), "http") || str_eq(url.scheme.as_str(), "https");
    if policy.allow_localhost && local {
        if !http {
            return Err(UrlError::LocalhostScheme);
        }
        return Ok(());
    }
    if local {
        return Err(UrlError::LocalhostNotAllowed);
    }
    if !http {
        return Err(UrlError::SchemeNotAllowed);
    }
    if url.port.is_some() {
        return Err(UrlError::PortNotAllowed);
    }
    let domain = match &url.domain {
        None => return Err(UrlError::NoDomain),
        Some(d) => d,
    };
    if policy.domain_whitelist.len() > 0 && !list_contains(&policy.domain_whitelist, domain.as_str()) {
        return Err(UrlError::NotWhitelisted(domain.clone()));
    }
    let parts = extract_domain_parts(domain.as_str());
    assert(texts(parts@) =~= domain_parts_spec(domain@));
    match first_blacklisted_part(&parts, &policy.domain_blacklist) {
        Some(p) => Err(UrlError::Blacklisted(p)),
        None => Ok(()),
    }
}

fn first_blacklisted_part(parts: &Vec<String>, blacklist: &Vec<String>) -> (r: Option<String>)
    ensures
        match first_blacklisted(texts(parts@), texts(blacklist@)) {
            Some(p) => r matches Some(x) && x@ == p,
            None => r is None,
        },
{
    let ghost ps = texts(parts@);
    let ghost bl = texts(blacklist@);
    let mut i: usize = 0;
    while i < parts.len()
        invariant
            ps == texts(parts@),
            bl == texts(blacklist@),
            i <= parts.len(),
            forall|j: int| 0 <= j < i ==> !bl.contains(#[trigger] ps[j]),
        decreases parts.len() - i,
    {
        if list_contains(blacklist, parts[i].as_str()) {
            proof {
                lemma_first_blacklisted_skip(ps, bl, i as int);
                assert(ps.skip(i as int)[0] == ps[i as int]);
                assert(bl.contains(ps[i as int]));
                assert(first_blacklisted(ps.skip(i as int), bl) == Some(ps[i as int]));
            }
            return Some(parts[i].clone());
        }
        i = i + 1;
    }
    proof {
        lemma_first_blacklisted_skip(ps, bl, ps.len() as int);
        assert(ps.skip(ps.len() as int) =~= Seq::<Seq<char>>::empty());
    }
    None
}

/// A resolved IP address.
#[derive(Debug, Clone, Copy, PartialEq, Eq, Structural)]
pub enum IpAddress {
    V4(u8, u8, u8, u8),
    V6(u16, u16, u16, u16, u16, u16, u16, u16),
}

/// Whether an IPv4 address is in a private range (`10/8`, `172.16/12`, `192.168/16`).
pub open spec fn v4_private(a: u8, b: u8) -> bool {
    a == 10 || (a == 172 && 16 <= b < 32) || (a == 192 && b == 168)
}

/// Whether an IPv4 address is set aside for documentation (`192.0.2/24`, `198.51.100/24`,
/// `203.0.113/24`).
pub open spec fn v4_documentation(a: u8, b: u8, c: u8) -> bool {
    (a == 192 && b == 0 && c == 2) || (a == 198 && b == 51 && c == 100) || (a == 203 && b == 0 && c == 113)
}

/// Whether a resolved address must be refused when requests to this machine are not allowed:
/// the local, private and special-purpose addresses (this network, private ranges, the
/// unspecified address, loopback, link-local, `192.0.0/24` but for `.9` and `.10`,
/// documentation ranges, broadcast; for IPv6 link-local, loopback, unique local and
/// unspecified).
pub open spec fn is_not_allowed_spec(addr: IpAddress) -> bool {
    match addr {
        IpAddress::V4(a, b, c, d) => {
            ||| a == 0
            ||| v4_private(a, b)
            ||| (a == 0 && b == 0 && c == 0 && d == 0)
            ||| a == 127
            ||| (a == 169 && b == 254)
            ||| (a == 192 && b == 0 && c == 0 && d != 9 && d != 10)
            ||| v4_documentation(a, b, c)
            ||| (a == 255 && b == 255 && c == 255 && d == 255)
        },
        IpAddress::V6(s0, s1, s2, s3, s4, s5, s6, s7) => {
            let zero_prefix = s0 == 0 && s1 == 0 && s2 == 0 && s3 == 0 && s4 == 0 && s5 == 0 && s6 == 0;
            ||| (s0 & 0xffc0u16) == 0xfe80u16
            ||| (zero_prefix && s7 == 1)
            ||| (s0 & 0xfe00u16) == 0xfc00u16
            ||| (zero_prefix && s7 == 0)
        },
    }
}

/// Whether a resolved address must be refused when requests to this machine are not allowed.
pub fn is_not_allowed(addr: &IpAddress) -> (r: bool)
    ensures
        r == is_not_allowed_spec(*addr),
{
    match addr {
        IpAddress::V4(a, b, c, d) => {
            let (a, b, c, d) = (*a, *b, *c, *d);
            a == 0 || a == 10 || (a == 172 && 16 <= b && b < 32) || (a == 192 && b == 168) || (a == 0
                && b == 0 && c == 0 && d == 0) || a == 127 || (a == 169 && b == 254) || (a == 192 && b
                == 0 && c == 0 && d != 9 && d != 10) || (a == 192 && b == 0 && c == 2) || (a == 198 && b
                == 51 && c == 100) || (a == 203 && b == 0 && c == 113) || (a == 255 && b == 255 && c
                == 255 && d == 255)
        },
        IpAddress::V6(s0, s1, s2, s3, s4, s5, s6, s7) => {
            let zero_prefix = *s0 == 0 && *s1 == 0 && *s2 == 0 && *s3 == 0 && *s4 == 0 && *s5 == 0 && *s6 == 0;
            (*s0 & 0xffc0u16) == 0xfe80u16 || (zero_prefix && *s7 == 1) || (*s0 & 0xfe00u16) == 0xfc00u16
                || (zero_prefix && *s7 == 0)
        },
    }
}

/// Whether a lookup's addresses may be used: when requests to this machine are not allowed,
/// none of them may be a refused one.
pub fn resolution_allowed(addrs: &Vec<IpAddress>, allow_localhost: bool) -> (r: bool)
    ensures
        r == (allow_localhost || forall|i: int| 0 <= i < addrs@.len() ==> !is_not_allowed_spec(#[trigger] addrs@[i])),
{
    if allow_localhost {
        return true;
    }
    let mut i: usize = 0;
    while i < addrs.len()
        invariant
            !allow_localhost,
            i <= addrs.len(),
            forall|j: int| 0 <= j < i ==> !is_not_allowed_spec(#[trigger] addrs@[j]),
        decreases addrs.len() - i,
    {
        let a = &addrs[i];
        let bad = is_not_allowed(a);
        if bad {
            assert(is_not_allowed_spec(addrs@[i as int]));
            return false;
        }
        i = i + 1;
    }
    true
}

/// The message a refused lookup gives.
pub fn resolution_refused_message() -> (r: &'static str)
    ensures
        r@ == "localhost resolution is not allowed"@,
{
    "localhost resolution is not allowed"
}

/// Reading a response body with a size limit (the body's `bytes`, bounded).
pub trait ResponseExt {
    /// What reading the body gives.
    type BytesFuture;

    /// Reads the whole body, failing once more than `limit` bytes have arrived.
    fn bytes_limited(self, limit: usize) -> Self::BytesFuture;
}

/// Why a body was refused.
#[derive(Debug, Clone, Copy, PartialEq, Eq, Structural)]
pub enum BodyError {
    /// More bytes arrived than the limit allows.
    TooLarge,
}

impl BodyError {
    /// The error's message.
    pub fn message(&self) -> (r: &'static str)
        ensures
            r@ == "Response body size exceeds the limit"@,
    {
        "Response body size exceeds the limit"
    }
}

/// A body that arrives in chunks.
#[derive(Debug, Clone)]
pub struct ChunkedBody {
    pub chunks: Vec<Vec<u8>>,
}

/// The bytes of the first `n` chunks, in order.
pub open spec fn joined(chunks: Seq<Vec<u8>>) -> Seq<u8>
    decreases chunks.len(),
{
    if chunks.len() == 0 {
        Seq::empty()
    } else {
        joined(chunks.drop_last()) + chunks.last()@
    }
}

/// What reading chunks under `limit` gives: the bytes, unless after some chunk more than `limit`
/// bytes have arrived.
pub open spec fn read_limited_spec(chunks: Seq<Vec<u8>>, limit: usize) -> Result<Seq<u8>, BodyError> {
    if exists|k: int| 1 <= k <= chunks.len() && #[trigger] joined(chunks.take(k)).len() > limit {
        Err(BodyError::TooLarge)
    } else {
        Ok(joined(chunks))
    }
}

proof fn lemma_joined_grows(chunks: Seq<Vec<u8>>, j: int, k: int)
    requires
        0 <= j <= k <= chunks.len(),
    ensures
        joined(chunks.take(j)).len() <= joined(chunks.take(k)).len(),
    decreases k - j,
{
    if j < k {
        lemma_joined_grows(chunks, j, k - 1);
        assert(chunks.take(k).drop_last() =~= chunks.take(k - 1));
    }
}

impl ResponseExt for ChunkedBody {
    type BytesFuture = Result<Vec<u8>, BodyError>;

    fn bytes_limited(self, limit: usize) -> (r: Result<Vec<u8>, BodyError>)
        ensures
            match read_limited_spec(self.chunks@, limit) {
                Ok(b) => r matches Ok(v) && v@ == b,
                Err(e) => r == Err::<Vec<u8>, BodyError>(e),
            },
    {
        let chunks = &self.chunks;
        let mut out: Vec<u8> = Vec::new();
        let mut i: usize = 0;
        while i < chunks.len()
            invariant
                chunks@ == self.chunks@,
                i <= chunks.len(),
                out@ == joined(chunks@.take(i as int)),
                out@.len() <= limit,
                forall|k: int| 1 <= k <= i ==> #[trigger] joined(chunks@.take(k)).len() <= limit,
            decreases chunks.len() - i,
        {
            let chunk = &chunks[i];
            let mut j: usize = 0;
            let ghost before = out@;
            while j < chunk.len()
                invariant
                    j <= chunk.len(),
                    out@ == before + chunk@.take(j as int),
                decreases chunk.len() - j,
            {
                out.push(chunk[j]);
                assert(before + chunk@.take(j + 1) =~= (before + chunk@.take(j as int)).push(chunk@[j as int]));
                j = j + 1;
            }
            assert(chunks@.take(i + 1).drop_last() =~= chunks@.take(i as int));
            assert(chunks@.take(i + 1).last() == chunks@[i as int]);
            assert(chunk@.take(j as int) =~= chunk@);
            assert(joined(chunks@.take(i + 1)) == out@);
            if out.len() > limit {
                assert(joined(chunks@.take(i + 1)).len() > limit);
                return Err(BodyError::TooLarge);
            }
            i = i + 1;
        }
        assert(chunks@.take(chunks.len() as int) =~= chunks@);
        Ok(out)
    }
}

/// A list that holds a blacklisted entry has a first blacklisted entry.
proof fn lemma_first_blacklisted_found(parts: Seq<Seq<char>>, blacklist: Seq<Seq<char>>, i: int)
    requires
        0 <= i < parts.len(),
        blacklist.contains(parts[i]),
    ensures
        first_blacklisted(parts, blacklist) is Some,
    decreases parts.len(),
{
    if !blacklist.contains(parts[0]) {
        assert(parts.drop_first()[i - 1] == parts[i]);
        lemma_first_blacklisted_found(parts.drop_first(), blacklist, i - 1);
    }
}

/// A blacklisted domain blocks every domain below it: a URL whose domain lies in a domain of
/// the blacklist is refused (unless it names this machine and local requests are allowed).
pub proof fn lemma_blacklist_covers_subdomains(scheme: Seq<char>, d: Seq<char>, allow_localhost: bool, whitelist: Seq<Seq<char>>, blacklist: Seq<Seq<char>>, i: int)
    requires
        0 <= i < domain_parts_spec(d).len(),
        blacklist.contains(domain_parts_spec(d)[i]),
        !(allow_localhost && is_localhost_spec(d)),
    ensures
        check_url_spec(scheme, Some(d), None, Some(d), allow_localhost, whitelist, blacklist) is Err,
{
    lemma_first_blacklisted_found(domain_parts_spec(d), blacklist, i);
}

/// A body read under a limit never holds more than the limit.
pub proof fn lemma_body_within_limit(chunks: Seq<Vec<u8>>, limit: usize)
    ensures
        read_limited_spec(chunks, limit) matches Ok(b) ==> b.len() <= limit,
{
    if read_limited_spec(chunks, limit) is Ok && chunks.len() > 0 {
        assert(chunks.take(chunks.len() as int) =~= chunks);
        assert(!(joined(chunks.take(chunks.len() as int)).len() > limit));
    }
}

/// Whether a header value byte is visible ASCII (or a tab), the bytes a header value must be
/// made of to be read as text.
pub open spec fn visible_ascii(b: u8) -> bool {
    (32 <= b && b < 127) || b == 9
}

/// The text of a header value: the value when all its bytes are visible ASCII, else empty.
pub open spec fn header_text_spec(value: Seq<u8>) -> Seq<char> {
    if forall|i: int| 0 <= i < value.len() ==> visible_ascii(#[trigger] value[i]) {
        value.map_values(|b: u8| b as char)
    } else {
        Seq::empty()
    }
}

/// The text of a header value: the value when all its bytes are visible ASCII, else empty.
pub fn header_text(value: &Vec<u8>) -> (r: String)
    ensures
        r@ == header_text_spec(value@),
{
    let mut chars: Vec<char> = Vec::new();
    let mut i: usize = 0;
    while i < value.len()
        invariant
            i <= value.len(),
            forall|j: int| 0 <= j < i ==> visible_ascii(#[trigger] value@[j]),
            chars@ == value@.take(i as int).map_values(|b: u8| b as char),
        decreases value.len() - i,
    {
        let b = value[i];
        if !((32 <= b && b < 127) || b == 9) {
            assert(!visible_ascii(value@[i as int]));
            return String::new();
        }
        chars.push(b as char);
        assert(value@.take(i + 1).map_values(|b: u8| b as char) =~= value@.take(i as int).map_values(|b: u8| b as char).push(b as char));
        i = i + 1;
    }
    assert(value@.take(value.len() as int) =~= value@);
    crate::text::string_from_chars(&chars)
}

/// The headers as a list of names, texts and raw values, in order.
pub fn headers_list(headers: &Vec<(String, Vec<u8>)>) -> (r: Vec<(String, String, Vec<u8>)>)
    ensures
        r@.len() == headers@.len(),
        forall|i: int| 0 <= i < r@.len() ==> (#[trigger] r@[i]).0@ == headers@[i].0@ && r@[i].1@ == header_text_spec(headers@[i].1@)
            && r@[i].2@ == headers@[i].1@,
{
    let mut out: Vec<(String, String, Vec<u8>)> = Vec::new();
    let mut i: usize = 0;
    while i < headers.len()
        invariant
            i <= headers.len(),
            out@.len() == i,
            forall|j: int| 0 <= j < i ==> (#[trigger] out@[j]).0@ == headers@[j].0@ && out@[j].1@ == header_text_spec(headers@[j].1@)
                && out@[j].2@ == headers@[j].1@,
        decreases headers.len() - i,
    {
        let (name, value) = &headers[i];
        out.push((name.clone(), header_text(value), value.clone()));
        i = i + 1;
    }
    out
}

/// How long a request may take when it sets no timeout: 5 seconds, in nanoseconds.
pub const DEFAULT_TIMEOUT_NANOS: u128 = 5000000000;

/// The timeout a request is sent with: its own, or the default.
pub fn effective_timeout(timeout: Option<u128>) -> (r: u128)
    ensures
        r == (match timeout { Some(t) => t, None => DEFAULT_TIMEOUT_NANOS }),
{
    match timeout {
        Some(t) => t,
        None => DEFAULT_TIMEOUT_NANOS,
    }
}

/// A value a template sets as a request's body.
pub enum BodyValue {
    /// Nothing: the body is removed.
    Nil,
    /// Bytes, from a string, a buffer or a table of bytes.
    Bytes(Vec<u8>),
    /// Any other value.
    Other,
}

/// Why a body was refused.
#[derive(Debug, Clone, Copy, PartialEq, Eq, Structural)]
pub enum InvalidBodyType {
    InvalidBodyType,
}

impl InvalidBodyType {
    /// The error's message.
    pub fn message(&self) -> (r: &'static str)
        ensures
            r@ == "Invalid body type"@,
    {
        "Invalid body type"
    }
}

/// Sets a request's body: nothing removes it, bytes replace it, and any other value is refused
/// with the body left as it was.
pub fn set_body(body: &mut Option<Vec<u8>>, value: BodyValue) -> (r: Result<(), InvalidBodyType>)
    ensures
        match value {
            BodyValue::Nil => r is Ok && *final(body) is None,
            BodyValue::Bytes(b) => r is Ok && *final(body) == Some(b),
            BodyValue::Other => r is Err && *final(body) == *old(body),
        },
{
    match value {
        BodyValue::Nil => {
            *body = None;
            Ok(())
        },
        BodyValue::Bytes(b) => {
            *body = Some(b);
            Ok(())
        },
        BodyValue::Other => Err(InvalidBodyType::InvalidBodyType),
    }
}

/// The content length a template sees: the length as a signed number, or -1 when unknown.
pub open spec fn content_length_spec(len: Option<u64>) -> i64 {
    match len {
        Some(l) => if l <= i64::MAX as u64 { l as i64 } else { (l - 18446744073709551616int) as i64 },
        None => -1i64,
    }
}

/// A response that its body can be read from once.
pub struct Response<R> {
    inner: Option<R>,
}

/// Why a response could not be read.
#[derive(Debug, Clone, Copy, PartialEq, Eq, Structural)]
pub enum ResponseExhausted {
    ResponseExhausted,
}

impl ResponseExhausted {
    /// The error's message.
    pub fn message(&self) -> (r: &'static str)
        ensures
            r@ == "Response has been exhausted"@,
    {
        "Response has been exhausted"
    }
}

impl<R> Response<R> {
    /// The response, while its body has not been read.
    pub closed spec fn pending(&self) -> Option<R> {
        self.inner
    }

    /// A fresh response.
    pub fn new(response: R) -> (r: Response<R>)
        ensures
            r.pending() == Some(response),
    {
        Response { inner: Some(response) }
    }

    /// The response's metadata, while its body has not been read.
    pub fn get(&self) -> (r: Result<&R, ResponseExhausted>)
        ensures
            match self.pending() {
                Some(x) => r == Ok::<&R, ResponseExhausted>(&x),
                None => r == Err::<&R, ResponseExhausted>(ResponseExhausted::ResponseExhausted),
            },
    {
        match &self.inner {
            Some(x) => Ok(x),
            None => Err(ResponseExhausted::ResponseExhausted),
        }
    }

    /// Takes the response to read its body: once.
    pub fn take(&mut self) -> (r: Result<R, ResponseExhausted>)
        ensures
            final(self).pending() is None,
            match old(self).pending() {
                Some(x) => r == Ok::<R, ResponseExhausted>(x),
                None => r == Err::<R, ResponseExhausted>(ResponseExhausted::ResponseExhausted),
            },
    {
        match self.inner.take() {
            Some(x) => Ok(x),
            None => Err(ResponseExhausted::ResponseExhausted),
        }
    }
}

/// The content length a template sees: the length as a signed number, or -1 when unknown.
pub fn content_length_field(len: Option<u64>) -> (r: i64)
    ensures
        r == content_length_spec(len),
{
    match len {
        Some(l) => {
            if l <= 9223372036854775807u64 {
                l as i64
            } else {
                let below: u64 = l - 9223372036854775808u64;
                let r: i64 = (below as i64) - 9223372036854775807i64 - 1;
                r
            }
        },
        None => -1,
    }
}

} // verus!
