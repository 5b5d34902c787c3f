//! The HTTP server plugin's own logic: methods and versions in text form, the route table of a
//! router and the rules for changing it, and what a request is answered.
use vstd::prelude::*;
use crate::keyed::{KeyEq, KeyedVec};
use crate::text::{append_str, format_u64, parse_u64, parse_u64_spec, decimal, str_eq, has_prefix, has_prefix_spec, suffix_from};

verus! {

/// A route's HTTP method; `ANY` matches every method.
#[derive(Debug, Clone, Copy, PartialEq, Eq, Structural, Hash)]
#[allow(clippy::upper_case_acronyms)]
pub enum Method {
    ANY,
    GET,
    POST,
    PUT,
    PATCH,
    DELETE,
    OPTIONS,
    HEAD,
    TRACE,
    CONNECT,
}

/// The canonical name of a method.
pub open spec fn method_name(m: Method) -> Seq<char> {
    match m {
        Method::ANY => seq!['A', 'N', 'Y'],
        Method::GET => seq!['G', 'E', 'T'],
        Method::POST => seq!['P', 'O', 'S', 'T'],
        Method::PUT => seq!['P', 'U', 'T'],
        Method::PATCH => seq!['P', 'A', 'T', 'C', 'H'],
        Method::DELETE => seq!['D', 'E', 'L', 'E', 'T', 'E'],
        Method::OPTIONS => seq!['O', 'P', 'T', 'I', 'O', 'N', 'S'],
        Method::HEAD => seq!['H', 'E', 'A', 'D'],
        Method::TRACE => seq!['T', 'R', 'A', 'C', 'E'],
        Method::CONNECT => seq!['C', 'O', 'N', 'N', 'E', 'C', 'T'],
    }
}

/// What reading `s` as a method gives: a canonical name, or `*` for `ANY`.
pub open spec fn parse_method_spec(s: Seq<char>) -> Option<Method> {
    if s == seq!['*'] {
        Some(Method::ANY)
    } else if exists|m: Method| method_name(m) == s {
        Some(choose|m: Method| method_name(m) == s)
    } else {
        None
    }
}

/// Distinct methods have distinct names.
pub proof fn lemma_method_name_injective(a: Method, b: Method)
    ensures
        method_name(a) == method_name(b) ==> a == b,
{
    if method_name(a) == method_name(b) {
        let s = method_name(a);
        assert(s.len() == method_name(b).len());
        assert(s[0] == method_name(b)[0]);
        if s.len() > 1 {
            assert(s[1] == method_name(b)[1]);
        }
        if s.len() > 2 {
            assert(s[2] == method_name(b)[2]);
        }
    }
}

/// Reading the name of a method gives the method back.
pub proof fn lemma_method_roundtrip(m: Method)
    ensures
        parse_method_spec(method_name(m)) == Some(m),
{
    assert(method_name(m) != seq!['*']) by {
        assert(method_name(m).len() >= 3);
    }
    let c = choose|x: Method| method_name(x) == method_name(m);
    lemma_method_name_injective(c, m);
}

impl Method {
    /// The canonical name of the method.
    pub fn as_str(&self) -> (r: &'static str)
        ensures
            r@ == method_name(*self),
    {
        proof {
            reveal_strlit("ANY");
            reveal_strlit("GET");
            reveal_strlit("POST");
            reveal_strlit("PUT");
            reveal_strlit("PATCH");
            reveal_strlit("DELETE");
            reveal_strlit("OPTIONS");
            reveal_strlit("HEAD");
            reveal_strlit("TRACE");
            reveal_strlit("CONNECT");
        }
        let r = match self {
            Method::ANY => "ANY",
            Method::GET => "GET",
            Method::POST => "POST",
            Method::PUT => "PUT",
            Method::PATCH => "PATCH",
            Method::DELETE => "DELETE",
            Method::OPTIONS => "OPTIONS",
            Method::HEAD => "HEAD",
            Method::TRACE => "TRACE",
            Method::CONNECT => "CONNECT",
        };
        assert(r@ =~= method_name(*self));
        r
    }

    /// Reads a method from its name (`*` also stands for `ANY`); `None` for an unknown name.
    pub fn parse(s: &str) -> (r: Option<Method>)
        ensures
            r == parse_method_spec(s@),
    {
        proof {
            reveal_strlit("*");
            assert("*"@ =~= seq!['*']);
        }
        if str_eq(s, "*") {
            return Some(Method::ANY);
        }
        let all = [
            Method::ANY,
            Method::GET,
            Method::POST,
            Method::PUT,
            Method::PATCH,
            Method::DELETE,
            Method::OPTIONS,
            Method::HEAD,
            Method::TRACE,
            Method::CONNECT,
        ];
        let mut i: usize = 0;
        while i < 10
            invariant
                i <= 10,
                s@ != seq!['*'],
                all@ == seq![
                    Method::ANY,
                    Method::GET,
                    Method::POST,
                    Method::PUT,
                    Method::PATCH,
                    Method::DELETE,
                    Method::OPTIONS,
                    Method::HEAD,
                    Method::TRACE,
                    Method::CONNECT,
                ],
                forall|j: int| 0 <= j < i ==> method_name(#[trigger] all@[j]) != s@,
            decreases 10 - i,
        {
            let m = all[i];
            if str_eq(m.as_str(), s) {
                proof {
                    let c = choose|x: Method| method_name(x) == s@;
                    lemma_method_name_injective(c, m);
                }
                return Some(m);
            }
            i = i + 1;
        }
        proof {
            assert forall|m: Method| method_name(m) != s@ by {
                let j: int = match m {
                    Method::ANY => 0,
                    Method::GET => 1,
                    Method::POST => 2,
                    Method::PUT => 3,
                    Method::PATCH => 4,
                    Method::DELETE => 5,
                    Method::OPTIONS => 6,
                    Method::HEAD => 7,
                    Method::TRACE => 8,
                    Method::CONNECT => 9,
                };
                assert(all@[j] == m);
            }
        }
        None
    }
}


/// An HTTP protocol version.
#[derive(Debug, Clone, Copy, PartialEq, Eq, Structural)]
pub enum HttpVersion {
    Http09,
    Http10,
    Http11,
    Http2,
    Http3,
}

/// How the server names a version (`HTTP/2`, `HTTP/3` without a minor number).
pub open spec fn server_version_name(v: HttpVersion) -> Seq<char> {
    match v {
        HttpVersion::Http09 => seq!['H', 'T', 'T', 'P', '/', '0', '.', '9'],
        HttpVersion::Http10 => seq!['H', 'T', 'T', 'P', '/', '1', '.', '0'],
        HttpVersion::Http11 => seq!['H', 'T', 'T', 'P', '/', '1', '.', '1'],
        HttpVersion::Http2 => seq!['H', 'T', 'T', 'P', '/', '2'],
        HttpVersion::Http3 => seq!['H', 'T', 'T', 'P', '/', '3'],
    }
}

/// How the HTTP client names a version (`HTTP/2.0`, `HTTP/3.0`).
pub open spec fn client_version_name(v: HttpVersion) -> Seq<char> {
    match v {
        HttpVersion::Http09 => seq!['H', 'T', 'T', 'P', '/', '0', '.', '9'],
        HttpVersion::Http10 => seq!['H', 'T', 'T', 'P', '/', '1', '.', '0'],
        HttpVersion::Http11 => seq!['H', 'T', 'T', 'P', '/', '1', '.', '1'],
        HttpVersion::Http2 => seq!['H', 'T', 'T', 'P', '/', '2', '.', '0'],
        HttpVersion::Http3 => seq!['H', 'T', 'T', 'P', '/', '3', '.', '0'],
    }
}

/// The version that `s` names in the server's naming, if any.
pub open spec fn parse_server_version_spec(s: Seq<char>) -> Option<HttpVersion> {
    if exists|v: HttpVersion| server_version_name(v) == s {
        Some(choose|v: HttpVersion| server_version_name(v) == s)
    } else {
        None
    }
}

/// The version that `s` names in the client's naming, if any.
pub open spec fn parse_client_version_spec(s: Seq<char>) -> Option<HttpVersion> {
    if exists|v: HttpVersion| client_version_name(v) == s {
        Some(choose|v: HttpVersion| client_version_name(v) == s)
    } else {
        None
    }
}

/// Distinct versions have distinct names, in either naming.
pub proof fn lemma_version_names_injective(a: HttpVersion, b: HttpVersion)
    ensures
        server_version_name(a) == server_version_name(b) ==> a == b,
        client_version_name(a) == client_version_name(b) ==> a == b,
{
    if server_version_name(a) == server_version_name(b) {
        assert(server_version_name(a).len() == server_version_name(b).len());
        assert(server_version_name(a)[5] == server_version_name(b)[5]);
        if server_version_name(a).len() > 6 {
            assert(server_version_name(a)[7] == server_version_name(b)[7]);
        }
    }
    if client_version_name(a) == client_version_name(b) {
        assert(client_version_name(a)[5] == client_version_name(b)[5]);
        assert(client_version_name(a)[7] == client_version_name(b)[7]);
    }
}

/// Reading a version's name gives the version back, in either naming.
pub proof fn lemma_version_roundtrip(v: HttpVersion)
    ensures
        parse_server_version_spec(server_version_name(v)) == Some(v),
        parse_client_version_spec(client_version_name(v)) == Some(v),
{
    let a = choose|x: HttpVersion| server_version_name(x) == server_version_name(v);
    let b = choose|x: HttpVersion| client_version_name(x) == client_version_name(v);
    lemma_version_names_injective(a, v);
    lemma_version_names_injective(b, v);
}

/// All versions, in order.
fn all_versions() -> (r: [HttpVersion; 5])
    ensures
        r@ == seq![HttpVersion::Http09, HttpVersion::Http10, HttpVersion::Http11, HttpVersion::Http2, HttpVersion::Http3],
{
    [HttpVersion::Http09, HttpVersion::Http10, HttpVersion::Http11, HttpVersion::Http2, HttpVersion::Http3]
}

/// The index of a version in `all_versions`.
spec fn version_index(v: HttpVersion) -> int {
    match v {
        HttpVersion::Http09 => 0,
        HttpVersion::Http10 => 1,
        HttpVersion::Http11 => 2,
        HttpVersion::Http2 => 3,
        HttpVersion::Http3 => 4,
    }
}

impl HttpVersion {
    /// The server's name for the version.
    pub fn server_name(&self) -> (r: &'static str)
        ensures
            r@ == server_version_name(*self),
    {
        proof {
            reveal_strlit("HTTP/0.9");
            reveal_strlit("HTTP/1.0");
            reveal_strlit("HTTP/1.1");
            reveal_strlit("HTTP/2");
            reveal_strlit("HTTP/3");
        }
        let r = match self {
            HttpVersion::Http09 => "HTTP/0.9",
            HttpVersion::Http10 => "HTTP/1.0",
            HttpVersion::Http11 => "HTTP/1.1",
            HttpVersion::Http2 => "HTTP/2",
            HttpVersion::Http3 => "HTTP/3",
        };
        assert(r@ =~= server_version_name(*self));
        r
    }

    /// The HTTP client's name for the version.
    pub fn client_name(&self) -> (r: &'static str)
        ensures
            r@ == client_version_name(*self),
    {
        proof {
            reveal_strlit("HTTP/0.9");
            reveal_strlit("HTTP/1.0");
            reveal_strlit("HTTP/1.1");
            reveal_strlit("HTTP/2.0");
            reveal_strlit("HTTP/3.0");
        }
        let r = match self {
            HttpVersion::Http09 => "HTTP/0.9",
            HttpVersion::Http10 => "HTTP/1.0",
            HttpVersion::Http11 => "HTTP/1.1",
            HttpVersion::Http2 => "HTTP/2.0",
            HttpVersion::Http3 => "HTTP/3.0",
        };
        assert(r@ =~= client_version_name(*self));
        r
    }

    /// Reads a version in the server's naming; `None` for anything else.
    pub fn parse_server(s: &str) -> (r: Option<HttpVersion>)
        ensures
            r == parse_server_version_spec(s@),
    {
        let all = all_versions();
        let mut i: usize = 0;
        while i < 5
            invariant
                i <= 5,
                all@ == seq![HttpVersion::Http09, HttpVersion::Http10, HttpVersion::Http11, HttpVersion::Http2, HttpVersion::Http3],
                forall|j: int| 0 <= j < i ==> server_version_name(#[trigger] all@[j]) != s@,
            decreases 5 - i,
        {
            let v = all[i];
            if str_eq(v.server_name(), s) {
                proof {
                    let c = choose|x: HttpVersion| server_version_name(x) == s@;
                    lemma_version_names_injective(c, v);
                }
                return Some(v);
            }
            i = i + 1;
        }
        proof {
            assert forall|v: HttpVersion| server_version_name(v) != s@ by {
                assert(all@[version_index(v)] == v);
            }
        }
        None
    }

    /// Reads a version in the client's naming; `None` for anything else.
    pub fn parse_client(s: &str) -> (r: Option<HttpVersion>)
        ensures
            r == parse_client_version_spec(s@),
    {
        let all = all_versions();
        let mut i: usize = 0;
        while i < 5
            invariant
                i <= 5,
                all@ == seq![HttpVersion::Http09, HttpVersion::Http10, HttpVersion::Http11, HttpVersion::Http2, HttpVersion::Http3],
                forall|j: int| 0 <= j < i ==> client_version_name(#[trigger] all@[j]) != s@,
            decreases 5 - i,
        {
            let v = all[i];
            if str_eq(v.client_name(), s) {
                proof {
                    let c = choose|x: HttpVersion| client_version_name(x) == s@;
                    lemma_version_names_injective(c, v);
                }
                return Some(v);
            }
            i = i + 1;
        }
        proof {
            assert forall|v: HttpVersion| client_version_name(v) != s@ by {
                assert(all@[version_index(v)] == v);
            }
        }
        None
    }
}

/// Whether `code` is a status code that HTTP responses accept (three digits, 100 to 999).
pub open spec fn valid_status_spec(code: u16) -> bool {
    100 <= code < 1000
}

/// Whether `code` is a status code that HTTP responses accept.
pub fn valid_status(code: u16) -> (r: bool)
    ensures
        r == valid_status_spec(code),
{
    100 <= code && code < 1000
}


/// The key of a route: its method and its path pattern.
#[derive(Debug)]
pub struct RouteKey {
    pub method: Method,
    pub pattern: String,
}

impl View for RouteKey {
    type V = (Method, Seq<char>);

    open spec fn view(&self) -> (Method, Seq<char>) {
        (self.method, self.pattern@)
    }
}

impl KeyEq for RouteKey {
    fn key_eq(&self, other: &Self) -> (r: bool) {
        self.method == other.method && self.pattern == other.pattern
    }
}

impl RouteKey {
    /// A copy of the key.
    pub fn copy(&self) -> (r: RouteKey)
        ensures
            r@ == self@,
    {
        RouteKey { method: self.method, pattern: self.pattern.clone() }
    }
}

/// How long a route's handler may take to answer.
#[derive(Debug, Clone, Copy, PartialEq, Eq, Structural)]
pub struct RouteTimeout {
    pub secs: u64,
    pub nanos: u32,
}

/// The timeout of a route that has none set: 30 seconds.
pub open spec fn default_timeout_spec() -> RouteTimeout {
    RouteTimeout { secs: 30, nanos: 0 }
}

/// The routes of a router: a handler for each method and pattern.
pub type RouteTable<H> = KeyedVec<RouteKey, H>;

/// Why a router refused a change.
#[derive(Debug, Clone, Copy, PartialEq, Eq, Structural)]
pub enum RouterError {
    /// Routes, timeouts and the bind address cannot change while the server runs.
    Running,
}

/// A router: where it binds, the timeouts of its routes, and whether it is serving. Its route
/// table is held apart, so that copies of a router can share one table.
pub struct Router<B> {
    bind_addr: B,
    route_timeouts: KeyedVec<RouteKey, RouteTimeout>,
    running: bool,
}

impl<B> Router<B> {
    /// The address the router binds to.
    pub closed spec fn bind_addr_spec(&self) -> B {
        self.bind_addr
    }

    /// The timeouts set for routes.
    pub closed spec fn timeouts(&self) -> Map<(Method, Seq<char>), RouteTimeout> {
        self.route_timeouts@
    }

    /// Whether the router is serving.
    pub closed spec fn running_spec(&self) -> bool {
        self.running
    }

    /// The router is well formed.
    pub closed spec fn wf(&self) -> bool {
        self.route_timeouts.wf()
    }

    /// A router that binds to `bind_addr`, with no timeouts set and not serving.
    pub fn new(bind_addr: B) -> (r: Router<B>)
        ensures
            r.wf(),
            r.bind_addr_spec() == bind_addr,
            r.timeouts() == Map::<(Method, Seq<char>), RouteTimeout>::empty(),
            !r.running_spec(),
    {
        Router { bind_addr, route_timeouts: KeyedVec::new(), running: false }
    }

    /// Whether the router is serving.
    pub fn is_running(&self) -> (r: bool)
        ensures
            r == self.running_spec(),
    {
        self.running
    }

    /// The address the router binds to.
    pub fn bind_addr(&self) -> (r: &B)
        ensures
            *r == self.bind_addr_spec(),
    {
        &self.bind_addr
    }

    /// Sets the handler of `method` and `pattern` in `routes`; refused while serving.
    pub fn route<H>(&self, routes: &mut RouteTable<H>, method: Method, pattern: String, handler: H) -> (r: Result<(), RouterError>)
        requires
            old(routes).wf(),
        ensures
            final(routes).wf(),
            self.running_spec() ==> r == Err::<(), RouterError>(RouterError::Running) && final(routes)@ == old(routes)@,
            !self.running_spec() ==> r is Ok && final(routes)@ == old(routes)@.insert((method, pattern@), handler),
    {
        if self.running {
            return Err(RouterError::Running);
        }
        let key = RouteKey { method, pattern };
        routes.insert(key, handler);
        Ok(())
    }

    /// Sets the timeout of `method` and `pattern`; refused while serving.
    pub fn set_timeout(&mut self, method: Method, pattern: String, timeout: RouteTimeout) -> (r: Result<(), RouterError>)
        requires
            old(self).wf(),
        ensures
            final(self).wf(),
            final(self).running_spec() == old(self).running_spec(),
            final(self).bind_addr_spec() == old(self).bind_addr_spec(),
            old(self).running_spec() ==> r == Err::<(), RouterError>(RouterError::Running) && final(self).timeouts() == old(self).timeouts(),
            !old(self).running_spec() ==> r is Ok && final(self).timeouts() == old(self).timeouts().insert((method, pattern@), timeout),
    {
        if self.running {
            return Err(RouterError::Running);
        }
        self.route_timeouts.insert(RouteKey { method, pattern }, timeout);
        Ok(())
    }

    /// Changes the address the router binds to; refused while serving.
    pub fn set_bind_addr(&mut self, bind_addr: B) -> (r: Result<(), RouterError>)
        requires
            old(self).wf(),
        ensures
            final(self).wf(),
            final(self).running_spec() == old(self).running_spec(),
            final(self).timeouts() == old(self).timeouts(),
            old(self).running_spec() ==> r == Err::<(), RouterError>(RouterError::Running) && final(self).bind_addr_spec() == old(self).bind_addr_spec(),
            !old(self).running_spec() ==> r is Ok && final(self).bind_addr_spec() == bind_addr,
    {
        if self.running {
            return Err(RouterError::Running);
        }
        self.bind_addr = bind_addr;
        Ok(())
    }

    /// The timeout of `key`: the one set, or 30 seconds.
    pub fn timeout_for(&self, key: &RouteKey) -> (r: RouteTimeout)
        requires
            self.wf(),
        ensures
            r == (if self.timeouts().contains_key(key@) { self.timeouts()[key@] } else { default_timeout_spec() }),
    {
        match self.route_timeouts.get(key) {
            Some(t) => *t,
            None => RouteTimeout { secs: 30, nanos: 0 },
        }
    }

    /// Every route of `routes`, in the table's order, with its timeout.
    pub fn routes_with_timeouts<H>(&self, routes: &RouteTable<H>) -> (r: Vec<(Method, String, RouteTimeout)>)
        requires
            self.wf(),
            routes.wf(),
        ensures
            r@.len() == routes.entry_seq().len(),
            forall|i: int| 0 <= i < r@.len() ==> {
                let k = #[trigger] routes.entry_seq()[i].0@;
                &&& r@[i].0 == k.0
                &&& r@[i].1@ == k.1
                &&& r@[i].2 == (if self.timeouts().contains_key(k) { self.timeouts()[k] } else { default_timeout_spec() })
            },
    {
        let entries = routes.entries();
        let mut out: Vec<(Method, String, RouteTimeout)> = Vec::new();
        let mut i: usize = 0;
        while i < entries.len()
            invariant
                self.wf(),
                entries@ == routes.entry_seq(),
                i <= entries.len(),
                out@.len() == i,
                forall|j: int| 0 <= j < i ==> {
                    let k = #[trigger] routes.entry_seq()[j].0@;
                    &&& out@[j].0 == k.0
                    &&& out@[j].1@ == k.1
                    &&& out@[j].2 == (if self.timeouts().contains_key(k) { self.timeouts()[k] } else { default_timeout_spec() })
                },
            decreases entries.len() - i,
        {
            let key = &entries[i].0;
            let t = self.timeout_for(key);
            out.push((key.method, key.pattern.clone(), t));
            i = i + 1;
        }
        out
    }

    /// A copy of the router that shares its route table: the same timeouts, a clone of its
    /// bind address, and not serving.
    pub fn copy_stopped(&self) -> (r: Router<B>)
        where B: Clone,
        requires
            self.wf(),
        ensures
            r.wf(),
            !r.running_spec(),
            r.timeouts() == self.timeouts(),
            cloned::<B>(self.bind_addr_spec(), r.bind_addr_spec()),
    {
        let entries = self.route_timeouts.entries();
        let mut copy: KeyedVec<RouteKey, RouteTimeout> = KeyedVec::new();
        let mut i: usize = 0;
        proof {
            self.route_timeouts.lemma_view();
        }
        while i < entries.len()
            invariant
                copy.wf(),
                entries@ == self.route_timeouts.entry_seq(),
                i <= entries.len(),
                copy@ == crate::keyed::entries_map(entries@.take(i as int)),
            decreases entries.len() - i,
        {
            let (key, timeout) = &entries[i];
            copy.insert(key.copy(), *timeout);
            assert(entries@.take(i + 1).drop_last() =~= entries@.take(i as int));
            i = i + 1;
        }
        assert(entries@.take(entries.len() as int) =~= entries@);
        Router { bind_addr: self.bind_addr.clone(), route_timeouts: copy, running: false }
    }

    /// Marks the router as serving.
    pub fn start(&mut self)
        requires
            old(self).wf(),
        ensures
            final(self).wf(),
            final(self).running_spec(),
            final(self).timeouts() == old(self).timeouts(),
            final(self).bind_addr_spec() == old(self).bind_addr_spec(),
    {
        self.running = true;
    }

    /// Marks the router as stopped; returns whether it was serving (and so must be signalled).
    pub fn stop(&mut self) -> (r: bool)
        requires
            old(self).wf(),
        ensures
            final(self).wf(),
            r == old(self).running_spec(),
            !final(self).running_spec(),
            final(self).timeouts() == old(self).timeouts(),
            final(self).bind_addr_spec() == old(self).bind_addr_spec(),
    {
        let was = self.running;
        self.running = false;
        was
    }
}

/// Changing a router's routes takes effect unless it is serving: a handler set for a method
/// and pattern is the one found for them, and nothing else changes.
pub proof fn lemma_route_then_lookup<H>(running: bool, before: Map<(Method, Seq<char>), H>, after: Map<(Method, Seq<char>), H>, key: (Method, Seq<char>), handler: H, other: (Method, Seq<char>))
    requires
        !running ==> after == before.insert(key, handler),
        running ==> after == before,
    ensures
        !running ==> after.contains_key(key) && after[key] == handler,
        other != key ==> (after.contains_key(other) == before.contains_key(other)) && (before.contains_key(other) ==> after[other] == before[other]),
        running ==> after == before,
{
}

/// The prefix that marks a Unix socket path in a bind address.
pub open spec fn unix_prefix() -> Seq<char> {
    seq!['u', 'n', 'i', 'x', ':']
}

/// Where a server listens, as given: a Unix socket path, or a TCP address in text that is
/// still to be resolved.
#[derive(Debug)]
pub enum BindAddr {
    Unix { path: String },
    Tcp { addr: String },
}

impl Clone for BindAddr {
    /// The same address.
    fn clone(&self) -> (r: BindAddr)
        ensures
            r@ == self@,
    {
        match self {
            BindAddr::Unix { path } => BindAddr::Unix { path: path.clone() },
            BindAddr::Tcp { addr } => BindAddr::Tcp { addr: addr.clone() },
        }
    }
}

/// A clone of a bind address is the same address, so a router copied by `copy_stopped` binds
/// where the original binds.
pub proof fn lemma_copy_keeps_bind_addr(original: BindAddr, copy: BindAddr)
    requires
        cloned::<BindAddr>(original, copy),
    ensures
        copy@ == original@,
{
}

/// A bind address in mathematical form.
pub enum BindAddrView {
    Unix(Seq<char>),
    Tcp(Seq<char>),
}

impl View for BindAddr {
    type V = BindAddrView;

    open spec fn view(&self) -> BindAddrView {
        match self {
            BindAddr::Unix { path } => BindAddrView::Unix(path@),
            BindAddr::Tcp { addr } => BindAddrView::Tcp(addr@),
        }
    }
}

/// The bind address that one string names: after `unix:` a socket path, else a TCP address.
pub open spec fn bind_text_spec(s: Seq<char>) -> BindAddrView {
    if has_prefix_spec(s, unix_prefix()) {
        BindAddrView::Unix(s.skip(5))
    } else {
        BindAddrView::Tcp(s)
    }
}

/// The port argument of the two-part form of a bind address.
pub enum PortArg {
    Integer(i64),
    Text(String),
    /// A value of any other kind.
    Other,
}

/// Why a bind address was refused.
#[derive(Debug, Clone, Copy, PartialEq, Eq, Structural)]
pub enum BindError {
    /// The address part is not a TCP host (it names a Unix socket).
    InvalidAddress,
    /// The port is neither an integer nor text.
    InvalidPort,
    /// The port text is not a number from 0 to 65535.
    PortNotNumber,
}

/// The port an integer stands for: its low 16 bits.
pub open spec fn wrap_port_spec(i: i64) -> nat {
    ((i as int) % 65536) as nat
}

/// The text `host:port` that the two-part form of a bind address names, or why it is refused.
pub open spec fn bind_pair_spec(addr: Seq<char>, port: PortArg) -> Result<Seq<char>, BindError> {
    if has_prefix_spec(addr, unix_prefix()) {
        Err(BindError::InvalidAddress)
    } else {
        match port {
            PortArg::Integer(i) => Ok(addr + seq![':'] + decimal(wrap_port_spec(i))),
            PortArg::Text(t) => match parse_u64_spec(t@) {
                Some(v) => if v <= 65535 {
                    Ok(addr + seq![':'] + decimal(v as nat))
                } else {
                    Err(BindError::PortNotNumber)
                },
                None => Err(BindError::PortNotNumber),
            },
            PortArg::Other => Err(BindError::InvalidPort),
        }
    }
}

fn wrap_port(i: i64) -> (r: u16)
    ensures
        r as nat == wrap_port_spec(i),
{
    let mut m: i64 = i % 65536;
    if m < 0 {
        m = m + 65536;
    }
    m as u16
}

impl BindAddr {
    /// The bind address that one string names.
    pub fn from_text(s: &str) -> (r: BindAddr)
        ensures
            r@ == bind_text_spec(s@),
    {
        proof {
            reveal_strlit("unix:");
        }
        assert("unix:"@ =~= unix_prefix());
        if has_prefix(s, "unix:") {
            BindAddr::Unix { path: suffix_from(s, 5) }
        } else {
            BindAddr::Tcp { addr: s.to_string() }
        }
    }

    /// The two-part form: a host and a port, joined as `host:port`.
    pub fn pair_text(addr: &str, port: &PortArg) -> (r: Result<String, BindError>)
        ensures
            match r {
                Ok(t) => bind_pair_spec(addr@, *port) == Ok::<Seq<char>, BindError>(t@),
                Err(e) => bind_pair_spec(addr@, *port) == Err::<Seq<char>, BindError>(e),
            },
    {
        proof {
            reveal_strlit("unix:");
            reveal_strlit(":");
        }
        assert("unix:"@ =~= unix_prefix());
        if has_prefix(addr, "unix:") {
            return Err(BindError::InvalidAddress);
        }
        let n: u64 = match port {
            PortArg::Integer(i) => wrap_port(*i) as u64,
            PortArg::Text(t) => match parse_u64(t.as_str()) {
                Some(v) => {
                    if v <= 65535 {
                        v
                    } else {
                        return Err(BindError::PortNotNumber);
                    }
                },
                None => return Err(BindError::PortNotNumber),
            },
            PortArg::Other => return Err(BindError::InvalidPort),
        };
        let mut out = addr.to_string();
        append_str(&mut out, ":");
        let digits = format_u64(n);
        append_str(&mut out, digits.as_str());
        assert(":"@ =~= seq![':']);
        Ok(out)
    }

    /// The label a new router's rate limit is asked under: `unix:` and the socket path, or
    /// `tcp:` and the address.
    pub fn action_label(&self) -> (r: String)
        ensures
            r@ == (match self@ {
                BindAddrView::Unix(p) => "unix:"@ + p,
                BindAddrView::Tcp(a) => "tcp:"@ + a,
            }),
    {
        match self {
            BindAddr::Unix { path } => {
                let mut s = "unix:".to_string();
                append_str(&mut s, path.as_str());
                s
            },
            BindAddr::Tcp { addr } => {
                let mut s = "tcp:".to_string();
                append_str(&mut s, addr.as_str());
                s
            },
        }
    }

    /// The kind of the address: `unix` or `tcp`.
    pub fn kind_name(&self) -> (r: &'static str)
        ensures
            r@ == (match self@ {
                BindAddrView::Unix(_) => "unix"@,
                BindAddrView::Tcp(_) => "tcp"@,
            }),
    {
        match self {
            BindAddr::Unix { .. } => "unix",
            BindAddr::Tcp { .. } => "tcp",
        }
    }
}

/// What a route handler's first returned value was.
pub enum HandlerValue<R> {
    /// A server response object.
    Response(R),
    /// An object of another kind.
    OtherObject,
    /// A string.
    Text(String),
    /// Any other value, by its debug text.
    Other(String),
}

/// How a route handler's run ended.
pub enum HandlerRun<R> {
    /// The run could not be started or waited on; the error's text.
    Failed(String),
    /// The handler did not finish.
    Unfinished,
    /// The handler raised an error; its text.
    Raised(String),
    /// The handler returned; its first value, if any.
    Returned(Option<HandlerValue<R>>),
}

/// How a request was answered upstream, as seen by the waiting connection.
pub enum UpstreamOutcome<R> {
    /// The handler's answer.
    Answered(R),
    /// The answering side went away; the error's text.
    Dropped(String),
    /// No answer came within the route's timeout.
    TimedOut,
}

/// Why a routed request did not reach a handler.
pub enum RouteFailure {
    /// No handler for the request's method and pattern.
    NoRoute,
    /// The handler's thread could not be created; the error's text.
    ThreadCreation(String),
    /// The request object could not be built.
    RequestObject,
}

/// The answer to a request: a response built by a handler, or a status with a text body.
pub enum ResponsePlan<R> {
    Respond(R),
    Status { code: u16, body: String },
}

/// An answer in mathematical form.
pub enum PlanView<R> {
    Respond(R),
    Status(u16, Seq<char>),
}

impl<R> View for ResponsePlan<R> {
    type V = PlanView<R>;

    open spec fn view(&self) -> PlanView<R> {
        match self {
            ResponsePlan::Respond(r) => PlanView::Respond(*r),
            ResponsePlan::Status { code, body } => PlanView::Status(*code, body@),
        }
    }
}

/// The answer to a handler's first returned value: a response object is used as it is, another
/// object is an upstream error, text and other values are sent with status 200, and no value
/// at all gives an empty 204.
pub open spec fn value_plan<R>(first: Option<HandlerValue<R>>) -> PlanView<R> {
    match first {
        None => PlanView::Status(204, Seq::empty()),
        Some(HandlerValue::Response(r)) => PlanView::Respond(r),
        Some(HandlerValue::OtherObject) => PlanView::Status(500, "Invalid response from upstream!"@),
        Some(HandlerValue::Text(s)) => PlanView::Status(200, s@),
        Some(HandlerValue::Other(d)) => PlanView::Status(200, d@),
    }
}

/// The answer to a handler's run: errors give 500 with their text, an unfinished run an
/// empty 204, and a return the answer to its first value.
pub open spec fn run_plan<R>(run: HandlerRun<R>) -> PlanView<R> {
    match run {
        HandlerRun::Failed(m) => PlanView::Status(500, m@),
        HandlerRun::Unfinished => PlanView::Status(204, Seq::empty()),
        HandlerRun::Raised(m) => PlanView::Status(500, m@),
        HandlerRun::Returned(v) => value_plan(v),
    }
}

/// What the waiting connection sends: the handler's answer, 500 when the answering side went
/// away, 408 when the route's timeout passed.
pub open spec fn upstream_plan<R>(o: UpstreamOutcome<R>) -> PlanView<R> {
    match o {
        UpstreamOutcome::Answered(r) => PlanView::Respond(r),
        UpstreamOutcome::Dropped(m) => PlanView::Status(500, m@),
        UpstreamOutcome::TimedOut => PlanView::Status(408, "Timed out waiting for upstream (after {}ms)"@),
    }
}

/// The answer to a request that reached no handler.
pub open spec fn failure_plan<R>(f: RouteFailure) -> PlanView<R> {
    match f {
        RouteFailure::NoRoute => PlanView::Status(404, "No route found for request"@),
        RouteFailure::ThreadCreation(m) => PlanView::Status(500, m@),
        RouteFailure::RequestObject => PlanView::Status(500, "Failed to create request object"@),
    }
}

fn status_plan<R>(code: u16, body: String) -> (r: ResponsePlan<R>)
    ensures
        r@ == PlanView::<R>::Status(code, body@),
{
    ResponsePlan::Status { code, body }
}

/// The answer to a handler's first returned value.
pub fn plan_for_value<R>(first: Option<HandlerValue<R>>) -> (r: ResponsePlan<R>)
    ensures
        r@ == value_plan(first),
{
    match first {
        None => status_plan(204, String::new()),
        Some(HandlerValue::Response(r)) => ResponsePlan::Respond(r),
        Some(HandlerValue::OtherObject) => status_plan(500, "Invalid response from upstream!".to_string()),
        Some(HandlerValue::Text(s)) => status_plan(200, s),
        Some(HandlerValue::Other(d)) => status_plan(200, d),
    }
}

/// The answer to a handler's run.
pub fn plan_for_run<R>(run: HandlerRun<R>) -> (r: ResponsePlan<R>)
    ensures
        r@ == run_plan(run),
{
    match run {
        HandlerRun::Failed(m) => status_plan(500, m),
        HandlerRun::Unfinished => status_plan(204, String::new()),
        HandlerRun::Raised(m) => status_plan(500, m),
        HandlerRun::Returned(v) => plan_for_value(v),
    }
}

/// What the waiting connection sends for an upstream outcome.
pub fn plan_for_upstream<R>(o: UpstreamOutcome<R>) -> (r: ResponsePlan<R>)
    ensures
        r@ == upstream_plan(o),
{
    match o {
        UpstreamOutcome::Answered(r) => ResponsePlan::Respond(r),
        UpstreamOutcome::Dropped(m) => status_plan(500, m),
        UpstreamOutcome::TimedOut => status_plan(408, "Timed out waiting for upstream (after {}ms)".to_string()),
    }
}

/// The answer to a request that reached no handler.
pub fn plan_for_failure<R>(f: RouteFailure) -> (r: ResponsePlan<R>)
    ensures
        r@ == failure_plan::<R>(f),
{
    match f {
        RouteFailure::NoRoute => status_plan(404, "No route found for request".to_string()),
        RouteFailure::ThreadCreation(m) => status_plan(500, m),
        RouteFailure::RequestObject => status_plan(500, "Failed to create request object".to_string()),
    }
}

/// The handler a routed request goes to, or the answer when there is none.
pub fn dispatch<'a, H, R>(routes: &'a RouteTable<H>, key: &RouteKey) -> (r: Result<&'a H, ResponsePlan<R>>)
    requires
        routes.wf(),
    ensures
        routes@.contains_key(key@) ==> (r matches Ok(h) && *h == routes@[key@]),
        !routes@.contains_key(key@) ==> (r matches Err(p) && p@ == failure_plan::<R>(RouteFailure::NoRoute)),
{
    match routes.get(key) {
        Some(h) => Ok(h),
        None => Err(plan_for_failure(RouteFailure::NoRoute)),
    }
}

/// Every answer that is not a handler's own response carries a status that HTTP accepts.
pub proof fn lemma_plans_have_valid_status<R>(run: HandlerRun<R>, o: UpstreamOutcome<R>, f: RouteFailure)
    ensures
        run_plan(run) matches PlanView::Status(c, _) ==> valid_status_spec(c),
        upstream_plan(o) matches PlanView::Status(c, _) ==> valid_status_spec(c),
        failure_plan::<R>(f) matches PlanView::Status(c, _) ==> valid_status_spec(c),
{
}

/// Why a request body could not be used.
#[derive(Debug, Clone, Copy, PartialEq, Eq, Structural)]
pub enum BodyExhausted {
    /// It was already read.
    Read,
    /// It was already given to a response.
    Given,
}

impl BodyExhausted {
    /// The error's message.
    pub fn message(&self) -> (r: &'static str)
        ensures
            r@ == (match *self {
                BodyExhausted::Read => "Response has been exhausted"@,
                BodyExhausted::Given => "Body has been exhausted"@,
            }),
    {
        match self {
            BodyExhausted::Read => "Response has been exhausted",
            BodyExhausted::Given => "Body has been exhausted",
        }
    }
}

/// A request's body: read once, or given once to a response.
pub struct ServerRequestBody<B> {
    body: Option<B>,
}

impl<B> ServerRequestBody<B> {
    /// The body, while it has not been used.
    pub closed spec fn pending(&self) -> Option<B> {
        self.body
    }

    /// A request's body, not yet used.
    pub fn new(body: B) -> (r: ServerRequestBody<B>)
        ensures
            r.pending() == Some(body),
    {
        ServerRequestBody { body: Some(body) }
    }

    /// Takes the body to read it (as bytes, a buffer or JSON).
    pub fn take_for_read(&mut self) -> (r: Result<B, BodyExhausted>)
        ensures
            final(self).pending() is None,
            match old(self).pending() {
                Some(b) => r == Ok::<B, BodyExhausted>(b),
                None => r == Err::<B, BodyExhausted>(BodyExhausted::Read),
            },
    {
        match self.body.take() {
            Some(b) => Ok(b),
            None => Err(BodyExhausted::Read),
        }
    }

    /// Takes the body to send it as a response's body.
    pub fn take_for_response(&mut self) -> (r: Result<B, BodyExhausted>)
        ensures
            final(self).pending() is None,
            match old(self).pending() {
                Some(b) => r == Ok::<B, BodyExhausted>(b),
                None => r == Err::<B, BodyExhausted>(BodyExhausted::Given),
            },
    {
        match self.body.take() {
            Some(b) => Ok(b),
            None => Err(BodyExhausted::Given),
        }
    }
}

/// The most bytes a body read takes: the limit asked for, or no limit.
pub fn read_limit(limit: Option<usize>) -> (r: usize)
    ensures
        r == (match limit { Some(l) => l, None => usize::MAX }),
{
    match limit {
        Some(l) => l,
        None => usize::MAX,
    }
}

} // verus!
