//! The proxy pool: which protocols a request stands for, the address of the
//! listing service, the reading of its answer, and the rotation through the
//! pool as a state machine.
//!
//! A rotation performs no request. It says what to ask of the listing
//! service and which proxy to probe, and is handed what came of it.

use vstd::prelude::*;
use vstd::string::StringExecFns;
use crate::engine::{warn_line, LogLine, LogLineView};
use crate::errors::{AppError, AppErrorView};
use crate::grabber::random_backoff_ms;
use crate::text::{
    contains, contains_seq, contains_string, decimal, decimal_of, join, joined, lowercase_of,
    str_eq, to_lowercase, to_uppercase, trim, trimmed, uppercase_of,
};

verus! {

/// How many proxies one request to the listing service asks for.
pub const DEFAULT_PROXY_FETCH_COUNT: i32 = 6;

/// How often the listing service is asked before a protocol is given up.
pub const PROXY_API_RETRY_MAX: u32 = 3;

/// The shortest pause between two requests to the listing service, in milliseconds.
pub const PROXY_API_RETRY_BACKOFF_MIN_MS: u64 = 400;

/// The longest pause between two requests to the listing service, in milliseconds.
pub const PROXY_API_RETRY_BACKOFF_MAX_MS: u64 = 900;

/// The protocols that are tried where the caller names none, in their order.
pub open spec fn all_protocols() -> Seq<Seq<char>> {
    seq!["https"@, "http"@, "socks5"@]
}

/// The protocols that a request stands for, or why it stands for none.
pub open spec fn resolved_protocols(protocol: Seq<char>) -> Result<Seq<Seq<char>>, Seq<char>> {
    let p = lowercase_of(trimmed(protocol));
    if p.len() == 0 || p == "all"@ {
        Ok(all_protocols())
    } else if p == "http"@ || p == "https"@ || p == "socks5"@ {
        Ok(seq![p])
    } else if p == "socks4"@ {
        Err("socks4 is not supported"@)
    } else {
        Err("unsupported proxy protocol: "@ + p)
    }
}

/// Resolves the protocols that a request stands for: `http`, `https` or
/// `socks5` alone; all three for `all` and for no name; an error for
/// anything else.
pub fn resolve_proxy_protocols(protocol: &str) -> (r: Result<Vec<String>, AppError>)
    ensures
        match r {
            Ok(list) => resolved_protocols(protocol@) == Ok::<Seq<Seq<char>>, Seq<char>>(
                list.deep_view(),
            ),
            Err(e) => resolved_protocols(protocol@) matches Err(m) && e@
                == AppErrorView::ProxyError(m),
        },
{
    let normalized = to_lowercase(trim(protocol).as_str());
    let p = normalized.as_str();
    if p.is_empty() || str_eq(p, "all") {
        let mut list: Vec<String> = Vec::new();
        list.push(String::from_str("https"));
        list.push(String::from_str("http"));
        list.push(String::from_str("socks5"));
        assert(list.deep_view() =~= all_protocols());
        return Ok(list);
    }
    if str_eq(p, "http") || str_eq(p, "https") || str_eq(p, "socks5") {
        let mut list: Vec<String> = Vec::new();
        list.push(normalized);
        assert(list.deep_view() =~= seq![normalized@]);
        return Ok(list);
    }
    if str_eq(p, "socks4") {
        return Err(AppError::ProxyError(String::from_str("socks4 is not supported")));
    }
    let mut m = String::from_str("unsupported proxy protocol: ");
    m.append(p);
    Err(AppError::ProxyError(m))
}

/// The country of a request: only `CN` is served, so every request stands for it.
pub fn normalize_proxy_country(country: &str) -> (r: String)
    ensures
        r@ == "CN"@,
{
    let normalized = to_uppercase(trim(country).as_str());
    if str_eq(normalized.as_str(), "CN") {
        normalized
    } else {
        String::from_str("CN")
    }
}

/// The address of a proxy: the host as it stands where it names a scheme,
/// else the protocol in front of it; empty for an empty host.
pub open spec fn proxy_url_of(protocol: Seq<char>, host: Seq<char>) -> Seq<char> {
    let h = trimmed(host);
    if h.len() == 0 {
        Seq::empty()
    } else if contains_seq(h, "://"@) {
        h
    } else {
        protocol + "://"@ + h
    }
}

/// Builds the address of a proxy from a protocol and a host.
pub fn build_proxy_url(protocol: &str, host: &str) -> (r: String)
    ensures
        r@ == proxy_url_of(protocol@, host@),
{
    let h = trim(host);
    if h.as_str().is_empty() {
        return String::new();
    }
    if contains(h.as_str(), "://") {
        return h;
    }
    let mut out = String::from_str(protocol);
    out.append("://");
    out.append(h.as_str());
    out
}

/// The address that asks the listing service for proxies.
pub open spec fn listing_url_of(protocol: Seq<char>, count: i32) -> Seq<char> {
    "https://proxy.scdn.io/api/get_proxy.php?protocol="@ + (if protocol.len() == 0 {
        "https"@
    } else {
        protocol
    }) + "&count="@ + decimal_of(
        if count <= 0 {
            DEFAULT_PROXY_FETCH_COUNT as int
        } else {
            count as int
        },
    ) + "&country_code="@ + uppercase_of("CN"@)
}

/// The address that asks the listing service for `count` proxies of a
/// protocol; `https` where none is named, six where the count is not positive.
pub fn proxy_list_url(protocol: &str, country: &str, count: i32) -> (r: String)
    ensures
        r@ == listing_url_of(protocol@, count),
{
    let count = if count <= 0 {
        DEFAULT_PROXY_FETCH_COUNT
    } else {
        count
    };
    let country = normalize_proxy_country(country);
    let mut out = String::from_str("https://proxy.scdn.io/api/get_proxy.php?protocol=");
    if protocol.is_empty() {
        out.append("https");
    } else {
        out.append(protocol);
    }
    out.append("&count=");
    out.append(decimal(count as i64).as_str());
    proof {
        reveal_strlit("CN");
    }
    if !country.as_str().is_empty() {
        out.append("&country_code=");
        out.append(to_uppercase(country.as_str()).as_str());
    }
    out
}

/// The hosts of a listing: each trimmed, the empty ones dropped, and of
/// equal hosts the first kept.
pub open spec fn listed_hosts(proxies: Seq<Seq<char>>) -> Seq<Seq<char>>
    decreases proxies.len(),
{
    if proxies.len() == 0 {
        Seq::empty()
    } else {
        let rest = listed_hosts(proxies.drop_last());
        let host = trimmed(proxies.last());
        if host.len() == 0 || rest.contains(host) {
            rest
        } else {
            rest.push(host)
        }
    }
}

/// What an answer of the listing service yields: its hosts, or the error
/// that it stands for.
pub open spec fn listing_of(
    http_ok: bool,
    status: Seq<char>,
    code: i32,
    message: Seq<char>,
    proxies: Seq<Seq<char>>,
) -> Result<Seq<Seq<char>>, Seq<char>> {
    if !http_ok {
        Err("proxy api http "@ + status)
    } else if code != 200 {
        Err(
            if message.len() == 0 {
                "proxy api error"@
            } else {
                message
            },
        )
    } else if listed_hosts(proxies).len() == 0 {
        Err("proxy list is empty"@)
    } else {
        Ok(listed_hosts(proxies))
    }
}

/// Reads an answer of the listing service: whether its status was a
/// success, the text of the status, and the code, the message and the
/// proxies of its body.
pub fn read_proxy_listing(
    http_ok: bool,
    status: &str,
    code: i32,
    message: &str,
    proxies: &Vec<String>,
) -> (r: Result<Vec<String>, AppError>)
    ensures
        match r {
            Ok(hosts) => listing_of(http_ok, status@, code, message@, proxies.deep_view()) == Ok::<
                Seq<Seq<char>>,
                Seq<char>,
            >(hosts.deep_view()),
            Err(e) => listing_of(http_ok, status@, code, message@, proxies.deep_view())
                matches Err(m) && e@ == AppErrorView::ProxyError(m),
        },
{
    if !http_ok {
        let mut m = String::from_str("proxy api http ");
        m.append(status);
        return Err(AppError::ProxyError(m));
    }
    if code != 200 {
        let m = if message.is_empty() {
            String::from_str("proxy api error")
        } else {
            String::from_str(message)
        };
        return Err(AppError::ProxyError(m));
    }
    let ghost s = proxies.deep_view();
    let mut out: Vec<String> = Vec::new();
    let mut i: usize = 0;
    assert(s.take(0) =~= Seq::empty());
    assert(out.deep_view() =~= Seq::empty());
    while i < proxies.len()
        invariant
            i <= proxies.len(),
            s == proxies.deep_view(),
            out.deep_view() == listed_hosts(s.take(i as int)),
        decreases proxies.len() - i,
    {
        proof {
            assert(s.take(i as int + 1).drop_last() =~= s.take(i as int));
            assert(s.take(i as int + 1).last() == proxies[i as int]@);
        }
        let host = trim(proxies[i].as_str());
        if !host.as_str().is_empty() && !contains_string(&out, host.as_str()) {
            let ghost before = out.deep_view();
            out.push(host);
            assert(out.deep_view() =~= before.push(host@));
        }
        i += 1;
    }
    assert(s.take(i as int) =~= s);
    if out.len() == 0 {
        return Err(AppError::ProxyError(String::from_str("proxy list is empty")));
    }
    Ok(out)
}

/// Judges the answer to a probe through a proxy: a status of 400 or more
/// disqualifies the proxy, any other status qualifies it.
pub fn judge_probe(status_code: u16, status: &str) -> (r: Result<(), AppError>)
    ensures
        match r {
            Ok(_) => status_code < 400,
            Err(e) => status_code >= 400 && e@ == AppErrorView::ProxyError(
                "proxy probe http "@ + status@,
            ),
        },
{
    let success = 200 <= status_code && status_code <= 299;
    if !success && status_code >= 400 {
        let mut m = String::from_str("proxy probe http ");
        m.append(status);
        return Err(AppError::ProxyError(m));
    }
    Ok(())
}

/// The proxies that were listed and not yet tried, with the protocol and
/// the country for which they were listed.
#[derive(Debug)]
pub struct ProxyPool {
    pub pool: Vec<String>,
    pub protocol: String,
    pub country: String,
}

pub struct ProxyPoolView {
    pub pool: Seq<Seq<char>>,
    pub protocol: Seq<char>,
    pub country: Seq<char>,
}

impl View for ProxyPool {
    type V = ProxyPoolView;

    open spec fn view(&self) -> ProxyPoolView {
        ProxyPoolView {
            pool: self.pool.deep_view(),
            protocol: self.protocol@,
            country: self.country@,
        }
    }
}

impl ProxyPool {
    /// A pool that holds nothing.
    pub fn new() -> (r: ProxyPool)
        ensures
            r@ == (ProxyPoolView {
                pool: Seq::empty(),
                protocol: Seq::empty(),
                country: Seq::empty(),
            }),
    {
        let r = ProxyPool { pool: Vec::new(), protocol: String::new(), country: String::new() };
        assert(r.pool.deep_view() =~= Seq::empty());
        r
    }

    /// Empties the pool, so that the next rotation asks the listing service again.
    pub fn clear(&mut self)
        ensures
            final(self)@ == (ProxyPoolView { pool: Seq::empty(), ..old(self)@ }),
    {
        self.pool.clear();
        assert(self.pool.deep_view() =~= Seq::empty());
    }
}

impl Default for ProxyPool {
    fn default() -> (r: ProxyPool)
        ensures
            r@ == (ProxyPoolView {
                pool: Seq::empty(),
                protocol: Seq::empty(),
                country: Seq::empty(),
            }),
    {
        ProxyPool::new()
    }
}

/// What a rotation waits for.
#[derive(Debug, Clone, Copy, PartialEq, Eq, Structural)]
pub enum RotationPhase {
    /// The listing service was asked.
    Fetching,
    /// The pause before the listing service is asked again.
    Pausing,
    /// A proxy is being probed.
    Probing,
    /// The rotation is over.
    Done,
}

/// One rotation: the protocols that it goes through, the one in hand, the
/// failures noted so far, and the proxy that is being probed.
#[derive(Debug)]
pub struct Rotation {
    pub protocols: Vec<String>,
    pub country: String,
    pub index: usize,
    pub notes: Vec<String>,
    pub fetch_attempt: u32,
    pub last_error: Option<String>,
    pub phase: RotationPhase,
    pub candidate: String,
}

pub struct RotationView {
    pub protocols: Seq<Seq<char>>,
    pub country: Seq<char>,
    pub index: int,
    pub notes: Seq<Seq<char>>,
    pub fetch_attempt: u32,
    pub last_error: Option<Seq<char>>,
    pub phase: RotationPhase,
    pub candidate: Seq<char>,
}

impl View for Rotation {
    type V = RotationView;

    open spec fn view(&self) -> RotationView {
        RotationView {
            protocols: self.protocols.deep_view(),
            country: self.country@,
            index: self.index as int,
            notes: self.notes.deep_view(),
            fetch_attempt: self.fetch_attempt,
            last_error: self.last_error.deep_view(),
            phase: self.phase,
            candidate: self.candidate@,
        }
    }
}

/// What the caller does next.
#[derive(Debug)]
pub enum RotationStep {
    /// Ask the listing service at this address, and hand in its answer.
    Fetch { url: String },
    /// Pause for `ms`, then hand in `Paused`.
    Pause { ms: u64 },
    /// Probe the site through this proxy, and hand in what came of it.
    Probe { proxy_url: String },
    /// The rotation found this proxy.
    Found(String),
    /// The rotation found no proxy.
    Failed(AppError),
}

pub enum RotationStepView {
    Fetch { url: Seq<char> },
    Pause { ms: u64 },
    Probe { proxy_url: Seq<char> },
    Found(Seq<char>),
    Failed(AppErrorView),
}

impl View for RotationStep {
    type V = RotationStepView;

    open spec fn view(&self) -> RotationStepView {
        match *self {
            RotationStep::Fetch { url } => RotationStepView::Fetch { url: url@ },
            RotationStep::Pause { ms } => RotationStepView::Pause { ms },
            RotationStep::Probe { proxy_url } => RotationStepView::Probe { proxy_url: proxy_url@ },
            RotationStep::Found(u) => RotationStepView::Found(u@),
            RotationStep::Failed(e) => RotationStepView::Failed(e@),
        }
    }
}

/// What came of the last step.
#[derive(Debug)]
pub enum RotationEvent {
    /// The hosts that the listing service named.
    Fetched(Vec<String>),
    /// The listing service could not be asked, or answered with an error.
    FetchFailed(AppError),
    /// The pause is over.
    Paused,
    /// The probe went through.
    ProbeOk,
    /// The probe failed.
    ProbeFailed(AppError),
}

pub enum RotationEventView {
    Fetched(Seq<Seq<char>>),
    FetchFailed(AppErrorView),
    Paused,
    ProbeOk,
    ProbeFailed(AppErrorView),
}

impl View for RotationEvent {
    type V = RotationEventView;

    open spec fn view(&self) -> RotationEventView {
        match *self {
            RotationEvent::Fetched(hosts) => RotationEventView::Fetched(hosts.deep_view()),
            RotationEvent::FetchFailed(e) => RotationEventView::FetchFailed(e@),
            RotationEvent::Paused => RotationEventView::Paused,
            RotationEvent::ProbeOk => RotationEventView::ProbeOk,
            RotationEvent::ProbeFailed(e) => RotationEventView::ProbeFailed(e@),
        }
    }
}

/// The place of the first host of `pool` that is not blank; the length of
/// the pool where every host is blank.
pub open spec fn first_host(pool: Seq<Seq<char>>) -> int
    decreases pool.len(),
{
    if pool.len() == 0 {
        0
    } else if trimmed(pool[0]).len() > 0 {
        0
    } else {
        1 + first_host(pool.drop_first())
    }
}

impl RotationView {
    /// The protocol in hand.
    pub open spec fn current(self) -> Seq<char> {
        self.protocols[self.index]
    }

    /// A protocol is in hand while the rotation waits for something.
    pub open spec fn wf(self) -> bool {
        &&& 0 <= self.index <= self.protocols.len()
        &&& (!(self.phase is Done) ==> self.index < self.protocols.len())
    }

    /// Whether the pool has to be filled anew for the protocol in hand.
    pub open spec fn needs_fetch(self, pool: ProxyPoolView) -> bool {
        self.current() != pool.protocol || self.country != pool.country || pool.pool.len() == 0
    }

    /// The failure of a rotation that has gone through every protocol: the
    /// notes on each, joined.
    pub open spec fn failure(self) -> RotationStepView {
        RotationStepView::Failed(
            AppErrorView::ProxyError(
                if self.notes.len() == 0 {
                    "no proxy available"@
                } else {
                    joined(self.notes, "; "@)
                },
            ),
        )
    }

    /// The request to the listing service for the protocol in hand.
    pub open spec fn fetch_step(self) -> RotationStepView {
        RotationStepView::Fetch { url: listing_url_of(self.current(), DEFAULT_PROXY_FETCH_COUNT) }
    }

    /// The protocol in hand is given up with a note, and the next one is taken in hand.
    pub open spec fn give_up(self, reason: Seq<char>) -> RotationView {
        RotationView {
            notes: self.notes.push(self.current() + ": "@ + reason),
            index: self.index + 1,
            last_error: None,
            ..self
        }
    }

    /// The rotation begins on the protocol in hand with an empty pool: the
    /// listing service is asked, unless no protocol is left.
    pub open spec fn refill(self, pool: ProxyPoolView) -> (
        RotationView,
        ProxyPoolView,
        RotationStepView,
    ) {
        if 0 <= self.index < self.protocols.len() {
            (
                RotationView { phase: RotationPhase::Fetching, fetch_attempt: 1, ..self },
                pool,
                self.fetch_step(),
            )
        } else {
            (RotationView { phase: RotationPhase::Done, ..self }, pool, self.failure())
        }
    }

    /// The next host of the pool is taken out and probed; the blank ones
    /// before it are dropped. Where the pool runs out, the protocol is given
    /// up, with the last failure of a probe as the reason.
    pub open spec fn probe_next(self, pool: ProxyPoolView) -> (
        RotationView,
        ProxyPoolView,
        RotationStepView,
    ) {
        let k = first_host(pool.pool);
        if k < pool.pool.len() {
            let url = proxy_url_of(self.current(), pool.pool[k]);
            (
                RotationView { phase: RotationPhase::Probing, candidate: url, ..self },
                ProxyPoolView { pool: pool.pool.skip(k + 1), ..pool },
                RotationStepView::Probe { proxy_url: url },
            )
        } else {
            self.give_up(
                match self.last_error {
                    Some(e) => e,
                    None => "no proxy available"@,
                },
            ).refill(ProxyPoolView { pool: Seq::empty(), ..pool })
        }
    }

    /// The rotation turns to the protocol in hand: the pool is filled anew
    /// where it was listed for another protocol or country or is empty, else
    /// its next host is probed.
    pub open spec fn turn(self, pool: ProxyPoolView) -> (
        RotationView,
        ProxyPoolView,
        RotationStepView,
    ) {
        if !(0 <= self.index < self.protocols.len()) || self.needs_fetch(pool) {
            self.refill(pool)
        } else {
            self.probe_next(pool)
        }
    }

    /// The listing service gave nothing: it is asked again after a pause,
    /// and after the last try the protocol is given up.
    pub open spec fn fetch_failed(self, pool: ProxyPoolView, reason: Seq<char>, backoff_ms: u64) -> (
        RotationView,
        ProxyPoolView,
        RotationStepView,
    ) {
        if self.fetch_attempt < PROXY_API_RETRY_MAX {
            (
                RotationView {
                    phase: RotationPhase::Pausing,
                    fetch_attempt: (self.fetch_attempt + 1) as u32,
                    ..self
                },
                pool,
                RotationStepView::Pause { ms: backoff_ms },
            )
        } else {
            self.give_up(reason).turn(pool)
        }
    }

    /// What the rotation answers to an event.
    pub open spec fn advance(self, pool: ProxyPoolView, event: RotationEventView, backoff_ms: u64) -> (
        RotationView,
        ProxyPoolView,
        RotationStepView,
    ) {
        match (self.phase, event) {
            (RotationPhase::Fetching, RotationEventView::Fetched(hosts)) => if hosts.len() == 0 {
                self.fetch_failed(
                    pool,
                    AppErrorView::ProxyError("proxy list is empty"@).display(),
                    backoff_ms,
                )
            } else {
                RotationView { last_error: None, ..self }.probe_next(
                    ProxyPoolView { pool: hosts, protocol: self.current(), country: self.country },
                )
            },
            (RotationPhase::Fetching, RotationEventView::FetchFailed(e)) => self.fetch_failed(
                pool,
                e.display(),
                backoff_ms,
            ),
            (RotationPhase::Pausing, RotationEventView::Paused) => (
                RotationView { phase: RotationPhase::Fetching, ..self },
                pool,
                self.fetch_step(),
            ),
            (RotationPhase::Probing, RotationEventView::ProbeOk) => (
                RotationView { phase: RotationPhase::Done, ..self },
                pool,
                RotationStepView::Found(self.candidate),
            ),
            (RotationPhase::Probing, RotationEventView::ProbeFailed(e)) => RotationView {
                last_error: Some(e.display()),
                ..self
            }.probe_next(pool),
            _ => (
                RotationView { phase: RotationPhase::Done, ..self },
                pool,
                RotationStepView::Failed(AppErrorView::ProxyError("unexpected event"@)),
            ),
        }
    }

    /// The rotation as it begins, for the protocols that the request stands for.
    pub open spec fn fresh(protocols: Seq<Seq<char>>) -> RotationView {
        RotationView {
            protocols,
            country: "CN"@,
            index: 0,
            notes: Seq::empty(),
            fetch_attempt: 0,
            last_error: None,
            phase: RotationPhase::Done,
            candidate: Seq::empty(),
        }
    }
}

impl Rotation {
    /// The protocol in hand.
    fn current(&self) -> (r: &String)
        requires
            self@.index < self@.protocols.len(),
        ensures
            r@ == self@.current(),
    {
        &self.protocols[self.index]
    }

    fn failure(&self) -> (step: RotationStep)
        ensures
            step@ == self@.failure(),
    {
        let message = if self.notes.len() == 0 {
            String::from_str("no proxy available")
        } else {
            join(&self.notes, "; ")
        };
        RotationStep::Failed(AppError::ProxyError(message))
    }

    fn fetch_step(&self) -> (step: RotationStep)
        requires
            self@.index < self@.protocols.len(),
        ensures
            step@ == self@.fetch_step(),
    {
        RotationStep::Fetch {
            url: proxy_list_url(
                self.current().as_str(),
                self.country.as_str(),
                DEFAULT_PROXY_FETCH_COUNT,
            ),
        }
    }

    fn give_up(&mut self, reason: &str)
        requires
            old(self)@.index < old(self)@.protocols.len(),
        ensures
            final(self)@ == old(self)@.give_up(reason@),
    {
        let mut note = self.current().clone();
        note.append(": ");
        note.append(reason);
        let ghost before = self.notes.deep_view();
        self.notes.push(note);
        assert(self.notes.deep_view() =~= before.push(note@));
        assert(self.protocols.deep_view().len() == self.protocols.len());
        self.index = self.index + 1;
        self.last_error = None;
    }

    fn refill(&mut self) -> (step: RotationStep)
        requires
            old(self)@.index <= old(self)@.protocols.len(),
        ensures
            final(self)@.wf(),
            forall|pool: ProxyPoolView|
                (final(self)@, pool, step@) == #[trigger] old(self)@.refill(pool),
    {
        if self.index < self.protocols.len() {
            self.phase = RotationPhase::Fetching;
            self.fetch_attempt = 1;
            self.fetch_step()
        } else {
            self.phase = RotationPhase::Done;
            self.failure()
        }
    }

    fn probe_next(&mut self, pool: &mut ProxyPool) -> (step: RotationStep)
        requires
            old(self)@.index < old(self)@.protocols.len(),
        ensures
            final(self)@.wf(),
            (final(self)@, final(pool)@, step@) == old(self)@.probe_next(old(pool)@),
    {
        let ghost start = pool.pool.deep_view();
        let ghost n: int = 0;
        assert(start.skip(0) =~= start);
        while pool.pool.len() > 0
            invariant
                0 <= n <= start.len(),
                start == old(pool)@.pool,
                pool.pool.deep_view() == start.skip(n),
                first_host(start) == n + first_host(start.skip(n)),
                pool.protocol == old(pool).protocol,
                pool.country == old(pool).country,
                *self == *old(self),
                self@.index < self@.protocols.len(),
            decreases pool.pool.len(),
        {
            let ghost before = pool.pool.deep_view();
            assert(before[0] == pool.pool[0]@);
            let host = pool.pool.remove(0);
            assert(pool.pool.deep_view() =~= before.drop_first());
            assert(start.skip(n).drop_first() =~= start.skip(n + 1));
            assert(start.skip(n)[0] == start[n]);
            let bare = trim(host.as_str());
            if !bare.as_str().is_empty() {
                let url = build_proxy_url(self.current().as_str(), host.as_str());
                self.candidate = url.clone();
                self.phase = RotationPhase::Probing;
                return RotationStep::Probe { proxy_url: url };
            }
            proof {
                n = n + 1;
            }
        }
        assert(pool.pool.deep_view() =~= Seq::empty());
        let reason = match &self.last_error {
            Some(e) => e.clone(),
            None => String::from_str("no proxy available"),
        };
        self.give_up(reason.as_str());
        self.refill()
    }

    fn turn(&mut self, pool: &mut ProxyPool) -> (step: RotationStep)
        requires
            old(self)@.index <= old(self)@.protocols.len(),
        ensures
            final(self)@.wf(),
            (final(self)@, final(pool)@, step@) == old(self)@.turn(old(pool)@),
    {
        if self.index >= self.protocols.len() {
            return self.refill();
        }
        let needs_fetch = !str_eq(self.current().as_str(), pool.protocol.as_str()) || !str_eq(
            self.country.as_str(),
            pool.country.as_str(),
        ) || pool.pool.len() == 0;
        if needs_fetch {
            self.refill()
        } else {
            self.probe_next(pool)
        }
    }

    fn fetch_failed(&mut self, pool: &mut ProxyPool, reason: &str, backoff_ms: u64) -> (step:
        RotationStep)
        requires
            old(self)@.index < old(self)@.protocols.len(),
        ensures
            final(self)@.wf(),
            (final(self)@, final(pool)@, step@) == old(self)@.fetch_failed(
                old(pool)@,
                reason@,
                backoff_ms,
            ),
    {
        if self.fetch_attempt < PROXY_API_RETRY_MAX {
            self.fetch_attempt = self.fetch_attempt + 1;
            self.phase = RotationPhase::Pausing;
            RotationStep::Pause { ms: backoff_ms }
        } else {
            self.give_up(reason);
            self.turn(pool)
        }
    }

    /// Begins a rotation for a protocol and a country. A protocol that is
    /// not served fails the rotation at once. Else the pool is used as it is
    /// where it was listed for the first protocol and the country and still
    /// holds hosts, and is filled anew where not.
    pub fn begin(pool: &mut ProxyPool, protocol: &str, country: &str) -> (r: (
        Rotation,
        RotationStep,
    ))
        ensures
            r.0@.wf(),
            match resolved_protocols(protocol@) {
                Err(m) => {
                    &&& r.0@ == RotationView::fresh(Seq::empty())
                    &&& r.1@ == RotationStepView::Failed(AppErrorView::ProxyError(m))
                    &&& final(pool)@ == old(pool)@
                },
                Ok(list) => (r.0@, final(pool)@, r.1@) == RotationView::fresh(list).turn(
                    old(pool)@,
                ),
            },
    {
        let mut rotation = Rotation {
            protocols: Vec::new(),
            country: normalize_proxy_country(country),
            index: 0,
            notes: Vec::new(),
            fetch_attempt: 0,
            last_error: None,
            phase: RotationPhase::Done,
            candidate: String::new(),
        };
        assert(rotation.notes.deep_view() =~= Seq::empty());
        assert(rotation.protocols.deep_view() =~= Seq::empty());
        match resolve_proxy_protocols(protocol) {
            Err(e) => (rotation, RotationStep::Failed(e)),
            Ok(list) => {
                rotation.protocols = list;
                let step = rotation.turn(pool);
                (rotation, step)
            },
        }
    }

    /// Answers an event, with the pause before the listing service is asked
    /// again given by the caller.
    pub fn advance(&mut self, pool: &mut ProxyPool, event: RotationEvent, backoff_ms: u64) -> (step:
        RotationStep)
        requires
            old(self)@.wf(),
        ensures
            final(self)@.wf(),
            (final(self)@, final(pool)@, step@) == old(self)@.advance(
                old(pool)@,
                event@,
                backoff_ms,
            ),
    {
        match event {
            RotationEvent::Fetched(hosts) => match self.phase {
                RotationPhase::Fetching => {
                    if hosts.len() == 0 {
                        let e = AppError::ProxyError(String::from_str("proxy list is empty"));
                        self.fetch_failed(pool, e.to_display_string().as_str(), backoff_ms)
                    } else {
                        pool.pool = hosts;
                        pool.protocol = self.current().clone();
                        pool.country = self.country.clone();
                        self.last_error = None;
                        self.probe_next(pool)
                    }
                },
                _ => self.unexpected(),
            },
            RotationEvent::FetchFailed(e) => match self.phase {
                RotationPhase::Fetching => self.fetch_failed(
                    pool,
                    e.to_display_string().as_str(),
                    backoff_ms,
                ),
                _ => self.unexpected(),
            },
            RotationEvent::Paused => match self.phase {
                RotationPhase::Pausing => {
                    self.phase = RotationPhase::Fetching;
                    self.fetch_step()
                },
                _ => self.unexpected(),
            },
            RotationEvent::ProbeOk => match self.phase {
                RotationPhase::Probing => {
                    self.phase = RotationPhase::Done;
                    RotationStep::Found(self.candidate.clone())
                },
                _ => self.unexpected(),
            },
            RotationEvent::ProbeFailed(e) => match self.phase {
                RotationPhase::Probing => {
                    self.last_error = Some(e.to_display_string());
                    self.probe_next(pool)
                },
                _ => self.unexpected(),
            },
        }
    }

    fn unexpected(&mut self) -> (step: RotationStep)
        requires
            old(self)@.wf(),
        ensures
            final(self)@.wf(),
            final(self)@ == (RotationView { phase: RotationPhase::Done, ..old(self)@ }),
            step@ == RotationStepView::Failed(AppErrorView::ProxyError("unexpected event"@)),
    {
        self.phase = RotationPhase::Done;
        RotationStep::Failed(AppError::ProxyError(String::from_str("unexpected event")))
    }

    /// Answers an event. The pause before the listing service is asked again
    /// is drawn between the shortest and the longest one.
    pub fn step(&mut self, pool: &mut ProxyPool, event: RotationEvent) -> (step: RotationStep)
        requires
            old(self)@.wf(),
        ensures
            final(self)@.wf(),
            exists|backoff_ms: u64|
                PROXY_API_RETRY_BACKOFF_MIN_MS <= backoff_ms <= PROXY_API_RETRY_BACKOFF_MAX_MS && (
                    final(self)@,
                    final(pool)@,
                    step@,
                ) == #[trigger] old(self)@.advance(old(pool)@, event@, backoff_ms),
    {
        let backoff_ms = random_backoff_ms(
            PROXY_API_RETRY_BACKOFF_MIN_MS,
            PROXY_API_RETRY_BACKOFF_MAX_MS,
        );
        self.advance(pool, event, backoff_ms)
    }
}

/// Hosts are used up as they are tried: a probe takes its host out of the
/// pool together with every host before it, so that no host is probed twice
/// in one rotation.
pub proof fn lemma_probe_consumes_host(r: RotationView, pool: ProxyPoolView)
    requires
        r.wf(),
        0 <= r.index < r.protocols.len(),
    ensures
        r.probe_next(pool).2 matches RotationStepView::Probe { proxy_url } ==> {
            let k = first_host(pool.pool);
            &&& 0 <= k < pool.pool.len()
            &&& proxy_url == proxy_url_of(r.current(), pool.pool[k])
            &&& r.probe_next(pool).1.pool == pool.pool.skip(k + 1)
            &&& r.probe_next(pool).1.pool.len() < pool.pool.len()
        },
        !(r.probe_next(pool).2 is Probe) ==> r.probe_next(pool).1.pool.len() == 0,
{
    lemma_first_host_in_range(pool.pool);
}

/// The first host that is not blank lies within the pool or just past its end.
pub proof fn lemma_first_host_in_range(pool: Seq<Seq<char>>)
    ensures
        0 <= first_host(pool) <= pool.len(),
        first_host(pool) < pool.len() ==> trimmed(pool[first_host(pool)]).len() > 0,
    decreases pool.len(),
{
    if pool.len() > 0 && trimmed(pool[0]).len() == 0 {
        lemma_first_host_in_range(pool.drop_first());
    }
}

/// The way that a submission takes: through a proxy, or directly.
#[derive(Debug)]
pub struct SubmitRoute {
    pub proxy_url: Option<String>,
    pub log: Option<LogLine>,
}

pub struct SubmitRouteView {
    pub proxy_url: Option<Seq<char>>,
    pub log: Option<LogLineView>,
}

impl View for SubmitRoute {
    type V = SubmitRouteView;

    open spec fn view(&self) -> SubmitRouteView {
        SubmitRouteView { proxy_url: self.proxy_url.deep_view(), log: self.log.deep_view() }
    }
}

/// Chooses the way of a submission from what the rotation gave: the proxy
/// that it found, or, where it found none, the direct way, with a warning.
pub fn route_for_submit(rotated: Result<String, AppError>) -> (r: SubmitRoute)
    ensures
        r@ == (match rotated {
            Ok(url) => SubmitRouteView { proxy_url: Some(url@), log: None },
            Err(e) => SubmitRouteView {
                proxy_url: None,
                log: Some(warn_line("proxy unavailable, submitting directly: "@ + e@.display())),
            },
        }),
{
    match rotated {
        Ok(url) => SubmitRoute { proxy_url: Some(url), log: None },
        Err(e) => {
            let mut m = String::from_str("proxy unavailable, submitting directly: ");
            m.append(e.to_display_string().as_str());
            SubmitRoute {
                proxy_url: None,
                log: Some(LogLine { level: String::from_str("warn"), message: m }),
            }
        },
    }
}

} // verus!
