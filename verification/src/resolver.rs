//! Service resolution: the cache that correlates a locator and an address
//! seen in separate datagrams, and the decisions of the resolver's session.

use vstd::prelude::*;
use crate::mdns::{MdnsFacade, name_view};
use crate::text::{short_text, short_eq};
use crate::wire::{srv_record, a_record};

verus! {

/// Age in milliseconds beyond which cached records are forgotten.
pub const CACHE_MAX_AGE_MS: u64 = 30000;

/// Pause between polls of the link while the network is not ready.
pub const LINK_POLL_MS: u64 = 400;

/// Time after the session opens at which retries start to back off.
pub const SOFT_DEADLINE_MS: u64 = 5000;

/// Extra pause per round once the soft deadline has passed.
pub const BACKOFF_MS: u64 = 250;

/// Pause between two rounds of the session.
pub const IDLE_MS: u64 = 40;

/// Time after which an unanswered query is sent again.
pub const QUERY_RESEND_MS: u64 = 1000;

/// The multicast group that queries are sent to and answers arrive on.
pub const MDNS_GROUP: [u8; 4] = [224, 0, 0, 251];

/// The UDP port of multicast DNS.
pub const MDNS_PORT: u16 = 5353;

/// Hop limit of outgoing queries.
pub const MDNS_HOP_LIMIT: u8 = 255;

/// What the cache remembers, as plain values.
pub struct CacheModel {
    pub hostname: Option<Seq<char>>,
    pub port: Option<u16>,
    pub address: Option<Seq<u8>>,
    pub last_update: Option<u64>,
}

/// Records of one pending resolution, kept between datagrams.
pub struct ResolutionCache {
    pub hostname: Option<heapless::String<64>>,
    pub port: Option<u16>,
    pub address: Option<[u8; 4]>,
    pub last_update: Option<u64>,
}

impl View for ResolutionCache {
    type V = CacheModel;

    open spec fn view(&self) -> CacheModel {
        CacheModel {
            hostname: name_view(self.hostname),
            port: self.port,
            address: match self.address {
                Some(address) => Some(address@),
                None => None,
            },
            last_update: self.last_update,
        }
    }
}

/// A cache that remembers nothing.
pub open spec fn empty_cache() -> CacheModel {
    CacheModel { hostname: None, port: None, address: None, last_update: None }
}

/// An address of four zero bytes stands for "none".
pub open spec fn is_unset(address: Seq<u8>) -> bool {
    address.len() == 4 && address[0] == 0 && address[1] == 0 && address[2] == 0 && address[3] == 0
}

/// An answer is final when neither its port nor its address is the
/// placeholder.
pub open spec fn is_resolved(address: Seq<u8>, port: u16) -> bool {
    port != 0 && !is_unset(address)
}

/// Milliseconds from `earlier` to `now`, zero if the clock went backwards.
pub open spec fn elapsed(now: u64, earlier: u64) -> int {
    if now >= earlier {
        now - earlier
    } else {
        0
    }
}

/// The cache as it is consulted at time `now`: emptied if its records are
/// older than `CACHE_MAX_AGE_MS`.
pub open spec fn evicted(cache: CacheModel, now: u64) -> CacheModel {
    match cache.last_update {
        Some(stamp) => if elapsed(now, stamp) > CACHE_MAX_AGE_MS {
            empty_cache()
        } else {
            cache
        },
        None => cache,
    }
}

/// The cache after one datagram, and the answer given for it.
pub struct Correlation {
    pub cache: CacheModel,
    pub address: Seq<u8>,
    pub port: u16,
}

/// One datagram's effect. `bundled` is what a whole-message lookup found,
/// `srv` and `a` the locator and the address that the datagram holds.
///
/// Stale records are dropped first. A complete bundled answer wins and
/// leaves the cache alone. Otherwise a locator is paired with a cached
/// address, or else remembered; then an address is paired with the
/// remembered locator if the host names agree, or else remembered. With no
/// pairing the bundled answer is returned as it came.
pub open spec fn correlated(
    cache: CacheModel,
    bundled: (Seq<u8>, u16),
    srv: Option<(Seq<char>, u16)>,
    a: Option<(Seq<char>, Seq<u8>)>,
    now: u64,
) -> Correlation {
    let fresh = evicted(cache, now);
    if is_resolved(bundled.0, bundled.1) {
        Correlation { cache: fresh, address: bundled.0, port: bundled.1 }
    } else if srv is Some && fresh.address is Some {
        Correlation { cache: fresh, address: fresh.address.unwrap(), port: srv.unwrap().1 }
    } else {
        let noted = with_locator(fresh, srv, now);
        match a {
            Some((owner, address)) => if noted.hostname == Some(owner) && noted.port is Some {
                Correlation { cache: noted, address, port: noted.port.unwrap() }
            } else {
                Correlation {
                    cache: with_address(noted, address, now),
                    address: bundled.0,
                    port: bundled.1,
                }
            },
            None => Correlation { cache: noted, address: bundled.0, port: bundled.1 },
        }
    }
}

/// The cache after remembering a locator, if there is one.
pub open spec fn with_locator(
    cache: CacheModel,
    srv: Option<(Seq<char>, u16)>,
    now: u64,
) -> CacheModel {
    match srv {
        Some((target, port)) => CacheModel {
            hostname: Some(target),
            port: Some(port),
            address: cache.address,
            last_update: Some(now),
        },
        None => cache,
    }
}

/// The cache after remembering an address; the time stamp is set only if
/// none was there.
pub open spec fn with_address(cache: CacheModel, address: Seq<u8>, now: u64) -> CacheModel {
    CacheModel {
        hostname: cache.hostname,
        port: cache.port,
        address: Some(address),
        last_update: if cache.last_update is None {
            Some(now)
        } else {
            cache.last_update
        },
    }
}

/// The address and port that `esp_hal_mdns` reads out of the datagram
/// `data` as the answer to a query for `service`.
pub uninterp spec fn bundled_answer(service: Seq<char>, data: Seq<u8>) -> (Seq<u8>, u16);

/// A clock for queries that are built only to read a response.
fn idle_clock() -> (now: u64)
    ensures
        now == 0,
{
    0
}

/// `esp_hal_mdns::MdnsQuery::parse_mdns_query` on a query for
/// `service_name`, with no text key: the address and port of the first
/// service instance in `data` that answers the query, zeros where the
/// datagram does not say. The outcome depends on the service name and the
/// datagram alone.
#[verifier::external_body]
fn bundled_lookup(service_name: &str, data: &[u8]) -> (answer: ([u8; 4], u16))
    ensures
        answer.0@ == bundled_answer(service_name@, data@).0,
        answer.1 == bundled_answer(service_name@, data@).1,
{
    let mut query = esp_hal_mdns::MdnsQuery::new(service_name, 0, idle_clock);
    let (address, port, _) = query.parse_mdns_query(data, None);
    (address, port)
}

/// Whether all four bytes of an address are zero.
pub fn address_is_unset(address: &[u8; 4]) -> (unset: bool)
    ensures
        unset == is_unset(address@),
{
    address[0] == 0 && address[1] == 0 && address[2] == 0 && address[3] == 0
}

impl ResolutionCache {
    /// A cache with nothing in it.
    pub fn new() -> (cache: Self)
        ensures
            cache@ == empty_cache(),
    {
        ResolutionCache { hostname: None, port: None, address: None, last_update: None }
    }

    /// Forgets everything if the records are older than
    /// `CACHE_MAX_AGE_MS` at time `now`.
    pub fn evict(&mut self, now: u64)
        ensures
            final(self)@ == evicted(old(self)@, now),
    {
        match self.last_update {
            Some(stamp) => {
                if now.saturating_sub(stamp) > CACHE_MAX_AGE_MS {
                    self.hostname = None;
                    self.port = None;
                    self.address = None;
                    self.last_update = None;
                }
            },
            None => {},
        }
    }

    /// Whether `owner` is the host that the remembered locator points to.
    fn names_host(&self, owner: &heapless::String<64>) -> (same: bool)
        ensures
            same == (self@.hostname == Some(short_text(*owner))),
    {
        match &self.hostname {
            Some(hostname) => short_eq(owner, hostname),
            None => false,
        }
    }
}

impl MdnsFacade {
    /// Takes one datagram into account, given what the whole-message lookup
    /// made of it, and returns the answer for it: a final one if address
    /// and port are both set.
    pub fn correlate(
        &self,
        bundled: ([u8; 4], u16),
        data: &[u8],
        current_time: u64,
        cache: &mut ResolutionCache,
    ) -> (answer: ([u8; 4], u16))
        ensures
            final(cache)@ == correlated(
                old(cache)@,
                (bundled.0@, bundled.1),
                srv_record(data@),
                a_record(data@),
                current_time,
            ).cache,
            answer.0@ == correlated(
                old(cache)@,
                (bundled.0@, bundled.1),
                srv_record(data@),
                a_record(data@),
                current_time,
            ).address,
            answer.1 == correlated(
                old(cache)@,
                (bundled.0@, bundled.1),
                srv_record(data@),
                a_record(data@),
                current_time,
            ).port,
    {
        cache.evict(current_time);
        if bundled.1 != 0 && !address_is_unset(&bundled.0) {
            return bundled;
        }
        match self.parse_srv_record(data) {
            Some((srv_hostname, srv_port)) => {
                match cache.address {
                    Some(cached_address) => {
                        return (cached_address, srv_port);
                    },
                    None => {},
                }
                cache.hostname = Some(srv_hostname);
                cache.port = Some(srv_port);
                cache.last_update = Some(current_time);
            },
            None => {},
        }
        match self.parse_a_record(data) {
            Some((a_hostname, a_address)) => {
                if cache.names_host(&a_hostname) {
                    match cache.port {
                        Some(cached_port) => {
                            return (a_address, cached_port);
                        },
                        None => {},
                    }
                }
                cache.address = Some(a_address);
                if cache.last_update.is_none() {
                    cache.last_update = Some(current_time);
                }
            },
            None => {},
        }
        bundled
    }

    /// Takes one datagram into account: first the whole-message lookup for
    /// `service_name`, then the correlation of single records through the
    /// cache.
    pub fn parse_with_state(
        &self,
        data: &[u8],
        current_time: u64,
        service_name: &str,
        cache: &mut ResolutionCache,
    ) -> (answer: ([u8; 4], u16))
        ensures
            final(cache)@ == correlated(
                old(cache)@,
                bundled_answer(service_name@, data@),
                srv_record(data@),
                a_record(data@),
                current_time,
            ).cache,
            answer.0@ == correlated(
                old(cache)@,
                bundled_answer(service_name@, data@),
                srv_record(data@),
                a_record(data@),
                current_time,
            ).address,
            answer.1 == correlated(
                old(cache)@,
                bundled_answer(service_name@, data@),
                srv_record(data@),
                a_record(data@),
                current_time,
            ).port,
    {
        let bundled = bundled_lookup(service_name, data);
        self.correlate(bundled, data, current_time, cache)
    }
}

/// Where a resolution session stands.
#[derive(Clone, Copy, Debug, PartialEq, Eq)]
pub enum ResolverState {
    /// The link is down or no address has been configured yet.
    AwaitingNetwork,
    /// Queries go out and datagrams are awaited; after `deadline` every
    /// round backs off.
    Listening { deadline: u64 },
    /// The broker has been found.
    Resolved { address: [u8; 4], port: u16 },
}

/// What the surrounding loop reports back.
#[derive(Clone, Copy, Debug, PartialEq, Eq)]
pub enum ResolverEvent {
    /// The state of the link and of address configuration at time `now`.
    NetworkStatus { link_up: bool, configured: bool, now: u64 },
    /// A datagram came in and the cache made this answer of it.
    Answer { address: [u8; 4], port: u16, now: u64 },
    /// No datagram came in during the round.
    Silence { now: u64 },
}

/// What the surrounding loop is to do next.
#[derive(Clone, Copy, Debug, PartialEq, Eq)]
pub enum ResolverAction {
    /// Wait `after_ms`, then report the network status.
    PollNetwork { after_ms: u64 },
    /// Join `group`, bind `port`, set the hop limit, then send the query
    /// and listen. From now on the query is due when it was never sent or
    /// was last sent more than `resend_ms` ago.
    OpenSession { group: [u8; 4], port: u16, hop_limit: u8, resend_ms: u64 },
    /// Wait `after_ms`, then send the query if it is due and listen.
    Exchange { after_ms: u64 },
    /// Resolution is over: this is the broker.
    Finish { address: [u8; 4], port: u16 },
}

/// The pause before the next round: the idle pause, and the back-off on
/// top of it once the soft deadline has passed.
pub open spec fn round_pause(now: u64, deadline: u64) -> u64 {
    if now >= deadline {
        (BACKOFF_MS + IDLE_MS) as u64
    } else {
        IDLE_MS
    }
}

/// The soft deadline of a session opened at `now`.
pub open spec fn soft_deadline(now: u64) -> u64 {
    if now + SOFT_DEADLINE_MS > u64::MAX {
        u64::MAX
    } else {
        (now + SOFT_DEADLINE_MS) as u64
    }
}

/// Waiting on for the network.
pub open spec fn keep_polling() -> (ResolverState, ResolverAction) {
    (ResolverState::AwaitingNetwork, ResolverAction::PollNetwork { after_ms: LINK_POLL_MS })
}

/// The resolver's rule: the state and action that follow a state and an
/// event. Only a resolved answer ends the session; the deadline never does.
pub open spec fn resolver_next(state: ResolverState, event: ResolverEvent) -> (
    ResolverState,
    ResolverAction,
) {
    match state {
        ResolverState::AwaitingNetwork => match event {
            ResolverEvent::NetworkStatus { link_up, configured, now } => if link_up && configured {
                (
                    ResolverState::Listening { deadline: soft_deadline(now) },
                    ResolverAction::OpenSession {
                        group: MDNS_GROUP,
                        port: MDNS_PORT,
                        hop_limit: MDNS_HOP_LIMIT,
                        resend_ms: QUERY_RESEND_MS,
                    },
                )
            } else {
                keep_polling()
            },
            _ => keep_polling(),
        },
        ResolverState::Listening { deadline } => match event {
            ResolverEvent::Answer { address, port, now } => if is_resolved(address@, port) {
                (
                    ResolverState::Resolved { address, port },
                    ResolverAction::Finish { address, port },
                )
            } else {
                (state, ResolverAction::Exchange { after_ms: round_pause(now, deadline) })
            },
            ResolverEvent::Silence { now } => (
                state,
                ResolverAction::Exchange { after_ms: round_pause(now, deadline) },
            ),
            ResolverEvent::NetworkStatus { link_up, configured, now } => (
                state,
                ResolverAction::Exchange { after_ms: round_pause(now, deadline) },
            ),
        },
        ResolverState::Resolved { address, port } => (
            state,
            ResolverAction::Finish { address, port },
        ),
    }
}

/// A state is sound when a resolved state holds a final answer.
pub open spec fn sound_state(state: ResolverState) -> bool {
    match state {
        ResolverState::Resolved { address, port } => is_resolved(address@, port),
        _ => true,
    }
}

impl MdnsFacade {
    /// One decision of the resolution session: what follows `state` when
    /// `event` is reported.
    pub fn query_service(&self, state: ResolverState, event: ResolverEvent) -> (next: (
        ResolverState,
        ResolverAction,
    ))
        ensures
            next == resolver_next(state, event),
    {
        match state {
            ResolverState::AwaitingNetwork => match event {
                ResolverEvent::NetworkStatus { link_up, configured, now } => {
                    if link_up && configured {
                        (
                            ResolverState::Listening {
                                deadline: now.saturating_add(SOFT_DEADLINE_MS),
                            },
                            ResolverAction::OpenSession {
                                group: MDNS_GROUP,
                                port: MDNS_PORT,
                                hop_limit: MDNS_HOP_LIMIT,
                                resend_ms: QUERY_RESEND_MS,
                            },
                        )
                    } else {
                        (
                            ResolverState::AwaitingNetwork,
                            ResolverAction::PollNetwork { after_ms: LINK_POLL_MS },
                        )
                    }
                },
                _ => (
                    ResolverState::AwaitingNetwork,
                    ResolverAction::PollNetwork { after_ms: LINK_POLL_MS },
                ),
            },
            ResolverState::Listening { deadline } => {
                let now = match event {
                    ResolverEvent::Answer { address, port, now } => {
                        if port != 0 && !address_is_unset(&address) {
                            return (
                                ResolverState::Resolved { address, port },
                                ResolverAction::Finish { address, port },
                            );
                        }
                        now
                    },
                    ResolverEvent::Silence { now } => now,
                    ResolverEvent::NetworkStatus { link_up, configured, now } => now,
                };
                let pause = if now >= deadline {
                    BACKOFF_MS + IDLE_MS
                } else {
                    IDLE_MS
                };
                (state, ResolverAction::Exchange { after_ms: pause })
            },
            ResolverState::Resolved { address, port } => (
                state,
                ResolverAction::Finish { address, port },
            ),
        }
    }
}

/// The placeholder address is never handed out: every action that ends a
/// sound session carries a set address and a set port, and the state that
/// follows is sound again.
pub proof fn lemma_finish_is_resolved(state: ResolverState, event: ResolverEvent)
    requires
        sound_state(state),
    ensures
        sound_state(resolver_next(state, event).0),
        match resolver_next(state, event).1 {
            ResolverAction::Finish { address, port } => is_resolved(address@, port),
            _ => true,
        },
{
}

/// The deadline ends nothing: while listening, whatever the time, only a
/// resolved answer leaves the listening state.
pub proof fn lemma_deadline_never_aborts(deadline: u64, event: ResolverEvent)
    ensures
        resolver_next(ResolverState::Listening { deadline }, event).0 is Listening <==> !(
        event matches ResolverEvent::Answer { address, port, .. } && is_resolved(address@, port)),
{
}

/// Records older than the maximum age count for nothing: the datagram is
/// treated exactly as it would be with an empty cache. In particular an
/// address alone cannot complete a resolution from a stale locator.
pub proof fn lemma_stale_records_are_forgotten(
    cache: CacheModel,
    bundled: (Seq<u8>, u16),
    srv: Option<(Seq<char>, u16)>,
    a: Option<(Seq<char>, Seq<u8>)>,
    now: u64,
)
    requires
        cache.last_update is Some,
        elapsed(now, cache.last_update.unwrap()) > CACHE_MAX_AGE_MS,
    ensures
        correlated(cache, bundled, srv, a, now) == correlated(empty_cache(), bundled, srv, a, now),
        srv is None && !is_resolved(bundled.0, bundled.1) ==> !is_resolved(
            correlated(cache, bundled, srv, a, now).address,
            correlated(cache, bundled, srv, a, now).port,
        ),
{
}

/// A locator and the address of its target, arriving in two datagrams no
/// more than the maximum age apart, give the same answer in either order:
/// the address from the one and the port from the other.
pub proof fn lemma_arrival_order_is_immaterial(
    host: Seq<char>,
    port: u16,
    address: Seq<u8>,
    first_bundled: (Seq<u8>, u16),
    second_bundled: (Seq<u8>, u16),
    first_time: u64,
    second_time: u64,
)
    requires
        !is_resolved(first_bundled.0, first_bundled.1),
        !is_resolved(second_bundled.0, second_bundled.1),
        elapsed(second_time, first_time) <= CACHE_MAX_AGE_MS,
    ensures
        ({
            let first = correlated(
                empty_cache(),
                first_bundled,
                Some((host, port)),
                None,
                first_time,
            );
            let second = correlated(
                first.cache,
                second_bundled,
                None,
                Some((host, address)),
                second_time,
            );
            second.address == address && second.port == port
        }),
        ({
            let first = correlated(
                empty_cache(),
                first_bundled,
                None,
                Some((host, address)),
                first_time,
            );
            let second = correlated(
                first.cache,
                second_bundled,
                Some((host, port)),
                None,
                second_time,
            );
            second.address == address && second.port == port
        }),
{
}

/// A datagram that holds both the locator and the address of its target
/// resolves at once from an empty cache: to the bundled answer if that is
/// complete, else to the address and port of the two records.
pub proof fn lemma_single_datagram_resolves(
    host: Seq<char>,
    port: u16,
    address: Seq<u8>,
    bundled: (Seq<u8>, u16),
    now: u64,
)
    ensures
        ({
            let outcome = correlated(
                empty_cache(),
                bundled,
                Some((host, port)),
                Some((host, address)),
                now,
            );
            if is_resolved(bundled.0, bundled.1) {
                outcome.address == bundled.0 && outcome.port == bundled.1
            } else {
                outcome.address == address && outcome.port == port
            }
        }),
{
}

} // verus!
