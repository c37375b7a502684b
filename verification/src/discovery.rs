//! The discovery engine's decision logic: caching contact records found by
//! DHT lookups, resolving peer ids to dialable addresses, converting contact
//! records to address lists, and the built-in boot contacts.
//!
//! The DHT client itself (lookups, the routing table, the UDP socket) is an
//! outside collaborator; the event loop launches one lookup per query this
//! engine asks for, and feeds every resolved lookup back in.

use vstd::prelude::*;

use crate::types::{IpAddress, PeerId, SocketAddress, Transport};

verus! {

/// How many contact records the discovery cache holds.
pub const ENR_CACHE_CAPACITY: usize = 50;

/// A signed contact record of the DHT, binding a node's identity to its
/// network addresses and protocol metadata. Verus refuses to declare the
/// DHT's own record type (its key parameter is bound by an outside trait),
/// so the record is held opaquely and read only through the wrappers below.
#[verifier::external_body]
pub struct Enr {
    pub(crate) record: discv5::Enr,
}

/// The bounded least-recently-used cache the discovery engine keeps its
/// contact records in.
#[verifier::external_type_specification]
#[verifier::external_body]
#[verifier::reject_recursive_types(K)]
#[verifier::reject_recursive_types(V)]
#[verifier::reject_recursive_types(S)]
pub struct ExLruCache<K, V, S>(lru::LruCache<K, V, S>);

/// What the connection-admission logic reads out of a contact record: the
/// advertised IP endpoints. Everything else in the record stays with the
/// DHT.
#[derive(Clone, Copy, Debug, PartialEq, Eq, Structural)]
pub struct ContactRecord {
    pub ip4: Option<u32>,
    pub tcp4: Option<u16>,
    pub udp4: Option<u16>,
    pub ip6: Option<u128>,
    pub tcp6: Option<u16>,
    pub udp6: Option<u16>,
}

/// The IPv4 address a contact record advertises; a fixed datum of the
/// record.
pub uninterp spec fn enr_ip4_of(record: Enr) -> Option<u32>;

/// The IPv4 TCP port a contact record advertises.
pub uninterp spec fn enr_tcp4_of(record: Enr) -> Option<u16>;

/// The IPv4 UDP port a contact record advertises.
pub uninterp spec fn enr_udp4_of(record: Enr) -> Option<u16>;

/// The IPv6 address a contact record advertises.
pub uninterp spec fn enr_ip6_of(record: Enr) -> Option<u128>;

/// The IPv6 TCP port a contact record advertises.
pub uninterp spec fn enr_tcp6_of(record: Enr) -> Option<u16>;

/// The IPv6 UDP port a contact record advertises.
pub uninterp spec fn enr_udp6_of(record: Enr) -> Option<u16>;

/// Relies on `enr::Enr::ip4`: the record's advertised IPv4 address, as its
/// numeric value - a fixed datum of the record, named by `enr_ip4_of`.
#[verifier::external_body]
fn enr_ip4(record: &Enr) -> (r: Option<u32>)
    ensures
        r == enr_ip4_of(*record),
{
    record.record.ip4().map(|ip| u32::from(ip))
}

/// Relies on `enr::Enr::tcp4`: the record's advertised IPv4 TCP port,
/// named by `enr_tcp4_of`.
#[verifier::external_body]
fn enr_tcp4(record: &Enr) -> (r: Option<u16>)
    ensures
        r == enr_tcp4_of(*record),
{
    record.record.tcp4()
}

/// Relies on `enr::Enr::udp4`: the record's advertised IPv4 UDP port,
/// named by `enr_udp4_of`.
#[verifier::external_body]
fn enr_udp4(record: &Enr) -> (r: Option<u16>)
    ensures
        r == enr_udp4_of(*record),
{
    record.record.udp4()
}

/// Relies on `enr::Enr::ip6`: the record's advertised IPv6 address, as its
/// numeric value, named by `enr_ip6_of`.
#[verifier::external_body]
fn enr_ip6(record: &Enr) -> (r: Option<u128>)
    ensures
        r == enr_ip6_of(*record),
{
    record.record.ip6().map(|ip| u128::from(ip))
}

/// Relies on `enr::Enr::tcp6`: the record's advertised IPv6 TCP port,
/// named by `enr_tcp6_of`.
#[verifier::external_body]
fn enr_tcp6(record: &Enr) -> (r: Option<u16>)
    ensures
        r == enr_tcp6_of(*record),
{
    record.record.tcp6()
}

/// Relies on `enr::Enr::udp6`: the record's advertised IPv6 UDP port,
/// named by `enr_udp6_of`.
#[verifier::external_body]
fn enr_udp6(record: &Enr) -> (r: Option<u16>)
    ensures
        r == enr_udp6_of(*record),
{
    record.record.udp6()
}

/// What the library reads out of a contact record: exactly its advertised
/// endpoints.
pub open spec fn spec_contact_of_enr(record: Enr) -> ContactRecord {
    ContactRecord {
        ip4: enr_ip4_of(record),
        tcp4: enr_tcp4_of(record),
        udp4: enr_udp4_of(record),
        ip6: enr_ip6_of(record),
        tcp6: enr_tcp6_of(record),
        udp6: enr_udp6_of(record),
    }
}

/// Read the advertised endpoints out of a contact record.
pub fn contact_from_enr(record: &Enr) -> (r: ContactRecord)
    ensures
        r == spec_contact_of_enr(*record),
{
    ContactRecord {
        ip4: enr_ip4(record),
        tcp4: enr_tcp4(record),
        udp4: enr_udp4(record),
        ip6: enr_ip6(record),
        tcp6: enr_tcp6(record),
        udp6: enr_udp6(record),
    }
}

/// The TCP endpoints a contact record advertises: IPv4 first, then IPv6,
/// each present only when both its address and TCP port are.
pub open spec fn spec_contact_tcp_addrs(record: ContactRecord) -> Seq<SocketAddress> {
    (match (record.ip4, record.tcp4) {
        (Some(ip), Some(port)) => seq![
            SocketAddress { ip: IpAddress::V4(ip), port, transport: Transport::Tcp },
        ],
        _ => Seq::empty(),
    }) + (match (record.ip6, record.tcp6) {
        (Some(ip), Some(port)) => seq![
            SocketAddress { ip: IpAddress::V6(ip), port, transport: Transport::Tcp },
        ],
        _ => Seq::empty(),
    })
}

/// The dialable addresses of a contact record. The transport dials over
/// TCP, so only the record's TCP endpoints are handed out.
pub fn contact_to_dial_addrs(record: &ContactRecord) -> (r: Vec<SocketAddress>)
    ensures
        r@ == spec_contact_tcp_addrs(*record),
{
    let mut addrs: Vec<SocketAddress> = Vec::new();
    if let (Some(ip), Some(port)) = (record.ip4, record.tcp4) {
        addrs.push(SocketAddress { ip: IpAddress::V4(ip), port, transport: Transport::Tcp });
    }
    if let (Some(ip), Some(port)) = (record.ip6, record.tcp6) {
        addrs.push(SocketAddress { ip: IpAddress::V6(ip), port, transport: Transport::Tcp });
    }
    proof {
        assert(addrs@ =~= spec_contact_tcp_addrs(*record));
    }
    addrs
}

/// The contents of the discovery cache: contact records keyed by the raw
/// peer id bytes.
pub uninterp spec fn cache_contents(cache: lru::LruCache<Vec<u8>, ContactRecord>) -> Map<
    Seq<u8>,
    ContactRecord,
>;

/// The bound the discovery cache was created with.
pub uninterp spec fn cache_cap(cache: lru::LruCache<Vec<u8>, ContactRecord>) -> nat;

/// Relies on `lru::LruCache::new`: an empty cache bounded at `cap` entries.
#[verifier::external_body]
fn lru_new(cap: usize) -> (c: lru::LruCache<Vec<u8>, ContactRecord>)
    requires
        cap > 0,
    ensures
        cache_contents(c).dom() == Set::<Seq<u8>>::empty(),
        cache_contents(c).dom().finite(),
        cache_cap(c) == cap,
{
    lru::LruCache::new(core::num::NonZeroUsize::new(cap).unwrap())
}

/// Relies on `lru::LruCache::put`: stores the pair under the peer's id
/// bytes, marking it most recently used. An entry leaves only when the
/// cache is full and the key is new (the least recently used one, which the
/// contract leaves open), so below capacity the domain grows by exactly the
/// key, the contents stay within the bound, and no key but the given one
/// changes its value.
#[verifier::external_body]
fn lru_put(cache: &mut lru::LruCache<Vec<u8>, ContactRecord>, key: &PeerId, value: ContactRecord)
    ensures
        cache_cap(*final(cache)) == cache_cap(*old(cache)),
        cache_contents(*final(cache)).dom().finite(),
        cache_contents(*final(cache)).contains_pair(key@, value),
        cache_contents(*final(cache)).dom() <= cache_contents(*old(cache)).dom().insert(key@),
        cache_contents(*old(cache)).len() < cache_cap(*old(cache)) ==> cache_contents(
            *final(cache),
        ).dom() == cache_contents(*old(cache)).dom().insert(key@),
        forall|q: Seq<u8>|
            #![auto]
            cache_contents(*final(cache)).dom().contains(q) && q != key@ ==> cache_contents(
                *final(cache),
            )[q] == cache_contents(*old(cache))[q],
        cache_contents(*final(cache)).len() <= cache_cap(*final(cache)),
{
    let _ = cache.put(key.as_bytes().clone(), value);
}

/// Relies on `lru::LruCache::get`: the record cached under the peer's id
/// bytes, if any, marked most recently used; the contents are unchanged.
#[verifier::external_body]
fn lru_get(cache: &mut lru::LruCache<Vec<u8>, ContactRecord>, key: &PeerId) -> (r: Option<
    ContactRecord,
>)
    ensures
        cache_contents(*final(cache)) == cache_contents(*old(cache)),
        cache_cap(*final(cache)) == cache_cap(*old(cache)),
        match r {
            Some(record) => cache_contents(*old(cache)).contains_pair(key@, record),
            None => !cache_contents(*old(cache)).dom().contains(key@),
        },
{
    cache.get(key.as_bytes()).copied()
}

/// The found pairs carry pairwise distinct peer ids.
pub open spec fn spec_found_keys_distinct(found: Seq<(PeerId, ContactRecord)>) -> bool {
    forall|a: int, b: int|
        0 <= a < b < found.len() ==> (#[trigger] found[a].0)@ != (#[trigger] found[b].0)@
}

/// A discovery event surfaced to the behaviour composer.
#[derive(Debug)]
pub enum DiscoveryEvent {
    /// A query has completed with these discovered peers.
    FoundPeers(Vec<PeerId>),
}

/// The discovery engine's own state: the contact cache and how many lookups
/// are in flight.
pub struct Discovery {
    /// A bounded cache of seen live contact records, keyed by peer id, for
    /// low-latency address resolution.
    pub cached_enrs: lru::LruCache<Vec<u8>, ContactRecord>,
    /// How many DHT lookups have been launched and not yet resolved.
    pub active_queries: usize,
}

impl Discovery {
    pub fn new() -> (d: Discovery)
        ensures
            d.active_queries == 0,
            cache_contents(d.cached_enrs).dom() == Set::<Seq<u8>>::empty(),
            cache_cap(d.cached_enrs) == ENR_CACHE_CAPACITY,
    {
        Discovery { cached_enrs: lru_new(ENR_CACHE_CAPACITY), active_queries: 0 }
    }

    /// True iff at least one lookup is unresolved.
    pub fn has_active_queries(&self) -> (r: bool)
        ensures
            r == (self.active_queries > 0),
    {
        self.active_queries > 0
    }

    /// Ask for one more randomized-target DHT lookup. Duplicate lookups are
    /// allowed by design: discovery is at-least-once. The event loop
    /// launches one lookup per call.
    pub fn discover_peers(&mut self)
        requires
            old(self).active_queries < usize::MAX,
        ensures
            final(self).active_queries == old(self).active_queries + 1,
            final(self).cached_enrs == old(self).cached_enrs,
    {
        self.active_queries = self.active_queries + 1;
    }

    /// One lookup resolved. An error or an empty result yields nothing; a
    /// non-empty result caches every found record - older entries may be
    /// displaced once the bounded cache fills - and surfaces the found
    /// peers, in order.
    pub fn on_query_result(&mut self, result: Option<Vec<(PeerId, ContactRecord)>>) -> (r: Option<
        DiscoveryEvent,
    >)
        requires
            old(self).active_queries > 0,
        ensures
            final(self).active_queries == old(self).active_queries - 1,
            cache_cap(final(self).cached_enrs) == cache_cap(old(self).cached_enrs),
            cache_contents(final(self).cached_enrs).len() <= cache_cap(final(self).cached_enrs)
                || cache_contents(final(self).cached_enrs) == cache_contents(
                old(self).cached_enrs,
            ),
            match result {
                None => r is None && final(self).cached_enrs == old(self).cached_enrs,
                Some(found) => {
                    &&& found@.len() == 0 ==> r is None && final(self).cached_enrs == old(
                        self,
                    ).cached_enrs
                    &&& found@.len() > 0 ==> (r matches Some(DiscoveryEvent::FoundPeers(ids))
                        && ids@.len() == found@.len() && (forall|k: int|
                        0 <= k < found@.len() ==> (#[trigger] ids@[k])@ == found@[k].0@))
                    &&& found@.len() > 0 ==> cache_contents(
                        final(self).cached_enrs,
                    ).contains_pair(found@.last().0@, found@.last().1)
                    &&& found@.len() > 0 ==> forall|q: Seq<u8>|
                        #![trigger cache_contents(final(self).cached_enrs).dom().contains(q)]
                        cache_contents(final(self).cached_enrs).dom().contains(q)
                            ==> cache_contents(old(self).cached_enrs).dom().contains(q) || exists|
                            k: int,
                        |
                            0 <= k < found@.len() && (#[trigger] found@[k].0)@ == q
                    &&& (found@.len() > 0 && spec_found_keys_distinct(found@) && cache_contents(
                        old(self).cached_enrs,
                    ).dom().finite() && cache_contents(old(self).cached_enrs).len() + found@.len()
                        <= cache_cap(old(self).cached_enrs)) ==> forall|k: int|
                        0 <= k < found@.len() ==> cache_contents(
                            final(self).cached_enrs,
                        ).contains_pair((#[trigger] found@[k].0)@, found@[k].1)
                },
            },
    {
        self.active_queries = self.active_queries - 1;

        let found = match result {
            None => {
                // The lookup failed; yield nothing.
                return None;
            },
            Some(found) => found,
        };

        if found.len() == 0 {
            // The lookup yielded no results.
            return None;
        }

        let mut ids: Vec<PeerId> = Vec::new();
        let n = found.len();
        let ghost distinct = spec_found_keys_distinct(found@);
        let ghost fits = cache_contents(old(self).cached_enrs).dom().finite() && cache_contents(
            old(self).cached_enrs,
        ).len() + found@.len() <= cache_cap(old(self).cached_enrs);
        let mut i: usize = 0;
        while i < n
            invariant
                n == found@.len(),
                i <= n,
                ids@.len() == i,
                distinct == spec_found_keys_distinct(found@),
                fits == (cache_contents(old(self).cached_enrs).dom().finite() && cache_contents(
                    old(self).cached_enrs,
                ).len() + found@.len() <= cache_cap(old(self).cached_enrs)),
                forall|k: int| 0 <= k < i ==> (#[trigger] ids@[k])@ == found@[k].0@,
                cache_cap(self.cached_enrs) == cache_cap(old(self).cached_enrs),
                i > 0 ==> cache_contents(self.cached_enrs).len() <= cache_cap(self.cached_enrs),
                i > 0 ==> cache_contents(self.cached_enrs).contains_pair(
                    found@[i - 1].0@,
                    found@[i - 1].1,
                ),
                i == 0 ==> self.cached_enrs == old(self).cached_enrs,
                forall|q: Seq<u8>|
                    #![trigger cache_contents(self.cached_enrs).dom().contains(q)]
                    cache_contents(self.cached_enrs).dom().contains(q) ==> cache_contents(
                        old(self).cached_enrs,
                    ).dom().contains(q) || exists|k: int|
                        0 <= k < i && (#[trigger] found@[k].0)@ == q,
                distinct && fits ==> cache_contents(self.cached_enrs).dom().finite(),
                distinct && fits ==> cache_contents(self.cached_enrs).len() <= cache_contents(
                    old(self).cached_enrs,
                ).len() + i,
                distinct && fits ==> forall|k: int|
                    0 <= k < i ==> cache_contents(self.cached_enrs).contains_pair(
                        (#[trigger] found@[k].0)@,
                        found@[k].1,
                    ),
                self.active_queries == old(self).active_queries - 1,
            decreases n - i,
        {
            let peer = found[i].0.clone();
            let record = found[i].1;
            let ghost pre_contents = cache_contents(self.cached_enrs);
            lru_put(&mut self.cached_enrs, &peer, record);
            proof {
                let key = found@[i as int].0@;
                let cur = cache_contents(self.cached_enrs);
                assert forall|q: Seq<u8>|
                    #![trigger cur.dom().contains(q)]
                    cur.dom().contains(q) implies cache_contents(
                    old(self).cached_enrs,
                ).dom().contains(q) || exists|k: int|
                    0 <= k < i + 1 && (#[trigger] found@[k].0)@ == q by {
                    if q != key {
                        assert(pre_contents.dom().contains(q));
                    } else {
                        assert(found@[i as int].0@ == q);
                    }
                }
                if distinct && fits {
                    assert(pre_contents.len() < cache_cap(self.cached_enrs));
                    assert(cur.dom() == pre_contents.dom().insert(key));
                    if pre_contents.dom().contains(key) {
                        assert(pre_contents.dom().insert(key) =~= pre_contents.dom());
                    }
                    assert(cur.len() <= pre_contents.len() + 1);
                    assert forall|k: int|
                        0 <= k < i + 1 implies cur.contains_pair(
                        (#[trigger] found@[k].0)@,
                        found@[k].1,
                    ) by {
                        if k < i {
                            assert(found@[k].0@ != key);
                            assert(pre_contents.contains_pair(found@[k].0@, found@[k].1));
                            assert(cur.dom().contains(found@[k].0@));
                            assert(cur[found@[k].0@] == pre_contents[found@[k].0@]);
                        }
                    }
                }
            }
            ids.push(peer);
            i = i + 1;
        }

        Some(DiscoveryEvent::FoundPeers(ids))
    }

    /// The dialable addresses of a peer, resolved from the local cache. On a
    /// miss the caller queries the DHT routing table directly (a local,
    /// non-network lookup) before giving the peer up as undialable.
    pub fn cached_addresses_of_peer(&mut self, peer_id: &PeerId) -> (r: Option<Vec<SocketAddress>>)
        ensures
            final(self).active_queries == old(self).active_queries,
            cache_contents(final(self).cached_enrs) == cache_contents(old(self).cached_enrs),
            cache_cap(final(self).cached_enrs) == cache_cap(old(self).cached_enrs),
            match r {
                Some(addrs) => cache_contents(old(self).cached_enrs).dom().contains(peer_id@)
                    && addrs@ == spec_contact_tcp_addrs(
                    cache_contents(old(self).cached_enrs)[peer_id@],
                ),
                None => !cache_contents(old(self).cached_enrs).dom().contains(peer_id@),
            },
    {
        match lru_get(&mut self.cached_enrs, peer_id) {
            Some(record) => Some(contact_to_dial_addrs(&record)),
            None => None,
        }
    }

    /// Cache one contact record for a peer.
    pub fn cache_record(&mut self, peer_id: &PeerId, record: ContactRecord)
        ensures
            final(self).active_queries == old(self).active_queries,
            cache_cap(final(self).cached_enrs) == cache_cap(old(self).cached_enrs),
            cache_contents(final(self).cached_enrs).contains_pair(peer_id@, record),
    {
        lru_put(&mut self.cached_enrs, peer_id, record);
    }
}

/// The kind of error a dial attempt failed with, as far as the dial-failure
/// handling distinguishes them.
#[derive(Clone, Copy, Debug, PartialEq, Eq, Structural)]
pub enum DialErrorKind {
    /// The peer id is our own.
    LocalPeerId,
    /// No addresses are known for the peer.
    NoAddresses,
    /// The dialed node presented a different identity.
    WrongPeerId,
    /// The connection was denied.
    Denied,
    /// A transport-level error.
    Transport,
    /// The dial was aborted before it was attempted.
    Aborted,
    /// The dial condition (peer disconnected) did not hold.
    DialPeerConditionFalse,
}

/// Address-derivable dial failures mark the node disconnected in the DHT,
/// so future lookups stop returning an unreachable peer; an aborted dial or
/// a false dial condition says nothing about reachability.
pub open spec fn spec_marks_node_disconnected(error: DialErrorKind) -> bool {
    match error {
        DialErrorKind::LocalPeerId => true,
        DialErrorKind::NoAddresses => true,
        DialErrorKind::WrongPeerId => true,
        DialErrorKind::Denied => true,
        DialErrorKind::Transport => true,
        DialErrorKind::Aborted => false,
        DialErrorKind::DialPeerConditionFalse => false,
    }
}

/// Decide the DHT reaction to a failed dial: exactly on an
/// address-derivable failure of a peer whose id derives a node id, that
/// node id is handed out to be marked disconnected.
pub fn on_dial_failure(peer_id: &PeerId, error: DialErrorKind) -> (r: Option<Vec<u8>>)
    ensures
        !spec_marks_node_disconnected(error) ==> r is None,
        spec_marks_node_disconnected(error) ==> match crate::identity::spec_node_id_of_peer(
            peer_id@,
        ) {
            Some(id) => r matches Some(node_id) && node_id@ == id && node_id@.len() == 32,
            None => r is None,
        },
{
    if !marks_node_disconnected(error) {
        return None;
    }
    match crate::identity::peer_id_to_node_id(peer_id) {
        Ok(node_id) => Some(node_id),
        Err(_) => None,
    }
}

/// Exec mirror of `spec_marks_node_disconnected`.
fn marks_node_disconnected(error: DialErrorKind) -> (r: bool)
    ensures
        r == spec_marks_node_disconnected(error),
{
    match error {
        DialErrorKind::LocalPeerId => true,
        DialErrorKind::NoAddresses => true,
        DialErrorKind::WrongPeerId => true,
        DialErrorKind::Denied => true,
        DialErrorKind::Transport => true,
        DialErrorKind::Aborted => false,
        DialErrorKind::DialPeerConditionFalse => false,
    }
}

/// Whether this text is the valid base64 form of a signed contact record;
/// a function of the text alone.
pub uninterp spec fn enr_text_valid(text: Seq<char>) -> bool;

/// Relies on `enr::Enr`'s `FromStr`: parses the base64 text form of a
/// signed contact record, verifying its signature. The parse outcome is a
/// function of the text alone, named by `enr_text_valid`.
#[verifier::external_body]
fn enr_from_str(text: &str) -> (r: Option<Enr>)
    ensures
        r is Some <==> enr_text_valid(text@),
{
    match text.parse::<discv5::Enr>() {
        Ok(record) => Some(Enr { record }),
        Err(_) => None,
    }
}

/// The text form of the built-in boot contact records, for seeding the DHT.
pub fn boot_enr_texts() -> (v: Vec<&'static str>)
    ensures
        v@.len() == 4,
{
    let mut texts: Vec<&'static str> = Vec::new();
    texts.push(
        "enr:-Ku4QOA5OGWObY8ep_x35NlGBEj7IuQULTjkgxC_0G1AszqGEA0Wn2RNlyLFx9zGTNB1gdFBA6ZDYxCgIza1uJUUOj4Dh2F0dG5ldHOIAAAAAAAAAACEZXRoMpDVTPWXAAAgCf__________gmlkgnY0gmlwhDQPSjiJc2VjcDI1NmsxoQM6yTQB6XGWYJbI7NZFBjp4Yb9AYKQPBhVrfUclQUobb4N1ZHCCIyg",
    );
    texts.push(
        "enr:-Ku4QOksdA2tabOGrfOOr6NynThMoio6Ggka2oDPqUuFeWCqcRM2alNb8778O_5bK95p3EFt0cngTUXm2H7o1jkSJ_8Dh2F0dG5ldHOIAAAAAAAAAACEZXRoMpDVTPWXAAAgCf__________gmlkgnY0gmlwhDaa13aJc2VjcDI1NmsxoQKdNQJvnohpf0VO0ZYCAJxGjT0uwJoAHbAiBMujGjK0SoN1ZHCCIyg",
    );
    texts.push(
        "enr:-LK4QDiPGwNomqUqNDaM3iHYvtdX7M5qngson6Qb2xGIg1LwC8-Nic0aQwO0rVbJt5xp32sRE3S1YqvVrWO7OgVNv0kBh2F0dG5ldHOIAAAAAAAAAACEZXRoMpA7CIeVAAAgCf__________gmlkgnY0gmlwhBKNA4qJc2VjcDI1NmsxoQKbBS4ROQ_sldJm5tMgi36qm5I5exKJFb4C8dDVS_otAoN0Y3CCIyiDdWRwgiMo",
    );
    texts.push(
        "enr:-LK4QKAezYUw_R4P1vkzfw9qMQQFJvRQy3QsUblWxIZ4FSduJ2Kueik-qY5KddcVTUsZiEO-oZq0LwbaSxdYf27EjckBh2F0dG5ldHOIAAAAAAAAAACEZXRoMpA7CIeVAAAgCf__________gmlkgnY0gmlwhCOmkIaJc2VjcDI1NmsxoQOQgTD4a8-rESfTdbCG0V6Yz1pUvze02jB2Py3vzGWhG4N0Y3CCIyiDdWRwgiMo",
    );

    texts
}

/// Parse the text form of a contact record, for records the surrounding
/// process obtains from the DHT or its configuration.
pub fn parse_enr(text: &str) -> (r: Option<Enr>)
    ensures
        r is Some <==> enr_text_valid(text@),
{
    enr_from_str(text)
}

/// The built-in boot contact records. A bad entry is skipped, not fatal.
pub fn boot_enrs() -> (v: Vec<Enr>)
    ensures
        v@.len() <= 4,
{
    let texts = boot_enr_texts();
    let mut records: Vec<Enr> = Vec::new();
    let n = texts.len();
    let mut i: usize = 0;
    while i < n
        invariant
            n == texts@.len(),
            n <= 4,
            i <= n,
            records@.len() <= i,
        decreases n - i,
    {
        match enr_from_str(texts[i]) {
            Some(record) => {
                records.push(record);
            },
            None => {
                // A bad boot entry is logged and skipped, never fatal.
            },
        }
        i = i + 1;
    }
    records
}

/// The endpoints a boot record advertises in the order they are collected:
/// UDP then TCP for IPv4, then UDP then TCP for IPv6.
pub open spec fn spec_contact_all_addrs(record: ContactRecord) -> Seq<SocketAddress> {
    (match (record.ip4, record.udp4) {
        (Some(ip), Some(port)) => seq![
            SocketAddress { ip: IpAddress::V4(ip), port, transport: Transport::Udp },
        ],
        _ => Seq::empty(),
    }) + (match (record.ip4, record.tcp4) {
        (Some(ip), Some(port)) => seq![
            SocketAddress { ip: IpAddress::V4(ip), port, transport: Transport::Tcp },
        ],
        _ => Seq::empty(),
    }) + (match (record.ip6, record.udp6) {
        (Some(ip), Some(port)) => seq![
            SocketAddress { ip: IpAddress::V6(ip), port, transport: Transport::Udp },
        ],
        _ => Seq::empty(),
    }) + (match (record.ip6, record.tcp6) {
        (Some(ip), Some(port)) => seq![
            SocketAddress { ip: IpAddress::V6(ip), port, transport: Transport::Tcp },
        ],
        _ => Seq::empty(),
    })
}

/// Every endpoint of every boot contact record, with the UDP ones filtered
/// out: the transport connects over TCP only.
pub fn boot_multiaddrs() -> (v: Vec<SocketAddress>)
    ensures
        forall|k: int| 0 <= k < v@.len() ==> (#[trigger] v@[k]).transport == Transport::Tcp,
{
    let records = boot_enrs();
    let mut addrs: Vec<SocketAddress> = Vec::new();
    let n = records.len();
    let mut i: usize = 0;
    while i < n
        invariant
            n == records@.len(),
            i <= n,
            forall|k: int| 0 <= k < addrs@.len() ==> (#[trigger] addrs@[k]).transport
                == Transport::Tcp,
        decreases n - i,
    {
        let contact = contact_from_enr(&records[i]);
        let all = all_addrs_of_contact(&contact);
        let m = all.len();
        let mut j: usize = 0;
        while j < m
            invariant
                m == all@.len(),
                j <= m,
                forall|k: int| 0 <= k < addrs@.len() ==> (#[trigger] addrs@[k]).transport
                    == Transport::Tcp,
            decreases m - j,
        {
            // Ignore UDP endpoints: we connect over TCP.
            if matches!(all[j].transport, Transport::Tcp) {
                addrs.push(all[j]);
            }
            j = j + 1;
        }
        i = i + 1;
    }
    addrs
}

/// All endpoints of a contact record, UDP and TCP, per
/// `spec_contact_all_addrs`.
pub fn all_addrs_of_contact(record: &ContactRecord) -> (r: Vec<SocketAddress>)
    ensures
        r@ == spec_contact_all_addrs(*record),
{
    let mut addrs: Vec<SocketAddress> = Vec::new();
    if let (Some(ip), Some(port)) = (record.ip4, record.udp4) {
        addrs.push(SocketAddress { ip: IpAddress::V4(ip), port, transport: Transport::Udp });
    }
    if let (Some(ip), Some(port)) = (record.ip4, record.tcp4) {
        addrs.push(SocketAddress { ip: IpAddress::V4(ip), port, transport: Transport::Tcp });
    }
    if let (Some(ip), Some(port)) = (record.ip6, record.udp6) {
        addrs.push(SocketAddress { ip: IpAddress::V6(ip), port, transport: Transport::Udp });
    }
    if let (Some(ip), Some(port)) = (record.ip6, record.tcp6) {
        addrs.push(SocketAddress { ip: IpAddress::V6(ip), port, transport: Transport::Tcp });
    }
    proof {
        assert(addrs@ =~= spec_contact_all_addrs(*record));
    }
    addrs
}

} // verus!
