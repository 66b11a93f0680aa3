//! The routing table: which endpoint has seen which MAVLink system and
//! component, and when. Routes are learned from the traffic each endpoint
//! receives, refreshed at most once per `ROUTE_REFRESH_MS`, and pruned when
//! older than a time-to-live. A targeted message goes out through an
//! endpoint that has seen its target (any component of the target system
//! for a system-wide target), or that shares a group with such an
//! endpoint; an endpoint that has seen a sniffer system receives every
//! message.
//!
//! Times are milliseconds on the caller's monotonic clock.

use crate::orchestration::stats_server::RoutingStats;
use crate::router::EndpointId;
use vstd::prelude::*;

verus! {

/// How long a route stays fresh enough that seeing it again needs no
/// update, in milliseconds.
pub const ROUTE_REFRESH_MS: u64 = 1000;

/// A learned route: `endpoint` has seen `component_id` of `system_id`,
/// last at `last_seen_ms`.
#[derive(Debug, Clone, Copy, PartialEq, Eq, Structural)]
pub struct RouteEntry {
    /// Endpoint the traffic arrived on.
    pub endpoint: EndpointId,
    /// Sender system id.
    pub system_id: u8,
    /// Sender component id.
    pub component_id: u8,
    /// When it was last seen.
    pub last_seen_ms: u64,
}

/// The key of a route: endpoint, system, component.
pub open spec fn key_of(e: RouteEntry) -> (usize, u8, u8) {
    (e.endpoint.0, e.system_id, e.component_id)
}

/// No two entries share a key.
pub open spec fn keys_unique(s: Seq<RouteEntry>) -> bool {
    forall|i: int, j: int| 0 <= i < j < s.len() ==> key_of(s[i]) != key_of(s[j])
}

/// The routes of a list of entries: key to time last seen.
pub open spec fn map_of(s: Seq<RouteEntry>) -> Map<(usize, u8, u8), u64> {
    Map::new(
        |k: (usize, u8, u8)| exists|i: int| 0 <= i < s.len() && key_of(s[i]) == k,
        |k: (usize, u8, u8)|
            s[choose|i: int| 0 <= i < s.len() && key_of(s[i]) == k].last_seen_ms,
    )
}

proof fn lemma_map_of_index(s: Seq<RouteEntry>, i: int)
    requires
        keys_unique(s),
        0 <= i < s.len(),
    ensures
        map_of(s).contains_key(key_of(s[i])),
        map_of(s)[key_of(s[i])] == s[i].last_seen_ms,
{
    let k = key_of(s[i]);
    assert(0 <= i < s.len() && key_of(s[i]) == k);
    let j = choose|j: int| 0 <= j < s.len() && key_of(s[j]) == k;
    if j != i {
        if j < i {
            assert(key_of(s[j]) != key_of(s[i]));
        } else {
            assert(key_of(s[i]) != key_of(s[j]));
        }
    }
}

proof fn lemma_map_of_push(s: Seq<RouteEntry>, e: RouteEntry)
    requires
        keys_unique(s),
        !map_of(s).contains_key(key_of(e)),
    ensures
        keys_unique(s.push(e)),
        map_of(s.push(e)) =~= map_of(s).insert(key_of(e), e.last_seen_ms),
{
    let t = s.push(e);
    assert forall|i: int, j: int| 0 <= i < j < t.len() implies key_of(t[i]) != key_of(t[j]) by {
        if j == s.len() {
            if key_of(t[i]) == key_of(t[j]) {
                assert(0 <= i < s.len() && key_of(s[i]) == key_of(e));
            }
        }
    }
    lemma_map_of_index(t, s.len() as int);
    assert forall|k: (usize, u8, u8)| #[trigger] map_of(t).contains_key(k) <==> map_of(
        s,
    ).insert(key_of(e), e.last_seen_ms).contains_key(k) by {
        if map_of(s).contains_key(k) {
            let i = choose|i: int| 0 <= i < s.len() && key_of(s[i]) == k;
            assert(0 <= i < t.len() && key_of(t[i]) == k);
        }
        if map_of(t).contains_key(k) && k != key_of(e) {
            let i = choose|i: int| 0 <= i < t.len() && key_of(t[i]) == k;
            assert(0 <= i < s.len() && key_of(s[i]) == k);
        }
    }
    assert forall|k: (usize, u8, u8)| #[trigger] map_of(t).contains_key(k) implies map_of(t)[k]
        == map_of(s).insert(key_of(e), e.last_seen_ms)[k] by {
        if k != key_of(e) {
            let i = choose|i: int| 0 <= i < t.len() && key_of(t[i]) == k;
            lemma_map_of_index(t, i);
            lemma_map_of_index(s, i);
        }
    }
}

proof fn lemma_map_of_update(s: Seq<RouteEntry>, idx: int, now: u64)
    requires
        keys_unique(s),
        0 <= idx < s.len(),
    ensures
        keys_unique(s.update(idx, RouteEntry { last_seen_ms: now, ..s[idx] })),
        map_of(s.update(idx, RouteEntry { last_seen_ms: now, ..s[idx] })) =~= map_of(s).insert(
            key_of(s[idx]),
            now,
        ),
{
    let e = RouteEntry { last_seen_ms: now, ..s[idx] };
    let t = s.update(idx, e);
    assert forall|i: int| 0 <= i < s.len() implies key_of(#[trigger] t[i]) == key_of(s[i]) by {}
    lemma_map_of_index(t, idx);
    assert forall|k: (usize, u8, u8)| #[trigger] map_of(t).contains_key(k) <==> map_of(
        s,
    ).contains_key(k) by {
        if map_of(s).contains_key(k) {
            let i = choose|i: int| 0 <= i < s.len() && key_of(s[i]) == k;
            assert(0 <= i < t.len() && key_of(t[i]) == k);
        }
        if map_of(t).contains_key(k) {
            let i = choose|i: int| 0 <= i < t.len() && key_of(t[i]) == k;
            assert(0 <= i < s.len() && key_of(s[i]) == k);
        }
    }
    lemma_map_of_index(s, idx);
    assert forall|k: (usize, u8, u8)| #[trigger] map_of(t).contains_key(k) implies map_of(t)[k]
        == map_of(s).insert(key_of(e), now)[k] by {
        if k != key_of(e) {
            let i = choose|i: int| 0 <= i < t.len() && key_of(t[i]) == k;
            lemma_map_of_index(t, i);
            lemma_map_of_index(s, i);
        }
    }
}

/// Whether a route last seen at `t` is still fresh at `now` for `ttl`.
pub open spec fn is_fresh(t: u64, now: u64, ttl: u64) -> bool {
    (if now >= t {
        now - t
    } else {
        0
    }) < ttl
}

/// The routes of `m` still fresh at `now` for `ttl`.
pub open spec fn pruned(m: Map<(usize, u8, u8), u64>, now: u64, ttl: u64) -> Map<(usize, u8, u8), u64> {
    Map::new(|k: (usize, u8, u8)| m.contains_key(k) && is_fresh(m[k], now, ttl), |k: (usize, u8, u8)| m[k])
}

/// The routes of distinct entries are as many as the entries, and their
/// keys are finitely many.
proof fn lemma_routes_dom(s: Seq<RouteEntry>)
    requires
        keys_unique(s),
    ensures
        map_of(s).dom() =~= s.map_values(|e: RouteEntry| key_of(e)).to_set(),
        map_of(s).dom().finite(),
        map_of(s).len() == s.len(),
{
    let ks = s.map_values(|e: RouteEntry| key_of(e));
    assert forall|k: (usize, u8, u8)| #[trigger] map_of(s).dom().contains(k) == ks.to_set().contains(k) by {
        if map_of(s).dom().contains(k) {
            let i = choose|i: int| 0 <= i < s.len() && key_of(s[i]) == k;
            assert(ks[i] == k);
        }
        if ks.to_set().contains(k) {
            let i = choose|i: int| 0 <= i < ks.len() && ks[i] == k;
            assert(0 <= i < s.len() && key_of(s[i]) == k);
        }
    }
    assert(ks.no_duplicates()) by {
        assert forall|i: int, j: int| 0 <= i < ks.len() && 0 <= j < ks.len() && i != j implies ks[i] != ks[j] by {
            if i < j {
                assert(key_of(s[i]) != key_of(s[j]));
            } else {
                assert(key_of(s[j]) != key_of(s[i]));
            }
        }
    }
    ks.unique_seq_to_set();
    assert(map_of(s).dom() =~= ks.to_set());
}

/// Whether `v` holds `x`.
fn contains_u8(v: &Vec<u8>, x: u8) -> (r: bool)
    ensures
        r == v@.contains(x),
{
    let mut i: usize = 0;
    while i < v.len()
        invariant
            i <= v@.len(),
            forall|j: int| 0 <= j < i ==> v@[j] != x,
        decreases v@.len() - i,
    {
        if v[i] == x {
            return true;
        }
        i = i + 1;
    }
    false
}

/// Whether `v` holds `x`.
fn contains_usize(v: &Vec<usize>, x: usize) -> (r: bool)
    ensures
        r == v@.contains(x),
{
    let mut i: usize = 0;
    while i < v.len()
        invariant
            i <= v@.len(),
            forall|j: int| 0 <= j < i ==> v@[j] != x,
        decreases v@.len() - i,
    {
        if v[i] == x {
            return true;
        }
        i = i + 1;
    }
    false
}

/// The group an endpoint was last registered under, if any.
pub open spec fn group_in(gs: Seq<(EndpointId, String)>, ep: usize) -> Option<Seq<char>>
    decreases gs.len(),
{
    if gs.len() == 0 {
        None
    } else if gs.last().0.0 == ep {
        Some(gs.last().1@)
    } else {
        group_in(gs.drop_last(), ep)
    }
}

/// The routing table.
///
/// Routes are kept in a `Vec` of entries with at most one entry per key,
/// which [`RoutingTable::routes`] reads as a map. A route's key is a triple
/// (endpoint, system, component), and vstd specifies `HashMap` only for keys
/// of primitive types; the queries that decide where a message goes scan
/// the routes by system id across endpoints anyway. Groups and sniffer
/// systems are short lists read in full on each query. Sharing between
/// tasks is the caller's: the program keeps the table behind a lock.
pub struct RoutingTable {
    routes: Vec<RouteEntry>,
    groups: Vec<(EndpointId, String)>,
    sniffer_sysids: Vec<u8>,
}

impl RoutingTable {
    /// The learned routes: key (endpoint, system, component) to the time
    /// last seen.
    pub closed spec fn routes(&self) -> Map<(usize, u8, u8), u64> {
        map_of(self.routes@)
    }

    /// The group of an endpoint, if any.
    pub closed spec fn group_of(&self, ep: usize) -> Option<Seq<char>> {
        group_in(self.groups@, ep)
    }

    /// The sniffer system ids.
    pub closed spec fn sniffers(&self) -> Set<u8> {
        self.sniffer_sysids@.to_set()
    }

    /// The table's internal invariant.
    pub closed spec fn wf(&self) -> bool {
        keys_unique(self.routes@)
    }

    /// An empty table: no route, no group, no sniffer system.
    pub fn new() -> (t: Self)
        ensures
            t.wf(),
            t.routes() == Map::<(usize, u8, u8), u64>::empty(),
            forall|ep: usize| t.group_of(ep) is None,
            t.sniffers() == Set::<u8>::empty(),
    {
        let t = RoutingTable { routes: Vec::new(), groups: Vec::new(), sniffer_sysids: Vec::new() };
        assert(t.routes() =~= Map::<(usize, u8, u8), u64>::empty());
        assert(t.sniffers() =~= Set::<u8>::empty());
        t
    }

    /// Records that `endpoint` has seen `component_id` of `system_id` at
    /// `now_ms`.
    pub fn update(&mut self, endpoint: EndpointId, system_id: u8, component_id: u8, now_ms: u64)
        requires
            old(self).wf(),
        ensures
            final(self).wf(),
            final(self).routes() == old(self).routes().insert(
                (endpoint.0, system_id, component_id),
                now_ms,
            ),
            forall|ep: usize| final(self).group_of(ep) == old(self).group_of(ep),
            final(self).sniffers() == old(self).sniffers(),
    {
        let ghost s = self.routes@;
        let mut i: usize = 0;
        while i < self.routes.len()
            invariant
                s == self.routes@,
                s == old(self).routes@,
                keys_unique(s),
                self.groups == old(self).groups,
                self.sniffer_sysids == old(self).sniffer_sysids,
                i <= s.len(),
                forall|j: int| 0 <= j < i ==> key_of(s[j]) != (endpoint.0, system_id, component_id),
            decreases s.len() - i,
        {
            let e = self.routes[i];
            if e.endpoint.0 == endpoint.0 && e.system_id == system_id && e.component_id
                == component_id {
                proof {
                    lemma_map_of_update(s, i as int, now_ms);
                }
                self.routes.set(i, RouteEntry { last_seen_ms: now_ms, ..e });
                return;
            }
            i = i + 1;
        }
        let e = RouteEntry { endpoint, system_id, component_id, last_seen_ms: now_ms };
        proof {
            if map_of(s).contains_key(key_of(e)) {
                let j = choose|j: int| 0 <= j < s.len() && key_of(s[j]) == key_of(e);
                assert(key_of(s[j]) != key_of(e));
            }
            lemma_map_of_push(s, e);
        }
        self.routes.push(e);
    }

    /// Whether endpoints `a` and `b` share routing knowledge: the same
    /// endpoint, or both in one group.
    pub open spec fn same_group(&self, a: usize, b: usize) -> bool {
        a == b || (self.group_of(a) is Some && self.group_of(a) == self.group_of(b))
    }

    /// Whether endpoint `ep` has seen a sniffer system.
    pub open spec fn sniffing(&self, ep: usize) -> bool {
        exists|k: (usize, u8, u8)|
            #![trigger self.routes().contains_key(k)]
            self.routes().contains_key(k) && k.0 == ep && self.sniffers().contains(k.1)
    }

    /// Whether endpoint `ep`, or an endpoint of its group, has seen the
    /// target: component `comp` of system `sys`, or any component of it when
    /// `comp` is 0.
    pub open spec fn reaches(&self, ep: usize, sys: u8, comp: u8) -> bool {
        exists|k: (usize, u8, u8)|
            #![trigger self.routes().contains_key(k)]
            self.routes().contains_key(k) && k.1 == sys && (comp == 0 || k.2 == comp)
                && self.same_group(k.0, ep)
    }

    /// Whether an observation of the route at `now` should be recorded:
    /// the route is unknown or was last seen at least `ROUTE_REFRESH_MS`
    /// before `now`.
    pub open spec fn needs_update(&self, ep: usize, sys: u8, comp: u8, now: u64) -> bool {
        match self.routes().contains_key((ep, sys, comp)) {
            true => !is_fresh(self.routes()[(ep, sys, comp)], now, ROUTE_REFRESH_MS),
            false => true,
        }
    }

    /// Registers `endpoint` as a member of `group`.
    pub fn set_endpoint_group(&mut self, endpoint: EndpointId, group: String)
        requires
            old(self).wf(),
        ensures
            final(self).wf(),
            final(self).group_of(endpoint.0) == Some(group@),
            forall|ep: usize| ep != endpoint.0 ==> final(self).group_of(ep) == old(self).group_of(ep),
            final(self).routes() == old(self).routes(),
            final(self).sniffers() == old(self).sniffers(),
    {
        let ghost before = self.groups@;
        self.groups.push((endpoint, group));
        assert(self.groups@.drop_last() =~= before);
    }

    /// Sets the sniffer system ids.
    pub fn set_sniffer_sysids(&mut self, sysids: &[u8])
        requires
            old(self).wf(),
        ensures
            final(self).wf(),
            final(self).sniffers() == sysids@.to_set(),
            final(self).routes() == old(self).routes(),
            forall|ep: usize| final(self).group_of(ep) == old(self).group_of(ep),
    {
        let mut v: Vec<u8> = Vec::new();
        let mut i: usize = 0;
        while i < sysids.len()
            invariant
                i <= sysids@.len(),
                v@ =~= sysids@.take(i as int),
            decreases sysids@.len() - i,
        {
            v.push(sysids[i]);
            i = i + 1;
        }
        assert(sysids@.take(sysids@.len() as int) =~= sysids@);
        self.sniffer_sysids = v;
    }

    /// The group of `ep` (see [`Self::group_of`]).
    fn lookup_group(&self, ep: usize) -> (r: Option<&String>)
        ensures
            match r {
                Some(g) => self.group_of(ep) == Some(g@),
                None => self.group_of(ep) is None,
            },
    {
        let mut i: usize = self.groups.len();
        assert(self.groups@.take(i as int) =~= self.groups@);
        while i > 0
            invariant
                i <= self.groups@.len(),
                self.group_of(ep) == group_in(self.groups@.take(i as int), ep),
            decreases i,
        {
            let ghost t = self.groups@.take(i as int);
            assert(t.drop_last() =~= self.groups@.take(i - 1));
            if self.groups[i - 1].0.0 == ep {
                return Some(&self.groups[i - 1].1);
            }
            i = i - 1;
        }
        None
    }

    fn is_sniffer(&self, sys: u8) -> (r: bool)
        ensures
            r == self.sniffers().contains(sys),
    {
        let mut i: usize = 0;
        while i < self.sniffer_sysids.len()
            invariant
                i <= self.sniffer_sysids@.len(),
                forall|j: int| 0 <= j < i ==> self.sniffer_sysids@[j] != sys,
            decreases self.sniffer_sysids@.len() - i,
        {
            if self.sniffer_sysids[i] == sys {
                assert(self.sniffer_sysids@.to_set().contains(self.sniffer_sysids@[i as int]));
                return true;
            }
            i = i + 1;
        }
        assert(!self.sniffer_sysids@.to_set().contains(sys));
        false
    }

    /// Whether a message for component `comp` of system `sys` goes out
    /// through `endpoint`: when the endpoint has seen a sniffer system, or
    /// when it or an endpoint of its group has seen the target.
    pub fn should_send(&self, endpoint: EndpointId, sys: u8, comp: u8) -> (r: bool)
        requires
            self.wf(),
        ensures
            r == (self.sniffing(endpoint.0) || self.reaches(endpoint.0, sys, comp)),
    {
        let ep = endpoint.0;
        let my_group = self.lookup_group(ep);
        let ghost s = self.routes@;
        let mut sniff = false;
        let mut reach = false;
        let mut i: usize = 0;
        while i < self.routes.len()
            invariant
                s == self.routes@,
                keys_unique(s),
                i <= s.len(),
                match my_group {
                    Some(g) => self.group_of(ep) == Some(g@),
                    None => self.group_of(ep) is None,
                },
                sniff == exists|j: int|
                    0 <= j < i && s[j].endpoint.0 == ep && self.sniffers().contains(
                        #[trigger] s[j].system_id,
                    ),
                reach == exists|j: int|
                    0 <= j < i && s[j].system_id == sys && (comp == 0 || s[j].component_id == comp)
                        && self.same_group(#[trigger] s[j].endpoint.0, ep),
            decreases s.len() - i,
        {
            let e = self.routes[i];
            if e.endpoint.0 == ep && self.is_sniffer(e.system_id) {
                sniff = true;
            }
            if e.system_id == sys && (comp == 0 || e.component_id == comp) {
                let shared = if e.endpoint.0 == ep {
                    true
                } else {
                    match my_group {
                        Some(g) => match self.lookup_group(e.endpoint.0) {
                            Some(h) => *h == *g,
                            None => false,
                        },
                        None => false,
                    }
                };
                if shared {
                    reach = true;
                }
            }
            i = i + 1;
        }
        proof {
            assert(sniff == self.sniffing(ep)) by {
                if sniff {
                    let j = choose|j: int|
                        0 <= j < s.len() && s[j].endpoint.0 == ep && self.sniffers().contains(
                            #[trigger] s[j].system_id,
                        );
                    lemma_map_of_index(s, j);
                    assert(self.routes().contains_key(key_of(s[j])));
                }
                if self.sniffing(ep) {
                    let k = choose|k: (usize, u8, u8)|
                        #![trigger self.routes().contains_key(k)]
                        self.routes().contains_key(k) && k.0 == ep && self.sniffers().contains(k.1);
                    let j = choose|j: int| 0 <= j < s.len() && key_of(s[j]) == k;
                    assert(s[j].endpoint.0 == ep && self.sniffers().contains(s[j].system_id));
                }
            }
            assert(reach == self.reaches(ep, sys, comp)) by {
                if reach {
                    let j = choose|j: int|
                        0 <= j < s.len() && s[j].system_id == sys && (comp == 0 || s[j].component_id
                            == comp) && self.same_group(#[trigger] s[j].endpoint.0, ep);
                    lemma_map_of_index(s, j);
                    assert(self.routes().contains_key(key_of(s[j])));
                }
                if self.reaches(ep, sys, comp) {
                    let k = choose|k: (usize, u8, u8)|
                        #![trigger self.routes().contains_key(k)]
                        self.routes().contains_key(k) && k.1 == sys && (comp == 0 || k.2 == comp)
                            && self.same_group(k.0, ep);
                    let j = choose|j: int| 0 <= j < s.len() && key_of(s[j]) == k;
                    assert(self.same_group(s[j].endpoint.0, ep));
                }
            }
        }
        sniff || reach
    }

    /// Whether an observation of `component_id` of `system_id` on
    /// `endpoint` at `now_ms` should be recorded: when the route is unknown
    /// or was last seen at least `ROUTE_REFRESH_MS` ago (a clock reading
    /// before the last sighting counts as no time passed).
    pub fn needs_update_for_endpoint(
        &self,
        endpoint: EndpointId,
        system_id: u8,
        component_id: u8,
        now_ms: u64,
    ) -> (r: bool)
        requires
            self.wf(),
        ensures
            r == self.needs_update(endpoint.0, system_id, component_id, now_ms),
    {
        let ghost s = self.routes@;
        let ghost k = (endpoint.0, system_id, component_id);
        let mut i: usize = 0;
        while i < self.routes.len()
            invariant
                s == self.routes@,
                keys_unique(s),
                i <= s.len(),
                k == (endpoint.0, system_id, component_id),
                forall|j: int| 0 <= j < i ==> key_of(s[j]) != (endpoint.0, system_id, component_id),
            decreases s.len() - i,
        {
            let e = self.routes[i];
            if e.endpoint.0 == endpoint.0 && e.system_id == system_id && e.component_id
                == component_id {
                proof {
                    lemma_map_of_index(s, i as int);
                }
                return now_ms.saturating_sub(e.last_seen_ms) >= ROUTE_REFRESH_MS;
            }
            i = i + 1;
        }
        proof {
            if self.routes().contains_key(k) {
                let j = choose|j: int| 0 <= j < s.len() && key_of(s[j]) == k;
                assert(key_of(s[j]) != k);
            }
        }
        true
    }

    /// The systems some endpoint has seen.
    pub open spec fn systems(&self) -> Set<u8> {
        Set::new(
            |sys: u8|
                exists|k: (usize, u8, u8)|
                    #![trigger self.routes().contains_key(k)]
                    self.routes().contains_key(k) && k.1 == sys,
        )
    }

    /// The endpoints that have seen some system.
    pub open spec fn endpoints(&self) -> Set<usize> {
        Set::new(
            |ep: usize|
                exists|k: (usize, u8, u8)|
                    #![trigger self.routes().contains_key(k)]
                    self.routes().contains_key(k) && k.0 == ep,
        )
    }

    /// Forgets the routes not seen within `ttl_ms` before `now_ms` (a clock
    /// reading before a sighting counts as no time passed).
    pub fn prune(&mut self, now_ms: u64, ttl_ms: u64)
        requires
            old(self).wf(),
        ensures
            final(self).wf(),
            final(self).routes() == pruned(old(self).routes(), now_ms, ttl_ms),
            forall|ep: usize| final(self).group_of(ep) == old(self).group_of(ep),
            final(self).sniffers() == old(self).sniffers(),
    {
        let ghost s = self.routes@;
        let mut kept: Vec<RouteEntry> = Vec::new();
        let mut i: usize = 0;
        assert(map_of(kept@) =~= pruned(map_of(s.take(0)), now_ms, ttl_ms));
        while i < self.routes.len()
            invariant
                s == self.routes@,
                s == old(self).routes@,
                self.groups == old(self).groups,
                self.sniffer_sysids == old(self).sniffer_sysids,
                keys_unique(s),
                i <= s.len(),
                keys_unique(kept@),
                map_of(kept@) =~= pruned(map_of(s.take(i as int)), now_ms, ttl_ms),
            decreases s.len() - i,
        {
            let e = self.routes[i];
            let ghost pre = s.take(i as int);
            proof {
                assert(keys_unique(pre));
                if map_of(pre).contains_key(key_of(e)) {
                    let j = choose|j: int| 0 <= j < pre.len() && key_of(pre[j]) == key_of(e);
                    assert(key_of(s[j]) != key_of(s[i as int]));
                }
                assert(s.take(i + 1) =~= pre.push(e));
                lemma_map_of_push(pre, e);
            }
            if now_ms.saturating_sub(e.last_seen_ms) < ttl_ms {
                proof {
                    lemma_map_of_push(kept@, e);
                }
                kept.push(e);
            }
            i = i + 1;
        }
        assert(s.take(s.len() as int) =~= s);
        self.routes = kept;
    }

    /// The table's totals at `timestamp`: systems seen, routes, and
    /// endpoints with routes.
    pub fn stats(&self, timestamp: u64) -> (r: RoutingStats)
        requires
            self.wf(),
        ensures
            r.total_routes == self.routes().len(),
            r.total_systems == self.systems().len(),
            r.total_endpoints == self.endpoints().len(),
            r.timestamp == timestamp,
    {
        let ghost s = self.routes@;
        let mut systems: Vec<u8> = Vec::new();
        let mut endpoints: Vec<usize> = Vec::new();
        let mut i: usize = 0;
        while i < self.routes.len()
            invariant
                s == self.routes@,
                keys_unique(s),
                i <= s.len(),
                systems@.no_duplicates(),
                endpoints@.no_duplicates(),
                forall|x: u8| systems@.contains(x) <==> exists|j: int| 0 <= j < i && #[trigger] s[j].system_id == x,
                forall|x: usize| endpoints@.contains(x) <==> exists|j: int|
                    0 <= j < i && #[trigger] s[j].endpoint.0 == x,
            decreases s.len() - i,
        {
            let e = self.routes[i];
            let ghost old_sys = systems@;
            let ghost old_eps = endpoints@;
            if !contains_u8(&systems, e.system_id) {
                systems.push(e.system_id);
            }
            if !contains_usize(&endpoints, e.endpoint.0) {
                endpoints.push(e.endpoint.0);
            }
            proof {
                assert(s[i as int] == e);
                assert forall|x: u8| systems@.contains(x) <==> exists|j: int|
                    0 <= j < i + 1 && #[trigger] s[j].system_id == x by {
                    if systems@.contains(x) {
                        if x == e.system_id {
                            assert(s[i as int].system_id == x);
                        } else {
                            let k = choose|k: int| 0 <= k < systems@.len() && systems@[k] == x;
                            if k < old_sys.len() {
                                assert(old_sys[k] == x);
                                assert(old_sys.contains(x));
                            }
                        }
                    }
                    if exists|j: int| 0 <= j < i + 1 && #[trigger] s[j].system_id == x {
                        let j = choose|j: int| 0 <= j < i + 1 && #[trigger] s[j].system_id == x;
                        if j < i {
                            assert(old_sys.contains(x));
                            let k = choose|k: int| 0 <= k < old_sys.len() && old_sys[k] == x;
                            assert(systems@[k] == x);
                        } else if !old_sys.contains(x) {
                            assert(systems@[systems@.len() - 1] == x);
                        } else {
                            let k = choose|k: int| 0 <= k < old_sys.len() && old_sys[k] == x;
                            assert(systems@[k] == x);
                        }
                    }
                }
                assert forall|x: usize| endpoints@.contains(x) <==> exists|j: int|
                    0 <= j < i + 1 && #[trigger] s[j].endpoint.0 == x by {
                    if endpoints@.contains(x) {
                        if x == e.endpoint.0 {
                            assert(s[i as int].endpoint.0 == x);
                        } else {
                            let k = choose|k: int| 0 <= k < endpoints@.len() && endpoints@[k] == x;
                            if k < old_eps.len() {
                                assert(old_eps[k] == x);
                                assert(old_eps.contains(x));
                            }
                        }
                    }
                    if exists|j: int| 0 <= j < i + 1 && #[trigger] s[j].endpoint.0 == x {
                        let j = choose|j: int| 0 <= j < i + 1 && #[trigger] s[j].endpoint.0 == x;
                        if j < i {
                            assert(old_eps.contains(x));
                            let k = choose|k: int| 0 <= k < old_eps.len() && old_eps[k] == x;
                            assert(endpoints@[k] == x);
                        } else if !old_eps.contains(x) {
                            assert(endpoints@[endpoints@.len() - 1] == x);
                        } else {
                            let k = choose|k: int| 0 <= k < old_eps.len() && old_eps[k] == x;
                            assert(endpoints@[k] == x);
                        }
                    }
                }
            }
            i = i + 1;
        }
        proof {
            lemma_routes_dom(s);
            systems@.unique_seq_to_set();
            endpoints@.unique_seq_to_set();
            assert forall|x: u8| #[trigger] systems@.to_set().contains(x) == self.systems().contains(x) by {
                if systems@.contains(x) {
                    let j = choose|j: int| 0 <= j < s.len() && #[trigger] s[j].system_id == x;
                    assert(self.routes().contains_key(key_of(s[j])));
                }
                if self.systems().contains(x) {
                    let k = choose|k: (usize, u8, u8)|
                        #![trigger self.routes().contains_key(k)]
                        self.routes().contains_key(k) && k.1 == x;
                    let j = choose|j: int| 0 <= j < s.len() && key_of(s[j]) == k;
                    assert(s[j].system_id == x);
                }
            }
            assert forall|x: usize| #[trigger] endpoints@.to_set().contains(x) == self.endpoints().contains(x) by {
                if endpoints@.contains(x) {
                    let j = choose|j: int| 0 <= j < s.len() && #[trigger] s[j].endpoint.0 == x;
                    assert(self.routes().contains_key(key_of(s[j])));
                }
                if self.endpoints().contains(x) {
                    let k = choose|k: (usize, u8, u8)|
                        #![trigger self.routes().contains_key(k)]
                        self.routes().contains_key(k) && k.0 == x;
                    let j = choose|j: int| 0 <= j < s.len() && key_of(s[j]) == k;
                    assert(s[j].endpoint.0 == x);
                }
            }
            assert(systems@.to_set() =~= self.systems());
            assert(endpoints@.to_set() =~= self.endpoints());
        }
        RoutingStats {
            total_systems: systems.len(),
            total_routes: self.routes.len(),
            total_endpoints: endpoints.len(),
            timestamp,
        }
    }
}

/// A route just learned is used: after `endpoint` saw component `comp`
/// of system `sys`, messages for that component and system-wide messages
/// for that system go out through `endpoint`.
pub proof fn lemma_learned_route_is_used(
    before: RoutingTable,
    after: RoutingTable,
    endpoint: EndpointId,
    sys: u8,
    comp: u8,
    now_ms: u64,
)
    requires
        after.routes() == before.routes().insert((endpoint.0, sys, comp), now_ms),
    ensures
        after.reaches(endpoint.0, sys, comp),
        after.reaches(endpoint.0, sys, 0),
{
    assert(after.routes().contains_key((endpoint.0, sys, comp)));
}

/// Endpoints of one group share routes: whatever one member reaches, every
/// member reaches.
pub proof fn lemma_group_members_share_routes(t: RoutingTable, a: usize, b: usize, sys: u8, comp: u8)
    requires
        t.group_of(a) is Some,
        t.group_of(a) == t.group_of(b),
        t.reaches(a, sys, comp),
    ensures
        t.reaches(b, sys, comp),
{
    let k = choose|k: (usize, u8, u8)|
        #![trigger t.routes().contains_key(k)]
        t.routes().contains_key(k) && k.1 == sys && (comp == 0 || k.2 == comp) && t.same_group(k.0, a);
    assert(t.same_group(k.0, b));
}

/// A route refreshed at `seen_ms` needs no new observation for the next
/// `ROUTE_REFRESH_MS`.
pub proof fn lemma_fresh_route_needs_no_update(
    before: RoutingTable,
    after: RoutingTable,
    endpoint: EndpointId,
    sys: u8,
    comp: u8,
    seen_ms: u64,
    now_ms: u64,
)
    requires
        after.routes() == before.routes().insert((endpoint.0, sys, comp), seen_ms),
        seen_ms <= now_ms < seen_ms + ROUTE_REFRESH_MS,
    ensures
        !after.needs_update(endpoint.0, sys, comp, now_ms),
{
}

/// Pruning keeps exactly the routes seen within the time-to-live: a route
/// survives a prune at `now` with `ttl` if and only if it was seen less
/// than `ttl` before `now`, and then with its time unchanged.
pub proof fn lemma_prune_keeps_fresh_routes(m: Map<(usize, u8, u8), u64>, k: (usize, u8, u8), now: u64, ttl: u64)
    ensures
        pruned(m, now, ttl).contains_key(k) <==> (m.contains_key(k) && is_fresh(m[k], now, ttl)),
        pruned(m, now, ttl).contains_key(k) ==> pruned(m, now, ttl)[k] == m[k],
{
}

} // verus!
