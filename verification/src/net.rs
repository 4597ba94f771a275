//! The addresses to try for a host: what a live lookup gave, followed by
//! what earlier lookups gave and the cache still holds.
//!
//! The cache keeps one entry per host and address, newest first. An entry
//! is read back only while it is younger than thirty days; none is ever
//! dropped.

use crate::text::{decimal, same_text, to_decimal};
use vstd::string::StringExecFns;
use vstd::prelude::*;

verus! {

/// Age in seconds from which a cached address is not used any more: thirty
/// days.
pub const DNS_CACHE_MAX_AGE_SECS: i64 = 30 * 24 * 3600;

/// An IP address, as its number.
#[derive(Clone, Copy, Debug, PartialEq, Eq, Structural)]
pub enum IpAddress {
    V4(u32),
    V6(u128),
}

/// An address that a connection can be opened to. Flow information and
/// scope belong to version 6 and are zero for version 4.
#[derive(Clone, Copy, Debug, PartialEq, Eq, Structural)]
pub struct SocketAddress {
    pub ip: IpAddress,
    pub port: u16,
    pub flowinfo: u32,
    pub scope_id: u32,
}

/// One address that a lookup of `hostname` gave at `timestamp`. The port is
/// that of the address.
#[derive(Clone, Debug)]
pub struct DnsCacheEntry {
    pub hostname: String,
    pub address: SocketAddress,
    pub timestamp: i64,
}

/// Mathematical form of `DnsCacheEntry`.
pub struct EntryModel {
    pub hostname: Seq<char>,
    pub address: SocketAddress,
    pub timestamp: i64,
}

/// The addresses that lookups gave: one entry per host and address, newest
/// first.
#[derive(Debug)]
pub struct DnsCache {
    entries: Vec<DnsCacheEntry>,
}

impl View for DnsCacheEntry {
    type V = EntryModel;

    open spec fn view(&self) -> EntryModel {
        EntryModel { hostname: self.hostname@, address: self.address, timestamp: self.timestamp }
    }
}

/// Mathematical form of a list of entries.
pub open spec fn models(entries: Seq<DnsCacheEntry>) -> Seq<EntryModel> {
    entries.map_values(|e: DnsCacheEntry| e@)
}

impl View for DnsCache {
    type V = Seq<EntryModel>;

    closed spec fn view(&self) -> Seq<EntryModel> {
        models(self.entries@)
    }
}

/// Whether no two entries hold the same host and address.
pub open spec fn unique_keys(c: Seq<EntryModel>) -> bool {
    forall|i: int, j: int|
        0 <= i < j < c.len() ==> !(c[i].hostname == c[j].hostname && c[i].address == c[j].address)
}

/// Whether no entry stands before a newer one.
pub open spec fn newest_first(c: Seq<EntryModel>) -> bool {
    forall|i: int, j: int| 0 <= i < j < c.len() ==> c[i].timestamp >= c[j].timestamp
}

/// What holds of every cache: one entry per host and address, newest first.
pub open spec fn well_formed(c: Seq<EntryModel>) -> bool {
    unique_keys(c) && newest_first(c)
}

/// Index of the first entry at or after `from` for this host and address, or
/// the number of entries if there is none.
pub open spec fn key_index(c: Seq<EntryModel>, hostname: Seq<char>, address: SocketAddress, from: int) -> int
    decreases c.len() - from,
{
    if from < 0 || from >= c.len() {
        c.len() as int
    } else if c[from].hostname == hostname && c[from].address == address {
        from
    } else {
        key_index(c, hostname, address, from + 1)
    }
}

/// Index of the first entry at or after `from` that is older than
/// `timestamp`, or the number of entries if there is none.
pub open spec fn slot(c: Seq<EntryModel>, timestamp: i64, from: int) -> int
    decreases c.len() - from,
{
    if from < 0 || from >= c.len() {
        c.len() as int
    } else if c[from].timestamp < timestamp {
        from
    } else {
        slot(c, timestamp, from + 1)
    }
}

/// The cache without the entry for this host and address.
pub open spec fn without(c: Seq<EntryModel>, hostname: Seq<char>, address: SocketAddress) -> Seq<
    EntryModel,
> {
    if key_index(c, hostname, address, 0) < c.len() {
        c.remove(key_index(c, hostname, address, 0))
    } else {
        c
    }
}

/// The cache after a lookup of `hostname` gave `address` at `timestamp`: the
/// entry for them is new or renewed, and stands behind those that are not
/// older.
pub open spec fn upserted(
    c: Seq<EntryModel>,
    hostname: Seq<char>,
    address: SocketAddress,
    timestamp: i64,
) -> Seq<EntryModel> {
    let rest = without(c, hostname, address);
    rest.insert(slot(rest, timestamp, 0), EntryModel { hostname, address, timestamp })
}

/// Whether an entry written at `timestamp` is younger than thirty days at
/// `now`.
pub open spec fn is_fresh(timestamp: i64, now: i64) -> bool {
    now < timestamp + DNS_CACHE_MAX_AGE_SECS
}

/// Whether an entry is one for `hostname` that can still be used at `now`.
pub open spec fn answers(e: EntryModel, hostname: Seq<char>, now: i64) -> bool {
    e.hostname == hostname && is_fresh(e.timestamp, now)
}

/// The addresses of the entries at or after `from` that can be used for
/// `hostname` at `now`, in the order of the cache.
pub open spec fn fresh_from(c: Seq<EntryModel>, hostname: Seq<char>, now: i64, from: int) -> Seq<
    SocketAddress,
>
    decreases c.len() - from,
{
    if from < 0 || from >= c.len() {
        Seq::empty()
    } else if answers(c[from], hostname, now) {
        seq![c[from].address] + fresh_from(c, hostname, now, from + 1)
    } else {
        fresh_from(c, hostname, now, from + 1)
    }
}

/// The addresses that the cache gives for `hostname` at `now`.
pub open spec fn fresh_addresses(c: Seq<EntryModel>, hostname: Seq<char>, now: i64) -> Seq<
    SocketAddress,
> {
    fresh_from(c, hostname, now, 0)
}

/// The candidates with the cached addresses behind them, each only if it is
/// not among the candidates by then.
pub open spec fn merged(candidates: Seq<SocketAddress>, cached: Seq<SocketAddress>) -> Seq<
    SocketAddress,
>
    decreases cached.len(),
{
    if cached.len() == 0 {
        candidates
    } else if candidates.contains(cached[0]) {
        merged(candidates, cached.drop_first())
    } else {
        merged(candidates.push(cached[0]), cached.drop_first())
    }
}

/// The form in which an address is cached: its text, which holds no flow
/// information.
pub open spec fn cached_form(address: SocketAddress) -> SocketAddress {
    SocketAddress { flowinfo: 0, ..address }
}

/// The time written for the address that a lookup at `now` gave at place
/// `ordinal`: `now` plus the place, so that addresses of one lookup differ in
/// time as they differ in place. The sum stops at the largest time.
pub open spec fn cache_time(now: i64, ordinal: int) -> i64 {
    let offset = if ordinal <= i64::MAX {
        ordinal
    } else {
        0
    };
    if now + offset > i64::MAX {
        i64::MAX
    } else {
        (now + offset) as i64
    }
}

/// The cache after the first `upto` addresses of a lookup at `now` were
/// written.
pub open spec fn refreshed(
    c: Seq<EntryModel>,
    hostname: Seq<char>,
    resolved: Seq<SocketAddress>,
    now: i64,
    upto: int,
) -> Seq<EntryModel>
    decreases upto,
{
    if upto <= 0 {
        c
    } else {
        upserted(
            refreshed(c, hostname, resolved, now, upto - 1),
            hostname,
            cached_form(resolved[upto - 1]),
            cache_time(now, upto - 1),
        )
    }
}

/// The first entry for a host and address at or after `from` lies at or
/// after `from`; no entry between `from` and it is for them; and if it lies
/// behind the end, none is.
pub proof fn key_index_is_first(
    c: Seq<EntryModel>,
    hostname: Seq<char>,
    address: SocketAddress,
    from: int,
)
    requires
        0 <= from <= c.len(),
    ensures
        from <= key_index(c, hostname, address, from) <= c.len(),
        key_index(c, hostname, address, from) < c.len() ==> {
            let at = key_index(c, hostname, address, from);
            c[at].hostname == hostname && c[at].address == address
        },
        forall|k: int|
            from <= k < key_index(c, hostname, address, from) ==> !(c[k].hostname == hostname
                && c[k].address == address),
    decreases c.len() - from,
{
    if from < c.len() && !(c[from].hostname == hostname && c[from].address == address) {
        key_index_is_first(c, hostname, address, from + 1);
    }
}

/// The slot for a time at or after `from` lies at or after `from`; every
/// entry between `from` and it is not older than the time; and the entry at
/// it, if any, is older.
pub proof fn slot_is_first_older(c: Seq<EntryModel>, timestamp: i64, from: int)
    requires
        0 <= from <= c.len(),
    ensures
        from <= slot(c, timestamp, from) <= c.len(),
        slot(c, timestamp, from) < c.len() ==> c[slot(c, timestamp, from)].timestamp < timestamp,
        forall|k: int| from <= k < slot(c, timestamp, from) ==> c[k].timestamp >= timestamp,
    decreases c.len() - from,
{
    if from < c.len() && c[from].timestamp >= timestamp {
        slot_is_first_older(c, timestamp, from + 1);
    }
}

/// Taking the entry for a host and address out keeps the cache well formed,
/// and leaves no entry for them.
pub proof fn without_keeps_well_formed(
    c: Seq<EntryModel>,
    hostname: Seq<char>,
    address: SocketAddress,
)
    requires
        well_formed(c),
    ensures
        well_formed(without(c, hostname, address)),
        forall|k: int|
            0 <= k < without(c, hostname, address).len() ==> !(without(
                c,
                hostname,
                address,
            )[k].hostname == hostname && without(c, hostname, address)[k].address == address),
{
    let found = key_index(c, hostname, address, 0);
    let rest = without(c, hostname, address);
    key_index_is_first(c, hostname, address, 0);
    if found < c.len() {
        assert forall|k: int| 0 <= k < rest.len() implies !(rest[k].hostname == hostname
            && rest[k].address == address) by {
            if k < found {
                assert(rest[k] == c[k]);
            } else {
                assert(rest[k] == c[k + 1]);
            }
        }
        assert forall|i: int, j: int| 0 <= i < j < rest.len() implies !(rest[i].hostname
            == rest[j].hostname && rest[i].address == rest[j].address) && rest[i].timestamp
            >= rest[j].timestamp by {
            let ci = if i < found {
                i
            } else {
                i + 1
            };
            let cj = if j < found {
                j
            } else {
                j + 1
            };
            assert(rest[i] == c[ci]);
            assert(rest[j] == c[cj]);
        }
    }
}

/// Writing an address keeps the cache well formed, and the entry written
/// stands at its slot.
pub proof fn upsert_keeps_well_formed(
    c: Seq<EntryModel>,
    hostname: Seq<char>,
    address: SocketAddress,
    timestamp: i64,
)
    requires
        well_formed(c),
    ensures
        well_formed(upserted(c, hostname, address, timestamp)),
        upserted(c, hostname, address, timestamp).len() <= c.len() + 1,
        ({
            let at = slot(without(c, hostname, address), timestamp, 0);
            &&& 0 <= at < upserted(c, hostname, address, timestamp).len()
            &&& upserted(c, hostname, address, timestamp)[at] == (EntryModel {
                hostname,
                address,
                timestamp,
            })
        }),
{
    let rest = without(c, hostname, address);
    key_index_is_first(c, hostname, address, 0);
    without_keeps_well_formed(c, hostname, address);
    let at = slot(rest, timestamp, 0);
    slot_is_first_older(rest, timestamp, 0);
    let entry = EntryModel { hostname, address, timestamp };
    let next = rest.insert(at, entry);
    assert forall|i: int, j: int| 0 <= i < j < next.len() implies !(next[i].hostname
        == next[j].hostname && next[i].address == next[j].address) && next[i].timestamp
        >= next[j].timestamp by {
        let ri = if i < at {
            i
        } else {
            i - 1
        };
        let rj = if j < at {
            j
        } else {
            j - 1
        };
        if i != at {
            assert(next[i] == rest[ri]);
        }
        if j != at {
            assert(next[j] == rest[rj]);
        }
        if i == at {
            assert(rest[at].timestamp < timestamp);
            assert(rest[at].timestamp >= rest[rj].timestamp || at == rj);
        }
    }
}

/// The time to write for the address that a lookup at `now` gave at place
/// `ordinal`.
pub fn cache_timestamp(now: i64, ordinal: usize) -> (timestamp: i64)
    ensures
        timestamp == cache_time(now, ordinal as int),
{
    let place: u64 = ordinal as u64;
    let offset: i64 = if place <= 0x7fff_ffff_ffff_ffffu64 {
        place as i64
    } else {
        0
    };
    match now.checked_add(offset) {
        Some(sum) => sum,
        None => i64::MAX,
    }
}

/// Whether an entry written at `timestamp` is younger than thirty days at
/// `now`.
pub fn is_fresh_at(timestamp: i64, now: i64) -> (fresh: bool)
    ensures
        fresh == is_fresh(timestamp, now),
{
    (now as i128) < (timestamp as i128) + (DNS_CACHE_MAX_AGE_SECS as i128)
}

/// Whether `address` is one of `list`.
pub fn contains_address(list: &Vec<SocketAddress>, address: SocketAddress) -> (found: bool)
    ensures
        found == list@.contains(address),
{
    let mut i: usize = 0;
    while i < list.len()
        invariant
            i <= list.len(),
            forall|j: int| 0 <= j < i ==> list[j] != address,
        decreases list.len() - i,
    {
        if list[i] == address {
            return true;
        }
        i += 1;
    }
    false
}

/// Puts the cached addresses behind the candidates, each only if it is not
/// among them by then.
pub fn append_cached(candidates: Vec<SocketAddress>, cached: &Vec<SocketAddress>) -> (all: Vec<
    SocketAddress,
>)
    ensures
        all@ == merged(candidates@, cached@),
{
    let mut all = candidates;
    let mut i: usize = 0;
    proof {
        assert(cached@.skip(0) =~= cached@);
    }
    while i < cached.len()
        invariant
            i <= cached.len(),
            merged(all@, cached@.skip(i as int)) == merged(candidates@, cached@),
        decreases cached.len() - i,
    {
        proof {
            assert(cached@.skip(i as int).drop_first() =~= cached@.skip(i + 1));
            assert(cached@.skip(i as int)[0] == cached@[i as int]);
        }
        if !contains_address(&all, cached[i]) {
            all.push(cached[i]);
        }
        i += 1;
    }
    all
}

fn position(entries: &Vec<DnsCacheEntry>, hostname: &str, address: SocketAddress) -> (at: usize)
    ensures
        at == key_index(models(entries@), hostname@, address, 0),
        at <= entries@.len(),
{
    let mut i: usize = 0;
    while i < entries.len()
        invariant
            i <= entries.len(),
            key_index(models(entries@), hostname@, address, i as int) == key_index(
                models(entries@),
                hostname@,
                address,
                0,
            ),
        decreases entries.len() - i,
    {
        if entries[i].address == address && same_text(entries[i].hostname.as_str(), hostname) {
            return i;
        }
        i += 1;
    }
    i
}

fn slot_for(entries: &Vec<DnsCacheEntry>, timestamp: i64) -> (at: usize)
    ensures
        at == slot(models(entries@), timestamp, 0),
        at <= entries@.len(),
{
    let mut i: usize = 0;
    while i < entries.len()
        invariant
            i <= entries.len(),
            slot(models(entries@), timestamp, i as int) == slot(models(entries@), timestamp, 0),
        decreases entries.len() - i,
    {
        if entries[i].timestamp < timestamp {
            return i;
        }
        i += 1;
    }
    i
}

impl DnsCache {
    #[verifier::type_invariant]
    spec fn kept_in_order(self) -> bool {
        well_formed(self@)
    }

    /// An empty cache.
    pub fn new() -> (cache: DnsCache)
        ensures
            cache@ == Seq::<EntryModel>::empty(),
            well_formed(cache@),
    {
        let entries: Vec<DnsCacheEntry> = Vec::new();
        assert(models(entries@) =~= Seq::<EntryModel>::empty());
        DnsCache { entries }
    }

    /// The entry at place `index`, counted from the newest.
    pub fn get(&self, index: usize) -> (entry: Option<&DnsCacheEntry>)
        ensures
            well_formed(self@),
            match entry {
                Some(e) => index < self@.len() && e@ == self@[index as int],
                None => index >= self@.len(),
            },
    {
        proof {
            use_type_invariant(self);
        }
        if index < self.entries.len() {
            Some(&self.entries[index])
        } else {
            None
        }
    }

    /// Number of entries.
    pub fn len(&self) -> (n: usize)
        ensures
            n == self@.len(),
    {
        self.entries.len()
    }

    /// Records that a lookup of `hostname` gave `address` at `timestamp`. An
    /// entry for the same host and address is replaced.
    pub fn upsert(&mut self, hostname: &str, address: SocketAddress, timestamp: i64)
        ensures
            well_formed(old(self)@),
            final(self)@ == upserted(old(self)@, hostname@, address, timestamp),
            well_formed(final(self)@),
    {
        proof {
            use_type_invariant(&*self);
        }
        let ghost before = self@;
        let mut taken = DnsCache::new();
        core::mem::swap(self, &mut taken);
        let mut entries = taken.entries;
        let found = position(&entries, hostname, address);
        if found < entries.len() {
            let _ = entries.remove(found);
        }
        assert(models(entries@) =~= without(before, hostname@, address));
        let at = slot_for(&entries, timestamp);
        let entry = DnsCacheEntry { hostname: hostname.to_owned(), address, timestamp };
        entries.insert(at, entry);
        proof {
            assert(models(entries@) =~= upserted(before, hostname@, address, timestamp));
            upsert_keeps_well_formed(before, hostname@, address, timestamp);
        }
        *self = DnsCache { entries };
    }

    /// The addresses cached for `hostname` that are younger than thirty days
    /// at `now`, newest first.
    pub fn lookup(&self, hostname: &str, now: i64) -> (addresses: Vec<SocketAddress>)
        ensures
            well_formed(self@),
            addresses@ == fresh_addresses(self@, hostname@, now),
    {
        proof {
            use_type_invariant(self);
        }
        let mut addresses: Vec<SocketAddress> = Vec::new();
        let mut i: usize = 0;
        while i < self.entries.len()
            invariant
                i <= self.entries.len(),
                addresses@ + fresh_from(self@, hostname@, now, i as int) == fresh_from(
                    self@,
                    hostname@,
                    now,
                    0,
                ),
            decreases self.entries.len() - i,
        {
            let ghost rest = fresh_from(self@, hostname@, now, i + 1);
            if same_text(self.entries[i].hostname.as_str(), hostname) && is_fresh_at(
                self.entries[i].timestamp,
                now,
            ) {
                proof {
                    assert(addresses@.push(self.entries[i as int].address) + rest =~= addresses@
                        + (seq![self.entries[i as int].address] + rest));
                }
                addresses.push(self.entries[i].address);
            }
            i += 1;
        }
        proof {
            assert(addresses@ + Seq::<SocketAddress>::empty() =~= addresses@);
        }
        addresses
    }
}

/// The text of the one error that is reported when none of the addresses of
/// a host could be connected to.
pub fn connect_failure(host: &str, port: u16) -> (text: String)
    ensures
        text@ == "failed to connect to "@ + host@ + ":"@ + decimal(port as nat),
{
    let mut text = String::from_str("failed to connect to ");
    text.append(host);
    text.append(":");
    let number = to_decimal(port as u64);
    text.append(number.as_str());
    text
}

/// Draws up the addresses to try for `hostname`. `resolved` is what the live
/// lookup gave at `now`, empty if it failed. Each of these addresses is
/// written to the cache in its cached form, with a time that grows with its
/// place. With
/// `load_cache` the addresses that the cache holds for the host and that are
/// younger than thirty days follow, newest first, each only if it is not
/// listed by then.
pub fn lookup_host_with_cache(
    cache: &mut DnsCache,
    hostname: &str,
    resolved: Vec<SocketAddress>,
    now: i64,
    load_cache: bool,
) -> (candidates: Vec<SocketAddress>)
    ensures
        well_formed(old(cache)@),
        well_formed(final(cache)@),
        final(cache)@ == refreshed(old(cache)@, hostname@, resolved@, now, resolved@.len() as int),
        candidates@ == (if load_cache {
            merged(resolved@, fresh_addresses(final(cache)@, hostname@, now))
        } else {
            resolved@
        }),
{
    proof {
        use_type_invariant(&*cache);
    }
    let mut i: usize = 0;
    while i < resolved.len()
        invariant
            i <= resolved.len(),
            cache@ == refreshed(old(cache)@, hostname@, resolved@, now, i as int),
        decreases resolved.len() - i,
    {
        let address = resolved[i];
        let cached = SocketAddress {
            ip: address.ip,
            port: address.port,
            flowinfo: 0,
            scope_id: address.scope_id,
        };
        cache.upsert(hostname, cached, cache_timestamp(now, i));
        i += 1;
    }
    let cached = cache.lookup(hostname, now);
    if load_cache {
        append_cached(resolved, &cached)
    } else {
        resolved
    }
}

/// Index of the entry that gives the address at place `k` among those that
/// the cache gives for `hostname` from `from` on.
pub open spec fn source(c: Seq<EntryModel>, hostname: Seq<char>, now: i64, from: int, k: int) -> int
    decreases c.len() - from,
{
    if from < 0 || from >= c.len() {
        c.len() as int
    } else if answers(c[from], hostname, now) {
        if k <= 0 {
            from
        } else {
            source(c, hostname, now, from + 1, k - 1)
        }
    } else {
        source(c, hostname, now, from + 1, k)
    }
}

/// Every address that the cache gives for a host comes from an entry for
/// that host which is younger than thirty days, and the addresses come in
/// the order of their entries.
pub proof fn fresh_addresses_come_from_entries(
    c: Seq<EntryModel>,
    hostname: Seq<char>,
    now: i64,
    from: int,
)
    requires
        0 <= from <= c.len(),
    ensures
        fresh_from(c, hostname, now, from).len() <= c.len() - from,
        forall|k: int|
            0 <= k < fresh_from(c, hostname, now, from).len() ==> {
                let at = #[trigger] source(c, hostname, now, from, k);
                &&& from <= at < c.len()
                &&& answers(c[at], hostname, now)
                &&& c[at].address == fresh_from(c, hostname, now, from)[k]
            },
        forall|k1: int, k2: int|
            0 <= k1 < k2 < fresh_from(c, hostname, now, from).len() ==> #[trigger] source(
                c,
                hostname,
                now,
                from,
                k1,
            ) < #[trigger] source(c, hostname, now, from, k2),
    decreases c.len() - from,
{
    if from < c.len() {
        fresh_addresses_come_from_entries(c, hostname, now, from + 1);
        let here = fresh_from(c, hostname, now, from);
        let after = fresh_from(c, hostname, now, from + 1);
        if answers(c[from], hostname, now) {
            assert(here =~= seq![c[from].address] + after);
            assert forall|k: int| 0 <= k < here.len() implies {
                let at = #[trigger] source(c, hostname, now, from, k);
                &&& from <= at < c.len()
                &&& answers(c[at], hostname, now)
                &&& c[at].address == here[k]
            } by {
                if k > 0 {
                    assert(here[k] == after[k - 1]);
                    assert(source(c, hostname, now, from, k) == source(
                        c,
                        hostname,
                        now,
                        from + 1,
                        k - 1,
                    ));
                }
            }
            assert forall|k1: int, k2: int| 0 <= k1 < k2 < here.len() implies #[trigger] source(
                c,
                hostname,
                now,
                from,
                k1,
            ) < #[trigger] source(c, hostname, now, from, k2) by {
                assert(source(c, hostname, now, from, k2) == source(
                    c,
                    hostname,
                    now,
                    from + 1,
                    k2 - 1,
                ));
                if k1 > 0 {
                    assert(source(c, hostname, now, from, k1) == source(
                        c,
                        hostname,
                        now,
                        from + 1,
                        k1 - 1,
                    ));
                }
            }
        } else {
            assert forall|k: int| 0 <= k < here.len() implies {
                let at = #[trigger] source(c, hostname, now, from, k);
                &&& from <= at < c.len()
                &&& answers(c[at], hostname, now)
                &&& c[at].address == here[k]
            } by {
                assert(source(c, hostname, now, from, k) == source(c, hostname, now, from + 1, k));
            }
            assert forall|k1: int, k2: int| 0 <= k1 < k2 < here.len() implies #[trigger] source(
                c,
                hostname,
                now,
                from,
                k1,
            ) < #[trigger] source(c, hostname, now, from, k2) by {
                assert(source(c, hostname, now, from, k1) == source(c, hostname, now, from + 1, k1));
                assert(source(c, hostname, now, from, k2) == source(c, hostname, now, from + 1, k2));
            }
        }
    }
}

/// The address of every entry for a host that is younger than thirty days is
/// among those that the cache gives for the host.
pub proof fn fresh_entry_is_listed(
    c: Seq<EntryModel>,
    hostname: Seq<char>,
    now: i64,
    from: int,
    at: int,
)
    requires
        0 <= from <= at < c.len(),
        answers(c[at], hostname, now),
    ensures
        fresh_from(c, hostname, now, from).contains(c[at].address),
    decreases at - from,
{
    let here = fresh_from(c, hostname, now, from);
    if from == at {
        assert(here[0] == c[at].address);
    } else {
        fresh_entry_is_listed(c, hostname, now, from + 1, at);
        let after = fresh_from(c, hostname, now, from + 1);
        let k = choose|k: int| 0 <= k < after.len() && after[k] == c[at].address;
        if answers(c[from], hostname, now) {
            assert(here[k + 1] == after[k]);
        }
    }
}

/// In a cache with one entry per host and address, no address is given twice
/// for a host.
pub proof fn fresh_addresses_are_distinct(c: Seq<EntryModel>, hostname: Seq<char>, now: i64)
    requires
        unique_keys(c),
    ensures
        fresh_addresses(c, hostname, now).no_duplicates(),
{
    fresh_addresses_come_from_entries(c, hostname, now, 0);
    let list = fresh_addresses(c, hostname, now);
    assert forall|k1: int, k2: int| 0 <= k1 < list.len() && 0 <= k2 < list.len() && k1
        != k2 implies list[k1] != list[k2] by {
        let a1 = source(c, hostname, now, 0, k1);
        let a2 = source(c, hostname, now, 0, k2);
        if k1 < k2 {
            assert(a1 < a2);
        } else {
            assert(a2 < a1);
        }
    }
}

/// Cached addresses that differ from each other and from every candidate all
/// follow the candidates, in their order.
pub proof fn merged_appends_new_addresses(candidates: Seq<SocketAddress>, cached: Seq<SocketAddress>)
    requires
        cached.no_duplicates(),
        forall|k: int| 0 <= k < cached.len() ==> !candidates.contains(#[trigger] cached[k]),
    ensures
        merged(candidates, cached) == candidates + cached,
    decreases cached.len(),
{
    if cached.len() == 0 {
        assert(candidates + cached =~= candidates);
    } else {
        let next = candidates.push(cached[0]);
        let rest = cached.drop_first();
        assert forall|k: int| 0 <= k < rest.len() implies !next.contains(#[trigger] rest[k]) by {
            assert(rest[k] == cached[k + 1]);
            if next.contains(rest[k]) {
                let j = choose|j: int| 0 <= j < next.len() && next[j] == rest[k];
                if j < candidates.len() {
                    assert(candidates[j] == cached[k + 1]);
                }
            }
        }
        assert(rest.no_duplicates()) by {
            assert forall|i: int, j: int| 0 <= i < rest.len() && 0 <= j < rest.len() && i
                != j implies rest[i] != rest[j] by {
                assert(rest[i] == cached[i + 1] && rest[j] == cached[j + 1]);
            }
        }
        merged_appends_new_addresses(next, rest);
        assert(next + rest =~= candidates + cached);
    }
}

/// A cached address never displaces a candidate: the candidates stand first,
/// in their order.
pub proof fn merged_keeps_candidates(candidates: Seq<SocketAddress>, cached: Seq<SocketAddress>)
    ensures
        merged(candidates, cached).len() >= candidates.len(),
        merged(candidates, cached).take(candidates.len() as int) == candidates,
        merged(candidates, cached).len() <= candidates.len() + cached.len(),
    decreases cached.len(),
{
    if cached.len() == 0 {
        assert(candidates.take(candidates.len() as int) =~= candidates);
    } else if candidates.contains(cached[0]) {
        merged_keeps_candidates(candidates, cached.drop_first());
    } else {
        let next = candidates.push(cached[0]);
        merged_keeps_candidates(next, cached.drop_first());
        let all = merged(next, cached.drop_first());
        assert(all.take(candidates.len() as int) =~= all.take(next.len() as int).take(
            candidates.len() as int,
        ));
        assert(next.take(candidates.len() as int) =~= candidates);
    }
}

/// When the live lookup gives nothing and the cache is used, the addresses to
/// try are those that the cache holds for the host: no more than it has
/// entries, each from an entry for the host that is younger than thirty days,
/// and ordered by recency. The cache itself is left as it was.
pub proof fn cache_answers_an_empty_lookup(c: Seq<EntryModel>, hostname: Seq<char>, now: i64)
    requires
        well_formed(c),
    ensures
        refreshed(c, hostname, Seq::empty(), now, 0) == c,
        ({
            let tried = merged(Seq::empty(), fresh_addresses(c, hostname, now));
            &&& tried == fresh_addresses(c, hostname, now)
            &&& tried.len() <= c.len()
            &&& forall|k: int|
                0 <= k < tried.len() ==> {
                    let at = #[trigger] source(c, hostname, now, 0, k);
                    &&& 0 <= at < c.len()
                    &&& c[at].hostname == hostname
                    &&& is_fresh(c[at].timestamp, now)
                    &&& c[at].address == tried[k]
                }
            &&& forall|k1: int, k2: int|
                0 <= k1 < k2 < tried.len() ==> c[#[trigger] source(
                    c,
                    hostname,
                    now,
                    0,
                    k1,
                )].timestamp >= c[#[trigger] source(c, hostname, now, 0, k2)].timestamp
        }),
{
    let list = fresh_addresses(c, hostname, now);
    fresh_addresses_come_from_entries(c, hostname, now, 0);
    fresh_addresses_are_distinct(c, hostname, now);
    merged_appends_new_addresses(Seq::empty(), list);
    assert(Seq::<SocketAddress>::empty() + list =~= list);
}

/// An address that was written to the cache is given for its host for thirty
/// days from the time written, and the cache never holds more than one entry
/// for it.
pub proof fn written_address_is_read_back(
    c: Seq<EntryModel>,
    hostname: Seq<char>,
    address: SocketAddress,
    timestamp: i64,
    now: i64,
)
    requires
        well_formed(c),
        is_fresh(timestamp, now),
    ensures
        fresh_addresses(upserted(c, hostname, address, timestamp), hostname, now).contains(
            address,
        ),
        fresh_addresses(upserted(c, hostname, address, timestamp), hostname, now).no_duplicates(),
{
    upsert_keeps_well_formed(c, hostname, address, timestamp);
    let next = upserted(c, hostname, address, timestamp);
    let at = slot(without(c, hostname, address), timestamp, 0);
    fresh_entry_is_listed(next, hostname, now, 0, at);
    fresh_addresses_are_distinct(next, hostname, now);
}

/// An entry of thirty days or more is not given any more, however the rest
/// of the cache looks.
pub proof fn stale_entries_are_left_out(c: Seq<EntryModel>, hostname: Seq<char>, now: i64, k: int)
    requires
        0 <= k < fresh_addresses(c, hostname, now).len(),
    ensures
        now < c[source(c, hostname, now, 0, k)].timestamp + 30 * 24 * 3600,
{
    fresh_addresses_come_from_entries(c, hostname, now, 0);
}

/// Whether `e` is one of the entries of `c`.
pub open spec fn is_entry_of(c: Seq<EntryModel>, e: EntryModel) -> bool {
    exists|m: int| 0 <= m < c.len() && #[trigger] c[m] == e
}

/// Whether `e` is what a lookup of `hostname` at `now` wrote for one of the
/// first `upto` addresses it gave.
pub open spec fn is_written_by(
    e: EntryModel,
    hostname: Seq<char>,
    resolved: Seq<SocketAddress>,
    now: i64,
    upto: int,
) -> bool {
    exists|j: int|
        0 <= j < upto && j < resolved.len() && e == (EntryModel {
            hostname,
            address: cached_form(#[trigger] resolved[j]),
            timestamp: cache_time(now, j),
        })
}

/// After an address was written, every entry is the one written or was there
/// before.
pub proof fn upserted_entries_are_known(
    c: Seq<EntryModel>,
    hostname: Seq<char>,
    address: SocketAddress,
    timestamp: i64,
)
    requires
        well_formed(c),
    ensures
        forall|k: int|
            0 <= k < upserted(c, hostname, address, timestamp).len() ==> {
                let e = #[trigger] upserted(c, hostname, address, timestamp)[k];
                e == (EntryModel { hostname, address, timestamp }) || is_entry_of(c, e)
            },
{
    let found = key_index(c, hostname, address, 0);
    let rest = without(c, hostname, address);
    key_index_is_first(c, hostname, address, 0);
    slot_is_first_older(rest, timestamp, 0);
    let at = slot(rest, timestamp, 0);
    let next = upserted(c, hostname, address, timestamp);
    assert forall|k: int| 0 <= k < next.len() implies {
        let e = #[trigger] next[k];
        e == (EntryModel { hostname, address, timestamp }) || is_entry_of(c, e)
    } by {
        if k != at {
            let r = if k < at {
                k
            } else {
                k - 1
            };
            assert(next[k] == rest[r]);
            let m = if found < c.len() && r >= found {
                r + 1
            } else {
                r
            };
            assert(c[m] == rest[r]);
        }
    }
}

/// After a lookup was written, the cache is well formed, has grown by no
/// more than the lookup gave, and holds nothing but what it held before and
/// what the lookup gave.
pub proof fn refreshed_holds_what_was_resolved(
    c: Seq<EntryModel>,
    hostname: Seq<char>,
    resolved: Seq<SocketAddress>,
    now: i64,
    upto: int,
)
    requires
        well_formed(c),
        0 <= upto <= resolved.len(),
    ensures
        well_formed(refreshed(c, hostname, resolved, now, upto)),
        refreshed(c, hostname, resolved, now, upto).len() <= c.len() + upto,
        forall|k: int|
            0 <= k < refreshed(c, hostname, resolved, now, upto).len() ==> {
                let e = #[trigger] refreshed(c, hostname, resolved, now, upto)[k];
                is_entry_of(c, e) || is_written_by(e, hostname, resolved, now, upto)
            },
    decreases upto,
{
    let here = refreshed(c, hostname, resolved, now, upto);
    if upto <= 0 {
        assert forall|k: int| 0 <= k < here.len() implies is_entry_of(c, #[trigger] here[k]) by {
            assert(c[k] == here[k]);
        }
    } else {
        let before = refreshed(c, hostname, resolved, now, upto - 1);
        let address = cached_form(resolved[upto - 1]);
        let timestamp = cache_time(now, upto - 1);
        refreshed_holds_what_was_resolved(c, hostname, resolved, now, upto - 1);
        upsert_keeps_well_formed(before, hostname, address, timestamp);
        upserted_entries_are_known(before, hostname, address, timestamp);
        assert forall|k: int| 0 <= k < here.len() implies {
            let e = #[trigger] here[k];
            is_entry_of(c, e) || is_written_by(e, hostname, resolved, now, upto)
        } by {
            let e = here[k];
            if e == (EntryModel { hostname, address, timestamp }) {
                assert(cached_form(resolved[upto - 1]) == address);
            } else {
                let m = choose|m: int| 0 <= m < before.len() && #[trigger] before[m] == e;
                if !is_entry_of(c, before[m]) {
                    let j = choose|j: int|
                        0 <= j < upto - 1 && j < resolved.len() && e == (EntryModel {
                            hostname,
                            address: cached_form(#[trigger] resolved[j]),
                            timestamp: cache_time(now, j),
                        });
                    assert(cached_form(resolved[j]) == e.address);
                }
            }
        }
    }
}

/// A lookup that gave `resolved` fills an empty cache; a later lookup for
/// the same host that gives nothing then tries no more addresses than the
/// first one gave, each of them one of those in its cached form and written
/// less than thirty days before, the more recent first.
pub proof fn empty_lookup_tries_what_was_cached(
    hostname: Seq<char>,
    resolved: Seq<SocketAddress>,
    then: i64,
    now: i64,
)
    ensures
        ({
            let c = refreshed(Seq::empty(), hostname, resolved, then, resolved.len() as int);
            let tried = merged(Seq::empty(), fresh_addresses(c, hostname, now));
            &&& tried.len() <= resolved.len()
            &&& forall|k: int|
                0 <= k < tried.len() ==> {
                    let e = c[#[trigger] source(c, hostname, now, 0, k)];
                    &&& e.address == tried[k]
                    &&& is_fresh(e.timestamp, now)
                    &&& is_written_by(e, hostname, resolved, then, resolved.len() as int)
                }
            &&& forall|k1: int, k2: int|
                0 <= k1 < k2 < tried.len() ==> c[#[trigger] source(
                    c,
                    hostname,
                    now,
                    0,
                    k1,
                )].timestamp >= c[#[trigger] source(c, hostname, now, 0, k2)].timestamp
        }),
{
    let start = Seq::<EntryModel>::empty();
    let c = refreshed(start, hostname, resolved, then, resolved.len() as int);
    refreshed_holds_what_was_resolved(start, hostname, resolved, then, resolved.len() as int);
    cache_answers_an_empty_lookup(c, hostname, now);
    let tried = merged(Seq::empty(), fresh_addresses(c, hostname, now));
    assert forall|k: int| 0 <= k < tried.len() implies {
        let e = c[#[trigger] source(c, hostname, now, 0, k)];
        &&& e.address == tried[k]
        &&& is_fresh(e.timestamp, now)
        &&& is_written_by(e, hostname, resolved, then, resolved.len() as int)
    } by {
        let at = source(c, hostname, now, 0, k);
        assert(!is_entry_of(start, c[at]));
    }
}

} // verus!
