//! A model of the shared TTL key-value store.
//!
//! Quota counters, cached limits, cached verbs and port markers live in
//! an external cache with per-key expiry. This module gives that store
//! exact semantics: a keyed collection of values, each with an optional
//! absolute expiry instant, where an entry is dead as soon as its expiry
//! has been reached. Every operation of the store's narrow interface —
//! `get`, `get_with_ttl`, `set`, `set_if_absent`, `delete` — is
//! implemented and specified here over a map view, so that the quota
//! evaluator and the port allocator can be verified against it.
//!
//! Deleted and expired entries are kept as dead slots; no observation
//! distinguishes a dead slot from an absent key.

use vstd::prelude::*;

use crate::text::bytes_eq;
use crate::text::clone_bytes;

verus! {

/// A cached value: a counter or limit, or raw bytes such as an HTTP verb.
#[derive(Debug)]
pub enum CacheValue {
    Count(u64),
    Bytes(Vec<u8>),
}

/// The mathematical form of a cached value.
pub enum ValueV {
    Count(u64),
    Bytes(Seq<u8>),
}

impl CacheValue {
    pub open spec fn view(self) -> ValueV {
        match self {
            CacheValue::Count(n) => ValueV::Count(n),
            CacheValue::Bytes(b) => ValueV::Bytes(b@),
        }
    }
}

/// The mathematical form of one entry: its value and, if it expires,
/// the absolute instant at which it dies.
pub struct EntryV {
    pub value: ValueV,
    pub expires_at: Option<u64>,
}

/// An entry is dead once its expiry instant has been reached.
pub open spec fn entry_expired(e: EntryV, now: u64) -> bool {
    e.expires_at matches Some(t) && t <= now
}

struct Slot {
    key: Vec<u8>,
    value: CacheValue,
    expires_at: Option<u64>,
}

impl Slot {
    spec fn entry_v(self) -> EntryV {
        EntryV { value: self.value.view(), expires_at: self.expires_at }
    }
}

spec fn unique_keys(s: Seq<Slot>) -> bool {
    forall|i: int, j: int| 0 <= i < j < s.len() ==> s[i].key@ != s[j].key@
}

spec fn slots_to_map(s: Seq<Slot>) -> Map<Seq<u8>, EntryV>
    decreases s.len(),
{
    if s.len() == 0 {
        Map::empty()
    } else {
        slots_to_map(s.drop_last()).insert(s.last().key@, s.last().entry_v())
    }
}

/// The key-value store model.
pub struct TtlCache {
    slots: Vec<Slot>,
}

/// The absolute expiry instant of an entry set at `now` with the given
/// time to live, saturating at the end of time.
pub open spec fn abs_expiry(now: u64, ttl: u64) -> u64 {
    if now + ttl <= u64::MAX {
        (now + ttl) as u64
    } else {
        u64::MAX
    }
}

impl TtlCache {
    pub closed spec fn view(self) -> Map<Seq<u8>, EntryV> {
        slots_to_map(self.slots@)
    }

    /// Slots hold each key at most once; every constructor establishes
    /// this and every operation preserves it.
    pub closed spec fn wf(self) -> bool {
        unique_keys(self.slots@)
    }

    /// A key holds a live entry: it is present and not yet expired.
    pub open spec fn has_live(self, key: Seq<u8>, now: u64) -> bool {
        self@.contains_key(key) && !entry_expired(self@[key], now)
    }

    /// The value behind a live key.
    pub open spec fn live_value(self, key: Seq<u8>) -> ValueV {
        self@[key].value
    }

    pub fn new() -> (c: TtlCache)
        ensures
            c.wf(),
            c@ == Map::<Seq<u8>, EntryV>::empty(),
    {
        TtlCache { slots: Vec::new() }
    }

    /// Look up a live entry; a dead or absent key yields nothing.
    pub fn get(&self, key: &[u8], now: u64) -> (r: Option<&CacheValue>)
        requires
            self.wf(),
        ensures
            r is Some <==> self.has_live(key@, now),
            r matches Some(v) ==> v.view() == self.live_value(key@),
    {
        match self.find(key) {
            Some(i) => {
                let slot = &self.slots[i];
                match slot.expires_at {
                    Some(t) => {
                        if t <= now {
                            None
                        } else {
                            Some(&slot.value)
                        }
                    },
                    None => Some(&slot.value),
                }
            },
            None => None,
        }
    }

    /// Look up a live entry together with its remaining time to live;
    /// `None` in the second position means the entry never expires.
    pub fn get_with_ttl(&self, key: &[u8], now: u64) -> (r: Option<(&CacheValue, Option<u64>)>)
        requires
            self.wf(),
        ensures
            r is Some <==> self.has_live(key@, now),
            r matches Some(p) ==> p.0.view() == self.live_value(key@),
            r matches Some(p) ==> p.1 == remaining_ttl(self@[key@].expires_at, now),
    {
        match self.find(key) {
            Some(i) => {
                let slot = &self.slots[i];
                match slot.expires_at {
                    Some(t) => {
                        if t <= now {
                            None
                        } else {
                            Some((&slot.value, Some(t - now)))
                        }
                    },
                    None => Some((&slot.value, None)),
                }
            },
            None => None,
        }
    }

    /// Store a value under a key, replacing whatever was there; a `ttl`
    /// of `None` makes an entry that never expires.
    pub fn set(&mut self, key: Vec<u8>, value: CacheValue, ttl: Option<u64>, now: u64)
        requires
            old(self).wf(),
        ensures
            final(self).wf(),
            final(self)@ == old(self)@.insert(
                key@,
                EntryV { value: value.view(), expires_at: spec_expiry(ttl, now) },
            ),
    {
        let expires_at = match ttl {
            Some(t) => {
                if now <= u64::MAX - t {
                    Some(now + t)
                } else {
                    Some(u64::MAX)
                }
            },
            None => None,
        };
        match self.find(&key) {
            Some(i) => {
                let slot = Slot { key, value, expires_at };
                proof {
                    lemma_slots_update(self.slots@, i as int, slot);
                }
                self.slots.set(i, slot);
            },
            None => {
                proof {
                    assert forall|j: int| 0 <= j < self.slots@.len() implies self.slots@[j].key@
                        != key@ by {
                        lemma_slots_index(self.slots@, j);
                    }
                    assert(self.slots@.push(Slot { key: key, value: value, expires_at }).drop_last()
                        =~= self.slots@);
                }
                self.slots.push(Slot { key, value, expires_at });
            },
        }
    }

    /// Atomically claim a key: if no live entry holds it, store the value
    /// and report `true`; if a live entry holds it, change nothing and
    /// report `false`. This is the check-and-claim primitive behind
    /// exclusive port reservation.
    pub fn set_if_absent(&mut self, key: Vec<u8>, value: CacheValue, ttl: Option<u64>, now: u64)
        -> (claimed: bool)
        requires
            old(self).wf(),
        ensures
            final(self).wf(),
            claimed <==> !old(self).has_live(key@, now),
            claimed ==> final(self)@ == old(self)@.insert(
                key@,
                EntryV { value: value.view(), expires_at: spec_expiry(ttl, now) },
            ),
            !claimed ==> *final(self) == *old(self),
    {
        let live = match self.get(&key, now) {
            Some(_) => true,
            None => false,
        };
        if live {
            false
        } else {
            self.set(key, value, ttl, now);
            true
        }
    }

    /// Drop a key: afterwards no instant observes a live entry under it.
    /// Deleting an absent key changes nothing.
    pub fn delete(&mut self, key: &[u8])
        requires
            old(self).wf(),
        ensures
            final(self).wf(),
            final(self)@ == (if old(self)@.contains_key(key@) {
                old(self)@.insert(
                    key@,
                    EntryV { value: old(self)@[key@].value, expires_at: Some(0) },
                )
            } else {
                old(self)@
            }),
            !final(self).has_live(key@, 0) && forall|now: u64| !final(self).has_live(key@, now),
    {
        match self.find(key) {
            Some(i) => {
                let old_slot = &self.slots[i];
                let slot = Slot {
                    key: clone_bytes(old_slot.key.as_slice()),
                    value: clone_value(&old_slot.value),
                    expires_at: Some(0),
                };
                proof {
                    lemma_slots_update(self.slots@, i as int, slot);
                }
                self.slots.set(i, slot);
            },
            None => {},
        }
    }

    /// The index of the slot holding a key, dead or live.
    fn find(&self, key: &[u8]) -> (r: Option<usize>)
        requires
            self.wf(),
        ensures
            r matches Some(i) ==> 0 <= i < self.slots@.len() && self.slots@[i as int].key@ == key@
                && self@.contains_key(key@) && self@[key@] == self.slots@[i as int].entry_v(),
            r is None ==> !self@.contains_key(key@),
    {
        let n = self.slots.len();
        let mut i: usize = 0;
        while i < n
            invariant
                n == self.slots@.len(),
                i <= n,
                unique_keys(self.slots@),
                self@ == slots_to_map(self.slots@),
                forall|j: int| 0 <= j < i ==> self.slots@[j].key@ != key@,
            decreases n - i,
        {
            if bytes_eq(self.slots[i].key.as_slice(), key) {
                proof {
                    lemma_slots_index(self.slots@, i as int);
                }
                return Some(i);
            }
            i = i + 1;
        }
        proof {
            lemma_slots_absent(self.slots@, key@);
        }
        None
    }
}

/// One pending write into the TTL store.
#[derive(Debug)]
pub struct CacheWrite {
    pub key: Vec<u8>,
    pub value: CacheValue,
    pub ttl: Option<u64>,
}

/// The map that results from performing a batch of writes in order.
pub open spec fn apply_writes_spec(
    m: Map<Seq<u8>, EntryV>,
    ws: Seq<CacheWrite>,
    now: u64,
) -> Map<Seq<u8>, EntryV>
    decreases ws.len(),
{
    if ws.len() == 0 {
        m
    } else {
        apply_writes_spec(
            m.insert(
                ws[0].key@,
                EntryV { value: ws[0].value.view(), expires_at: spec_expiry(ws[0].ttl, now) },
            ),
            ws.drop_first(),
            now,
        )
    }
}

impl TtlCache {
    /// Perform a batch of writes in order.
    pub fn apply(&mut self, writes: Vec<CacheWrite>, now: u64)
        requires
            old(self).wf(),
        ensures
            final(self).wf(),
            final(self)@ == apply_writes_spec(old(self)@, writes@, now),
    {
        let mut rest = writes;
        while rest.len() > 0
            invariant
                self.wf(),
                apply_writes_spec(old(self)@, writes@, now) == apply_writes_spec(
                    self@,
                    rest@,
                    now,
                ),
            decreases rest@.len(),
        {
            let w = rest.remove(0);
            self.set(w.key, w.value, w.ttl, now);
        }
    }
}

/// The absolute expiry a `set` with this `ttl` produces.
pub open spec fn spec_expiry(ttl: Option<u64>, now: u64) -> Option<u64> {
    match ttl {
        Some(t) => Some(abs_expiry(now, t)),
        None => None,
    }
}

/// What remains of an entry's life at `now`; `None` means it never dies.
pub open spec fn remaining_ttl(expires_at: Option<u64>, now: u64) -> Option<u64> {
    match expires_at {
        Some(t) => Some((t - now) as u64),
        None => None,
    }
}

fn clone_value(v: &CacheValue) -> (r: CacheValue)
    ensures
        r.view() == v.view(),
{
    match v {
        CacheValue::Count(n) => CacheValue::Count(*n),
        CacheValue::Bytes(b) => CacheValue::Bytes(clone_bytes(b.as_slice())),
    }
}

proof fn lemma_slots_index(s: Seq<Slot>, i: int)
    requires
        unique_keys(s),
        0 <= i < s.len(),
    ensures
        slots_to_map(s).contains_key(s[i].key@),
        slots_to_map(s)[s[i].key@] == s[i].entry_v(),
    decreases s.len(),
{
    if i < s.len() - 1 {
        lemma_slots_index(s.drop_last(), i);
    }
}

proof fn lemma_slots_absent(s: Seq<Slot>, key: Seq<u8>)
    requires
        forall|j: int| 0 <= j < s.len() ==> s[j].key@ != key,
    ensures
        !slots_to_map(s).contains_key(key),
    decreases s.len(),
{
    if s.len() > 0 {
        lemma_slots_absent(s.drop_last(), key);
    }
}

proof fn lemma_slots_update(s: Seq<Slot>, i: int, x: Slot)
    requires
        unique_keys(s),
        0 <= i < s.len(),
        x.key@ == s[i].key@,
    ensures
        unique_keys(s.update(i, x)),
        slots_to_map(s.update(i, x)) == slots_to_map(s).insert(x.key@, x.entry_v()),
    decreases s.len(),
{
    let t = s.update(i, x);
    assert(forall|j: int| 0 <= j < s.len() && j != i ==> t[j] == s[j]);
    if i == s.len() - 1 {
        assert(t.drop_last() =~= s.drop_last());
        assert(slots_to_map(t) =~= slots_to_map(s).insert(x.key@, x.entry_v()));
    } else {
        assert(t.drop_last() =~= s.drop_last().update(i, x));
        lemma_slots_update(s.drop_last(), i, x);
        assert(t.last() == s.last());
        assert(s.last().key@ != x.key@);
        assert(slots_to_map(t) =~= slots_to_map(s).insert(x.key@, x.entry_v()));
    }
}

} // verus!
