//! The quota evaluator.
//!
//! Two counters gate each proxied request: the model-scope limit of the
//! policy action, cached without expiry under the action's limit key,
//! and the user-scope consumption counter, cached with the action's
//! reset window under the user's counter key. A request is allowed
//! exactly when the user's consumption is below the limit; allowing it
//! increments the consumption by one while preserving the remainder of
//! its window. A fresh window always starts the counter at zero.
//!
//! The compare of the counter against the limit and the increment form
//! one atomic step against the store: [`check_and_increment`] is that
//! step as a pure function, and [`evaluate`] is the whole gate against
//! the store model. A driver holding a real store must run
//! [`check_and_increment`] under the store's atomicity primitive.

use vstd::prelude::*;

use crate::cache::CacheValue;
use crate::cache::EntryV;
use crate::cache::TtlCache;
use crate::cache::ValueV;
use crate::cache::spec_expiry;
use crate::errors::AppError;
use crate::errors::ErrorKind;
use crate::keys::model_limit_key;
use crate::keys::model_limit_key_spec;
use crate::keys::user_count_key;
use crate::keys::user_count_key_spec;
use crate::policy::PolicyAction;
use vstd::string::StringSliceAdditionalSpecFns;

verus! {

/// The outcome of the quota gate.
#[derive(Clone, Copy, Debug, PartialEq, Eq, Structural)]
pub enum Decision {
    Allow,
    Deny,
}

/// The count a counter value stands for: a plain count is itself, and
/// anything else counts as zero.
pub open spec fn count_of(v: ValueV) -> u64 {
    match v {
        ValueV::Count(n) => n,
        ValueV::Bytes(_) => 0,
    }
}

/// The state of the user counter as the atomic step sees it: its count
/// and its remaining window, or nothing if the key is absent or its
/// window has elapsed.
#[derive(Debug)]
pub struct CounterState {
    pub count: u64,
    pub remaining: Option<u64>,
}

/// What the atomic step decides to write back.
#[derive(Debug)]
pub struct CounterWrite {
    pub count: u64,
    pub ttl: Option<u64>,
}

/// The atomic compare-and-increment of the user counter.
///
/// An absent or elapsed counter stands for zero consumption over a
/// fresh window. The request is allowed exactly when the consumption is
/// below the limit; allowing writes the consumption plus one over the
/// remainder of the window. Denying an existing counter writes nothing;
/// denying an absent one writes the fresh zero so the window starts.
pub fn check_and_increment(entry: Option<CounterState>, limit: u64, window: Option<u64>) -> (r: (
    Decision,
    Option<CounterWrite>,
))
    ensures
        ({
            let count = match entry {
                Some(e) => e.count,
                None => 0u64,
            };
            let ttl = match entry {
                Some(e) => e.remaining,
                None => window,
            };
            &&& (r.0 == Decision::Allow <==> count < limit)
            &&& (r.0 == Decision::Allow ==> r.1 == Some(
                CounterWrite { count: (count + 1) as u64, ttl },
            ))
            &&& (r.0 == Decision::Deny && entry is Some ==> r.1 is None)
            &&& (r.0 == Decision::Deny && entry is None ==> r.1 == Some(
                CounterWrite { count: 0u64, ttl: window },
            ))
        }),
{
    let (count, ttl, fresh) = match entry {
        Some(e) => (e.count, e.remaining, false),
        None => (0u64, window, true),
    };
    if count >= limit {
        if fresh {
            (Decision::Deny, Some(CounterWrite { count: 0, ttl: window }))
        } else {
            (Decision::Deny, None)
        }
    } else {
        (Decision::Allow, Some(CounterWrite { count: count + 1, ttl }))
    }
}

/// The read-through rule for the model-scope limit: a cached count is
/// authoritative; otherwise the relational store's action supplies the
/// limit, along with the window a fresh counter would get. With
/// neither, the request cannot be judged.
pub fn resolve_limit(cached: Option<u64>, action: Option<&PolicyAction>) -> (r: Result<
    (u64, Option<u64>),
    AppError,
>)
    ensures
        r is Ok <==> (cached is Some || action is Some),
        r matches Ok(p) ==> p.0 == (match cached {
            Some(l) => l,
            None => (match action {
                Some(a) => a.action_count,
                None => 0u64,
            }),
        }),
        r matches Ok(p) ==> p.1 == (match action {
            Some(a) => a.reset.spec_window_seconds(),
            None => None,
        }),
        r matches Err(e) ==> e.kind() == ErrorKind::NotFound,
{
    let window = match action {
        Some(a) => a.reset.window_seconds(),
        None => None,
    };
    match (cached, action) {
        (Some(l), _) => Ok((l, window)),
        (None, Some(a)) => Ok((a.action_count, window)),
        (None, None) => Err(AppError::new(ErrorKind::NotFound, "not found")),
    }
}

/// The model-scope limit the store has cached, if a count is live under
/// the action's limit key.
pub open spec fn cached_limit(c: TtlCache, mk: Seq<u8>, now: u64) -> Option<u64> {
    if c.has_live(mk, now) && c.live_value(mk) is Count {
        Some(c.live_value(mk)->Count_0)
    } else {
        None
    }
}

/// The user's live consumption at `now`: the count under the counter
/// key, or zero if the key is absent or its window has elapsed.
pub open spec fn user_consumption(c: TtlCache, uk: Seq<u8>, now: u64) -> u64 {
    if c.has_live(uk, now) {
        count_of(c.live_value(uk))
    } else {
        0
    }
}

/// A count entry that never expires.
pub open spec fn limit_entry(limit: u64) -> EntryV {
    EntryV { value: ValueV::Count(limit), expires_at: None }
}

/// A count entry with an absolute expiry.
pub open spec fn counter_entry(count: u64, expires_at: Option<u64>) -> EntryV {
    EntryV { value: ValueV::Count(count), expires_at }
}

/// One of the two entries is not cached yet, so the backing row is
/// needed before a decision is possible.
pub open spec fn gate_missing(c: TtlCache, mk: Seq<u8>, uk: Seq<u8>, now: u64) -> bool {
    cached_limit(c, mk, now) is None || !c.has_live(uk, now)
}

/// The limit in force: the cached one, else the store action's count.
pub open spec fn effective_limit(
    c: TtlCache,
    mk: Seq<u8>,
    action: Option<PolicyAction>,
    now: u64,
) -> u64 {
    match cached_limit(c, mk, now) {
        Some(l) => l,
        None => match action {
            Some(a) => a.action_count,
            None => 0,
        },
    }
}

/// Whether the request passes: the user's live consumption has not yet
/// reached the applicable limit.
pub open spec fn gate_allows(
    c: TtlCache,
    mk: Seq<u8>,
    uk: Seq<u8>,
    action: Option<PolicyAction>,
    now: u64,
) -> bool {
    user_consumption(c, uk, now) < effective_limit(c, mk, action, now)
}

/// The store after a decided gate: a limit the store had to supply is
/// cached without expiry; an allowed request's consumption is one
/// higher, within what remains of its window — a fresh window starting
/// now; a denied fresh counter is initialized to zero so its window
/// starts; a denied existing counter is untouched.
pub open spec fn gate_cache_after(
    c: TtlCache,
    mk: Seq<u8>,
    uk: Seq<u8>,
    action: Option<PolicyAction>,
    now: u64,
) -> Map<Seq<u8>, EntryV> {
    let user_miss = !c.has_live(uk, now);
    let window = match action {
        Some(a) => a.reset.spec_window_seconds(),
        None => None,
    };
    let seeded = if cached_limit(c, mk, now) is None && action is Some {
        c@.insert(mk, limit_entry(effective_limit(c, mk, action, now)))
    } else {
        c@
    };
    if gate_allows(c, mk, uk, action, now) {
        seeded.insert(
            uk,
            counter_entry(
                (user_consumption(c, uk, now) + 1) as u64,
                if user_miss {
                    spec_expiry(window, now)
                } else {
                    c@[uk].expires_at
                },
            ),
        )
    } else if user_miss {
        seeded.insert(uk, counter_entry(0, spec_expiry(window, now)))
    } else {
        seeded
    }
}

/// The whole quota gate against the store model, for one request by
/// `user_id` on `twin_id` hitting `endpoint` under policy `policy_id`.
///
/// `action` is the policy action as the relational store has it, needed
/// only when the limit or the counter is not yet cached; a caller that
/// cannot supply it learns from `NotFound` that the store must be asked.
/// On any `Ok` outcome the cache afterwards holds the limit; `Allow`
/// increments the consumption within its window, `Deny` changes no
/// existing counter.
pub fn evaluate(
    cache: &mut TtlCache,
    policy_id: &str,
    endpoint: &[u8],
    user_id: &str,
    twin_id: &str,
    action: Option<&PolicyAction>,
    now: u64,
) -> (r: Result<Decision, AppError>)
    requires
        old(cache).wf(),
    ensures
        final(cache).wf(),
        ({
            let mk = model_limit_key_spec(policy_id.spec_bytes(), endpoint@);
            let uk = user_count_key_spec(user_id.spec_bytes(), twin_id.spec_bytes(), endpoint@);
            let act = (match action {
                Some(a) => Some(*a),
                None => None,
            });
            &&& (r is Err <==> action is None && gate_missing(*old(cache), mk, uk, now))
            &&& (r matches Err(e) ==> e.kind() == ErrorKind::NotFound && *final(cache) == *old(
                cache,
            ))
            &&& (r matches Ok(d) ==> (d == Decision::Allow <==> gate_allows(
                *old(cache),
                mk,
                uk,
                act,
                now,
            )))
            &&& (r is Ok ==> final(cache)@ == gate_cache_after(*old(cache), mk, uk, act, now))
        }),
{
    let mk = model_limit_key(policy_id, endpoint);
    let uk = user_count_key(user_id, twin_id, endpoint);

    // Read both counters before any write, so each sees the same state.
    let cached: Option<u64> = match cache.get(mk.as_slice(), now) {
        Some(CacheValue::Count(n)) => Some(*n),
        Some(_) => None,
        None => None,
    };
    let entry: Option<CounterState> = match cache.get_with_ttl(uk.as_slice(), now) {
        Some((v, remaining)) => {
            let count = match v {
                CacheValue::Count(n) => *n,
                _ => 0,
            };
            Some(CounterState { count, remaining })
        },
        None => None,
    };

    // Resolve the model-scope limit: from the cache, else from the
    // store's action; and the reset window for a fresh counter.
    let limit: u64 = match (cached, action) {
        (Some(n), _) => n,
        (None, Some(a)) => a.action_count,
        (None, None) => {
            return Err(AppError::new(ErrorKind::NotFound, "not found"));
        },
    };
    let window: Option<u64> = match (&entry, action) {
        (None, None) => {
            return Err(AppError::new(ErrorKind::NotFound, "not found"));
        },
        (None, Some(a)) => a.reset.window_seconds(),
        (Some(_), _) => None,
    };

    // Cache a limit the store had to supply, without expiry.
    if cached.is_none() {
        match action {
            Some(a) => {
                cache.set(mk, CacheValue::Count(a.action_count), None, now);
            },
            None => {},
        }
    }

    let (decision, write) = check_and_increment(entry, limit, window);
    match write {
        Some(w) => {
            cache.set(uk, CacheValue::Count(w.count), w.ttl, now);
        },
        None => {},
    }
    Ok(decision)
}

} // verus!
