//! The laws the twin core obeys, stated and proved.
//!
//! Each proof function here states one system-wide guarantee over the
//! spec functions that the executable functions' contracts are written
//! in, so the guarantee follows for every run of the code.

use vstd::prelude::*;

use crate::allocator::port_marker;
use crate::cache::TtlCache;
use crate::cache::entry_expired;
use crate::cache::spec_expiry;
use crate::evaluator::count_of;
use crate::evaluator::counter_entry;
use crate::evaluator::effective_limit;
use crate::evaluator::gate_allows;
use crate::evaluator::gate_cache_after;
use crate::evaluator::user_consumption;
use crate::keys::lemma_key_families_disjoint;
use crate::keys::model_limit_key_spec;
use crate::keys::port_key_spec;
use crate::keys::user_count_key_spec;
use crate::policy::PolicyAction;
use crate::twin::TwinOp;
use crate::twin::TwinStatus;
use crate::twin::spec_transition;

verus! {

/// A twin's status moves only along `Stopped -> Running` (start),
/// `Running -> Stopped` (stop) and `{Stopped, Running} -> Deleted`
/// (decommission); `Deleted` is terminal. Every other attempt has no
/// transition — and [`TwinStatus::apply_op`] then returns
/// `InvalidState` and yields no new status.
pub proof fn lemma_status_transitions(s: TwinStatus, op: TwinOp)
    ensures
        spec_transition(s, op) matches Some(t) ==> {
            ||| (s == TwinStatus::Stopped && op == TwinOp::Start && t == TwinStatus::Running)
            ||| (s == TwinStatus::Running && op == TwinOp::Stop && t == TwinStatus::Stopped)
            ||| (s != TwinStatus::Deleted && op == TwinOp::Decommission && t
                == TwinStatus::Deleted)
        },
        s == TwinStatus::Deleted ==> spec_transition(s, op) is None,
{
}

/// Stopping a stopped twin and starting a running twin are rejected:
/// neither has a transition, so [`crate::twin::Twin::start`] and
/// [`crate::twin::Twin::stop`] leave the twin untouched and return
/// `InvalidState` on these inputs.
pub proof fn lemma_idempotent_operations_rejected()
    ensures
        spec_transition(TwinStatus::Stopped, TwinOp::Stop) is None,
        spec_transition(TwinStatus::Running, TwinOp::Start) is None,
{
}

/// Allowing a request keeps the user's counter bounded by the limit:
/// for any (policy, endpoint, user, twin) tuple, whenever a request is
/// let through, the counter written back is the previous consumption
/// plus one, and that value does not pass the applicable limit.
pub proof fn lemma_quota_never_exceeded(
    c: TtlCache,
    policy_id: Seq<u8>,
    endpoint: Seq<u8>,
    user_id: Seq<u8>,
    twin_id: Seq<u8>,
    action: Option<PolicyAction>,
    now: u64,
)
    requires
        gate_allows(
            c,
            model_limit_key_spec(policy_id, endpoint),
            user_count_key_spec(user_id, twin_id, endpoint),
            action,
            now,
        ),
    ensures
        ({
            let mk = model_limit_key_spec(policy_id, endpoint);
            let uk = user_count_key_spec(user_id, twin_id, endpoint);
            let after = gate_cache_after(c, mk, uk, action, now);
            &&& after.contains_key(uk)
            &&& count_of(after[uk].value) == user_consumption(c, uk, now) + 1
            &&& count_of(after[uk].value) <= effective_limit(c, mk, action, now)
        }),
{
}

/// Once the consumption has reached the limit, the next request within
/// the window is denied, and an existing counter is not advanced by
/// the denial.
pub proof fn lemma_quota_denied_at_limit(
    c: TtlCache,
    policy_id: Seq<u8>,
    endpoint: Seq<u8>,
    user_id: Seq<u8>,
    twin_id: Seq<u8>,
    action: Option<PolicyAction>,
    now: u64,
)
    requires
        user_consumption(c, user_count_key_spec(user_id, twin_id, endpoint), now)
            >= effective_limit(c, model_limit_key_spec(policy_id, endpoint), action, now),
    ensures
        ({
            let mk = model_limit_key_spec(policy_id, endpoint);
            let uk = user_count_key_spec(user_id, twin_id, endpoint);
            &&& !gate_allows(c, mk, uk, action, now)
            &&& (c.has_live(uk, now) ==> gate_cache_after(c, mk, uk, action, now)[uk] == c@[uk])
        }),
{
    lemma_key_families_disjoint(policy_id, endpoint, user_id, twin_id, endpoint);
}

/// A counter resets to zero exactly when its window elapses: a request
/// finding no live counter — because none existed or its expiry has
/// been reached — is judged against zero consumption, so it is allowed
/// whenever the limit is positive, however exhausted the prior window
/// was; and the counter it leaves holds one call in a fresh window.
pub proof fn lemma_window_reset(
    c: TtlCache,
    policy_id: Seq<u8>,
    endpoint: Seq<u8>,
    user_id: Seq<u8>,
    twin_id: Seq<u8>,
    action: Option<PolicyAction>,
    now: u64,
)
    requires
        !c.has_live(user_count_key_spec(user_id, twin_id, endpoint), now),
        effective_limit(c, model_limit_key_spec(policy_id, endpoint), action, now) > 0,
    ensures
        ({
            let mk = model_limit_key_spec(policy_id, endpoint);
            let uk = user_count_key_spec(user_id, twin_id, endpoint);
            &&& user_consumption(c, uk, now) == 0
            &&& gate_allows(c, mk, uk, action, now)
            &&& gate_cache_after(c, mk, uk, action, now)[uk] == counter_entry(
                1,
                spec_expiry(
                    (match action {
                        Some(a) => a.reset.spec_window_seconds(),
                        None => None,
                    }),
                    now,
                ),
            )
        }),
{
}

/// Host ports are reserved exclusively. A successful reservation leaves
/// the port's marker live — it never expires — so a second reservation
/// from any later state still holding that marker cannot return the
/// same port: concurrent reservations serialize at the store's atomic
/// claim, and no two of them receive one port.
pub proof fn lemma_port_reservation_exclusive(
    before: TtlCache,
    after: TtlCache,
    p1: u16,
    p2: u16,
    now: u64,
)
    requires
        after@ == before@.insert(port_key_spec(p1), port_marker(p1)),
        !after.has_live(port_key_spec(p2), now),
    ensures
        p1 != p2,
{
    assert(after@.contains_key(port_key_spec(p1)));
    assert(!entry_expired(port_marker(p1), now));
}

} // verus!
