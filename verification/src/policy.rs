//! Policies: versioned quota rule sets for a model.
//!
//! Each policy action binds one endpoint and HTTP verb to an allowed
//! call count and a reset window. Policies are immutable once created; a
//! new version supersedes the previous, and the latest version is the
//! one with the highest version number.
//!
//! Reset windows are measured in minutes: a day is 1440, a week 7 days,
//! a month 30 days, a year 365 days. The `Unbounded` class never
//! expires. The TTL store holds window lengths in seconds.

use vstd::prelude::*;

use crate::cache::CacheValue;
use crate::cache::CacheWrite;
use crate::cache::ValueV;
use crate::errors::AppError;
use crate::errors::ErrorKind;
use crate::keys::model_limit_key;
use crate::keys::model_limit_key_spec;
use crate::keys::user_count_key;
use crate::keys::user_count_key_spec;
use crate::keys::verb_key;
use crate::keys::verb_key_spec;
use crate::text::ascii_lower;
use crate::text::ascii_upper;
use crate::text::lower_byte;
use crate::text::upper_byte;
use crate::validate::RequestPolicyValidated;
use crate::validate::ValidateCreatePolicyAction;
use vstd::string::StringSliceAdditionalSpecFns;

verus! {

/// How often a user's consumption counter resets.
#[derive(Clone, Copy, Debug, PartialEq, Eq, Structural)]
pub enum ResetFrequency {
    Daily,
    Weekly,
    Monthly,
    Yearly,
    Unbounded,
}

pub const MINUTES_PER_DAY: u64 = 1440;

impl ResetFrequency {
    /// Decode the store's numeric reset class; unknown codes never reset.
    pub fn from_code(c: i32) -> (r: ResetFrequency)
        ensures
            r == Self::spec_from_code(c),
    {
        if c == 1 {
            ResetFrequency::Daily
        } else if c == 2 {
            ResetFrequency::Weekly
        } else if c == 3 {
            ResetFrequency::Monthly
        } else if c == 4 {
            ResetFrequency::Yearly
        } else {
            ResetFrequency::Unbounded
        }
    }

    pub open spec fn spec_from_code(c: i32) -> ResetFrequency {
        if c == 1 {
            ResetFrequency::Daily
        } else if c == 2 {
            ResetFrequency::Weekly
        } else if c == 3 {
            ResetFrequency::Monthly
        } else if c == 4 {
            ResetFrequency::Yearly
        } else {
            ResetFrequency::Unbounded
        }
    }

    /// The window length in minutes; `None` never resets.
    pub fn window_minutes(self) -> (r: Option<u64>)
        ensures
            r == self.spec_window_minutes(),
    {
        match self {
            ResetFrequency::Daily => Some(MINUTES_PER_DAY),
            ResetFrequency::Weekly => Some(7 * MINUTES_PER_DAY),
            ResetFrequency::Monthly => Some(30 * MINUTES_PER_DAY),
            ResetFrequency::Yearly => Some(365 * MINUTES_PER_DAY),
            ResetFrequency::Unbounded => None,
        }
    }

    pub open spec fn spec_window_minutes(self) -> Option<u64> {
        match self {
            ResetFrequency::Daily => Some(MINUTES_PER_DAY),
            ResetFrequency::Weekly => Some((7 * MINUTES_PER_DAY) as u64),
            ResetFrequency::Monthly => Some((30 * MINUTES_PER_DAY) as u64),
            ResetFrequency::Yearly => Some((365 * MINUTES_PER_DAY) as u64),
            ResetFrequency::Unbounded => None,
        }
    }

    /// The window length in seconds, as the TTL store holds it.
    pub fn window_seconds(self) -> (r: Option<u64>)
        ensures
            r == self.spec_window_seconds(),
    {
        match self {
            ResetFrequency::Daily => Some(MINUTES_PER_DAY * 60),
            ResetFrequency::Weekly => Some(7 * MINUTES_PER_DAY * 60),
            ResetFrequency::Monthly => Some(30 * MINUTES_PER_DAY * 60),
            ResetFrequency::Yearly => Some(365 * MINUTES_PER_DAY * 60),
            ResetFrequency::Unbounded => None,
        }
    }

    pub open spec fn spec_window_seconds(self) -> Option<u64> {
        match self.spec_window_minutes() {
            Some(m) => Some((m * 60) as u64),
            None => None,
        }
    }
}

/// One rule of a policy: an endpoint and verb bound to a call limit and
/// a reset window. The endpoint is held lower-cased and the verb
/// upper-cased.
#[derive(Debug)]
pub struct PolicyAction {
    pub id: String,
    pub policy_id: String,
    pub end_point: Vec<u8>,
    pub description: String,
    pub verb: Vec<u8>,
    pub action_count: u64,
    pub reset: ResetFrequency,
}

/// A versioned quota rule set for a model.
#[derive(Debug)]
pub struct Policy {
    pub id: String,
    pub model_id: String,
    pub name: String,
    pub description: String,
    pub version: u32,
    pub block_after: i32,
    pub actions: Vec<PolicyAction>,
}

/// How a built action relates to the payload it came from: the endpoint
/// is the payload's, lower-cased; the verb is the payload's,
/// upper-cased; a missing or negative call count becomes zero, which
/// denies every request.
pub open spec fn action_matches(
    a: PolicyAction,
    v: ValidateCreatePolicyAction,
    action_id: String,
    policy_id: Seq<char>,
) -> bool {
    &&& a.id == action_id
    &&& a.policy_id@ == policy_id
    &&& a.end_point@ == vstd::utf8::encode_utf8((v.end_point->0)@).map_values(|b: u8| lower_byte(b))
    &&& a.description@ == (v.description->0)@
    &&& a.verb@ == vstd::utf8::encode_utf8((v.end_point_verb->0)@).map_values(|b: u8| upper_byte(b))
    &&& a.action_count == spec_clamped_count(v.action_count)
    &&& a.reset == ResetFrequency::spec_from_code(v.reset_frequency_id->0)
}

/// A missing or negative requested count is zero.
pub open spec fn spec_clamped_count(c: Option<i32>) -> u64 {
    match c {
        Some(n) => if n >= 0 {
            n as u64
        } else {
            0
        },
        None => 0,
    }
}

impl Policy {
    /// Build the next version of a model's policy from a creation
    /// payload. The new version is one past the count of existing
    /// versions; each payload action becomes one rule under its fresh
    /// id. An invalid payload is refused and nothing is built.
    pub fn build(
        policy_id: String,
        model_id: String,
        req: &RequestPolicyValidated,
        action_ids: Vec<String>,
        existing_versions: u32,
    ) -> (r: Result<Policy, AppError>)
        requires
            action_ids@.len() == req.policy_action_info@.len(),
            existing_versions < u32::MAX,
        ensures
            r is Ok <==> req.valid(),
            r matches Err(e) ==> e.kind() == ErrorKind::ValidationFailed,
            r matches Ok(p) ==> {
                &&& p.id == policy_id
                &&& p.model_id == model_id
                &&& p.name@ == (req.policy_info.name->0)@
                &&& p.description@ == (req.policy_info.description->0)@
                &&& p.version == existing_versions + 1
                &&& p.block_after == (match req.policy_info.block_after {
                    Some(b) => b,
                    None => 0,
                })
                &&& p.actions@.len() == req.policy_action_info@.len()
                &&& forall|i: int|
                    0 <= i < p.actions@.len() ==> action_matches(
                        p.actions@[i],
                        req.policy_action_info@[i],
                        action_ids@[i],
                        policy_id@,
                    )
            },
    {
        match req.validate() {
            Ok(_) => {},
            Err(e) => {
                return Err(e);
            },
        }
        let n = req.policy_action_info.len();
        let mut actions: Vec<PolicyAction> = Vec::new();
        let mut i: usize = 0;
        while i < n
            invariant
                n == req.policy_action_info@.len(),
                n == action_ids@.len(),
                i <= n,
                req.valid(),
                actions@.len() == i,
                forall|j: int|
                    0 <= j < i ==> action_matches(
                        actions@[j],
                        req.policy_action_info@[j],
                        action_ids@[j],
                        policy_id@,
                    ),
            decreases n - i,
        {
            let v = &req.policy_action_info[i];
            let count: u64 = match &v.action_count {
                Some(c) => {
                    if *c >= 0 {
                        *c as u64
                    } else {
                        0
                    }
                },
                None => 0,
            };
            let reset_code: i32 = match &v.reset_frequency_id {
                Some(c) => *c,
                None => 0,
            };
            let end_point_raw = match &v.end_point {
                Some(s) => s.as_str(),
                None => "",
            };
            let verb_raw = match &v.end_point_verb {
                Some(s) => s.as_str(),
                None => "",
            };
            let description = match &v.description {
                Some(s) => s.clone(),
                None => String::new(),
            };
            let action = PolicyAction {
                id: action_ids[i].clone(),
                policy_id: policy_id.clone(),
                end_point: ascii_lower(end_point_raw.as_bytes()),
                description,
                verb: ascii_upper(verb_raw.as_bytes()),
                action_count: count,
                reset: ResetFrequency::from_code(reset_code),
            };
            actions.push(action);
            i = i + 1;
        }
        let name = match &req.policy_info.name {
            Some(s) => s.clone(),
            None => String::new(),
        };
        let description = match &req.policy_info.description {
            Some(s) => s.clone(),
            None => String::new(),
        };
        let block_after = match &req.policy_info.block_after {
            Some(b) => *b,
            None => 0,
        };
        Ok(
            Policy {
                id: policy_id,
                model_id,
                name,
                description,
                version: existing_versions + 1,
                block_after,
                actions,
            },
        )
    }

    /// The policy in force among a model's versions: the one with the
    /// highest version number; among equals, the earliest. An empty
    /// history has no policy in force.
    pub fn latest(policies: &Vec<Policy>) -> (r: Option<&Policy>)
        ensures
            r is Some <==> policies@.len() > 0,
            r matches Some(p) ==> (exists|i: int|
                0 <= i < policies@.len() && policies@[i] == *p),
            r matches Some(p) ==> (forall|i: int|
                0 <= i < policies@.len() ==> policies@[i].version <= p.version),
    {
        if policies.len() == 0 {
            return None;
        }
        let mut best: usize = 0;
        let mut i: usize = 1;
        while i < policies.len()
            invariant
                policies@.len() > 0,
                best < i <= policies@.len(),
                forall|j: int| 0 <= j < i ==> policies@[j].version <= policies@[best as int].version,
            decreases policies@.len() - i,
        {
            if policies[i].version > policies[best].version {
                best = i;
            }
            i = i + 1;
        }
        Some(&policies[best])
    }

    /// The cache entries that creating this policy seeds: for each
    /// action, its call limit and its verb, neither expiring.
    pub fn seed_writes(&self) -> (ws: Vec<CacheWrite>)
        ensures
            ws@.len() == 2 * self.actions@.len(),
            forall|i: int|
                0 <= i < self.actions@.len() ==> {
                    &&& ws@[2 * i].key@ == model_limit_key_spec(
                        vstd::utf8::encode_utf8(self.id@),
                        self.actions@[i].end_point@,
                    )
                    &&& ws@[2 * i].value.view() == ValueV::Count(self.actions@[i].action_count)
                    &&& ws@[2 * i].ttl is None
                    &&& ws@[2 * i + 1].key@ == verb_key_spec(
                        vstd::utf8::encode_utf8(self.id@),
                        self.actions@[i].end_point@,
                    )
                    &&& ws@[2 * i + 1].value.view() == ValueV::Bytes(self.actions@[i].verb@)
                    &&& ws@[2 * i + 1].ttl is None
                },
    {
        let n = self.actions.len();
        let mut ws: Vec<CacheWrite> = Vec::new();
        let mut i: usize = 0;
        while i < n
            invariant
                n == self.actions@.len(),
                i <= n,
                ws@.len() == 2 * i,
                forall|j: int|
                    0 <= j < i ==> {
                        &&& ws@[2 * j].key@ == model_limit_key_spec(
                            vstd::utf8::encode_utf8(self.id@),
                            self.actions@[j].end_point@,
                        )
                        &&& ws@[2 * j].value.view() == ValueV::Count(
                            self.actions@[j].action_count,
                        )
                        &&& ws@[2 * j].ttl is None
                        &&& ws@[2 * j + 1].key@ == verb_key_spec(
                            vstd::utf8::encode_utf8(self.id@),
                            self.actions@[j].end_point@,
                        )
                        &&& ws@[2 * j + 1].value.view() == ValueV::Bytes(self.actions@[j].verb@)
                        &&& ws@[2 * j + 1].ttl is None
                    },
            decreases n - i,
        {
            let a = &self.actions[i];
            ws.push(
                CacheWrite {
                    key: model_limit_key(self.id.as_str(), a.end_point.as_slice()),
                    value: CacheValue::Count(a.action_count),
                    ttl: None,
                },
            );
            ws.push(
                CacheWrite {
                    key: verb_key(self.id.as_str(), a.end_point.as_slice()),
                    value: CacheValue::Bytes(crate::text::clone_bytes(a.verb.as_slice())),
                    ttl: None,
                },
            );
            i = i + 1;
        }
        ws
    }

    /// The user-scope counters a subscription seeds: one zeroed counter
    /// per action, expiring at the action's reset window.
    pub fn seed_user_writes(&self, user_id: &str, twin_id: &str) -> (ws: Vec<CacheWrite>)
        ensures
            ws@.len() == self.actions@.len(),
            forall|i: int|
                0 <= i < self.actions@.len() ==> {
                    &&& ws@[i].key@ == user_count_key_spec(
                        user_id.spec_bytes(),
                        twin_id.spec_bytes(),
                        self.actions@[i].end_point@,
                    )
                    &&& ws@[i].value.view() == ValueV::Count(0)
                    &&& ws@[i].ttl == self.actions@[i].reset.spec_window_seconds()
                },
    {
        let n = self.actions.len();
        let mut ws: Vec<CacheWrite> = Vec::new();
        let mut i: usize = 0;
        while i < n
            invariant
                n == self.actions@.len(),
                i <= n,
                ws@.len() == i,
                forall|j: int|
                    0 <= j < i ==> {
                        &&& ws@[j].key@ == user_count_key_spec(
                            user_id.spec_bytes(),
                            twin_id.spec_bytes(),
                            self.actions@[j].end_point@,
                        )
                        &&& ws@[j].value.view() == ValueV::Count(0)
                        &&& ws@[j].ttl == self.actions@[j].reset.spec_window_seconds()
                    },
            decreases n - i,
        {
            let a = &self.actions[i];
            ws.push(
                CacheWrite {
                    key: user_count_key(user_id, twin_id, a.end_point.as_slice()),
                    value: CacheValue::Count(0),
                    ttl: a.reset.window_seconds(),
                },
            );
            i = i + 1;
        }
        ws
    }
}

} // verus!
