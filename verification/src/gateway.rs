//! The gateway: policy-gated forwarding into a live twin.
//!
//! A proxied call resolves the caller's twin, requires it to be
//! running, passes the quota gate when the twin has a policy, and is
//! then rewritten: the outbound call goes to the loopback address at
//! the twin's public port, under the verb the policy cached for the
//! endpoint — the inbound request's own method is ignored. Headers and
//! body pass through unchanged. An upstream failure surfaces as
//! `UpstreamUnavailable`, never a retry; and only after a successful,
//! fully received response — and only for a twin that shares data — is
//! a usage record produced.

use vstd::prelude::*;

use crate::cache::CacheValue;
use crate::cache::TtlCache;
use crate::errors::AppError;
use crate::errors::ErrorKind;
use crate::evaluator::Decision;
use crate::evaluator::evaluate;
use crate::evaluator::gate_allows;
use crate::evaluator::gate_cache_after;
use crate::evaluator::gate_missing;
use crate::keys::model_limit_key_spec;
use crate::keys::user_count_key_spec;
use crate::keys::verb_key;
use crate::keys::verb_key_spec;
use crate::policy::PolicyAction;
use crate::text::ascii_view;
use crate::text::clone_bytes;
use crate::text::dec_digits;
use crate::text::string_from_ascii;
use crate::text::u64_to_dec;
use crate::twin::Twin;
use crate::twin::TwinStatus;
use vstd::string::StringExecFns;
use vstd::string::StringSliceAdditionalSpecFns;
use vstd::utf8::encode_utf8;

verus! {

/// The twin a lookup scoped to the caller produced; a twin that is
/// missing, deleted, or not the caller's is `NotFound`.
pub fn resolve_twin(found: Option<Twin>) -> (r: Result<Twin, AppError>)
    ensures
        r is Ok <==> found is Some,
        r matches Ok(t) ==> found == Some(t),
        r matches Err(e) ==> e.kind() == ErrorKind::NotFound,
{
    match found {
        Some(t) => Ok(t),
        None => Err(AppError::new(ErrorKind::NotFound, "not found")),
    }
}

/// Only a running twin takes traffic.
pub fn require_running(twin: &Twin) -> (r: Result<(), AppError>)
    ensures
        r is Ok <==> twin.status == TwinStatus::Running,
        r matches Err(e) ==> e.kind() == ErrorKind::InvalidState && e.message_view()
            == "Twin is not running"@,
{
    if matches!(twin.status, TwinStatus::Running) {
        Ok(())
    } else {
        Err(AppError::new(ErrorKind::InvalidState, "Twin is not running"))
    }
}

/// The quota gate of one proxied call: a twin without a policy is
/// unrestricted; otherwise the evaluator decides against the counter
/// store, and a denial aborts the call with `QuotaExceeded` before any
/// network traffic. `NotFound` reports that the store's policy action
/// is needed and was not supplied; the store is then untouched.
pub fn quota_gate(
    cache: &mut TtlCache,
    twin: &Twin,
    endpoint: &[u8],
    user_id: &str,
    action: Option<&PolicyAction>,
    now: u64,
) -> (r: Result<(), AppError>)
    requires
        old(cache).wf(),
    ensures
        final(cache).wf(),
        twin.policy_id is None ==> r is Ok && *final(cache) == *old(cache),
        ({
            let pid = encode_utf8((twin.policy_id->0)@);
            let mk = model_limit_key_spec(pid, endpoint@);
            let uk = user_count_key_spec(user_id.spec_bytes(), encode_utf8(twin.id@), endpoint@);
            let act = (match action {
                Some(a) => Some(*a),
                None => None,
            });
            let unanswerable = action is None && gate_missing(*old(cache), mk, uk, now);
            twin.policy_id is Some ==> {
                &&& (r is Ok <==> !unanswerable && gate_allows(*old(cache), mk, uk, act, now))
                &&& (unanswerable ==> (r matches Err(e) && e.kind() == ErrorKind::NotFound
                    && *final(cache) == *old(cache)))
                &&& (!unanswerable && !gate_allows(*old(cache), mk, uk, act, now) ==> (
                r matches Err(e) && e.kind() == ErrorKind::QuotaExceeded))
                &&& (!unanswerable ==> final(cache)@ == gate_cache_after(
                    *old(cache),
                    mk,
                    uk,
                    act,
                    now,
                ))
            }
        }),
{
    let pid = match &twin.policy_id {
        None => {
            return Ok(());
        },
        Some(p) => p,
    };
    match evaluate(cache, pid.as_str(), endpoint, user_id, twin.id.as_str(), action, now) {
        Err(e) => Err(e),
        Ok(Decision::Allow) => Ok(()),
        Ok(Decision::Deny) => Err(
            AppError::new(ErrorKind::QuotaExceeded, "Resource usage policy not satisfied!"),
        ),
    }
}

/// The verb the policy cached for this endpoint, if one is live.
pub fn cached_verb(cache: &TtlCache, policy_id: &str, endpoint: &[u8], now: u64) -> (r: Option<
    Vec<u8>,
>)
    requires
        cache.wf(),
    ensures
        ({
            let vk = verb_key_spec(policy_id.spec_bytes(), endpoint@);
            &&& (r is Some <==> cache.has_live(vk, now) && cache.live_value(vk) is Bytes)
            &&& (r matches Some(v) ==> cache.live_value(vk) == crate::cache::ValueV::Bytes(v@))
        }),
{
    let vk = verb_key(policy_id, endpoint);
    match cache.get(vk.as_slice(), now) {
        Some(CacheValue::Bytes(v)) => Some(clone_bytes(v.as_slice())),
        Some(_) => None,
        None => None,
    }
}

/// One outbound request, fully rewritten: loopback at the twin's public
/// port, under the policy's verb, with the inbound body unchanged.
#[derive(Debug)]
pub struct ForwardSpec {
    pub port: u16,
    pub uri: String,
    pub method: Vec<u8>,
    pub body: Vec<u8>,
}

/// Rewrite an inbound request for the twin's exposed port. The method
/// becomes `verb` — the verb the policy cached — whatever
/// `inbound_method` was; the body passes through untouched. A twin
/// without a public port cannot take traffic.
pub fn build_forward(
    twin: &Twin,
    endpoint: &str,
    verb: Vec<u8>,
    inbound_method: &[u8],
    body: Vec<u8>,
) -> (r: Result<ForwardSpec, AppError>)
    ensures
        r is Ok <==> twin.twin_port is Some,
        r matches Err(e) ==> e.kind() == ErrorKind::InvalidState,
        r matches Ok(f) ==> {
            &&& Some(f.port) == twin.twin_port
            &&& f.uri@ == "http://localhost:"@ + ascii_view(dec_digits(f.port as nat)) + "/"@
                + endpoint@
            &&& f.method@ == verb@
            &&& f.body@ == body@
        },
{
    let port = match twin.twin_port {
        Some(p) => p,
        None => {
            return Err(AppError::new(ErrorKind::InvalidState, "Twin has no public port"));
        },
    };
    let digits = u64_to_dec(port as u64);
    proof {
        crate::text::lemma_dec_digits_are_digits(port as nat);
    }
    let port_text = string_from_ascii(digits);
    let mut uri = "http://localhost:".to_owned();
    uri.append(port_text.as_str());
    uri.append("/");
    uri.append(endpoint);
    Ok(ForwardSpec { port, uri, method: verb, body })
}

/// What became of the outbound call: a fully received response, or a
/// connection failure or timeout.
#[derive(Debug)]
pub enum ForwardOutcome {
    Response { status: u16, body: Vec<u8> },
    Failed,
}

/// Pass a received response through unchanged; a failed call is
/// `UpstreamUnavailable` and is never retried.
pub fn forward_result(outcome: ForwardOutcome) -> (r: Result<(u16, Vec<u8>), AppError>)
    ensures
        r is Ok <==> outcome is Response,
        r matches Ok(p) ==> p.0 == outcome->Response_status && p.1@ == outcome->Response_body@,
        r matches Err(e) ==> e.kind() == ErrorKind::UpstreamUnavailable,
{
    match outcome {
        ForwardOutcome::Response { status, body } => Ok((status, body)),
        ForwardOutcome::Failed => Err(
            AppError::new(ErrorKind::UpstreamUnavailable, "upstream call failed"),
        ),
    }
}

/// An immutable record of one shared exchange: the raw inbound body and
/// the raw outbound body, tagged with the twin's model.
#[derive(Debug)]
pub struct UsageRecord {
    pub model_id: String,
    pub input_data: Vec<u8>,
    pub output_response: Vec<u8>,
}

/// The usage record of one proxied call: exactly one is produced when
/// the twin shares data and the call succeeded, capturing both raw
/// bodies; a failed or aborted call, or a twin that does not share,
/// yields none.
pub fn usage_record(twin: &Twin, input_body: &[u8], outcome: &ForwardOutcome) -> (r: Option<
    UsageRecord,
>)
    ensures
        r is Some <==> twin.enable_data_sharing && outcome is Response,
        r matches Some(u) ==> {
            &&& u.model_id == twin.model_id
            &&& u.input_data@ == input_body@
            &&& u.output_response@ == outcome->Response_body@
        },
{
    if !twin.enable_data_sharing {
        return None;
    }
    match outcome {
        ForwardOutcome::Response { status: _, body } => Some(
            UsageRecord {
                model_id: twin.model_id.clone(),
                input_data: clone_bytes(input_body),
                output_response: clone_bytes(body.as_slice()),
            },
        ),
        ForwardOutcome::Failed => None,
    }
}

} // verus!
