//! Cache key layout.
//!
//! Every entry in the shared TTL store lives under a key derived from
//! plain identifiers. Three families exist: the model-scope limit and
//! verb of a policy action, the user-scope consumption counter, and the
//! host-port reservation markers.

use vstd::prelude::*;

use crate::text::dec_digits;
use crate::text::push_bytes;
use crate::text::u64_to_dec;
use vstd::string::StringSliceAdditionalSpecFns;

verus! {

/// The key caching a policy action's call limit:
/// `Policy:Models:{policy}:Access:{endpoint}`.
pub open spec fn model_limit_key_spec(policy_id: Seq<u8>, endpoint: Seq<u8>) -> Seq<u8> {
    "Policy:Models:".spec_bytes() + policy_id + ":Access:".spec_bytes() + endpoint
}

/// The key caching a policy action's HTTP verb:
/// `Policy:Models:{policy}:Verb:{endpoint}`.
pub open spec fn verb_key_spec(policy_id: Seq<u8>, endpoint: Seq<u8>) -> Seq<u8> {
    "Policy:Models:".spec_bytes() + policy_id + ":Verb:".spec_bytes() + endpoint
}

/// The key of a user's consumption counter:
/// `Policy:Users:{user}:{twin}:{endpoint}`.
pub open spec fn user_count_key_spec(user_id: Seq<u8>, twin_id: Seq<u8>, endpoint: Seq<u8>)
    -> Seq<u8> {
    "Policy:Users:".spec_bytes() + user_id + ":".spec_bytes() + twin_id + ":".spec_bytes()
        + endpoint
}

/// The reservation marker of a host port: `Ports:host:{port}`.
pub open spec fn port_key_spec(port: u16) -> Seq<u8> {
    "Ports:host:".spec_bytes() + dec_digits(port as nat)
}

/// The limit-key family and the counter-key family never collide,
/// whatever identifiers they are built from: their prefixes differ at
/// the eighth byte.
pub proof fn lemma_key_families_disjoint(
    policy_id: Seq<u8>,
    endpoint: Seq<u8>,
    user_id: Seq<u8>,
    twin_id: Seq<u8>,
    endpoint2: Seq<u8>,
)
    ensures
        model_limit_key_spec(policy_id, endpoint) != user_count_key_spec(
            user_id,
            twin_id,
            endpoint2,
        ),
{
    reveal_strlit("Policy:Models:");
    reveal_strlit("Policy:Users:");
    let la = "Policy:Models:"@;
    let lb = "Policy:Users:"@;
    assert(la.len() == 14 && la[7] == 'M');
    assert(lb.len() == 13 && lb[7] == 'U');
    assert(vstd::utf8::is_ascii_chars(la)) by {
        assert forall|i| 0 <= i < la.len() implies '\0' <= #[trigger] la[i] <= '\u{7f}' by {
            if i == 0 {
            } else if i == 1 {
            } else if i == 2 {
            } else if i == 3 {
            } else if i == 4 {
            } else if i == 5 {
            } else if i == 6 {
            } else if i == 7 {
            } else if i == 8 {
            } else if i == 9 {
            } else if i == 10 {
            } else if i == 11 {
            } else if i == 12 {
            } else {
                assert(i == 13);
            }
        }
    }
    assert(vstd::utf8::is_ascii_chars(lb)) by {
        assert forall|i| 0 <= i < lb.len() implies '\0' <= #[trigger] lb[i] <= '\u{7f}' by {
            if i == 0 {
            } else if i == 1 {
            } else if i == 2 {
            } else if i == 3 {
            } else if i == 4 {
            } else if i == 5 {
            } else if i == 6 {
            } else if i == 7 {
            } else if i == 8 {
            } else if i == 9 {
            } else if i == 10 {
            } else if i == 11 {
            } else {
                assert(i == 12);
            }
        }
    }
    vstd::utf8::is_ascii_chars_encode_utf8(la);
    vstd::utf8::is_ascii_chars_encode_utf8(lb);
    let a = "Policy:Models:".spec_bytes();
    let b = "Policy:Users:".spec_bytes();
    assert(a[7] == la[7] as u8);
    assert(b[7] == lb[7] as u8);
    let k1 = model_limit_key_spec(policy_id, endpoint);
    let k2 = user_count_key_spec(user_id, twin_id, endpoint2);
    assert(k1[7] == a[7]);
    assert(k2[7] == b[7]);
    assert(k1[7] != k2[7]);
}

pub fn model_limit_key(policy_id: &str, endpoint: &[u8]) -> (k: Vec<u8>)
    ensures
        k@ == model_limit_key_spec(policy_id.spec_bytes(), endpoint@),
{
    let mut k: Vec<u8> = Vec::new();
    push_bytes(&mut k, "Policy:Models:".as_bytes());
    push_bytes(&mut k, policy_id.as_bytes());
    push_bytes(&mut k, ":Access:".as_bytes());
    push_bytes(&mut k, endpoint);
    k
}

pub fn verb_key(policy_id: &str, endpoint: &[u8]) -> (k: Vec<u8>)
    ensures
        k@ == verb_key_spec(policy_id.spec_bytes(), endpoint@),
{
    let mut k: Vec<u8> = Vec::new();
    push_bytes(&mut k, "Policy:Models:".as_bytes());
    push_bytes(&mut k, policy_id.as_bytes());
    push_bytes(&mut k, ":Verb:".as_bytes());
    push_bytes(&mut k, endpoint);
    k
}

pub fn user_count_key(user_id: &str, twin_id: &str, endpoint: &[u8]) -> (k: Vec<u8>)
    ensures
        k@ == user_count_key_spec(user_id.spec_bytes(), twin_id.spec_bytes(), endpoint@),
{
    let mut k: Vec<u8> = Vec::new();
    push_bytes(&mut k, "Policy:Users:".as_bytes());
    push_bytes(&mut k, user_id.as_bytes());
    push_bytes(&mut k, ":".as_bytes());
    push_bytes(&mut k, twin_id.as_bytes());
    push_bytes(&mut k, ":".as_bytes());
    push_bytes(&mut k, endpoint);
    k
}

pub fn port_key(port: u16) -> (k: Vec<u8>)
    ensures
        k@ == port_key_spec(port),
{
    let mut k: Vec<u8> = Vec::new();
    push_bytes(&mut k, "Ports:host:".as_bytes());
    let digits = u64_to_dec(port as u64);
    push_bytes(&mut k, digits.as_slice());
    k
}

} // verus!
