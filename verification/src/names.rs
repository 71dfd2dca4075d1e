//! Deterministic network and container names.
//!
//! Provisioning derives the name of a twin's isolated network from the
//! model's name, the owner's identity and a random disambiguator, and
//! each container's name from its component's name the same way. Both
//! are sanitized into `[a-z0-9_]` (see [`crate::text`]), so a name is
//! unique up to the disambiguator; a residual collision surfaces as the
//! runtime's creation error, never silently.

use vstd::prelude::*;

use crate::text::UNDERSCORE;
use crate::text::all_ascii;
use crate::text::ascii_view;
use crate::text::dec_digits;
use crate::text::lemma_all_ascii_concat;
use crate::text::lemma_dec_digits_are_digits;
use crate::text::lemma_sanitize_bytes_are_name_bytes;
use crate::text::push_bytes;
use crate::text::sanitize;
use crate::text::sanitize_bytes;
use crate::text::string_from_ascii;
use crate::text::u64_to_dec;
use vstd::string::StringSliceAdditionalSpecFns;

verus! {

pub const C_A: u8 = 97;

pub const C_C: u8 = 99;

pub const C_E: u8 = 101;

pub const C_I: u8 = 105;

pub const C_K: u8 = 107;

pub const C_N: u8 = 110;

pub const C_O: u8 = 111;

pub const C_R: u8 = 114;

pub const C_T: u8 = 116;

pub const C_W: u8 = 119;

/// The bytes of `_network_`.
pub open spec fn network_tag() -> Seq<u8> {
    seq![UNDERSCORE, C_N, C_E, C_T, C_W, C_O, C_R, C_K, UNDERSCORE]
}

/// The bytes of `_container_`.
pub open spec fn container_tag() -> Seq<u8> {
    seq![UNDERSCORE, C_C, C_O, C_N, C_T, C_A, C_I, C_N, C_E, C_R, UNDERSCORE]
}

fn push_network_tag(dst: &mut Vec<u8>)
    ensures
        final(dst)@ == old(dst)@ + network_tag(),
{
    dst.push(UNDERSCORE);
    dst.push(C_N);
    dst.push(C_E);
    dst.push(C_T);
    dst.push(C_W);
    dst.push(C_O);
    dst.push(C_R);
    dst.push(C_K);
    dst.push(UNDERSCORE);
    proof {
        assert(dst@ =~= old(dst)@ + network_tag());
    }
}

fn push_container_tag(dst: &mut Vec<u8>)
    ensures
        final(dst)@ == old(dst)@ + container_tag(),
{
    dst.push(UNDERSCORE);
    dst.push(C_C);
    dst.push(C_O);
    dst.push(C_N);
    dst.push(C_T);
    dst.push(C_A);
    dst.push(C_I);
    dst.push(C_N);
    dst.push(C_E);
    dst.push(C_R);
    dst.push(UNDERSCORE);
    proof {
        assert(dst@ =~= old(dst)@ + container_tag());
    }
}

/// The network name derived from a model's name, its owner's identity
/// and a disambiguator: both texts sanitized, joined by `_network_`,
/// with the disambiguator appended.
pub open spec fn network_name_bytes(model_name: Seq<u8>, owner: Seq<u8>, n: u16) -> Seq<u8> {
    sanitize_bytes(model_name) + network_tag() + sanitize_bytes(owner) + seq![UNDERSCORE]
        + dec_digits(n as nat)
}

/// The container name derived from a component's name, the owner's
/// identity and the twin's disambiguator, joined by `_container_`.
pub open spec fn container_name_bytes(comp_name: Seq<u8>, owner: Seq<u8>, n: u16) -> Seq<u8> {
    sanitize_bytes(comp_name) + container_tag() + sanitize_bytes(owner) + seq![UNDERSCORE]
        + dec_digits(n as nat)
}

proof fn lemma_name_bytes_ascii(a: Seq<u8>, tag: Seq<u8>, b: Seq<u8>, n: u16)
    requires
        all_ascii(tag),
    ensures
        all_ascii(sanitize_bytes(a) + tag + sanitize_bytes(b) + seq![UNDERSCORE] + dec_digits(
            n as nat,
        )),
{
    lemma_sanitize_bytes_are_name_bytes(a);
    lemma_sanitize_bytes_are_name_bytes(b);
    lemma_dec_digits_are_digits(n as nat);
    assert(all_ascii(sanitize_bytes(a)));
    assert(all_ascii(sanitize_bytes(b)));
    assert(all_ascii(seq![UNDERSCORE]));
    assert(all_ascii(dec_digits(n as nat)));
    lemma_all_ascii_concat(sanitize_bytes(a), tag);
    lemma_all_ascii_concat(sanitize_bytes(a) + tag, sanitize_bytes(b));
    lemma_all_ascii_concat(sanitize_bytes(a) + tag + sanitize_bytes(b), seq![UNDERSCORE]);
    lemma_all_ascii_concat(
        sanitize_bytes(a) + tag + sanitize_bytes(b) + seq![UNDERSCORE],
        dec_digits(n as nat),
    );
}

/// Derive a twin's network name.
pub fn derive_network_name(model_name: &str, owner: &str, n: u16) -> (s: String)
    ensures
        s@ == ascii_view(network_name_bytes(model_name.spec_bytes(), owner.spec_bytes(), n)),
{
    let mut bytes = sanitize(model_name.as_bytes());
    push_network_tag(&mut bytes);
    let owner_part = sanitize(owner.as_bytes());
    push_bytes(&mut bytes, owner_part.as_slice());
    bytes.push(UNDERSCORE);
    let digits = u64_to_dec(n as u64);
    push_bytes(&mut bytes, digits.as_slice());
    proof {
        assert(bytes@ =~= network_name_bytes(model_name.spec_bytes(), owner.spec_bytes(), n));
        lemma_name_bytes_ascii(model_name.spec_bytes(), network_tag(), owner.spec_bytes(), n);
    }
    string_from_ascii(bytes)
}

/// Derive a component's container name.
pub fn derive_container_name(comp_name: &str, owner: &str, n: u16) -> (s: String)
    ensures
        s@ == ascii_view(container_name_bytes(comp_name.spec_bytes(), owner.spec_bytes(), n)),
{
    let mut bytes = sanitize(comp_name.as_bytes());
    push_container_tag(&mut bytes);
    let owner_part = sanitize(owner.as_bytes());
    push_bytes(&mut bytes, owner_part.as_slice());
    bytes.push(UNDERSCORE);
    let digits = u64_to_dec(n as u64);
    push_bytes(&mut bytes, digits.as_slice());
    proof {
        assert(bytes@ =~= container_name_bytes(comp_name.spec_bytes(), owner.spec_bytes(), n));
        lemma_name_bytes_ascii(comp_name.spec_bytes(), container_tag(), owner.spec_bytes(), n);
    }
    string_from_ascii(bytes)
}

} // verus!
