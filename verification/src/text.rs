//! Byte-level text utilities for derived identifiers.
//!
//! Network names, container names and cache keys are derived from
//! user-supplied strings. All derivation happens on bytes: ASCII letters
//! are lower-cased, spaces become underscores, and every other byte
//! outside `[a-z0-9_]` is dropped, so a derived name is always plain
//! ASCII. One trusted bridge turns such bytes back into a `String`.

use vstd::prelude::*;

verus! {


/// ASCII codes used by the sanitizer.
pub const UPPER_A: u8 = 65;

pub const UPPER_Z: u8 = 90;

pub const LOWER_A: u8 = 97;

pub const LOWER_Z: u8 = 122;

pub const DIGIT_0: u8 = 48;

pub const DIGIT_9: u8 = 57;

pub const UNDERSCORE: u8 = 95;

pub const SPACE: u8 = 32;

/// The chars of an all-ASCII byte sequence, one char per byte.
pub open spec fn ascii_view(bytes: Seq<u8>) -> Seq<char> {
    bytes.map_values(|b: u8| b as char)
}

pub open spec fn all_ascii(bytes: Seq<u8>) -> bool {
    forall|i: int| 0 <= i < bytes.len() ==> bytes[i] < 128
}

/// What the sanitizer keeps of one input byte: upper-case ASCII letters
/// are lower-cased, a space becomes an underscore, lower-case letters,
/// digits and underscores pass through, and everything else is dropped.
pub open spec fn sanitize_byte(b: u8) -> Seq<u8> {
    if UPPER_A <= b && b <= UPPER_Z {
        seq![(b + 32) as u8]
    } else if (LOWER_A <= b && b <= LOWER_Z) || (DIGIT_0 <= b && b <= DIGIT_9) || b == UNDERSCORE {
        seq![b]
    } else if b == SPACE {
        seq![UNDERSCORE]
    } else {
        Seq::empty()
    }
}

pub open spec fn sanitize_bytes(s: Seq<u8>) -> Seq<u8>
    decreases s.len(),
{
    if s.len() == 0 {
        Seq::empty()
    } else {
        sanitize_byte(s[0]) + sanitize_bytes(s.drop_first())
    }
}

/// Every byte a sanitizer output holds is in `[a-z0-9_]`.
pub open spec fn is_name_byte(b: u8) -> bool {
    (LOWER_A <= b && b <= LOWER_Z) || (DIGIT_0 <= b && b <= DIGIT_9) || b == UNDERSCORE
}

pub proof fn lemma_sanitize_bytes_are_name_bytes(s: Seq<u8>)
    ensures
        forall|i: int| 0 <= i < sanitize_bytes(s).len() ==> is_name_byte(sanitize_bytes(s)[i]),
    decreases s.len(),
{
    if s.len() > 0 {
        lemma_sanitize_bytes_are_name_bytes(s.drop_first());
        let head = sanitize_byte(s[0]);
        let tail = sanitize_bytes(s.drop_first());
        assert forall|i: int| 0 <= i < sanitize_bytes(s).len() implies is_name_byte(
            sanitize_bytes(s)[i],
        ) by {
            if i < head.len() {
                assert(sanitize_bytes(s)[i] == head[i]);
            } else {
                assert(sanitize_bytes(s)[i] == tail[i - head.len()]);
            }
        }
    }
}

/// Lower-case and sanitize a raw name into `[a-z0-9_]` bytes.
pub fn sanitize(input: &[u8]) -> (out: Vec<u8>)
    ensures
        out@ == sanitize_bytes(input@),
{
    let mut out: Vec<u8> = Vec::new();
    let mut i: usize = 0;
    while i < input.len()
        invariant
            i <= input@.len(),
            out@ == sanitize_bytes(input@.take(i as int)),
        decreases input@.len() - i,
    {
        let b = input[i];
        if UPPER_A <= b && b <= UPPER_Z {
            out.push(b + 32);
        } else if (LOWER_A <= b && b <= LOWER_Z) || (DIGIT_0 <= b && b <= DIGIT_9) || b == UNDERSCORE {
            out.push(b);
        } else if b == SPACE {
            out.push(UNDERSCORE);
        }
        proof {
            lemma_sanitize_bytes_step(input@, i as int);
        }
        i = i + 1;
    }
    proof {
        assert(input@.take(input@.len() as int) =~= input@);
    }
    out
}

proof fn lemma_sanitize_bytes_step(s: Seq<u8>, i: int)
    requires
        0 <= i < s.len(),
    ensures
        sanitize_bytes(s.take(i + 1)) == sanitize_bytes(s.take(i)) + sanitize_byte(s[i]),
    decreases i,
{
    let pre = s.take(i + 1);
    if i == 0 {
        assert(pre.len() == 1 && pre[0] == s[0]);
        assert(pre.drop_first() =~= Seq::<u8>::empty());
        assert(s.take(0) =~= Seq::<u8>::empty());
        assert(sanitize_bytes(pre) == sanitize_byte(pre[0]) + sanitize_bytes(pre.drop_first()));
        assert(sanitize_byte(s[0]) + Seq::<u8>::empty() =~= sanitize_byte(s[0]));
        assert(sanitize_bytes(s.take(0)) + sanitize_byte(s[0]) =~= sanitize_byte(s[0]));
    } else {
        assert(pre.drop_first() =~= s.subrange(1, s.len() as int).take(i));
        assert(s.take(i).drop_first() =~= s.subrange(1, s.len() as int).take(i - 1));
        lemma_sanitize_bytes_step(s.subrange(1, s.len() as int), i - 1);
        assert(sanitize_bytes(pre) =~= sanitize_bytes(s.take(i)) + sanitize_byte(s[i]));
    }
}

/// The decimal digits of `n`, most significant first.
pub open spec fn dec_digits(n: nat) -> Seq<u8>
    decreases n,
{
    if n < 10 {
        seq![(DIGIT_0 + n) as u8]
    } else {
        dec_digits(n / 10) + seq![(DIGIT_0 + n % 10) as u8]
    }
}

/// Render `n` in decimal ASCII.
pub fn u64_to_dec(n: u64) -> (out: Vec<u8>)
    ensures
        out@ == dec_digits(n as nat),
    decreases n,
{
    if n < 10 {
        let mut out: Vec<u8> = Vec::new();
        out.push(DIGIT_0 + (n as u8));
        proof {
            assert(out@ =~= dec_digits(n as nat));
        }
        out
    } else {
        let mut out = u64_to_dec(n / 10);
        out.push(DIGIT_0 + ((n % 10) as u8));
        proof {
            assert(out@ =~= dec_digits(n as nat));
        }
        out
    }
}

/// Every digit the decimal renderer emits is an ASCII digit.
pub proof fn lemma_dec_digits_are_digits(n: nat)
    ensures
        forall|i: int|
            0 <= i < dec_digits(n).len() ==> DIGIT_0 <= #[trigger] dec_digits(n)[i] <= DIGIT_9,
    decreases n,
{
    if n >= 10 {
        lemma_dec_digits_are_digits(n / 10);
        let head = dec_digits(n / 10);
        assert forall|i: int| 0 <= i < dec_digits(n).len() implies DIGIT_0
            <= #[trigger] dec_digits(n)[i] <= DIGIT_9 by {
            if i < head.len() {
                assert(dec_digits(n)[i] == head[i]);
            }
        }
    }
}

/// ASCII survives concatenation.
pub proof fn lemma_all_ascii_concat(a: Seq<u8>, b: Seq<u8>)
    requires
        all_ascii(a),
        all_ascii(b),
    ensures
        all_ascii(a + b),
{
    assert forall|i: int| 0 <= i < (a + b).len() implies (a + b)[i] < 128 by {
        if i < a.len() {
            assert((a + b)[i] == a[i]);
        } else {
            assert((a + b)[i] == b[i - a.len()]);
        }
    }
}

/// One byte lower-cased: ASCII upper-case letters move to lower case,
/// everything else is untouched.
pub open spec fn lower_byte(b: u8) -> u8 {
    if UPPER_A <= b && b <= UPPER_Z {
        (b + 32) as u8
    } else {
        b
    }
}

/// One byte upper-cased: ASCII lower-case letters move to upper case,
/// everything else is untouched.
pub open spec fn upper_byte(b: u8) -> u8 {
    if LOWER_A <= b && b <= LOWER_Z {
        (b - 32) as u8
    } else {
        b
    }
}

/// Lower-case the ASCII letters of a byte string.
pub fn ascii_lower(input: &[u8]) -> (out: Vec<u8>)
    ensures
        out@ == input@.map_values(|b: u8| lower_byte(b)),
{
    let mut out: Vec<u8> = Vec::new();
    let mut i: usize = 0;
    while i < input.len()
        invariant
            i <= input@.len(),
            out@ == input@.take(i as int).map_values(|b: u8| lower_byte(b)),
        decreases input@.len() - i,
    {
        let b = input[i];
        if UPPER_A <= b && b <= UPPER_Z {
            out.push(b + 32);
        } else {
            out.push(b);
        }
        proof {
            assert(input@.take(i + 1).map_values(|b: u8| lower_byte(b)) =~= input@.take(
                i as int,
            ).map_values(|b: u8| lower_byte(b)).push(lower_byte(input@[i as int])));
        }
        i = i + 1;
    }
    proof {
        assert(input@.take(input@.len() as int) =~= input@);
    }
    out
}

/// Upper-case the ASCII letters of a byte string.
pub fn ascii_upper(input: &[u8]) -> (out: Vec<u8>)
    ensures
        out@ == input@.map_values(|b: u8| upper_byte(b)),
{
    let mut out: Vec<u8> = Vec::new();
    let mut i: usize = 0;
    while i < input.len()
        invariant
            i <= input@.len(),
            out@ == input@.take(i as int).map_values(|b: u8| upper_byte(b)),
        decreases input@.len() - i,
    {
        let b = input[i];
        if LOWER_A <= b && b <= LOWER_Z {
            out.push(b - 32);
        } else {
            out.push(b);
        }
        proof {
            assert(input@.take(i + 1).map_values(|b: u8| upper_byte(b)) =~= input@.take(
                i as int,
            ).map_values(|b: u8| upper_byte(b)).push(upper_byte(input@[i as int])));
        }
        i = i + 1;
    }
    proof {
        assert(input@.take(input@.len() as int) =~= input@);
    }
    out
}

/// Append all of `src` to `dst`.
pub fn push_bytes(dst: &mut Vec<u8>, src: &[u8])
    ensures
        final(dst)@ == old(dst)@ + src@,
{
    let mut i: usize = 0;
    while i < src.len()
        invariant
            i <= src@.len(),
            dst@ == old(dst)@ + src@.take(i as int),
        decreases src@.len() - i,
    {
        dst.push(src[i]);
        proof {
            assert(old(dst)@ + src@.take(i + 1) =~= (old(dst)@ + src@.take(i as int)).push(
                src@[i as int],
            ));
        }
        i = i + 1;
    }
    proof {
        assert(src@.take(src@.len() as int) =~= src@);
    }
}

/// Copy a byte slice into a fresh vector.
pub fn clone_bytes(v: &[u8]) -> (r: Vec<u8>)
    ensures
        r@ == v@,
{
    let mut out: Vec<u8> = Vec::new();
    push_bytes(&mut out, v);
    proof {
        assert(out@ =~= v@);
    }
    out
}

/// Byte-for-byte equality of two slices.
pub fn bytes_eq(a: &[u8], b: &[u8]) -> (r: bool)
    ensures
        r <==> a@ == b@,
{
    if a.len() != b.len() {
        proof {
            assert(a@.len() != b@.len());
        }
        return false;
    }
    let mut i: usize = 0;
    while i < a.len()
        invariant
            i <= a@.len(),
            a@.len() == b@.len(),
            forall|j: int| 0 <= j < i ==> a@[j] == b@[j],
        decreases a@.len() - i,
    {
        if a[i] != b[i] {
            return false;
        }
        i = i + 1;
    }
    proof {
        assert(a@ =~= b@);
    }
    true
}

/// Relies on `String::from_utf8`: ASCII bytes are valid UTF-8 and decode
/// to one char per byte, each with the byte's code.
#[verifier::external_body]
pub(crate) fn string_from_ascii(bytes: Vec<u8>) -> (r: String)
    requires
        all_ascii(bytes@),
    ensures
        r@ == ascii_view(bytes@),
{
    String::from_utf8(bytes).unwrap_or_default()
}

} // verus!
