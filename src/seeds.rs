use vstd::prelude::*;
use vstd::string::StringSliceAdditionalSpecFns;
use crate::ids::{AuthorityId, decoded_authority};

verus! {

/// An ASCII hexadecimal digit, in either case.
pub open spec fn is_hex_digit(c: u8) -> bool {
    (48 <= c <= 57) || (65 <= c <= 70) || (97 <= c <= 102)
}

/// The value of a hexadecimal digit.
pub open spec fn hex_digit_value(c: u8) -> int {
    if 48 <= c <= 57 {
        c - 48
    } else if 65 <= c <= 70 {
        c - 55
    } else {
        c - 87
    }
}

/// Text that decodes as hexadecimal: an even number of hex digits.
pub open spec fn is_hex_text(s: Seq<u8>) -> bool {
    s.len() % 2 == 0 && forall|i: int| 0 <= i < s.len() ==> is_hex_digit(#[trigger] s[i])
}

/// The bytes that hexadecimal text stands for, two digits each, high digit first.
pub open spec fn hex_bytes(s: Seq<u8>) -> Seq<u8> {
    Seq::new(
        (s.len() / 2) as nat,
        |i: int| (16 * hex_digit_value(s[2 * i]) + hex_digit_value(s[2 * i + 1])) as u8,
    )
}

/// Relies on hex::decode: it accepts exactly an even number of hex digits of
/// either case and yields one byte for each pair, high digit first.
#[verifier::external_body]
fn decode_hex(text: &[u8]) -> (r: Option<Vec<u8>>)
    ensures
        r is Some <==> is_hex_text(text@),
        r is Some ==> r->Some_0@ == hex_bytes(text@),
{
    hex::decode(text).ok()
}

/// A seed's text with a leading `0x` taken off, if it has one.
pub open spec fn without_hex_prefix(s: Seq<u8>) -> Seq<u8> {
    if s.len() >= 2 && s[0] == 48 && s[1] == 120 {
        s.subrange(2, s.len() as int)
    } else {
        s
    }
}

/// The authority key that a seed's text stands for, if it is well formed.
pub open spec fn seed_authority(seed: Seq<u8>) -> Option<Seq<u8>> {
    let text = without_hex_prefix(seed);
    if is_hex_text(text) {
        decoded_authority(hex_bytes(text))
    } else {
        None
    }
}

/// Decodes one invulnerable seed, written as hexadecimal text with or without
/// a `0x` prefix, into an authority key. Malformed text and too short a key
/// give `None`.
pub fn decode_seed(seed: &str) -> (r: Option<AuthorityId>)
    ensures
        r is Some <==> seed_authority(seed.spec_bytes()) is Some,
        r is Some ==> r->Some_0@ == seed_authority(seed.spec_bytes())->Some_0,
        r is Some ==> r->Some_0.wf(),
{
    let s = seed.as_bytes();
    let text: &[u8] = if s.len() >= 2 && s[0] == 48u8 && s[1] == 120u8 {
        vstd::slice::slice_subrange(s, 2, s.len())
    } else {
        s
    };
    assert(text@ == without_hex_prefix(seed.spec_bytes()));
    match decode_hex(text) {
        Some(bytes) => AuthorityId::decode(&bytes),
        None => None,
    }
}

} // verus!
