//! Short authentication string derivation: the anti-relay-tampering
//! checkpoint.  Both sides independently derive two four-symbol codes from
//! the two public keys and the two nonces; the humans compare them
//! out-of-band before either side signifies trust.
//!
//! The derivation is fixed here once and for all: the four byte strings are
//! length-prefixed and concatenated, the concatenation is digested with
//! SHA-256, and the digest's first forty bits are rendered as two codes of
//! four symbols each over a thirty-two-symbol alphabet that avoids easily
//! confused characters.

use crate::crypto::PublicKey;
use crate::foreign::{sha256_digest, sha256_of, string_push_char};
use vstd::bytes::{spec_u64_to_le_bytes, u64_to_le_bytes};
use vstd::prelude::*;
use vstd::string::*;

verus! {

broadcast use vstd::string::group_string_axioms;

/// One byte string, length-prefixed so that distinct quadruples can never
/// concatenate to the same input.
pub open spec fn length_prefixed(b: Seq<u8>) -> Seq<u8> {
    spec_u64_to_le_bytes(b.len() as u64) + b
}

/// The material both codes are derived from.
pub open spec fn sas_input(gk: Seq<u8>, ck: Seq<u8>, gn: Seq<u8>, cn: Seq<u8>) -> Seq<u8> {
    length_prefixed(gk) + length_prefixed(ck) + length_prefixed(gn) + length_prefixed(cn)
}

/// The symbol alphabet: thirty-two characters, five bits per symbol.
pub open spec fn sas_symbol(i: u32) -> char {
    "ABCDEFGHJKLMNPQRSTUVWXYZ23456789"@[i as int]
}

/// A twenty-bit code rendered as four symbols, most significant first.
pub open spec fn sas_code_of(code: u32) -> Seq<char> {
    seq![
        sas_symbol((code >> 15) & 31),
        sas_symbol((code >> 10) & 31),
        sas_symbol((code >> 5) & 31),
        sas_symbol(code & 31),
    ]
}

/// The claimer's twenty bits: the digest's first two and a half bytes.
pub open spec fn claimer_sas_bits(d: Seq<u8>) -> u32 {
    (((d[0] as u32) << 12) | ((d[1] as u32) << 4) | ((d[2] as u32) >> 4)) as u32
}

/// The greeter's twenty bits: the next two and a half bytes.
pub open spec fn greeter_sas_bits(d: Seq<u8>) -> u32 {
    ((((d[2] as u32) & 0xF) << 16) | ((d[3] as u32) << 8) | (d[4] as u32)) as u32
}

/// The code the claimer's screen shows.
pub open spec fn claimer_sas_code(gk: Seq<u8>, ck: Seq<u8>, gn: Seq<u8>, cn: Seq<u8>) -> Seq<
    char,
> {
    sas_code_of(claimer_sas_bits(sha256_of(sas_input(gk, ck, gn, cn))))
}

/// The code the greeter's screen shows.
pub open spec fn greeter_sas_code(gk: Seq<u8>, ck: Seq<u8>, gn: Seq<u8>, cn: Seq<u8>) -> Seq<
    char,
> {
    sas_code_of(greeter_sas_bits(sha256_of(sas_input(gk, ck, gn, cn))))
}

/// Renders one twenty-bit code as its four symbols.
fn render_sas_code(code: u32) -> (r: String)
    ensures
        r@ == sas_code_of(code),
{
    proof {
        reveal_strlit("ABCDEFGHJKLMNPQRSTUVWXYZ23456789");
        assert("ABCDEFGHJKLMNPQRSTUVWXYZ23456789"@.len() == 32);
        assert((code >> 15) & 31 < 32 && (code >> 10) & 31 < 32 && (code >> 5) & 31 < 32 && code
            & 31 < 32) by (bit_vector);
    }
    let alphabet = "ABCDEFGHJKLMNPQRSTUVWXYZ23456789";
    let mut s = String::new();
    string_push_char(&mut s, alphabet.get_char((((code >> 15) & 31)) as usize));
    string_push_char(&mut s, alphabet.get_char((((code >> 10) & 31)) as usize));
    string_push_char(&mut s, alphabet.get_char((((code >> 5) & 31)) as usize));
    string_push_char(&mut s, alphabet.get_char((code & 31) as usize));
    proof {
        assert(s@ =~= sas_code_of(code));
    }
    s
}

/// Appends one length-prefixed byte string to the input under construction.
fn push_length_prefixed(input: &mut Vec<u8>, b: &Vec<u8>)
    ensures
        final(input)@ == old(input)@ + length_prefixed(b@),
{
    let mut prefix = u64_to_le_bytes(b.len() as u64);
    input.append(&mut prefix);
    let mut body = crate::invite::clone_bytes(b);
    input.append(&mut body);
    proof {
        assert(final(input)@ =~= old(input)@ + length_prefixed(b@));
    }
}

/// Derives both short authentication strings from the handshake material.
/// The result depends on nothing but the four arguments, so two sides
/// holding the same material always render identical codes.
pub fn compute_sas(greeter_public_key: &PublicKey, claimer_public_key: &PublicKey, greeter_nonce: &Vec<u8>, claimer_nonce: &Vec<u8>) -> (r: (String, String))
    ensures
        r.0@ == claimer_sas_code(
            greeter_public_key@,
            claimer_public_key@,
            greeter_nonce@,
            claimer_nonce@,
        ),
        r.1@ == greeter_sas_code(
            greeter_public_key@,
            claimer_public_key@,
            greeter_nonce@,
            claimer_nonce@,
        ),
{
    let mut input: Vec<u8> = Vec::new();
    push_length_prefixed(&mut input, greeter_public_key.as_bytes());
    push_length_prefixed(&mut input, claimer_public_key.as_bytes());
    push_length_prefixed(&mut input, greeter_nonce);
    push_length_prefixed(&mut input, claimer_nonce);
    proof {
        assert(input@ =~= sas_input(
            greeter_public_key@,
            claimer_public_key@,
            greeter_nonce@,
            claimer_nonce@,
        ));
    }
    let digest = sha256_digest(&input);
    let d0 = digest[0];
    let d1 = digest[1];
    let d2 = digest[2];
    let d3 = digest[3];
    let d4 = digest[4];
    let claimer_bits: u32 = ((d0 as u32) << 12) | ((d1 as u32) << 4) | ((d2 as u32) >> 4);
    let greeter_bits: u32 = (((d2 as u32) & 0xF) << 16) | ((d3 as u32) << 8) | (d4 as u32);
    let claimer_code = render_sas_code(claimer_bits);
    let greeter_code = render_sas_code(greeter_bits);
    (claimer_code, greeter_code)
}

/// Law: SAS derivation is a pure, deterministic function of the two public
/// keys and the two nonces — two sides holding the same material derive
/// the same pair of codes.
pub proof fn lemma_sas_deterministic(
    gk1: Seq<u8>,
    ck1: Seq<u8>,
    gn1: Seq<u8>,
    cn1: Seq<u8>,
    gk2: Seq<u8>,
    ck2: Seq<u8>,
    gn2: Seq<u8>,
    cn2: Seq<u8>,
)
    requires
        gk1 == gk2,
        ck1 == ck2,
        gn1 == gn2,
        cn1 == cn2,
    ensures
        claimer_sas_code(gk1, ck1, gn1, cn1) == claimer_sas_code(gk2, ck2, gn2, cn2),
        greeter_sas_code(gk1, ck1, gn1, cn1) == greeter_sas_code(gk2, ck2, gn2, cn2),
{
}

} // verus!
