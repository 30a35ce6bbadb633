//! Authentication of GitHub webhook deliveries: `X-Hub-Signature-256` holds
//! `sha256=` and the hex HMAC-SHA256 of the raw body under the shared secret.
use vstd::prelude::*;
use hmac::{Hmac, Mac};
use sha2::Sha256;
use crate::text::{chars_of, string_of};

verus! {

pub open spec fn is_hex_digit(c: char) -> bool {
    let u = c as u32;
    (0x30 <= u && u <= 0x39) || (0x41 <= u && u <= 0x46) || (0x61 <= u && u <= 0x66)
}

pub open spec fn hex_value(c: char) -> int {
    let u = c as u32;
    if 0x30 <= u && u <= 0x39 {
        u - 0x30
    } else if 0x41 <= u && u <= 0x46 {
        u - 0x41 + 10
    } else {
        u - 0x61 + 10
    }
}

/// `s` is an even number of hex digits, in either case.
pub open spec fn hex_decodes(s: Seq<char>) -> bool {
    &&& s.len() % 2 == 0
    &&& forall|i: int| 0 <= i < s.len() ==> is_hex_digit(#[trigger] s[i])
}

/// The bytes that the hex digits of `s` spell, two digits a byte, high
/// nibble first.
pub open spec fn hex_bytes(s: Seq<char>) -> Seq<u8> {
    Seq::new((s.len() / 2) as nat, |k: int| (hex_value(s[2 * k]) * 16 + hex_value(s[2 * k + 1])) as u8)
}

/// The HMAC-SHA256 of `msg` under `key`.
pub uninterp spec fn hmac_sha256_of(key: Seq<u8>, msg: Seq<u8>) -> Seq<u8>;

/// Relies on `hex::decode`: an odd length or a character that is not a hex
/// digit is an error; otherwise each pair of digits gives one byte.
#[verifier::external_body]
fn hex_decode(s: &str) -> (r: Option<Vec<u8>>)
    ensures
        r is Some <==> hex_decodes(s@),
        r matches Some(b) ==> b@ == hex_bytes(s@),
{
    hex::decode(s).ok()
}

/// Relies on `hmac::Hmac<Sha256>`: `new_from_slice` takes a key of any
/// length, and `verify_slice` accepts exactly the tag equal to the MAC of
/// the message, compared in constant time.
#[verifier::external_body]
fn hmac_sha256_matches(key: &[u8], msg: &[u8], tag: &[u8]) -> (r: bool)
    ensures
        r == (tag@ == hmac_sha256_of(key@, msg@)),
{
    match <Hmac<Sha256> as Mac>::new_from_slice(key) {
        Ok(mut mac) => {
            mac.update(msg);
            mac.verify_slice(tag).is_ok()
        },
        Err(_) => false,
    }
}

pub open spec fn signature_prefix() -> Seq<char> {
    seq!['s', 'h', 'a', '2', '5', '6', '=']
}

/// The signature header authenticates `body` under `secret`.
pub open spec fn signature_valid(body: Seq<u8>, secret: Seq<u8>, header: Seq<char>) -> bool {
    let hex = header.skip(7);
    &&& header.len() >= 7
    &&& header.take(7) == signature_prefix()
    &&& hex_decodes(hex)
    &&& hex_bytes(hex) == hmac_sha256_of(secret, body)
}

/// Checks a `sha256=<hex>` signature header against the HMAC-SHA256 of the
/// raw body under the shared secret.
pub fn verify_signature(body: &[u8], secret: &[u8], signature: &str) -> (r: bool)
    ensures
        r == signature_valid(body@, secret@, signature@),
{
    let v = chars_of(signature);
    let prefix = vec!['s', 'h', 'a', '2', '5', '6', '='];
    if v.len() < 7 {
        return false;
    }
    let mut i: usize = 0;
    while i < 7
        invariant
            v@ == signature@,
            7 <= v@.len(),
            i <= 7,
            prefix@ == signature_prefix(),
            forall|j: int| 0 <= j < i ==> v@[j] == prefix@[j],
        decreases 7 - i,
    {
        if v[i] != prefix[i] {
            assert(v@.take(7)[i as int] != signature_prefix()[i as int]);
            return false;
        }
        i = i + 1;
    }
    assert(v@.take(7) =~= signature_prefix());
    let mut rest: Vec<char> = Vec::new();
    let mut k: usize = 7;
    while k < v.len()
        invariant
            v@ == signature@,
            7 <= k <= v@.len(),
            rest@ == v@.subrange(7, k as int),
        decreases v@.len() - k,
    {
        rest.push(v[k]);
        k = k + 1;
        assert(rest@ =~= v@.subrange(7, k as int));
    }
    assert(rest@ =~= signature@.skip(7));
    let hex = string_of(&rest);
    match hex_decode(hex.as_str()) {
        Some(tag) => hmac_sha256_matches(secret, body, tag.as_slice()),
        None => false,
    }
}

} // verus!
