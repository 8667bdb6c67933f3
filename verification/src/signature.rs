//! Webhook signature verification: a signature header carries a hex
//! HMAC-SHA-256 tag of the request body, optionally prefixed `sha256=`,
//! and is checked against the shared secret.

use vstd::prelude::*;
use vstd::string::StrSliceExecFns;

use hmac::Mac;

verus! {

/// Whether a character is a hexadecimal digit.
pub open spec fn spec_is_hex_digit(c: char) -> bool {
    ||| '0' as int <= c as int <= '9' as int
    ||| 'a' as int <= c as int <= 'f' as int
    ||| 'A' as int <= c as int <= 'F' as int
}

/// Value of a hexadecimal digit.
pub open spec fn spec_hex_val(c: char) -> int {
    if '0' as int <= c as int <= '9' as int {
        c as int - '0' as int
    } else if 'a' as int <= c as int <= 'f' as int {
        c as int - 'a' as int + 10
    } else {
        c as int - 'A' as int + 10
    }
}

/// Whether a string is a well-formed hex encoding: even length, hex
/// digits throughout.
pub open spec fn spec_is_hex(s: Seq<char>) -> bool {
    s.len() % 2 == 0 && forall|i: int| 0 <= i < s.len() ==> spec_is_hex_digit(#[trigger] s[i])
}

/// The bytes a well-formed hex string encodes, high digit first.
pub open spec fn spec_hex_bytes(s: Seq<char>) -> Seq<u8> {
    Seq::new(s.len() / 2, |i: int| (spec_hex_val(s[2 * i]) * 16 + spec_hex_val(s[2 * i + 1])) as u8)
}

/// Relies on hex::decode: it succeeds exactly on even-length strings of
/// hex digits, decoding two digits to each byte, high digit first.
#[verifier::external_body]
fn hex_decode(s: &str) -> (r: Option<Vec<u8>>)
    ensures
        r.is_some() == spec_is_hex(s@),
        r.is_some() ==> r.unwrap()@ == spec_hex_bytes(s@),
{
    match hex::decode(s) {
        Ok(v) => Some(v),
        Err(_) => None,
    }
}

/// The HMAC-SHA-256 tag of a message under a key, a function of the two
/// strings alone.
pub uninterp spec fn hmac_sha256_of(key: Seq<char>, msg: Seq<char>) -> Seq<u8>;

/// Relies on hmac::Hmac over sha2::Sha256: `new_from_slice` accepts keys
/// of any length, and `verify_slice` succeeds exactly when the tag equals
/// the 32-byte HMAC-SHA-256 of the absorbed message (compared in constant
/// time; a tag of any other length never matches).
#[verifier::external_body]
fn hmac_sha256_verify(secret: &str, payload: &str, tag: &[u8]) -> (r: bool)
    ensures
        r == (tag@ == hmac_sha256_of(secret@, payload@)),
{
    match hmac::Hmac::<sha2::Sha256>::new_from_slice(secret.as_bytes()) {
        Ok(mut mac) => {
            mac.update(payload.as_bytes());
            mac.verify_slice(tag).is_ok()
        },
        Err(_) => false,
    }
}

/// A signature header with its `sha256=` prefix removed; a header without
/// the prefix is taken as it stands.
pub open spec fn spec_strip_sig_prefix(sig: Seq<char>) -> Seq<char> {
    if sig.len() >= 7 && sig.subrange(0, 7) == "sha256="@ {
        sig.skip(7)
    } else {
        sig
    }
}

fn strip_sig_prefix(sig: &str) -> (r: &str)
    ensures
        r@ == spec_strip_sig_prefix(sig@),
{
    let n = sig.unicode_len();
    if n >= 7 {
        proof {
            reveal_strlit("sha256=");
        }
        if sig.get_char(0) == 's' && sig.get_char(1) == 'h' && sig.get_char(2) == 'a'
            && sig.get_char(3) == '2' && sig.get_char(4) == '5' && sig.get_char(5) == '6'
            && sig.get_char(6) == '=' {
            proof {
                assert(sig@.subrange(0, 7) =~= "sha256="@);
            }
            return sig.substring_char(7, n);
        }
        proof {
            if sig@.subrange(0, 7) == "sha256="@ {
                assert(sig@[0] == sig@.subrange(0, 7)[0]);
                assert(sig@[1] == sig@.subrange(0, 7)[1]);
                assert(sig@[2] == sig@.subrange(0, 7)[2]);
                assert(sig@[3] == sig@.subrange(0, 7)[3]);
                assert(sig@[4] == sig@.subrange(0, 7)[4]);
                assert(sig@[5] == sig@.subrange(0, 7)[5]);
                assert(sig@[6] == sig@.subrange(0, 7)[6]);
            }
        }
    }
    sig
}

/// Whether `signature` carries a well-formed hex tag (optionally prefixed
/// `sha256=`) equal to the HMAC-SHA-256 of `payload` under `secret`.
pub open spec fn spec_verify_signature(
    secret: Seq<char>,
    payload: Seq<char>,
    signature: Seq<char>,
) -> bool {
    let sig = spec_strip_sig_prefix(signature);
    spec_is_hex(sig) && spec_hex_bytes(sig) == hmac_sha256_of(secret, payload)
}

/// Verify a webhook signature header against the shared secret.
pub fn verify_signature(secret: &str, payload: &str, signature: &str) -> (r: bool)
    ensures
        r == spec_verify_signature(secret@, payload@, signature@),
{
    let sig = strip_sig_prefix(signature);
    match hex_decode(sig) {
        Some(bytes) => hmac_sha256_verify(secret, payload, bytes.as_slice()),
        None => false,
    }
}

} // verus!
