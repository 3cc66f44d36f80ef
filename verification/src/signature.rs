//! Authenticating a delivery against the resource's shared secret.
//!
//! The provider signs the raw body with HMAC-SHA-256 and sends the tag in a
//! header as `sha256=` followed by the hex digits. Prefix check and hex
//! decoding are verified; the keyed digest and its constant-time comparison
//! are the hmac crate's.

use vstd::prelude::*;

use crate::errors::WebhookError;

verus! {

/// The HMAC-SHA-256 tag of the message under the key, both taken as the
/// UTF-8 bytes of the text.
pub uninterp spec fn hmac_sha256_of(key: Seq<char>, msg: Seq<char>) -> Seq<u8>;

/// Relies on the hmac crate's `Hmac<sha2::Sha256>`: `new_from_slice` accepts
/// keys of any length, and `verify_slice` succeeds exactly when the tag
/// equals the keyed digest of the processed input, compared in constant
/// time.
#[verifier::external_body]
fn hmac_sha256_matches(secret: &str, body: &str, tag: &Vec<u8>) -> (r: bool)
    ensures
        r == (tag@ == hmac_sha256_of(secret@, body@)),
{
    let mac = match <hmac::Hmac<sha2::Sha256> as hmac::KeyInit>::new_from_slice(
        secret.as_bytes(),
    ) {
        Ok(m) => m,
        Err(_) => return false,
    };
    let mac = hmac::Mac::chain_update(mac, body.as_bytes());
    hmac::Mac::verify_slice(mac, tag.as_slice()).is_ok()
}

/// Whether `c` is a hexadecimal digit, either case.
pub open spec fn spec_is_hex_digit(c: char) -> bool {
    let x = c as u32;
    (48 <= x <= 57) || (97 <= x <= 102) || (65 <= x <= 70)
}

/// The value of the hexadecimal digit `c`.
pub open spec fn spec_hex_digit_val(c: char) -> int
    recommends
        spec_is_hex_digit(c),
{
    let x = c as u32;
    if 48 <= x <= 57 {
        x - 48
    } else if 97 <= x <= 102 {
        x - 87
    } else {
        x - 55
    }
}

/// Whether `s` is a well-formed hex string: an even number of hex digits.
pub open spec fn spec_is_hex(s: Seq<char>) -> bool {
    s.len() % 2 == 0 && forall|i: int| 0 <= i < s.len() ==> spec_is_hex_digit(#[trigger] s[i])
}

/// The bytes a well-formed hex string denotes, two digits per byte.
pub open spec fn spec_hex_decode(s: Seq<char>) -> Seq<u8>
    recommends
        spec_is_hex(s),
    decreases s.len(),
{
    if s.len() < 2 {
        Seq::empty()
    } else {
        seq![(spec_hex_digit_val(s[0]) * 16 + spec_hex_digit_val(s[1])) as u8] + spec_hex_decode(
            s.skip(2),
        )
    }
}

/// The value of one hex digit, or `None` for any other character.
fn hex_digit_val(c: char) -> (r: Option<u8>)
    ensures
        r is Some <==> spec_is_hex_digit(c),
        r matches Some(v) ==> v == spec_hex_digit_val(c),
{
    let x = c as u32;
    if 48 <= x && x <= 57 {
        Some((x - 48) as u8)
    } else if 97 <= x && x <= 102 {
        Some((x - 87) as u8)
    } else if 65 <= x && x <= 70 {
        Some((x - 55) as u8)
    } else {
        None
    }
}

/// Decodes a hex string to its bytes; `None` unless the whole string is an
/// even number of hex digits.
fn hex_decode(s: &str) -> (r: Option<Vec<u8>>)
    ensures
        r is Some <==> spec_is_hex(s@),
        r matches Some(v) ==> v@ == spec_hex_decode(s@),
{
    let n = s.unicode_len();
    if n % 2 != 0 {
        return None;
    }
    let mut out: Vec<u8> = Vec::new();
    let mut i: usize = 0;
    proof {
        assert(s@.skip(0) =~= s@);
        assert(out@ + spec_hex_decode(s@) =~= spec_hex_decode(s@));
    }
    while i < n
        invariant
            n == s@.len(),
            n % 2 == 0,
            i <= n,
            i % 2 == 0,
            forall|k: int| 0 <= k < i ==> spec_is_hex_digit(#[trigger] s@[k]),
            spec_hex_decode(s@) == out@ + spec_hex_decode(s@.skip(i as int)),
        decreases n - i,
    {
        let hi = match hex_digit_val(s.get_char(i)) {
            Some(v) => v,
            None => {
                return None;
            },
        };
        let lo = match hex_digit_val(s.get_char(i + 1)) {
            Some(v) => v,
            None => {
                return None;
            },
        };
        proof {
            let rest = s@.skip(i as int);
            assert(rest[0] == s@[i as int] && rest[1] == s@[i as int + 1]);
            assert(rest.skip(2) =~= s@.skip(i as int + 2));
        }
        out.push(hi * 16 + lo);
        proof {
            assert(spec_hex_decode(s@) =~= out@ + spec_hex_decode(s@.skip(i as int + 2)));
        }
        i += 2;
    }
    proof {
        assert(s@.skip(n as int) =~= Seq::<char>::empty());
        assert(spec_hex_decode(s@) =~= out@);
    }
    Some(out)
}

/// Whether the signature header text proves the body under the secret: the
/// `sha256=` prefix, followed by the hex digits of the keyed tag.
pub open spec fn spec_signature_ok(sig: Seq<char>, body: Seq<char>, secret: Seq<char>) -> bool {
    &&& sig.len() >= 7
    &&& sig.subrange(0, 7) == "sha256="@
    &&& spec_is_hex(sig.skip(7))
    &&& spec_hex_decode(sig.skip(7)) == hmac_sha256_of(secret, body)
}

/// Whether `s` starts with the literal `sha256=`.
fn has_sha256_prefix(s: &str) -> (r: bool)
    ensures
        r == (s@.len() >= 7 && s@.subrange(0, 7) == "sha256="@),
{
    let prefix = "sha256=";
    proof {
        reveal_strlit("sha256=");
    }
    let n = s.unicode_len();
    if n < 7 {
        return false;
    }
    let mut i: usize = 0;
    while i < 7
        invariant
            n == s@.len(),
            n >= 7,
            i <= 7,
            prefix@ =~= "sha256="@,
            prefix@.len() == 7,
            forall|k: int| 0 <= k < i ==> s@[k] == prefix@[k],
        decreases 7 - i,
    {
        if s.get_char(i) != prefix.get_char(i) {
            proof {
                assert(s@.subrange(0, 7)[i as int] != "sha256="@[i as int]);
            }
            return false;
        }
        i += 1;
    }
    proof {
        assert(s@.subrange(0, 7) =~= "sha256="@);
    }
    true
}

/// Validates the inbound body against the resource's shared secret.
///
/// `signature` is the raw value of the provider's signature header, `None`
/// when the header was absent. Succeeds exactly when the header carries the
/// hex tag of the body under the secret; every failure is the same
/// `Unauthorized` outcome, so a caller learns nothing about which part
/// failed. Runs before any lock is taken and touches no resource state.
pub fn verify_gh_signature(signature: Option<&str>, body: &str, secret: &str) -> (r: Result<
    (),
    WebhookError,
>)
    ensures
        r is Ok <==> (signature matches Some(s) && spec_signature_ok(s@, body@, secret@)),
        r matches Err(e) ==> e == WebhookError::Unauthorized,
{
    let s = match signature {
        Some(s) => s,
        None => {
            return Err(WebhookError::Unauthorized);
        },
    };
    if !has_sha256_prefix(s) {
        return Err(WebhookError::Unauthorized);
    }
    let n = s.unicode_len();
    let hex_part = s.substring_char(7, n);
    proof {
        assert(hex_part@ =~= s@.skip(7));
    }
    let tag = match hex_decode(hex_part) {
        Some(t) => t,
        None => {
            return Err(WebhookError::Unauthorized);
        },
    };
    if hmac_sha256_matches(secret, body, &tag) {
        Ok(())
    } else {
        Err(WebhookError::Unauthorized)
    }
}

} // verus!
