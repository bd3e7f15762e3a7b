//! Verifying a push notification's signature: the delivery carries
//! `sha256=<hex>` in its signature header, and the body must authenticate
//! against the configured secret under HMAC-SHA-256. Header parsing and hex
//! decoding are verified here; the MAC itself is the `hmac` crate's work.

use vstd::prelude::*;
use vstd::string::StrSliceExecFns;

use hmac::Mac;

use crate::text::str_starts_with;

verus! {

/// Whether a character is a hexadecimal digit, either case.
pub open spec fn is_hex_digit(c: char) -> bool {
    ('0' as u32 <= c as u32 && c as u32 <= '9' as u32) || ('a' as u32 <= c as u32 && c as u32
        <= 'f' as u32) || ('A' as u32 <= c as u32 && c as u32 <= 'F' as u32)
}

/// The value of one hexadecimal digit.
pub open spec fn hex_val(c: char) -> u8
    recommends
        is_hex_digit(c),
{
    if '0' as u32 <= c as u32 && c as u32 <= '9' as u32 {
        (c as u32 - '0' as u32) as u8
    } else if 'a' as u32 <= c as u32 && c as u32 <= 'f' as u32 {
        (c as u32 - 'a' as u32 + 10) as u8
    } else {
        (c as u32 - 'A' as u32 + 10) as u8
    }
}

/// The bytes a hexadecimal string denotes, two digits a byte, high digit
/// first; nothing for an odd-length string or a non-digit anywhere.
pub open spec fn spec_hex_decode(s: Seq<char>) -> Option<Seq<u8>>
    decreases s.len(),
{
    if s.len() == 0 {
        Some(Seq::empty())
    } else if s.len() == 1 {
        None
    } else if !is_hex_digit(s[0]) || !is_hex_digit(s[1]) {
        None
    } else {
        match spec_hex_decode(s.skip(2)) {
            Some(rest) => Some(seq![(hex_val(s[0]) * 16 + hex_val(s[1])) as u8] + rest),
            None => None,
        }
    }
}

/// Decoded leading bytes, put back in front of the rest of a decode.
pub open spec fn prepend_decoded(prefix: Seq<u8>, rest: Option<Seq<u8>>) -> Option<Seq<u8>> {
    match rest {
        Some(r) => Some(prefix + r),
        None => None,
    }
}

/// The value of one hexadecimal digit; `None` for any other character.
fn hex_digit_value(c: char) -> (r: Option<u8>)
    ensures
        (r matches Some(v) ==> is_hex_digit(c) && v == hex_val(c) && v < 16),
        (r is None ==> !is_hex_digit(c)),
{
    let x = c as u32;
    if x >= 48 && x <= 57 {
        Some((x - 48) as u8)
    } else if x >= 97 && x <= 102 {
        Some((x - 97 + 10) as u8)
    } else if x >= 65 && x <= 70 {
        Some((x - 65 + 10) as u8)
    } else {
        None
    }
}

/// Decodes a hexadecimal string, exactly as [`spec_hex_decode`] states it.
pub fn hex_decode(s: &str) -> (r: Option<Vec<u8>>)
    ensures
        (r matches Some(v) ==> spec_hex_decode(s@) == Some(v@)),
        (r is None ==> spec_hex_decode(s@) is None),
{
    let len = s.unicode_len();
    let mut out: Vec<u8> = Vec::new();
    let mut i: usize = 0;
    proof {
        assert(s@.skip(0) =~= s@);
        assert(Seq::<u8>::empty() + spec_hex_decode(s@)->0 =~= spec_hex_decode(s@)->0);
    }
    while i < len
        invariant
            i <= len,
            len == s@.len(),
            spec_hex_decode(s@) == prepend_decoded(out@, spec_hex_decode(s@.skip(i as int))),
        decreases len - i,
    {
        let ghost suffix = s@.skip(i as int);
        proof {
            assert(suffix[0] == s@[i as int]);
            if i + 1 < len {
                assert(suffix[1] == s@[i as int + 1]);
            }
        }
        if i + 1 == len {
            return None;
        }
        let c0 = s.get_char(i);
        let c1 = s.get_char(i + 1);
        let h = hex_digit_value(c0);
        let l = hex_digit_value(c1);
        match (h, l) {
            (Some(hv), Some(lv)) => {
                let ghost pre = out@;
                out.push(hv * 16 + lv);
                proof {
                    assert(suffix.skip(2) =~= s@.skip(i as int + 2));
                    assert(spec_hex_decode(suffix) == prepend_decoded(
                        seq![(hex_val(suffix[0]) * 16 + hex_val(suffix[1])) as u8],
                        spec_hex_decode(s@.skip(i as int + 2)),
                    ));
                    assert(out@ == pre.push((hex_val(suffix[0]) * 16 + hex_val(
                        suffix[1],
                    )) as u8));
                    match spec_hex_decode(s@.skip(i as int + 2)) {
                        Some(rest) => {
                            assert(pre + (seq![(hex_val(suffix[0]) * 16 + hex_val(
                                suffix[1],
                            )) as u8] + rest) =~= out@ + rest);
                        },
                        None => {},
                    }
                }
                i += 2;
            },
            _ => {
                return None;
            },
        }
    }
    proof {
        assert(s@.skip(len as int) =~= Seq::<char>::empty());
        assert(out@ + Seq::<u8>::empty() =~= out@);
    }
    Some(out)
}

/// The signature a well-formed header carries: `sha256=` followed by the
/// hex-encoded tag; nothing for a header of any other shape.
pub open spec fn spec_parse_signature(h: Seq<char>) -> Option<Seq<u8>> {
    if "sha256="@.is_prefix_of(h) {
        spec_hex_decode(h.skip("sha256="@.len() as int))
    } else {
        None
    }
}

/// Parses the signature header, exactly as [`spec_parse_signature`] states
/// it.
pub fn parse_signature_header(header: &str) -> (r: Option<Vec<u8>>)
    ensures
        (r matches Some(v) ==> spec_parse_signature(header@) == Some(v@)),
        (r is None ==> spec_parse_signature(header@) is None),
{
    if str_starts_with(header, "sha256=") {
        proof {
            reveal_strlit("sha256=");
        }
        let len = header.unicode_len();
        let rest = header.substring_char(7, len);
        proof {
            assert(rest@ =~= header@.skip("sha256="@.len() as int));
        }
        hex_decode(rest)
    } else {
        None
    }
}

/// The HMAC-SHA-256 tag of a message under a key: a function of the two
/// alone.
pub uninterp spec fn hmac_sha256_of(key: Seq<u8>, msg: Seq<u8>) -> Seq<u8>;

/// Relies on the `hmac` crate's `Hmac<sha2::Sha256>`: `new_from_slice`
/// accepts a key of any length, `update` absorbs the message, and
/// `verify_slice` accepts exactly the full correct tag, which depends on the
/// key and the message alone.
#[verifier::external_body]
fn hmac_sha256_verify(key: &[u8], msg: &[u8], candidate: &[u8]) -> (r: bool)
    ensures
        r == (candidate@ == hmac_sha256_of(key@, msg@)),
{
    let mut mac = match hmac::Hmac::<sha2::Sha256>::new_from_slice(key) {
        Ok(m) => m,
        Err(_) => return false,
    };
    mac.update(msg);
    mac.verify_slice(candidate).is_ok()
}

/// What the boundary must do with one delivery.
#[derive(Clone, Copy, Debug, PartialEq, Eq, Structural)]
pub enum SignatureDecision {
    /// Let the delivery through.
    Accept,
    /// Reject: verification is on and the signature header is missing.
    MissingHeader,
    /// Reject: the header is not `sha256=` followed by an even number of
    /// hex digits.
    MalformedHeader,
    /// Reject: the signature does not authenticate the body.
    Unauthorized,
}

/// The view of an optional header value.
pub open spec fn opt_str_view(h: Option<&str>) -> Option<Seq<char>> {
    match h {
        Some(s) => Some(s@),
        None => None,
    }
}

/// The decision owed for one delivery: everything is accepted while
/// verification is off; otherwise the header must be present, well-formed,
/// and carry exactly the body's tag under the secret.
pub open spec fn spec_signature_decision(
    validate: bool,
    secret: Seq<u8>,
    header: Option<Seq<char>>,
    body: Seq<u8>,
) -> SignatureDecision {
    if !validate {
        SignatureDecision::Accept
    } else {
        match header {
            None => SignatureDecision::MissingHeader,
            Some(h) => match spec_parse_signature(h) {
                None => SignatureDecision::MalformedHeader,
                Some(sig) => if sig == hmac_sha256_of(secret, body) {
                    SignatureDecision::Accept
                } else {
                    SignatureDecision::Unauthorized
                },
            },
        }
    }
}

/// Decides one delivery, exactly as [`spec_signature_decision`] states it.
pub fn verify_signature(validate: bool, secret: &[u8], header: Option<&str>, body: &[u8]) -> (r:
    SignatureDecision)
    ensures
        r == spec_signature_decision(validate, secret@, opt_str_view(header), body@),
{
    if !validate {
        return SignatureDecision::Accept;
    }
    match header {
        None => SignatureDecision::MissingHeader,
        Some(h) => match parse_signature_header(h) {
            None => SignatureDecision::MalformedHeader,
            Some(sig) => {
                if hmac_sha256_verify(secret, body, sig.as_slice()) {
                    SignatureDecision::Accept
                } else {
                    SignatureDecision::Unauthorized
                }
            },
        },
    }
}

} // verus!
