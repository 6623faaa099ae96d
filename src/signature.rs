use vstd::prelude::*;
use vstd::string::StringSliceAdditionalSpecFns;

verus! {

/// The keyed SHA-1 message authentication code (HMAC-SHA1) of `message`
/// under `key`.
pub uninterp spec fn hmac_sha1_of(key: Seq<u8>, message: Seq<u8>) -> Seq<u8>;

/// Relies on rust-crypto's `Hmac::<Sha1>::new`, `Mac::input` and
/// `Mac::result`: the HMAC-SHA1 code of `message` under `key`, twenty bytes
/// long (SHA-1's 160 bits of output).
#[verifier::external_body]
fn hmac_sha1(key: &[u8], message: &[u8]) -> (r: Vec<u8>)
    ensures
        r@ == hmac_sha1_of(key@, message@),
        r@.len() == 20,
{
    let mut mac = crypto::hmac::Hmac::new(crypto::sha1::Sha1::new(), key);
    crypto::mac::Mac::input(&mut mac, message);
    crypto::mac::Mac::result(&mut mac).code().to_vec()
}

/// Relies on rust-crypto's `util::fixed_time_eq`: whether two byte strings
/// are equal, in a time that does not depend on where they first differ. It
/// reads the first byte of each unchecked, and calls two empty strings
/// different, so neither may be empty here.
#[verifier::external_body]
fn fixed_time_eq(a: &[u8], b: &[u8]) -> (r: bool)
    requires
        a@.len() > 0,
        b@.len() > 0,
    ensures
        r == (a@ == b@),
{
    crypto::util::fixed_time_eq(a, b)
}

/// An ASCII hexadecimal digit, of either case.
pub open spec fn is_hex_digit(c: u8) -> bool {
    (48 <= c && c <= 57) || (97 <= c && c <= 102) || (65 <= c && c <= 70)
}

/// The value of a hexadecimal digit.
pub open spec fn hex_digit_value(c: u8) -> int {
    if c <= 57 {
        c - 48
    } else if c >= 97 {
        c - 87
    } else {
        c - 55
    }
}

/// Text that is an even number of hexadecimal digits.
pub open spec fn hex_well_formed(s: Seq<u8>) -> bool {
    s.len() % 2 == 0 && forall|i: int| 0 <= i < s.len() ==> is_hex_digit(#[trigger] s[i])
}

/// The bytes that a well-formed hexadecimal text stands for, two digits each,
/// the high half first.
pub open spec fn hex_decoded(s: Seq<u8>) -> Seq<u8> {
    Seq::new(
        (s.len() / 2) as nat,
        |i: int| (16 * hex_digit_value(s[2 * i]) + hex_digit_value(s[2 * i + 1])) as u8,
    )
}

/// Relies on hex's `FromHex for Vec<u8>`: an even number of digits of either
/// case decodes to one byte per pair; any other text is an error.
#[verifier::external_body]
fn decode_hex(digits: &[u8]) -> (r: Option<Vec<u8>>)
    ensures
        r is Some <==> hex_well_formed(digits@),
        r matches Some(v) ==> v@ == hex_decoded(digits@),
{
    <Vec<u8> as hex::FromHex>::from_hex(digits).ok()
}

/// The lower-case hexadecimal digit, as an ASCII byte, of a value below sixteen.
pub open spec fn lower_hex_byte(n: int) -> u8 {
    if n < 10 {
        (48 + n) as u8
    } else {
        (87 + n) as u8
    }
}

/// Lower-case hexadecimal text of `b`, two digits a byte, the high half first.
pub open spec fn hex_encoded(b: Seq<u8>) -> Seq<u8> {
    Seq::new(
        2 * b.len(),
        |i: int|
            if i % 2 == 0 {
                lower_hex_byte(b[i / 2] as int / 16)
            } else {
                lower_hex_byte(b[i / 2] as int % 16)
            },
    )
}

/// `sha1=`, which opens the signature header.
pub open spec fn signature_prefix() -> Seq<u8> {
    seq![115u8, 104u8, 97u8, 49u8, 61u8]
}

/// Whether a signature header vouches for `body` under `secret`: it is
/// `sha1=` followed by the hexadecimal HMAC-SHA1 code of the body.
pub open spec fn signature_matches(header: Seq<u8>, body: Seq<u8>, secret: Seq<u8>) -> bool {
    &&& header.len() >= 5
    &&& header.take(5) == signature_prefix()
    &&& hex_well_formed(header.skip(5))
    &&& hex_decoded(header.skip(5)) == hmac_sha1_of(secret, body)
}

/// Whether a request is authentic: it carries a signature header, and that
/// header vouches for the body.
pub open spec fn authentic(header: Option<Seq<u8>>, body: Seq<u8>, secret: Seq<u8>) -> bool {
    match header {
        Some(h) => signature_matches(h, body, secret),
        None => false,
    }
}

/// The bytes of a header value, where there is one.
pub open spec fn header_bytes(header: Option<&str>) -> Option<Seq<u8>> {
    match header {
        Some(h) => Some(h.spec_bytes()),
        None => None,
    }
}

/// Return true if webhook was authenticated, false otherwise.
///
/// `signature` is the value of the request's `X-Hub-Signature` header, if it
/// has one, and `body` the body exactly as received. A missing or malformed
/// header fails closed. The codes are compared in fixed time.
pub fn authenticated(signature: Option<&str>, body: &[u8], secret: &str) -> (r: bool)
    ensures
        r == authentic(header_bytes(signature), body@, secret.spec_bytes()),
{
    let header = match signature {
        Some(h) => h.as_bytes(),
        None => {
            return false;
        },
    };
    if header.len() < 5 {
        return false;
    }
    let (prefix, digits) = header.split_at(5);
    if !(prefix[0] == 115 && prefix[1] == 104 && prefix[2] == 97 && prefix[3] == 49 && prefix[4]
        == 61) {
        assert(prefix@ != signature_prefix());
        return false;
    }
    assert(prefix@ =~= signature_prefix());
    match decode_hex(digits) {
        None => false,
        Some(given) => {
            let code = hmac_sha1(secret.as_bytes(), body);
            if given.len() == 0 {
                return false;
            }
            fixed_time_eq(code.as_slice(), given.as_slice())
        },
    }
}

proof fn lemma_hex_encoded_decodes(b: Seq<u8>)
    ensures
        hex_well_formed(hex_encoded(b)),
        hex_decoded(hex_encoded(b)) == b,
{
    let e = hex_encoded(b);
    assert forall|i: int| 0 <= i < e.len() implies is_hex_digit(#[trigger] e[i]) by {
        let x = b[i / 2] as int;
        assert(0 <= x / 16 < 16);
        assert(0 <= x % 16 < 16);
    }
    assert forall|i: int| 0 <= i < b.len() implies #[trigger] hex_decoded(e)[i] == b[i] by {
        let x = b[i] as int;
        assert((2 * i) / 2 == i);
        assert((2 * i + 1) / 2 == i);
        assert((2 * i) % 2 == 0);
        assert((2 * i + 1) % 2 == 1);
        assert(hex_digit_value(lower_hex_byte(x / 16)) == x / 16);
        assert(hex_digit_value(lower_hex_byte(x % 16)) == x % 16);
        assert(16 * (x / 16) + x % 16 == x);
    }
    assert(hex_decoded(e) =~= b);
}

/// A request whose header is `sha1=` followed by the lower-case hexadecimal
/// HMAC-SHA1 code of its body under the secret is authentic.
pub proof fn lemma_own_signature_accepted(body: Seq<u8>, secret: Seq<u8>)
    ensures
        authentic(
            Some(signature_prefix() + hex_encoded(hmac_sha1_of(secret, body))),
            body,
            secret,
        ),
{
    let e = hex_encoded(hmac_sha1_of(secret, body));
    let h = signature_prefix() + e;
    lemma_hex_encoded_decodes(hmac_sha1_of(secret, body));
    assert(h.take(5) =~= signature_prefix());
    assert(h.skip(5) =~= e);
}

/// The signature of a body does not vouch for a body that differs from it in
/// one byte, wherever the two bodies' codes under the secret differ.
pub proof fn lemma_altered_body_rejected(body: Seq<u8>, altered: Seq<u8>, secret: Seq<u8>, at: int)
    requires
        altered.len() == body.len(),
        0 <= at < body.len(),
        altered[at] != body[at],
        forall|j: int| 0 <= j < body.len() && j != at ==> altered[j] == body[j],
        hmac_sha1_of(secret, altered) != hmac_sha1_of(secret, body),
    ensures
        !authentic(
            Some(signature_prefix() + hex_encoded(hmac_sha1_of(secret, body))),
            altered,
            secret,
        ),
{
    let e = hex_encoded(hmac_sha1_of(secret, body));
    let h = signature_prefix() + e;
    lemma_hex_encoded_decodes(hmac_sha1_of(secret, body));
    assert(h.skip(5) =~= e);
}

/// A request without a signature header is never authentic.
pub proof fn lemma_missing_signature_rejected(body: Seq<u8>, secret: Seq<u8>)
    ensures
        !authentic(None, body, secret),
{
}

} // verus!
