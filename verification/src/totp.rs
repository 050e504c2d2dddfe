//! The TOTP engine: secret generation, RFC 4648 base32 transport encoding,
//! 6-digit SHA-1 codes over 30-second time steps, and verification with a
//! skew of one step on either side of "now".

use vstd::prelude::*;
use rand::RngCore;

verus! {

/// Errors of the secret-issuance and code-verification engine.
#[derive(Clone, Copy, Debug, PartialEq, Eq, Structural)]
pub enum OtpError {
    /// The OS entropy source could not be read.
    EntropySourceUnavailable,
    /// The secret is not usable base32 (or decodes to fewer than 16 bytes,
    /// below the RFC 6238 minimum the code computation accepts).
    InvalidSecretEncoding,
    /// The submitted code is not exactly 6 decimal digits.
    MalformedToken,
}

/// What base32::encode (RFC 4648 alphabet, no padding) returns for a byte string.
pub uninterp spec fn b32_of(bytes: Seq<u8>) -> Seq<char>;

/// What base32::decode (RFC 4648 alphabet, no padding) returns for a string.
pub uninterp spec fn b32_rev(s: Seq<char>) -> Option<Seq<u8>>;

/// What totp_rs computes: the 6-digit SHA-1 TOTP code of a secret at a
/// 30-second time-step counter.
pub uninterp spec fn code_at(secret: Seq<u8>, counter: u64) -> Seq<char>;

pub open spec fn is_code_digit(c: char) -> bool {
    '0' <= c && c <= '9'
}

/// A well-formed submitted code: exactly 6 decimal digits.
pub open spec fn is_six_digit_code(s: Seq<char>) -> bool {
    s.len() == 6 && (forall|i: int| 0 <= i < 6 ==> is_code_digit(#[trigger] s[i]))
}

/// A stored secret the engine can work with: base32 that decodes to at
/// least 16 bytes (128 bits), the minimum the code computation accepts.
pub open spec fn usable_secret(s: Seq<char>) -> bool {
    &&& b32_rev(s) is Some
    &&& b32_rev(s)->Some_0.len() >= 16
}

/// The bytes a usable stored secret decodes to.
pub open spec fn decoded_secret(s: Seq<char>) -> Seq<u8>
    recommends
        usable_secret(s),
{
    b32_rev(s)->Some_0
}

/// The 90-second acceptance band: a token is accepted at time `now` if it is
/// the code of the previous, the current, or the next 30-second step.
pub open spec fn totp_accepts(secret: Seq<u8>, token: Seq<char>, now: u64) -> bool {
    let c = now / 30;
    ||| (c > 0 && token == code_at(secret, (c - 1) as u64))
    ||| token == code_at(secret, c)
    ||| token == code_at(secret, (c + 1) as u64)
}

/// Relies on base32::encode with the RFC 4648 alphabet and no padding: the
/// result is a pure function of the bytes, its unpadded length is
/// ceil(8n/5) characters, and base32::decode inverts it (the crate states
/// the round trip for this alphabet).
#[verifier::external_body]
fn b32_encode(bytes: &Vec<u8>) -> (r: String)
    ensures
        r@ == b32_of(bytes@),
        r@.len() == (bytes@.len() * 8 + 4) / 5,
        b32_rev(r@) == Some(bytes@),
{
    base32::encode(base32::Alphabet::RFC4648 { padding: false }, bytes.as_slice())
}

/// Relies on base32::decode with the RFC 4648 alphabet and no padding: the
/// result is a pure function of the input string.
#[verifier::external_body]
fn b32_decode(s: &str) -> (r: Option<Vec<u8>>)
    ensures
        match r {
            Some(v) => b32_rev(s@) == Some(v@),
            None => b32_rev(s@) is None,
        },
{
    base32::decode(base32::Alphabet::RFC4648 { padding: false }, s)
}

/// Relies on totp_rs::TOTP with SHA-1, 6 digits and a 30-second step: the
/// code depends only on the secret bytes and on time / 30, and is formatted
/// as a zero-padded 6-digit decimal string. TOTP::new rejects only a digit
/// count outside 6..=8 and a secret under 16 bytes, so it cannot fail here.
#[verifier::external_body]
fn totp_generate(secret: &Vec<u8>, time: u64) -> (r: String)
    requires
        secret@.len() >= 16,
    ensures
        r@ == code_at(secret@, time / 30),
        is_six_digit_code(r@),
{
    let totp = totp_rs::TOTP::new(totp_rs::Algorithm::SHA1, 6, 1, 30, secret.clone()).unwrap();
    totp.generate(time)
}

/// Relies on rand::rngs::OsRng: fills a buffer of the requested length from
/// the OS entropy source, or reports that the source cannot be read. Nothing
/// is assumed about the bytes themselves.
#[verifier::external_body]
fn os_random_bytes(n: usize) -> (r: Result<Vec<u8>, OtpError>)
    ensures
        match r {
            Ok(v) => v@.len() == n,
            Err(e) => e == OtpError::EntropySourceUnavailable,
        },
{
    let mut buf = vec![0u8; n];
    match rand::rngs::OsRng.try_fill_bytes(&mut buf) {
        Ok(()) => Ok(buf),
        Err(_) => Err(OtpError::EntropySourceUnavailable),
    }
}

/// A freshly issued secret: the no-padding base32 encoding of some 20-byte
/// (160-bit) string, which decodes back to those bytes.
pub open spec fn is_fresh_secret(s: Seq<char>) -> bool {
    exists|b: Seq<u8>|
        #![auto]
        b.len() == 20 && s == b32_of(b) && b32_rev(s) == Some(b)
}

/// Generates a new shared secret: 160 bits from the OS entropy source,
/// base32-encoded without padding (32 characters). Fails only when the
/// entropy source cannot be read; no weaker source is substituted.
pub fn generate_secret() -> (r: Result<String, OtpError>)
    ensures
        match r {
            Ok(s) => is_fresh_secret(s@) && s@.len() == 32 && usable_secret(s@),
            Err(e) => e == OtpError::EntropySourceUnavailable,
        },
{
    let bytes = match os_random_bytes(20) {
        Ok(v) => v,
        Err(e) => {
            return Err(e);
        },
    };
    let s = b32_encode(&bytes);
    proof {
        assert(b32_rev(s@) == Some(bytes@));
        assert(is_fresh_secret(s@)) by {
            assert(bytes@.len() == 20 && s@ == b32_of(bytes@) && b32_rev(s@) == Some(bytes@));
        }
    }
    Ok(s)
}

/// Whether a submitted token is exactly 6 decimal digits.
pub fn is_six_digits(token: &str) -> (r: bool)
    ensures
        r == is_six_digit_code(token@),
{
    let n = token.unicode_len();
    if n != 6 {
        return false;
    }
    let mut i: usize = 0;
    let mut ok: bool = true;
    while i < 6
        invariant
            0 <= i <= 6,
            token@.len() == 6,
            ok == (forall|j: int| 0 <= j < i ==> is_code_digit(#[trigger] token@[j])),
        decreases 6 - i,
    {
        let c = token.get_char(i);
        ok = ok && '0' <= c && c <= '9';
        i = i + 1;
    }
    ok
}

/// Character-by-character string comparison without an early exit on the
/// first mismatch, so that the comparison time does not depend on where two
/// codes of equal length differ.
pub fn eq_constant_time(a: &str, b: &str) -> (r: bool)
    ensures
        r == (a@ == b@),
{
    let alen = a.unicode_len();
    let blen = b.unicode_len();
    if alen != blen {
        return false;
    }
    let mut acc: u32 = 0;
    let mut i: usize = 0;
    while i < alen
        invariant
            0 <= i <= alen,
            alen == a@.len(),
            alen == b@.len(),
            (acc == 0) == (forall|j: int| 0 <= j < i ==> a@[j] == #[trigger] b@[j]),
        decreases alen - i,
    {
        let xa = a.get_char(i) as u32;
        let xb = b.get_char(i) as u32;
        proof {
            assert((acc | (xa ^ xb)) == 0 <==> acc == 0 && xa == xb) by (bit_vector);
        }
        acc = acc | (xa ^ xb);
        i = i + 1;
    }
    if acc == 0 {
        proof {
            assert(a@ =~= b@);
        }
        true
    } else {
        false
    }
}

/// Computes the 6-digit code of a stored base32 secret at `timestamp`
/// (seconds): HMAC-SHA1 over the counter floor(timestamp / 30), dynamically
/// truncated mod 10^6 and zero-padded. Fails exactly when the secret is not
/// usable base32.
pub fn compute_code(secret_b32: &str, timestamp: u64) -> (r: Result<String, OtpError>)
    ensures
        match r {
            Ok(code) => {
                &&& usable_secret(secret_b32@)
                &&& code@ == code_at(decoded_secret(secret_b32@), timestamp / 30)
                &&& is_six_digit_code(code@)
            },
            Err(e) => e == OtpError::InvalidSecretEncoding && !usable_secret(secret_b32@),
        },
{
    let bytes = match b32_decode(secret_b32) {
        Some(v) => v,
        None => {
            return Err(OtpError::InvalidSecretEncoding);
        },
    };
    if bytes.len() < 16 {
        return Err(OtpError::InvalidSecretEncoding);
    }
    Ok(totp_generate(&bytes, timestamp))
}

/// floor((t + 30) / 30) is one step past floor(t / 30), and likewise one
/// step back for t - 30.
proof fn lemma_step_shift(t: u64)
    ensures
        t + 30 <= u64::MAX ==> ((t + 30) as u64) / 30 == t / 30 + 1,
        t >= 30 ==> ((t - 30) as u64) / 30 == t / 30 - 1,
        t / 30 < u64::MAX,
{
    vstd::arithmetic::div_mod::lemma_fundamental_div_mod(t as int, 30);
    if t + 30 <= u64::MAX {
        vstd::arithmetic::div_mod::lemma_fundamental_div_mod_converse(
            t + 30,
            30,
            t / 30 + 1,
            (t as int) % 30,
        );
    }
    if t >= 30 {
        vstd::arithmetic::div_mod::lemma_fundamental_div_mod_converse(
            t - 30,
            30,
            t / 30 - 1,
            (t as int) % 30,
        );
    }
    vstd::arithmetic::div_mod::lemma_fundamental_div_mod_converse(
        t as int,
        30,
        (t / 30) as int,
        (t as int) % 30,
    );
}

/// Checks a submitted token against a stored base32 secret at time `now`
/// (seconds): the token is accepted if it equals the code of the previous,
/// the current, or the next 30-second step, each compared without an early
/// exit. The token must be exactly 6 decimal digits and the secret must be
/// usable base32, else the matching error is returned.
pub fn verify_code(secret_b32: &str, token: &str, now: u64) -> (r: Result<bool, OtpError>)
    requires
        now + 30 <= u64::MAX,
    ensures
        match r {
            Ok(b) => {
                &&& is_six_digit_code(token@)
                &&& usable_secret(secret_b32@)
                &&& b == totp_accepts(decoded_secret(secret_b32@), token@, now)
            },
            Err(e) => match e {
                OtpError::MalformedToken => !is_six_digit_code(token@),
                OtpError::InvalidSecretEncoding => is_six_digit_code(token@) && !usable_secret(
                    secret_b32@,
                ),
                OtpError::EntropySourceUnavailable => false,
            },
        },
{
    if !is_six_digits(token) {
        return Err(OtpError::MalformedToken);
    }
    let bytes = match b32_decode(secret_b32) {
        Some(v) => v,
        None => {
            return Err(OtpError::InvalidSecretEncoding);
        },
    };
    if bytes.len() < 16 {
        return Err(OtpError::InvalidSecretEncoding);
    }
    proof {
        lemma_step_shift(now);
    }
    let current = totp_generate(&bytes, now);
    let hit_current = eq_constant_time(token, current.as_str());
    let hit_previous = if now >= 30 {
        let previous = totp_generate(&bytes, now - 30);
        eq_constant_time(token, previous.as_str())
    } else {
        false
    };
    let next = totp_generate(&bytes, now + 30);
    let hit_next = eq_constant_time(token, next.as_str());
    Ok(hit_previous || hit_current || hit_next)
}

/// Builds the provisioning URI for authenticator-app enrollment. As in the
/// wire format this reproduces, issuer and account are spliced in verbatim,
/// with no URL escaping.
pub open spec fn uri_of(issuer: Seq<char>, account: Seq<char>, secret: Seq<char>) -> Seq<char> {
    "otpauth://totp/"@ + issuer + ":"@ + account + "?secret="@ + secret + "&issuer="@ + issuer
}

/// The otpauth://totp/ provisioning URI for a secret, an issuer and an
/// account email.
pub fn build_otp_auth_url(issuer: &str, account: &str, secret_b32: &str) -> (r: String)
    ensures
        r@ == uri_of(issuer@, account@, secret_b32@),
{
    let mut s = String::new();
    s.append("otpauth://totp/");
    s.append(issuer);
    s.append(":");
    s.append(account);
    s.append("?secret=");
    s.append(secret_b32);
    s.append("&issuer=");
    s.append(issuer);
    proof {
        assert(s@ =~= uri_of(issuer@, account@, secret_b32@));
    }
    s
}

/// Round trip: the code computed for a secret at time t is accepted when
/// verified against that secret at time t.
pub proof fn lemma_round_trip(secret: Seq<u8>, t: u64)
    ensures
        totp_accepts(secret, code_at(secret, t / 30), t),
{
}

/// Acceptance-band upper side: a code computed at time t is still accepted
/// 29 seconds later, wherever t falls inside its 30-second step.
pub proof fn lemma_accepts_within_band(secret: Seq<u8>, t: u64)
    requires
        t + 29 <= u64::MAX,
    ensures
        totp_accepts(secret, code_at(secret, t / 30), (t + 29) as u64),
{
    let q = t / 30;
    let r = (t as int) % 30;
    vstd::arithmetic::div_mod::lemma_fundamental_div_mod(t as int, 30);
    if r == 0 {
        vstd::arithmetic::div_mod::lemma_fundamental_div_mod_converse(t + 29, 30, q as int, 29);
    } else {
        vstd::arithmetic::div_mod::lemma_fundamental_div_mod_converse(
            t + 29,
            30,
            q + 1,
            r - 1,
        );
    }
}

/// Acceptance-band lower side: 61 seconds later the step of t is outside
/// the band, so the code computed at t is rejected — unless the 6-digit
/// code of some step in the new band happens to collide with it, which the
/// premise rules out.
pub proof fn lemma_rejects_outside_band(secret: Seq<u8>, t: u64)
    requires
        t + 61 <= u64::MAX,
        forall|c: u64|
            t / 30 < c <= t / 30 + 4 ==> #[trigger] code_at(secret, c) != code_at(secret, t / 30),
    ensures
        !totp_accepts(secret, code_at(secret, t / 30), (t + 61) as u64),
{
    let q = t / 30;
    let r = (t as int) % 30;
    vstd::arithmetic::div_mod::lemma_fundamental_div_mod(t as int, 30);
    if r == 29 {
        vstd::arithmetic::div_mod::lemma_fundamental_div_mod_converse(t + 61, 30, q + 3, 0);
    } else {
        vstd::arithmetic::div_mod::lemma_fundamental_div_mod_converse(
            t + 61,
            30,
            q + 2,
            r + 1,
        );
    }
    let c2 = ((t + 61) as u64) / 30;
    assert(q + 2 <= c2 <= q + 3);
    assert(code_at(secret, (c2 - 1) as u64) != code_at(secret, q));
    assert(code_at(secret, c2) != code_at(secret, q));
    assert(code_at(secret, (c2 + 1) as u64) != code_at(secret, q));
}

} // verus!

