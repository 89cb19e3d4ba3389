//! Runner bearer tokens: minted at random, stored only as argon2 hashes,
//! looked up by their first eight characters and verified against the hash.

use crate::access::{reject, rejected, Rejection};
use crate::b64::{base64_url_unpadded, encode_token_bytes, unpadded_len, url_safe_char};
use crate::records::RunnerAuth;
use crate::text::{chars_of, str_eq, string_of};
use argon2::password_hash::{PasswordHash, PasswordHasher, PasswordVerifier, SaltString};
use argon2::Argon2;
use vstd::prelude::*;
use vstd::utf8::{decode_utf8, encode_utf8, valid_utf8};

verus! {

/// Why a token could not be minted or hashed.
#[derive(Debug)]
pub enum TokenError {
    /// The operating system's random source failed.
    Random(getrandom::Error),
    /// argon2 refused to hash.
    Hash(argon2::password_hash::Error),
}

/// `getrandom::fill`: `n` bytes from the operating system's random source.
/// Of the bytes nothing is stated but their number.
#[verifier::external_body]
fn random_bytes(n: usize) -> (r: Result<Vec<u8>, getrandom::Error>)
    ensures
        r matches Ok(v) ==> v@.len() == n,
{
    let mut v = vec![0u8; n];
    getrandom::fill(&mut v).map(|_| v)
}

/// A token from what the random source gave: the bytes, URL-safe base64
/// without padding, or the source's error.
pub fn token_from_random(drawn: Result<Vec<u8>, getrandom::Error>) -> (r: Result<String, TokenError>)
    requires
        drawn matches Ok(b) ==> unpadded_len(b@.len()) <= usize::MAX,
    ensures
        match drawn {
            Ok(b) => r matches Ok(t) && t@ == base64_url_unpadded(b@) && t@.len() == unpadded_len(
                b@.len(),
            ) && forall|i: int| 0 <= i < t@.len() ==> url_safe_char(#[trigger] t@[i]),
            Err(e) => r matches Err(TokenError::Random(x)) && x == e,
        },
{
    match drawn {
        Ok(bytes) => Ok(encode_token_bytes(bytes.as_slice())),
        Err(e) => Err(TokenError::Random(e)),
    }
}

/// A token of `n` random bytes, URL-safe base64 without padding. It fails
/// only when the random source does.
fn random_encoded(n: usize) -> (r: Result<String, TokenError>)
    requires
        n <= 1024,
    ensures
        r matches Ok(t) ==> exists|b: Seq<u8>| #[trigger] b.len() == n && t@ == base64_url_unpadded(b),
        r matches Ok(t) ==> t@.len() == (4 * n + 2) / 3,
        r matches Ok(t) ==> forall|i: int| 0 <= i < t@.len() ==> url_safe_char(#[trigger] t@[i]),
        r matches Err(e) ==> e is Random,
{
    let drawn = random_bytes(n);
    assert(drawn matches Ok(b) ==> b@.len() == n);
    token_from_random(drawn)
}

/// A fresh runner token: 32 random bytes, URL-safe base64 without padding,
/// so 43 characters of that alphabet.
pub fn random_token() -> (r: Result<String, TokenError>)
    ensures
        r matches Ok(t) ==> exists|b: Seq<u8>| #[trigger] b.len() == 32 && t@ == base64_url_unpadded(b),
        r matches Ok(t) ==> t@.len() == 43,
        r matches Ok(t) ==> forall|i: int| 0 <= i < t@.len() ==> url_safe_char(#[trigger] t@[i]),
        r matches Err(e) ==> e is Random,
{
    random_encoded(32)
}

/// A fresh share token for a problem URL: 16 random bytes, URL-safe base64
/// without padding, so 22 characters of that alphabet.
pub fn random_share_token() -> (r: Result<String, TokenError>)
    ensures
        r matches Ok(t) ==> exists|b: Seq<u8>| #[trigger] b.len() == 16 && t@ == base64_url_unpadded(b),
        r matches Ok(t) ==> t@.len() == 22,
        r matches Ok(t) ==> forall|i: int| 0 <= i < t@.len() ==> url_safe_char(#[trigger] t@[i]),
        r matches Err(e) ==> e is Random,
{
    random_encoded(16)
}

/// Whether argon2 verification accepts `password` against the PHC string
/// `phc`.
pub uninterp spec fn argon2_accepts(password: Seq<u8>, phc: Seq<char>) -> bool;

/// The PHC string argon2 (default parameters) makes of a password and a
/// salt.
pub uninterp spec fn argon2_phc(password: Seq<u8>, salt: Seq<u8>) -> Seq<char>;

/// `SaltString::encode_b64` of the 16 salt bytes, then
/// `Argon2::default().hash_password`, rendered as a PHC string: a function
/// of the password and the salt alone, named `argon2_phc`. What is also
/// stated is that verification accepts the password against it, and that it
/// succeeds exactly when the password is at most `MAX_PWD_LEN` (2^32 - 1)
/// bytes: 16 salt bytes always encode (22 characters, within the salt's
/// limits), and with the default parameters the password's length is the
/// only input that `hash_password` checks against a limit. The string
/// begins `$argon2id` (the PHC separator, then the default algorithm's
/// identifier).
#[verifier::external_body]
fn argon2_hash_with_salt(password: &[u8], salt: &[u8]) -> (r: Result<
    String,
    argon2::password_hash::Error,
>)
    requires
        salt@.len() == 16,
    ensures
        r matches Ok(phc) ==> phc@ == argon2_phc(password@, salt@),
        r matches Ok(phc) ==> argon2_accepts(password@, phc@),
        r matches Ok(phc) ==> phc@.len() >= 9 && phc@.take(9) == "$argon2id"@,
        r is Ok <==> password@.len() <= 0xFFFF_FFFF,
{
    let salt = SaltString::encode_b64(salt)?;
    Argon2::default().hash_password(password, &salt).map(|h| h.to_string())
}

/// `PasswordHash::new` then `Argon2::default().verify_password`: whether the
/// PHC string parses and verification accepts the password against it. A
/// string that is empty or does not begin with the `$` separator does not
/// parse, so it verifies nothing.
#[verifier::external_body]
fn argon2_verify(password: &[u8], phc: &str) -> (r: bool)
    ensures
        r == argon2_accepts(password@, phc@),
        phc@.len() == 0 || phc@[0] != '$' ==> !r,
{
    match PasswordHash::new(phc) {
        Ok(parsed) => Argon2::default().verify_password(password, &parsed).is_ok(),
        Err(_) => false,
    }
}

/// `std::str::from_utf8`: the text the bytes encode, when they are UTF-8.
#[verifier::external_body]
fn utf8_text(bytes: &[u8]) -> (r: Option<&str>)
    ensures
        r is Some == valid_utf8(bytes@),
        r matches Some(s) ==> s@ == decode_utf8(bytes@),
{
    std::str::from_utf8(bytes).ok()
}

/// Whether `hash` is the UTF-8 of a PHC string that verifies `token`.
pub open spec fn token_verifies(token: Seq<char>, hash: Seq<u8>) -> bool {
    valid_utf8(hash) && argon2_accepts(encode_utf8(token), decode_utf8(hash))
}

fn copy_bytes(b: &[u8]) -> (r: Vec<u8>)
    ensures
        r@ == b@,
{
    let mut r: Vec<u8> = Vec::new();
    for i in 0..b.len()
        invariant
            r@ == b@.take(i as int),
    {
        r.push(b[i]);
        assert(b@.take(i + 1) == b@.take(i as int).push(b@[i as int]));
    }
    assert(b@.take(b@.len() as int) == b@);
    r
}

/// The stored form of a token, given the salt drawn from the random source:
/// the UTF-8 of its argon2 PHC string, or the source's error. With a salt,
/// hashing fails only for a token of more than 2^32 - 1 bytes, and a token
/// always verifies against its own stored form.
pub fn hash_with_drawn_salt(token: &str, drawn: Result<Vec<u8>, getrandom::Error>) -> (r: Result<
    Vec<u8>,
    TokenError,
>)
    requires
        drawn matches Ok(salt) ==> salt@.len() == 16,
    ensures
        match drawn {
            Err(e) => r matches Err(TokenError::Random(x)) && x == e,
            Ok(salt) => (r is Ok <==> encode_utf8(token@).len() <= 0xFFFF_FFFF) && (r matches Err(
                e,
            ) ==> e is Hash) && (r matches Ok(h) ==> h@ == encode_utf8(
                argon2_phc(encode_utf8(token@), salt@),
            )),
        },
        r matches Ok(h) ==> token_verifies(token@, h@),
        r matches Ok(h) ==> decode_utf8(h@).len() >= 9 && decode_utf8(h@).take(9)
            == "$argon2id"@,
{
    let salt = match drawn {
        Ok(s) => s,
        Err(e) => return Err(TokenError::Random(e)),
    };
    match argon2_hash_with_salt(token.as_bytes(), salt.as_slice()) {
        Ok(phc) => {
            let h = copy_bytes(phc.as_str().as_bytes());
            proof {
                vstd::utf8::encode_utf8_valid_utf8(phc@);
                vstd::utf8::encode_utf8_decode_utf8(phc@);
            }
            Ok(h)
        },
        Err(e) => Err(TokenError::Hash(e)),
    }
}

/// The stored form of a token: the UTF-8 of its argon2 PHC string, salted
/// with 16 bytes from the random source. A token always verifies against its
/// own stored form. Hashing fails when the random source does, or for a
/// token of more than 2^32 - 1 bytes.
pub fn hash_token(token: &str) -> (r: Result<Vec<u8>, TokenError>)
    ensures
        r matches Ok(h) ==> token_verifies(token@, h@),
        r matches Ok(h) ==> decode_utf8(h@).len() >= 9 && decode_utf8(h@).take(9)
            == "$argon2id"@,
        encode_utf8(token@).len() > 0xFFFF_FFFF ==> r is Err,
        r matches Err(e) ==> (e is Random || (e is Hash && encode_utf8(token@).len()
            > 0xFFFF_FFFF)),
{
    let drawn = random_bytes(16);
    hash_with_drawn_salt(token, drawn)
}

/// Whether `token` verifies against the stored hash.
pub fn verify_token(token: &str, hash_bytes: &[u8]) -> (r: bool)
    ensures
        r == token_verifies(token@, hash_bytes@),
        r ==> decode_utf8(hash_bytes@).len() > 0 && decode_utf8(hash_bytes@)[0] == '$',
{
    match utf8_text(hash_bytes) {
        Some(s) => argon2_verify(token.as_bytes(), s),
        None => false,
    }
}

/// Whether every character is ASCII.
pub open spec fn ascii(s: Seq<char>) -> bool {
    forall|i: int| 0 <= i < s.len() ==> (#[trigger] s[i] as u32) < 128
}

/// The lookup prefix of a token: its first eight characters.
pub fn token_prefix(token: &str) -> (p: String)
    requires
        ascii(token@),
        token@.len() >= 8,
    ensures
        p@ == token@.take(8),
{
    let cs = chars_of(token);
    let mut head: Vec<char> = Vec::new();
    for i in 0..8
        invariant
            cs@ == token@,
            cs@.len() >= 8,
            head@ == cs@.take(i as int),
    {
        head.push(cs[i]);
        assert(cs@.take(i + 1) == cs@.take(i as int).push(cs@[i as int]));
    }
    string_of(head.as_slice())
}

/// The bearer token of an `Authorization` header value: what follows
/// `Bearer `, when that is at least eight characters long.
pub open spec fn bearer_of(h: Seq<char>) -> Option<Seq<char>> {
    if h.len() >= 7 && h.take(7) == "Bearer "@ && h.len() - 7 >= 8 {
        Some(h.skip(7))
    } else {
        None
    }
}

/// The bearer token of an `Authorization` header value. Header values are
/// ASCII (`HeaderValue::to_str` admits nothing else), so characters and
/// bytes count alike.
pub fn bearer_token(header: Option<&str>) -> (r: Option<String>)
    requires
        header matches Some(h) ==> ascii(h@),
    ensures
        match header {
            Some(h) => match bearer_of(h@) {
                Some(t) => r matches Some(x) && x@ == t,
                None => r is None,
            },
            None => r is None,
        },
{
    let h = match header {
        Some(h) => h,
        None => return None,
    };
    let cs = chars_of(h);
    let prefix = chars_of("Bearer ");
    proof {
        reveal_strlit("Bearer ");
    }
    if cs.len() < 7 || prefix.len() != 7 {
        return None;
    }
    let mut i: usize = 0;
    while i < 7
        invariant
            header == Some(h),
            cs@ == h@,
            prefix@ == "Bearer "@,
            prefix@.len() == 7,
            cs@.len() >= 7,
            i <= 7,
            forall|k: int| 0 <= k < i ==> cs@[k] == prefix@[k],
        decreases 7 - i,
    {
        if cs[i] != prefix[i] {
            assert(h@.take(7)[i as int] != "Bearer "@[i as int]);
            assert(h@.take(7) != "Bearer "@);
            return None;
        }
        i = i + 1;
    }
    assert(h@.take(7) =~= "Bearer "@);
    if cs.len() - 7 < 8 {
        return None;
    }
    let mut rest: Vec<char> = Vec::new();
    let mut j: usize = 7;
    while j < cs.len()
        invariant
            cs@ == h@,
            7 <= j <= cs@.len(),
            rest@ == cs@.subrange(7, j as int),
        decreases cs@.len() - j,
    {
        rest.push(cs[j]);
        assert(cs@.subrange(7, j + 1) == cs@.subrange(7, j as int).push(cs@[j as int]));
        j = j + 1;
    }
    assert(rest@ =~= h@.skip(7));
    Some(string_of(rest.as_slice()))
}

/// Why a runner is refused.
#[derive(Debug, PartialEq, Eq, Structural)]
pub enum RunnerAuthFailure {
    /// The token was revoked.
    Revoked,
    /// The token does not verify against the stored hash.
    BadToken,
    /// The token is bound to another device than the one claimed.
    DeviceMismatch,
}

/// Admits or refuses a runner whose token matched a stored runner by
/// prefix, checking in turn revocation, the token, and the device.
pub fn authorize_runner(auth: &RunnerAuth, token: &str, device_id: &str) -> (r: Result<
    (),
    RunnerAuthFailure,
>)
    ensures
        auth.revoked_at is Some ==> r == Err::<(), RunnerAuthFailure>(RunnerAuthFailure::Revoked),
        auth.revoked_at is None && !token_verifies(token@, encode_utf8(auth.token_hash@)) ==> r
            == Err::<(), RunnerAuthFailure>(RunnerAuthFailure::BadToken),
        auth.revoked_at is None && token_verifies(token@, encode_utf8(auth.token_hash@))
            && auth.device_id@ != device_id@ ==> r == Err::<(), RunnerAuthFailure>(
            RunnerAuthFailure::DeviceMismatch,
        ),
        r is Ok <==> (auth.revoked_at is None && token_verifies(token@, encode_utf8(auth.token_hash@))
            && auth.device_id@ == device_id@),
{
    if auth.revoked_at.is_some() {
        return Err(RunnerAuthFailure::Revoked);
    }
    if !verify_token(token, auth.token_hash.as_str().as_bytes()) {
        return Err(RunnerAuthFailure::BadToken);
    }
    if !str_eq(auth.device_id.as_str(), device_id) {
        return Err(RunnerAuthFailure::DeviceMismatch);
    }
    Ok(())
}

/// The checks on a new runner: a device and a label are required.
pub fn validate_new_runner(device_id: &str, label: &str) -> (r: Result<(), Rejection>)
    ensures
        (device_id@.len() == 0 || label@.len() == 0) ==> (r matches Err(e) && rejected(
            e,
            400,
            "device_id and label are required"@,
        )),
        (device_id@.len() > 0 && label@.len() > 0) ==> r is Ok,
{
    if device_id.is_empty() || label.is_empty() {
        return Err(reject(400, "device_id and label are required"));
    }
    Ok(())
}

/// The checks on a device registration: a non-empty id and a positive clock.
pub fn validate_new_device(id: &str, cclk_hz: i64) -> (r: Result<(), Rejection>)
    ensures
        (id@.len() == 0 || cclk_hz <= 0) ==> (r matches Err(e) && rejected(
            e,
            400,
            "id must be non-empty and cclk_hz > 0"@,
        )),
        (id@.len() > 0 && cclk_hz > 0) ==> r is Ok,
{
    if id.is_empty() || cclk_hz <= 0 {
        return Err(reject(400, "id must be non-empty and cclk_hz > 0"));
    }
    Ok(())
}

/// The credentials a runner presents: its bearer token and the device it
/// claims (which must not be empty). Header values are ASCII.
pub fn runner_credentials(authorization: Option<&str>, device_header: Option<&str>) -> (r: Option<
    (String, String),
>)
    requires
        authorization matches Some(h) ==> ascii(h@),
    ensures
        match (authorization, device_header) {
            (Some(h), Some(d)) => match bearer_of(h@) {
                Some(t) => if d@.len() > 0 {
                    r matches Some(c) && c.0@ == t && c.1@ == d@
                } else {
                    r is None
                },
                None => r is None,
            },
            (Some(h), None) => r is None,
            (None, _) => r is None,
        },
{
    let token = match bearer_token(authorization) {
        Some(t) => t,
        None => return None,
    };
    match device_header {
        Some(d) => {
            if d.is_empty() {
                None
            } else {
                Some((token, d.to_owned()))
            }
        },
        None => None,
    }
}

/// A bearer token's lookup prefix, when it is long enough to have one.
pub fn lookup_prefix(token: &str) -> (p: Option<String>)
    requires
        ascii(token@),
    ensures
        token@.len() >= 8 ==> (p matches Some(x) && x@ == token@.take(8)),
        token@.len() < 8 ==> p is None,
{
    let cs = chars_of(token);
    if cs.len() < 8 {
        None
    } else {
        Some(token_prefix(token))
    }
}

/// The credentials of a new runner: a fresh token (returned to the admin
/// once), its stored hash, and its lookup prefix.
pub struct RunnerCredentials {
    pub token: String,
    pub hash: Vec<u8>,
    pub prefix: String,
}

/// Mints the credentials of a new runner. The token verifies against its
/// hash and the prefix is the token's first eight characters. It fails only
/// when the random source does: hashing a 43-character token cannot fail.
pub fn mint_runner_credentials() -> (r: Result<RunnerCredentials, TokenError>)
    ensures
        r matches Ok(c) ==> token_verifies(c.token@, c.hash@) && c.prefix@ == c.token@.take(8)
            && c.token@.len() == 43,
        r matches Ok(c) ==> c.hash@ != encode_utf8(c.token@),
        r matches Err(e) ==> e is Random,
{
    let token = match random_token() {
        Ok(t) => t,
        Err(e) => return Err(e),
    };
    proof {
        assert(vstd::utf8::is_ascii_chars(token@)) by {
            assert forall|i: int| 0 <= i < token@.len() implies '\0' <= #[trigger] token@[i]
                <= '\u{7f}' by {
                assert(url_safe_char(token@[i]));
            }
        }
        vstd::utf8::is_ascii_chars_encode_utf8(token@);
    }
    let hash = match hash_token(token.as_str()) {
        Ok(h) => h,
        Err(e) => return Err(e),
    };
    proof {
        assert forall|i: int| 0 <= i < token@.len() implies (#[trigger] token@[i] as u32) < 128 by {
            assert(url_safe_char(token@[i]));
        }
        reveal_strlit("$argon2id");
        vstd::utf8::encode_utf8_decode_utf8(token@);
        if hash@ == encode_utf8(token@) {
            assert(decode_utf8(hash@)[0] == decode_utf8(hash@).take(9)[0]);
            assert(token@[0] == '$');
            assert(url_safe_char(token@[0]));
        }
    }
    let prefix = token_prefix(token.as_str());
    Ok(RunnerCredentials { token, hash, prefix })
}

} // verus!
