//! Hashing of six digit PINs with Argon2, and checking a PIN against a
//! stored hash.
use vstd::prelude::*;
use argon2::password_hash::rand_core::OsRng;
use argon2::password_hash::{Error as PasswordHashError, PasswordHash, PasswordHasher, PasswordVerifier, Salt, SaltString};
use argon2::Argon2;
use vstd::utf8::{encode_scalar, encode_utf8};
use crate::errors::ErrorMessage;
use crate::qr::base64_text;

verus! {

pub const MAX_PIN_LENGTH: usize = 6;
pub const MIN_PIN_LENGTH: usize = 6;

/// Whether `PasswordHash::new` accepts `s` as a PHC string.
pub uninterp spec fn phc_parses(s: Seq<char>) -> bool;

/// What Argon2 (default parameters) reports of `pin` against the PHC string
/// `phc`: `Some(true)` where it matches, `Some(false)` where it does not,
/// `None` for any other failure.
pub uninterp spec fn argon2_verify_result(pin: Seq<u8>, phc: Seq<char>) -> Option<bool>;

/// The PHC string Argon2 (default parameters) makes of `pin` with the salt
/// given in base64 as `salt`, or `None` where it fails.
pub uninterp spec fn argon2_phc(pin: Seq<u8>, salt: Seq<char>) -> Option<Seq<char>>;

/// Calls `PasswordHash::new`. Claims only that whether it succeeds is a
/// function of the string, named `phc_parses`.
#[verifier::external_body]
fn phc_string_parses(s: &str) -> (r: bool)
    ensures
        r == phc_parses(s@),
{
    PasswordHash::new(s).is_ok()
}

/// Calls `Argon2::default().verify_password` on `pin` and on `phc` read by
/// `PasswordHash::new`. Claims that the outcome is a function of the two,
/// named `argon2_verify_result`; a mismatch (`Error::Password`) gives
/// `Some(false)`.
#[verifier::external_body]
fn argon2_verify(pin: &[u8], phc: &str) -> (r: Option<bool>)
    requires
        phc_parses(phc@),
    ensures
        r == argon2_verify_result(pin@, phc@),
{
    match PasswordHash::new(phc) {
        Ok(h) => match Argon2::default().verify_password(pin, &h) {
            Ok(()) => Some(true),
            Err(PasswordHashError::Password) => Some(false),
            Err(_) => None,
        },
        Err(_) => None,
    }
}

/// The "B64" alphabet of PHC strings: standard base64 symbols.
pub const B64_ALPHABET: &'static str = "ABCDEFGHIJKLMNOPQRSTUVWXYZabcdefghijklmnopqrstuvwxyz0123456789+/";

/// A salt as `SaltString::generate` writes one: the unpadded B64 text of
/// sixteen bytes.
pub open spec fn salt_of_16_bytes(s: Seq<char>) -> bool {
    exists|b: Seq<u8>| b.len() == 16 && s == base64_text(B64_ALPHABET@, false, b)
}

/// Calls `SaltString::generate` with the operating system's random source.
/// Claims only what its source shows of every outcome: sixteen random bytes
/// written in unpadded B64. Which bytes is left open.
#[verifier::external_body]
fn fresh_salt() -> (r: String)
    ensures
        salt_of_16_bytes(r@),
{
    SaltString::generate(&mut OsRng).as_str().to_string()
}

/// A PHC string of the Argon2id algorithm: it begins with `$argon2id$`.
pub open spec fn is_argon2id_phc(h: Seq<char>) -> bool {
    "$argon2id$"@.is_prefix_of(h)
}

/// Calls `Argon2::default().hash_password` on `pin` with the salt read by
/// `Salt::from_b64`, and writes the hash as a PHC string. Claims that the
/// outcome is a function of the two, named `argon2_phc`; that the string
/// names the default algorithm, Argon2id, first (as `PasswordHash`'s
/// `Display` writes it); and, as the crate documents, that the string parses
/// and verifies `pin`. Claims too that it succeeds for a salt of sixteen
/// bytes in B64 and a PIN of at most `u32::MAX` bytes: `Salt::from_b64` takes
/// 4 to 64 B64 characters, and `Argon2::hash_password` with the default
/// parameters fails only for a salt under 8 bytes or a longer password.
#[verifier::external_body]
fn argon2_hash(pin: &[u8], salt: &str) -> (r: Option<String>)
    ensures
        salt_of_16_bytes(salt@) && pin@.len() <= 0xffff_ffff ==> r is Some,
        r matches Some(h) ==> argon2_phc(pin@, salt@) == Some(h@),
        r is None ==> argon2_phc(pin@, salt@) is None,
        r matches Some(h) ==> is_argon2id_phc(h@),
        r matches Some(h) ==> phc_parses(h@) && argon2_verify_result(pin@, h@) == Some(true),
{
    let salt = Salt::from_b64(salt).ok()?;
    match Argon2::default().hash_password(pin, salt) {
        Ok(h) => Some(h.to_string()),
        Err(_) => None,
    }
}

/// The length error of a PIN: `None` where it has exactly six bytes.
pub open spec fn pin_length_error(len: nat, too_short: ErrorMessage) -> Option<ErrorMessage> {
    if len == 0 {
        Some(ErrorMessage::EmptyPin)
    } else if len < MIN_PIN_LENGTH {
        Some(too_short)
    } else if len > MAX_PIN_LENGTH {
        Some(ErrorMessage::ExceededMaxPinLength(MAX_PIN_LENGTH))
    } else {
        None
    }
}

/// The outcome of checking `pin` against the stored hash `hashed`.
pub open spec fn pin_compare_outcome(pin: Seq<u8>, hashed: Seq<char>) -> Result<bool, ErrorMessage> {
    match pin_length_error(pin.len(), ErrorMessage::PinTooShort(MIN_PIN_LENGTH)) {
        Some(e) => Err(e),
        None => if !phc_parses(hashed) {
            Err(ErrorMessage::InvalidHashFormat)
        } else {
            match argon2_verify_result(pin, hashed) {
                Some(b) => Ok(b),
                None => Err(ErrorMessage::HashingError),
            }
        },
    }
}

/// Hashes a PIN of exactly six bytes with Argon2id and a fresh random salt;
/// the hash verifies `pin`. Other lengths are refused.
pub fn pin_hash(pin: &[u8]) -> (r: Result<String, ErrorMessage>)
    ensures
        pin_length_error(pin@.len(), ErrorMessage::PasswordTooShort(MIN_PIN_LENGTH)) matches Some(e) ==> r == Err::<String, ErrorMessage>(e),
        pin_length_error(pin@.len(), ErrorMessage::PasswordTooShort(MIN_PIN_LENGTH)) is None ==> r is Ok,
        r matches Ok(h) ==> is_argon2id_phc(h@),
        r matches Ok(h) ==> pin_compare_outcome(pin@, h@) == Ok::<bool, ErrorMessage>(true),
{
    if pin.len() == 0 {
        return Err(ErrorMessage::EmptyPin);
    }
    if pin.len() < MIN_PIN_LENGTH {
        return Err(ErrorMessage::PasswordTooShort(MIN_PIN_LENGTH));
    }
    if pin.len() > MAX_PIN_LENGTH {
        return Err(ErrorMessage::ExceededMaxPinLength(MAX_PIN_LENGTH));
    }
    let salt = fresh_salt();
    proof {
        reveal_strlit("$argon2id$");
    }
    match argon2_hash(pin, salt.as_str()) {
        Some(h) => Ok(h),
        None => Err(ErrorMessage::HashingError),
    }
}

/// Checks a PIN against a stored Argon2 hash: length errors first, then a
/// malformed hash, then the verdict of Argon2.
pub fn pin_compare(pin: &[u8], hashed_pin: &str) -> (r: Result<bool, ErrorMessage>)
    ensures
        r == pin_compare_outcome(pin@, hashed_pin@),
{
    if pin.len() == 0 {
        return Err(ErrorMessage::EmptyPin);
    }
    if pin.len() < MIN_PIN_LENGTH {
        return Err(ErrorMessage::PinTooShort(MIN_PIN_LENGTH));
    }
    if pin.len() > MAX_PIN_LENGTH {
        return Err(ErrorMessage::ExceededMaxPinLength(MAX_PIN_LENGTH));
    }
    if !phc_string_parses(hashed_pin) {
        return Err(ErrorMessage::InvalidHashFormat);
    }
    match argon2_verify(pin, hashed_pin) {
        Some(b) => Ok(b),
        None => Err(ErrorMessage::HashingError),
    }
}

/// The longest password Argon2 takes, in bytes.
pub open spec fn max_password_len() -> nat {
    0xffff_ffff
}

/// `h` is an Argon2id hash that verifies `password`.
pub open spec fn hashes_password(h: Seq<char>, password: Seq<u8>) -> bool {
    is_argon2id_phc(h) && phc_parses(h) && argon2_verify_result(password, h) == Some(true)
}

/// Hashes a password with Argon2id and a fresh random salt. Argon2 takes
/// passwords of up to `u32::MAX` bytes; a longer one is a hashing error.
pub fn hash_password(password: &[u8]) -> (r: Result<String, ErrorMessage>)
    ensures
        password@.len() <= max_password_len() ==> r is Ok,
        r matches Ok(h) ==> hashes_password(h@, password@),
        r matches Err(e) ==> e == ErrorMessage::HashingError,
{
    let salt = fresh_salt();
    match argon2_hash(password, salt.as_str()) {
        Some(h) => Ok(h),
        None => Err(ErrorMessage::HashingError),
    }
}

/// The outcome of checking `password` against the stored hash `hashed`.
pub open spec fn password_compare_outcome(password: Seq<u8>, hashed: Seq<char>) -> Result<bool, ErrorMessage> {
    if !phc_parses(hashed) {
        Err(ErrorMessage::InvalidHashFormat)
    } else {
        match argon2_verify_result(password, hashed) {
            Some(b) => Ok(b),
            None => Err(ErrorMessage::HashingError),
        }
    }
}

/// Checks a password against a stored Argon2 hash: a malformed hash, then
/// the verdict of Argon2.
pub fn compare_password(password: &[u8], hashed: &str) -> (r: Result<bool, ErrorMessage>)
    ensures
        r == password_compare_outcome(password@, hashed@),
{
    if !phc_string_parses(hashed) {
        return Err(ErrorMessage::InvalidHashFormat);
    }
    match argon2_verify(password, hashed) {
        Some(b) => Ok(b),
        None => Err(ErrorMessage::HashingError),
    }
}

/// A text has at least as many bytes in UTF-8 as it has characters.
pub proof fn lemma_utf8_len_at_least_chars(chars: Seq<char>)
    ensures
        encode_utf8(chars).len() >= chars.len(),
    decreases chars.len(),
{
    if chars.len() > 0 {
        lemma_utf8_len_at_least_chars(chars.drop_first());
        assert(encode_scalar(chars[0] as u32).len() >= 1);
    }
}

/// A password verifies against a hash made of it, whatever its length.
pub proof fn password_verifies_against_its_hash(password: Seq<u8>, h: Seq<char>)
    requires
        hashes_password(h, password),
    ensures
        password_compare_outcome(password, h) == Ok::<bool, ErrorMessage>(true),
{
}

/// Checking a password never refuses it for its length: only a malformed
/// hash or a failure of Argon2 is an error, and Argon2's verdict is the answer
/// otherwise.
pub proof fn password_check_ignores_length(password: Seq<u8>, h: Seq<char>)
    ensures
        !phc_parses(h) ==> password_compare_outcome(password, h) == Err::<bool, ErrorMessage>(ErrorMessage::InvalidHashFormat),
        forall|b: bool| phc_parses(h) && argon2_verify_result(password, h) == Some(b)
            ==> password_compare_outcome(password, h) == Ok::<bool, ErrorMessage>(b),
        phc_parses(h) && argon2_verify_result(password, h) is None
            ==> password_compare_outcome(password, h) == Err::<bool, ErrorMessage>(ErrorMessage::HashingError),
{
}

/// A six-byte PIN verifies against a hash made of it.
pub proof fn pin_verifies_against_its_hash(pin: Seq<u8>, h: Seq<char>)
    requires
        pin.len() == 6,
        hashes_password(h, pin),
    ensures
        pin_compare_outcome(pin, h) == Ok::<bool, ErrorMessage>(true),
{
}

/// A PIN is checked against a hash only with exactly six bytes: none is
/// empty, one to five bytes are too short, more than six too long.
pub proof fn pin_check_takes_six_bytes(pin: Seq<u8>, h: Seq<char>)
    ensures
        pin.len() == 0 ==> pin_compare_outcome(pin, h) == Err::<bool, ErrorMessage>(ErrorMessage::EmptyPin),
        1 <= pin.len() < 6 ==> pin_compare_outcome(pin, h) == Err::<bool, ErrorMessage>(ErrorMessage::PinTooShort(6)),
        pin.len() > 6 ==> pin_compare_outcome(pin, h) == Err::<bool, ErrorMessage>(ErrorMessage::ExceededMaxPinLength(6)),
        pin.len() == 6 ==> pin_compare_outcome(pin, h) == password_compare_outcome(pin, h),
{
}

} // verus!
