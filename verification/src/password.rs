//! Salted, memory-hard password hashes: deriving one from a password, and
//! checking a password against a stored one.
//!
//! The hash is an Argon2id PHC string, which carries the algorithm, its
//! parameters, the salt and the digest. Argon2 itself is not verified
//! here; what this module proves is how its answers are classified, that
//! a hash it hands out verifies for the password it was made from, and
//! that every password that Argon2 takes gets a hash.

use vstd::prelude::*;
use vstd::utf8::encode_utf8;
use argon2::Argon2;
use argon2::password_hash::PasswordHash;
use argon2::password_hash::PasswordHasher;
use argon2::password_hash::PasswordVerifier;
use argon2::password_hash::SaltString;
use argon2::password_hash::rand_core::OsRng;
use crate::error::AuthError;

verus! {

/// `argon2::password_hash::Error`, the error of hashing, parsing and
/// verifying. Nothing is read from it.
#[verifier::external_type_specification]
#[verifier::external_body]
pub struct ExPasswordHashError(argon2::password_hash::Error);

/// The PHC string that Argon2id with its default parameters derives from
/// `password` under the salt whose text is `salt`, or `None` where it
/// derives none: where `salt` is not the text of a salt, or Argon2 refuses
/// the salt or the password.
pub uninterp spec fn argon2_hashed(password: Seq<char>, salt: Seq<char>) -> Option<Seq<char>>;

/// Whether `hash` parses as a PHC string.
pub uninterp spec fn phc_parses(hash: Seq<char>) -> bool;

/// Whether Argon2 accepts `password` for the PHC string `hash`: whether
/// the digest it derives from `password` with the algorithm, parameters and
/// salt in `hash` is the digest in `hash`. Meaningful where `hash` parses.
pub uninterp spec fn argon2_accepts(password: Seq<char>, hash: Seq<char>) -> bool;

/// Whether `byte` is an ASCII digit.
pub open spec fn is_ascii_digit(byte: u8) -> bool {
    0x30 <= byte && byte <= 0x39
}

/// Whether `p=` and nine digits stand at position `at` of `bytes`.
pub open spec fn oversized_parallelism_at(bytes: Seq<u8>, at: int) -> bool {
    &&& 0 <= at
    &&& at + 11 <= bytes.len()
    &&& bytes[at] == 0x70
    &&& bytes[at + 1] == 0x3d
    &&& is_ascii_digit(bytes[at + 2])
    &&& is_ascii_digit(bytes[at + 3])
    &&& is_ascii_digit(bytes[at + 4])
    &&& is_ascii_digit(bytes[at + 5])
    &&& is_ascii_digit(bytes[at + 6])
    &&& is_ascii_digit(bytes[at + 7])
    &&& is_ascii_digit(bytes[at + 8])
    &&& is_ascii_digit(bytes[at + 9])
    &&& is_ascii_digit(bytes[at + 10])
}

/// Whether `hash` names a parallelism of nine or more digits: whether
/// `p=` followed by nine digits stands anywhere in its UTF-8 text. Argon2
/// takes a parallelism of at most 2^24 - 1, which has eight digits, so no
/// password matches such a hash; and on some of them Argon2 does not
/// return, so they are never handed to it.
pub open spec fn has_oversized_parallelism(hash: Seq<char>) -> bool {
    exists|at: int| oversized_parallelism_at(encode_utf8(hash), at)
}

/// Whether `c` may stand in the text of a salt: a letter, a digit, or one
/// of `/`, `+`, `.` and `-`.
pub open spec fn is_salt_char(c: char) -> bool {
    ||| ('a' <= c && c <= 'z')
    ||| ('A' <= c && c <= 'Z')
    ||| ('0' <= c && c <= '9')
    ||| c == '/'
    ||| c == '+'
    ||| c == '.'
    ||| c == '-'
}

/// Whether `hash` is a PHC string of Argon2id with its default parameters
/// that carries the salt text `salt`: the fixed head, the salt, a `$`, and
/// the digest.
pub open spec fn carries_salt(hash: Seq<char>, salt: Seq<char>) -> bool {
    &&& forall|i: int| 0 <= i < salt.len() ==> is_salt_char(#[trigger] salt[i])
    &&& exists|digest: Seq<char>|
        hash == #[trigger] phc_text("$argon2id$v=19$m=19456,t=2,p=1$"@, salt, digest)
}

/// The PHC string made of `head`, `salt` and `digest`.
pub open spec fn phc_text(head: Seq<char>, salt: Seq<char>, digest: Seq<char>) -> Seq<char> {
    head + salt + seq!['$'] + digest
}

/// Whether `password` is short enough for Argon2: at most 2^32 - 1 bytes
/// in UTF-8.
pub open spec fn password_fits(password: Seq<char>) -> bool {
    encode_utf8(password).len() <= 0xFFFF_FFFF
}

/// What hashing `password` under `salt` comes to: the derived string, or
/// `HashingFailed` where Argon2 derives none.
pub open spec fn hashing(password: Seq<char>, salt: Seq<char>) -> Result<Seq<char>, AuthError> {
    match argon2_hashed(password, salt) {
        Some(hash) => Ok(hash),
        None => Err(AuthError::HashingFailed),
    }
}

/// Whether `outcome` is what hashing `password` under `salt` comes to.
pub open spec fn hashed_under(
    password: Seq<char>,
    salt: Seq<char>,
    outcome: Result<String, AuthError>,
) -> bool {
    match hashing(password, salt) {
        Ok(hash) => outcome matches Ok(derived) && derived@ == hash,
        Err(e) => outcome == Err::<String, AuthError>(e),
    }
}

/// What checking `password` against the stored `hash` comes to: an error
/// where the hash cannot be parsed, a mismatch where it names a
/// parallelism beyond anything Argon2 takes, else whether Argon2 accepts
/// the password.
pub open spec fn verification(password: Seq<char>, hash: Seq<char>) -> Result<bool, AuthError> {
    if !phc_parses(hash) {
        Err(AuthError::MalformedHash)
    } else if has_oversized_parallelism(hash) {
        Ok(false)
    } else {
        Ok(argon2_accepts(password, hash))
    }
}

/// Draws a fresh random salt with `SaltString::generate` from the
/// operating system's generator, and hands out its text. The salt is
/// sixteen random bytes in the encoding of PHC strings, which Argon2 takes
/// as a salt; so under it Argon2 derives a hash for every password that
/// is not too long.
#[verifier::external_body]
fn random_salt() -> (salt: String)
    ensures
        forall|password: Seq<char>|
            password_fits(password) ==> (#[trigger] argon2_hashed(password, salt@)) is Some,
{
    SaltString::generate(&mut OsRng).as_str().to_owned()
}

/// Reads the salt with `SaltString::from_b64`, hashes with
/// `Argon2::default().hash_password` and renders the result as a PHC
/// string. The result depends on the password and the salt alone. A
/// string that comes back is `$argon2id$v=19$m=19456,t=2,p=1$`, the salt
/// text as it was given, `$`, and the digest; the salt reader takes only
/// the characters of [`is_salt_char`]. The string parses with
/// `PasswordHash::new`, and `verify_password` accepts `password` for it:
/// verification derives the digest again from the parameters and salt that
/// the string carries. Its one `p=` is followed by a single digit.
#[verifier::external_body]
fn argon2_hash(password: &str, salt: &str) -> (derived: Result<
    String,
    argon2::password_hash::Error,
>)
    ensures
        match argon2_hashed(password@, salt@) {
            Some(hash) => derived matches Ok(text) && text@ == hash,
            None => derived is Err,
        },
        derived matches Ok(hash) ==> phc_parses(hash@) && argon2_accepts(password@, hash@),
        derived matches Ok(hash) ==> carries_salt(hash@, salt@) && !has_oversized_parallelism(
            hash@,
        ),
{
    let salt = SaltString::from_b64(salt)?;
    Ok(Argon2::default().hash_password(password.as_bytes(), &salt)?.to_string())
}

/// Parses `hash` with `PasswordHash::new` and drops what was parsed.
#[verifier::external_body]
fn phc_parse(hash: &str) -> (parsed: Result<(), argon2::password_hash::Error>)
    ensures
        (parsed is Ok) == phc_parses(hash@),
{
    match PasswordHash::new(hash) {
        Ok(_) => Ok(()),
        Err(e) => Err(e),
    }
}

/// Parses `hash` with `PasswordHash::new`, then checks `password`
/// against it with `Argon2::default().verify_password`. The outer error
/// is the parser's; the inner result is the check's.
///
/// Argon2 multiplies the parallelism by eight in 32 bits before it tests
/// its range, which overflows from 2^29 on. Such a parallelism has nine
/// digits or more, so those hashes are left out.
#[verifier::external_body]
fn argon2_verify(password: &str, hash: &str) -> (checked: Result<
    Result<(), argon2::password_hash::Error>,
    argon2::password_hash::Error,
>)
    requires
        !has_oversized_parallelism(hash@),
    ensures
        (checked is Ok) == phc_parses(hash@),
        checked matches Ok(accepted) ==> (accepted is Ok) == argon2_accepts(password@, hash@),
{
    let parsed = PasswordHash::new(hash)?;
    Ok(Argon2::default().verify_password(password.as_bytes(), &parsed))
}

/// Classifies what the hasher returned: the hash string as it is, and any
/// failure as `HashingFailed`.
pub fn hashing_outcome(derived: Result<String, argon2::password_hash::Error>) -> (outcome: Result<
    String,
    AuthError,
>)
    ensures
        match derived {
            Ok(hash) => outcome matches Ok(kept) && kept@ == hash@,
            Err(_) => outcome == Err::<String, AuthError>(AuthError::HashingFailed),
        },
{
    match derived {
        Ok(hash) => Ok(hash),
        Err(_) => Err(AuthError::HashingFailed),
    }
}

/// Classifies what the verifier returned. A hash that does not parse is an
/// error of its own; a password that is not accepted, for whatever reason,
/// is a plain mismatch.
pub fn verification_outcome(
    checked: Result<Result<(), argon2::password_hash::Error>, argon2::password_hash::Error>,
) -> (outcome: Result<bool, AuthError>)
    ensures
        outcome == match checked {
            Ok(accepted) => Ok::<bool, AuthError>(accepted is Ok),
            Err(_) => Err(AuthError::MalformedHash),
        },
{
    match checked {
        Ok(Ok(())) => Ok(true),
        Ok(Err(_)) => Ok(false),
        Err(_) => Err(AuthError::MalformedHash),
    }
}

/// Derives the hash of `password` under the salt whose text is `salt`.
///
/// The outcome is fixed by the two arguments: the string that Argon2
/// derives, or `HashingFailed` where it derives none, as for a text that
/// is no salt. A hash that comes back carries the salt and verifies for
/// `password`.
pub fn hash_password_with_salt(password: &str, salt: &str) -> (outcome: Result<String, AuthError>)
    ensures
        hashed_under(password@, salt@, outcome),
        outcome matches Ok(hash) ==> carries_salt(hash@, salt@),
        outcome matches Ok(hash) ==> verification(password@, hash@) == Ok::<bool, AuthError>(true),
{
    hashing_outcome(argon2_hash(password, salt))
}

/// Derives a salted hash of `password` under a fresh random salt.
///
/// Every password of at most 2^32 - 1 bytes gets a hash; the only error
/// is `HashingFailed`. The hash is what Argon2 derives from the password
/// under some salt, it carries that salt, and it verifies for `password`.
/// Two calls on the same password draw two salts, so no clause says which
/// string comes back; the two strings differ where the salts do.
pub fn hash_password(password: &str) -> (outcome: Result<String, AuthError>)
    ensures
        exists|salt: Seq<char>| #[trigger]
            hashed_under(password@, salt, outcome) && (outcome matches Ok(hash) ==> carries_salt(
                hash@,
                salt,
            )),
        password_fits(password@) ==> outcome is Ok,
        match outcome {
            Ok(hash) => verification(password@, hash@) == Ok::<bool, AuthError>(true),
            Err(e) => e == AuthError::HashingFailed,
        },
{
    let salt = random_salt();
    let outcome = hash_password_with_salt(password, salt.as_str());
    assert(hashed_under(password@, salt@, outcome) && (outcome matches Ok(hash) ==> carries_salt(
        hash@,
        salt@,
    )));
    outcome
}

/// Looks for `p=` followed by nine digits in `hash`.
pub fn names_oversized_parallelism(hash: &str) -> (found: bool)
    ensures
        found == has_oversized_parallelism(hash@),
{
    let bytes = hash.as_bytes();
    let n = bytes.len();
    if n < 11 {
        return false;
    }
    let mut at: usize = 0;
    while at <= n - 11
        invariant
            bytes@ == encode_utf8(hash@),
            n == bytes.len(),
            n >= 11,
            at <= n - 10,
            forall|earlier: int| 0 <= earlier < at ==> !oversized_parallelism_at(bytes@, earlier),
        decreases n - at,
    {
        if bytes[at] == 0x70 && bytes[at + 1] == 0x3d && digit(bytes[at + 2]) && digit(
            bytes[at + 3],
        ) && digit(bytes[at + 4]) && digit(bytes[at + 5]) && digit(bytes[at + 6]) && digit(
            bytes[at + 7],
        ) && digit(bytes[at + 8]) && digit(bytes[at + 9]) && digit(bytes[at + 10]) {
            assert(oversized_parallelism_at(bytes@, at as int));
            return true;
        }
        at += 1;
    }
    false
}

/// Whether `byte` is an ASCII digit.
fn digit(byte: u8) -> (yes: bool)
    ensures
        yes == is_ascii_digit(byte),
{
    0x30 <= byte && byte <= 0x39
}

/// Checks `password` against a stored `hash`.
///
/// Returns `Ok(true)` where the password matches, `Ok(false)` where it
/// does not, and `MalformedHash` where `hash` is no PHC string. A hash
/// that names a parallelism of nine or more digits matches no password;
/// Argon2 is not asked about it.
pub fn verify_password(password: &str, hash: &str) -> (outcome: Result<bool, AuthError>)
    ensures
        outcome == verification(password@, hash@),
{
    if names_oversized_parallelism(hash) {
        match phc_parse(hash) {
            Ok(_) => Ok(false),
            Err(_) => Err(AuthError::MalformedHash),
        }
    } else {
        verification_outcome(argon2_verify(password, hash))
    }
}

/// A PHC string carries one salt: the salt ends at the first `$` behind the
/// fixed head, and no salt holds a `$`.
pub proof fn lemma_hash_carries_one_salt(hash: Seq<char>, salt: Seq<char>, other: Seq<char>)
    requires
        carries_salt(hash, salt),
        carries_salt(hash, other),
    ensures
        salt == other,
{
    let head = "$argon2id$v=19$m=19456,t=2,p=1$"@;
    let digest = choose|digest: Seq<char>| hash == #[trigger] phc_text(head, salt, digest);
    let other_digest = choose|digest: Seq<char>| hash == #[trigger] phc_text(head, other, digest);
    let after = head.len() as int;
    assert forall|i: int| 0 <= i < salt.len() implies hash[after + i] == salt[i] by {}
    assert forall|i: int| 0 <= i < other.len() implies hash[after + i] == other[i] by {}
    assert(hash[after + salt.len()] == '$');
    assert(hash[after + other.len()] == '$');
    if salt.len() < other.len() {
        assert(is_salt_char(other[salt.len() as int]));
    } else if other.len() < salt.len() {
        assert(is_salt_char(salt[other.len() as int]));
    }
    assert(salt =~= other);
}

/// Two hashes made under two salts differ, whatever the passwords. So two
/// hashes of one password are the same string only where the same salt was
/// drawn twice.
pub proof fn lemma_two_salts_give_two_hashes(
    first: Seq<char>,
    first_salt: Seq<char>,
    second: Seq<char>,
    second_salt: Seq<char>,
)
    requires
        carries_salt(first, first_salt),
        carries_salt(second, second_salt),
        first_salt != second_salt,
    ensures
        first != second,
{
    if first == second {
        lemma_hash_carries_one_salt(first, first_salt, second_salt);
    }
}

/// A password other than the one a hash was made from is a plain
/// mismatch, never an error: where the hash verifies for `password` and
/// Argon2 does not derive the same digest from `other`, checking `other`
/// gives `Ok(false)`.
pub proof fn lemma_other_password_is_a_plain_mismatch(
    password: Seq<char>,
    other: Seq<char>,
    hash: Seq<char>,
)
    requires
        verification(password, hash) == Ok::<bool, AuthError>(true),
        !argon2_accepts(other, hash),
    ensures
        verification(other, hash) == Ok::<bool, AuthError>(false),
{
}

/// Against a hash that verifies for some password, no password gives an
/// error: the check answers `true` or `false`.
pub proof fn lemma_verifying_hash_never_gives_an_error(
    password: Seq<char>,
    other: Seq<char>,
    hash: Seq<char>,
)
    requires
        verification(password, hash) == Ok::<bool, AuthError>(true),
    ensures
        verification(other, hash) is Ok,
{
}

} // verus!
