use argon2::password_hash::Error;
use argon2::password_hash::PasswordHasher;
use argon2::password_hash::SaltString;
use argon2::Argon2;
use backend::error::AuthError;
use backend::password::hash_password;
use backend::password::hash_password_with_salt;
use backend::password::hashing_outcome;
use backend::password::names_oversized_parallelism;
use backend::password::verification_outcome;
use backend::password::verify_password;

/// A known Argon2id hash of `password`, from the reference test vectors.
const KNOWN_HASH: &str =
    "$argon2id$v=19$m=256,t=2,p=1$c29tZXNhbHQ$nf65EOgLrQMR/uIPnA4rEsF5h7TKyQwu9U1bMCHGi/4";

#[test]
fn hashed_password_verifies() {
    let hash = hash_password("secret123").unwrap();
    assert_eq!(verify_password("secret123", &hash), Ok(true));
}

#[test]
fn hashed_password_verifies_for_odd_passwords() {
    for password in ["", " ", "pässwörd", "a much longer password, with punctuation!"] {
        let hash = hash_password(password).unwrap();
        assert_eq!(verify_password(password, &hash), Ok(true));
    }
}

#[test]
fn other_password_does_not_verify() {
    let hash = hash_password("secret123").unwrap();
    assert_eq!(verify_password("secret124", &hash), Ok(false));
    assert_eq!(verify_password("", &hash), Ok(false));
    assert_eq!(verify_password("SECRET123", &hash), Ok(false));
}

#[test]
fn near_misses_are_plain_mismatches() {
    let hash = hash_password("Secret123").unwrap();
    for other in ["Secret12", "Secret1234", "secret123", "Secret123 ", " Secret123", "Tecret123", ""] {
        assert_eq!(verify_password(other, &hash), Ok(false));
    }
    assert_eq!(verify_password("Secret123", &hash), Ok(true));
}

#[test]
fn every_ordinary_password_gets_a_hash() {
    for password in ["", "x", "secret123", "pässwörd with spaces and ünicode ✓"] {
        assert!(hash_password(password).is_ok());
    }
    let long = "long ".repeat(20_000);
    let hash = hash_password(&long).unwrap();
    assert_eq!(verify_password(&long, &hash), Ok(true));
}

#[test]
fn hash_under_a_known_salt_is_what_argon2_derives() {
    let salt = SaltString::from_b64("c29tZXNhbHQ").unwrap();
    let expected = Argon2::default().hash_password(b"password", &salt).unwrap().to_string();
    let hash = hash_password_with_salt("password", "c29tZXNhbHQ").unwrap();
    assert_eq!(hash, expected);
    assert!(hash.starts_with("$argon2id$v=19$m=19456,t=2,p=1$c29tZXNhbHQ$"));
    assert_eq!(hash.len(), "$argon2id$v=19$m=19456,t=2,p=1$c29tZXNhbHQ$".len() + 43);
    assert_eq!(verify_password("password", &hash), Ok(true));
    assert_eq!(verify_password("sassword", &hash), Ok(false));
}

#[test]
fn hash_is_fixed_by_password_and_salt() {
    let first = hash_password_with_salt("password", "c29tZXNhbHQ").unwrap();
    assert_eq!(hash_password_with_salt("password", "c29tZXNhbHQ"), Ok(first.clone()));
    assert_ne!(hash_password_with_salt("password", "ZGlmZnNhbHQ").unwrap(), first);
    assert_ne!(hash_password_with_salt("sassword", "c29tZXNhbHQ").unwrap(), first);
}

#[test]
fn text_that_is_no_salt_fails_hashing() {
    for salt in ["", "abc", "not a salt!", "c29tZXNhbHQ=", "$$$$$$$$$$$"] {
        assert_eq!(hash_password_with_salt("password", salt), Err(AuthError::HashingFailed));
    }
}

#[test]
fn salt_that_is_too_short_for_argon2_fails_hashing() {
    assert_eq!(hash_password_with_salt("password", "c29t"), Err(AuthError::HashingFailed));
}

#[test]
fn two_hashes_of_one_password_differ_and_both_verify() {
    let first = hash_password("secret123").unwrap();
    let second = hash_password("secret123").unwrap();
    assert_ne!(first, second);
    assert_eq!(verify_password("secret123", &first), Ok(true));
    assert_eq!(verify_password("secret123", &second), Ok(true));
}

#[test]
fn hash_is_a_self_describing_argon2id_string() {
    let hash = hash_password("secret123").unwrap();
    assert_ne!(hash, "secret123");
    assert!(hash.starts_with("$argon2id$v=19$m=19456,t=2,p=1$"));
    assert!(!hash.contains("secret123"));
}

#[test]
fn known_hash_verifies_for_its_password_only() {
    assert_eq!(verify_password("password", KNOWN_HASH), Ok(true));
    assert_eq!(verify_password("sassword", KNOWN_HASH), Ok(false));
}

#[test]
fn malformed_hash_is_an_error() {
    assert_eq!(verify_password("secret123", "not a hash"), Err(AuthError::MalformedHash));
    assert_eq!(verify_password("secret123", ""), Err(AuthError::MalformedHash));
    assert_eq!(verify_password("secret123", "secret123"), Err(AuthError::MalformedHash));
}

#[test]
fn hash_of_another_algorithm_is_a_mismatch() {
    let foreign = "$scrypt$ln=16,r=8,p=1$c29tZXNhbHQ$nf65EOgLrQMR/uIPnA4rEsF5h7TKyQwu9U1bMCHGi/4";
    assert_eq!(verify_password("password", foreign), Ok(false));
}

#[test]
fn hashing_outcome_keeps_the_hash() {
    assert_eq!(hashing_outcome(Ok(KNOWN_HASH.to_string())), Ok(KNOWN_HASH.to_string()));
}

#[test]
fn hashing_outcome_reports_every_failure_as_hashing_failed() {
    assert_eq!(hashing_outcome(Err(Error::Crypto)), Err(AuthError::HashingFailed));
    assert_eq!(hashing_outcome(Err(Error::Password)), Err(AuthError::HashingFailed));
    assert_eq!(hashing_outcome(Err(Error::Algorithm)), Err(AuthError::HashingFailed));
}

#[test]
fn verification_outcome_tells_mismatch_from_malformed() {
    assert_eq!(verification_outcome(Ok(Ok(()))), Ok(true));
    assert_eq!(verification_outcome(Ok(Err(Error::Password))), Ok(false));
    assert_eq!(verification_outcome(Ok(Err(Error::Algorithm))), Ok(false));
    assert_eq!(verification_outcome(Err(Error::PhcStringField)), Err(AuthError::MalformedHash));
    assert_eq!(verification_outcome(Err(Error::Password)), Err(AuthError::MalformedHash));
}

#[test]
fn hash_with_an_overflowing_parallelism_matches_no_password() {
    for parallelism in ["536870912", "536870913", "1073741824", "4294967295", "999999999", "100000000"] {
        let hash = format!(
            "$argon2id$v=19$m=65536,t=2,p={}$c29tZXNhbHQ$CTFhFdXPJO1aFaMaO6Mm5c8y7cJHAph8ArZWb2GRPPc",
            parallelism
        );
        assert!(names_oversized_parallelism(&hash));
        assert_eq!(verify_password("password", &hash), Ok(false));
        assert_eq!(verify_password("", &hash), Ok(false));
    }
}

#[test]
fn hash_with_a_parallelism_out_of_range_is_a_mismatch() {
    for parallelism in ["0", "16777216", "99999999", "8193"] {
        let hash = format!(
            "$argon2id$v=19$m=65536,t=2,p={}$c29tZXNhbHQ$CTFhFdXPJO1aFaMaO6Mm5c8y7cJHAph8ArZWb2GRPPc",
            parallelism
        );
        assert!(!names_oversized_parallelism(&hash));
        assert_eq!(verify_password("password", &hash), Ok(false));
    }
}

#[test]
fn oversized_parallelism_in_a_text_that_is_no_hash_is_malformed() {
    for text in ["p=1234567890", "argon2id$p=123456789", "not a hash, p=999999999 or so"] {
        assert!(names_oversized_parallelism(text));
        assert_eq!(verify_password("password", text), Err(AuthError::MalformedHash));
    }
}

#[test]
fn oversized_parallelism_in_a_hash_without_salt_and_digest_is_a_mismatch() {
    let text = "$argon2id$p=123456789";
    assert!(names_oversized_parallelism(text));
    assert_eq!(verify_password("password", text), Ok(false));
    assert_eq!(verify_password("password", "$argon2id$p=1"), Ok(false));
}

#[test]
fn oversized_parallelism_is_nine_digits_behind_p_equals() {
    assert!(names_oversized_parallelism("p=123456789"));
    assert!(names_oversized_parallelism("xp=000000000"));
    assert!(names_oversized_parallelism("p=12345678,p=1234567890$"));
    assert!(names_oversized_parallelism("pässwörd p=123456789"));
    assert!(names_oversized_parallelism("p=p=p=123456789"));
    assert!(!names_oversized_parallelism(""));
    assert!(!names_oversized_parallelism("p="));
    assert!(!names_oversized_parallelism("p=12345678"));
    assert!(!names_oversized_parallelism("p=12345678$"));
    assert!(!names_oversized_parallelism("p=1234 56789"));
    assert!(!names_oversized_parallelism("q=123456789"));
    assert!(!names_oversized_parallelism("p:123456789"));
    assert!(!names_oversized_parallelism("P=123456789"));
    assert!(!names_oversized_parallelism("123456789p="));
    assert!(!names_oversized_parallelism(KNOWN_HASH));
}

#[test]
fn derived_hash_names_no_oversized_parallelism() {
    let hash = hash_password("secret123").unwrap();
    assert!(!names_oversized_parallelism(&hash));
    let salted = hash_password_with_salt("p=123456789", "cD0xMjM0NTY3ODk").unwrap();
    assert!(!names_oversized_parallelism(&salted));
    assert_eq!(verify_password("p=123456789", &salted), Ok(true));
}

#[test]
fn derived_hash_carries_its_salt() {
    for salt in ["c29tZXNhbHQ", "ZGlmZnNhbHQ", "AAAAAAAAAAAAAAAAAAAAAA", "abcdefghijk.-/+0123456789ABCDEFGHIJKLMNOPQRSTUVWXYZ"] {
        match hash_password_with_salt("password", salt) {
            Ok(hash) => {
                let head = "$argon2id$v=19$m=19456,t=2,p=1$";
                assert!(hash.starts_with(head));
                let rest = &hash[head.len()..];
                assert_eq!(rest.find('$'), Some(salt.len()));
                assert_eq!(&rest[..salt.len()], salt);
            }
            Err(e) => assert_eq!(e, AuthError::HashingFailed),
        }
    }
    assert!(hash_password_with_salt("password", "c29tZXNhbHQ").is_ok());
}
