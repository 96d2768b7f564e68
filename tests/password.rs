use djangohashers::{make_password_core, make_password_with_settings, Algorithm, DjangoVersion};
use user_auth_api::password::verify_password;

fn mutate_at(s: &str, i: usize) -> String {
    let mut chars: Vec<char> = s.chars().collect();
    chars[i] = if chars[i] == 'A' { 'B' } else { 'A' };
    chars.into_iter().collect()
}

fn round_trip(algorithm: Algorithm, salt: &str) -> String {
    let h = make_password_core("correct horse", salt, algorithm, DjangoVersion::V1_4);
    assert!(verify_password("correct horse", &h));
    assert!(!verify_password("correct horsf", &h));
    let digest_pos = h.rfind('$').unwrap() + 3;
    assert!(!verify_password("correct horse", &mutate_at(&h, digest_pos)));
    h
}

fn salt_mutation_fails(h: &str, salt: &str) {
    let pos = h.find(salt).unwrap();
    assert!(!verify_password("correct horse", &mutate_at(h, pos)));
}

#[test]
fn pbkdf2_sha256_round_trip() {
    let h = round_trip(Algorithm::PBKDF2, "seasalt123");
    assert!(h.starts_with("pbkdf2_sha256$"));
    salt_mutation_fails(&h, "seasalt123");
}

#[test]
fn pbkdf2_sha1_round_trip() {
    let h = round_trip(Algorithm::PBKDF2SHA1, "seasalt123");
    assert!(h.starts_with("pbkdf2_sha1$"));
    salt_mutation_fails(&h, "seasalt123");
}

#[test]
fn sha1_round_trip() {
    let h = round_trip(Algorithm::SHA1, "seasalt123");
    salt_mutation_fails(&h, "seasalt123");
}

#[test]
fn md5_round_trip() {
    let h = round_trip(Algorithm::MD5, "seasalt123");
    salt_mutation_fails(&h, "seasalt123");
}

#[test]
fn bcrypt_sha256_round_trip() {
    let h = round_trip(Algorithm::BCryptSHA256, "");
    assert!(h.starts_with("bcrypt_sha256$"));
}

#[test]
fn unsalted_md5_round_trip() {
    let h = make_password_with_settings("correct horse", "", Algorithm::UnsaltedMD5);
    assert!(verify_password("correct horse", &h));
    assert!(!verify_password("correct horse", &mutate_at(&h, 10)));
}

#[test]
fn unknown_or_empty_hash_never_matches() {
    assert!(!verify_password("pw", ""));
    assert!(!verify_password("pw", "nosuchalgo$1$salt$digest"));
    assert!(!verify_password("pw", "pbkdf2_sha256"));
    assert!(!verify_password("pw", "pbkdf2_sha256$0$salt$digest"));
    assert!(!verify_password("pw", "pbkdf2_sha256$x1$salt$digest"));
    assert!(!verify_password("pw", "argon2$argon2id$v=19$bad$salt$hash"));
    assert!(!verify_password("pw", "scrypt$x$salt$1$1$hash"));
}

#[test]
fn argon2_round_trip() {
    let h = make_password_core("correct horse", "abcdefghijkl", Algorithm::Argon2, DjangoVersion::V1_4);
    assert!(h.starts_with("argon2$"));
    assert!(verify_password("correct horse", &h));
    assert!(!verify_password("correct horsf", &h));
    let digest_pos = h.rfind('$').unwrap() + 3;
    assert!(!verify_password("correct horse", &mutate_at(&h, digest_pos)));
    salt_mutation_fails(&h, "abcdefghijkl");
}

#[test]
fn scrypt_round_trip() {
    let h = make_password_core("correct horse", "seasalt123", Algorithm::Scrypt, DjangoVersion::V1_4);
    assert!(h.starts_with("scrypt$16384$seasalt123$8$1$"));
    assert!(verify_password("correct horse", &h));
}

#[test]
fn scrypt_digest_mutation_fails() {
    let h = make_password_core("correct horse", "seasalt123", Algorithm::Scrypt, DjangoVersion::V1_4);
    let digest_pos = h.rfind('$').unwrap() + 3;
    assert!(!verify_password("correct horse", &mutate_at(&h, digest_pos)));
}

#[test]
fn scrypt_salt_mutation_fails() {
    let h = make_password_core("correct horse", "seasalt123", Algorithm::Scrypt, DjangoVersion::V1_4);
    salt_mutation_fails(&h, "seasalt123");
}

#[test]
fn pbkdf2_plus_sign_count_is_checked() {
    let h = make_password_core("pw", "seasalt123", Algorithm::PBKDF2, DjangoVersion::V1_4);
    let plus = h.replacen("$10000$", "$+10000$", 1);
    assert!(verify_password("pw", &plus));
    assert!(!verify_password("pw", "pbkdf2_sha256$+0$salt$digest"));
}

#[test]
fn malformed_argon2_and_scrypt_never_match() {
    assert!(!verify_password("pw", "argon2$argon2id$v=19$m=0,t=2,p=2$abcdefghijkl$AAAAAAAA"));
    assert!(!verify_password("pw", "argon2$argon2id$v=19$m=512,t=2,p=2$short$AAAAAAAA"));
    assert!(!verify_password("pw", "scrypt$1000$salt$8$1$hash"));
    assert!(!verify_password("pw", "scrypt$65536$salt$1$1$hash"));
}

#[test]
fn crypt_round_trip_and_bad_salt() {
    let h = make_password_core("correct horse", "ab", Algorithm::Crypt, DjangoVersion::V1_4);
    assert!(h.starts_with("crypt$$ab"));
    assert!(verify_password("correct horse", &h));
    assert!(!verify_password("wrong horse", &h));
    assert!(!verify_password("pw", "crypt$$\u{80}xAAAAAAAAAAA"));
    assert!(!verify_password("pw", "crypt$$a\u{1}AAAAAAAAAAA"));
}

#[test]
fn argon2_many_lanes_verifies() {
    let h = make_password_core("pw", "abcdefghijkl", Algorithm::Argon2, DjangoVersion::V1_4);
    assert!(h.contains("$m=512,t=2,p=2$"));
    assert!(verify_password("pw", &h));
    // A hash with 65 lanes and a count written with a plus sign goes to the checker.
    let wide = h.replacen("$m=512,t=2,p=2$", "$m=+520,t=1,p=65$", 1);
    let expected = matches!(djangohashers::check_password("pw", &wide), Ok(true));
    assert_eq!(verify_password("pw", &wide), expected);
}
