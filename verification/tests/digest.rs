use netschool::digest::{digest, InvalidCharacters};

#[test]
fn digest_reproduces_the_known_vector() {
    let encoded = digest("test123", "Привет").ok().unwrap();
    assert_eq!(encoded.full, "ebb42d3670e35df3ecf72f6b286e5295");
    assert_eq!(encoded.trimmed, "ebb42d3");
}

#[test]
fn digest_of_an_empty_password_trims_to_nothing() {
    let encoded = digest("", "abc").ok().unwrap();
    assert_eq!(encoded.full, "a79fb8367cbdc749a5e6b8b851b23b17");
    assert_eq!(encoded.trimmed, "");
}

#[test]
fn digest_of_a_long_password_keeps_the_whole_digest() {
    let password = "x".repeat(40);
    let encoded = digest(&password, "abc").ok().unwrap();
    assert_eq!(encoded.full, "a79fb8367cbdc749a5e6b8b851b23b17");
    assert_eq!(encoded.trimmed, "a79fb8367cbdc749a5e6b8b851b23b17");
}

#[test]
fn digest_trims_by_the_bytes_of_the_password() {
    let encoded = digest("пароль", "1234567890").ok().unwrap();
    assert_eq!(encoded.full, "5d344965e29f7e357b9c8241dc4e0dab");
    assert_eq!(encoded.trimmed, "5d344965e29f");
}

#[test]
fn digest_refuses_a_salt_outside_the_code_page() {
    assert!(matches!(digest("secret", "salt🙂"), Err(InvalidCharacters)));
    assert!(matches!(digest("secret", "日本"), Err(InvalidCharacters)));
}

#[test]
fn digest_takes_a_password_outside_the_code_page() {
    let encoded = digest("🙂", "abc").ok().unwrap();
    assert_eq!(encoded.full, "a79fb8367cbdc749a5e6b8b851b23b17");
    assert_eq!(encoded.trimmed, "a79f");
}

#[test]
fn digest_is_the_same_when_asked_twice() {
    let first = digest("test123", "Привет").ok().unwrap();
    let second = digest("test123", "Привет").ok().unwrap();
    assert_eq!(first.full, second.full);
    assert_eq!(first.trimmed, second.trimmed);
}

#[test]
fn trimmed_digest_starts_the_full_one() {
    for password in ["", "a", "test123", "0123456789012345678901234567890123456789"] {
        let encoded = digest(password, "Salt-42").ok().unwrap();
        assert!(encoded.full.starts_with(&encoded.trimmed));
        assert_eq!(encoded.trimmed.len(), password.len().min(encoded.full.len()));
        assert_eq!(encoded.full.len(), 32);
    }
}
