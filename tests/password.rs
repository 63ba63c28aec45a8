use echoes_storage::password::{accept_verdict, generate_hash, verify_hash};

const HASH: &str = "$2a$04$UuTkLRZZ6QofpDOlMz32MuuxEHA43WOemOYHPz6.SjsVsyO1tDU96";

#[test]
fn verify_accepts_the_right_password() {
    assert!(verify_hash("password", HASH).is_ok());
}

#[test]
fn verify_rejects_a_wrong_password() {
    assert!(verify_hash("Password", HASH).is_err());
}

#[test]
fn verify_rejects_an_unreadable_hash() {
    assert!(verify_hash("password", "not a hash").is_err());
}

#[test]
fn verdicts() {
    assert!(accept_verdict(Some(true)).is_ok());
    assert!(accept_verdict(Some(false)).is_err());
    assert!(accept_verdict(None).is_err());
}

#[test]
fn fresh_hash_shape_and_verification() {
    let h = generate_hash("s3cret").unwrap();
    assert_eq!(h.len(), 60);
    assert!(h.starts_with("$2b$12$"));
    assert!(verify_hash("s3cret", &h).is_ok());
}
