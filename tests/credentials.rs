use obsidian_rust::clock::Timestamp;
use obsidian_rust::error::{Entity, ObsidianError, ReqError};
use obsidian_rust::json::read_one;
use obsidian_rust::schools::{AuthData, Deletion, NameChange, PasswordChange, SchoolRecord};
use obsidian_rust::secrets::password_matches;
use obsidian_rust::sessions::{accept_logout, AuthToken, TokenRecord, SECRET_LEN, TOKEN_TTL_MICROS};

const ABC123_HASH: &str = "$2b$04$abcdefghijklmnopqrstuusNjDez/sL1e9mOdQUViTuTQ7QDUF4nG";
const OTHER_HASH: &str = "$2b$04$abcdefghijklmnopqrstuupq3UgSFm/Sf2R51R2/ze3/qhiAEzuKO";

fn token(id: usize, secret: &str) -> AuthToken {
    AuthToken::from_header(&id.to_string(), Some(secret)).unwrap()
}

fn record(id: usize, hash: &str, school: usize, created: i64) -> TokenRecord {
    TokenRecord { token_id: id, hashed_secret: hash.to_string(), school_id: school, created_at: Timestamp::from_micros(created) }
}

#[test]
fn credentials_come_from_the_basic_header() {
    let t = AuthToken::from_header("17", Some("s3cret")).unwrap();
    assert_eq!((t.token_id, t.secret.as_str()), (17, "s3cret"));
    let no = Err(ObsidianError::RequestError(ReqError::NoAuth));
    assert_eq!(AuthToken::from_header("17", None).map(|t| t.token_id), no);
    assert_eq!(AuthToken::from_header("seventeen", Some("x")).map(|t| t.token_id), no);
}

#[test]
fn stored_hashes_are_checked() {
    assert!(password_matches("abc123", ABC123_HASH));
    assert!(!password_matches("abc124", ABC123_HASH));
    assert!(!password_matches("abc123", "not a hash"));
}

#[test]
fn verify_needs_matching_secret_id_and_age() {
    let now = 10 * TOKEN_TTL_MICROS;
    let t = token(5, "abc123");
    let at = Timestamp::from_micros(now);
    assert_eq!(t.verify(Some(&record(5, ABC123_HASH, 3, now - 1000)), at), Ok(3));
    let no = Err(ObsidianError::RequestError(ReqError::NoAuth));
    assert_eq!(t.verify(Some(&record(5, OTHER_HASH, 3, now - 1000)), at), no);
    assert_eq!(t.verify(Some(&record(6, ABC123_HASH, 3, now - 1000)), at), no);
    assert_eq!(t.verify(Some(&record(5, ABC123_HASH, 3, now - TOKEN_TTL_MICROS)), at), no);
    assert_eq!(t.verify(Some(&record(5, ABC123_HASH, 3, now - TOKEN_TTL_MICROS + 1)), at), Ok(3));
    assert_eq!(t.verify(None, at), no);
}

#[test]
fn logout_deletes_only_after_a_match() {
    let now = 10 * TOKEN_TTL_MICROS;
    let at = Timestamp::from_micros(now);
    let t = token(5, "abc123");
    assert_eq!(t.verify_and_delete(Some(&record(5, ABC123_HASH, 3, now)), at), Ok(5));
    assert_eq!(
        t.verify_and_delete(Some(&record(5, OTHER_HASH, 3, now)), at),
        Err(ObsidianError::RequestError(ReqError::NoAuth))
    );
    assert_eq!(accept_logout(1), Ok(()));
    assert_eq!(accept_logout(0), Err(ObsidianError::RequestError(ReqError::NoAuth)));
}

#[test]
fn issued_tokens_verify_and_differ() {
    let (first, first_hash) = AuthToken::new().unwrap();
    assert_eq!(first.secret.chars().count(), SECRET_LEN);
    assert!(first.token_id <= u32::MAX as usize);
    let at = Timestamp::from_micros(0);
    let rec = record(first.token_id, &first_hash, 8, 0);
    assert_eq!(first.verify(Some(&rec), at), Ok(8));
    let second = token(first.token_id + 1, "other");
    assert_ne!(first.secret, second.secret);
}

#[test]
fn login_checks_name_and_password() {
    let auth: AuthData = read_one("{\"name\": \"Lincoln\", \"password\": \"abc123\"}", Timestamp::from_micros(0)).unwrap();
    assert_eq!(auth.lookup_name(), "lincoln");
    let found = SchoolRecord { id: 4, hashed_password: ABC123_HASH.to_string() };
    assert_eq!(auth.verify(Some(&found)), Ok(4));
    assert_eq!(auth.verify(None), Err(ObsidianError::RecordNotFound(Entity::School)));
    let wrong = SchoolRecord { id: 4, hashed_password: OTHER_HASH.to_string() };
    assert_eq!(auth.verify(Some(&wrong)), Err(ObsidianError::WrongPassword));
}

#[test]
fn password_changes_and_deletions_need_the_password() {
    let change = PasswordChange { old_password: "abc123".to_string(), new_password: "n".to_string() };
    assert_eq!(change.perform(None), Err(ObsidianError::RecordNotFound(Entity::School)));
    assert_eq!(change.perform(Some(OTHER_HASH)), Err(ObsidianError::WrongPassword));
    let del = Deletion { password: "abc123".to_string() };
    assert_eq!(del.perform(Some(ABC123_HASH)), Ok(()));
    assert_eq!(del.perform(Some(OTHER_HASH)), Err(ObsidianError::WrongPassword));
    assert_eq!(del.perform(None), Err(ObsidianError::RecordNotFound(Entity::School)));
    assert_eq!(NameChange { name: "Grüne SCHULE".to_string() }.perform(), "grüne schule");
}

#[test]
fn new_schools_store_a_lowered_name_and_a_hash() {
    let auth = AuthData { name: "Lincoln".to_string(), password: "abc123".to_string() };
    let s = auth.save().unwrap();
    assert_eq!(s.name, "lincoln");
    assert!(password_matches("abc123", &s.hashed_password));
    let change = PasswordChange { old_password: "abc123".to_string(), new_password: "n3w".to_string() };
    let h = change.perform(Some(&s.hashed_password)).unwrap();
    assert!(password_matches("n3w", &h));
}

#[test]
fn signup_then_login_gives_a_second_valid_token() {
    let auth: AuthData = read_one("{\"name\":\"Lincoln\",\"password\":\"abc123\"}", Timestamp::from_micros(0)).unwrap();
    let school = auth.save().unwrap();
    assert_eq!(school.name, "lincoln");
    let stored = SchoolRecord { id: 12, hashed_password: school.hashed_password.clone() };
    let login: AuthData = read_one("{\"name\":\"LINCOLN\",\"password\":\"abc123\"}", Timestamp::from_micros(0)).unwrap();
    assert_eq!(login.lookup_name(), school.name);
    assert_eq!(login.verify(Some(&stored)), Ok(12));
    let (first, first_hash) = AuthToken::new().unwrap();
    let (second, second_hash) = AuthToken::new().unwrap();
    assert!(first.token_id != second.token_id || first.secret != second.secret);
    let at = Timestamp::from_micros(5);
    assert_eq!(first.verify(Some(&record(first.token_id, &first_hash, 12, 0)), at), Ok(12));
    assert_eq!(second.verify(Some(&record(second.token_id, &second_hash, 12, 0)), at), Ok(12));
    assert!(!password_matches(&first.secret, &second_hash));
}
