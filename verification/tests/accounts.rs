use itchat::error::Error;
use itchat::routes::accounts::{new_account, register_account, verify_account, RegisterSchema};
use itchat::structures::user::User;
use itchat::utils::snowflake::IdGenerator;
use itchat::validation::{Field, FieldError, Rule};

fn schema<'a>(username: &'a str, password: &'a str, email: &'a str) -> RegisterSchema<'a> {
    RegisterSchema { username, password, email }
}

#[test]
fn valid_schema() {
    assert!(schema("alice", "correct horse", "alice@example.com").validate().is_ok());
    assert!(schema("bob", "12345678", "b@x").validate().is_ok());
}

#[test]
fn schema_reports_every_broken_rule_in_field_order() {
    let e = schema("al", "short", "not an email").validate().unwrap_err();
    assert_eq!(
        e.errors,
        vec![
            FieldError { field: Field::Username, rule: Rule::Length },
            FieldError { field: Field::Password, rule: Rule::Length },
            FieldError { field: Field::Email, rule: Rule::Email },
        ]
    );
    let e = schema(&"u".repeat(33), "12345678", "a@b.com").validate().unwrap_err();
    assert_eq!(e.errors, vec![FieldError { field: Field::Username, rule: Rule::Length }]);
    let e = schema("alice", &"p".repeat(33), "a@b.com").validate().unwrap_err();
    assert_eq!(e.errors, vec![FieldError { field: Field::Password, rule: Rule::Length }]);
}

#[test]
fn email_rule() {
    for bad in ["", "abc", "abc@", "a @x.cz", "something@@somewhere.com"] {
        let e = schema("alice", "12345678", bad).validate().unwrap_err();
        assert_eq!(e.errors, vec![FieldError { field: Field::Email, rule: Rule::Email }]);
    }
}

#[test]
fn new_account_hashes_with_the_salt() {
    let user = new_account(schema("alice", "correct horse", "alice@example.com"), false, "somesaltsomesalt", 77).unwrap();
    let expected = argon2::hash_encoded(b"correct horse", b"somesaltsomesalt", &argon2::Config::default()).unwrap();
    assert_eq!(user.password, expected);
    assert_ne!(user.password, "correct horse");
    assert_eq!(user.id, 77);
    assert_eq!(user.username, "alice");
    assert_eq!(user.email, "alice@example.com");
    assert!(user.verified);
}

#[test]
fn register_account_refusals() {
    let mut ids = IdGenerator::new();
    assert!(matches!(
        register_account(schema("alice", "correct horse", "alice@example.com"), true, &mut ids),
        Err(Error::EmailAlreadyInUse)
    ));
    assert!(matches!(
        register_account(schema("al", "correct horse", "alice@example.com"), true, &mut ids),
        Err(Error::InvalidBody { .. })
    ));
}

#[test]
fn register_account_makes_verified_hashed_account() {
    let mut ids = IdGenerator::new();
    let user = register_account(schema("alice", "correct horse", "alice@example.com"), false, &mut ids).unwrap();
    assert!(user.verified);
    assert!(user.password.starts_with("$argon2id$"));
    assert!(argon2::verify_encoded(&user.password, b"correct horse").unwrap());
    assert_eq!(((user.id as u64) >> 12) & 0x3ff, 33);
}

#[test]
fn verify_sets_verified() {
    let u = User::with_id(3, "a".to_string(), "a@b.c".to_string(), "h".to_string());
    assert!(!u.verified);
    let v = verify_account(Some(u)).unwrap();
    assert!(v.verified);
    assert_eq!(v.id, 3);
    assert_eq!(v.username, "a");
    assert!(matches!(verify_account(None), Err(Error::AccountNotFound)));
}
