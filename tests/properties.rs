use std::collections::HashSet;

use identity::{
    add, Role, RoleId, RoleName, User, UserError, UserId, UserName, UserPassword, UserRole,
    ValidationError,
};

fn fixed_credential(password: &str) -> UserPassword {
    UserPassword::with_salt(password, password, "c29tZXNhbHRzb21lc2FsdA").unwrap()
}

fn sample_user(name: &str) -> User {
    User::new(UserName::new(name), fixed_credential("pw")).unwrap()
}

#[test]
fn add_sums() {
    assert_eq!(add(40, 2), 42);
    assert_eq!(add(0, u64::MAX), u64::MAX);
}

#[test]
fn role_name_keeps_valid_text() {
    for text in ["abc", "admin", "role with spaces", "éa"] {
        let name = RoleName::try_from(text).unwrap();
        assert_eq!(name.to_string(), text);
        assert_eq!(name.as_str(), text);
    }
    let parsed: RoleName = "editor".parse().unwrap();
    assert_eq!(parsed, RoleName::try_from("editor").unwrap());
}

#[test]
fn role_name_rejects_short_text() {
    assert_eq!(RoleName::try_from(""), Err(ValidationError::Empty));
    assert_eq!(RoleName::try_from("a"), Err(ValidationError::TooShort));
    assert_eq!(RoleName::try_from("ab"), Err(ValidationError::TooShort));
    assert_eq!(RoleName::try_from("é"), Err(ValidationError::TooShort));
}

#[test]
fn generated_ids_are_distinct() {
    let mut users = HashSet::new();
    let mut roles = HashSet::new();
    for _ in 0..10000 {
        let u = UserId::new();
        let r = RoleId::new();
        assert_ne!(u, UserId::default());
        assert_ne!(r, RoleId::default());
        assert!(users.insert(u));
        assert!(roles.insert(r));
    }
}

#[test]
fn nil_ids_are_zero() {
    assert_eq!(UserId::default().value(), 0);
    assert_eq!(RoleId::default().value(), 0);
    assert_eq!(
        RoleId::default().to_string(),
        "00000000-0000-0000-0000-000000000000"
    );
}

#[test]
fn id_text_round_trip() {
    let text = "67e55044-10b1-426f-9247-bb680e5fe0c8";
    let id = UserId::parse(text).unwrap();
    assert_eq!(id.value(), 0x67e5504410b1426f9247bb680e5fe0c8);
    assert_eq!(id.to_string(), text);
    let fresh = UserId::new();
    assert_eq!(UserId::parse(&fresh.to_string()), Some(fresh));
    let role = RoleId::new();
    assert_eq!(role.to_string().len(), 36);
    assert_eq!(role.to_string().as_bytes()[14], b'4');
}

#[test]
fn id_parse_rejects_malformed_text() {
    assert_eq!(UserId::parse("not an id"), None);
    assert_eq!(UserId::from(String::from("not an id")), UserId::default());
    let text = String::from("67e55044-10b1-426f-9247-bb680e5fe0c8");
    assert_eq!(UserId::from(text).value(), 0x67e5504410b1426f9247bb680e5fe0c8);
}

#[test]
fn id_order_follows_value() {
    let low = UserId::parse("00000000-0000-0000-0000-000000000001").unwrap();
    let high = UserId::parse("10000000-0000-0000-0000-000000000000").unwrap();
    assert!(low < high);
    assert!(UserId::default() < low);
}

#[test]
fn credential_verifies_its_password() {
    let credential = UserPassword::new("s3cret", "s3cret").unwrap();
    assert!(credential.verify("s3cret"));
    assert!(!credential.verify("s3cretx"));
    assert!(credential.digest().starts_with("$argon2id$v=19$"));
    assert!(!credential.digest().contains("s3cret"));
}

#[test]
fn credential_rejects_mismatch() {
    assert_eq!(UserPassword::new("one", "two"), Err(UserError::PasswordMismatch));
    assert_eq!(UserPassword::new("pw", "PW"), Err(UserError::PasswordMismatch));
    assert_eq!(
        UserPassword::with_salt("a", "b", "c29tZXNhbHRzb21lc2FsdA"),
        Err(UserError::PasswordMismatch)
    );
}

#[test]
fn credential_with_fixed_salt_is_deterministic() {
    let a = fixed_credential("pw");
    let b = fixed_credential("pw");
    assert_eq!(a, b);
    assert!(a.digest().contains("c29tZXNhbHRzb21lc2FsdA"));
    assert!(a.verify("pw"));
    assert!(!a.verify("pwx"));
}

#[test]
fn credential_with_bad_salt_fails() {
    assert_eq!(
        UserPassword::with_salt("pw", "pw", "!"),
        Err(UserError::HashingFailed)
    );
}

#[test]
fn corrupt_digest_verifies_nothing() {
    let credential = UserPassword::from_digest(String::from("not a digest"));
    assert!(!credential.verify("not a digest"));
    assert!(!credential.verify(""));
}

#[test]
fn attach_then_detach_leaves_none() {
    let role = Role::new(RoleName::try_from("admin").unwrap());
    let mut user = sample_user("bob");
    user.add_role(role.id());
    user.remove_role(role.id());
    assert!(user.roles().is_empty());
}

#[test]
fn detach_absent_role_is_no_op() {
    let kept = RoleId::new();
    let mut user = sample_user("bob").with_role(kept);
    let before = user.roles().clone();
    user.remove_role(RoleId::new());
    assert_eq!(user.roles(), &before);
}

#[test]
fn detach_removes_every_match_and_keeps_order() {
    let a = RoleId::new();
    let b = RoleId::new();
    let c = RoleId::new();
    let mut user = sample_user("bob");
    user.add_role(a).add_role(b).add_role(a).add_role(c);
    user.remove_role(a);
    let left: Vec<RoleId> = user.roles().iter().map(|r| *r.role_id()).collect();
    assert_eq!(left, vec![b, c]);
}

#[test]
fn attach_twice_keeps_two() {
    let role = RoleId::new();
    let user = sample_user("bob").with_role(role).with_role(role);
    assert_eq!(user.roles().len(), 2);
    assert_eq!(user.roles()[0], user.roles()[1]);
}

#[test]
fn scenario_user_with_admin_role() {
    let role = Role::new(RoleName::try_from("admin").unwrap());
    let mut user = User::new(
        UserName::new("bob"),
        UserPassword::new("pw", "pw").unwrap(),
    )
    .unwrap();
    user.add_role(role.id());
    assert_eq!(user.roles().len(), 1);
    assert_eq!(*user.roles()[0].role_id(), role.id());
    assert_eq!(*user.roles()[0].user_id(), user.id());
    assert_eq!(role.name().as_str(), "admin");
}

#[test]
fn scenario_verify_password() {
    let user = User::new(
        UserName::new("bob"),
        UserPassword::new("pw", "pw").unwrap(),
    )
    .unwrap();
    assert!(user.verify_password("pw"));
    assert!(!user.verify_password("wrong"));
    assert!(user.password().verify("pw"));
}

#[test]
fn scenario_same_name_distinct_ids() {
    let first = sample_user("bob");
    let second = sample_user("bob");
    assert_eq!(first.name(), second.name());
    assert_ne!(first.id(), second.id());
}

#[test]
fn new_user_fields() {
    let user = sample_user("alice");
    assert_eq!(user.name().to_string(), "alice");
    assert_eq!(user.updated_at(), None);
    assert!(user.roles().is_empty());
    assert!(user.created_at().nanos < 2_000_000_000);
    assert!(user.created_at().seconds > 1_600_000_000);
    assert_ne!(user.id(), UserId::default());
}

#[test]
fn user_role_accessors() {
    let u = UserId::new();
    let r = RoleId::new();
    let link = UserRole::new(u, r);
    assert_eq!(*link.user_id(), u);
    assert_eq!(*link.role_id(), r);
}

#[test]
fn error_messages() {
    assert_eq!(UserError::PasswordMismatch.message(), "Password mismatch");
    assert_eq!(UserError::InvalidPassword.message(), "Invalid password");
    assert_eq!(UserError::HashingFailed.message(), "Password hashing failed");
}
