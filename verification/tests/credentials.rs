use user_accounts::credentials::{accepted, hash_secret, hashed, verify_secret};
use user_accounts::identity::Identity;
use user_accounts::persistence::StorageError;
use user_accounts::users::UserModel;

fn user_with_password(password: Option<String>) -> UserModel {
    UserModel {
        id: Identity { value: 7 },
        firstname: None,
        lastname: None,
        middlename: None,
        fullname: None,
        username: None,
        email: None,
        account_status: None,
        date_of_birth: None,
        gender: None,
        avatar: None,
        phone_number: None,
        password,
        created_at: None,
        updated_at: None,
        otp_id: None,
        last_available_at: None,
    }
}

#[test]
fn hashed_secret_verifies() {
    let hash = hash_secret("password1").unwrap();
    assert!(verify_secret("password1", &hash));
    assert_ne!(hash, "password1");
}

#[test]
fn other_secret_does_not_verify() {
    let hash = hash_secret("password1").unwrap();
    assert!(!verify_secret("password2", &hash));
}

#[test]
fn two_hashes_of_one_secret_differ() {
    let first = hash_secret("password1").unwrap();
    let second = hash_secret("password1").unwrap();
    assert_ne!(first, second);
}

#[test]
fn hash_has_the_default_cost() {
    let hash = hash_secret("password1").unwrap();
    assert_eq!(hash.len(), 60);
    assert!(hash.starts_with("$2b$12$"));
}

#[test]
fn white_space_around_a_secret_is_not_hashed() {
    let hash = hash_secret(" \t password1 \n").unwrap();
    assert!(verify_secret("password1", &hash));
}

#[test]
fn candidate_is_checked_as_it_is() {
    let hash = hash_secret(" password1").unwrap();
    assert!(!verify_secret(" password1", &hash));
}

#[test]
fn known_hash_accepts_its_secret() {
    let hash = "$2a$04$n4Uy0eSnMfvnESYL.bLwuuj0U/ETSsoTpRT9GVk5bektyVVa5xnIi";
    assert!(verify_secret("correctbatteryhorsestapler", hash));
    assert!(!verify_secret("correctbatteryhorsestaple", hash));
    assert!(!verify_secret("wrong", "$2b$04$EGdrhbKUv8Oc9vGiXX0HQOxSg445d458Muh7DAHskb6QbtCvdxcie"));
}

#[test]
fn unreadable_hash_accepts_nothing() {
    assert!(!verify_secret("password1", ""));
    assert!(!verify_secret("password1", "password1"));
    assert!(!verify_secret("hunter2", "$2a$04$n4Uy0eSnMfvnESYL.bLwuuj0U/ETSsoTpRT9GVk5bektyVVa5xnI"));
    assert!(!verify_secret("hunter2", "$9z$04$n4Uy0eSnMfvnESYL.bLwuuj0U/ETSsoTpRT9GVk5bektyVVa5xnIi"));
    assert!(!verify_secret("hunter2", "$2a$xx$n4Uy0eSnMfvnESYL.bLwuuj0U/ETSsoTpRT9GVk5bektyVVa5xnIi"));
}

#[test]
fn hashing_outcome_is_read() {
    assert_eq!(hashed(Ok("$2b$12$abc".to_string())), Ok("$2b$12$abc".to_string()));
    assert_eq!(hashed(Err(bcrypt::BcryptError::CostNotAllowed(40))), Err(StorageError::HashingFault));
    assert_eq!(
        hashed(Err(bcrypt::BcryptError::InvalidHash("x".to_string()))),
        Err(StorageError::HashingFault)
    );
}

#[test]
fn verdict_is_read() {
    assert!(accepted(Some(true)));
    assert!(!accepted(Some(false)));
    assert!(!accepted(None));
}

#[test]
fn user_password_is_hashed_and_verified() {
    let hash = UserModel::hash_pswd(Some("  password1  ".to_string())).unwrap();
    let user = user_with_password(Some(hash));
    assert!(user.verify_pswd_hash("password1"));
    assert!(!user.verify_pswd_hash("password"));
}

#[test]
fn user_without_hash_accepts_nothing() {
    let user = user_with_password(None);
    assert!(!user.verify_pswd_hash("password1"));
    assert!(!user.verify_pswd_hash(""));
}

#[test]
fn user_with_unreadable_hash_accepts_nothing() {
    let user = user_with_password(Some("password1".to_string()));
    assert!(!user.verify_pswd_hash("password1"));
}

#[test]
fn secrets_are_removed_before_a_user_leaves() {
    let user = UserModel {
        email: Some("a@b.co".to_string()),
        otp_id: Some(Identity { value: 9 }),
        ..user_with_password(Some("$2b$12$abc".to_string()))
    };
    let public = user.clone().without_secrets();
    assert_eq!(public.password, None);
    assert_eq!(public.otp_id, None);
    assert_eq!(public, UserModel { password: None, otp_id: None, ..user });
}
