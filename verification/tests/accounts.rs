use chat_core::auth::{bearer_token, jwt_audience, jwt_issuer, AuthOutput, JWT_DURATION};
use chat_core::error::AppError;
use chat_core::model::{User, Workspace};
use chat_core::user::{
    finish_signup, hash_password, insert_user_error, screen, signin_reply, verify_password,
    verify_user, CreateUser, DbFailure, SigninUser,
};

fn stored_user(email: &str, password: &str) -> User {
    let mut user = User::new(1, "test", email);
    user.ws_id = 1;
    user.password_hash = Some(hash_password(password).unwrap());
    user
}

fn unique_violation(constraint: &str) -> DbFailure {
    DbFailure {
        code: Some("23505".to_string()),
        constraint: Some(constraint.to_string()),
        text: "duplicate key value violates unique constraint".to_string(),
    }
}

#[test]
fn hash_password_and_verify_should_work() {
    let password = "hunter42";
    let password_hash = hash_password(password).unwrap();
    assert_eq!(password_hash.len(), 97);
    assert!(verify_password(password, &password_hash).unwrap());
}

#[test]
fn verify_password_tells_a_wrong_password() {
    let password_hash = hash_password("hunter42").unwrap();
    assert!(!verify_password("hunter43", &password_hash).unwrap());
    assert!(!verify_password("", &password_hash).unwrap());
}

#[test]
fn hash_password_salts_each_hash() {
    let made = hash_password("hunter42").unwrap();
    assert!(made.starts_with("$argon2id$v=19$m=19456,t=2,p=1$"));
    assert_ne!(made, "hunter42");
    assert_ne!(hash_password("hunter42").unwrap(), made);
}

#[test]
fn verify_password_refuses_what_is_no_hash() {
    match verify_password("hunter42", "not a hash") {
        Err(AppError::PasswordHashError(_)) => {}
        other => panic!("unexpected {:?}", other),
    }
    match verify_password("hunter42", "") {
        Err(e) => assert_eq!(e.status_code(), 422),
        other => panic!("unexpected {:?}", other),
    }
}

#[test]
fn user_new_is_outside_any_workspace() {
    let user = User::new(1, "test", "test@test.com");
    assert_eq!(user.id, 1);
    assert_eq!(user.ws_id, 0);
    assert_eq!(user.username, "test");
    assert_eq!(user.email, "test@test.com");
    assert_eq!(user.password_hash, None);
    assert!(user.created_at > 0);
}

#[test]
fn builders_keep_their_arguments_apart() {
    let input = CreateUser::new("acme", "Ivena", "test2@acme.org", "123456");
    assert_eq!(input.workspace, "acme");
    assert_eq!(input.username, "Ivena");
    assert_eq!(input.email, "test2@acme.org");
    assert_eq!(input.password, "123456");
    let input = SigninUser::new("test2@acme.org", "123456");
    assert_eq!(input.email, "test2@acme.org");
    assert_eq!(input.password, "123456");
}

#[test]
fn create_and_verify_user_should_work() {
    let input = CreateUser::new("none", "test", "test@test.test", "hunter42");
    let stored = stored_user(&input.email, &input.password);
    let ws = Workspace { id: 1, name: "none".to_string(), owner_id: 0, created_at: 0 };
    let (user, claim) = finish_signup(&ws, Ok(stored.clone()), &input.email).unwrap();
    assert_eq!(user.email, input.email);
    assert_eq!(user.username, input.username);
    assert!(user.id > 0);
    assert!(claim);

    let input = SigninUser::new(&input.email, &input.password);
    let user = verify_user(&input, Some(stored)).unwrap();
    assert!(user.is_some());
    let user = user.unwrap();
    assert_eq!(user.email, input.email);
    assert_eq!(user.password_hash, None);
}

#[test]
fn finish_signup_leaves_an_owned_workspace_alone() {
    let ws = Workspace { id: 1, name: "acme".to_string(), owner_id: 3, created_at: 0 };
    let stored = User::new(9, "test", "a@b.c");
    let (user, claim) = finish_signup(&ws, Ok(stored.clone()), "a@b.c").unwrap();
    assert_eq!(user, stored);
    assert!(!claim);
}

#[test]
fn create_duplicate_user_should_fail() {
    let input = CreateUser::new("acme", "test", "test2@acme.org", "hunter42");
    let ws = Workspace { id: 1, name: "acme".to_string(), owner_id: 1, created_at: 0 };
    let ret = finish_signup(&ws, Err(unique_violation("users_email_key")), &input.email);
    match ret {
        Err(AppError::EmailAlreadyExists(email)) => {
            assert_eq!(email, input.email);
        }
        _ => panic!("Expecting EmailAlreadyExists error"),
    }
}

#[test]
fn signup_duplicate_user_should_409() {
    let input = CreateUser::new("acme", "Ivena", "test2@acme.org", "123456");
    let err = insert_user_error(unique_violation("users_email_key"), &input.email);
    assert_eq!(err.status_code(), 409);
    assert_eq!(err.output().error, "Email already exists: test2@acme.org");
}

#[test]
fn other_database_failures_stay_database_failures() {
    let err = insert_user_error(unique_violation("users_pkey"), "a@b.c");
    assert_eq!(
        err,
        AppError::SqlxError("duplicate key value violates unique constraint".to_string())
    );
    let other_code = DbFailure {
        code: Some("23503".to_string()),
        constraint: Some("users_email_key".to_string()),
        text: "foreign key".to_string(),
    };
    assert_eq!(insert_user_error(other_code, "a@b.c"), AppError::SqlxError("foreign key".into()));
    let no_db = DbFailure { code: None, constraint: None, text: "pool timed out".to_string() };
    let err = insert_user_error(no_db, "a@b.c");
    assert_eq!(err.status_code(), 500);
    assert_eq!(err.message(), "sqlx error: pool timed out");
}

#[test]
fn signin_should_work() {
    let stored = stored_user("test2@acme.org", "123456");
    let input = SigninUser::new("test2@acme.org", "123456");
    let verified = verify_user(&input, Some(stored)).unwrap();
    let user = signin_reply(verified).expect("the user may sign in");
    assert_eq!(user.email, "test2@acme.org");
}

#[test]
fn signin_with_non_exist_user_should_403() {
    let input = SigninUser::new("tchen1@acme.org", "123456");
    let verified = verify_user(&input, None).unwrap();
    assert!(verified.is_none());
    let (status, body) = signin_reply(verified).unwrap_err();
    assert_eq!(status, 403);
    assert_eq!(body.error, "Invalid email or password");
}

#[test]
fn signin_with_wrong_password_is_turned_away() {
    let stored = stored_user("test2@acme.org", "123456");
    let input = SigninUser::new("test2@acme.org", "654321");
    let verified = verify_user(&input, Some(stored)).unwrap();
    assert!(verified.is_none());
}

#[test]
fn signin_without_a_stored_hash_is_an_error() {
    let stored = User::new(1, "test", "test2@acme.org");
    let input = SigninUser::new("test2@acme.org", "123456");
    match verify_user(&input, Some(stored)) {
        Err(AppError::PasswordHashError(_)) => {}
        other => panic!("unexpected {:?}", other),
    }
}

#[test]
fn screen_strips_the_hash() {
    let stored = stored_user("a@b.c", "pw");
    let through = screen(stored.clone(), true).unwrap();
    assert_eq!(through.password_hash, None);
    assert_eq!(through.id, stored.id);
    assert_eq!(through.created_at, stored.created_at);
    assert!(screen(stored, false).is_none());
}

#[test]
fn tokens_last_a_week() {
    assert_eq!(JWT_DURATION, 60 * 60 * 24 * 7);
    assert_eq!(jwt_issuer(), "chat_server");
    assert_eq!(jwt_audience(), "chat_web");
    let out = AuthOutput { token: "abc".to_string() };
    assert_ne!(out.token, "");
}

#[test]
fn bearer_token_follows_its_prefix() {
    assert_eq!(bearer_token("Bearer abc.def"), Some("abc.def".to_string()));
    assert_eq!(bearer_token("Bearer "), Some("".to_string()));
    assert_eq!(bearer_token("Bearer  x"), Some(" x".to_string()));
    assert_eq!(bearer_token("bearer abc"), None);
    assert_eq!(bearer_token("Bearer"), None);
    assert_eq!(bearer_token("Basic abc"), None);
    assert_eq!(bearer_token(""), None);
}
