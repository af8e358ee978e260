//! Accounts: signing up, signing in, and the passwords in between.

use crate::error::{AppError, ErrorOutput};
use crate::model::{opt_text, User, UserView, Workspace};
use crate::text::same_text;
use argon2::password_hash::rand_core::OsRng;
use argon2::password_hash::{PasswordHash, PasswordHasher, PasswordVerifier, SaltString};
use argon2::Argon2;
use vstd::prelude::*;
use vstd::string::StringExecFns;
use vstd::utf8::encode_utf8;

verus! {

/// A request to sign up.
#[derive(Debug)]
pub struct CreateUser {
    pub username: String,
    pub email: String,
    pub workspace: String,
    pub password: String,
}

/// A request to sign in.
#[derive(Debug)]
pub struct SigninUser {
    pub email: String,
    pub password: String,
}

impl CreateUser {
    pub fn new(ws: &str, username: &str, email: &str, password: &str) -> (input: CreateUser)
        ensures
            input.workspace@ == ws@,
            input.username@ == username@,
            input.email@ == email@,
            input.password@ == password@,
    {
        CreateUser {
            username: String::from_str(username),
            workspace: String::from_str(ws),
            email: String::from_str(email),
            password: String::from_str(password),
        }
    }
}

impl SigninUser {
    pub fn new(email: &str, password: &str) -> (input: SigninUser)
        ensures
            input.email@ == email@,
            input.password@ == password@,
    {
        SigninUser { email: String::from_str(email), password: String::from_str(password) }
    }
}

/// What Argon2 says of a password held against a stored hash: `Ok(true)` if
/// the hash was made from the password, `Ok(false)` if it was not, `Err` with
/// the parser's complaint if the stored text is no hash at all.
pub uninterp spec fn argon2_verdict(password: Seq<char>, hash: Seq<char>) -> Result<
    bool,
    Seq<char>,
>;

/// Hashes `password` with Argon2id in its default parameters, under a salt
/// drawn from the operating system: `SaltString::generate`, then
/// `Argon2::hash_password`, and the hash written out as a PHC string. The
/// salt differs from call to call, so the text is not known beforehand.
/// What is known of every hash that comes back is what it is made for:
/// held against the password it was made from, it is found good. The hash
/// carries its algorithm, version, parameters and salt, and the verifier
/// computes with exactly those. A hash does come back unless the password
/// is longer than the hasher takes, which is `0xFFFF_FFFF` bytes: the salt
/// and the parameters are the hasher's own and always in range.
#[verifier::external_body]
fn argon2_hash(password: &str) -> (res: Result<String, String>)
    ensures
        encode_utf8(password@).len() <= 0xFFFF_FFFF ==> res is Ok,
        res matches Ok(hash) ==> (argon2_verdict(password@, hash@) matches Ok(good) && good),
{
    let salt = SaltString::generate(&mut OsRng);
    match Argon2::default().hash_password(password.as_bytes(), &salt) {
        Ok(hash) => Ok(hash.to_string()),
        Err(e) => Err(e.to_string()),
    }
}

/// Reads `hash` as a PHC string with `PasswordHash::new` and lets
/// `Argon2::verify_password` hold `password` against it. The answer depends
/// on the two texts alone; it is known here only by its name.
#[verifier::external_body]
fn argon2_verify(password: &str, hash: &str) -> (res: Result<bool, String>)
    ensures
        res matches Ok(b) ==> (argon2_verdict(password@, hash@) matches Ok(v) && v == b),
        res matches Err(e) ==> (argon2_verdict(password@, hash@) matches Err(why) && why == e@),
{
    match PasswordHash::new(hash) {
        Ok(parsed) => Ok(Argon2::default().verify_password(password.as_bytes(), &parsed).is_ok()),
        Err(e) => Err(e.to_string()),
    }
}

/// A fresh hash of `password`, fit to be stored: [`verify_password`] will
/// find it good for this password. Whether two hashes of one password are
/// the same text is left open, for each has a salt of its own. Only a
/// password of more than `0xFFFF_FFFF` bytes can fail to be hashed; the
/// failure is reported as `PasswordHashError`.
pub fn hash_password(password: &str) -> (res: Result<String, AppError>)
    ensures
        encode_utf8(password@).len() <= 0xFFFF_FFFF ==> res is Ok,
        res matches Ok(hash) ==> (argon2_verdict(password@, hash@) matches Ok(good) && good),
        res matches Err(e) ==> e is PasswordHashError,
{
    match argon2_hash(password) {
        Ok(hash) => Ok(hash),
        Err(e) => Err(AppError::PasswordHashError(e)),
    }
}

/// Whether `hash` was made from `password`. A stored text that is no hash is
/// reported as `PasswordHashError`, with the parser's complaint.
pub fn verify_password(password: &str, hash: &str) -> (res: Result<bool, AppError>)
    ensures
        match argon2_verdict(password@, hash@) {
            Ok(b) => res matches Ok(v) && v == b,
            Err(why) => res matches Err(e) && e is PasswordHashError && e.detail() == why,
        },
{
    match argon2_verify(password, hash) {
        Ok(b) => Ok(b),
        Err(e) => Err(AppError::PasswordHashError(e)),
    }
}

/// The account as it leaves the library: without its password hash.
pub open spec fn disclosed(user: UserView) -> UserView {
    UserView { password_hash: None, ..user }
}

/// The stored hash of an account, the empty text if it has none.
pub open spec fn stored_hash(user: UserView) -> Seq<char> {
    match user.password_hash {
        Some(h) => h,
        None => Seq::empty(),
    }
}

/// Lets the account through if its password was right, without its hash.
pub fn screen(user: User, password_ok: bool) -> (res: Option<User>)
    ensures
        password_ok ==> (res matches Some(u) && u@ == disclosed(user@)),
        !password_ok ==> res is None,
{
    if password_ok {
        let User { id, username, ws_id, email, password_hash: _, created_at } = user;
        Some(User { id, username, ws_id, email, password_hash: None, created_at })
    } else {
        None
    }
}

/// Signs in: `found` is the account that the database holds under
/// `input.email`, if any. No account, or a wrong password, gives `Ok(None)`;
/// the right password gives the account without its hash; a stored hash that
/// cannot be read is an error.
pub fn verify_user(input: &SigninUser, found: Option<User>) -> (res: Result<Option<User>, AppError>)
    ensures
        match found {
            None => res matches Ok(r) && r is None,
            Some(user) => match argon2_verdict(input.password@, stored_hash(user@)) {
                Ok(true) => res matches Ok(Some(u)) && u@ == disclosed(user@),
                Ok(false) => res matches Ok(r) && r is None,
                Err(why) => res matches Err(e) && e is PasswordHashError && e.detail() == why,
            },
        },
{
    match found {
        None => Ok(None),
        Some(user) => {
            let checked = match &user.password_hash {
                Some(hash) => verify_password(input.password.as_str(), hash.as_str()),
                None => verify_password(input.password.as_str(), ""),
            };
            proof {
                reveal_strlit("");
                assert(""@ =~= Seq::<char>::empty());
            }
            match checked {
                Ok(ok) => Ok(screen(user, ok)),
                Err(e) => Err(e),
            }
        },
    }
}

/// What the database said when it refused to store a row.
#[derive(Debug, Clone, PartialEq)]
pub struct DbFailure {
    /// The SQLSTATE code, if the refusal came from the database itself.
    pub code: Option<String>,
    /// The constraint that was violated, if one was.
    pub constraint: Option<String>,
    /// The failure as text.
    pub text: String,
}

/// Whether a refusal says that the e-mail address is taken: a violation of
/// uniqueness (SQLSTATE 23505) on the constraint `users_email_key`.
pub open spec fn email_taken(code: Option<Seq<char>>, constraint: Option<Seq<char>>) -> bool {
    code == Some("23505"@) && constraint == Some("users_email_key"@)
}

fn holds_text(field: &Option<String>, text: &str) -> (same: bool)
    ensures
        same == (opt_text(*field) == Some(text@)),
{
    match field {
        Some(s) => same_text(s.as_str(), text),
        None => false,
    }
}

/// The error that a sign-up ends with when the database refused the new
/// account: the address is taken, or the database failed.
pub fn insert_user_error(failure: DbFailure, email: &str) -> (err: AppError)
    ensures
        email_taken(opt_text(failure.code), opt_text(failure.constraint)) ==> err
            is EmailAlreadyExists && err.detail() == email@,
        !email_taken(opt_text(failure.code), opt_text(failure.constraint)) ==> err is SqlxError
            && err.detail() == failure.text@,
{
    if holds_text(&failure.code, "23505") && holds_text(&failure.constraint, "users_email_key") {
        AppError::EmailAlreadyExists(String::from_str(email))
    } else {
        AppError::SqlxError(failure.text)
    }
}

/// Ends a sign-up once the database has answered the insert. A refusal
/// becomes the error of [`insert_user_error`]. A stored account is returned
/// together with the answer to one question: must it be made the owner of
/// its workspace, because the workspace has none (`owner_id` 0)?
pub fn finish_signup(ws: &Workspace, stored: Result<User, DbFailure>, email: &str) -> (res: Result<
    (User, bool),
    AppError,
>)
    ensures
        match stored {
            Ok(user) => res matches Ok(pair) && pair.0 == user && pair.1 == (ws.owner_id == 0),
            Err(failure) => res matches Err(e) && (if email_taken(
                opt_text(failure.code),
                opt_text(failure.constraint),
            ) {
                e is EmailAlreadyExists && e.detail() == email@
            } else {
                e is SqlxError && e.detail() == failure.text@
            }),
        },
{
    match stored {
        Ok(user) => Ok((user, ws.owner_id == 0)),
        Err(failure) => Err(insert_user_error(failure, email)),
    }
}

/// The answer to a sign-in: the account that may have its token, or the
/// status and body that turn the caller away.
pub fn signin_reply(verified: Option<User>) -> (res: Result<User, (u16, ErrorOutput)>)
    ensures
        match verified {
            Some(user) => res matches Ok(u) && u == user,
            None => res matches Err(refusal) && refusal.0 == 403 && refusal.1.error@
                == "Invalid email or password"@,
        },
{
    match verified {
        Some(user) => Ok(user),
        None => Err((403, ErrorOutput::new("Invalid email or password"))),
    }
}

} // verus!
