//! The three operations on credentials: registering a user, checking a
//! login, and changing a password. Each is one sequence of steps; a failure
//! at any step ends it, and nothing is written to the store before the last
//! step.

use crate::db::{
    get_password_hash, insert_result, insert_user, taken_error, taken_text,
    update_password_hash, update_result, user_exists, StoreFaultView,
};
use crate::error::{error_detail, result_view, AuthError, AuthErrorView, AuthResult};
use crate::hashing::{
    argon2_phc, dummy_hash_operation, hash_password, hash_view, hashing_result, is_hash_of,
    max_password_bytes, password_verdict, verify_password,
};
use crate::policy::{
    byte_length, credentials_check, default_config, failure_text, strength_check,
    validate_credentials, validate_password_strength, PasswordConfig, ValidationFailure,
};
use rusqlite::Connection;
use vstd::prelude::*;
use vstd::string::StringExecFns;

verus! {

/// What a registration asks of the credentials before it turns to the store:
/// neither is empty, and the password meets the default policy.
pub open spec fn registration_check(username: Seq<char>, password: Seq<char>) -> Result<
    (),
    ValidationFailure,
> {
    match credentials_check(username, password) {
        Err(failure) => Err(failure),
        Ok(_) => strength_check(password, default_config()),
    }
}

/// The error that reports a validation failure.
pub open spec fn validation_error_view(failure: ValidationFailure) -> AuthErrorView {
    AuthErrorView::Validation(failure_text(failure))
}

/// The message that tells a person that the current password was wrong.
pub open spec fn wrong_password_text() -> Seq<char> {
    "Senha atual incorreta"@
}

/// The record that a registration hands to the store once the store has said
/// whether the username `exists`: none where it does, else the hash of the
/// password under `salt`.
pub open spec fn registration_plan(
    username: Seq<char>,
    password: Seq<char>,
    exists: bool,
    salt: Seq<char>,
) -> Result<Seq<char>, AuthErrorView> {
    if exists {
        Err(AuthErrorView::Validation(taken_text(username)))
    } else {
        hashing_result(argon2_phc(password, salt))
    }
}

/// The verdict on a login once the store has handed out what it holds for
/// the username: `false` where it holds nothing, else what verifying the
/// password against the stored hash gives.
pub open spec fn stored_verdict(password: Seq<char>, stored: Option<Seq<char>>) -> Result<
    bool,
    AuthErrorView,
> {
    match stored {
        None => Ok(false),
        Some(hash) => password_verdict(password, hash),
    }
}

/// The hash that a change of password hands to the store once the login with
/// the old password has given `authenticated`: none where the login failed or
/// the new password breaks the default policy, else the hash of the new
/// password under `salt`.
pub open spec fn password_change_plan(authenticated: bool, new_password: Seq<char>, salt: Seq<char>)
    -> Result<Seq<char>, AuthErrorView> {
    if !authenticated {
        Err(AuthErrorView::Validation(wrong_password_text()))
    } else {
        match strength_check(new_password, default_config()) {
            Err(failure) => Err(validation_error_view(failure)),
            Ok(_) => hashing_result(argon2_phc(new_password, salt)),
        }
    }
}

/// An optional string, taken by its view.
pub open spec fn stored_view(stored: Option<String>) -> Option<Seq<char>> {
    match stored {
        Some(hash) => Some(hash@),
        None => None,
    }
}

/// What the store and the random generator answered in the course of one
/// registration.
pub struct RegisterAnswers {
    /// Whether the store said that the username exists, or the text of its
    /// fault.
    pub lookup: Result<bool, Seq<char>>,
    /// The salt that was drawn.
    pub salt: Seq<char>,
    /// What the store said to the insertion.
    pub inserted: Result<usize, StoreFaultView>,
}

/// What the store answered in the course of one login.
pub struct LoginAnswers {
    /// The hash that the store handed out for the username, if it holds one,
    /// or the text of its fault.
    pub fetched: Result<Option<Seq<char>>, Seq<char>>,
}

/// What the store and the random generator answered in the course of one
/// change of password.
pub struct ChangeAnswers {
    /// What the store answered to the login with the old password.
    pub login: LoginAnswers,
    /// The salt that was drawn.
    pub salt: Seq<char>,
    /// What the store said to the update.
    pub updated: Result<usize, StoreFaultView>,
}

/// The record that a registration hands to the store, if it comes that far.
pub open spec fn register_write(username: Seq<char>, password: Seq<char>, answers: RegisterAnswers)
    -> Option<Seq<char>> {
    match (registration_check(username, password), answers.lookup) {
        (Ok(_), Ok(exists)) => match registration_plan(username, password, exists, answers.salt) {
            Ok(hash) => Some(hash),
            Err(_) => None,
        },
        _ => None,
    }
}

/// What a registration returns, given what its collaborators answered. The
/// steps, in order: the credentials are checked; the store is asked whether
/// the username exists; the password is hashed; the record is inserted. The
/// first step that fails decides the result.
pub open spec fn register_result(username: Seq<char>, password: Seq<char>, answers: RegisterAnswers)
    -> Result<(), AuthErrorView> {
    match registration_check(username, password) {
        Err(failure) => Err(validation_error_view(failure)),
        Ok(_) => match answers.lookup {
            Err(reason) => Err(AuthErrorView::Database(reason)),
            Ok(exists) => match registration_plan(username, password, exists, answers.salt) {
                Err(error) => Err(error),
                Ok(_) => insert_result(username, answers.inserted),
            },
        },
    }
}

/// What a login returns, given what the store answered. An account that does
/// not exist gives `false`, as a wrong password does, and no error.
pub open spec fn login_result(username: Seq<char>, password: Seq<char>, answers: LoginAnswers)
    -> Result<bool, AuthErrorView> {
    match credentials_check(username, password) {
        Err(failure) => Err(validation_error_view(failure)),
        Ok(_) => match answers.fetched {
            Err(reason) => Err(AuthErrorView::Database(reason)),
            Ok(stored) => stored_verdict(password, stored),
        },
    }
}

/// The hash that a change of password hands to the store, if it comes that
/// far.
pub open spec fn change_write(
    username: Seq<char>,
    old_password: Seq<char>,
    new_password: Seq<char>,
    answers: ChangeAnswers,
) -> Option<Seq<char>> {
    match login_result(username, old_password, answers.login) {
        Ok(authenticated) => match password_change_plan(authenticated, new_password, answers.salt) {
            Ok(hash) => Some(hash),
            Err(_) => None,
        },
        Err(_) => None,
    }
}

/// What a change of password returns, given what its collaborators answered.
/// The steps, in order: a login with the old password; the check of the new
/// password; its hashing; the update of the record.
pub open spec fn change_password_result(
    username: Seq<char>,
    old_password: Seq<char>,
    new_password: Seq<char>,
    answers: ChangeAnswers,
) -> Result<(), AuthErrorView> {
    match login_result(username, old_password, answers.login) {
        Err(error) => Err(error),
        Ok(authenticated) => match password_change_plan(authenticated, new_password, answers.salt) {
            Err(error) => Err(error),
            Ok(_) => update_result(answers.updated),
        },
    }
}

/// Checks the credentials of a registration: neither may be empty, and the
/// password must meet the default policy.
pub fn check_registration(username: &str, password: &str) -> (verdict: Result<
    (),
    ValidationFailure,
>)
    ensures
        verdict == registration_check(username@, password@),
{
    match validate_credentials(username, password) {
        Err(failure) => Err(failure),
        Ok(()) => {
            let config = PasswordConfig::default();
            validate_password_strength(password, &config)
        },
    }
}

/// Decides what a registration hands to the store, once the store has said
/// whether the username exists: nothing, and a validation error, where it
/// does; else the hash of the password under a fresh salt, which there is
/// for every password of at most 0xFFFFFFFF bytes.
pub fn prepare_record(username: &str, password: &str, exists: bool) -> (record: AuthResult<String>)
    ensures
        exists|salt: Seq<char>|
            hash_view(record) == #[trigger] registration_plan(username@, password@, exists, salt),
        record matches Ok(hash) ==> is_hash_of(hash@, password@),
        !exists && byte_length(password@) <= max_password_bytes() ==> record is Ok,
{
    if exists {
        let error = taken_error(username);
        assert(registration_plan(username@, password@, exists, Seq::empty()) == Err::<
            Seq<char>,
            AuthErrorView,
        >(error@));
        return Err(error);
    }
    let hashed = hash_password(password);
    proof {
        let salt = choose|salt: Seq<char>|
            hash_view(hashed) == hashing_result(#[trigger] argon2_phc(password@, salt));
        assert(hash_view(hashed) == registration_plan(username@, password@, exists, salt));
    }
    hashed
}

/// Decides a login once the store has handed out what it holds for the
/// username. Where it holds nothing, a decoy hash is computed and the answer
/// is `false`: the caller cannot tell this from a wrong password, neither by
/// the result nor by the work done. Where it holds a hash, the password is
/// verified against it.
pub fn login_outcome(password: &str, stored: Option<String>) -> (verdict: AuthResult<bool>)
    ensures
        result_view(verdict) == stored_verdict(password@, stored_view(stored)),
{
    match stored {
        None => {
            dummy_hash_operation();
            Ok(false)
        },
        Some(hash) => verify_password(password, hash.as_str()),
    }
}

/// Decides what a change of password hands to the store, once the login with
/// the old password has been decided: nothing, and a validation error, where
/// the login failed or the new password breaks the default policy; else the
/// hash of the new password under a fresh salt, which there is for every
/// password of at most 0xFFFFFFFF bytes.
pub fn prepare_password_change(authenticated: bool, new_password: &str) -> (record: AuthResult<
    String,
>)
    ensures
        exists|salt: Seq<char>|
            hash_view(record) == #[trigger] password_change_plan(
                authenticated,
                new_password@,
                salt,
            ),
        record matches Ok(hash) ==> is_hash_of(hash@, new_password@),
        authenticated && strength_check(new_password@, default_config()) is Ok && byte_length(
            new_password@,
        ) <= max_password_bytes() ==> record is Ok,
{
    if !authenticated {
        let error = AuthError::Validation(String::from_str("Senha atual incorreta"));
        assert(password_change_plan(authenticated, new_password@, Seq::empty()) == Err::<
            Seq<char>,
            AuthErrorView,
        >(error@));
        return Err(error);
    }
    let config = PasswordConfig::default();
    if let Err(failure) = validate_password_strength(new_password, &config) {
        let error = failure.into_error();
        assert(password_change_plan(authenticated, new_password@, Seq::empty()) == Err::<
            Seq<char>,
            AuthErrorView,
        >(error@));
        return Err(error);
    }
    let hashed = hash_password(new_password);
    proof {
        let salt = choose|salt: Seq<char>|
            hash_view(hashed) == hashing_result(#[trigger] argon2_phc(new_password@, salt));
        assert(hash_view(hashed) == password_change_plan(authenticated, new_password@, salt));
    }
    hashed
}

/// Registers a user: checks the credentials, asks the store whether the
/// username is taken, hashes the password, and inserts the record. A
/// username that is taken is a validation error, whether the store says so
/// when asked or only when it refuses the insertion. The result is that of
/// `register_result` on what the store and the random generator answered.
pub fn register_user(conn: &Connection, username: &str, password: &str) -> (outcome: AuthResult<()>)
    ensures
        exists|answers: RegisterAnswers|
            result_view(outcome) == #[trigger] register_result(username@, password@, answers),
        registration_check(username@, password@) matches Err(failure) ==> result_view(outcome)
            == Err::<(), AuthErrorView>(validation_error_view(failure)),
{
    let ghost idle = RegisterAnswers { lookup: Ok(false), salt: Seq::empty(), inserted: Ok(0) };
    if let Err(failure) = check_registration(username, password) {
        let error = failure.into_error();
        assert(register_result(username@, password@, idle) == Err::<(), AuthErrorView>(error@));
        return Err(error);
    }
    let exists = match user_exists(conn, username) {
        Ok(exists) => exists,
        Err(error) => {
            proof {
                let answers = RegisterAnswers { lookup: Err(error_detail(error@)), ..idle };
                assert(register_result(username@, password@, answers) == Err::<
                    (),
                    AuthErrorView,
                >(error@));
            }
            return Err(error);
        },
    };
    let record = prepare_record(username, password, exists);
    let ghost salt = choose|salt: Seq<char>|
        hash_view(record) == #[trigger] registration_plan(username@, password@, exists, salt);
    let hash = match record {
        Ok(hash) => hash,
        Err(error) => {
            proof {
                let answers = RegisterAnswers { lookup: Ok(exists), salt, ..idle };
                assert(register_result(username@, password@, answers) == Err::<
                    (),
                    AuthErrorView,
                >(error@));
            }
            return Err(error);
        },
    };
    let outcome = insert_user(conn, username, hash.as_str());
    proof {
        let inserted: Result<usize, StoreFaultView> = match result_view(outcome) {
            Ok(_) => Ok(1),
            Err(error) => Err(
                StoreFaultView {
                    constraint_violation: !(error is Database),
                    message: error_detail(error),
                },
            ),
        };
        let answers = RegisterAnswers { lookup: Ok(exists), salt, inserted };
        assert(register_result(username@, password@, answers) == result_view(outcome));
    }
    outcome
}

/// Checks a login: the credentials must not be empty; then the store is
/// asked for the hash of the username and the password is verified against
/// it. An account that does not exist gives `Ok(false)` after a decoy hash
/// computation, so that it cannot be told from a wrong password. A fault of
/// the store and a stored hash that cannot be read are errors, never `false`.
/// The result is that of `login_result` on what the store answered.
pub fn login_user(conn: &Connection, username: &str, password: &str) -> (verdict: AuthResult<bool>)
    ensures
        exists|answers: LoginAnswers|
            result_view(verdict) == #[trigger] login_result(username@, password@, answers),
        credentials_check(username@, password@) matches Err(failure) ==> result_view(verdict)
            == Err::<bool, AuthErrorView>(validation_error_view(failure)),
{
    if let Err(failure) = validate_credentials(username, password) {
        let error = failure.into_error();
        proof {
            let answers = LoginAnswers { fetched: Ok(None) };
            assert(login_result(username@, password@, answers) == Err::<bool, AuthErrorView>(
                error@,
            ));
        }
        return Err(error);
    }
    let stored = match get_password_hash(conn, username) {
        Ok(stored) => stored,
        Err(error) => {
            proof {
                let answers = LoginAnswers { fetched: Err(error_detail(error@)) };
                assert(login_result(username@, password@, answers) == Err::<bool, AuthErrorView>(
                    error@,
                ));
            }
            return Err(error);
        },
    };
    let ghost answers = LoginAnswers { fetched: Ok(stored_view(stored)) };
    let verdict = login_outcome(password, stored);
    assert(login_result(username@, password@, answers) == result_view(verdict));
    verdict
}

/// Changes the password of a user: logs in with the old password, checks the
/// new one against the default policy, hashes it, and replaces the stored
/// hash. A login that gives `false`, for a wrong old password or for an
/// account that does not exist, is a validation error, and the store is not
/// written to. The result is that of `change_password_result` on what the
/// store and the random generator answered.
pub fn change_password(
    conn: &Connection,
    username: &str,
    old_password: &str,
    new_password: &str,
) -> (outcome: AuthResult<()>)
    ensures
        exists|answers: ChangeAnswers|
            result_view(outcome) == #[trigger] change_password_result(
                username@,
                old_password@,
                new_password@,
                answers,
            ),
        credentials_check(username@, old_password@) matches Err(failure) ==> result_view(outcome)
            == Err::<(), AuthErrorView>(validation_error_view(failure)),
{
    let login = login_user(conn, username, old_password);
    let ghost login_answers = choose|answers: LoginAnswers|
        result_view(login) == #[trigger] login_result(username@, old_password@, answers);
    let ghost idle = ChangeAnswers { login: login_answers, salt: Seq::empty(), updated: Ok(0) };
    let authenticated = match login {
        Ok(authenticated) => authenticated,
        Err(error) => {
            assert(change_password_result(username@, old_password@, new_password@, idle) == Err::<
                (),
                AuthErrorView,
            >(error@));
            return Err(error);
        },
    };
    let record = prepare_password_change(authenticated, new_password);
    let ghost salt = choose|salt: Seq<char>|
        hash_view(record) == #[trigger] password_change_plan(authenticated, new_password@, salt);
    let new_hash = match record {
        Ok(new_hash) => new_hash,
        Err(error) => {
            proof {
                let answers = ChangeAnswers { salt, ..idle };
                assert(change_password_result(username@, old_password@, new_password@, answers)
                    == Err::<(), AuthErrorView>(error@));
            }
            return Err(error);
        },
    };
    let outcome = update_password_hash(conn, username, new_hash.as_str());
    proof {
        let updated: Result<usize, StoreFaultView> = match result_view(outcome) {
            Ok(_) => Ok(1),
            Err(error) => Err(
                StoreFaultView { constraint_violation: false, message: error_detail(error) },
            ),
        };
        let answers = ChangeAnswers { login: login_answers, salt, updated };
        assert(change_password_result(username@, old_password@, new_password@, answers)
            == result_view(outcome));
    }
    outcome
}

} // verus!
